use scribe_jobs::pipeline::Pipeline;
use scribe_jobs::text::{
    chars_of, find, first_word_bounds, is_space_char, last_word_bounds, matches_at, parse_decimal,
    string_of, trim_bounds,
};

fn cs(s: &str) -> Vec<char> {
    s.chars().collect()
}

#[test]
fn strings_and_characters_round_trip() {
    for s in ["", "a", "xin ch\u{e0}o", "\u{1f600} ok"] {
        assert_eq!(chars_of(s), cs(s));
        assert_eq!(string_of(&cs(s)), s);
    }
}

#[test]
fn space_test_agrees_with_std() {
    for code in 0u32..0x3100 {
        if let Some(c) = char::from_u32(code) {
            assert_eq!(is_space_char(c), c.is_whitespace(), "U+{:04X}", code);
        }
    }
    assert!(!is_space_char('\u{feff}'));
    assert!(!is_space_char(char::MAX));
}

#[test]
fn decimal_strings() {
    assert_eq!(parse_decimal(&cs("0")), Some(0));
    assert_eq!(parse_decimal(&cs("007")), Some(7));
    assert_eq!(parse_decimal(&cs("18446744073709551615")), Some(u64::MAX));
    assert_eq!(parse_decimal(&cs("18446744073709551616")), None);
    assert_eq!(parse_decimal(&cs("000018446744073709551615")), Some(u64::MAX));
    assert_eq!(parse_decimal(&cs("99999999999999999999999")), None);
    assert_eq!(parse_decimal(&cs("")), None);
    assert_eq!(parse_decimal(&cs("12a")), None);
    assert_eq!(parse_decimal(&cs("+1")), None);
    assert_eq!(parse_decimal(&cs("-1")), None);
    assert_eq!(parse_decimal(&cs("\u{661}")), None);
}

#[test]
fn searching() {
    assert_eq!(find(&cs("abcabc"), &cs("bc")), Some(1));
    assert_eq!(find(&cs("abcabc"), &cs("abcabc")), Some(0));
    assert_eq!(find(&cs("abcabc"), &cs("cab")), Some(2));
    assert_eq!(find(&cs("abcabc"), &cs("x")), None);
    assert_eq!(find(&cs("abc"), &cs("abcd")), None);
    assert_eq!(find(&cs("abc"), &cs("")), Some(0));
    assert_eq!(find(&cs(""), &cs("")), Some(0));
    assert_eq!(find(&cs(""), &cs("a")), None);
    assert_eq!(find(&cs("aab"), &cs("ab")), Some(1));
    assert!(matches_at(&cs("abc"), &cs("bc"), 1));
    assert!(!matches_at(&cs("abc"), &cs("bc"), 2));
    assert!(!matches_at(&cs("abc"), &cs("bc"), usize::MAX));
    assert!(matches_at(&cs("abc"), &cs(""), 3));
    assert!(!matches_at(&cs("abc"), &cs(""), 4));
}

#[test]
fn words_and_trimming() {
    let s = cs("  one two\tthree \n");
    assert_eq!(first_word_bounds(&s), (2, 5));
    assert_eq!(last_word_bounds(&s), (10, 15));
    assert_eq!(trim_bounds(&s), (2, 15));
    let blank = cs(" \t ");
    let (a, b) = first_word_bounds(&blank);
    assert_eq!(a, b);
    let (a, b) = last_word_bounds(&blank);
    assert_eq!(a, b);
    let (a, b) = trim_bounds(&blank);
    assert_eq!(a, b);
    assert_eq!(first_word_bounds(&cs("")), (0, 0));
    assert_eq!(last_word_bounds(&cs("")), (0, 0));
    assert_eq!(trim_bounds(&cs("")), (0, 0));
    assert_eq!(trim_bounds(&cs("x")), (0, 1));
}

#[test]
fn fresh_pipeline_has_a_uuid_and_names_its_files_after_it() {
    let a = Pipeline::fresh("u".to_string(), "/tmp");
    let b = Pipeline::fresh("u".to_string(), "/tmp");
    let id = a.job().id.clone();
    assert_eq!(id.len(), 36);
    for (i, c) in id.chars().enumerate() {
        if i == 8 || i == 13 || i == 18 || i == 23 {
            assert_eq!(c, '-');
        } else {
            assert!(c.is_ascii_digit() || ('a'..='f').contains(&c));
        }
    }
    assert_ne!(a.job().id, b.job().id);
    assert_eq!(a.raw_path(), &format!("/tmp/{}.webm", id));
    assert_eq!(a.audio_path(), &format!("/tmp/{}.wav", id));
    assert_eq!(a.job().status, "queued");
}
