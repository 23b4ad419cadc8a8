use scribe_jobs::transcript::{assemble_transcript, format_timestamp, TranscriptSegment};

fn seg(start: i64, end: i64, text: &str) -> TranscriptSegment {
    TranscriptSegment { start_centis: start, end_centis: end, text: text.to_string() }
}

#[test]
fn timestamp_of_905_centiseconds() {
    assert_eq!(format_timestamp(905), "0:09");
}

#[test]
fn timestamp_of_6005_centiseconds() {
    assert_eq!(format_timestamp(6005), "1:00");
}

#[test]
fn timestamp_edges() {
    assert_eq!(format_timestamp(0), "0:00");
    assert_eq!(format_timestamp(99), "0:00");
    assert_eq!(format_timestamp(100), "0:01");
    assert_eq!(format_timestamp(5999), "0:59");
    assert_eq!(format_timestamp(6000), "1:00");
    assert_eq!(format_timestamp(75_000), "12:30");
    assert_eq!(format_timestamp(600_000), "100:00");
    assert_eq!(format_timestamp(i64::MAX), "1537228672809129:18");
}

#[test]
fn timestamp_of_negative_counts_matches_std_formatting() {
    for t in [-1i64, -99, -100, -905, -1000, -5999, -6000, -6005, -75_000, i64::MIN] {
        let seconds = t / 100;
        assert_eq!(format_timestamp(t), format!("{}:{:02}", seconds / 60, seconds % 60));
    }
    assert_eq!(format_timestamp(-905), "0:-9");
    assert_eq!(format_timestamp(-6005), "-1:00");
}

#[test]
fn timestamp_matches_std_formatting() {
    let mut t: i64 = 0;
    while t < 400_000 {
        let seconds = t / 100;
        assert_eq!(format_timestamp(t), format!("{}:{:02}", seconds / 60, seconds % 60));
        t += 37;
    }
}

#[test]
fn transcript_of_no_segments_is_empty() {
    assert_eq!(assemble_transcript(&vec![]), "");
}

#[test]
fn transcript_lines_in_order() {
    let segs = vec![seg(0, 905, "  hello "), seg(905, 6005, "world\n"), seg(6005, 6100, "")];
    assert_eq!(
        assemble_transcript(&segs),
        "[0:00 -> 0:09] hello\n[0:09 -> 1:00] world\n[1:00 -> 1:01]"
    );
}

#[test]
fn transcript_trims_unicode_space() {
    let segs = vec![seg(0, 100, "\u{a0}\u{3000}xin ch\u{e0}o\u{2003}\t")];
    assert_eq!(assemble_transcript(&segs), "[0:00 -> 0:01] xin ch\u{e0}o");
    let text = "\u{a0}\u{3000}xin ch\u{e0}o\u{2003}\t";
    assert_eq!(assemble_transcript(&segs), format!("[0:00 -> 0:01] {}", text.trim()));
}
