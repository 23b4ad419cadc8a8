//! Progress parsers: pure functions from one line of a tool's output to an
//! optional percentage. Lines that do not match are dropped, never an error.

use vstd::prelude::*;
use vstd::slice::slice_subrange;
use crate::text::{
    all_digits, chars_of, decimal_value, digit_value, find, find_first, first_word,
    first_word_bounds, is_digit, last_word, last_word_bounds, occurs_at, matches_at,
    parse_decimal,
};

verus! {

/// The length of the run of ASCII digits that `s` starts with.
pub open spec fn digit_run_len(s: Seq<char>) -> nat
    decreases s.len(),
{
    if s.len() > 0 && is_digit(s[0]) {
        1 + digit_run_len(s.drop_first())
    } else {
        0
    }
}

/// Whether `tok` is a decimal number: one or more digits, then optionally a
/// point and any number of digits.
pub open spec fn is_decimal_number(tok: Seq<char>) -> bool {
    let k = digit_run_len(tok) as int;
    k > 0 && (k == tok.len() || (tok[k] == '.' && all_digits(tok.skip(k + 1))))
}

/// The digits before the point of a decimal number.
pub open spec fn whole_part(tok: Seq<char>) -> Seq<char> {
    tok.take(digit_run_len(tok) as int)
}

/// The digits after the point of a decimal number; empty where it has no point.
pub open spec fn fraction_part(tok: Seq<char>) -> Seq<char> {
    if digit_run_len(tok) < tok.len() {
        tok.skip(digit_run_len(tok) as int + 1)
    } else {
        Seq::empty()
    }
}

/// The run of digits that `s` starts with never passes the end of `s`, and
/// holds digits only.
pub proof fn lemma_digit_run(s: Seq<char>)
    ensures
        digit_run_len(s) <= s.len(),
        all_digits(s.take(digit_run_len(s) as int)),
        digit_run_len(s) < s.len() ==> !is_digit(s[digit_run_len(s) as int]),
    decreases s.len(),
{
    if s.len() > 0 && is_digit(s[0]) {
        let t = s.drop_first();
        lemma_digit_run(t);
        let k = digit_run_len(s) as int;
        assert forall|i: int| 0 <= i < k implies is_digit(#[trigger] s.take(k)[i]) by {
            if i > 0 {
                assert(s.take(k)[i] == t.take(k - 1)[i - 1]);
            }
        }
    }
}

/// Measures the run of ASCII digits that `s` starts with.
pub fn digit_run(s: &[char]) -> (k: usize)
    ensures
        k == digit_run_len(s@),
        k <= s@.len(),
{
    let mut k: usize = 0;
    assert(s@.skip(0) =~= s@);
    while k < s.len() && '0' <= s[k] && s[k] <= '9'
        invariant
            k <= s.len(),
            digit_run_len(s@) == k + digit_run_len(s@.skip(k as int)),
        decreases s.len() - k,
    {
        assert(s@.skip(k as int).drop_first() =~= s@.skip(k + 1));
        k += 1;
    }
    k
}

/// Tests whether every character of `s` is an ASCII digit.
pub fn is_all_digits(s: &[char]) -> (b: bool)
    ensures
        b == all_digits(s@),
{
    let mut i: usize = 0;
    while i < s.len()
        invariant
            i <= s.len(),
            all_digits(s@.take(i as int)),
        decreases s.len() - i,
    {
        if !('0' <= s[i] && s[i] <= '9') {
            return false;
        }
        i += 1;
    }
    assert(s@.take(i as int) =~= s@);
    true
}

/// Tests whether `tok` is a decimal number, and measures its whole part.
pub fn decimal_number_split(tok: &[char]) -> (r: Option<usize>)
    ensures
        r is Some == is_decimal_number(tok@),
        r matches Some(k) ==> k == digit_run_len(tok@) && 0 < k <= tok@.len(),
{
    let k = digit_run(tok);
    if k == 0 {
        return None;
    }
    if k == tok.len() {
        return Some(k);
    }
    if tok[k] != '.' {
        return None;
    }
    let rest = slice_subrange(tok, k + 1, tok.len());
    assert(rest@ =~= tok@.skip(k + 1));
    if is_all_digits(rest) {
        Some(k)
    } else {
        None
    }
}

/// What a line of the fetch tool reports: the whole percent of the number
/// that stands before the first `%`, where the line starts with the progress
/// marker and that number is a decimal number of at most 100.
pub open spec fn fetch_percent(line: Seq<char>) -> Option<nat> {
    if !occurs_at(line, "[download]"@, 0) {
        None
    } else {
        match find_first(line, seq!['%']) {
            None => None,
            Some(p) => {
                let tok = last_word(line.take(p));
                if is_decimal_number(tok) && decimal_value(whole_part(tok)) <= 100 {
                    Some(decimal_value(whole_part(tok)))
                } else {
                    None
                }
            },
        }
    }
}

/// A percentage that the fetch tool reports is at most 100.
pub proof fn law_fetch_percent_in_range(line: Seq<char>)
    ensures
        fetch_percent(line) matches Some(p) ==> p <= 100,
{
}

/// A line without a percent sign reports nothing.
pub proof fn law_no_percent_sign_no_event(line: Seq<char>)
    requires
        forall|i: int| 0 <= i < line.len() ==> line[i] != '%',
    ensures
        fetch_percent(line) is None,
{
    crate::text::lemma_find_from_is_least(line, seq!['%'], 0);
    if let Some(p) = find_first(line, seq!['%']) {
        assert(line.subrange(p, p + 1)[0] == '%');
    }
}

/// The fetch-progress parser on the characters of a line.
pub fn fetch_progress_of(line: &[char]) -> (r: Option<u8>)
    ensures
        match r {
            Some(p) => fetch_percent(line@) == Some(p as nat),
            None => fetch_percent(line@) is None,
        },
{
    let marker = chars_of("[download]");
    if !matches_at(line, marker.as_slice(), 0) {
        return None;
    }
    let sign: [char; 1] = ['%'];
    assert(sign@ =~= seq!['%']);
    match find(line, sign.as_slice()) {
        None => None,
        Some(p) => {
            let before = slice_subrange(line, 0, p);
            assert(before@ =~= line@.take(p as int));
            let (lo, hi) = last_word_bounds(before);
            let tok = slice_subrange(before, lo, hi);
            match decimal_number_split(tok) {
                None => None,
                Some(k) => {
                    let whole = slice_subrange(tok, 0, k);
                    assert(whole@ =~= whole_part(tok@));
                    proof {
                        lemma_digit_run(tok@);
                    }
                    match parse_decimal(whole) {
                        Some(v) => if v <= 100 {
                            Some(v as u8)
                        } else {
                            None
                        },
                        None => None,
                    }
                },
            }
        },
    }
}

/// The fetch-progress parser: the percent that a line of the fetch tool
/// reports, if it reports one.
pub fn parse_fetch_progress(line: &str) -> (r: Option<u8>)
    ensures
        match r {
            Some(p) => fetch_percent(line@) == Some(p as nat),
            None => fetch_percent(line@) is None,
        },
{
    let chars = chars_of(line);
    fetch_progress_of(chars.as_slice())
}

/// The digit at place `i` of a fraction, or 0 where the fraction is shorter.
pub open spec fn fraction_digit(f: Seq<char>, i: int) -> nat {
    if 0 <= i < f.len() {
        digit_value(f[i])
    } else {
        0
    }
}

/// The millionths that the digits after a point stand for; digits past the
/// sixth are cut off.
pub open spec fn fraction_micros(f: Seq<char>) -> nat {
    fraction_digit(f, 0) * 100000 + fraction_digit(f, 1) * 10000 + fraction_digit(f, 2) * 1000
        + fraction_digit(f, 3) * 100 + fraction_digit(f, 4) * 10 + fraction_digit(f, 5)
}

/// The three fields of a time stamp: what stands before the first colon,
/// between the first and the second, and after the second.
pub open spec fn duration_fields(s: Seq<char>) -> Option<(Seq<char>, Seq<char>, Seq<char>)> {
    match find_first(s, seq![':']) {
        None => None,
        Some(a) => {
            let rest = s.skip(a + 1);
            match find_first(rest, seq![':']) {
                None => None,
                Some(b) => Some((s.take(a), rest.take(b), rest.skip(b + 1))),
            }
        },
    }
}

/// Whether `s` has the form `HH:MM:SS` or `HH:MM:SS.fraction`: hours and
/// minutes of one or more digits each, seconds a decimal number.
pub open spec fn is_duration(s: Seq<char>) -> bool {
    match duration_fields(s) {
        None => false,
        Some((h, m, sec)) => h.len() > 0 && all_digits(h) && m.len() > 0 && all_digits(m)
            && is_decimal_number(sec),
    }
}

/// The length of time that a well-formed time stamp denotes, in millionths
/// of a second.
pub open spec fn duration_total(s: Seq<char>) -> nat
    recommends
        is_duration(s),
{
    let (h, m, sec) = duration_fields(s).unwrap();
    (decimal_value(h) * 3600 + decimal_value(m) * 60 + decimal_value(whole_part(sec))) * 1000000
        + fraction_micros(fraction_part(sec))
}

/// What the duration parser makes of `s`: the length of time in millionths
/// of a second, and 0 for anything that is no time stamp or is too long to
/// represent.
pub open spec fn duration_micros(s: Seq<char>) -> nat {
    if is_duration(s) && duration_total(s) <= u64::MAX {
        duration_total(s)
    } else {
        0
    }
}

/// Reads the digit at place `i` of a fraction.
fn fraction_digit_at(f: &[char], i: usize) -> (d: u64)
    requires
        all_digits(f@),
    ensures
        d == fraction_digit(f@, i as int),
        d < 10,
{
    if i < f.len() {
        let c = f[i];
        assert(is_digit(c));
        (c as u32 - '0' as u32) as u64
    } else {
        0
    }
}

/// Reads the digits after a point as millionths.
fn fraction_micros_of(f: &[char]) -> (r: u64)
    requires
        all_digits(f@),
    ensures
        r == fraction_micros(f@),
        r < 1000000,
{
    fraction_digit_at(f, 0) * 100000 + fraction_digit_at(f, 1) * 10000 + fraction_digit_at(f, 2)
        * 1000 + fraction_digit_at(f, 3) * 100 + fraction_digit_at(f, 4) * 10
        + fraction_digit_at(f, 5)
}

/// The duration parser on the characters of a time stamp.
pub fn duration_of(s: &[char]) -> (r: u64)
    ensures
        r == duration_micros(s@),
{
    let colon: [char; 1] = [':'];
    assert(colon@ =~= seq![':']);
    let a = match find(s, colon.as_slice()) {
        None => { return 0; },
        Some(a) => a,
    };
    let n = s.len();
    let rest = slice_subrange(s, a + 1, n);
    assert(rest@ =~= s@.skip(a + 1));
    let b = match find(rest, colon.as_slice()) {
        None => { return 0; },
        Some(b) => b,
    };
    let h = slice_subrange(s, 0, a);
    let m = slice_subrange(rest, 0, b);
    let sec = slice_subrange(rest, b + 1, rest.len());
    assert(h@ =~= s@.take(a as int));
    assert(m@ =~= rest@.take(b as int));
    assert(sec@ =~= rest@.skip(b + 1));
    assert(duration_fields(s@) == Some((h@, m@, sec@)));
    if h.len() == 0 || m.len() == 0 || !is_all_digits(h) || !is_all_digits(m) {
        return 0;
    }
    let k = match decimal_number_split(sec) {
        None => { return 0; },
        Some(k) => k,
    };
    let whole = slice_subrange(sec, 0, k);
    assert(whole@ =~= whole_part(sec@));
    proof {
        lemma_digit_run(sec@);
    }
    let frac = if k < sec.len() {
        slice_subrange(sec, k + 1, sec.len())
    } else {
        slice_subrange(sec, k, sec.len())
    };
    assert(frac@ =~= fraction_part(sec@));
    let micros = fraction_micros_of(frac);
    let hours = match parse_decimal(h) {
        None => { return 0; },
        Some(v) => v,
    };
    let minutes = match parse_decimal(m) {
        None => { return 0; },
        Some(v) => v,
    };
    let seconds = match parse_decimal(whole) {
        None => { return 0; },
        Some(v) => v,
    };
    let total: u128 = (hours as u128 * 3600 + minutes as u128 * 60 + seconds as u128) * 1000000
        + micros as u128;
    if total <= u64::MAX as u128 {
        total as u64
    } else {
        0
    }
}

/// The duration parser: the length of time that `HH:MM:SS.fraction` denotes,
/// in millionths of a second; 0 for any other input.
pub fn parse_duration(s: &str) -> (r: u64)
    ensures
        r == duration_micros(s@),
{
    let chars = chars_of(s);
    duration_of(chars.as_slice())
}

/// The text that a line announces as the total duration: what stands between
/// the first `Duration: ` and the next comma.
pub open spec fn duration_field(line: Seq<char>) -> Option<Seq<char>> {
    match find_first(line, "Duration: "@) {
        None => None,
        Some(i) => {
            let rest = line.skip(i + "Duration: "@.len());
            match find_first(rest, seq![',']) {
                None => None,
                Some(e) => Some(rest.take(e)),
            }
        },
    }
}

/// The text that a line reports as the running time: the first word after
/// the first `time=`.
pub open spec fn time_field(line: Seq<char>) -> Option<Seq<char>> {
    match find_first(line, "time="@) {
        None => None,
        Some(i) => Some(first_word(line.skip(i + "time="@.len()))),
    }
}

/// The total duration that is known after `line`: the one that the line
/// announces, or else the one known before.
pub open spec fn total_after(total: nat, line: Seq<char>) -> nat {
    match duration_field(line) {
        None => total,
        Some(d) => duration_micros(d),
    }
}

/// The whole percent that `current` is of `total`, at most `i32::MAX`.
pub open spec fn percent_of(current: nat, total: nat) -> nat
    recommends
        total > 0,
{
    if current * 100 / total > i32::MAX {
        i32::MAX as nat
    } else {
        current * 100 / total
    }
}

/// What a line of the transcode tool reports, given the total duration that
/// is known once the line has been read: nothing while the total is unknown
/// or where the line reports no running time.
pub open spec fn transcode_percent(total: nat, line: Seq<char>) -> Option<nat> {
    match time_field(line) {
        None => None,
        Some(t) => if total > 0 {
            Some(percent_of(duration_micros(t), total))
        } else {
            None
        },
    }
}

/// A running time within the total gives a percentage within 100, and a
/// later running time never gives a smaller percentage.
pub proof fn law_percent_of(current: nat, later: nat, total: nat)
    requires
        total > 0,
        current <= later,
    ensures
        later <= total ==> percent_of(later, total) <= 100,
        later == total ==> percent_of(later, total) == 100,
        percent_of(current, total) <= percent_of(later, total),
        percent_of(later, total) <= i32::MAX,
{
    assert(later <= total ==> later * 100 / total <= 100) by (nonlinear_arith)
        requires
            total > 0,
    ;
    assert(later == total ==> later * 100 / total == 100) by (nonlinear_arith)
        requires
            total > 0,
    ;
    assert(current * 100 / total <= later * 100 / total) by (nonlinear_arith)
        requires
            total > 0,
            current <= later,
    ;
}

/// While the total duration is unknown, no line reports a percentage; and a
/// line without a running time reports none whatever the total is.
pub proof fn law_no_total_no_event(total: nat, line: Seq<char>)
    ensures
        transcode_percent(0, line) is None,
        time_field(line) is None ==> transcode_percent(total, line) is None,
        transcode_percent(total, line) is Some ==> total > 0 && transcode_percent(total, line)
            == Some(percent_of(duration_micros(time_field(line).unwrap()), total)),
{
}

/// The duration parser never gives more than can be represented, and gives 0
/// for every input that is no time stamp.
pub proof fn law_duration_is_total(s: Seq<char>)
    ensures
        duration_micros(s) <= u64::MAX,
        !is_duration(s) ==> duration_micros(s) == 0,
{
}

/// The transcode-progress parser: remembers the total duration over the
/// lines of one run of the transcode tool.
pub struct TranscodeProgress {
    total_micros: u64,
}

impl TranscodeProgress {
    /// The total duration known so far, in millionths of a second; 0 while unknown.
    pub closed spec fn total(&self) -> nat {
        self.total_micros as nat
    }

    /// A parser that has seen no line yet.
    pub fn new() -> (p: TranscodeProgress)
        ensures
            p.total() == 0,
    {
        TranscodeProgress { total_micros: 0 }
    }

    /// The total duration known so far, in millionths of a second; 0 while unknown.
    pub fn total_micros(&self) -> (t: u64)
        ensures
            t == self.total(),
    {
        self.total_micros
    }

    /// Reads one line given as characters.
    pub fn feed_chars(&mut self, line: &[char]) -> (r: Option<u32>)
        ensures
            final(self).total() == total_after(old(self).total(), line@),
            match r {
                Some(p) => transcode_percent(final(self).total(), line@) == Some(p as nat),
                None => transcode_percent(final(self).total(), line@) is None,
            },
    {
        let marker = chars_of("Duration: ");
        match find(line, marker.as_slice()) {
            None => {},
            Some(i) => {
                let n = line.len();
                let rest = slice_subrange(line, i + marker.len(), n);
                assert(rest@ =~= line@.skip(i + marker@.len()));
                let comma: [char; 1] = [','];
                assert(comma@ =~= seq![',']);
                match find(rest, comma.as_slice()) {
                    None => {},
                    Some(e) => {
                        let field = slice_subrange(rest, 0, e);
                        assert(field@ =~= rest@.take(e as int));
                        self.total_micros = duration_of(field);
                    },
                }
            },
        }
        let marker = chars_of("time=");
        match find(line, marker.as_slice()) {
            None => None,
            Some(i) => {
                let n = line.len();
                let rest = slice_subrange(line, i + marker.len(), n);
                assert(rest@ =~= line@.skip(i + marker@.len()));
                let (lo, hi) = first_word_bounds(rest);
                let current = duration_of(slice_subrange(rest, lo, hi));
                if self.total_micros > 0 {
                    let p: u128 = current as u128 * 100 / self.total_micros as u128;
                    if p > 2147483647 {
                        Some(2147483647)
                    } else {
                        Some(p as u32)
                    }
                } else {
                    None
                }
            },
        }
    }

    /// Reads one line of the transcode tool's output: takes the total duration
    /// from it where it announces one, and gives the percent done where it reports
    /// a running time and the total is known.
    pub fn feed(&mut self, line: &str) -> (r: Option<u32>)
        ensures
            final(self).total() == total_after(old(self).total(), line@),
            match r {
                Some(p) => transcode_percent(final(self).total(), line@) == Some(p as nat),
                None => transcode_percent(final(self).total(), line@) is None,
            },
    {
        let chars = chars_of(line);
        self.feed_chars(chars.as_slice())
    }
}

} // verus!
