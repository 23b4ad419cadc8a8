//! Rendering of transcripts: time stamps of segment boundaries and the text
//! that the segments of one transcription make together.

use vstd::prelude::*;
use vstd::slice::slice_subrange;
use crate::text::{
    append_chars, append_decimal, append_str, chars_of, decimal, digit_char, string_of,
    trim_bounds, trimmed,
};

verus! {

/// The numeral of `i`, with a minus sign where `i` is negative.
pub open spec fn signed_decimal(i: int) -> Seq<char> {
    if i < 0 {
        seq!['-'] + decimal((-i) as nat)
    } else {
        decimal(i as nat)
    }
}

/// The numeral of `i`, filled with a zero to two characters.
pub open spec fn two_wide(i: int) -> Seq<char> {
    if 0 <= i < 10 {
        seq!['0'] + decimal(i as nat)
    } else {
        signed_decimal(i)
    }
}

/// The display form `M:SS` of a count of hundredths of a second: whole
/// minutes without padding, a colon, and the remaining whole seconds in two
/// digits. A negative count is cut towards zero and shows minus signs.
pub open spec fn timestamp_text(t: int) -> Seq<char> {
    if t >= 0 {
        decimal((t / 6000) as nat) + seq![':'] + two_wide((t / 100) % 60)
    } else {
        signed_decimal(-((-t) / 6000)) + seq![':'] + two_wide(-(((-t) / 100) % 60))
    }
}

/// For a count that is not negative the display form is the numeral of the
/// whole minutes, a colon, and exactly two digits of seconds below 60.
pub proof fn law_timestamp_shape(t: int)
    requires
        t >= 0,
    ensures
        ({
            let minutes = decimal((t / 6000) as nat);
            let text = timestamp_text(t);
            &&& text.len() == minutes.len() + 3
            &&& text.take(minutes.len() as int) == minutes
            &&& text[minutes.len() as int] == ':'
            &&& text[minutes.len() as int + 1] == digit_char((((t / 100) % 60) / 10) as nat)
            &&& text[minutes.len() as int + 2] == digit_char((((t / 100) % 60) % 10) as nat)
        }),
{
    let r = (t / 100) % 60;
    let minutes = decimal((t / 6000) as nat);
    assert(decimal((r / 10) as nat) =~= seq![digit_char((r / 10) as nat)]);
    assert(decimal((r % 10) as nat) =~= seq![digit_char((r % 10) as nat)]);
    if r >= 10 {
        assert(decimal(r as nat) =~= seq![digit_char((r / 10) as nat), digit_char((r % 10) as nat)]);
    } else {
        assert(decimal(r as nat) =~= seq![digit_char(r as nat)]);
    }
    assert(two_wide(r).len() == 2);
    assert(timestamp_text(t).take(minutes.len() as int) =~= minutes);
}

/// Appends the display form of `t` to `out`.
pub fn append_timestamp(out: &mut Vec<char>, t: i64)
    ensures
        final(out)@ == old(out)@ + timestamp_text(t as int),
{
    let negative = t < 0;
    let magnitude: u64 = if negative {
        (-(t + 1)) as u64 + 1
    } else {
        t as u64
    };
    let seconds: u64 = magnitude / 100;
    let minutes: u64 = seconds / 60;
    let rest: u64 = seconds % 60;
    assert(minutes == magnitude / 6000) by (nonlinear_arith)
        requires
            seconds == magnitude / 100,
            minutes == seconds / 60,
    ;
    if negative && minutes > 0 {
        out.push('-');
    }
    append_decimal(out, minutes);
    out.push(':');
    if negative && rest > 0 {
        out.push('-');
    } else if rest < 10 {
        out.push('0');
    }
    append_decimal(out, rest);
    assert(out@ =~= old(out)@ + timestamp_text(t as int));
}

/// Renders a count of hundredths of a second as `M:SS`.
pub fn format_timestamp(t: i64) -> (s: String)
    ensures
        s@ == timestamp_text(t as int),
{
    let mut out: Vec<char> = Vec::new();
    append_timestamp(&mut out, t);
    string_of(out.as_slice())
}

/// One piece of recognised speech, with its bounds in hundredths of a second.
#[derive(Debug, PartialEq, Eq)]
pub struct TranscriptSegment {
    pub start_centis: i64,
    pub end_centis: i64,
    pub text: String,
}

/// A segment as plain values.
pub struct SegmentView {
    pub start_centis: int,
    pub end_centis: int,
    pub text: Seq<char>,
}

impl View for TranscriptSegment {
    type V = SegmentView;

    open spec fn view(&self) -> SegmentView {
        SegmentView {
            start_centis: self.start_centis as int,
            end_centis: self.end_centis as int,
            text: self.text@,
        }
    }
}

/// The line that one segment makes in a transcript.
pub open spec fn segment_line(seg: SegmentView) -> Seq<char> {
    "["@ + timestamp_text(seg.start_centis) + " -> "@ + timestamp_text(seg.end_centis) + "] "@
        + trimmed(seg.text) + "\n"@
}

/// The lines of the segments, in the order of the segments.
pub open spec fn transcript_lines(segs: Seq<SegmentView>) -> Seq<char>
    decreases segs.len(),
{
    if segs.len() == 0 {
        Seq::empty()
    } else {
        transcript_lines(segs.drop_last()) + segment_line(segs.last())
    }
}

/// The transcript of a sequence of segments: their lines, without white
/// space at either end.
pub open spec fn transcript_text(segs: Seq<SegmentView>) -> Seq<char> {
    trimmed(transcript_lines(segs))
}

/// The plain values of a sequence of segments.
pub open spec fn segment_views(segs: Seq<TranscriptSegment>) -> Seq<SegmentView> {
    segs.map_values(|s: TranscriptSegment| s@)
}

/// Appends the line of one segment to `out`.
pub fn append_segment_line(out: &mut Vec<char>, seg: &TranscriptSegment)
    ensures
        final(out)@ == old(out)@ + segment_line(seg@),
{
    append_str(out, "[");
    append_timestamp(out, seg.start_centis);
    append_str(out, " -> ");
    append_timestamp(out, seg.end_centis);
    append_str(out, "] ");
    let text = chars_of(seg.text.as_str());
    let (lo, hi) = trim_bounds(text.as_slice());
    append_chars(out, slice_subrange(text.as_slice(), lo, hi));
    append_str(out, "\n");
    assert(out@ =~= old(out)@ + segment_line(seg@));
}

/// Joins the segments of one transcription into its transcript: one line
/// `[start -> end] text` for each segment, in order, the whole without white
/// space at either end.
pub fn assemble_transcript(segments: &Vec<TranscriptSegment>) -> (s: String)
    ensures
        s@ == transcript_text(segment_views(segments@)),
{
    let mut out: Vec<char> = Vec::new();
    let mut i: usize = 0;
    let ghost views = segment_views(segments@);
    while i < segments.len()
        invariant
            i <= segments.len(),
            views == segment_views(segments@),
            out@ == transcript_lines(views.take(i as int)),
        decreases segments.len() - i,
    {
        append_segment_line(&mut out, &segments[i]);
        proof {
            assert(views.take(i + 1).drop_last() =~= views.take(i as int));
            assert(views.take(i + 1).last() == segments@[i as int]@);
        }
        i += 1;
    }
    assert(views.take(i as int) =~= views);
    let (lo, hi) = trim_bounds(out.as_slice());
    string_of(slice_subrange(out.as_slice(), lo, hi))
}

} // verus!
