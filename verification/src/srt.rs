//! SubRip/Srt functionality
use crate::time::{decimal, push_decimal, time_text, TimeSpan};
use vstd::prelude::*;
use vstd::string::StringExecFns;

verus! {

/// The block of the subtitle at the index `idx` in `srt` format: its number,
/// which is `idx + 1`, the line of its times, its text, and an end of line.
pub open spec fn spec_srt_line(idx: nat, time_span: TimeSpan, text: Seq<char>) -> Seq<char> {
    decimal(idx + 1) + seq!['\n'] + time_text(time_span.start.millis()) + seq![
        ' ',
        '-',
        '-',
        '>',
        ' ',
    ] + time_text(time_span.end.millis()) + seq!['\n'] + text + seq!['\n']
}

/// The blocks of the first `count` of `subtitles`, one behind the other.
pub open spec fn spec_srt(subtitles: Seq<(TimeSpan, String)>, count: nat) -> Seq<char>
    decreases count,
{
    if count == 0 {
        Seq::empty()
    } else {
        spec_srt(subtitles, (count - 1) as nat) + spec_srt_line(
            (count - 1) as nat,
            subtitles[count - 1].0,
            subtitles[count - 1].1@,
        )
    }
}

/// Write subtitles in `srt` format
///
/// Appends to `writer` the block of each of `subtitles`, in order, numbered
/// from 1.
pub fn write_srt(writer: &mut String, subtitles: &[(TimeSpan, String)])
    ensures
        final(writer)@ == old(writer)@ + spec_srt(subtitles@, subtitles@.len()),
{
    let count: usize = subtitles.len();
    let mut idx: usize = 0;
    while idx < count
        invariant
            idx <= count,
            count == subtitles@.len(),
            writer@ == old(writer)@ + spec_srt(subtitles@, idx as nat),
        decreases count - idx,
    {
        write_srt_line(writer, idx, &subtitles[idx].0, subtitles[idx].1.as_str());
        idx = idx + 1;
    }
}

/// Write an subtitle line in `srt` format
pub fn write_srt_line(writer: &mut String, idx: usize, time_span: &TimeSpan, text: &str)
    requires
        idx < usize::MAX,
    ensures
        final(writer)@ == old(writer)@ + spec_srt_line(idx as nat, *time_span, text@),
{
    let line_num: u64 = idx as u64 + 1;
    let start = time_span.start.to_string();
    let end = time_span.end.to_string();
    proof {
        reveal_strlit("\n");
        reveal_strlit(" --> ");
        assert(" --> "@ =~= seq![' ', '-', '-', '>', ' ']);
        assert("\n"@ =~= seq!['\n']);
    }
    push_decimal(writer, line_num);
    writer.append("\n");
    writer.append(start.as_str());
    writer.append(" --> ");
    writer.append(end.as_str());
    writer.append("\n");
    writer.append(text);
    writer.append("\n");
    assert(writer@ =~= old(writer)@ + spec_srt_line(idx as nat, *time_span, text@));
}

} // verus!
