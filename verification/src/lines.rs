//! Lines as the text itself marks them: cut at each line feed.

use vstd::prelude::*;
use crate::text::LineRange;

verus! {

pub const LINE_FEED: u8 = 0x0A;

pub const CARRIAGE_RETURN: u8 = 0x0D;

/// The offset of the first line feed at or after `from`; the length of the
/// text where there is none.
pub open spec fn newline_at_or_after(text: Seq<u8>, from: int) -> int
    decreases text.len() - from,
{
    if from < 0 || from >= text.len() {
        text.len() as int
    } else if text[from] == LINE_FEED {
        from
    } else {
        newline_at_or_after(text, from + 1)
    }
}

/// Where the line that starts at `start` ends: at its line feed, or one
/// byte earlier where a carriage return stands before the line feed; at the
/// end of the text where no line feed follows.
pub open spec fn line_end(text: Seq<u8>, start: int) -> int {
    let feed = newline_at_or_after(text, start);
    if start < feed < text.len() && text[feed - 1] == CARRIAGE_RETURN {
        feed - 1
    } else {
        feed
    }
}

/// Where line `i` starts: the first at the start of the text, each other one
/// behind the line feed that ended the line before.
pub open spec fn line_start(lines: Seq<LineRange>, text: Seq<u8>, i: int) -> int {
    if 0 < i <= lines.len() {
        newline_at_or_after(text, lines[i - 1].start as int) + 1
    } else {
        0
    }
}

/// Whether `lines` are the lines of `text`, in order. A text that ends in a
/// line feed has no empty line after it.
pub open spec fn is_split(lines: Seq<LineRange>, text: Seq<u8>) -> bool {
    &&& forall|i: int|
        0 <= i < lines.len() ==> {
            &&& (#[trigger] lines[i]).start == line_start(lines, text, i)
            &&& lines[i].start < text.len()
            &&& lines[i].end == line_end(text, lines[i].start as int)
        }
    &&& line_start(lines, text, lines.len() as int) >= text.len()
}

/// The found line feed is not before `from`, and no line feed stands between.
pub proof fn lemma_newline_at_or_after(text: Seq<u8>, from: int)
    requires
        0 <= from <= text.len(),
    ensures
        from <= newline_at_or_after(text, from) <= text.len(),
        newline_at_or_after(text, from) < text.len() ==> text[newline_at_or_after(text, from)]
            == LINE_FEED,
        forall|k: int| from <= k < newline_at_or_after(text, from) ==> text[k] != LINE_FEED,
    decreases text.len() - from,
{
    if from < text.len() && text[from] != LINE_FEED {
        lemma_newline_at_or_after(text, from + 1);
    }
}

/// Finds the first line feed at or after `from`.
pub fn find_newline(text: &[u8], from: usize) -> (at: usize)
    requires
        from <= text.len(),
    ensures
        at == newline_at_or_after(text@, from as int),
        from <= at <= text.len(),
{
    let mut at: usize = from;
    while at < text.len() && text[at] != LINE_FEED
        invariant
            from <= at <= text.len(),
            newline_at_or_after(text@, from as int) == newline_at_or_after(text@, at as int),
        decreases text.len() - at,
    {
        at += 1;
    }
    at
}

/// The lines of a text. No line holds a line feed, nor the carriage return
/// that stood before one.
pub fn split_lines(text: &[u8]) -> (lines: Vec<LineRange>)
    ensures
        is_split(lines@, text@),
        forall|i: int|
            0 <= i < lines@.len() ==> (#[trigger] lines@[i]).start <= lines@[i].end <= text@.len(),
{
    let mut lines: Vec<LineRange> = Vec::new();
    let mut start: usize = 0;
    while start < text.len()
        invariant
            start <= text@.len(),
            start < text@.len() ==> start == line_start(lines@, text@, lines@.len() as int),
            start == text@.len() ==> line_start(lines@, text@, lines@.len() as int) >= text@.len(),
            forall|i: int|
                0 <= i < lines@.len() ==> {
                    &&& (#[trigger] lines@[i]).start == line_start(lines@, text@, i)
                    &&& lines@[i].start < text@.len()
                    &&& lines@[i].end == line_end(text@, lines@[i].start as int)
                    &&& lines@[i].start <= lines@[i].end <= text@.len()
                },
        decreases text.len() - start,
    {
        let feed: usize = find_newline(text, start);
        let end: usize = if start < feed && feed < text.len() && text[feed - 1] == CARRIAGE_RETURN {
            feed - 1
        } else {
            feed
        };
        let ghost before = lines@;
        lines.push(LineRange { start, end });
        assert forall|i: int| 0 <= i < lines@.len() implies {
            &&& (#[trigger] lines@[i]).start == line_start(lines@, text@, i)
            &&& lines@[i].start < text@.len()
            &&& lines@[i].end == line_end(text@, lines@[i].start as int)
            &&& lines@[i].start <= lines@[i].end <= text@.len()
        } by {
            if i < before.len() {
                assert(lines@[i] == before[i]);
                assert(line_start(lines@, text@, i) == line_start(before, text@, i));
            }
        }
        if feed == text.len() {
            start = feed;
        } else {
            start = feed + 1;
        }
    }
    lines
}

/// The line without the line feed that it ends in, if it ends in one.
pub open spec fn without_trailing_newline(text: Seq<u8>, line: LineRange) -> LineRange {
    if line.start < line.end <= text.len() && text[line.end - 1] == LINE_FEED {
        LineRange { start: line.start, end: (line.end - 1) as usize }
    } else {
        line
    }
}

/// Takes the line feed off the end of a wrapped line.
pub fn trim_trailing_newline(text: &[u8], line: LineRange) -> (trimmed: LineRange)
    ensures
        trimmed == without_trailing_newline(text@, line),
{
    if line.start < line.end && line.end <= text.len() && text[line.end - 1] == LINE_FEED {
        LineRange { start: line.start, end: line.end - 1 }
    } else {
        line
    }
}

} // verus!
