//! Word wrapping: cutting a text into lines by asking, line after line, how
//! much of the rest fits.

use vstd::prelude::*;
use crate::text::LineRange;

verus! {

/// Whether `lines` is what wrapping a text of `len` bytes gives when
/// `break_text` answers, for a line width and the offset at which a line
/// starts, how many of the bytes from there on fit into one line. Each line is one such answer
/// and starts where the line before ended; after the last line either the
/// text is used up, or nothing more fits: then the rest is left out.
pub open spec fn is_wrapped<F: Fn(i32, usize) -> usize>(
    lines: Seq<LineRange>,
    len: usize,
    max_width: i32,
    break_text: F,
) -> bool {
    &&& forall|i: int|
        0 <= i < lines.len() ==> {
            &&& (#[trigger] lines[i]).start < lines[i].end <= len
            &&& lines[i].start == wrap_end(lines, i)
            &&& call_ensures(
                break_text,
                (max_width, lines[i].start),
                (lines[i].end - lines[i].start) as usize,
            )
        }
    &&& wrap_end(lines, lines.len() as int) == len || call_ensures(
        break_text,
        (max_width, wrap_end(lines, lines.len() as int)),
        0usize,
    )
}

/// Where the first `n` lines end: the start of the text before any line.
pub open spec fn wrap_end(lines: Seq<LineRange>, n: int) -> usize {
    if 0 < n <= lines.len() {
        lines[n - 1].end
    } else {
        0
    }
}

/// Cuts a text of `len` bytes into lines. `break_text(max_width, start)` is
/// asked for each line in turn and answers how many bytes, counted from
/// `start`, go into that line. An answer of zero ends the layout: a word that is wider
/// than a line is not drawn, nor anything after it.
pub fn wrap_lines<F: Fn(i32, usize) -> usize>(len: usize, max_width: i32, break_text: &F) -> (lines:
    Vec<LineRange>)
    requires
        forall|start: usize| start < len ==> call_requires(*break_text, (max_width, start)),
        forall|start: usize, n: usize|
            start < len && call_ensures(*break_text, (max_width, start), n) ==> n <= len - start,
    ensures
        is_wrapped(lines@, len, max_width, *break_text),
{
    let mut lines: Vec<LineRange> = Vec::new();
    let mut start: usize = 0;
    while start < len
        invariant
            start <= len,
            start == wrap_end(lines@, lines@.len() as int),
            forall|s: usize| s < len ==> call_requires(*break_text, (max_width, s)),
            forall|s: usize, n: usize|
                s < len && call_ensures(*break_text, (max_width, s), n) ==> n <= len - s,
            forall|i: int|
                0 <= i < lines@.len() ==> {
                    &&& (#[trigger] lines@[i]).start < lines@[i].end <= len
                    &&& lines@[i].start == wrap_end(lines@, i)
                    &&& call_ensures(
                        *break_text,
                        (max_width, lines@[i].start),
                        (lines@[i].end - lines@[i].start) as usize,
                    )
                },
        ensures
            start == wrap_end(lines@, lines@.len() as int),
            start == len || call_ensures(*break_text, (max_width, start), 0usize),
            forall|i: int|
                0 <= i < lines@.len() ==> {
                    &&& (#[trigger] lines@[i]).start < lines@[i].end <= len
                    &&& lines@[i].start == wrap_end(lines@, i)
                    &&& call_ensures(
                        *break_text,
                        (max_width, lines@[i].start),
                        (lines@[i].end - lines@[i].start) as usize,
                    )
                },
        decreases len - start,
    {
        let fitting: usize = break_text(max_width, start);
        if fitting == 0 {
            break;
        }
        let end: usize = start + fitting;
        let ghost before = lines@;
        lines.push(LineRange { start, end });
        assert forall|i: int| 0 <= i < lines@.len() implies {
            &&& (#[trigger] lines@[i]).start < lines@[i].end <= len
            &&& lines@[i].start == wrap_end(lines@, i)
            &&& call_ensures(
                *break_text,
                (max_width, lines@[i].start),
                (lines@[i].end - lines@[i].start) as usize,
            )
        } by {
            if i < before.len() {
                assert(lines@[i] == before[i]);
                assert(wrap_end(lines@, i) == wrap_end(before, i));
            }
        }
        start = end;
    }
    lines
}

/// Wrapped lines are no wider than the break query lets them be: whatever
/// holds of every answer of the query, such as that the bytes it counts
/// fit into the line width, holds of every line.
pub proof fn lemma_wrapped_lines_fit<F: Fn(i32, usize) -> usize>(
    lines: Seq<LineRange>,
    len: usize,
    max_width: i32,
    break_text: F,
    fits: spec_fn(int, int) -> bool,
)
    requires
        is_wrapped(lines, len, max_width, break_text),
        forall|start: usize, end: usize|
            start <= end && call_ensures(break_text, (max_width, start), (end - start) as usize)
                ==> #[trigger] fits(start as int, end as int),
    ensures
        forall|i: int|
            0 <= i < lines.len() ==> fits((#[trigger] lines[i]).start as int, lines[i].end as int),
{
    assert forall|i: int| 0 <= i < lines.len() implies fits(
        (#[trigger] lines[i]).start as int,
        lines[i].end as int,
    ) by {
        let line = lines[i];
        assert(call_ensures(break_text, (max_width, line.start), (line.end - line.start) as usize));
    }
}

/// A word that is wider than a line ends the layout: where the query can
/// only answer that nothing fits at some line's start, no line starts there.
pub proof fn lemma_unbreakable_word_ends_layout<F: Fn(i32, usize) -> usize>(
    lines: Seq<LineRange>,
    len: usize,
    max_width: i32,
    break_text: F,
    at: usize,
)
    requires
        is_wrapped(lines, len, max_width, break_text),
        forall|n: usize| #[trigger] call_ensures(break_text, (max_width, at), n) ==> n == 0,
    ensures
        forall|i: int| 0 <= i < lines.len() ==> (#[trigger] lines[i]).start != at,
        at == 0 ==> lines.len() == 0,
{
    assert forall|i: int| 0 <= i < lines.len() implies (#[trigger] lines[i]).start != at by {
        let n = (lines[i].end - lines[i].start) as usize;
        assert(call_ensures(break_text, (max_width, lines[i].start), n));
    }
    if at == 0 && lines.len() > 0 {
        assert(lines[0].start == wrap_end(lines, 0));
    }
}

} // verus!
