//! Lines that are too wide: where they are cut, and what is drawn of them.

use vstd::prelude::*;
use crate::text::{Glyph, LineRange, TextMetrics, TextOverflow};

verus! {

/// How far the pen has moved after the first `n` glyphs.
pub open spec fn advance_sum(glyphs: Seq<Glyph>, n: int) -> int
    decreases n,
{
    if n <= 0 {
        0
    } else {
        advance_sum(glyphs, n - 1) + glyphs[n - 1].advance_x
    }
}

/// The first glyph, at or after `from`, behind which the pen has reached
/// `limit`; the number of glyphs where there is none.
pub open spec fn crossing_from(glyphs: Seq<Glyph>, limit: int, from: int) -> int
    decreases glyphs.len() - from,
{
    if from < 0 || from >= glyphs.len() {
        glyphs.len() as int
    } else if advance_sum(glyphs, from + 1) >= limit {
        from
    } else {
        crossing_from(glyphs, limit, from + 1)
    }
}

/// The first glyph behind which the pen has reached `limit`.
pub open spec fn crossing(glyphs: Seq<Glyph>, limit: int) -> int {
    crossing_from(glyphs, limit, 0)
}

/// The crossing is the first glyph of its kind: the pen stays short of the
/// limit behind every glyph before it.
pub proof fn lemma_crossing_from(glyphs: Seq<Glyph>, limit: int, from: int)
    requires
        0 <= from <= glyphs.len(),
    ensures
        from <= crossing_from(glyphs, limit, from) <= glyphs.len(),
        crossing_from(glyphs, limit, from) < glyphs.len() ==> advance_sum(
            glyphs,
            crossing_from(glyphs, limit, from) + 1,
        ) >= limit,
        forall|n: int|
            from < n <= crossing_from(glyphs, limit, from) ==> #[trigger] advance_sum(glyphs, n)
                < limit,
    decreases glyphs.len() - from,
{
    if from < glyphs.len() && advance_sum(glyphs, from + 1) < limit {
        lemma_crossing_from(glyphs, limit, from + 1);
    }
}

/// The pen's travel is bounded by the number of glyphs.
pub proof fn lemma_advance_sum_bounds(glyphs: Seq<Glyph>, n: int)
    requires
        0 <= n <= glyphs.len(),
    ensures
        -n * 0x8000_0000 <= advance_sum(glyphs, n) <= n * 0x8000_0000,
    decreases n,
{
    if n > 0 {
        lemma_advance_sum_bounds(glyphs, n - 1);
    }
}

/// Finds the first glyph behind which the pen has reached `limit`.
pub fn find_crossing(glyphs: &[Glyph], limit: i64) -> (at: usize)
    ensures
        at == crossing(glyphs@, limit as int),
        at <= glyphs@.len(),
{
    let mut at: usize = 0;
    let mut pen: i128 = 0;
    while at < glyphs.len()
        invariant
            at <= glyphs@.len(),
            pen == advance_sum(glyphs@, at as int),
            crossing(glyphs@, limit as int) == crossing_from(glyphs@, limit as int, at as int),
        decreases glyphs@.len() - at,
    {
        proof {
            lemma_advance_sum_bounds(glyphs@, at as int);
            assert(at * 0x8000_0000 <= 0xffff_ffff_ffff_ffff * 0x8000_0000) by (nonlinear_arith)
                requires
                    0 <= at <= 0xffff_ffff_ffff_ffff,
            ;
        }
        pen = pen + glyphs[at].advance_x as i128;
        if pen >= limit as i128 {
            return at;
        }
        at += 1;
    }
    at
}

/// A line as it is drawn: the bytes of the text that are kept, and whether
/// an ellipsis follows them.
#[derive(Clone, Copy, Debug, PartialEq, Eq, Structural)]
pub struct DrawnLine {
    pub range: LineRange,
    pub ellipsis: bool,
}

/// Whether the glyphs all lie in a text of `len` bytes.
pub open spec fn glyphs_within(glyphs: Seq<Glyph>, len: int) -> bool {
    forall|i: int| 0 <= i < glyphs.len() ==> (#[trigger] glyphs[i]).byte_index <= len
}

/// What is drawn of `line`, whose measured width and glyphs are given. A
/// line that fits, or that may overflow, is drawn whole. A line that is too
/// wide and is to be elided is cut before the first glyph with which the pen
/// reaches the width less the ellipsis, and gets the ellipsis; where the pen
/// never gets that far, it is drawn whole.
pub open spec fn fitted_line(
    line: LineRange,
    width: int,
    glyphs: Seq<Glyph>,
    max_width: int,
    overflow: TextOverflow,
    ellipsis_width: int,
) -> DrawnLine {
    let cut = crossing(glyphs, max_width - ellipsis_width);
    if overflow == TextOverflow::Elide && width > max_width && 0 <= cut < glyphs.len() {
        DrawnLine {
            range: LineRange {
                start: line.start,
                end: (line.start + glyphs[cut].byte_index) as usize,
            },
            ellipsis: true,
        }
    } else {
        DrawnLine { range: line, ellipsis: false }
    }
}

/// Decides what is drawn of a line that was measured.
pub fn fit_line(
    line: LineRange,
    metrics: &TextMetrics,
    max_width: i32,
    overflow: TextOverflow,
    ellipsis_width: i32,
) -> (drawn: DrawnLine)
    requires
        line.start <= line.end,
        glyphs_within(metrics.glyphs@, line.len()),
    ensures
        drawn == fitted_line(
            line,
            metrics.width as int,
            metrics.glyphs@,
            max_width as int,
            overflow,
            ellipsis_width as int,
        ),
        drawn.range.start == line.start,
        drawn.range.start <= drawn.range.end <= line.end,
{
    let whole = DrawnLine { range: line, ellipsis: false };
    match overflow {
        TextOverflow::Clip => whole,
        TextOverflow::Elide => {
            if metrics.width <= max_width {
                return whole;
            }
            let limit: i64 = max_width as i64 - ellipsis_width as i64;
            let cut: usize = find_crossing(metrics.glyphs.as_slice(), limit);
            if cut < metrics.glyphs.len() {
                let kept: usize = metrics.glyphs[cut].byte_index;
                DrawnLine { range: LineRange { start: line.start, end: line.start + kept }, ellipsis: true }
            } else {
                whole
            }
        },
    }
}

/// An elided line fits: where the measured width is the pen's travel over
/// all glyphs and the ellipsis alone fits into the space, a line that
/// is too wide is cut, and the glyphs kept and the ellipsis together are no
/// wider than the space.
pub proof fn lemma_elided_line_fits(
    line: LineRange,
    glyphs: Seq<Glyph>,
    max_width: int,
    ellipsis_width: int,
)
    requires
        advance_sum(glyphs, glyphs.len() as int) > max_width,
        0 <= ellipsis_width <= max_width,
        glyphs_within(glyphs, line.len()),
        line.start <= line.end,
    ensures
        ({
            let width = advance_sum(glyphs, glyphs.len() as int);
            let drawn = fitted_line(line, width, glyphs, max_width, TextOverflow::Elide, ellipsis_width);
            let kept = crossing(glyphs, max_width - ellipsis_width);
            &&& drawn.ellipsis
            &&& 0 <= kept < glyphs.len()
            &&& drawn.range.end == line.start + glyphs[kept].byte_index
            &&& advance_sum(glyphs, kept) + ellipsis_width <= max_width
        }),
{
    let limit = max_width - ellipsis_width;
    lemma_crossing_from(glyphs, limit, 0);
    let kept = crossing(glyphs, limit);
    if kept >= glyphs.len() {
        if glyphs.len() > 0 {
            assert(advance_sum(glyphs, glyphs.len() as int) < limit);
        }
        assert(false);
    }
    if kept > 0 {
        assert(advance_sum(glyphs, kept) < limit);
    }
}

/// The bytes of the ellipsis character.
pub open spec fn ellipsis_bytes() -> Seq<u8> {
    seq![0xE2u8, 0x80u8, 0xA6u8]
}

/// The bytes that are drawn for a line.
pub open spec fn rendered(text: Seq<u8>, drawn: DrawnLine) -> Seq<u8> {
    let kept = text.subrange(drawn.range.start as int, drawn.range.end as int);
    if drawn.ellipsis {
        kept + ellipsis_bytes()
    } else {
        kept
    }
}

/// Builds the bytes that are drawn for a line: the kept part of the text,
/// and the ellipsis behind it where the line was cut.
pub fn rendered_line(text: &[u8], drawn: &DrawnLine) -> (bytes: Vec<u8>)
    requires
        drawn.range.start <= drawn.range.end <= text@.len(),
    ensures
        bytes@ == rendered(text@, *drawn),
        drawn.ellipsis ==> bytes@.len() >= 3 && bytes@.subrange(bytes@.len() - 3, bytes@.len() as int)
            == ellipsis_bytes(),
{
    let mut bytes: Vec<u8> = Vec::new();
    let mut i: usize = drawn.range.start;
    while i < drawn.range.end
        invariant
            drawn.range.start <= i <= drawn.range.end <= text@.len(),
            bytes@ == text@.subrange(drawn.range.start as int, i as int),
        decreases drawn.range.end - i,
    {
        bytes.push(text[i]);
        assert(bytes@ =~= text@.subrange(drawn.range.start as int, i + 1));
        i += 1;
    }
    if drawn.ellipsis {
        let ghost kept = bytes@;
        bytes.push(0xE2);
        bytes.push(0x80);
        bytes.push(0xA6);
        assert(bytes@ =~= kept + ellipsis_bytes());
        assert(bytes@.subrange(bytes@.len() - 3, bytes@.len() as int) =~= ellipsis_bytes());
    }
    bytes
}

} // verus!
