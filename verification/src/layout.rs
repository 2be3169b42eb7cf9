//! The size of a block of text, and where each of its lines is drawn.

use vstd::prelude::*;
use crate::elide::{fit_line, fitted_line, glyphs_within, DrawnLine};
use crate::geometry::Point;
use crate::lines::{is_split, split_lines, trim_trailing_newline, without_trailing_newline};
use crate::text::{
    align_horizontally, align_vertically, horizontal_offset, vertical_offset, LineRange,
    TextHorizontalAlignment, TextMetrics, TextOverflow, TextVerticalAlignment, TextWrap,
};
use crate::units::max_int;
use crate::wrap::{is_wrapped, wrap_lines};

verus! {

/// The measured size of one line.
#[derive(Clone, Copy, Debug, PartialEq, Eq, Structural)]
pub struct LineMeasure {
    pub width: i32,
    pub height: i32,
}

/// A width and a height that the library computed.
#[derive(Clone, Copy, Debug, PartialEq, Eq, Structural)]
pub struct Size {
    pub width: i64,
    pub height: i64,
}

/// The longest text that is laid out, in bytes.
pub const MAX_TEXT_LEN: usize = 0x3fff_ffff;

/// The width of the widest of the first `n` lines; zero for none, and never less.
pub open spec fn widest(measures: Seq<LineMeasure>, n: int) -> int
    decreases n,
{
    if n <= 0 {
        0
    } else {
        max_int(widest(measures, n - 1), measures[n - 1].width as int)
    }
}

/// The height of a block of lines: each line but the last takes one line
/// height, whatever its own height; the last takes its own.
pub open spec fn block_height(measures: Seq<LineMeasure>, line_height: int) -> int {
    if measures.len() == 0 {
        0
    } else {
        (measures.len() - 1) * line_height + measures.last().height
    }
}

/// The size of a block whose lines measure `measures`.
pub open spec fn block_size_of(measures: Seq<LineMeasure>, line_height: int) -> Size {
    Size {
        width: widest(measures, measures.len() as int) as i64,
        height: block_height(measures, line_height) as i64,
    }
}

/// No line is wider than the block, and the block is as wide as one of
/// them unless it has no width at all.
pub proof fn lemma_widest(measures: Seq<LineMeasure>, n: int)
    requires
        0 <= n <= measures.len(),
    ensures
        0 <= widest(measures, n) <= i32::MAX,
        forall|i: int| 0 <= i < n ==> (#[trigger] measures[i]).width <= widest(measures, n),
        widest(measures, n) == 0 || exists|i: int|
            0 <= i < n && (#[trigger] measures[i]).width == widest(measures, n),
    decreases n,
{
    if n > 0 {
        lemma_widest(measures, n - 1);
        if widest(measures, n) != 0 {
            if widest(measures, n) == measures[n - 1].width {
                assert(measures[n - 1].width == widest(measures, n));
            } else {
                let i = choose|i: int|
                    0 <= i < n - 1 && (#[trigger] measures[i]).width == widest(measures, n - 1);
                assert(measures[i].width == widest(measures, n));
            }
        }
    }
}

/// Computes the size of a block from the measures of its lines.
pub fn block_size(measures: &[LineMeasure], line_height: i32) -> (size: Size)
    requires
        measures@.len() <= MAX_TEXT_LEN,
    ensures
        size == block_size_of(measures@, line_height as int),
        -crate::text::MAX_BLOCK_HEIGHT <= size.height <= crate::text::MAX_BLOCK_HEIGHT,
{
    let mut width: i64 = 0;
    let mut i: usize = 0;
    while i < measures.len()
        invariant
            i <= measures@.len(),
            width == widest(measures@, i as int),
            0 <= width <= i32::MAX,
        decreases measures@.len() - i,
    {
        let w: i64 = measures[i].width as i64;
        if w > width {
            width = w;
        }
        i += 1;
    }
    let count: usize = measures.len();
    if count == 0 {
        return Size { width, height: 0 };
    }
    let above: i64 = (count - 1) as i64;
    let step: i64 = line_height as i64;
    assert(-0x3fff_ffff * 0x8000_0000 <= above * step <= 0x3fff_ffff * 0x8000_0000)
        by (nonlinear_arith)
        requires
            0 <= above <= 0x3fff_ffff,
            -0x8000_0000 <= step <= 0x8000_0000,
    ;
    let height: i64 = above * step + measures[count - 1].height as i64;
    Size { width, height }
}

/// Whether `lines` are the lines of `text`: wrapped to the width where one
/// is given, else as the text's own line feeds cut it.
pub open spec fn is_lines_of<F: Fn(i32, usize) -> usize>(
    lines: Seq<LineRange>,
    text: Seq<u8>,
    max_width: Option<i32>,
    break_text: F,
) -> bool {
    match max_width {
        Some(width) => is_wrapped(lines, text.len() as usize, width, break_text),
        None => is_split(lines, text),
    }
}

/// Whether `measures` holds, line for line, what `measure` gave for it.
pub open spec fn is_measured<M: Fn(LineRange) -> LineMeasure>(
    lines: Seq<LineRange>,
    measures: Seq<LineMeasure>,
    measure: M,
) -> bool {
    &&& measures.len() == lines.len()
    &&& forall|i: int|
        0 <= i < lines.len() ==> call_ensures(measure, (lines[i],), #[trigger] measures[i])
}

/// What the break query must accept and promise for a text of `len` bytes:
/// it can be asked at every offset in the text, and never counts more bytes
/// than are left.
pub open spec fn break_query_ok<F: Fn(i32, usize) -> usize>(
    break_text: F,
    max_width: i32,
    len: usize,
) -> bool {
    &&& forall|start: usize| start < len ==> call_requires(break_text, (max_width, start))
    &&& forall|start: usize, n: usize|
        start < len && call_ensures(break_text, (max_width, start), n) ==> n <= len - start
}

/// The lines of a text: wrapped where a width is given, else split at its
/// line feeds.
pub fn text_lines<F: Fn(i32, usize) -> usize>(
    text: &[u8],
    max_width: Option<i32>,
    break_text: &F,
) -> (lines: Vec<LineRange>)
    requires
        max_width matches Some(width) ==> break_query_ok(*break_text, width, text@.len() as usize),
    ensures
        is_lines_of(lines@, text@, max_width, *break_text),
        forall|i: int|
            0 <= i < lines@.len() ==> (#[trigger] lines@[i]).start <= lines@[i].end <= text@.len(),
        lines@.len() <= text@.len(),
{
    let lines = match max_width {
        Some(width) => wrap_lines(text.len(), width, break_text),
        None => split_lines(text),
    };
    proof {
        lemma_line_count(lines@, text@, max_width, *break_text);
    }
    lines
}

/// A text has no more lines than bytes.
pub proof fn lemma_line_count<F: Fn(i32, usize) -> usize>(
    lines: Seq<LineRange>,
    text: Seq<u8>,
    max_width: Option<i32>,
    break_text: F,
)
    requires
        is_lines_of(lines, text, max_width, break_text),
    ensures
        lines.len() <= text.len(),
{
    lemma_line_starts_grow(lines, text, max_width, break_text, lines.len() as int);
}

proof fn lemma_line_starts_grow<F: Fn(i32, usize) -> usize>(
    lines: Seq<LineRange>,
    text: Seq<u8>,
    max_width: Option<i32>,
    break_text: F,
    n: int,
)
    requires
        is_lines_of(lines, text, max_width, break_text),
        0 <= n <= lines.len(),
    ensures
        n > 0 ==> n - 1 <= lines[n - 1].start < text.len(),
    decreases n,
{
    if n > 1 {
        lemma_line_starts_grow(lines, text, max_width, break_text, n - 1);
        let previous = lines[n - 2];
        let line = lines[n - 1];
        match max_width {
            Some(width) => {
                assert(line.start == crate::wrap::wrap_end(lines, n - 1));
                assert(previous.start < previous.end);
            },
            None => {
                assert(line.start == crate::lines::line_start(lines, text, n - 1));
                crate::lines::lemma_newline_at_or_after(text, previous.start as int);
            },
        }
    } else if n == 1 {
        let line = lines[0];
        assert(line.start < text.len());
    }
}

/// Whether `measure` can be asked for every line within a text of `len` bytes.
pub open spec fn measure_ok<M: Fn(LineRange) -> LineMeasure>(measure: M, len: int) -> bool {
    forall|line: LineRange| line.start <= line.end <= len ==> call_requires(measure, (line,))
}

/// Measures each line in turn.
pub fn measure_lines<M: Fn(LineRange) -> LineMeasure>(lines: &[LineRange], measure: &M) -> (measures:
    Vec<LineMeasure>)
    requires
        forall|i: int| 0 <= i < lines@.len() ==> call_requires(*measure, (#[trigger] lines@[i],)),
    ensures
        is_measured(lines@, measures@, *measure),
{
    let mut measures: Vec<LineMeasure> = Vec::new();
    let mut i: usize = 0;
    while i < lines.len()
        invariant
            i <= lines@.len(),
            measures@.len() == i,
            forall|k: int| 0 <= k < lines@.len() ==> call_requires(*measure, (#[trigger] lines@[k],)),
            forall|k: int|
                0 <= k < i ==> call_ensures(*measure, (lines@[k],), #[trigger] measures@[k]),
        decreases lines@.len() - i,
    {
        let line = lines[i];
        let m = measure(line);
        measures.push(m);
        i += 1;
    }
    measures
}

/// Whether `size` is the size of the block that `text` makes: the size of
/// the measures of its lines, for some way in which the break query and the
/// measuring could have answered.
pub open spec fn is_text_size<F: Fn(i32, usize) -> usize, M: Fn(LineRange) -> LineMeasure>(
    size: Size,
    text: Seq<u8>,
    max_width: Option<i32>,
    line_height: int,
    break_text: F,
    measure: M,
) -> bool {
    exists|lines: Seq<LineRange>, measures: Seq<LineMeasure>|
        {
            &&& is_lines_of(lines, text, max_width, break_text)
            &&& #[trigger] is_measured(lines, measures, measure)
            &&& size == block_size_of(measures, line_height)
        }
}

/// The size of a text: as wide as its widest line, never less than zero,
/// and as high as its lines one below the other. With a width the text is
/// wrapped to it; without, its lines are those that its line feeds mark.
pub fn text_size<F: Fn(i32, usize) -> usize, M: Fn(LineRange) -> LineMeasure>(
    text: &[u8],
    max_width: Option<i32>,
    line_height: i32,
    break_text: &F,
    measure: &M,
) -> (size: Size)
    requires
        text@.len() <= MAX_TEXT_LEN,
        max_width matches Some(width) ==> break_query_ok(*break_text, width, text@.len() as usize),
        measure_ok(*measure, text@.len() as int),
    ensures
        is_text_size(size, text@, max_width, line_height as int, *break_text, *measure),
        -crate::text::MAX_BLOCK_HEIGHT <= size.height <= crate::text::MAX_BLOCK_HEIGHT,
        0 <= size.width <= i32::MAX,
{
    let lines = text_lines(text, max_width, break_text);
    let measures = measure_lines(lines.as_slice(), measure);
    let size = block_size(measures.as_slice(), line_height);
    proof {
        lemma_widest(measures@, measures@.len() as int);
        assert(is_measured(lines@, measures@, *measure));
    }
    size
}

/// The box that a text is drawn into, and how.
#[derive(Clone, Copy, Debug, PartialEq, Eq, Structural)]
pub struct TextBox {
    /// Where the item is drawn.
    pub pos: Point,
    /// The item's own position, which is added to that.
    pub x: i32,
    pub y: i32,
    pub max_width: i32,
    pub max_height: i32,
    pub horizontal_alignment: TextHorizontalAlignment,
    pub vertical_alignment: TextVerticalAlignment,
    pub wrap: TextWrap,
    pub overflow: TextOverflow,
}

impl TextBox {
    /// A box without width or height: nothing is drawn into it.
    pub open spec fn is_empty(&self) -> bool {
        self.max_width <= 0 || self.max_height <= 0
    }

    /// The width that the text is wrapped to, if it is wrapped.
    pub open spec fn wrap_width(&self) -> Option<i32> {
        if self.wrap == TextWrap::WordWrap {
            Some(self.max_width)
        } else {
            None
        }
    }

    /// The y position of the first line of a block of the given height.
    pub open spec fn block_top(&self, block_height: int) -> int {
        self.pos.y + self.y + vertical_offset(
            self.vertical_alignment,
            self.max_height as int,
            block_height,
        )
    }
}

/// One line of a laid out text.
#[derive(Clone, Copy, Debug, PartialEq, Eq, Structural)]
pub struct PlacedLine {
    /// The line in the text.
    pub source: LineRange,
    /// What is drawn of it.
    pub drawn: DrawnLine,
    /// The measured width of what is drawn.
    pub width: i32,
    /// Where it is drawn.
    pub x: i64,
    pub y: i64,
}

/// A laid out text.
#[derive(Debug)]
pub struct TextLayout {
    pub size: Size,
    pub lines: Vec<PlacedLine>,
}

/// A line drawn whole.
pub open spec fn whole(line: LineRange) -> DrawnLine {
    DrawnLine { range: line, ellipsis: false }
}

/// Whether `drawn` is what is drawn of the line `source`. A wrapped line
/// loses the line feed at its end. Any other line is measured, and cut if it
/// is too wide and to be elided.
pub open spec fn is_drawn_of<D: Fn(DrawnLine) -> TextMetrics>(
    drawn: DrawnLine,
    source: LineRange,
    text: Seq<u8>,
    text_box: TextBox,
    ellipsis_width: int,
    measure_drawn: D,
) -> bool {
    if text_box.wrap == TextWrap::WordWrap {
        drawn == whole(without_trailing_newline(text, source))
    } else {
        exists|m: TextMetrics|
            {
                &&& #[trigger] call_ensures(measure_drawn, (whole(source),), m)
                &&& drawn == fitted_line(
                    source,
                    m.width as int,
                    m.glyphs@,
                    text_box.max_width as int,
                    text_box.overflow,
                    ellipsis_width,
                )
            }
    }
}

/// Whether `line` is line number `index` of the layout whose first line
/// lies at `top`: it holds what is drawn of its source, the width measured
/// for that, and the position that the alignment gives; each line lies one
/// line height below the one before.
pub open spec fn is_placed<D: Fn(DrawnLine) -> TextMetrics>(
    line: PlacedLine,
    index: int,
    top: int,
    text: Seq<u8>,
    text_box: TextBox,
    line_height: int,
    ellipsis_width: int,
    measure_drawn: D,
) -> bool {
    &&& is_drawn_of(line.drawn, line.source, text, text_box, ellipsis_width, measure_drawn)
    &&& exists|m: TextMetrics| #[trigger]
        call_ensures(measure_drawn, (line.drawn,), m) && line.width == m.width
    &&& line.x == text_box.pos.x + text_box.x + horizontal_offset(
        text_box.horizontal_alignment,
        text_box.max_width as int,
        line.width as int,
    )
    &&& line.y == top + index * line_height
}

/// What the measuring of drawn lines must accept and promise for a text of
/// `len` bytes: it can be asked for every part of the text, with or without
/// ellipsis, and the glyphs of a line drawn whole lie within that line.
pub open spec fn measure_drawn_ok<D: Fn(DrawnLine) -> TextMetrics>(measure_drawn: D, len: int) -> bool {
    &&& forall|d: DrawnLine|
        d.range.start <= d.range.end <= len ==> call_requires(measure_drawn, (d,))
    &&& forall|d: DrawnLine, m: TextMetrics|
        !d.ellipsis && #[trigger] call_ensures(measure_drawn, (d,), m) ==> glyphs_within(
            m.glyphs@,
            d.range.len(),
        )
}

/// Whether `size` and `placed` are the layout of `text` in `text_box`.
pub open spec fn is_layout<
    F: Fn(i32, usize) -> usize,
    M: Fn(LineRange) -> LineMeasure,
    D: Fn(DrawnLine) -> TextMetrics,
>(
    size: Size,
    placed: Seq<PlacedLine>,
    text: Seq<u8>,
    text_box: TextBox,
    line_height: int,
    ellipsis_width: int,
    break_text: F,
    measure: M,
    measure_drawn: D,
) -> bool {
    if text_box.is_empty() {
        placed.len() == 0 && size == (Size { width: 0, height: 0 })
    } else {
        exists|lines: Seq<LineRange>, measures: Seq<LineMeasure>|
            {
                &&& is_lines_of(lines, text, text_box.wrap_width(), break_text)
                &&& #[trigger] is_measured(lines, measures, measure)
                &&& size == block_size_of(measures, line_height)
                &&& placed.len() == lines.len()
                &&& forall|k: int|
                    0 <= k < placed.len() ==> {
                        &&& (#[trigger] placed[k]).source == lines[k]
                        &&& is_placed(
                            placed[k],
                            k,
                            text_box.block_top(size.height as int),
                            text,
                            text_box,
                            line_height,
                            ellipsis_width,
                            measure_drawn,
                        )
                    }
            }
    }
}

/// Lays a text out in its box: finds its lines, decides what is drawn of
/// each, and places each by the alignment. Nothing is laid out in a box
/// without width or height.
pub fn layout_text<
    F: Fn(i32, usize) -> usize,
    M: Fn(LineRange) -> LineMeasure,
    D: Fn(DrawnLine) -> TextMetrics,
>(
    text: &[u8],
    text_box: &TextBox,
    line_height: i32,
    ellipsis_width: i32,
    break_text: &F,
    measure: &M,
    measure_drawn: &D,
) -> (layout: TextLayout)
    requires
        text@.len() <= MAX_TEXT_LEN,
        text_box.wrap == TextWrap::WordWrap ==> break_query_ok(
            *break_text,
            text_box.max_width,
            text@.len() as usize,
        ),
        measure_ok(*measure, text@.len() as int),
        measure_drawn_ok(*measure_drawn, text@.len() as int),
    ensures
        is_layout(
            layout.size,
            layout.lines@,
            text@,
            *text_box,
            line_height as int,
            ellipsis_width as int,
            *break_text,
            *measure,
            *measure_drawn,
        ),
{
    let mut placed: Vec<PlacedLine> = Vec::new();
    if text_box.max_width <= 0 || text_box.max_height <= 0 {
        return TextLayout { size: Size { width: 0, height: 0 }, lines: placed };
    }
    let wrapped: bool = text_box.wrap == TextWrap::WordWrap;
    let wrap_width: Option<i32> = if wrapped { Some(text_box.max_width) } else { None };
    let lines = text_lines(text, wrap_width, break_text);
    let measures = measure_lines(lines.as_slice(), measure);
    let size = block_size(measures.as_slice(), line_height);
    let top: i64 = text_box.pos.y as i64 + text_box.y as i64 + align_vertically(
        text_box.vertical_alignment,
        text_box.max_height,
        size.height,
    );
    let step: i64 = line_height as i64;
    let mut k: usize = 0;
    while k < lines.len()
        invariant
            k <= lines@.len(),
            lines@.len() <= text@.len() <= MAX_TEXT_LEN,
            placed@.len() == k,
            step == line_height,
            wrapped == (text_box.wrap == TextWrap::WordWrap),
            top == text_box.block_top(size.height as int),
            -0x4000_0002_0000_0000 <= top <= 0x4000_0002_0000_0000,
            measure_drawn_ok(*measure_drawn, text@.len() as int),
            forall|i: int|
                0 <= i < lines@.len() ==> (#[trigger] lines@[i]).start <= lines@[i].end
                    <= text@.len(),
            forall|j: int|
                0 <= j < k ==> {
                    &&& (#[trigger] placed@[j]).source == lines@[j]
                    &&& is_placed(
                        placed@[j],
                        j,
                        top as int,
                        text@,
                        *text_box,
                        line_height as int,
                        ellipsis_width as int,
                        *measure_drawn,
                    )
                },
        decreases lines@.len() - k,
    {
        let source: LineRange = lines[k];
        let drawn: DrawnLine = if wrapped {
            DrawnLine { range: trim_trailing_newline(text, source), ellipsis: false }
        } else {
            let metrics = measure_drawn(DrawnLine { range: source, ellipsis: false });
            assert(call_ensures(*measure_drawn, (whole(source),), metrics));
            fit_line(source, &metrics, text_box.max_width, text_box.overflow, ellipsis_width)
        };
        let drawn_metrics = measure_drawn(drawn);
        let width: i32 = drawn_metrics.width;
        let x: i64 = text_box.pos.x as i64 + text_box.x as i64 + align_horizontally(
            text_box.horizontal_alignment,
            text_box.max_width,
            width,
        );
        let index: i64 = k as i64;
        assert(-0x3fff_ffff * 0x8000_0000 <= index * step <= 0x3fff_ffff * 0x8000_0000)
            by (nonlinear_arith)
            requires
                0 <= index <= 0x3fff_ffff,
                -0x8000_0000 <= step <= 0x8000_0000,
        ;
        let y: i64 = top + index * step;
        let line = PlacedLine { source, drawn, width, x, y };
        assert(is_placed(
            line,
            k as int,
            top as int,
            text@,
            *text_box,
            line_height as int,
            ellipsis_width as int,
            *measure_drawn,
        ));
        placed.push(line);
        k += 1;
    }
    proof {
        assert(is_measured(lines@, measures@, *measure));
    }
    TextLayout { size, lines: placed }
}

} // verus!
