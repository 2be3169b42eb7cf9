//! Drawing text: the lines of a text item, and the text, selection and
//! cursor of a text input.

use vstd::prelude::*;
use crate::elide::DrawnLine;
use crate::geometry::{Area, Point, Position};
use crate::layout::{
    break_query_ok, is_layout, layout_text, measure_drawn_ok, measure_ok, LineMeasure, PlacedLine,
    Size, TextBox, MAX_TEXT_LEN,
};
use crate::renderer::{Color, DrawCommand};
use crate::text::{
    align_horizontally, align_vertically, horizontal_offset, vertical_offset, Glyph, LineRange,
    TextHorizontalAlignment, TextMetrics, TextVerticalAlignment, TextWrap,
};
use crate::text_input::{cursor_position, glyph_x_at, selection_area, selection_rect};
use crate::units::{scale_length, scaled};

verus! {

/// The command that draws one placed line.
pub open spec fn line_command(line: PlacedLine, color: Color) -> DrawCommand {
    DrawCommand::FillText { x: line.x, y: line.y, line: line.drawn, color }
}

/// The commands that draw the lines of a layout, from the first to the last.
pub open spec fn text_commands(placed: Seq<PlacedLine>, color: Color) -> Seq<DrawCommand> {
    Seq::new(placed.len(), |i: int| line_command(placed[i], color))
}

/// Whether `commands` draw `text` in `text_box`: one command for each line
/// of some layout of the text, in order.
pub open spec fn is_text_draw<
    F: Fn(i32, usize) -> usize,
    M: Fn(LineRange) -> LineMeasure,
    D: Fn(DrawnLine) -> TextMetrics,
>(
    commands: Seq<DrawCommand>,
    text: Seq<u8>,
    text_box: TextBox,
    color: Color,
    line_height: int,
    ellipsis_width: int,
    break_text: F,
    measure: M,
    measure_drawn: D,
) -> bool {
    exists|size: Size, placed: Seq<PlacedLine>|
        {
            &&& #[trigger] is_layout(
                size,
                placed,
                text,
                text_box,
                line_height,
                ellipsis_width,
                break_text,
                measure,
                measure_drawn,
            )
            &&& commands == text_commands(placed, color)
        }
}

/// Draws a text item: lays the text out in its box and gives one command
/// for each line. Nothing is drawn into a box without width or height.
pub fn draw_text<
    F: Fn(i32, usize) -> usize,
    M: Fn(LineRange) -> LineMeasure,
    D: Fn(DrawnLine) -> TextMetrics,
>(
    text: &[u8],
    text_box: &TextBox,
    color: Color,
    line_height: i32,
    ellipsis_width: i32,
    break_text: &F,
    measure: &M,
    measure_drawn: &D,
) -> (commands: Vec<DrawCommand>)
    requires
        text@.len() <= MAX_TEXT_LEN,
        text_box.wrap == TextWrap::WordWrap ==> break_query_ok(
            *break_text,
            text_box.max_width,
            text@.len() as usize,
        ),
        measure_ok(*measure, text@.len() as int),
        measure_drawn_ok(*measure_drawn, text@.len() as int),
    ensures
        is_text_draw(
            commands@,
            text@,
            *text_box,
            color,
            line_height as int,
            ellipsis_width as int,
            *break_text,
            *measure,
            *measure_drawn,
        ),
        text_box.is_empty() ==> commands@.len() == 0,
{
    let layout = layout_text(
        text,
        text_box,
        line_height,
        ellipsis_width,
        break_text,
        measure,
        measure_drawn,
    );
    let mut commands: Vec<DrawCommand> = Vec::new();
    let mut i: usize = 0;
    while i < layout.lines.len()
        invariant
            i <= layout.lines@.len(),
            commands@.len() == i,
            forall|k: int|
                0 <= k < i ==> #[trigger] commands@[k] == line_command(layout.lines@[k], color),
        decreases layout.lines@.len() - i,
    {
        let line = layout.lines[i];
        commands.push(DrawCommand::FillText { x: line.x, y: line.y, line: line.drawn, color });
        i += 1;
    }
    proof {
        assert(commands@ =~= text_commands(layout.lines@, color));
    }
    commands
}

/// A text input as the item tree describes it.
#[derive(Clone, Copy, Debug, PartialEq, Eq, Structural)]
pub struct TextInput {
    pub x: i32,
    pub y: i32,
    pub width: i32,
    pub height: i32,
    pub horizontal_alignment: TextHorizontalAlignment,
    pub vertical_alignment: TextVerticalAlignment,
    pub color: Color,
    pub selection_foreground_color: Color,
    pub selection_background_color: Color,
    /// Whether something is selected, and if so, the byte offsets of the
    /// selection's anchor and of the cursor.
    pub has_selection: bool,
    pub selection_anchor: usize,
    pub selection_cursor: usize,
    /// The byte offset that the cursor stands before; negative for none.
    pub cursor_position: i32,
    pub cursor_visible: bool,
    pub text_cursor_width: i32,
    /// The length of the text in bytes.
    pub text_len: usize,
}

impl TextInput {
    /// A text input without width or height: nothing is drawn of it.
    pub open spec fn is_empty(&self) -> bool {
        self.width <= 0 || self.height <= 0
    }

    /// All of the text, as one line.
    pub open spec fn whole_text(&self) -> DrawnLine {
        DrawnLine { range: LineRange { start: 0, end: self.text_len }, ellipsis: false }
    }

    /// Whether the cursor is drawn.
    pub open spec fn shows_cursor(&self) -> bool {
        self.cursor_position >= 0 && self.cursor_visible
    }
}

/// Where the text of a text input is drawn at `pos`, for a text of
/// `text_width` and a font of `line_height`.
pub open spec fn text_input_origin(
    pos: Point,
    input: TextInput,
    text_width: int,
    line_height: int,
) -> Position {
    Position {
        x: (pos.x + input.x + horizontal_offset(
            input.horizontal_alignment,
            input.width as int,
            text_width,
        )) as i64,
        y: (pos.y + input.y + vertical_offset(
            input.vertical_alignment,
            input.height as int,
            line_height,
        )) as i64,
    }
}

/// The rectangle of the cursor: at the glyph that it stands before, or at
/// the end of the text; as wide as the cursor width scaled, one line high.
pub open spec fn cursor_area(
    pos: Point,
    input: TextInput,
    glyphs: Seq<Glyph>,
    width: int,
    line_height: int,
    scale_factor: int,
) -> Area {
    Area {
        x: cursor_position(
            glyphs,
            width,
            pos.x + input.x,
            input.cursor_position as usize,
        ) as i64,
        y: (pos.y + input.y) as i64,
        width: scaled(input.text_cursor_width as int, scale_factor) as i64,
        height: line_height as i64,
    }
}

/// The commands that draw a selection: its background, and the text once
/// more in the colour of selected text, clipped to the selection.
pub open spec fn selection_commands(input: TextInput, origin: Position, area: Area) -> Seq<
    DrawCommand,
> {
    seq![
        DrawCommand::FillRect { area, color: input.selection_background_color },
        DrawCommand::Save,
        DrawCommand::IntersectScissor { area },
        DrawCommand::FillText {
            x: origin.x,
            y: origin.y,
            line: input.whole_text(),
            color: input.selection_foreground_color,
        },
        DrawCommand::Restore,
    ]
}

/// The commands that draw a text input whose text, drawn at `origin`,
/// measures `metrics`: the text; then the selection, if there is one; then
/// the cursor, if it shows.
pub open spec fn text_input_commands(
    pos: Point,
    input: TextInput,
    origin: Position,
    metrics: TextMetrics,
    line_height: int,
    scale_factor: int,
) -> Seq<DrawCommand> {
    let text = seq![
        DrawCommand::FillText {
            x: origin.x,
            y: origin.y,
            line: input.whole_text(),
            color: input.color,
        },
    ];
    let selection = if input.has_selection {
        selection_commands(
            input,
            origin,
            selection_area(
                metrics.glyphs@,
                input.selection_anchor,
                input.selection_cursor,
                pos.y + input.y,
                line_height,
            ),
        )
    } else {
        Seq::empty()
    };
    let cursor = if input.shows_cursor() {
        seq![
            DrawCommand::FillRect {
                area: cursor_area(
                    pos,
                    input,
                    metrics.glyphs@,
                    metrics.width as int,
                    line_height,
                    scale_factor,
                ),
                color: input.color,
            },
        ]
    } else {
        Seq::empty()
    };
    text + selection + cursor
}

/// Whether `commands` draw the text input. Nothing is drawn of an empty
/// one, and nothing is measured. Else the text is measured where it is drawn.
pub open spec fn is_text_input_draw<D: FnOnce(Position) -> TextMetrics>(
    commands: Seq<DrawCommand>,
    pos: Point,
    input: TextInput,
    text_width: int,
    line_height: int,
    scale_factor: int,
    measure_at: D,
) -> bool {
    if input.is_empty() {
        commands.len() == 0
    } else {
        let origin = text_input_origin(pos, input, text_width, line_height);
        exists|metrics: TextMetrics|
            {
                &&& #[trigger] call_ensures(measure_at, (origin,), metrics)
                &&& commands == text_input_commands(
                    pos,
                    input,
                    origin,
                    metrics,
                    line_height,
                    scale_factor,
                )
            }
    }
}

/// Draws a text input: its text as one line, aligned in its box by the
/// width of the text and the height of a line; behind the selected text the
/// selection; and the cursor. `measure_at` measures the text as drawn at a
/// position, so that its glyphs lie where they are drawn.
pub fn draw_text_input<D: FnOnce(Position) -> TextMetrics>(
    pos: Point,
    text_input: &TextInput,
    text_width: i32,
    line_height: i32,
    scale_factor: i32,
    measure_at: D,
) -> (commands: Vec<DrawCommand>)
    requires
        forall|origin: Position| call_requires(measure_at, (origin,)),
    ensures
        is_text_input_draw(
            commands@,
            pos,
            *text_input,
            text_width as int,
            line_height as int,
            scale_factor as int,
            measure_at,
        ),
{
    let mut commands: Vec<DrawCommand> = Vec::new();
    if text_input.width <= 0 || text_input.height <= 0 {
        return commands;
    }
    let left: i64 = pos.x as i64 + text_input.x as i64;
    let top: i64 = pos.y as i64 + text_input.y as i64;
    let origin = Position {
        x: left + align_horizontally(text_input.horizontal_alignment, text_input.width, text_width),
        y: top + align_vertically(text_input.vertical_alignment, text_input.height, line_height as i64),
    };
    let whole = DrawnLine { range: LineRange { start: 0, end: text_input.text_len }, ellipsis: false };
    let metrics = measure_at(origin);
    commands.push(
        DrawCommand::FillText { x: origin.x, y: origin.y, line: whole, color: text_input.color },
    );
    let ghost text_part = commands@;
    if text_input.has_selection {
        let found = selection_rect(
            metrics.glyphs.as_slice(),
            text_input.selection_anchor,
            text_input.selection_cursor,
            0,
            line_height,
        );
        let area = Area { x: found.x, y: top, width: found.width, height: found.height };
        commands.push(DrawCommand::FillRect { area, color: text_input.selection_background_color });
        commands.push(DrawCommand::Save);
        commands.push(DrawCommand::IntersectScissor { area });
        commands.push(
            DrawCommand::FillText {
                x: origin.x,
                y: origin.y,
                line: whole,
                color: text_input.selection_foreground_color,
            },
        );
        commands.push(DrawCommand::Restore);
        assert(commands@ =~= text_part + selection_commands(*text_input, origin, area));
    } else {
        assert(commands@ =~= text_part + Seq::<DrawCommand>::empty());
    }
    let ghost before_cursor = commands@;
    if text_input.cursor_position >= 0 && text_input.cursor_visible {
        let x: i64 = match glyph_x_at(
            metrics.glyphs.as_slice(),
            text_input.cursor_position as usize,
        ) {
            Some(x) => x as i64,
            None => left + metrics.width as i64,
        };
        let area = Area {
            x,
            y: top,
            width: scale_length(text_input.text_cursor_width, scale_factor),
            height: line_height as i64,
        };
        commands.push(DrawCommand::FillRect { area, color: text_input.color });
        assert(commands@ =~= before_cursor + seq![
            DrawCommand::FillRect { area, color: text_input.color },
        ]);
    } else {
        assert(commands@ =~= before_cursor + Seq::<DrawCommand>::empty());
    }
    proof {
        assert(origin == text_input_origin(
            pos,
            *text_input,
            text_width as int,
            line_height as int,
        ));
        assert(commands@ =~= text_input_commands(
            pos,
            *text_input,
            origin,
            metrics,
            line_height as int,
            scale_factor as int,
        ));
        assert(call_ensures(measure_at, (origin,), metrics));
    }
    commands
}

} // verus!
