use sixtyfps_rendering_backend_gl::elide::DrawnLine;
use sixtyfps_rendering_backend_gl::geometry::Point;
use sixtyfps_rendering_backend_gl::layout::{
    block_size, layout_text, measure_lines, text_lines, text_size, LineMeasure, PlacedLine, Size,
    TextBox,
};
use sixtyfps_rendering_backend_gl::text::{
    Glyph, LineRange, TextHorizontalAlignment, TextMetrics, TextOverflow, TextVerticalAlignment,
    TextWrap,
};

fn range(start: usize, end: usize) -> LineRange {
    LineRange { start, end }
}

/// Every byte is ten wide, a line is sixteen high.
fn measure(line: LineRange) -> LineMeasure {
    LineMeasure { width: 10 * (line.end - line.start) as i32, height: 16 }
}

/// Every byte is ten wide, and so is the ellipsis.
fn measure_drawn(drawn: DrawnLine) -> TextMetrics {
    let count = drawn.range.end - drawn.range.start;
    let mut glyphs: Vec<Glyph> =
        (0..count).map(|i| Glyph { byte_index: i, x: 10 * i as i32, advance_x: 10 }).collect();
    if drawn.ellipsis {
        glyphs.push(Glyph { byte_index: count, x: 10 * count as i32, advance_x: 10 });
    }
    TextMetrics { width: 10 * glyphs.len() as i32, glyphs }
}

fn never_asked(_: i32, _: usize) -> usize {
    panic!("the break query was asked")
}

fn break_after_space(text: &'static [u8]) -> impl Fn(i32, usize) -> usize {
    move |max_width: i32, start: usize| {
        let room = (max_width / 10).max(0) as usize;
        let rest = &text[start..];
        if rest.len() <= room {
            return rest.len();
        }
        let mut cut = 0;
        for i in 0..=room.min(rest.len() - 1) {
            if rest[i] == b' ' || rest[i] == b'\n' {
                cut = i + 1;
            }
        }
        cut
    }
}

fn text_box(wrap: TextWrap, overflow: TextOverflow) -> TextBox {
    TextBox {
        pos: Point { x: 100, y: 200 },
        x: 5,
        y: 7,
        max_width: 60,
        max_height: 100,
        horizontal_alignment: TextHorizontalAlignment::Left,
        vertical_alignment: TextVerticalAlignment::Top,
        wrap,
        overflow,
    }
}

#[test]
fn block_is_as_wide_as_its_widest_line() {
    let measures = [
        LineMeasure { width: 30, height: 16 },
        LineMeasure { width: 70, height: 16 },
        LineMeasure { width: 50, height: 12 },
    ];
    assert_eq!(block_size(&measures, 20), Size { width: 70, height: 52 });
    assert_eq!(block_size(&measures[..1], 20), Size { width: 30, height: 16 });
    assert_eq!(block_size(&[], 20), Size { width: 0, height: 0 });
    assert_eq!(
        block_size(&[LineMeasure { width: -4, height: -3 }], 20),
        Size { width: 0, height: -3 }
    );
}

#[test]
fn size_of_unwrapped_text() {
    let text = b"ab\ncdef\ng";
    assert_eq!(
        text_size(text, None, 20, &never_asked, &measure),
        Size { width: 40, height: 56 }
    );
    assert_eq!(text_size(b"", None, 20, &never_asked, &measure), Size { width: 0, height: 0 });
}

#[test]
fn size_of_wrapped_text() {
    let text: &'static [u8] = b"aa bb cc dd";
    assert_eq!(
        text_size(text, Some(50), 20, &break_after_space(text), &measure),
        Size { width: 60, height: 36 }
    );
    assert_eq!(
        text_size(text, Some(5), 20, &break_after_space(text), &measure),
        Size { width: 0, height: 0 }
    );
}

#[test]
fn lines_of_a_text() {
    let text: &'static [u8] = b"aa bb\ncc";
    assert_eq!(text_lines(text, None, &never_asked), vec![range(0, 5), range(6, 8)]);
    assert_eq!(
        text_lines(text, Some(20), &break_after_space(text)),
        vec![range(0, 3), range(3, 6), range(6, 8)]
    );
    assert_eq!(
        measure_lines(&[range(0, 5), range(6, 8)], &measure),
        vec![LineMeasure { width: 50, height: 16 }, LineMeasure { width: 20, height: 16 }]
    );
}

#[test]
fn nothing_is_laid_out_in_an_empty_box() {
    let mut empty = text_box(TextWrap::NoWrap, TextOverflow::Clip);
    empty.max_width = 0;
    let layout = layout_text(b"abc", &empty, 20, 10, &never_asked, &measure, &measure_drawn);
    assert!(layout.lines.is_empty());
    assert_eq!(layout.size, Size { width: 0, height: 0 });
    empty.max_width = 10;
    empty.max_height = -1;
    let layout = layout_text(b"abc", &empty, 20, 10, &never_asked, &measure, &measure_drawn);
    assert!(layout.lines.is_empty());
}

#[test]
fn unwrapped_lines_are_placed_one_line_height_apart() {
    let b = text_box(TextWrap::NoWrap, TextOverflow::Clip);
    let layout = layout_text(b"ab\ncdef", &b, 20, 10, &never_asked, &measure, &measure_drawn);
    assert_eq!(layout.size, Size { width: 40, height: 36 });
    assert_eq!(
        layout.lines,
        vec![
            PlacedLine {
                source: range(0, 2),
                drawn: DrawnLine { range: range(0, 2), ellipsis: false },
                width: 20,
                x: 105,
                y: 207,
            },
            PlacedLine {
                source: range(3, 7),
                drawn: DrawnLine { range: range(3, 7), ellipsis: false },
                width: 40,
                x: 105,
                y: 227,
            },
        ]
    );
}

#[test]
fn lines_are_aligned_in_the_box() {
    let mut b = text_box(TextWrap::NoWrap, TextOverflow::Clip);
    b.horizontal_alignment = TextHorizontalAlignment::Center;
    b.vertical_alignment = TextVerticalAlignment::Center;
    let layout = layout_text(b"ab\ncdef", &b, 20, 10, &never_asked, &measure, &measure_drawn);
    let xs: Vec<i64> = layout.lines.iter().map(|l| l.x).collect();
    let ys: Vec<i64> = layout.lines.iter().map(|l| l.y).collect();
    assert_eq!(xs, vec![105 + (60 - 20) / 2, 105 + (60 - 40) / 2]);
    assert_eq!(ys, vec![207 + (100 - 36) / 2, 207 + (100 - 36) / 2 + 20]);
    b.horizontal_alignment = TextHorizontalAlignment::Right;
    b.vertical_alignment = TextVerticalAlignment::Bottom;
    let layout = layout_text(b"ab\ncdef", &b, 20, 10, &never_asked, &measure, &measure_drawn);
    let xs: Vec<i64> = layout.lines.iter().map(|l| l.x).collect();
    let ys: Vec<i64> = layout.lines.iter().map(|l| l.y).collect();
    assert_eq!(xs, vec![105 + 40, 105 + 20]);
    assert_eq!(ys, vec![207 + 64, 207 + 84]);
}

#[test]
fn too_wide_line_is_elided_and_fits() {
    let b = text_box(TextWrap::NoWrap, TextOverflow::Elide);
    let layout = layout_text(b"abcdefghij\nxy", &b, 20, 10, &never_asked, &measure, &measure_drawn);
    assert_eq!(layout.lines.len(), 2);
    let first = layout.lines[0];
    assert_eq!(first.drawn, DrawnLine { range: range(0, 4), ellipsis: true });
    assert_eq!(first.width, 50);
    assert!(first.width <= b.max_width);
    assert_eq!(layout.lines[1].drawn, DrawnLine { range: range(11, 13), ellipsis: false });
}

#[test]
fn too_wide_line_is_left_whole_when_clipped() {
    let b = text_box(TextWrap::NoWrap, TextOverflow::Clip);
    let layout = layout_text(b"abcdefghij", &b, 20, 10, &never_asked, &measure, &measure_drawn);
    assert_eq!(layout.lines[0].drawn, DrawnLine { range: range(0, 10), ellipsis: false });
    assert_eq!(layout.lines[0].width, 100);
}

#[test]
fn wrapped_lines_lose_their_line_feed() {
    let text: &'static [u8] = b"aa bb\ncc dd";
    let b = text_box(TextWrap::WordWrap, TextOverflow::Clip);
    let layout =
        layout_text(text, &b, 20, 10, &break_after_space(text), &measure, &measure_drawn);
    let drawn: Vec<LineRange> = layout.lines.iter().map(|l| l.drawn.range).collect();
    let sources: Vec<LineRange> = layout.lines.iter().map(|l| l.source).collect();
    assert_eq!(sources, vec![range(0, 6), range(6, 11)]);
    assert_eq!(drawn, vec![range(0, 5), range(6, 11)]);
    assert_eq!(layout.size, Size { width: 60, height: 36 });
}

#[test]
fn wrapping_stops_at_a_word_that_is_too_wide() {
    let text: &'static [u8] = b"aa unbreakable bb";
    let b = text_box(TextWrap::WordWrap, TextOverflow::Clip);
    let layout =
        layout_text(text, &b, 20, 10, &break_after_space(text), &measure, &measure_drawn);
    let sources: Vec<LineRange> = layout.lines.iter().map(|l| l.source).collect();
    assert_eq!(sources, vec![range(0, 3)]);
}
