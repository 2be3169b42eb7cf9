use sixtyfps_rendering_backend_gl::elide::{find_crossing, fit_line, rendered_line, DrawnLine};
use sixtyfps_rendering_backend_gl::lines::{find_newline, split_lines, trim_trailing_newline};
use sixtyfps_rendering_backend_gl::text::{
    align_horizontally, align_vertically, Glyph, LineRange, TextHorizontalAlignment, TextMetrics,
    TextOverflow, TextVerticalAlignment,
};
use sixtyfps_rendering_backend_gl::text_input::{
    cursor_x, glyph_x_at, selection_rect, text_offset_for_x_position,
};
use sixtyfps_rendering_backend_gl::geometry::Area;
use sixtyfps_rendering_backend_gl::wrap::wrap_lines;

fn range(start: usize, end: usize) -> LineRange {
    LineRange { start, end }
}

/// Glyphs of a text in which every byte is one glyph ten wide.
fn glyphs(count: usize) -> Vec<Glyph> {
    (0..count).map(|i| Glyph { byte_index: i, x: 10 * i as i32, advance_x: 10 }).collect()
}

#[test]
fn centre_is_half_of_the_free_space() {
    assert_eq!(align_horizontally(TextHorizontalAlignment::Center, 100, 40), 30);
    assert_eq!(align_horizontally(TextHorizontalAlignment::Center, 101, 40), 30);
    assert_eq!(align_horizontally(TextHorizontalAlignment::Center, 40, 40), 0);
    assert_eq!(align_horizontally(TextHorizontalAlignment::Center, 1, 0), 0);
}

#[test]
fn left_and_right_alignment() {
    assert_eq!(align_horizontally(TextHorizontalAlignment::Left, 100, 40), 0);
    assert_eq!(align_horizontally(TextHorizontalAlignment::Right, 100, 40), 60);
    assert_eq!(align_horizontally(TextHorizontalAlignment::Right, 40, 100), -60);
    assert_eq!(align_horizontally(TextHorizontalAlignment::Center, 40, 101), -30);
}

#[test]
fn alignment_at_the_limits() {
    assert_eq!(
        align_horizontally(TextHorizontalAlignment::Right, i32::MAX, i32::MIN),
        i32::MAX as i64 - i32::MIN as i64
    );
    assert_eq!(
        align_horizontally(TextHorizontalAlignment::Center, i32::MIN, i32::MAX),
        (i32::MIN as i64 - i32::MAX as i64) / 2
    );
}

#[test]
fn vertical_alignment() {
    assert_eq!(align_vertically(TextVerticalAlignment::Top, 100, 30), 0);
    assert_eq!(align_vertically(TextVerticalAlignment::Center, 100, 30), 35);
    assert_eq!(align_vertically(TextVerticalAlignment::Bottom, 100, 30), 70);
    assert_eq!(align_vertically(TextVerticalAlignment::Center, 100, 130), -15);
}

#[test]
fn lines_are_cut_at_line_feeds() {
    assert_eq!(split_lines(b"ab\ncd"), vec![range(0, 2), range(3, 5)]);
    assert_eq!(split_lines(b"ab\n"), vec![range(0, 2)]);
    assert_eq!(split_lines(b""), Vec::<LineRange>::new());
    assert_eq!(split_lines(b"\n"), vec![range(0, 0)]);
    assert_eq!(split_lines(b"\n\nx"), vec![range(0, 0), range(1, 1), range(2, 3)]);
}

#[test]
fn carriage_return_before_a_line_feed_is_dropped() {
    assert_eq!(split_lines(b"ab\r\ncd"), vec![range(0, 2), range(4, 6)]);
    assert_eq!(split_lines(b"\r\n"), vec![range(0, 0)]);
    assert_eq!(split_lines(b"ab\r"), vec![range(0, 3)]);
    assert_eq!(split_lines(b"a\rb\n"), vec![range(0, 3)]);
}

#[test]
fn split_lines_agrees_with_std_on_plain_text() {
    let text = "one\ntwo\r\n\nthree\n";
    let ours: Vec<&str> =
        split_lines(text.as_bytes()).iter().map(|l| &text[l.start..l.end]).collect();
    let theirs: Vec<&str> = text.lines().collect();
    assert_eq!(ours, theirs);
}

#[test]
fn newline_search() {
    assert_eq!(find_newline(b"abc\nd", 0), 3);
    assert_eq!(find_newline(b"abc\nd", 3), 3);
    assert_eq!(find_newline(b"abc\nd", 4), 5);
    assert_eq!(find_newline(b"abc", 3), 3);
}

#[test]
fn trailing_newline_is_trimmed() {
    assert_eq!(trim_trailing_newline(b"ab\ncd", range(0, 3)), range(0, 2));
    assert_eq!(trim_trailing_newline(b"ab\ncd", range(0, 2)), range(0, 2));
    assert_eq!(trim_trailing_newline(b"ab\ncd", range(3, 5)), range(3, 5));
    assert_eq!(trim_trailing_newline(b"\n", range(0, 1)), range(0, 0));
    assert_eq!(trim_trailing_newline(b"\n", range(0, 0)), range(0, 0));
    assert_eq!(trim_trailing_newline(b"ab", range(0, 9)), range(0, 9));
}

/// Breaks after the last space that fits into `max_width`, ten units to the byte.
fn break_at_spaces(text: &'static [u8]) -> impl Fn(i32, usize) -> usize {
    move |max_width: i32, start: usize| {
        let room = (max_width / 10).max(0) as usize;
        let rest = &text[start..];
        if rest.len() <= room {
            return rest.len();
        }
        let mut cut = 0;
        for i in 0..=room.min(rest.len() - 1) {
            if rest[i] == b' ' {
                cut = i + 1;
            }
        }
        cut
    }
}

#[test]
fn wrapped_lines_follow_the_break_query() {
    let text: &'static [u8] = b"aa bb cc dd";
    let lines = wrap_lines(text.len(), 50, &break_at_spaces(text));
    assert_eq!(lines, vec![range(0, 6), range(6, 11)]);
    let lines = wrap_lines(text.len(), 20, &break_at_spaces(text));
    assert_eq!(lines, vec![range(0, 3), range(3, 6), range(6, 9), range(9, 11)]);
}

#[test]
fn wrapped_lines_never_exceed_the_width() {
    let text: &'static [u8] = b"the quick brown fox jumps over the lazy dog";
    for width in [50, 60, 90, 200, 1000] {
        let lines = wrap_lines(text.len(), width, &break_at_spaces(text));
        let mut expected_start = 0;
        for line in &lines {
            assert_eq!(line.start, expected_start);
            assert!(line.start < line.end);
            let drawn = trim_trailing_newline(text, *line);
            let visible = text[drawn.start..drawn.end].len()
                - if text[drawn.end - 1] == b' ' { 1 } else { 0 };
            assert!(10 * visible as i32 <= width);
            expected_start = line.end;
        }
        assert_eq!(expected_start, text.len());
    }
}

#[test]
fn overlong_word_ends_the_layout() {
    let text: &'static [u8] = b"aa incomprehensibilities bb";
    let lines = wrap_lines(text.len(), 50, &break_at_spaces(text));
    assert_eq!(lines, vec![range(0, 3)]);
    let lines = wrap_lines(text.len(), 10, &break_at_spaces(text));
    assert_eq!(lines, Vec::<LineRange>::new());
}

#[test]
fn wrapping_an_empty_text_asks_nothing() {
    let lines = wrap_lines(0, 50, &|_: i32, _: usize| -> usize { panic!("asked") });
    assert_eq!(lines, Vec::<LineRange>::new());
}

#[test]
fn crossing_is_the_first_glyph_that_reaches_the_limit() {
    let g = glyphs(5);
    assert_eq!(find_crossing(&g, 25), 2);
    assert_eq!(find_crossing(&g, 30), 2);
    assert_eq!(find_crossing(&g, 31), 3);
    assert_eq!(find_crossing(&g, 50), 4);
    assert_eq!(find_crossing(&g, 51), 5);
    assert_eq!(find_crossing(&g, 0), 0);
    assert_eq!(find_crossing(&g, -7), 0);
    assert_eq!(find_crossing(&[], 0), 0);
}

#[test]
fn crossing_with_extreme_advances() {
    let g = vec![
        Glyph { byte_index: 0, x: 0, advance_x: i32::MAX },
        Glyph { byte_index: 1, x: 0, advance_x: i32::MAX },
        Glyph { byte_index: 2, x: 0, advance_x: i32::MIN },
    ];
    assert_eq!(find_crossing(&g, 2 * (i32::MAX as i64)), 1);
    assert_eq!(find_crossing(&g, i64::MAX), 3);
}

#[test]
fn line_that_fits_is_drawn_whole() {
    let metrics = TextMetrics { width: 50, glyphs: glyphs(5) };
    let drawn = fit_line(range(7, 12), &metrics, 50, TextOverflow::Elide, 10);
    assert_eq!(drawn, DrawnLine { range: range(7, 12), ellipsis: false });
}

#[test]
fn elided_line_ends_in_the_ellipsis_and_fits() {
    let metrics = TextMetrics { width: 100, glyphs: glyphs(10) };
    let drawn = fit_line(range(7, 17), &metrics, 65, TextOverflow::Elide, 12);
    assert_eq!(drawn, DrawnLine { range: range(7, 12), ellipsis: true });
    let kept_width = 10 * (drawn.range.end - drawn.range.start) as i32;
    assert!(kept_width + 12 <= 65);
    let bytes = rendered_line(b"0123456abcdefghij", &drawn);
    assert_eq!(bytes, "abcde\u{2026}".as_bytes());
    assert!(String::from_utf8(bytes).unwrap().ends_with('\u{2026}'));
}

#[test]
fn clipped_line_is_left_as_it_is() {
    let metrics = TextMetrics { width: 100, glyphs: glyphs(10) };
    let drawn = fit_line(range(0, 10), &metrics, 65, TextOverflow::Clip, 12);
    assert_eq!(drawn, DrawnLine { range: range(0, 10), ellipsis: false });
    assert_eq!(rendered_line(b"abcdefghij", &drawn), b"abcdefghij");
}

#[test]
fn ellipsis_wider_than_the_space_leaves_only_the_ellipsis() {
    let metrics = TextMetrics { width: 100, glyphs: glyphs(10) };
    let drawn = fit_line(range(0, 10), &metrics, 5, TextOverflow::Elide, 12);
    assert_eq!(drawn, DrawnLine { range: range(0, 0), ellipsis: true });
    assert_eq!(rendered_line(b"abcdefghij", &drawn), "\u{2026}".as_bytes());
}

#[test]
fn too_wide_line_whose_pen_never_reaches_the_limit_is_drawn_whole() {
    let metrics = TextMetrics { width: 100, glyphs: glyphs(3) };
    let drawn = fit_line(range(0, 3), &metrics, 65, TextOverflow::Elide, 12);
    assert_eq!(drawn, DrawnLine { range: range(0, 3), ellipsis: false });
}

#[test]
fn click_finds_the_nearest_glyph() {
    let g = glyphs(3);
    assert_eq!(text_offset_for_x_position(&g, 3, 0), 0);
    assert_eq!(text_offset_for_x_position(&g, 3, 5), 0);
    assert_eq!(text_offset_for_x_position(&g, 3, 6), 1);
    assert_eq!(text_offset_for_x_position(&g, 3, 15), 1);
    assert_eq!(text_offset_for_x_position(&g, 3, 25), 2);
    assert_eq!(text_offset_for_x_position(&g, 3, 26), 3);
    assert_eq!(text_offset_for_x_position(&g, 3, -100), 0);
    assert_eq!(text_offset_for_x_position(&[], 0, 4), 0);
}

#[test]
fn cursor_stands_at_its_glyph_or_at_the_end() {
    let g = glyphs(3);
    assert_eq!(glyph_x_at(&g, 1), Some(10));
    assert_eq!(glyph_x_at(&g, 3), None);
    assert_eq!(cursor_x(&g, 30, 100, 2), 20);
    assert_eq!(cursor_x(&g, 30, 100, 3), 130);
    assert_eq!(cursor_x(&[], 0, 7, 0), 7);
    assert_eq!(cursor_x(&[], i32::MAX, i32::MAX, 0), 2 * (i32::MAX as i64));
}

#[test]
fn selection_spans_from_the_anchor_to_the_glyph_before_the_cursor() {
    let g = glyphs(5);
    assert_eq!(selection_rect(&g, 1, 4, 7, 16), Area { x: 10, y: 7, width: 30, height: 16 });
    assert_eq!(selection_rect(&g, 0, 1, 7, 16), Area { x: 0, y: 7, width: 10, height: 16 });
    assert_eq!(selection_rect(&g, 2, 0, 7, 16), Area { x: 20, y: 7, width: -10, height: 16 });
    assert_eq!(selection_rect(&g, 9, 9, 7, 16), Area { x: 0, y: 7, width: 0, height: 16 });
}

#[test]
fn selection_takes_the_last_glyph_of_a_byte() {
    let g = vec![
        Glyph { byte_index: 0, x: 0, advance_x: 4 },
        Glyph { byte_index: 0, x: 4, advance_x: 6 },
        Glyph { byte_index: 1, x: 10, advance_x: 5 },
    ];
    assert_eq!(selection_rect(&g, 0, 1, 0, 1), Area { x: 4, y: 0, width: 6, height: 1 });
    assert_eq!(glyph_x_at(&g, 0), Some(0));
}
