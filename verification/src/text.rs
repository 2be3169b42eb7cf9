//! The values that text layout works on, and the alignment of lines and blocks.

use vstd::prelude::*;
use crate::units::{half, half_of};

verus! {

/// The bytes of one line of a text: from `start` up to, not including, `end`.
#[derive(Clone, Copy, Debug, PartialEq, Eq, Structural)]
pub struct LineRange {
    pub start: usize,
    pub end: usize,
}

impl LineRange {
    pub open spec fn len(&self) -> int {
        self.end - self.start
    }
}

/// One measured glyph of a line.
#[derive(Clone, Copy, Debug, PartialEq, Eq, Structural)]
pub struct Glyph {
    /// The offset, in the measured text, of the first byte that the glyph stands for.
    pub byte_index: usize,
    /// The left edge of the glyph.
    pub x: i32,
    /// How far the glyph moves the pen.
    pub advance_x: i32,
}

/// What measuring a text gives: its width and its glyphs from left to right.
#[derive(Debug)]
pub struct TextMetrics {
    pub width: i32,
    pub glyphs: Vec<Glyph>,
}

#[derive(Clone, Copy, Debug, PartialEq, Eq, Structural)]
pub enum TextHorizontalAlignment {
    Left,
    Center,
    Right,
}

#[derive(Clone, Copy, Debug, PartialEq, Eq, Structural)]
pub enum TextVerticalAlignment {
    Top,
    Center,
    Bottom,
}

/// What happens to a line that is wider than the space it has.
#[derive(Clone, Copy, Debug, PartialEq, Eq, Structural)]
pub enum TextOverflow {
    /// The line is drawn whole; the clip hides what sticks out.
    Clip,
    /// The line is cut and ends in an ellipsis.
    Elide,
}

#[derive(Clone, Copy, Debug, PartialEq, Eq, Structural)]
pub enum TextWrap {
    NoWrap,
    WordWrap,
}

/// How far a line of `line_width` is moved right within `max_width`.
pub open spec fn horizontal_offset(
    alignment: TextHorizontalAlignment,
    max_width: int,
    line_width: int,
) -> int {
    match alignment {
        TextHorizontalAlignment::Left => 0,
        TextHorizontalAlignment::Center => half(max_width - line_width),
        TextHorizontalAlignment::Right => max_width - line_width,
    }
}

/// How far a block of `block_height` is moved down within `max_height`.
pub open spec fn vertical_offset(
    alignment: TextVerticalAlignment,
    max_height: int,
    block_height: int,
) -> int {
    match alignment {
        TextVerticalAlignment::Top => 0,
        TextVerticalAlignment::Center => half(max_height - block_height),
        TextVerticalAlignment::Bottom => max_height - block_height,
    }
}

/// The offset of a line within the width it is aligned in. A centred line
/// that is no wider than the space has exactly half of the free space on
/// its left.
pub fn align_horizontally(
    alignment: TextHorizontalAlignment,
    max_width: i32,
    line_width: i32,
) -> (offset: i64)
    ensures
        offset == horizontal_offset(alignment, max_width as int, line_width as int),
        alignment == TextHorizontalAlignment::Center && max_width >= line_width ==> offset == (
        max_width - line_width) / 2,
{
    let free: i64 = max_width as i64 - line_width as i64;
    match alignment {
        TextHorizontalAlignment::Left => 0,
        TextHorizontalAlignment::Center => half_of(free),
        TextHorizontalAlignment::Right => free,
    }
}

/// The largest block height that the layout functions produce or accept.
pub const MAX_BLOCK_HEIGHT: i64 = 0x3fff_ffff_ffff_ffff;

/// The offset of a block of lines within the height it is aligned in.
pub fn align_vertically(
    alignment: TextVerticalAlignment,
    max_height: i32,
    block_height: i64,
) -> (offset: i64)
    requires
        -MAX_BLOCK_HEIGHT <= block_height <= MAX_BLOCK_HEIGHT,
    ensures
        offset == vertical_offset(alignment, max_height as int, block_height as int),
        alignment == TextVerticalAlignment::Center && max_height >= block_height ==> offset == (
        max_height - block_height) / 2,
{
    let free: i64 = max_height as i64 - block_height;
    match alignment {
        TextVerticalAlignment::Top => 0,
        TextVerticalAlignment::Center => half_of(free),
        TextVerticalAlignment::Bottom => free,
    }
}

} // verus!
