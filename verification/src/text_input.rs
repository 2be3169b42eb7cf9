//! Cursor and selection of an editable text: where a byte offset lies on
//! the line, and which byte offset lies under a position.

use vstd::prelude::*;
use crate::elide::{advance_sum, lemma_advance_sum_bounds};
use crate::geometry::Area;
use crate::text::Glyph;
use crate::units::{half, half_of};

verus! {

/// The first glyph, at or after `from`, that stands for the byte at
/// `byte_index`; the number of glyphs where there is none.
pub open spec fn first_glyph_at(glyphs: Seq<Glyph>, byte_index: usize, from: int) -> int
    decreases glyphs.len() - from,
{
    if from < 0 || from >= glyphs.len() {
        glyphs.len() as int
    } else if glyphs[from].byte_index == byte_index {
        from
    } else {
        first_glyph_at(glyphs, byte_index, from + 1)
    }
}

/// The last glyph among the first `n` that stands for the byte at
/// `byte_index`; -1 where there is none.
pub open spec fn last_glyph_at(glyphs: Seq<Glyph>, byte_index: usize, n: int) -> int
    decreases n,
{
    if n <= 0 || n > glyphs.len() {
        -1
    } else if glyphs[n - 1].byte_index == byte_index {
        n - 1
    } else {
        last_glyph_at(glyphs, byte_index, n - 1)
    }
}

/// What the two scans find.
pub proof fn lemma_glyph_at(glyphs: Seq<Glyph>, byte_index: usize, n: int)
    requires
        0 <= n <= glyphs.len(),
    ensures
        n <= first_glyph_at(glyphs, byte_index, n) <= glyphs.len(),
        first_glyph_at(glyphs, byte_index, n) < glyphs.len() ==> glyphs[first_glyph_at(
            glyphs,
            byte_index,
            n,
        )].byte_index == byte_index,
        forall|j: int|
            n <= j < first_glyph_at(glyphs, byte_index, n) ==> (#[trigger] glyphs[j]).byte_index
                != byte_index,
        -1 <= last_glyph_at(glyphs, byte_index, n) < n,
        last_glyph_at(glyphs, byte_index, n) >= 0 ==> glyphs[last_glyph_at(
            glyphs,
            byte_index,
            n,
        )].byte_index == byte_index,
        forall|j: int|
            last_glyph_at(glyphs, byte_index, n) < j < n ==> (#[trigger] glyphs[j]).byte_index
                != byte_index,
{
    lemma_first_glyph_at(glyphs, byte_index, n);
    lemma_last_glyph_at(glyphs, byte_index, n);
}

proof fn lemma_first_glyph_at(glyphs: Seq<Glyph>, byte_index: usize, n: int)
    requires
        0 <= n <= glyphs.len(),
    ensures
        n <= first_glyph_at(glyphs, byte_index, n) <= glyphs.len(),
        first_glyph_at(glyphs, byte_index, n) < glyphs.len() ==> glyphs[first_glyph_at(
            glyphs,
            byte_index,
            n,
        )].byte_index == byte_index,
        forall|j: int|
            n <= j < first_glyph_at(glyphs, byte_index, n) ==> (#[trigger] glyphs[j]).byte_index
                != byte_index,
    decreases glyphs.len() - n,
{
    if n < glyphs.len() && glyphs[n].byte_index != byte_index {
        lemma_first_glyph_at(glyphs, byte_index, n + 1);
    }
}

proof fn lemma_last_glyph_at(glyphs: Seq<Glyph>, byte_index: usize, n: int)
    requires
        0 <= n <= glyphs.len(),
    ensures
        -1 <= last_glyph_at(glyphs, byte_index, n) < n,
        last_glyph_at(glyphs, byte_index, n) >= 0 ==> glyphs[last_glyph_at(
            glyphs,
            byte_index,
            n,
        )].byte_index == byte_index,
        forall|j: int|
            last_glyph_at(glyphs, byte_index, n) < j < n ==> (#[trigger] glyphs[j]).byte_index
                != byte_index,
    decreases n,
{
    if n > 0 && glyphs[n - 1].byte_index != byte_index {
        lemma_last_glyph_at(glyphs, byte_index, n - 1);
    }
}

/// The left edge of the first glyph that stands for the byte at
/// `byte_index`, if there is such a glyph.
pub open spec fn glyph_position(glyphs: Seq<Glyph>, byte_index: usize) -> Option<i32> {
    let at = first_glyph_at(glyphs, byte_index, 0);
    if 0 <= at < glyphs.len() {
        Some(glyphs[at].x)
    } else {
        None
    }
}

/// The x position of the cursor that stands before the byte at
/// `cursor_index`: the left edge of the first glyph for that byte, or, where
/// no glyph stands for it, the end of the text, `width` right of `origin_x`.
pub open spec fn cursor_position(
    glyphs: Seq<Glyph>,
    width: int,
    origin_x: int,
    cursor_index: usize,
) -> int {
    match glyph_position(glyphs, cursor_index) {
        Some(x) => x as int,
        None => origin_x + width,
    }
}

/// Finds the left edge of the glyph for a byte.
pub fn glyph_x_at(glyphs: &[Glyph], byte_index: usize) -> (x: Option<i32>)
    ensures
        x == glyph_position(glyphs@, byte_index),
{
    let mut i: usize = 0;
    while i < glyphs.len()
        invariant
            i <= glyphs@.len(),
            first_glyph_at(glyphs@, byte_index, 0) == first_glyph_at(glyphs@, byte_index, i as int),
        decreases glyphs@.len() - i,
    {
        if glyphs[i].byte_index == byte_index {
            return Some(glyphs[i].x);
        }
        i += 1;
    }
    None
}

/// Finds the x position of the cursor.
pub fn cursor_x(glyphs: &[Glyph], width: i32, origin_x: i32, cursor_index: usize) -> (x: i64)
    ensures
        x == cursor_position(glyphs@, width as int, origin_x as int, cursor_index),
{
    match glyph_x_at(glyphs, cursor_index) {
        Some(x) => x as i64,
        None => origin_x as i64 + width as i64,
    }
}

/// The byte whose glyph ends the selection: the one before the cursor.
pub open spec fn byte_before(cursor: usize) -> usize {
    if cursor >= 1 {
        (cursor - 1) as usize
    } else {
        0
    }
}

/// Where the selection starts: the left edge of the last glyph for the
/// anchor byte, or zero where no glyph stands for it.
pub open spec fn selection_start(glyphs: Seq<Glyph>, anchor: usize) -> int {
    let at = last_glyph_at(glyphs, anchor, glyphs.len() as int);
    if 0 <= at < glyphs.len() {
        glyphs[at].x as int
    } else {
        0
    }
}

/// Where the selection ends: the right edge of the last glyph for the byte
/// before the cursor, or zero where no glyph stands for it.
pub open spec fn selection_end(glyphs: Seq<Glyph>, cursor: usize) -> int {
    let at = last_glyph_at(glyphs, byte_before(cursor), glyphs.len() as int);
    if 0 <= at < glyphs.len() {
        glyphs[at].x + glyphs[at].advance_x
    } else {
        0
    }
}

/// The rectangle behind the selected text: from the anchor's glyph to the
/// end of the glyph before the cursor, one line high, at height `top`.
pub open spec fn selection_area(
    glyphs: Seq<Glyph>,
    anchor: usize,
    cursor: usize,
    top: int,
    line_height: int,
) -> Area {
    Area {
        x: selection_start(glyphs, anchor) as i64,
        y: top as i64,
        width: (selection_end(glyphs, cursor) - selection_start(glyphs, anchor)) as i64,
        height: line_height as i64,
    }
}

/// Computes the rectangle behind the selected text.
pub fn selection_rect(
    glyphs: &[Glyph],
    anchor: usize,
    cursor: usize,
    top: i32,
    line_height: i32,
) -> (area: Area)
    ensures
        area == selection_area(glyphs@, anchor, cursor, top as int, line_height as int),
{
    let before: usize = if cursor >= 1 { cursor - 1 } else { 0 };
    let mut start_x: i64 = 0;
    let mut end_x: i64 = 0;
    let mut i: usize = 0;
    while i < glyphs.len()
        invariant
            i <= glyphs@.len(),
            before == byte_before(cursor),
            -0x8000_0000 <= start_x <= 0x8000_0000,
            -0x1_0000_0000 <= end_x <= 0x1_0000_0000,
            start_x == ({
                let at = last_glyph_at(glyphs@, anchor, i as int);
                if at >= 0 { glyphs@[at].x as int } else { 0 }
            }),
            end_x == ({
                let at = last_glyph_at(glyphs@, before, i as int);
                if at >= 0 { glyphs@[at].x + glyphs@[at].advance_x } else { 0 }
            }),
        decreases glyphs@.len() - i,
    {
        if glyphs[i].byte_index == anchor {
            start_x = glyphs[i].x as i64;
        }
        if glyphs[i].byte_index == before {
            end_x = glyphs[i].x as i64 + glyphs[i].advance_x as i64;
        }
        i += 1;
    }
    proof {
        lemma_glyph_at(glyphs@, anchor, glyphs@.len() as int);
        lemma_glyph_at(glyphs@, before, glyphs@.len() as int);
    }
    Area { x: start_x, y: top as i64, width: end_x - start_x, height: line_height as i64 }
}

/// The byte offset under the position `x`, searched from glyph `from` on: that
/// of the first glyph whose middle is at or right of `x`, the pen starting
/// at zero; `text_len` where `x` is right of every glyph's middle.
pub open spec fn offset_from(glyphs: Seq<Glyph>, text_len: usize, x: int, from: int) -> usize
    decreases glyphs.len() - from,
{
    if from < 0 || from >= glyphs.len() {
        text_len
    } else if advance_sum(glyphs, from) + half(glyphs[from].advance_x as int) >= x {
        glyphs[from].byte_index
    } else {
        offset_from(glyphs, text_len, x, from + 1)
    }
}

/// The byte offset at which a click at `x` puts the cursor.
pub fn text_offset_for_x_position(glyphs: &[Glyph], text_len: usize, x: i32) -> (offset: usize)
    ensures
        offset == offset_from(glyphs@, text_len, x as int, 0),
{
    let mut i: usize = 0;
    let mut pen: i128 = 0;
    while i < glyphs.len()
        invariant
            i <= glyphs@.len(),
            pen == advance_sum(glyphs@, i as int),
            offset_from(glyphs@, text_len, x as int, 0) == offset_from(
                glyphs@,
                text_len,
                x as int,
                i as int,
            ),
        decreases glyphs@.len() - i,
    {
        proof {
            lemma_advance_sum_bounds(glyphs@, i as int);
            assert(i * 0x8000_0000 <= 0xffff_ffff_ffff_ffff * 0x8000_0000) by (nonlinear_arith)
                requires
                    0 <= i <= 0xffff_ffff_ffff_ffff,
            ;
        }
        let advance: i64 = glyphs[i].advance_x as i64;
        if pen + half_of(advance) as i128 >= x as i128 {
            return glyphs[i].byte_index;
        }
        pen = pen + advance as i128;
        i += 1;
    }
    text_len
}

} // verus!
