//! Rectangles, and the geometry of borders, shadows, clips and fitted images.

use vstd::prelude::*;
use crate::units::{half, half_of, min_int};

verus! {

/// A position handed in by the caller.
#[derive(Clone, Copy, Debug, PartialEq, Eq, Structural)]
pub struct Point {
    pub x: i32,
    pub y: i32,
}

/// A position that the library computed: an item's own position added to
/// the position that it is drawn at.
#[derive(Clone, Copy, Debug, PartialEq, Eq, Structural)]
pub struct Position {
    pub x: i64,
    pub y: i64,
}

impl Point {
    /// The position `dx` right of and `dy` below this point.
    pub open spec fn moved(&self, dx: int, dy: int) -> Position {
        Position { x: (self.x + dx) as i64, y: (self.y + dy) as i64 }
    }

    pub fn offset(&self, dx: i32, dy: i32) -> (position: Position)
        ensures
            position == self.moved(dx as int, dy as int),
    {
        Position { x: self.x as i64 + dx as i64, y: self.y as i64 + dy as i64 }
    }
}

/// A rectangle handed in by the caller: an item's geometry or a clip.
#[derive(Clone, Copy, Debug, PartialEq, Eq, Structural)]
pub struct Rect {
    pub x: i32,
    pub y: i32,
    pub width: i32,
    pub height: i32,
}

/// A rectangle that the library computed; its fields are wide enough for any
/// sum of a few caller lengths.
#[derive(Clone, Copy, Debug, PartialEq, Eq, Structural)]
pub struct Area {
    pub x: i64,
    pub y: i64,
    pub width: i64,
    pub height: i64,
}

impl Rect {
    /// A rectangle with no interior: nothing is drawn for it.
    pub open spec fn spec_is_empty(&self) -> bool {
        self.width <= 0 || self.height <= 0
    }

    #[verifier::when_used_as_spec(spec_is_empty)]
    pub fn is_empty(&self) -> (empty: bool)
        ensures
            empty == self.spec_is_empty(),
    {
        self.width <= 0 || self.height <= 0
    }

    /// The same rectangle with wide fields.
    pub open spec fn widened(&self) -> Area {
        Area { x: self.x as i64, y: self.y as i64, width: self.width as i64, height: self.height as i64 }
    }

    pub fn to_area(&self) -> (area: Area)
        ensures
            area == self.widened(),
    {
        Area { x: self.x as i64, y: self.y as i64, width: self.width as i64, height: self.height as i64 }
    }

    /// The rectangle moved by `offset`.
    pub open spec fn translated(&self, offset: Point) -> Area {
        Area {
            x: (self.x + offset.x) as i64,
            y: (self.y + offset.y) as i64,
            width: self.width as i64,
            height: self.height as i64,
        }
    }

    pub fn translate(&self, offset: Point) -> (area: Area)
        ensures
            area == self.translated(offset),
    {
        Area {
            x: self.x as i64 + offset.x as i64,
            y: self.y as i64 + offset.y as i64,
            width: self.width as i64,
            height: self.height as i64,
        }
    }
}

impl Area {
    pub open spec fn spec_is_empty(&self) -> bool {
        self.width <= 0 || self.height <= 0
    }

    #[verifier::when_used_as_spec(spec_is_empty)]
    pub fn is_empty(&self) -> (empty: bool)
        ensures
            empty == self.spec_is_empty(),
    {
        self.width <= 0 || self.height <= 0
    }

    /// The x coordinate just right of the area.
    pub open spec fn right(&self) -> int {
        self.x + self.width
    }

    /// The y coordinate just below the area.
    pub open spec fn bottom(&self) -> int {
        self.y + self.height
    }

    /// Whether the point lies inside the area.
    pub open spec fn contains(&self, px: int, py: int) -> bool {
        self.x <= px < self.right() && self.y <= py < self.bottom()
    }
}

/// The border width that is drawn: the requested one, but no more than half
/// of the rectangle's width.
pub open spec fn effective_border(border: int, width: int) -> int {
    min_int(border, half(width))
}

/// The outline along which a bordered rectangle is filled and stroked. The
/// stroke lies half inside and half outside of a path, so the path is moved
/// inwards by half of the border to keep the border inside the geometry.
pub open spec fn border_path(geometry: Rect, border: int) -> Area {
    let b = effective_border(border, geometry.width as int);
    Area {
        x: (geometry.x + half(b)) as i64,
        y: (geometry.y + half(b)) as i64,
        width: (geometry.width - b) as i64,
        height: (geometry.height - b) as i64,
    }
}

/// What is drawn for a bordered rectangle.
#[derive(Clone, Copy, Debug, PartialEq, Eq, Structural)]
pub struct BorderGeometry {
    /// The path that is filled, then stroked.
    pub path: Area,
    /// The width of the stroke.
    pub line_width: i64,
}

/// The geometry of a bordered rectangle, or `None` where the rectangle is
/// empty and nothing is drawn.
pub fn border_rectangle(geometry: &Rect, border_width: i32) -> (drawn: Option<BorderGeometry>)
    ensures
        geometry.is_empty() <==> drawn is None,
        drawn matches Some(g) ==> {
            &&& g.line_width == effective_border(border_width as int, geometry.width as int)
            &&& g.path == border_path(*geometry, border_width as int)
            &&& g.path.x - geometry.x == half(g.line_width as int)
            &&& g.path.y - geometry.y == half(g.line_width as int)
            &&& geometry.x + geometry.width - g.path.right() == g.line_width - half(g.line_width as int)
            &&& geometry.y + geometry.height - g.path.bottom() == g.line_width - half(
                g.line_width as int,
            )
        },
{
    if geometry.is_empty() {
        return None;
    }
    let width: i64 = geometry.width as i64;
    let limit: i64 = half_of(width);
    let requested: i64 = border_width as i64;
    let border: i64 = if requested <= limit { requested } else { limit };
    let inset: i64 = half_of(border);
    Some(
        BorderGeometry {
            path: Area {
                x: geometry.x as i64 + inset,
                y: geometry.y as i64 + inset,
                width: width - border,
                height: geometry.height as i64 - border,
            },
            line_width: border,
        },
    )
}

/// A box shadow as the caller describes it: the box it belongs to, how far
/// the shadow is moved from the box, and the blur.
#[derive(Clone, Copy, Debug, PartialEq, Eq, Structural)]
pub struct BoxShadow {
    pub geometry: Rect,
    pub offset_x: i32,
    pub offset_y: i32,
    pub blur: i32,
}

/// The three rectangles of a drawn shadow.
#[derive(Clone, Copy, Debug, PartialEq, Eq, Structural)]
pub struct ShadowGeometry {
    /// Where the blurred gradient ends: the box grown by half the blur on each side.
    pub outer: Area,
    /// Where the gradient begins: the box shrunk by half the blur; filled
    /// solidly so that no light shows through.
    pub inner: Area,
    /// The box that the gradient is computed for.
    pub fill: Area,
}

pub open spec fn shadow_outer(s: BoxShadow) -> Area {
    Area {
        x: (s.geometry.x + s.offset_x - half(s.blur as int)) as i64,
        y: (s.geometry.y + s.offset_y - half(s.blur as int)) as i64,
        width: (s.geometry.width + s.blur) as i64,
        height: (s.geometry.height + s.blur) as i64,
    }
}

pub open spec fn shadow_inner(s: BoxShadow) -> Area {
    Area {
        x: (s.geometry.x + s.offset_x + half(s.blur as int)) as i64,
        y: (s.geometry.y + s.offset_y + half(s.blur as int)) as i64,
        width: (s.geometry.width - s.blur) as i64,
        height: (s.geometry.height - s.blur) as i64,
    }
}

pub open spec fn shadow_fill(s: BoxShadow) -> Area {
    Area {
        x: (s.geometry.x + s.offset_x) as i64,
        y: (s.geometry.y + s.offset_y) as i64,
        width: s.geometry.width as i64,
        height: s.geometry.height as i64,
    }
}

/// The rectangles of a box shadow, or `None` where the box is empty and
/// nothing is drawn.
pub fn box_shadow(shadow: &BoxShadow) -> (drawn: Option<ShadowGeometry>)
    ensures
        shadow.geometry.is_empty() <==> drawn is None,
        drawn matches Some(g) ==> {
            &&& g.outer == shadow_outer(*shadow)
            &&& g.inner == shadow_inner(*shadow)
            &&& g.fill == shadow_fill(*shadow)
            &&& g.fill.x == g.outer.x + half(shadow.blur as int)
            &&& g.fill.y == g.outer.y + half(shadow.blur as int)
        },
{
    if shadow.geometry.is_empty() {
        return None;
    }
    let blur: i64 = shadow.blur as i64;
    let spread: i64 = half_of(blur);
    let left: i64 = shadow.geometry.x as i64 + shadow.offset_x as i64;
    let top: i64 = shadow.geometry.y as i64 + shadow.offset_y as i64;
    let width: i64 = shadow.geometry.width as i64;
    let height: i64 = shadow.geometry.height as i64;
    let outer = Area { x: left - spread, y: top - spread, width: width + blur, height: height + blur };
    let inner = Area { x: left + spread, y: top + spread, width: width - blur, height: height - blur };
    let fill = Area { x: outer.x + spread, y: outer.y + spread, width, height };
    Some(ShadowGeometry { outer, inner, fill })
}

/// The part that two areas share. An area without interior shares nothing.
pub open spec fn intersection(a: Area, b: Area) -> Area {
    if a.is_empty() || b.is_empty() {
        Area { x: 0, y: 0, width: 0, height: 0 }
    } else {
        let x = if a.x >= b.x { a.x } else { b.x };
        let y = if a.y >= b.y { a.y } else { b.y };
        let right = min_int(a.right(), b.right());
        let bottom = min_int(a.bottom(), b.bottom());
        if right <= x || bottom <= y {
            Area { x: 0, y: 0, width: 0, height: 0 }
        } else {
            Area { x, y, width: (right - x) as i64, height: (bottom - y) as i64 }
        }
    }
}

/// A point lies in the intersection exactly if it lies in both areas.
pub proof fn lemma_intersection_contains(a: Area, b: Area, px: int, py: int)
    ensures
        intersection(a, b).contains(px, py) <==> a.contains(px, py) && b.contains(px, py),
{
}

/// Intersecting is symmetric, and doing it twice changes nothing.
pub proof fn lemma_intersection_laws(a: Area, b: Area)
    ensures
        intersection(a, b) == intersection(b, a),
        intersection(intersection(a, b), b) == intersection(a, b),
{
}

impl Area {
    /// The part of this area that also lies in `other`.
    pub fn intersect(&self, other: &Area) -> (shared: Area)
        ensures
            shared == intersection(*self, *other),
    {
        let nothing = Area { x: 0, y: 0, width: 0, height: 0 };
        if self.is_empty() || other.is_empty() {
            return nothing;
        }
        let x: i64 = if self.x >= other.x { self.x } else { other.x };
        let y: i64 = if self.y >= other.y { self.y } else { other.y };
        let right_a: i128 = self.x as i128 + self.width as i128;
        let right_b: i128 = other.x as i128 + other.width as i128;
        let bottom_a: i128 = self.y as i128 + self.height as i128;
        let bottom_b: i128 = other.y as i128 + other.height as i128;
        let right: i128 = if right_a <= right_b { right_a } else { right_b };
        let bottom: i128 = if bottom_a <= bottom_b { bottom_a } else { bottom_b };
        if right <= x as i128 || bottom <= y as i128 {
            return nothing;
        }
        let width: i128 = right - x as i128;
        let height: i128 = bottom - y as i128;
        Area { x, y, width: width as i64, height: height as i64 }
    }
}

/// How a source image is scaled into its target box.
#[derive(Clone, Copy, Debug, PartialEq, Eq, Structural)]
pub enum ImageFit {
    /// Width and height are scaled independently, so the image covers the box.
    Fill,
    /// Both are scaled by the same factor: the larger of the two ratios.
    Contain,
}

/// A scale factor as a fraction. The denominator is positive.
#[derive(Clone, Copy, Debug, PartialEq, Eq, Structural)]
pub struct Ratio {
    pub num: i64,
    pub den: i64,
}

impl Ratio {
    /// Whether this fraction is at most `other`; both denominators are positive.
    pub open spec fn le(&self, other: Ratio) -> bool {
        self.num * other.den <= other.num * self.den
    }

    /// Whether the two fractions stand for the same number.
    pub open spec fn same(&self, other: Ratio) -> bool {
        self.num * other.den == other.num * self.den
    }
}

/// The size of the part of the image that is shown: that of the clip, or of
/// the whole image where the clip is empty.
pub open spec fn source_size(clip: Rect, image_width: u32, image_height: u32) -> (int, int) {
    if clip.is_empty() {
        (image_width as int, image_height as int)
    } else {
        (clip.width as int, clip.height as int)
    }
}

/// The larger of target width over source width and target height over
/// source height, for positive source sizes.
pub open spec fn contain_scale(tw: int, th: int, sw: int, sh: int) -> Ratio {
    if tw * sh >= th * sw {
        Ratio { num: tw as i64, den: sw as i64 }
    } else {
        Ratio { num: th as i64, den: sh as i64 }
    }
}

/// The horizontal and the vertical scale of a fitted image.
pub open spec fn fit_scale(fit: ImageFit, tw: int, th: int, sw: int, sh: int) -> (Ratio, Ratio) {
    match fit {
        ImageFit::Fill => (Ratio { num: tw as i64, den: sw as i64 }, Ratio { num: th as i64, den: sh as i64 }),
        ImageFit::Contain => (contain_scale(tw, th, sw, sh), contain_scale(tw, th, sw, sh)),
    }
}

/// How an image is painted into its target.
#[derive(Clone, Copy, Debug, PartialEq, Eq, Structural)]
pub struct ImagePlacement {
    /// The size of the path that is filled, before scaling.
    pub source_width: i64,
    pub source_height: i64,
    /// Where the image's own origin lies relative to the path: the clip's
    /// origin, negated.
    pub paint_x: i64,
    pub paint_y: i64,
    /// The full size of the image that the paint repeats.
    pub paint_width: i64,
    pub paint_height: i64,
    pub scale_x: Ratio,
    pub scale_y: Ratio,
}

/// Whether an image with these sizes is drawn at all: the target must have a
/// positive width and height, and so must the part of the image shown.
pub open spec fn image_is_drawn(
    target_width: i32,
    target_height: i32,
    clip: Rect,
    image_width: u32,
    image_height: u32,
) -> bool {
    let (sw, sh) = source_size(clip, image_width, image_height);
    target_width > 0 && target_height > 0 && sw > 0 && sh > 0
}

/// The placement of an image in its target, where it is drawn.
pub open spec fn placement_of(
    target_width: i32,
    target_height: i32,
    clip: Rect,
    image_width: u32,
    image_height: u32,
    fit: ImageFit,
) -> Option<ImagePlacement> {
    if image_is_drawn(target_width, target_height, clip, image_width, image_height) {
        let (sw, sh) = source_size(clip, image_width, image_height);
        let (sx, sy) = fit_scale(fit, target_width as int, target_height as int, sw, sh);
        Some(
            ImagePlacement {
                source_width: sw as i64,
                source_height: sh as i64,
                paint_x: (-(clip.x as int)) as i64,
                paint_y: (-(clip.y as int)) as i64,
                paint_width: image_width as i64,
                paint_height: image_height as i64,
                scale_x: sx,
                scale_y: sy,
            },
        )
    } else {
        None
    }
}

/// The placement of an image of `image_width` by `image_height` pixels, of
/// which `source_clip` is shown (all of it where the clip is empty), in a
/// target box of the given size; `None` where nothing is drawn.
pub fn image_placement(
    target_width: i32,
    target_height: i32,
    source_clip: &Rect,
    image_width: u32,
    image_height: u32,
    fit: ImageFit,
) -> (placed: Option<ImagePlacement>)
    ensures
        placed == placement_of(
            target_width,
            target_height,
            *source_clip,
            image_width,
            image_height,
            fit,
        ),
        placed is Some <==> image_is_drawn(
            target_width,
            target_height,
            *source_clip,
            image_width,
            image_height,
        ),
        placed matches Some(p) ==> {
            let (sw, sh) = source_size(*source_clip, image_width, image_height);
            let (sx, sy) = fit_scale(fit, target_width as int, target_height as int, sw, sh);
            &&& p.source_width == sw
            &&& p.source_height == sh
            &&& p.paint_x == -(source_clip.x as int)
            &&& p.paint_y == -(source_clip.y as int)
            &&& p.paint_width == image_width
            &&& p.paint_height == image_height
            &&& p.scale_x == sx
            &&& p.scale_y == sy
            &&& sx.den > 0 && sy.den > 0
        },
        placed matches Some(p) ==> fit == ImageFit::Contain ==> {
            let (sw, sh) = source_size(*source_clip, image_width, image_height);
            let by_width = Ratio { num: target_width as i64, den: sw as i64 };
            let by_height = Ratio { num: target_height as i64, den: sh as i64 };
            &&& p.scale_x == p.scale_y
            &&& by_width.le(p.scale_x) && by_height.le(p.scale_x)
            &&& p.scale_x == by_width || p.scale_x == by_height
        },
{
    if target_width <= 0 || target_height <= 0 {
        return None;
    }
    let (sw, sh): (i64, i64) = if source_clip.is_empty() {
        (image_width as i64, image_height as i64)
    } else {
        (source_clip.width as i64, source_clip.height as i64)
    };
    if sw <= 0 || sh <= 0 {
        return None;
    }
    let tw: i64 = target_width as i64;
    let th: i64 = target_height as i64;
    let by_width = Ratio { num: tw, den: sw };
    let by_height = Ratio { num: th, den: sh };
    let (scale_x, scale_y) = match fit {
        ImageFit::Fill => (by_width, by_height),
        ImageFit::Contain => {
            assert(0 < tw * sh <= 0x7fff_ffff * 0xffff_ffff) by (nonlinear_arith)
                requires
                    0 < tw <= 0x7fff_ffff,
                    0 < sh <= 0xffff_ffff,
            ;
            assert(0 < th * sw <= 0x7fff_ffff * 0xffff_ffff) by (nonlinear_arith)
                requires
                    0 < th <= 0x7fff_ffff,
                    0 < sw <= 0xffff_ffff,
            ;
            if tw * sh >= th * sw {
                (by_width, by_width)
            } else {
                (by_height, by_height)
            }
        },
    };
    Some(
        ImagePlacement {
            source_width: sw,
            source_height: sh,
            paint_x: -(source_clip.x as i64),
            paint_y: -(source_clip.y as i64),
            paint_width: image_width as i64,
            paint_height: image_height as i64,
            scale_x,
            scale_y,
        },
    )
}

} // verus!
