//! Fixed-point lengths.
//!
//! Every length, coordinate and scale factor of this library is an integer
//! count of sub-pixel units, 64 to the pixel. Callers hand lengths in as
//! `i32`; results are `i64`, wide enough that no sum of a few inputs can
//! overflow.

use vstd::prelude::*;

verus! {

/// How many units make one pixel. A scale factor of one is this many units too.
pub const UNITS_PER_PIXEL: i32 = 64;

/// Half of `v`, rounded towards zero.
pub open spec fn half(v: int) -> int {
    if v >= 0 {
        v / 2
    } else {
        -((-v) / 2)
    }
}

/// The smaller of two integers.
pub open spec fn min_int(a: int, b: int) -> int {
    if a <= b {
        a
    } else {
        b
    }
}

/// The larger of two integers.
pub open spec fn max_int(a: int, b: int) -> int {
    if a >= b {
        a
    } else {
        b
    }
}

/// Halves a length, rounding towards zero.
pub fn half_of(v: i64) -> (r: i64)
    ensures
        r == half(v as int),
{
    if v >= 0 {
        v / 2
    } else if v == i64::MIN {
        i64::MIN / 2
    } else {
        -((-v) / 2)
    }
}

/// A whole number of pixels as a length in units.
pub fn from_pixels(pixels: i32) -> (units: i64)
    ensures
        units == pixels as int * UNITS_PER_PIXEL as int,
{
    let wide: i64 = pixels as i64;
    wide * 64
}

/// `v` divided by `d`, rounded towards zero, for a positive `d`.
pub open spec fn div_towards_zero(v: int, d: int) -> int {
    if v >= 0 {
        v / d
    } else {
        -((-v) / d)
    }
}

/// A length multiplied by a scale factor. The factor is in units, so that
/// `UNITS_PER_PIXEL` leaves the length as it is; the result is rounded
/// towards zero.
pub open spec fn scaled(length: int, scale_factor: int) -> int {
    div_towards_zero(length * scale_factor, UNITS_PER_PIXEL as int)
}

/// Multiplies a length by a scale factor.
pub fn scale_length(length: i32, scale_factor: i32) -> (r: i64)
    ensures
        r == scaled(length as int, scale_factor as int),
{
    let l: i64 = length as i64;
    let f: i64 = scale_factor as i64;
    assert(-0x4000_0000_0000_0000 <= l * f <= 0x4000_0000_0000_0000) by (nonlinear_arith)
        requires
            -0x8000_0000 <= l <= 0x8000_0000,
            -0x8000_0000 <= f <= 0x8000_0000,
    ;
    let product: i64 = l * f;
    if product >= 0 {
        product / 64
    } else {
        -((-product) / 64)
    }
}

/// Scaling by one changes nothing, and scaling a whole number of pixels by
/// a factor gives that many times the factor.
pub proof fn lemma_scaled(length: int, pixels: int, scale_factor: int)
    ensures
        scaled(length, UNITS_PER_PIXEL as int) == length,
        scaled(pixels * UNITS_PER_PIXEL, scale_factor) == pixels * scale_factor,
{
    assert(pixels * UNITS_PER_PIXEL * scale_factor == (pixels * scale_factor) * 64) by (nonlinear_arith);
}

} // verus!
