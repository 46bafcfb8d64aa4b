//! Coordinate scaling between logical units and physical pixels.  All
//! conversions are linear scalings by dpi/96 or its inverse, rounded to the
//! nearest integer, with 96 as the nominal one-to-one value.

use vstd::prelude::*;
use vstd::arithmetic::div_mod::lemma_div_multiples_vanish_fancy;

verus! {

/// The nominal dots-per-inch value at which logical units and physical
/// pixels coincide.
pub const DEFAULT_DPI: u16 = 96;

/// `n / d` rounded to the nearest integer, halves away from zero.
pub open spec fn round_to_nearest(n: int, d: int) -> int
    recommends
        d >= 1,
{
    if n >= 0 {
        (n + d / 2) / d
    } else {
        -((-n + d / 2) / d)
    }
}

/// Converts a dimension in logical units to physical pixels, rounding to
/// the nearest pixel.
pub fn px_to_pixels(x: i32, dpi: u16) -> (r: i32)
    requires
        dpi >= 1,
        i32::MIN <= round_to_nearest(x * dpi, 96) <= i32::MAX,
    ensures
        r == round_to_nearest(x as int * dpi as int, 96),
{
    let n: i64 = (x as i64) * (dpi as i64);
    let r: i64 = if n >= 0 {
        (n + 48) / 96
    } else {
        -((-n + 48) / 96)
    };
    r as i32
}

/// Converts both coordinates of a point in logical units to physical
/// pixels, rounding each to the nearest pixel.
pub fn px_to_pixels_xy(x: i32, y: i32, dpi: u16) -> (r: (i32, i32))
    requires
        dpi >= 1,
        i32::MIN <= round_to_nearest(x * dpi, 96) <= i32::MAX,
        i32::MIN <= round_to_nearest(y * dpi, 96) <= i32::MAX,
    ensures
        r.0 == round_to_nearest(x as int * dpi as int, 96),
        r.1 == round_to_nearest(y as int * dpi as int, 96),
{
    (px_to_pixels(x, dpi), px_to_pixels(y, dpi))
}

/// Converts a dimension in physical pixels to logical units, rounding to
/// the nearest unit.
pub fn pixels_to_px(x: i32, dpi: u16) -> (r: i32)
    requires
        dpi >= 1,
        i32::MIN <= round_to_nearest(x * 96, dpi as int) <= i32::MAX,
    ensures
        r == round_to_nearest(x as int * 96, dpi as int),
{
    let n: i64 = (x as i64) * 96;
    let d: i64 = dpi as i64;
    let r: i64 = if n >= 0 {
        (n + d / 2) / d
    } else {
        -((-n + d / 2) / d)
    };
    r as i32
}

/// Converts both coordinates of a point in physical pixels to logical
/// units, rounding each to the nearest unit.
pub fn pixels_to_px_xy(x: i32, y: i32, dpi: u16) -> (r: (i32, i32))
    requires
        dpi >= 1,
        i32::MIN <= round_to_nearest(x * 96, dpi as int) <= i32::MAX,
        i32::MIN <= round_to_nearest(y * 96, dpi as int) <= i32::MAX,
    ensures
        r.0 == round_to_nearest(x as int * 96, dpi as int),
        r.1 == round_to_nearest(y as int * 96, dpi as int),
{
    (pixels_to_px(x, dpi), pixels_to_px(y, dpi))
}

/// Scaling by 96/96 rounds back to the value itself.
pub proof fn lemma_round_at_default_is_identity(x: int)
    ensures
        round_to_nearest(x * 96, 96) == x,
{
    if x >= 0 {
        lemma_div_multiples_vanish_fancy(x, 48, 96);
        assert(96 * x == x * 96);
    } else {
        lemma_div_multiples_vanish_fancy(-x, 48, 96);
        assert(96 * (-x) == -(x * 96));
    }
}

/// Law: at the default 96 dots per inch, converting a logical value to
/// physical pixels and back returns the original value exactly, so the
/// round trip is within one unit of rounding error.
pub proof fn lemma_dpi_round_trip_default(x: int)
    ensures
        round_to_nearest(round_to_nearest(x * 96, 96) * 96, 96) == x,
{
    lemma_round_at_default_is_identity(x);
    lemma_round_at_default_is_identity(round_to_nearest(x * 96, 96));
}

} // verus!
