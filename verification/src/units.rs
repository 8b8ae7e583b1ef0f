//! Saturating arithmetic on world units.

use vstd::prelude::*;

verus! {

/// World units in one pixel.
pub const UNITS_PER_PIXEL: i64 = 1000;

/// The value of `v` once stored in an `i64`: `v` itself where it fits, else
/// the nearest end of the range.
pub open spec fn saturate(v: int) -> int {
    if v < i64::MIN as int {
        i64::MIN as int
    } else if v > i64::MAX as int {
        i64::MAX as int
    } else {
        v
    }
}

/// A coordinate `p` brought into a window of extent `window` for a sprite of
/// extent `size`: raised to 0 first, then lowered to `window - size`.
pub open spec fn clamp_axis(p: int, window: int, size: int) -> int {
    let raised = if p < 0 { 0 } else { p };
    if raised > window - size {
        window - size
    } else {
        raised
    }
}

/// Whether a sprite at `p` of extent `size` reaches outside `[0, window]`.
pub open spec fn leaves_axis(p: int, window: int, size: int) -> bool {
    p < 0 || p + size > window
}

/// A whole number of pixels in world units.
pub fn px(pixels: i32) -> (units: i64)
    ensures
        units == pixels * UNITS_PER_PIXEL,
{
    let wide: i64 = pixels as i64;
    wide * UNITS_PER_PIXEL
}

/// Stores a wide intermediate result as a coordinate.
pub fn store(v: i128) -> (r: i64)
    ensures
        r as int == saturate(v as int),
{
    if v < i64::MIN as i128 {
        i64::MIN
    } else if v > i64::MAX as i128 {
        i64::MAX
    } else {
        v as i64
    }
}

/// The product of two coordinates-sized numbers, which always fits in `i128`.
pub fn product(a: i64, b: i64) -> (r: i128)
    ensures
        r as int == a as int * b as int,
        -0x4000_0000_0000_0000_0000_0000_0000_0000 <= r as int
            <= 0x4000_0000_0000_0000_0000_0000_0000_0000,
{
    assert(-0x4000_0000_0000_0000_0000_0000_0000_0000 <= a as int * b as int
        <= 0x4000_0000_0000_0000_0000_0000_0000_0000) by (nonlinear_arith)
        requires
            -0x8000_0000_0000_0000 <= a as int <= 0x8000_0000_0000_0000,
            -0x8000_0000_0000_0000 <= b as int <= 0x8000_0000_0000_0000,
    ;
    (a as i128) * (b as i128)
}

/// The coordinate reached from `p` after `dt` milliseconds at `rate` units
/// per millisecond.
pub fn advance(p: i64, rate: i64, dt: i64) -> (r: i64)
    ensures
        r as int == saturate(p + dt * rate),
{
    let travelled: i128 = product(dt, rate);
    store(p as i128 + travelled)
}

/// The coordinate `p` shifted by `delta`.
pub fn shift(p: i64, delta: i64) -> (r: i64)
    ensures
        r as int == saturate(p + delta),
{
    store(p as i128 + delta as i128)
}

/// The velocity component `v` turned round.
pub fn negate(v: i64) -> (r: i64)
    ensures
        r as int == saturate(-v),
{
    store(-(v as i128))
}

/// Brings `p` into the window along one axis.
pub fn clamp_into(p: i64, window: i64, size: i64) -> (r: i64)
    ensures
        r as int == saturate(clamp_axis(p as int, window as int, size as int)),
{
    clamp_wide(p as i128, window, size)
}

/// Brings a wide intermediate coordinate into the window along one axis.
pub fn clamp_wide(p: i128, window: i64, size: i64) -> (r: i64)
    ensures
        r as int == saturate(clamp_axis(p as int, window as int, size as int)),
{
    let limit: i128 = window as i128 - size as i128;
    let raised: i128 = if p < 0 { 0 } else { p };
    if raised > limit {
        store(limit)
    } else {
        store(raised)
    }
}

/// The distance covered in `dt` milliseconds at `speed` units per
/// millisecond, for a speed of at most a million.
pub fn distance(speed: i64, dt: i64) -> (d: i128)
    requires
        0 <= speed <= 1_000_000,
    ensures
        d as int == speed * dt,
        -0x10_0000_0000_0000_0000_0000 <= d as int <= 0x10_0000_0000_0000_0000_0000,
{
    assert(-0x10_0000_0000_0000_0000_0000 <= speed as int * dt as int
        <= 0x10_0000_0000_0000_0000_0000) by (nonlinear_arith)
        requires
            0 <= speed as int <= 1_000_000,
            -0x8000_0000_0000_0000 <= dt as int <= 0x8000_0000_0000_0000,
    ;
    (speed as i128) * (dt as i128)
}

/// Whether a sprite at `p` of extent `size` reaches outside `[0, window]`.
pub fn leaves(p: i64, window: i64, size: i64) -> (r: bool)
    ensures
        r == leaves_axis(p as int, window as int, size as int),
{
    p < 0 || p as i128 + size as i128 > window as i128
}

} // verus!
