//! Fixed-point scalars.
//!
//! Lengths and speeds are whole numbers of thousandths of a world unit,
//! durations are whole numbers of microseconds. Products are divided with
//! rounding toward zero, so that a motion and its mirror image cover the
//! same distance.

use vstd::prelude::*;

verus! {

/// Number of sub-units in one world unit.
pub const UNIT: i64 = 1_000;

/// Number of microseconds in one second.
pub const MICROS_PER_SECOND: u32 = 1_000_000;

/// Largest magnitude that [`scale`] accepts: two to the power of 94.
pub const SCALE_LIMIT: i128 = 0x4000_0000_0000_0000_0000_0000;

/// The magnitude of `v`.
pub open spec fn magnitude(v: int) -> int {
    if v >= 0 {
        v
    } else {
        -v
    }
}

/// `value * numerator / denominator`, rounded toward zero.
pub open spec fn scaled(value: int, numerator: int, denominator: int) -> int {
    if value >= 0 {
        (value * numerator) / denominator
    } else {
        -((-value * numerator) / denominator)
    }
}

/// `v` limited to the closed interval from `low` to `high`.
pub open spec fn clamp(v: int, low: int, high: int) -> int {
    if v < low {
        low
    } else if v > high {
        high
    } else {
        v
    }
}

/// Where a point at `position` moving at `speed` per second is after `dt`
/// microseconds; the result stays at the end of the `i64` range once it
/// reaches it.
pub open spec fn advanced(position: int, speed: int, dt: int) -> int {
    clamp(position + scaled(speed, dt, 1_000_000), i64::MIN as int, i64::MAX as int)
}

/// Computes `value * numerator / denominator`, rounded toward zero.
pub fn scale(value: i128, numerator: u32, denominator: u32) -> (r: i128)
    requires
        denominator > 0,
        -SCALE_LIMIT <= value <= SCALE_LIMIT,
    ensures
        r == scaled(value as int, numerator as int, denominator as int),
        magnitude(r as int) <= magnitude(value as int) * numerator,
{
    let n: u128 = numerator as u128;
    let d: u128 = denominator as u128;
    let m: u128 = if value >= 0 {
        value as u128
    } else {
        (-value) as u128
    };
    assert(m * n <= 0x4000_0000_0000_0000_0000_0000 * 0x1_0000_0000) by (nonlinear_arith)
        requires
            0 <= m <= 0x4000_0000_0000_0000_0000_0000,
            0 <= n <= 0x1_0000_0000,
    ;
    let q: u128 = (m * n) / d;
    if value >= 0 {
        q as i128
    } else {
        -(q as i128)
    }
}

/// Limits `v` to the `i64` range.
pub fn saturate(v: i128) -> (r: i64)
    ensures
        r == clamp(v as int, i64::MIN as int, i64::MAX as int),
{
    if v < i64::MIN as i128 {
        i64::MIN
    } else if v > i64::MAX as i128 {
        i64::MAX
    } else {
        v as i64
    }
}

/// Moves a coordinate for `dt` microseconds at `speed` sub-units per second.
pub fn advance(position: i64, speed: i64, dt: u32) -> (p: i64)
    ensures
        p == advanced(position as int, speed as int, dt as int),
{
    let step: i128 = scale(speed as i128, dt, MICROS_PER_SECOND);
    assert(magnitude(speed as int) * dt <= 0x8000_0000_0000_0000 * 0x1_0000_0000) by (nonlinear_arith)
        requires
            0 <= magnitude(speed as int) <= 0x8000_0000_0000_0000,
            0 <= dt <= 0x1_0000_0000,
    ;
    saturate(position as i128 + step)
}

} // verus!
