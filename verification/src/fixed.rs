//! Fixed-point numbers.
//!
//! A real quantity is held as a whole number of millionths: lengths in
//! micrometres, times in microseconds, angles in microradians. Sums and
//! differences are exact; a product or a quotient is rounded down once.

use vstd::prelude::*;

verus! {

/// The fixed-point representation of the real number one.
pub const UNIT: i64 = 1_000_000;

/// `value` moved to the nearest point of the interval from `low` to `high`.
pub open spec fn clamp(value: int, low: int, high: int) -> int {
    if value < low {
        low
    } else if value > high {
        high
    } else {
        value
    }
}

/// `value` moved to the nearest number that a stored scalar can hold.
pub open spec fn saturated(value: int) -> int {
    clamp(value, i64::MIN as int, i64::MAX as int)
}

/// The product of two fixed-point numbers, rounded down.
pub open spec fn product(a: int, b: int) -> int {
    a * b / (UNIT as int)
}

/// The quotient of two fixed-point numbers, rounded down.
pub open spec fn quotient(a: int, b: int) -> int
    recommends
        b != 0,
{
    a * (UNIT as int) / b
}

/// A point or a direction in space, each coordinate a fixed-point number.
#[derive(Debug, Clone, Copy, PartialEq, Eq, Structural)]
pub struct Vec3 {
    pub x: i64,
    pub y: i64,
    pub z: i64,
}

/// A point or an extent in the plane, each coordinate a fixed-point number.
#[derive(Debug, Clone, Copy, PartialEq, Eq, Structural)]
pub struct Vec2 {
    pub x: i64,
    pub y: i64,
}

/// Narrows a wide intermediate result to a stored scalar, saturating at the
/// ends of the range.
pub fn saturate(value: i128) -> (stored: i64)
    ensures
        stored == saturated(value as int),
{
    if value < i64::MIN as i128 {
        i64::MIN
    } else if value > i64::MAX as i128 {
        i64::MAX
    } else {
        value as i64
    }
}

/// Restricts `value` to the interval from `low` to `high`.
pub fn clamp_to(value: i128, low: i64, high: i64) -> (clamped: i64)
    requires
        low <= high,
    ensures
        clamped == clamp(value as int, low as int, high as int),
{
    if value < low as i128 {
        low
    } else if value > high as i128 {
        high
    } else {
        value as i64
    }
}

/// Divides by a positive number, rounding down.
pub fn floor_div(numerator: i128, denominator: i128) -> (floor: i128)
    requires
        denominator > 0,
    ensures
        floor == numerator as int / denominator as int,
{
    proof {
        floor_is_between(numerator as int, denominator as int);
    }
    match numerator.checked_div_euclid(denominator) {
        Some(floor) => floor,
        None => 0,
    }
}

/// Multiplies two fixed-point numbers, rounding down. The result of two stored
/// scalars always fits the wide type.
pub fn multiply(a: i128, b: i128) -> (scaled: i128)
    requires
        i128::MIN <= a * b <= i128::MAX,
    ensures
        scaled == product(a as int, b as int),
{
    floor_div(a * b, UNIT as i128)
}

/// A number divided by a positive divisor and rounded down lies between zero
/// and the number itself.
pub proof fn floor_is_between(n: int, d: int)
    requires
        d > 0,
    ensures
        n >= 0 ==> 0 <= n / d <= n,
        n < 0 ==> n <= n / d < 0,
{
    assert(n >= 0 ==> 0 <= n / d <= n) by (nonlinear_arith)
        requires
            d > 0,
    ;
    assert(n < 0 ==> n <= n / d < 0) by (nonlinear_arith)
        requires
            d > 0,
    ;
}

} // verus!
