//! Fixed-point units shared by the whole crate.
//!
//! Grams, millilitres, rates and probabilities are all held as a signed count
//! of thousandths. Sums of such counts stop at the ends of the `i64` range
//! instead of wrapping round.

use vstd::prelude::*;

verus! {

/// Number of stored units in one whole gram, millilitre, or unit of rate.
pub const MILLI: i64 = 1000;

/// The integer `x` forced into the closed range `[lo, hi]`.
pub open spec fn clamp(x: int, lo: int, hi: int) -> int {
    if x < lo {
        lo
    } else if x > hi {
        hi
    } else {
        x
    }
}

/// The integer `x` forced into the range of `i64`.
pub open spec fn saturated(x: int) -> int {
    clamp(x, i64::MIN as int, i64::MAX as int)
}

/// The integer `x` forced into the range of `i32`.
pub open spec fn saturated_i32(x: int) -> int {
    clamp(x, i32::MIN as int, i32::MAX as int)
}

/// A whole number of units expressed in thousandths.
pub fn from_whole(units: i32) -> (milli: i64)
    ensures
        milli == units * MILLI,
{
    let wide: i64 = units as i64;
    wide * MILLI
}

/// Narrows a wide intermediate result to `i64`, stopping at the ends of its
/// range.
pub fn saturate(x: i128) -> (r: i64)
    ensures
        r == saturated(x as int),
{
    if x < i64::MIN as i128 {
        i64::MIN
    } else if x > i64::MAX as i128 {
        i64::MAX
    } else {
        x as i64
    }
}

/// Narrows a wide intermediate result to `i32`, stopping at the ends of its
/// range.
pub fn saturate_i32(x: i128) -> (r: i32)
    ensures
        r == saturated_i32(x as int),
{
    if x < i32::MIN as i128 {
        i32::MIN
    } else if x > i32::MAX as i128 {
        i32::MAX
    } else {
        x as i32
    }
}

/// `a * b`, in a type wide enough for every product.
pub fn product(a: i64, b: i64) -> (p: i128)
    ensures
        p == a * b,
{
    let x: i128 = a as i128;
    let y: i128 = b as i128;
    assert(-0x8000_0000_0000_0000 * 0x8000_0000_0000_0000 <= x * y <= 0x8000_0000_0000_0000
        * 0x8000_0000_0000_0000) by (nonlinear_arith)
        requires
            -0x8000_0000_0000_0000 <= x <= 0x8000_0000_0000_0000,
            -0x8000_0000_0000_0000 <= y <= 0x8000_0000_0000_0000,
    ;
    x * y
}

/// `a + b`, stopping at the ends of the `i64` range.
pub fn saturating_sum(a: i64, b: i64) -> (r: i64)
    ensures
        r == saturated(a + b),
{
    saturate(a as i128 + b as i128)
}

/// `a - b`, stopping at the ends of the `i64` range.
pub fn saturating_difference(a: i64, b: i64) -> (r: i64)
    ensures
        r == saturated(a - b),
{
    saturate(a as i128 - b as i128)
}

/// `value` forced into `[lo, hi]`.
pub fn clamped(value: i64, lo: i64, hi: i64) -> (r: i64)
    ensures
        r == clamp(value as int, lo as int, hi as int),
{
    if value < lo {
        lo
    } else if value > hi {
        hi
    } else {
        value
    }
}

} // verus!
