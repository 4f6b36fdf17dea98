//! Fixed-point units and the integer arithmetic shared by the models.

use vstd::prelude::*;

verus! {

/// One whole, for ratios and multipliers: a value `v` stands for `v / 1_000_000`.
pub const PPM: u64 = 1_000_000;

/// Price units per one unit of the quote currency.
pub const QUOTE_PRECISION: u64 = 1_000_000;

/// Size units per one unit of the base asset.
pub const BASE_PRECISION: u64 = 1_000_000_000;

/// Magnitude of an integer.
pub open spec fn abs(x: int) -> int {
    if x < 0 {
        -x
    } else {
        x
    }
}

/// Quotient rounded toward zero, for a positive divisor.
pub open spec fn div_toward_zero(a: int, d: int) -> int
    recommends
        d > 0,
{
    if a < 0 {
        -((-a) / d)
    } else {
        a / d
    }
}

/// The value nearest to `x` that an `i32` can hold.
pub open spec fn clamp_i32(x: int) -> int {
    if x < i32::MIN {
        i32::MIN as int
    } else if x > i32::MAX {
        i32::MAX as int
    } else {
        x
    }
}

/// Narrows a wide signed value to `i32`, saturating at the bounds.
pub fn saturate_i32(x: i128) -> (r: i32)
    ensures
        r == clamp_i32(x as int),
{
    if x < -2147483648i128 {
        i32::MIN
    } else if x > 2147483647i128 {
        i32::MAX
    } else {
        x as i32
    }
}

/// Magnitude of a signed 64-bit value, which always fits in `u64`.
pub fn magnitude(x: i64) -> (r: u64)
    ensures
        r == abs(x as int),
{
    if x >= 0 {
        x as u64
    } else if x == i64::MIN {
        9223372036854775808u64
    } else {
        (-x) as u64
    }
}

/// Magnitude of a signed 128-bit value, which always fits in `u128`.
pub fn magnitude_wide(x: i128) -> (r: u128)
    ensures
        r == abs(x as int),
{
    if x >= 0 {
        x as u128
    } else if x == i128::MIN {
        170141183460469231731687303715884105728u128
    } else {
        (-x) as u128
    }
}

/// Divides a wide signed value by a positive divisor, rounding toward zero.
pub fn div_round_zero(a: i128, d: u64) -> (r: i128)
    requires
        d > 0,
    ensures
        r == div_toward_zero(a as int, d as int),
        abs(r as int) <= abs(a as int),
        a >= 0 ==> r >= 0,
        a <= 0 ==> r <= 0,
{
    let wide: u128 = d as u128;
    if a < 0 {
        let m: u128 = magnitude_wide(a);
        let q: u128 = m / wide;
        proof {
            vstd::arithmetic::div_mod::lemma_div_nonincreasing(m as int, wide as int);
        }
        if q > 170141183460469231731687303715884105727u128 {
            i128::MIN
        } else {
            -(q as i128)
        }
    } else {
        let q: u128 = (a as u128) / wide;
        proof {
            vstd::arithmetic::div_mod::lemma_div_nonincreasing(a as int, wide as int);
        }
        q as i128
    }
}

} // verus!
