//! Dynamic sizing: how much each side of the quote offers as the position
//! approaches its limit. The side that would add to the position shrinks;
//! the side that would reduce it keeps the full size.

use vstd::prelude::*;
use crate::fixed::{abs, magnitude, PPM};

verus! {

/// The ratio (two tenths) beyond which the adding side starts to shrink.
pub const REDUCTION_START: u64 = 200_000;

/// Size of the adding side between the start of the reduction and the limit:
/// the full size scaled by the share of the way that is left, rounded down.
pub open spec fn reduced_size_of(base_size: int, position_ratio: int) -> int {
    base_size * (PPM - abs(position_ratio)) / (PPM - REDUCTION_START)
}

/// The bid size and the ask size for a position ratio in parts per million.
pub open spec fn dynamic_sizing_of(base_size: int, position_ratio: int) -> (int, int) {
    if abs(position_ratio) >= PPM {
        if position_ratio > 0 {
            (0, base_size)
        } else {
            (base_size, 0)
        }
    } else if abs(position_ratio) > REDUCTION_START {
        if position_ratio > 0 {
            (reduced_size_of(base_size, position_ratio), base_size)
        } else {
            (base_size, reduced_size_of(base_size, position_ratio))
        }
    } else {
        (base_size, base_size)
    }
}

/// Sizes of the bid and the ask. At or beyond the limit the adding side is
/// zero. Between the start of the reduction and the limit it falls linearly
/// from the full size to zero. Below the start both sides have the full size.
pub fn calculate_dynamic_sizing(base_size: u64, position_ratio: i64) -> (r: (u64, u64))
    ensures
        (r.0 as int, r.1 as int) == dynamic_sizing_of(base_size as int, position_ratio as int),
        r.0 <= base_size,
        r.1 <= base_size,
        position_ratio >= 0 ==> r.1 == base_size,
        position_ratio <= 0 ==> r.0 == base_size,
{
    let m: u64 = magnitude(position_ratio);
    if m >= PPM {
        return if position_ratio > 0 {
            (0, base_size)
        } else {
            (base_size, 0)
        };
    }
    if m <= REDUCTION_START {
        return (base_size, base_size);
    }
    let left: u64 = PPM - m;
    assert(base_size * left <= base_size * 800_000) by (nonlinear_arith)
        requires
            0 <= left <= 800_000,
            0 <= base_size,
    ;
    let reduced: u64 = ((base_size as u128) * (left as u128) / 800_000u128) as u64;
    if position_ratio > 0 {
        (reduced, base_size)
    } else {
        (base_size, reduced)
    }
}

} // verus!
