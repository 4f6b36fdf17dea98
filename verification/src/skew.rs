//! Inventory skew: how far each side of the quote moves away from or toward
//! the reference price as the position grows.
//!
//! A position ratio is the signed position divided by the largest position
//! the operator wants to carry, in parts per million. Two policies turn it
//! into a skew. The multiplicative policy scales each half of the spread; its
//! saturating curve is a hyperbolic tangent, which the caller evaluates and
//! hands in. The linear policy adds and removes basis points.

use vstd::prelude::*;
use crate::fixed::{abs, magnitude, PPM};

verus! {

/// Ratios of at most this magnitude (one tenth) leave the spread untouched.
pub const NEUTRAL_BAND: u64 = 100_000;

/// The largest skew of the multiplicative policy (eight tenths).
pub const MAX_SKEW: u64 = 800_000;

/// The ratio at which the curve's argument reaches one (two tenths).
pub const SKEW_SCALE: u64 = 200_000;

/// One basis point, in the unit in which spreads in basis points are held:
/// a value `v` stands for `v / 1_000_000` basis points.
pub const MICRO_BPS: u64 = 1_000_000;

/// One whole (ten thousand basis points) in that unit.
pub const MICRO_BPS_PER_WHOLE: u64 = 10_000_000_000;

/// The position as a fraction of the largest position, in parts per million,
/// rounded toward zero and held to the range of `i64`.
pub open spec fn position_ratio_of(position: int, max_position_size: int) -> int
    recommends
        max_position_size > 0,
{
    let m = abs(position) * PPM / max_position_size;
    let capped = if m > i64::MAX {
        i64::MAX as int
    } else {
        m
    };
    if position < 0 {
        -capped
    } else {
        capped
    }
}

/// Computes the position ratio in parts per million.
pub fn position_ratio(position: i64, max_position_size: u64) -> (r: i64)
    requires
        max_position_size > 0,
    ensures
        r == position_ratio_of(position as int, max_position_size as int),
        position == 0 ==> r == 0,
        position > 0 ==> r >= 0,
        position < 0 ==> r <= 0,
{
    let scaled: u128 = (magnitude(position) as u128) * 1_000_000u128;
    let m: u128 = scaled / (max_position_size as u128);
    let capped: i64 = if m > 9223372036854775807u128 {
        i64::MAX
    } else {
        m as i64
    };
    if position < 0 {
        -capped
    } else {
        capped
    }
}

/// The argument at which the caller evaluates the saturating curve: the
/// ratio's magnitude divided by the curve's scale, in parts per million.
pub open spec fn saturation_argument_of(position_ratio: int) -> int {
    abs(position_ratio) * PPM / (SKEW_SCALE as int)
}

/// Computes the argument of the saturating curve for a position ratio.
pub fn saturation_argument(position_ratio: i64) -> (a: u128)
    ensures
        a == saturation_argument_of(position_ratio as int),
        a == abs(position_ratio as int) * 5,
{
    (magnitude(position_ratio) as u128) * 1_000_000u128 / 200_000u128
}

/// The multipliers of the multiplicative policy for the bid and the ask
/// half-spread, in parts per million. `saturation` is the value of the
/// saturating curve at `saturation_argument_of(position_ratio)`, in parts per
/// million.
pub open spec fn inventory_skew_of(position_ratio: int, saturation: int) -> (int, int) {
    if abs(position_ratio) <= NEUTRAL_BAND {
        (PPM as int, PPM as int)
    } else {
        let skew = MAX_SKEW * saturation / (PPM as int);
        if position_ratio > 0 {
            (PPM + skew, PPM - skew)
        } else {
            (PPM - skew, PPM + skew)
        }
    }
}

/// Multiplicative policy. Within the neutral band both multipliers are one.
/// Beyond it a long position widens the bid and tightens the ask by the same
/// amount, and a short position does the reverse. The tightened side keeps
/// at least two tenths of its half-spread.
pub fn calculate_inventory_skew(position_ratio: i64, saturation: u64) -> (r: (u64, u64))
    requires
        saturation <= PPM,
    ensures
        (r.0 as int, r.1 as int) == inventory_skew_of(position_ratio as int, saturation as int),
        r.0 + r.1 == 2 * PPM,
        r.0 >= PPM - MAX_SKEW,
        r.1 >= PPM - MAX_SKEW,
        position_ratio > NEUTRAL_BAND ==> r.0 >= r.1,
        position_ratio < -(NEUTRAL_BAND as int) ==> r.0 <= r.1,
{
    if magnitude(position_ratio) <= NEUTRAL_BAND {
        return (PPM, PPM);
    }
    let skew: u64 = MAX_SKEW * saturation / PPM;
    if position_ratio > 0 {
        (PPM + skew, PPM - skew)
    } else {
        (PPM - skew, PPM + skew)
    }
}

/// Spreads of one quote in basis points, each side measured from the
/// reference price, with the size of both orders.
#[derive(Clone, Copy, Debug, PartialEq, Eq, Structural)]
pub struct QuoteParams {
    /// Distance of the bid below the reference, in millionths of a basis point.
    pub bid_offset_bps: u128,
    /// Distance of the ask above the reference, in millionths of a basis point.
    pub ask_offset_bps: u128,
    /// Size of each order, in base units.
    pub size: u64,
}

/// The bid and ask distances of the linear policy, in millionths of a basis
/// point. Each side starts at half the base spread. The side that would add
/// to the position moves out by the skew; the other moves in by it, but never
/// closer than one basis point.
pub open spec fn linear_skew_of(
    base_spread_bps: int,
    max_skew_bps: int,
    position: int,
    position_ratio: int,
) -> (int, int) {
    let half = base_spread_bps * MICRO_BPS / 2;
    let skew = abs(position_ratio) * max_skew_bps;
    let tightened = if half - skew < MICRO_BPS {
        MICRO_BPS as int
    } else {
        half - skew
    };
    if position > 0 {
        (half + skew, tightened)
    } else if position < 0 {
        (tightened, half + skew)
    } else {
        (half, half)
    }
}

/// Linear policy: the distances of the bid and the ask for a position.
pub fn linear_skew(base_spread_bps: u16, max_skew_bps: u16, position: i64, position_ratio: i64) -> (r:
    (u128, u128))
    ensures
        (r.0 as int, r.1 as int) == linear_skew_of(
            base_spread_bps as int,
            max_skew_bps as int,
            position as int,
            position_ratio as int,
        ),
        position > 0 ==> r.1 >= MICRO_BPS,
        position < 0 ==> r.0 >= MICRO_BPS,
{
    let half: u128 = (base_spread_bps as u128) * 1_000_000u128 / 2u128;
    let m: u64 = magnitude(position_ratio);
    assert(m * max_skew_bps <= 0x1_0000_0000_0000_0000 * 0x1_0000) by (nonlinear_arith)
        requires
            0 <= m < 0x1_0000_0000_0000_0000,
            0 <= max_skew_bps < 0x1_0000,
    ;
    let skew: u128 = (m as u128) * (max_skew_bps as u128);
    let tightened: u128 = if half < skew + 1_000_000u128 {
        1_000_000u128
    } else {
        half - skew
    };
    if position > 0 {
        (half + skew, tightened)
    } else if position < 0 {
        (tightened, half + skew)
    } else {
        (half, half)
    }
}

} // verus!
