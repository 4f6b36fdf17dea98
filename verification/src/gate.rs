//! The update gate: whether a new oracle sample warrants refreshing the quote.

use vstd::prelude::*;
use crate::fixed::{abs, magnitude, magnitude_wide};
use crate::skew::MICRO_BPS_PER_WHOLE;

verus! {

/// The move from `previous` to `new_price`, as a share of `previous`, is at
/// least `threshold` millionths of a basis point. Stated without division:
/// the move times one whole against the threshold times the old price.
pub open spec fn price_change_reaches(previous: int, new_price: int, threshold: int) -> bool {
    abs(new_price - previous) * MICRO_BPS_PER_WHOLE >= threshold * abs(previous)
}

/// The rules, in order: a sample within the debounce interval of the
/// last refresh is refused; failing that, the first sample (no previous
/// price, which zero stands for) is taken; failing that, a sample is taken
/// exactly when the price has moved by the threshold or more.
pub open spec fn update_accepted(
    now: int,
    new_price: int,
    last_update_time: int,
    prev_oracle_price: int,
    debounce_ms: int,
    threshold: int,
) -> bool {
    if now - last_update_time < debounce_ms {
        false
    } else if prev_oracle_price == 0 {
        true
    } else {
        price_change_reaches(prev_oracle_price, new_price, threshold)
    }
}

/// Decides whether the quote should be refreshed at time `now` for the
/// oracle price `new_price`. Times are in milliseconds, the threshold in
/// millionths of a basis point.
pub fn should_update(
    now: u64,
    new_price: i64,
    last_update_time: u64,
    prev_oracle_price: i64,
    debounce_ms: u64,
    threshold: u64,
) -> (accept: bool)
    ensures
        accept == update_accepted(
            now as int,
            new_price as int,
            last_update_time as int,
            prev_oracle_price as int,
            debounce_ms as int,
            threshold as int,
        ),
        now - last_update_time < debounce_ms ==> !accept,
{
    if now < last_update_time || now - last_update_time < debounce_ms {
        return false;
    }
    if prev_oracle_price == 0 {
        return true;
    }
    let change: u128 = magnitude_wide((new_price as i128) - (prev_oracle_price as i128));
    let base: u64 = magnitude(prev_oracle_price);
    assert(threshold * base <= 0xffff_ffff_ffff_ffff * 0x8000_0000_0000_0000) by (nonlinear_arith)
        requires
            0 <= threshold <= 0xffff_ffff_ffff_ffff,
            0 <= base <= 0x8000_0000_0000_0000,
    ;
    change * 10_000_000_000u128 >= (threshold as u128) * (base as u128)
}

} // verus!
