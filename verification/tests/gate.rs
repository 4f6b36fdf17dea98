use oracle_maker::gate::should_update;

// Threshold of half a basis point, in millionths of a basis point.
const HALF_BPS: u64 = 500_000;

#[test]
fn six_bps_move_past_debounce_is_accepted() {
    // $100.00 -> $100.06 is a move of 6 bps; the threshold is 0.5 bps.
    let now: u64 = 10_000;
    assert!(should_update(now, 100_060_000, 0, 100_000_000, 1_000, HALF_BPS));
}

#[test]
fn same_move_within_debounce_is_rejected() {
    let last: u64 = 9_500;
    let now: u64 = 10_000;
    assert!(!should_update(now, 100_060_000, last, 100_000_000, 1_000, HALF_BPS));
    // However large the move, the debounce decides first.
    assert!(!should_update(now, 200_000_000, last, 100_000_000, 1_000, HALF_BPS));
    assert!(!should_update(now, 100_060_000, last, 0, 1_000, HALF_BPS));
}

#[test]
fn debounce_boundary_is_inclusive() {
    assert!(!should_update(1_999, 100_060_000, 1_000, 100_000_000, 1_000, HALF_BPS));
    assert!(should_update(2_000, 100_060_000, 1_000, 100_000_000, 1_000, HALF_BPS));
}

#[test]
fn first_sample_is_always_accepted() {
    assert!(should_update(5_000, 100_000_000, 0, 0, 1_000, HALF_BPS));
    assert!(should_update(5_000, 1, 0, 0, 1_000, u64::MAX));
}

#[test]
fn move_at_the_threshold_is_accepted_and_below_it_rejected() {
    // 0.5 bps of 100_000_000 is 5_000 price units.
    assert!(should_update(5_000, 100_005_000, 0, 100_000_000, 1_000, HALF_BPS));
    assert!(!should_update(5_000, 100_004_999, 0, 100_000_000, 1_000, HALF_BPS));
    assert!(should_update(5_000, 99_995_000, 0, 100_000_000, 1_000, HALF_BPS));
    assert!(!should_update(5_000, 99_995_001, 0, 100_000_000, 1_000, HALF_BPS));
}

#[test]
fn unchanged_price_passes_only_a_zero_threshold() {
    assert!(!should_update(5_000, 100_000_000, 0, 100_000_000, 1_000, 1));
    assert!(should_update(5_000, 100_000_000, 0, 100_000_000, 1_000, 0));
}

#[test]
fn clock_behind_last_update_is_rejected() {
    assert!(!should_update(1_000, 200_000_000, 5_000, 100_000_000, 0, HALF_BPS));
    assert!(should_update(5_000, 200_000_000, 5_000, 100_000_000, 0, HALF_BPS));
}

#[test]
fn gate_handles_extreme_prices() {
    assert!(should_update(5_000, i64::MAX, 0, i64::MIN, 0, HALF_BPS));
    // From the highest price to the lowest is a move of just over 200%,
    // which is 20_000 bps.
    assert!(should_update(5_000, i64::MIN, 0, i64::MAX, 0, 20_000_000_000));
    assert!(!should_update(5_000, i64::MIN, 0, i64::MAX, 0, 20_000_000_001));
    assert!(!should_update(5_000, i64::MIN, 0, i64::MAX, 0, u64::MAX));
    assert!(!should_update(5_000, i64::MAX, 0, i64::MAX, 0, u64::MAX));
}
