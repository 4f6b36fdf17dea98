use oracle_maker::clock::{
    get_current_timestamp, get_current_timestamp_ms, timestamp_from_millis, timestamp_from_reading,
};

#[test]
fn timestamp_keeps_counts_below_two_to_the_sixty_four() {
    assert_eq!(timestamp_from_millis(0), 0);
    assert_eq!(timestamp_from_millis(1_700_000_000_000), 1_700_000_000_000);
    assert_eq!(timestamp_from_millis(u64::MAX as u128), u64::MAX);
}

#[test]
fn timestamp_keeps_the_low_sixty_four_bits() {
    assert_eq!(timestamp_from_millis(1u128 << 64), 0);
    assert_eq!(timestamp_from_millis((1u128 << 64) + 7), 7);
    assert_eq!(timestamp_from_millis(u128::MAX), u64::MAX);
}

#[test]
fn failed_reading_reaches_the_caller() {
    assert_eq!(timestamp_from_reading(None), None);
    assert_eq!(timestamp_from_reading(Some(42)), Some(42));
    // A true reading of zero is told apart from a failed one.
    assert_eq!(timestamp_from_reading(Some(0)), Some(0));
    assert_eq!(timestamp_from_reading(Some((1u128 << 64) + 7)), Some(7));
}

#[test]
fn wall_clock_reads_a_time_after_the_year_two_thousand_twenty() {
    // 2020-01-01 in milliseconds since the epoch.
    let floor: u64 = 1_577_836_800_000;
    let first: u64 = get_current_timestamp_ms().expect("clock before the epoch");
    let second: u64 = get_current_timestamp().expect("clock before the epoch");
    assert!(first > floor);
    assert!(second > floor);
    // Milliseconds, not seconds or microseconds: before the year 2100.
    assert!(first < 4_102_444_800_000);
}
