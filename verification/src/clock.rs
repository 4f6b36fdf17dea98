//! The wall clock, for drivers that do not inject their own. The controller
//! itself never reads a clock: every time it needs is handed to it.

use vstd::prelude::*;
use std::time::{Duration, SystemTime, SystemTimeError};

verus! {

#[verifier::external_type_specification]
#[verifier::external_body]
pub struct ExSystemTime(std::time::SystemTime);

#[verifier::external_type_specification]
#[verifier::external_body]
pub struct ExSystemTimeError(std::time::SystemTimeError);

/// Calls `SystemTime::now`. The reading depends on the machine's clock, so
/// nothing is claimed of it.
#[verifier::external_body]
fn system_now() -> SystemTime {
    SystemTime::now()
}

/// Calls `SystemTime::duration_since` with the Unix epoch as the earlier
/// time. It fails when the clock reads before the epoch. Nothing is claimed
/// of the duration.
#[verifier::external_body]
fn since_epoch(t: &SystemTime) -> Result<Duration, SystemTimeError> {
    t.duration_since(std::time::UNIX_EPOCH)
}

/// Calls `Duration::as_millis`: the whole milliseconds that the duration
/// holds. Nothing is claimed of the number.
#[verifier::external_body]
fn whole_millis(d: &Duration) -> u128 {
    d.as_millis()
}

/// A count of milliseconds as a timestamp: its low 64 bits.
pub open spec fn timestamp_of(millis: u128) -> u64 {
    (millis % 0x1_0000_0000_0000_0000) as u64
}

/// Narrows a count of milliseconds to a timestamp, keeping its low 64 bits.
/// Every count below 2^64 is kept as it is.
pub fn timestamp_from_millis(millis: u128) -> (t: u64)
    ensures
        t == timestamp_of(millis),
        millis <= u64::MAX ==> t == millis,
{
    (millis % 0x1_0000_0000_0000_0000u128) as u64
}

/// The timestamp for an attempt to read the clock: that of the duration's
/// milliseconds, or none when the clock read before the epoch.
pub fn timestamp_from_reading(reading: Option<u128>) -> (t: Option<u64>)
    ensures
        reading.is_some() ==> t == Some(timestamp_of(reading.unwrap())),
        reading.is_none() ==> t.is_none(),
{
    match reading {
        Some(millis) => Some(timestamp_from_millis(millis)),
        None => None,
    }
}

/// Milliseconds since the Unix epoch by the machine's clock, or `None` when
/// the clock reads before the epoch. Which of the two it is, and the number,
/// are the clock's to decide.
pub fn get_current_timestamp_ms() -> Option<u64> {
    let now: SystemTime = system_now();
    let reading: Option<u128> = match since_epoch(&now) {
        Ok(elapsed) => Some(whole_millis(&elapsed)),
        Err(_) => None,
    };
    timestamp_from_reading(reading)
}

/// Milliseconds since the Unix epoch by the machine's clock, or `None` when
/// the clock reads before the epoch.
pub fn get_current_timestamp() -> Option<u64> {
    get_current_timestamp_ms()
}

} // verus!
