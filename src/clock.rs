//! Wall-clock timestamps in milliseconds since the Unix epoch.

use std::time::{Duration, SystemTime};
use vstd::prelude::*;

verus! {

#[verifier::external_type_specification]
#[verifier::external_body]
pub struct ExSystemTime(SystemTime);

/// Relies on `SystemTime::now`: the current reading of the system clock.
#[verifier::external_body]
fn system_time_now() -> SystemTime {
    SystemTime::now()
}

/// Relies on `SystemTime::duration_since` with `UNIX_EPOCH`: the time elapsed since
/// the epoch, or `None` for a time before it.
#[verifier::external_body]
fn since_unix_epoch(t: &SystemTime) -> Option<Duration> {
    t.duration_since(std::time::UNIX_EPOCH).ok()
}

/// Relies on `Duration::as_millis`: the whole milliseconds of a duration.
#[verifier::external_body]
fn whole_millis(d: &Duration) -> u128 {
    d.as_millis()
}

/// A timestamp from the whole milliseconds since the Unix epoch (`None` for a time
/// before it): the count truncated to 64 bits, or `0`.
pub open spec fn spec_timestamp(ms: Option<u128>) -> u64 {
    match ms {
        Some(m) => (m % 0x1_0000_0000_0000_0000) as u64,
        None => 0,
    }
}

pub fn millis_to_timestamp(ms: Option<u128>) -> (r: u64)
    ensures
        r == spec_timestamp(ms),
{
    match ms {
        Some(m) => (m % 0x1_0000_0000_0000_0000u128) as u64,
        None => 0,
    }
}

/// The milliseconds from the Unix epoch to `t`, truncated to 64 bits; `0` for a time
/// before the epoch. What the clock types report is handed to `millis_to_timestamp`.
pub fn timestamp_ms_of(t: &SystemTime) -> u64 {
    let ms = match since_unix_epoch(t) {
        Some(d) => Some(whole_millis(&d)),
        None => None,
    };
    millis_to_timestamp(ms)
}

/// The current time in milliseconds since the Unix epoch.
pub fn now_timestamp_ms() -> u64 {
    let now = system_time_now();
    timestamp_ms_of(&now)
}

} // verus!
