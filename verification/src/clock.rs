//! Wall-clock time in whole milliseconds since the Unix epoch, the unit in
//! which the phases measure how long they have lasted.

use std::time::{Duration, SystemTime, SystemTimeError, UNIX_EPOCH};
use vstd::prelude::*;

verus! {

/// `std::time::SystemTime`, a reading of the system clock. Nothing is known of
/// what it holds.
#[verifier::external_type_specification]
#[verifier::external_body]
pub struct ExSystemTime(SystemTime);

/// `std::time::SystemTimeError`, the failure of `SystemTime::duration_since`.
/// Nothing is known of what it holds.
#[verifier::external_type_specification]
#[verifier::external_body]
pub struct ExSystemTimeError(SystemTimeError);

/// Calls `SystemTime::now`. The reading depends on the moment of the call, so
/// nothing is claimed of it.
#[verifier::external_body]
fn read_system_time() -> SystemTime {
    SystemTime::now()
}

/// Calls `SystemTime::duration_since` with the Unix epoch as the earlier
/// moment. It fails where the reading lies before the epoch; nothing is
/// claimed of either outcome.
#[verifier::external_body]
fn since_unix_epoch(reading: &SystemTime) -> Result<Duration, SystemTimeError> {
    reading.duration_since(UNIX_EPOCH)
}

/// Calls `Duration::as_secs`, the whole seconds of a duration.
#[verifier::external_body]
fn whole_seconds(span: &Duration) -> u64 {
    span.as_secs()
}

/// Calls `Duration::subsec_nanos`, the part of a duration beyond its whole
/// seconds, in nanoseconds. It is documented to stay below one second.
#[verifier::external_body]
fn subsecond_nanos(span: &Duration) -> (nanos: u32)
    ensures
        nanos < 1_000_000_000,
{
    span.subsec_nanos()
}

/// Whole milliseconds in a span of `secs` seconds and `subsec_nanos`
/// nanoseconds.
pub open spec fn millis_in(secs: u64, subsec_nanos: u32) -> int {
    secs * 1000 + subsec_nanos / 1_000_000
}

/// Whole milliseconds in a span of `secs` seconds and `subsec_nanos`
/// nanoseconds, or `None` where they exceed what a `u64` holds.
pub fn millis_from_parts(secs: u64, subsec_nanos: u32) -> (millis: Option<u64>)
    ensures
        millis_in(secs, subsec_nanos) <= u64::MAX ==> millis == Some(
            millis_in(secs, subsec_nanos) as u64,
        ),
        millis_in(secs, subsec_nanos) > u64::MAX ==> millis is None,
{
    let sub: u64 = (subsec_nanos / 1_000_000) as u64;
    match secs.checked_mul(1000) {
        Some(whole) => whole.checked_add(sub),
        None => None,
    }
}

/// The current time in milliseconds since the Unix epoch. `None` where the
/// system clock stands before the epoch, or so far after it that the
/// milliseconds exceed a `u64`.
pub fn get_current_ms() -> (millis: Option<u64>) {
    let reading = read_system_time();
    match since_unix_epoch(&reading) {
        Ok(since_the_epoch) => millis_from_parts(
            whole_seconds(&since_the_epoch),
            subsecond_nanos(&since_the_epoch),
        ),
        Err(_) => None,
    }
}

} // verus!
