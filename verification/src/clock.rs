//! Reading the wall clock as whole seconds since the Unix epoch.

use std::time::{Duration, SystemTime, SystemTimeError, UNIX_EPOCH};
use vstd::prelude::*;

verus! {

#[verifier::external_type_specification]
#[verifier::external_body]
pub struct ExSystemTime(SystemTime);

#[verifier::external_type_specification]
#[verifier::external_body]
pub struct ExSystemTimeError(SystemTimeError);

/// `SystemTime::now`: the current wall-clock time. Nothing is claimed of
/// the value; two calls may return anything.
#[verifier::external_body]
fn system_time_now() -> (t: SystemTime) {
    SystemTime::now()
}

/// `SystemTime::duration_since`, measured from `UNIX_EPOCH`: fails when the
/// time lies before the epoch. Nothing is claimed of the duration.
#[verifier::external_body]
fn duration_since_epoch(t: &SystemTime) -> (d: Result<Duration, SystemTimeError>) {
    t.duration_since(UNIX_EPOCH)
}

/// `Duration::as_secs`: the whole seconds of a duration. A `Duration` is
/// opaque here, so nothing is claimed of the number.
#[verifier::external_body]
fn duration_whole_seconds(d: &Duration) -> (secs: u64) {
    d.as_secs()
}

/// Whole seconds since the Unix epoch, or zero when the clock reads a time
/// before the epoch. The value depends on the clock: two calls may differ.
pub fn now_unix() -> (now: u64) {
    let t = system_time_now();
    match duration_since_epoch(&t) {
        Ok(d) => duration_whole_seconds(&d),
        Err(_) => 0,
    }
}

} // verus!
