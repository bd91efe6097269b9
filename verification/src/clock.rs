//! The wall clock, read in milliseconds since the Unix epoch.
//!
//! Nothing is claimed about what the clock shows. Code that reads it is
//! verified for every instant it may report, and for its failure.

use std::time::{Duration, SystemTime, SystemTimeError, UNIX_EPOCH};
use vstd::prelude::*;

verus! {

/// `std::time::SystemTime`, an instant of the system clock. Its contents are
/// not visible to proofs.
#[verifier::external_type_specification]
#[verifier::external_body]
pub struct ExSystemTime(std::time::SystemTime);

/// `std::time::SystemTimeError`, the failure of `SystemTime::duration_since`.
/// Its contents are not visible to proofs.
#[verifier::external_type_specification]
#[verifier::external_body]
pub struct ExSystemTimeError(std::time::SystemTimeError);

/// `SystemTime::now` returns the current instant of the system clock. No
/// property of that instant is assumed.
pub assume_specification[ std::time::SystemTime::now ]() -> (now: SystemTime);

/// `SystemTime::duration_since`, asked for the time from the Unix epoch to
/// `instant`. It fails when `instant` lies before the epoch. Neither the
/// outcome nor the measured time is assumed.
#[verifier::external_body]
fn since_unix_epoch(instant: &SystemTime) -> (elapsed: Result<Duration, SystemTimeError>) {
    instant.duration_since(UNIX_EPOCH)
}

/// `Duration::as_millis` returns the whole milliseconds in a duration. The
/// number is not related to the duration in proofs.
pub assume_specification[ std::time::Duration::as_millis ](span: &Duration) -> (millis: u128);

/// The system clock could not be read as a time since the Unix epoch.
#[derive(Debug)]
pub struct ClockError {
    /// What the clock reported instead.
    pub cause: SystemTimeError,
}

/// Reads the system clock as milliseconds since the Unix epoch. Fails when
/// the clock stands before the epoch.
pub(crate) fn now_millis() -> (now: Result<u128, ClockError>) {
    let instant = SystemTime::now();
    match since_unix_epoch(&instant) {
        Ok(elapsed) => Ok(elapsed.as_millis()),
        Err(cause) => Err(ClockError { cause }),
    }
}

} // verus!
