//! The wall clock that stamps transactions.

use std::time::Duration;
use std::time::SystemTime;
use std::time::SystemTimeError;
use std::time::UNIX_EPOCH;
use vstd::prelude::*;

verus! {

#[verifier::external_type_specification]
#[verifier::external_body]
pub struct ExSystemTime(SystemTime);

#[verifier::external_type_specification]
#[verifier::external_body]
pub struct ExSystemTimeError(SystemTimeError);

/// `SystemTime::now` reads the system clock. Nothing is claimed of the reading.
pub assume_specification[ SystemTime::now ]() -> (now: SystemTime);

/// `Duration::as_secs` gives the whole seconds of a duration, a value that is
/// opaque here, so nothing is claimed of the number.
pub assume_specification[ Duration::as_secs ](span: &Duration) -> (secs: u64);

/// The time between the Unix epoch and `moment`, by `SystemTime::duration_since`
/// with `UNIX_EPOCH` as the earlier moment. The call fails when `moment` lies
/// before the epoch. A moment is opaque here, so nothing is claimed of the
/// outcome.
#[verifier::external_body]
fn since_epoch(moment: &SystemTime) -> (elapsed: Result<Duration, SystemTimeError>) {
    moment.duration_since(UNIX_EPOCH)
}

/// Seconds elapsed since the Unix epoch, or `None` when the system clock is
/// set to a moment before it.
pub(crate) fn unix_seconds() -> (reading: Option<u64>) {
    let now = SystemTime::now();
    match since_epoch(&now) {
        Ok(span) => Some(span.as_secs()),
        Err(_) => None,
    }
}

} // verus!
