//! The system clock.

use std::time::Duration;
use std::time::SystemTime;
use vstd::prelude::*;

verus! {

/// `std::time::SystemTime`: a point in time of the system clock.
#[verifier::external_type_specification]
#[verifier::external_body]
pub struct ExSystemTime(SystemTime);

/// `SystemTime::now`: the current time of the system clock.
#[verifier::external_body]
pub(crate) fn now() -> (time: SystemTime) {
    SystemTime::now()
}

/// `SystemTime::elapsed`: how long ago `since` was, or `None` if
/// `since` is later than the current time of the system clock.
#[verifier::external_body]
pub(crate) fn elapsed(since: &SystemTime) -> (duration: Option<Duration>) {
    since.elapsed().ok()
}

/// `Duration::as_secs`: the whole seconds of a duration.
#[verifier::external_body]
pub(crate) fn whole_seconds(duration: &Duration) -> (seconds: u64) {
    duration.as_secs()
}

} // verus!
