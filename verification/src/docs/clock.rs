//! The time at which a site is written.

use std::time::{Duration, SystemTime};
use vstd::prelude::*;

verus! {

/// A time on the machine's clock.
#[verifier::external_type_specification]
#[verifier::external_body]
pub struct ExSystemTime(SystemTime);

/// `SystemTime::now` reads the machine's clock. Nothing is known of what
/// it reads.
pub assume_specification[ SystemTime::now ]() -> SystemTime;

/// `Duration::as_secs` gives the whole seconds of a span of time.
pub assume_specification[ Duration::as_secs ](duration: &Duration) -> u64;

/// `SystemTime::duration_since` with `std::time::UNIX_EPOCH`: how long
/// after the first second of 1970 a time lies, or nothing where it lies
/// before.
#[verifier::external_body]
fn since_epoch(time: &SystemTime) -> Option<Duration> {
    time.duration_since(std::time::UNIX_EPOCH).ok()
}

/// The seconds that have passed since the first second of 1970, by the
/// machine's clock; `None` where the clock stands before that.
pub fn new_timestamp() -> Option<u64> {
    let now = SystemTime::now();
    match since_epoch(&now) {
        Some(elapsed) => Some(elapsed.as_secs()),
        None => None,
    }
}

} // verus!
