//! The system clock, as far as the library needs it.
//!
//! Everything here is a declaration about `std::time`: none of it is proved.
//! What the clock shows is different on every call, so nothing is promised
//! about the readings beyond what holds of every one of them.

use std::time::{Duration, SystemTime, SystemTimeError, UNIX_EPOCH};
use vstd::prelude::*;

verus! {

/// `std::time::SystemTime`, carried through as an opaque value.
#[verifier::external_type_specification]
#[verifier::external_body]
pub struct ExSystemTime(SystemTime);

/// `std::time::SystemTimeError`, carried through as an opaque value.
#[verifier::external_type_specification]
#[verifier::external_body]
pub struct ExSystemTimeError(SystemTimeError);

/// `SystemTime::now` reads the clock; nothing is known about the reading.
pub assume_specification[ SystemTime::now ]() -> (t: SystemTime);

/// `Duration::as_secs` gives the whole seconds of a duration.
pub assume_specification[ Duration::as_secs ](d: &Duration) -> (secs: u64);

/// `Duration::subsec_nanos` gives the part of a duration below one second,
/// in nanoseconds. Trusted: std documents it as less than one billion.
pub assume_specification[ Duration::subsec_nanos ](d: &Duration) -> (nanos: u32)
    ensures
        nanos < 1_000_000_000,
;

/// `SystemTimeError::duration` gives how far the second reading lay after
/// the first when `duration_since` failed.
pub assume_specification[ SystemTimeError::duration ](e: &SystemTimeError) -> (d: Duration);

/// Calls `SystemTime::duration_since` with `UNIX_EPOCH`.
///
/// `Ok` holds the time elapsed since the Unix epoch; `Err` means the clock
/// shows a moment before it. Either can come back.
#[verifier::external_body]
pub(crate) fn since_unix_epoch(t: &SystemTime) -> (elapsed: Result<Duration, SystemTimeError>) {
    t.duration_since(UNIX_EPOCH)
}

} // verus!
