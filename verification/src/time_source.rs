//! Readings of the machine's clocks.
//!
//! These are the only places where real time enters the library. Each
//! reading depends on when it is taken, so nothing is promised of its value
//! beyond what holds of every reading.
use std::time::{Duration, Instant};
use vstd::prelude::*;

verus! {

/// The standard monotonic instant type, carried opaquely.
#[verifier::external_type_specification]
#[verifier::external_body]
pub struct ExInstant(Instant);

/// The latest Unix timestamp, in whole seconds, that a chrono `DateTime<Utc>`
/// can hold (the last second of year 262142).
pub const MAX_UTC_TIMESTAMP: i64 = 8_210_266_876_799;

/// Reads the monotonic clock through `Instant::now`.
///
/// Trusted for nothing: the reading depends on the time of the call.
#[verifier::external_body]
pub fn instant_now() -> Instant {
    Instant::now()
}

/// Reads the time passed since `origin` through `Instant::elapsed`.
///
/// Trusted for nothing: the reading depends on the time of the call.
#[verifier::external_body]
pub fn instant_elapsed(origin: &Instant) -> Duration {
    origin.elapsed()
}

/// Reads the current UTC time through chrono's `Utc::now` as whole seconds
/// since the Unix epoch and the nanoseconds past that second.
///
/// Trusted: chrono derives the reading from the system time elapsed since
/// the Unix epoch, which it never reports as negative (it panics instead on
/// a machine whose clock lies before 1970), and builds it with
/// `DateTime::from_timestamp`, which only accepts timestamps up to
/// `MAX_UTC_TIMESTAMP`; a system-time duration carries fewer than a billion
/// sub-second nanoseconds. The value itself depends on the time of the call
/// and is left unsaid.
#[verifier::external_body]
pub fn utc_now_parts() -> (r: (i64, u32))
    ensures
        0 <= r.0 <= MAX_UTC_TIMESTAMP,
        r.1 < 1_000_000_000,
{
    let now = chrono::Utc::now();
    (now.timestamp(), now.timestamp_subsec_nanos())
}

} // verus!
