//! Clocks that report wall-clock time since the Unix epoch.
//!
//! Implementations decide where their readings come from; nothing is
//! promised of a reading beyond its type.
use crate::duration::duration_nanos;
use crate::monotonic::{millis_reading_of, MonotonicClock};
use crate::nano_monotonic::NanoMonotonicClock;
use std::time::Duration;
use vstd::prelude::*;

verus! {

/// A clock that reports the current time in milliseconds since the Unix
/// epoch.
pub trait Clock {
    /// Returns the current time in milliseconds since the Unix epoch.
    fn millis(&self) -> i64;
}

/// A clock that also reports the current time in nanoseconds since the Unix
/// epoch.
pub trait NanoClock: Clock {
    /// Returns the current time in nanoseconds since the Unix epoch.
    fn nanos(&self) -> i128;
}

/// Whether `v` is a value `clock.millis()` may return.
pub open spec fn millis_reading<C: Clock>(clock: &C, v: i64) -> bool {
    call_ensures(C::millis, (clock,), v)
}

/// Whether `v` is a value `clock.nanos()` may return.
pub open spec fn nanos_reading<C: NanoClock>(clock: &C, v: i128) -> bool {
    call_ensures(C::nanos, (clock,), v)
}

impl Clock for MonotonicClock {
    /// Returns the creation time plus the whole milliseconds elapsed since,
    /// saturating at `i64::MAX`.
    fn millis(&self) -> (r: i64)
        ensures
            millis_reading_of(self.base_millis(), r),
    {
        MonotonicClock::millis(self)
    }
}

impl Clock for NanoMonotonicClock {
    /// Returns the creation time in milliseconds plus the whole milliseconds
    /// elapsed since, saturating at `i64::MAX`.
    fn millis(&self) -> (r: i64)
        ensures
            r >= self.base_millis(),
            exists|elapsed: Duration| r == if self.base_millis() + #[trigger] duration_nanos(elapsed) / 1_000_000 <= i64::MAX {
                self.base_millis() + duration_nanos(elapsed) / 1_000_000
            } else {
                i64::MAX as int
            },
    {
        NanoMonotonicClock::millis(self)
    }
}

impl NanoClock for NanoMonotonicClock {
    /// Returns the creation time in nanoseconds plus the nanoseconds elapsed
    /// since.
    fn nanos(&self) -> (r: i128)
        ensures
            r >= self.base_nanos(),
            exists|elapsed: Duration| r == self.base_nanos() + #[trigger] duration_nanos(elapsed),
    {
        NanoMonotonicClock::nanos(self)
    }
}

} // verus!
