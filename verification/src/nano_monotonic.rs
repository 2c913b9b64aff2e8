//! A nanosecond-precision clock that never moves backward.
use crate::arith::{saturating_add_i128, saturating_add_i64};
use crate::duration::{duration_nanos, nanos_of, MAX_DURATION_NANOS};
use crate::time_source::{instant_elapsed, instant_now, utc_now_parts, MAX_UTC_TIMESTAMP};
use std::time::{Duration, Instant};
use vstd::prelude::*;

verus! {

/// A clock that reports the system time at its creation plus the monotonic
/// time elapsed since then, with nanosecond precision.
///
/// Readings never decrease and are unaffected by later system time
/// adjustments.
#[derive(Debug, Clone, Copy)]
pub struct NanoMonotonicClock {
    /// Monotonic instant at creation.
    instant_base: Instant,
    /// Whole seconds of the system time at creation.
    system_time_base_seconds: i64,
    /// Sub-second nanoseconds of the system time at creation.
    system_time_base_nanos: u32,
}

impl NanoMonotonicClock {
    /// The system time at creation lies between the Unix epoch and the end of
    /// chrono's range, with fewer than a billion sub-second nanoseconds.
    #[verifier::type_invariant]
    spec fn inv(self) -> bool {
        &&& 0 <= self.system_time_base_seconds <= MAX_UTC_TIMESTAMP
        &&& self.system_time_base_nanos < 1_000_000_000
    }

    /// Whole seconds of the system time at creation.
    pub closed spec fn base_seconds(self) -> i64 {
        self.system_time_base_seconds
    }

    /// Sub-second nanoseconds of the system time at creation.
    pub closed spec fn base_subsec_nanos(self) -> u32 {
        self.system_time_base_nanos
    }

    /// The system time at creation, in milliseconds since the Unix epoch.
    pub open spec fn base_millis(self) -> int {
        self.base_seconds() * 1000 + self.base_subsec_nanos() / 1_000_000
    }

    /// The system time at creation, in nanoseconds since the Unix epoch.
    pub open spec fn base_nanos(self) -> int {
        self.base_seconds() * 1_000_000_000 + self.base_subsec_nanos()
    }

    /// Creates a clock anchored at the current system time.
    pub fn new() -> (r: NanoMonotonicClock)
        ensures
            exists|parts: (i64, u32)| #[trigger] call_ensures(utc_now_parts, (), parts) && r.base_seconds() == parts.0 && r.base_subsec_nanos() == parts.1,
            0 <= r.base_seconds() <= MAX_UTC_TIMESTAMP,
            r.base_subsec_nanos() < 1_000_000_000,
    {
        let (seconds, nanos) = utc_now_parts();
        NanoMonotonicClock {
            instant_base: instant_now(),
            system_time_base_seconds: seconds,
            system_time_base_nanos: nanos,
        }
    }

    /// Returns the monotonic duration elapsed since this clock was created.
    pub fn elapsed(&self) -> Duration {
        instant_elapsed(&self.instant_base)
    }

    /// Returns the nanoseconds in `elapsed` as an `i128`.
    pub fn elapsed_nanos_i128(elapsed: Duration) -> (r: i128)
        ensures
            r == duration_nanos(elapsed),
            0 <= r <= MAX_DURATION_NANOS,
    {
        nanos_of(elapsed) as i128
    }

    /// Returns the monotonic nanoseconds elapsed since this clock was created.
    pub fn monotonic_nanos(&self) -> (r: i128)
        ensures
            0 <= r <= MAX_DURATION_NANOS,
            exists|elapsed: Duration| r == #[trigger] duration_nanos(elapsed),
    {
        let elapsed = self.elapsed();
        Self::elapsed_nanos_i128(elapsed)
    }

    /// Returns the milliseconds since the Unix epoch reported once `elapsed`
    /// has passed since creation, saturating at `i64::MAX`.
    pub fn millis_after(&self, elapsed: Duration) -> (r: i64)
        ensures
            r == if self.base_millis() + duration_nanos(elapsed) / 1_000_000 <= i64::MAX {
                self.base_millis() + duration_nanos(elapsed) / 1_000_000
            } else {
                i64::MAX as int
            },
    {
        proof {
            use_type_invariant(self);
        }
        let elapsed_millis = nanos_of(elapsed) / 1_000_000;
        let elapsed_millis = if elapsed_millis <= i64::MAX as u128 { elapsed_millis as i64 } else { i64::MAX };
        let base_millis = self.system_time_base_seconds * 1000 + (self.system_time_base_nanos / 1_000_000) as i64;
        saturating_add_i64(base_millis, elapsed_millis)
    }

    /// Returns the current time as milliseconds since the Unix epoch.
    pub fn millis(&self) -> (r: i64)
        ensures
            r >= self.base_millis(),
            exists|elapsed: Duration| r == if self.base_millis() + #[trigger] duration_nanos(elapsed) / 1_000_000 <= i64::MAX {
                self.base_millis() + duration_nanos(elapsed) / 1_000_000
            } else {
                i64::MAX as int
            },
    {
        proof {
            use_type_invariant(self);
        }
        self.millis_after(self.elapsed())
    }

    /// Returns the nanoseconds since the Unix epoch reported once `elapsed`
    /// has passed since creation.
    pub fn nanos_after(&self, elapsed: Duration) -> (r: i128)
        ensures
            r == self.base_nanos() + duration_nanos(elapsed),
    {
        proof {
            use_type_invariant(self);
        }
        let elapsed_nanos = Self::elapsed_nanos_i128(elapsed);
        let base_nanos = (self.system_time_base_seconds as i128) * 1_000_000_000 + (self.system_time_base_nanos as i128);
        saturating_add_i128(base_nanos, elapsed_nanos)
    }

    /// Returns the current time as nanoseconds since the Unix epoch.
    pub fn nanos(&self) -> (r: i128)
        ensures
            r >= self.base_nanos(),
            exists|elapsed: Duration| r == self.base_nanos() + #[trigger] duration_nanos(elapsed),
    {
        proof {
            use_type_invariant(self);
        }
        self.nanos_after(self.elapsed())
    }
}


impl Default for NanoMonotonicClock {
    /// Creates a clock anchored at the current system time.
    fn default() -> (r: Self)
        ensures
            0 <= r.base_seconds() <= MAX_UTC_TIMESTAMP,
            r.base_subsec_nanos() < 1_000_000_000,
    {
        Self::new()
    }
}

} // verus!
