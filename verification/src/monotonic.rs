//! A millisecond-precision clock that never moves backward.
use crate::duration::{duration_nanos, nanos_of};
use crate::time_source::{instant_elapsed, instant_now, utc_now_parts, MAX_UTC_TIMESTAMP};
use std::time::{Duration, Instant};
use vstd::prelude::*;

verus! {

/// The largest millisecond timestamp of a time chrono can represent.
pub open spec fn max_utc_millis() -> int {
    MAX_UTC_TIMESTAMP * 1000 + 999
}

/// Whether `m` is a millisecond reading a clock created at `base` milliseconds
/// may give: the base plus the whole milliseconds of some elapsed duration,
/// saturating at `i64::MAX`.
pub open spec fn millis_reading_of(base: i64, m: i64) -> bool {
    &&& m >= base
    &&& exists|elapsed: Duration| m == if base + #[trigger] duration_nanos(elapsed) / 1_000_000 <= i64::MAX {
        base + duration_nanos(elapsed) / 1_000_000
    } else {
        i64::MAX as int
    }
}

/// A clock that reports the system time at its creation plus the monotonic
/// time elapsed since then, in milliseconds.
///
/// Readings never decrease and are unaffected by later system time
/// adjustments.
#[derive(Debug, Clone, Copy)]
pub struct MonotonicClock {
    /// Monotonic instant at creation.
    instant_base: Instant,
    /// System time at creation, in milliseconds since the Unix epoch.
    system_time_base_millis: i64,
}

impl MonotonicClock {
    /// The system time at creation, in milliseconds since the Unix epoch.
    pub closed spec fn base_millis(self) -> i64 {
        self.system_time_base_millis
    }

    /// The creation time lies between the Unix epoch and the end of chrono's
    /// range.
    #[verifier::type_invariant]
    spec fn inv(self) -> bool {
        0 <= self.system_time_base_millis <= max_utc_millis()
    }

    /// Creates a clock anchored at the current system time.
    pub fn new() -> (r: MonotonicClock)
        ensures
            exists|parts: (i64, u32)| #[trigger] call_ensures(utc_now_parts, (), parts) && r.base_millis() == (parts.0 * 1_000_000_000 + parts.1) / 1_000_000,
            0 <= r.base_millis() <= max_utc_millis(),
    {
        let (seconds, nanos) = utc_now_parts();
        MonotonicClock { instant_base: instant_now(), system_time_base_millis: seconds * 1000 + (nanos / 1_000_000) as i64 }
    }

    /// Returns the milliseconds since the Unix epoch reported once `elapsed`
    /// has passed since creation.
    pub fn millis_after(&self, elapsed: Duration) -> (r: i64)
        requires
            self.base_millis() + duration_nanos(elapsed) / 1_000_000 <= i64::MAX,
        ensures
            r == self.base_millis() + duration_nanos(elapsed) / 1_000_000,
    {
        proof {
            use_type_invariant(self);
        }
        let elapsed_millis = (nanos_of(elapsed) / 1_000_000) as i64;
        self.system_time_base_millis + elapsed_millis
    }

    /// Returns the current time as milliseconds since the Unix epoch.
    ///
    /// A reading beyond what `i64` holds, which the monotonic clock would
    /// only report after hundreds of millions of years, saturates at
    /// `i64::MAX`.
    pub fn millis(&self) -> (r: i64)
        ensures
            millis_reading_of(self.base_millis(), r),
    {
        proof {
            use_type_invariant(self);
        }
        let elapsed = instant_elapsed(&self.instant_base);
        let elapsed_millis = nanos_of(elapsed) / 1_000_000;
        if elapsed_millis <= (i64::MAX - self.system_time_base_millis) as u128 {
            self.millis_after(elapsed)
        } else {
            i64::MAX
        }
    }
}


impl Default for MonotonicClock {
    /// Creates a clock anchored at the current system time.
    fn default() -> (r: Self)
        ensures
            0 <= r.base_millis() <= max_utc_millis(),
    {
        Self::new()
    }
}

} // verus!
