//! The monotonic clock capability.
use crate::clock_domain::ClockDomain;
use crate::duration::{duration_nanos, MAX_DURATION_NANOS};
use crate::error::TimeError;
use crate::monotonic_instant::MonotonicInstant;
use std::time::Duration;
use vstd::prelude::*;

verus! {

/// Provides the current instant in a stable, non-decreasing clock domain.
///
/// Implementations return instants that never move backward within one
/// domain. Use it for timeouts, deadlines, and measuring elapsed durations.
pub trait MonotonicClock {
    /// The domain carried by every instant sampled from this clock.
    spec fn clock_domain(&self) -> ClockDomain;

    /// Returns this clock's stable monotonic domain identity without
    /// sampling the current time.
    fn domain(&self) -> (r: ClockDomain)
        ensures
            r == self.clock_domain(),
    ;

    /// Returns the current instant in this clock's domain.
    fn now(&self) -> (r: MonotonicInstant)
        ensures
            r.spec_domain() == self.clock_domain(),
    ;

    /// Fixes a deadline `duration` after an instant sampled once from
    /// [`now`](Self::now).
    ///
    /// Returns `TimeError::InstantOverflow` when the resulting deadline cannot
    /// be represented by `Duration`.
    fn deadline_after(&self, duration: Duration) -> (r: Result<MonotonicInstant, TimeError>)
        ensures
            r matches Ok(i) ==> i.spec_domain() == self.clock_domain(),
            r matches Err(e) ==> e is InstantOverflow,
        default_ensures
            exists|sampled: MonotonicInstant| {
                &&& #[trigger] call_ensures(Self::now, (self,), sampled)
                &&& sampled.spec_domain() == self.clock_domain()
                &&& sampled.nanos() + duration_nanos(duration) <= MAX_DURATION_NANOS ==> (r matches Ok(i) && i.nanos() == sampled.nanos() + duration_nanos(duration))
                &&& sampled.nanos() + duration_nanos(duration) > MAX_DURATION_NANOS ==> r is Err
            },
    {
        let sampled = self.now();
        sampled.checked_add(duration)
    }
}

impl<T: MonotonicClock> MonotonicClock for &T {
    open spec fn clock_domain(&self) -> ClockDomain {
        (**self).clock_domain()
    }

    fn domain(&self) -> (r: ClockDomain) {
        (**self).domain()
    }

    fn now(&self) -> (r: MonotonicInstant) {
        (**self).now()
    }

    fn deadline_after(&self, duration: Duration) -> (r: Result<MonotonicInstant, TimeError>) {
        (**self).deadline_after(duration)
    }
}

impl<T: MonotonicClock> MonotonicClock for std::sync::Arc<T> {
    open spec fn clock_domain(&self) -> ClockDomain {
        (**self).clock_domain()
    }

    fn domain(&self) -> (r: ClockDomain) {
        (**self).domain()
    }

    fn now(&self) -> (r: MonotonicInstant) {
        (**self).now()
    }

    fn deadline_after(&self, duration: Duration) -> (r: Result<MonotonicInstant, TimeError>) {
        (**self).deadline_after(duration)
    }
}

impl<T: MonotonicClock> MonotonicClock for Box<T> {
    open spec fn clock_domain(&self) -> ClockDomain {
        (**self).clock_domain()
    }

    fn domain(&self) -> (r: ClockDomain) {
        (**self).domain()
    }

    fn now(&self) -> (r: MonotonicInstant) {
        (**self).now()
    }

    fn deadline_after(&self, duration: Duration) -> (r: Result<MonotonicInstant, TimeError>) {
        (**self).deadline_after(duration)
    }
}

} // verus!
