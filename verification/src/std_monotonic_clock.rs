//! The standard-library monotonic clock.
use crate::clock_domain::ClockDomain;
use crate::monotonic_clock::MonotonicClock;
use crate::monotonic_instant::MonotonicInstant;
use crate::time_source::{instant_elapsed, instant_now};
use std::time::Instant;
use vstd::prelude::*;

verus! {

/// A real monotonic clock backed by `std::time::Instant`.
#[derive(Debug)]
pub struct StdMonotonicClock {
    /// Domain carried by instants sampled from this clock.
    domain: ClockDomain,
    /// Native standard-library instant mapped to elapsed duration zero.
    origin: Instant,
}

impl StdMonotonicClock {
    /// The domain of this clock.
    pub closed spec fn spec_domain(self) -> ClockDomain {
        self.domain
    }

    /// The native instant mapped to elapsed duration zero.
    pub closed spec fn spec_origin(self) -> Instant {
        self.origin
    }

    /// Creates a clock in `domain` whose origin is the current native instant.
    pub fn new(domain: ClockDomain) -> (r: StdMonotonicClock)
        ensures
            r.spec_domain() == domain,
    {
        StdMonotonicClock { domain, origin: instant_now() }
    }

    /// Returns the native origin mapped to elapsed duration zero.
    pub fn origin(&self) -> (r: Instant)
        ensures
            r == self.spec_origin(),
    {
        self.origin
    }
}

impl MonotonicClock for StdMonotonicClock {
    open spec fn clock_domain(&self) -> ClockDomain {
        self.spec_domain()
    }

    /// Returns this clock's domain without sampling native time.
    fn domain(&self) -> (r: ClockDomain) {
        self.domain
    }

    /// Returns the current instant in this clock's domain.
    fn now(&self) -> (r: MonotonicInstant) {
        MonotonicInstant::new(self.domain, instant_elapsed(&self.origin))
    }
}

} // verus!
