//! A monotonic instant scoped to one clock domain.
use crate::clock_domain::ClockDomain;
use crate::duration::{duration_from_nanos, duration_nanos, nanos_of, MAX_DURATION_NANOS};
use crate::error::TimeError;
use std::cmp::Ordering;
use std::time::Duration;
use vstd::prelude::*;
use vstd::std_specs::cmp::PartialEqSpecImpl;
use vstd::std_specs::cmp::PartialOrdSpecImpl;

verus! {

/// A fixed point in one monotonic clock domain.
///
/// Instants from different domains cannot be ordered or used in arithmetic
/// together. The elapsed time from the domain's origin is held with the full
/// nanosecond precision of `Duration`.
#[derive(Debug, Clone, Copy, Hash)]
pub struct MonotonicInstant {
    /// The originating monotonic clock domain.
    domain: ClockDomain,
    /// Nanoseconds elapsed from the originating clock domain's origin.
    elapsed_nanos: u128,
}

impl MonotonicInstant {
    /// Every instant's elapsed time fits in a `Duration`.
    #[verifier::type_invariant]
    spec fn inv(self) -> bool {
        self.elapsed_nanos <= MAX_DURATION_NANOS
    }

    /// The domain carried by this instant.
    pub closed spec fn spec_domain(self) -> ClockDomain {
        self.domain
    }

    /// The nanoseconds elapsed from the domain's origin.
    pub closed spec fn nanos(self) -> u128 {
        self.elapsed_nanos
    }

    /// Two instants are the same value exactly when their domains and
    /// elapsed times agree.
    pub proof fn lemma_equal_iff(a: MonotonicInstant, b: MonotonicInstant)
        ensures
            a == b <==> (a.spec_domain() == b.spec_domain() && a.nanos() == b.nanos()),
    {
    }

    /// Creates an instant for a clock implementation.
    pub fn new(domain: ClockDomain, elapsed: Duration) -> (r: MonotonicInstant)
        ensures
            r.spec_domain() == domain,
            r.nanos() == duration_nanos(elapsed),
    {
        MonotonicInstant { domain, elapsed_nanos: nanos_of(elapsed) }
    }

    /// Creates the instant `nanos` nanoseconds after the origin of `domain`.
    pub fn from_nanos(domain: ClockDomain, nanos: u128) -> (r: MonotonicInstant)
        requires
            nanos <= MAX_DURATION_NANOS,
        ensures
            r.spec_domain() == domain,
            r.nanos() == nanos,
    {
        MonotonicInstant { domain, elapsed_nanos: nanos }
    }

    /// Returns the originating monotonic clock domain.
    pub fn domain(self) -> (r: ClockDomain)
        ensures
            r == self.spec_domain(),
    {
        self.domain
    }

    /// Returns the nanoseconds elapsed from the domain's origin.
    pub fn elapsed_nanos(self) -> (r: u128)
        ensures
            r == self.nanos(),
            r <= MAX_DURATION_NANOS,
    {
        proof {
            use_type_invariant(self);
        }
        self.elapsed_nanos
    }

    /// Returns the elapsed duration from this clock domain's origin.
    pub fn elapsed_since_origin(self) -> (r: Duration)
        ensures
            duration_nanos(r) == self.nanos(),
    {
        proof {
            use_type_invariant(self);
        }
        duration_from_nanos(self.elapsed_nanos)
    }

    /// Adds a duration while preserving the originating clock domain.
    ///
    /// Returns `TimeError::InstantOverflow` when the result cannot be
    /// represented by `Duration`.
    pub fn checked_add(self, duration: Duration) -> (r: Result<MonotonicInstant, TimeError>)
        ensures
            self.nanos() + duration_nanos(duration) <= MAX_DURATION_NANOS ==> (r matches Ok(i) && i.spec_domain() == self.spec_domain() && i.nanos() == self.nanos() + duration_nanos(duration)),
            self.nanos() + duration_nanos(duration) > MAX_DURATION_NANOS ==> r matches Err(TimeError::InstantOverflow),
    {
        proof {
            use_type_invariant(self);
        }
        let added = nanos_of(duration);
        if added <= MAX_DURATION_NANOS - self.elapsed_nanos {
            Ok(MonotonicInstant { domain: self.domain, elapsed_nanos: self.elapsed_nanos + added })
        } else {
            Err(TimeError::InstantOverflow)
        }
    }

    /// Verifies that this instant belongs to `expected_domain`.
    ///
    /// Returns `TimeError::ClockDomainMismatch` for a foreign instant.
    pub fn ensure_domain(self, expected_domain: ClockDomain) -> (r: Result<(), TimeError>)
        ensures
            self.spec_domain() == expected_domain ==> r is Ok,
            self.spec_domain() != expected_domain ==> (r matches Err(TimeError::ClockDomainMismatch { expected, actual }) && expected == expected_domain && actual == self.spec_domain()),
    {
        if self.domain == expected_domain {
            Ok(())
        } else {
            Err(TimeError::ClockDomainMismatch { expected: expected_domain, actual: self.domain })
        }
    }

    /// Calculates the duration elapsed since an earlier instant.
    ///
    /// Returns `TimeError::ClockDomainMismatch` when `earlier` belongs to a
    /// different clock, and `TimeError::InvalidInstantOrder` when `earlier`
    /// is later than this instant.
    pub fn duration_since(self, earlier: MonotonicInstant) -> (r: Result<Duration, TimeError>)
        ensures
            earlier.spec_domain() != self.spec_domain() ==> (r matches Err(TimeError::ClockDomainMismatch { expected, actual }) && expected == self.spec_domain() && actual == earlier.spec_domain()),
            earlier.spec_domain() == self.spec_domain() && earlier.nanos() <= self.nanos() ==> (r matches Ok(d) && duration_nanos(d) == self.nanos() - earlier.nanos()),
            earlier.spec_domain() == self.spec_domain() && earlier.nanos() > self.nanos() ==> (r matches Err(TimeError::InvalidInstantOrder { current_elapsed, earlier_elapsed }) && duration_nanos(current_elapsed) == self.nanos() && duration_nanos(earlier_elapsed) == earlier.nanos()),
    {
        proof {
            use_type_invariant(self);
            use_type_invariant(earlier);
        }
        match earlier.ensure_domain(self.domain) {
            Err(e) => Err(e),
            Ok(()) => {
                if earlier.elapsed_nanos <= self.elapsed_nanos {
                    Ok(duration_from_nanos(self.elapsed_nanos - earlier.elapsed_nanos))
                } else {
                    Err(TimeError::InvalidInstantOrder {
                        current_elapsed: duration_from_nanos(self.elapsed_nanos),
                        earlier_elapsed: duration_from_nanos(earlier.elapsed_nanos),
                    })
                }
            },
        }
    }

    /// Orders two instants only when they belong to the same clock domain.
    pub open spec fn order(&self, other: &MonotonicInstant) -> Option<Ordering> {
        if self.spec_domain() == other.spec_domain() {
            if self.nanos() < other.nanos() {
                Some(Ordering::Less)
            } else if self.nanos() == other.nanos() {
                Some(Ordering::Equal)
            } else {
                Some(Ordering::Greater)
            }
        } else {
            None
        }
    }
}

impl PartialEq for MonotonicInstant {
    fn eq(&self, other: &MonotonicInstant) -> (r: bool) {
        self.domain == other.domain && self.elapsed_nanos == other.elapsed_nanos
    }
}

impl Eq for MonotonicInstant {
}

impl PartialEqSpecImpl for MonotonicInstant {
    open spec fn obeys_eq_spec() -> bool {
        true
    }

    open spec fn eq_spec(&self, other: &MonotonicInstant) -> bool {
        self.spec_domain() == other.spec_domain() && self.nanos() == other.nanos()
    }
}

impl PartialOrd for MonotonicInstant {
    fn partial_cmp(&self, other: &MonotonicInstant) -> (r: Option<Ordering>) {
        if self.domain == other.domain {
            if self.elapsed_nanos < other.elapsed_nanos {
                Some(Ordering::Less)
            } else if self.elapsed_nanos == other.elapsed_nanos {
                Some(Ordering::Equal)
            } else {
                Some(Ordering::Greater)
            }
        } else {
            None
        }
    }
}

impl PartialOrdSpecImpl for MonotonicInstant {
    open spec fn obeys_partial_cmp_spec() -> bool {
        true
    }

    open spec fn partial_cmp_spec(&self, other: &MonotonicInstant) -> Option<Ordering> {
        self.order(other)
    }
}

/// Adding a duration to an instant and measuring back from the starting
/// instant gives the duration again: the sum lies in the same domain, no
/// earlier than the start, exactly that many nanoseconds later.
pub proof fn lemma_add_then_measure(start: MonotonicInstant, later: MonotonicInstant, d: Duration)
    requires
        later.spec_domain() == start.spec_domain(),
        later.nanos() == start.nanos() + duration_nanos(d),
    ensures
        start.nanos() <= later.nanos(),
        later.nanos() - start.nanos() == duration_nanos(d),
        later.order(&start) != Some(Ordering::Less),
{
}

/// Instants are ordered only within one domain, and the order of two
/// instants read in reverse is the reverse order.
pub proof fn lemma_order_antisymmetric(a: MonotonicInstant, b: MonotonicInstant)
    ensures
        a.spec_domain() != b.spec_domain() ==> a.order(&b) is None && b.order(&a) is None,
        a.order(&b) == Some(Ordering::Less) <==> b.order(&a) == Some(Ordering::Greater),
        a.order(&b) == Some(Ordering::Equal) <==> b.order(&a) == Some(Ordering::Equal),
        a.order(&b) == Some(Ordering::Equal) <==> a == b,
{
}

} // verus!
