//! Unique monotonic clock domains and their identifier allocation.
use vstd::prelude::*;

verus! {

/// Returns the allocator state following `identifier`, or `None` when zero
/// already marks exhaustion.
///
/// The maximum identifier transitions to zero so it remains allocatable once
/// without wrapping into a reused nonzero identifier.
pub fn next_identifier_state(identifier: u64) -> (r: Option<u64>)
    ensures
        r == spec_next_identifier_state(identifier),
{
    if identifier == 0 {
        None
    } else if identifier == u64::MAX {
        Some(0)
    } else {
        Some(identifier + 1)
    }
}

/// The allocator state that follows `identifier`: zero is terminal, the
/// maximum identifier leads to zero, and every other identifier to its
/// successor.
pub open spec fn spec_next_identifier_state(identifier: u64) -> Option<u64> {
    if identifier == 0 {
        None
    } else if identifier == u64::MAX {
        Some(0u64)
    } else {
        Some((identifier + 1) as u64)
    }
}

/// Whether an allocator whose next state is `next` has already handed out
/// `identifier`: every nonzero identifier below `next`, or every nonzero
/// identifier once the allocator reached its terminal zero state.
pub open spec fn identifier_issued(next: u64, identifier: u64) -> bool {
    identifier != 0 && (next == 0 || identifier < next)
}

/// Allocates the current nonzero identifier held in `next` and advances it.
///
/// Returns `None`, leaving `next` unchanged, once the identifier space is
/// exhausted.
pub fn allocate_identifier(next: &mut u64) -> (r: Option<u64>)
    ensures
        r == (if *old(next) == 0 { None } else { Some(*old(next)) }),
        *old(next) == 0 ==> *final(next) == 0,
        *old(next) != 0 ==> Some(*final(next)) == spec_next_identifier_state(*old(next)),
{
    let identifier = *next;
    match next_identifier_state(identifier) {
        Some(state) => {
            *next = state;
            Some(identifier)
        },
        None => None,
    }
}

/// An allocated identifier was never issued before its allocation, and is
/// issued afterwards together with every identifier issued earlier.
pub proof fn lemma_allocation_is_fresh(next: u64, identifier: u64)
    requires
        next != 0,
    ensures
        !identifier_issued(next, next),
        spec_next_identifier_state(next) matches Some(after) && {
            &&& identifier_issued(after, next)
            &&& identifier_issued(next, identifier) ==> identifier_issued(after, identifier)
        },
{
}

/// Identifies one monotonic clock timeline.
///
/// A domain is carried by every monotonic instant produced by its clock.
/// Instants from different domains cannot be ordered or combined.
#[derive(Debug, Clone, Copy, PartialEq, Eq, Hash, Structural)]
pub struct ClockDomain {
    identifier: u64,
}

impl ClockDomain {
    /// The nonzero identifier of this domain.
    pub closed spec fn id(self) -> u64 {
        self.identifier
    }

    /// Creates the domain with the given nonzero identifier.
    pub fn from_identifier(identifier: u64) -> (r: ClockDomain)
        requires
            identifier != 0,
        ensures
            r.id() == identifier,
    {
        ClockDomain { identifier }
    }

    /// Creates a domain that `allocator` never handed out before.
    ///
    /// The allocator must not be exhausted; see
    /// [`ClockDomainAllocator::allocate`] for the fallible form.
    pub fn new(allocator: &mut ClockDomainAllocator) -> (r: ClockDomain)
        requires
            old(allocator).next_state() != 0,
        ensures
            r.id() == old(allocator).next_state(),
            !old(allocator).issued(r.id()),
            final(allocator).issued(r.id()),
            Some(final(allocator).next_state()) == spec_next_identifier_state(old(allocator).next_state()),
            forall|identifier: u64| old(allocator).issued(identifier) ==> final(allocator).issued(identifier),
    {
        match allocator.allocate() {
            Some(domain) => domain,
            None => ClockDomain { identifier: 1 },
        }
    }

    /// Returns the nonzero identifier of this domain.
    pub fn identifier(&self) -> (r: u64)
        ensures
            r == self.id(),
    {
        self.identifier
    }

    /// Two domains are equal exactly when their identifiers are.
    pub proof fn lemma_id_determines(a: ClockDomain, b: ClockDomain)
        ensures
            a == b <==> a.id() == b.id(),
    {
    }
}

/// Hands out clock domains that are never reused.
///
/// Every nonzero identifier, including the final one, can be allocated once.
/// After the final identifier is returned the allocator is exhausted.
#[derive(Debug)]
pub struct ClockDomainAllocator {
    next: u64,
}

impl ClockDomainAllocator {
    /// The allocator state: the next identifier, or zero once exhausted.
    pub closed spec fn next_state(self) -> u64 {
        self.next
    }

    /// Whether this allocator has already handed out `identifier`.
    pub open spec fn issued(self, identifier: u64) -> bool {
        identifier_issued(self.next_state(), identifier)
    }

    /// Creates an allocator whose first domain has identifier one.
    pub fn new() -> (r: ClockDomainAllocator)
        ensures
            r.next_state() == 1,
            forall|identifier: u64| !r.issued(identifier),
    {
        ClockDomainAllocator { next: 1 }
    }

    /// Returns whether every identifier has been handed out.
    pub fn is_exhausted(&self) -> (r: bool)
        ensures
            r == (self.next_state() == 0),
    {
        self.next == 0
    }

    /// Allocates a domain that this allocator never handed out before.
    ///
    /// Returns `None` once all nonzero identifiers have been allocated.
    pub fn allocate(&mut self) -> (r: Option<ClockDomain>)
        ensures
            r is None <==> old(self).next_state() == 0,
            r matches Some(domain) ==> {
                &&& domain.id() == old(self).next_state()
                &&& !old(self).issued(domain.id())
                &&& final(self).issued(domain.id())
                &&& Some(final(self).next_state()) == spec_next_identifier_state(old(self).next_state())
            },
            forall|identifier: u64| old(self).issued(identifier) ==> final(self).issued(identifier),
    {
        match allocate_identifier(&mut self.next) {
            Some(identifier) => Some(ClockDomain { identifier }),
            None => None,
        }
    }
}

/// Returns the clock-domain counter state following `current`, or `None`
/// when incrementing would overflow.
///
/// Identifiers allocated with this rule start at one and stop before the
/// reserved `u64::MAX` sentinel, so none is ever reused.
pub fn next_clock_domain_id_state(current: u64) -> (r: Option<u64>)
    ensures
        r == (if current == u64::MAX { None } else { Some((current + 1) as u64) }),
{
    current.checked_add(1)
}

/// Allocating from a counter at `before` returned `r` and left it at
/// `after`: the counter's value is handed out and incremented, or, once it
/// reached the reserved `u64::MAX`, nothing is handed out and it stays.
pub open spec fn clock_domain_id_allocated(before: u64, r: Option<u64>, after: u64) -> bool {
    if before == u64::MAX {
        r is None && after == u64::MAX
    } else {
        r == Some(before) && after == before + 1
    }
}

/// Allocates a domain identifier from `counter` without ever reusing one.
///
/// The counter starts at one. Returns its current value and increments it,
/// or `None`, leaving it unchanged, once it reached the reserved `u64::MAX`.
pub fn allocate_clock_domain_id(counter: &mut u64) -> (r: Option<u64>)
    requires
        *old(counter) >= 1,
    ensures
        clock_domain_id_allocated(*old(counter), r, *final(counter)),
        *final(counter) >= 1,
        r matches Some(id) ==> 0 < id < u64::MAX,
{
    match next_clock_domain_id_state(*counter) {
        Some(state) => {
            let identifier = *counter;
            *counter = state;
            Some(identifier)
        },
        None => None,
    }
}

/// Identifiers allocated one after another from the same counter are
/// nonzero, below `u64::MAX`, and strictly increasing.
pub proof fn lemma_clock_domain_ids_increase(c0: u64, x: u64, c1: u64, y: u64, c2: u64)
    requires
        c0 >= 1,
        clock_domain_id_allocated(c0, Some(x), c1),
        clock_domain_id_allocated(c1, Some(y), c2),
    ensures
        0 < x < y < u64::MAX,
{
}

} // verus!
