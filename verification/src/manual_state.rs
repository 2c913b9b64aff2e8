//! Mutable state of one manual monotonic time domain.
//!
//! The state holds the logical time and the waiter registrations of one
//! manual clock. Every operation is a single atomic step: a caller that shares
//! the state between threads runs each step under one lock and delivers the
//! returned wakers after releasing it.
use crate::duration::{duration_from_nanos, duration_nanos, nanos_of, BoundedNanos, MAX_DURATION_NANOS};
use crate::error::TimeError;
use crate::waiter_registry::{
    due_timer_ids, due_wakers_taken, has_future_deadline, is_next_future_deadline, lists_wakers_of, next_future_deadline_of,
    observer_wakers, pending_counters, reached_observer_ids, timer_wakers, waker_refreshed, CountObserver,
    ManualWaiterRegistry, TimerWaiter,
};
use crate::clock_domain::spec_next_identifier_state;
use std::task::Waker;
use std::time::Duration;
use vstd::prelude::*;

verus! {

/// Side effects collected while committing one manual time advance.
pub struct AdvanceEffects {
    /// Task wakers of timer waiters whose deadlines were reached.
    pub due_wakers: Vec<Waker>,
}

/// Logical time and waiter registrations of one manual time domain.
pub struct ManualMonotonicState {
    /// Nanoseconds elapsed from the domain's origin.
    elapsed: BoundedNanos,
    /// Deadline waiters and observers.
    waiters: ManualWaiterRegistry,
}

impl ManualMonotonicState {
    /// The logical time, in nanoseconds from the domain's origin.
    pub closed spec fn now(self) -> u128 {
        self.elapsed.spec_value()
    }

    /// The waiter registrations.
    pub closed spec fn registry(self) -> ManualWaiterRegistry {
        self.waiters
    }

    /// The logical time fits in a `Duration` and the registrations are
    /// well formed.
    pub open spec fn wf(self) -> bool {
        &&& self.now() <= MAX_DURATION_NANOS
        &&& self.registry().wf()
        &&& forall|id: u64| #[trigger] self.registry().timers().contains_key(id) ==> self.registry().timers()[id].deadline <= MAX_DURATION_NANOS
    }

    /// The number of registered timer waiters, including reached waiters
    /// awaiting cleanup.
    pub open spec fn spec_waiter_count(self) -> nat {
        self.registry().spec_count()
    }

    /// The earliest registered deadline after the current logical time.
    pub open spec fn spec_next_deadline(self) -> Option<u128> {
        next_future_deadline_of(self.registry().timers(), self.now())
    }

    /// Moving the logical time to `target` and detaching the wakers of the
    /// waiters due there turns `before` into `after` and yields `wakers`.
    pub open spec fn moved_to(before: ManualMonotonicState, after: ManualMonotonicState, target: u128, wakers: Seq<Waker>) -> bool {
        &&& after.now() == target
        &&& due_wakers_taken(before.registry(), after.registry(), target, wakers)
    }

    /// Registering a timer waiter with identifier `id` at a future `deadline`
    /// turned `before` into `after`, detaching `wakers` from the observers
    /// the registration satisfied.
    pub open spec fn timer_registered(before: ManualWaiterRegistry, after: ManualWaiterRegistry, deadline: u128, id: u64, wakers: Seq<Waker>) -> bool {
        &&& id == before.next_timer_id()
        &&& !before.timers().contains_key(id)
        &&& after.timers() == before.timers().insert(id, TimerWaiter { deadline, waker: None })
        &&& Some(after.next_timer_id()) == spec_next_identifier_state(before.next_timer_id())
        &&& after.next_observer() == before.next_observer()
        &&& after.counters() == pending_counters(before.counters(), before.spec_count() + 1)
        &&& after.watchers().dom() == before.watchers().dom()
        &&& forall|j: u64| #[trigger] after.watchers().contains_key(j) ==> after.watchers()[j] is None
        &&& exists|ids: Seq<u64>| #[trigger] lists_wakers_of(
            wakers,
            ids,
            observer_wakers(before.counters(), before.watchers()),
            reached_observer_ids(before.counters(), before.watchers(), before.spec_count() + 1, true),
        )
    }

    /// Creates an empty time domain at elapsed duration zero.
    pub fn new() -> (r: ManualMonotonicState)
        ensures
            r.wf(),
            r.now() == 0,
            r.registry().timers().is_empty(),
            r.registry().counters().is_empty(),
            r.registry().watchers().is_empty(),
            r.registry().next_timer_id() == 1,
            r.registry().next_observer() == 1,
    {
        ManualMonotonicState { elapsed: BoundedNanos::new(0), waiters: ManualWaiterRegistry::new() }
    }

    /// Returns the current logical time in nanoseconds from the origin.
    pub fn elapsed(&self) -> (r: u128)
        ensures
            r == self.now(),
            r <= MAX_DURATION_NANOS,
    {
        self.elapsed.value()
    }

    /// Returns the number of registered timer waiters.
    pub fn waiter_count(&self) -> (r: usize)
        ensures
            r == self.spec_waiter_count(),
    {
        self.waiters.count()
    }

    /// Returns the earliest registered deadline after current logical time.
    pub fn next_future_deadline(&self) -> (r: Option<u128>)
        ensures
            r == self.spec_next_deadline(),
    {
        self.waiters.next_future_deadline(self.elapsed.value())
    }

    /// Whether another timer waiter can still be registered.
    pub fn timer_ids_available(&self) -> (r: bool)
        ensures
            r == (self.registry().next_timer_id() != 0),
    {
        self.waiters.timer_ids_available()
    }

    /// Whether another observer can still be registered.
    pub fn observer_ids_available(&self) -> (r: bool)
        ensures
            r == (self.registry().next_observer() != 0),
    {
        self.waiters.observer_ids_available()
    }

    /// Moves the logical time forward to `target` and collects the wakers of
    /// the waiters due there.
    fn move_to(&mut self, target: u128) -> (r: AdvanceEffects)
        requires
            old(self).wf(),
            old(self).now() <= target <= MAX_DURATION_NANOS,
        ensures
            final(self).wf(),
            Self::moved_to(*old(self), *final(self), target, r.due_wakers@),
    {
        self.elapsed = BoundedNanos::new(target);
        let due_wakers = self.waiters.take_due_timer_wakers(target);
        proof {
            assert forall|id: u64| #[trigger] self.registry().timers().contains_key(id) implies self.registry().timers()[id].deadline <= MAX_DURATION_NANOS by {
                assert(old(self).registry().timers().contains_key(id));
            }
        }
        AdvanceEffects { due_wakers }
    }

    /// Advances logical time by `duration` and collects due effects.
    ///
    /// Returns `Ok(None)` without any change for a zero duration and
    /// `TimeError::InstantOverflow`, also without change, when the elapsed
    /// time would exceed what a `Duration` holds.
    pub fn advance(&mut self, duration: Duration) -> (r: Result<Option<AdvanceEffects>, TimeError>)
        requires
            old(self).wf(),
        ensures
            final(self).wf(),
            duration_nanos(duration) == 0 ==> (r matches Ok(None) && *final(self) == *old(self)),
            duration_nanos(duration) != 0 && old(self).now() + duration_nanos(duration) > MAX_DURATION_NANOS ==> (r matches Err(TimeError::InstantOverflow) && *final(self) == *old(self)),
            duration_nanos(duration) != 0 && old(self).now() + duration_nanos(duration) <= MAX_DURATION_NANOS ==> (r matches Ok(Some(effects)) && Self::moved_to(*old(self), *final(self), (old(self).now() + duration_nanos(duration)) as u128, effects.due_wakers@)),
    {
        let nanos = nanos_of(duration);
        if nanos == 0 {
            return Ok(None);
        }
        let elapsed = self.elapsed.value();
        if nanos > MAX_DURATION_NANOS - elapsed {
            return Err(TimeError::InstantOverflow);
        }
        let target = elapsed + nanos;
        Ok(Some(self.move_to(target)))
    }

    /// Advances logical time to `target` and collects due effects.
    ///
    /// Returns `Ok(None)` without change at the current instant and
    /// `TimeError::CannotMoveBackward`, also without change, for an earlier
    /// target.
    pub fn advance_to(&mut self, target: u128) -> (r: Result<Option<AdvanceEffects>, TimeError>)
        requires
            old(self).wf(),
            target <= MAX_DURATION_NANOS,
        ensures
            final(self).wf(),
            target < old(self).now() ==> (r matches Err(TimeError::CannotMoveBackward { current_elapsed, requested_elapsed }) && duration_nanos(current_elapsed) == old(self).now() && duration_nanos(requested_elapsed) == target && *final(self) == *old(self)),
            target == old(self).now() ==> (r matches Ok(None) && *final(self) == *old(self)),
            target > old(self).now() ==> (r matches Ok(Some(effects)) && Self::moved_to(*old(self), *final(self), target, effects.due_wakers@)),
    {
        let elapsed = self.elapsed.value();
        if target < elapsed {
            return Err(TimeError::CannotMoveBackward {
                current_elapsed: duration_from_nanos(elapsed),
                requested_elapsed: duration_from_nanos(target),
            });
        }
        if target == elapsed {
            return Ok(None);
        }
        Ok(Some(self.move_to(target)))
    }

    /// Advances to the earliest future deadline and collects due effects.
    ///
    /// Returns `None`, without change, when no future deadline is registered.
    pub fn advance_to_next_deadline(&mut self) -> (r: Option<(u128, AdvanceEffects)>)
        requires
            old(self).wf(),
        ensures
            final(self).wf(),
            old(self).spec_next_deadline() is None ==> r is None && *final(self) == *old(self),
            old(self).spec_next_deadline() matches Some(d) ==> (r matches Some((target, effects)) && target == d && Self::moved_to(*old(self), *final(self), d, effects.due_wakers@)),
    {
        match self.waiters.next_future_deadline(self.elapsed.value()) {
            None => None,
            Some(target) => {
                proof {
                    let id = choose|id: u64| #[trigger] self.registry().timers().contains_key(id) && self.registry().timers()[id].deadline == target;
                    assert(self.registry().timers().contains_key(id));
                }
                let effects = self.move_to(target);
                Some((target, effects))
            },
        }
    }

    /// Whether the number of registered timer waiters reached `expected_count`.
    pub fn waiters_reached(&self, expected_count: usize) -> (r: bool)
        ensures
            r == (self.spec_waiter_count() >= expected_count),
    {
        self.waiters.count() >= expected_count
    }

    /// Advances to the earliest future deadline when at least
    /// `expected_count` timer waiters are registered.
    ///
    /// The waiter-count check, deadline selection and time update form one
    /// step. Returns `None`, without change, while either condition is unmet.
    pub fn advance_if_waiters_ready(&mut self, expected_count: usize) -> (r: Option<(u128, AdvanceEffects)>)
        requires
            old(self).wf(),
        ensures
            final(self).wf(),
            (old(self).spec_waiter_count() < expected_count || old(self).spec_next_deadline() is None) ==> r is None && *final(self) == *old(self),
            old(self).spec_waiter_count() >= expected_count ==> (old(self).spec_next_deadline() matches Some(d) ==> (r matches Some((target, effects)) && target == d && Self::moved_to(*old(self), *final(self), d, effects.due_wakers@))),
    {
        if self.waiters.count() < expected_count {
            return None;
        }
        self.advance_to_next_deadline()
    }

    /// Registers a future timer deadline and detaches the wakers of the
    /// observers that the new registration satisfies.
    ///
    /// Returns `None`, without change, when the deadline was already reached.
    /// Otherwise returns the new waiter identifier and the observer wakers,
    /// which the caller invokes after unlocking.
    pub fn register_timer_waiter(&mut self, deadline: u128) -> (r: Option<(u64, Vec<Waker>)>)
        requires
            old(self).wf(),
            deadline <= MAX_DURATION_NANOS,
            deadline > old(self).now() ==> old(self).registry().next_timer_id() != 0,
        ensures
            final(self).wf(),
            final(self).now() == old(self).now(),
            deadline <= old(self).now() ==> r is None && *final(self) == *old(self),
            deadline > old(self).now() ==> (r matches Some((id, wakers)) && Self::timer_registered(old(self).registry(), final(self).registry(), deadline, id, wakers@)),
    {
        let elapsed = self.elapsed.value();
        if elapsed >= deadline {
            return None;
        }
        let waiter_id = self.waiters.register_timer(deadline);
        let ghost mid = self.waiters;
        proof {
            assert(mid.timers().contains_key(waiter_id) && mid.timers()[waiter_id].deadline > elapsed);
            assert(has_future_deadline(mid.timers(), elapsed));
            assert(mid.timers().dom() == old(self).registry().timers().dom().insert(waiter_id));
            assert(mid.spec_count() == old(self).registry().spec_count() + 1);
            assert(observer_wakers(mid.counters(), mid.watchers()) == observer_wakers(old(self).registry().counters(), old(self).registry().watchers()));
        }
        let wakers = self.waiters.reached_observer_wakers(elapsed);
        proof {
            let before = old(self).registry();
            let ids = choose|ids: Seq<u64>| lists_wakers_of(
                wakers@,
                ids,
                observer_wakers(mid.counters(), mid.watchers()),
                reached_observer_ids(mid.counters(), mid.watchers(), mid.spec_count(), has_future_deadline(mid.timers(), elapsed)),
            );
            assert(reached_observer_ids(mid.counters(), mid.watchers(), mid.spec_count(), has_future_deadline(mid.timers(), elapsed))
                == reached_observer_ids(before.counters(), before.watchers(), before.spec_count() + 1, true));
            assert(lists_wakers_of(wakers@, ids, observer_wakers(before.counters(), before.watchers()), reached_observer_ids(before.counters(), before.watchers(), before.spec_count() + 1, true)));
            assert forall|id: u64| #[trigger] self.registry().timers().contains_key(id) implies self.registry().timers()[id].deadline <= MAX_DURATION_NANOS by {
                if id != waiter_id {
                    assert(old(self).registry().timers().contains_key(id));
                }
            }
        }
        assert(Self::timer_registered(old(self).registry(), self.registry(), deadline, waiter_id, wakers@));
        Some((waiter_id, wakers))
    }

    /// Registers an observer of the total timer waiter count.
    ///
    /// Returns `None`, without change, when the count already reaches
    /// `expected_count`.
    pub fn register_waiter_observer(&mut self, expected_count: usize) -> (r: Option<u64>)
        requires
            old(self).wf(),
            old(self).spec_waiter_count() < expected_count ==> old(self).registry().next_observer() != 0,
        ensures
            final(self).wf(),
            final(self).now() == old(self).now(),
            final(self).registry().timers_unchanged(old(self).registry()),
            final(self).registry().watchers() == old(self).registry().watchers(),
            old(self).spec_waiter_count() >= expected_count ==> r is None && *final(self) == *old(self),
            old(self).spec_waiter_count() < expected_count ==> {
                &&& r == Some(old(self).registry().next_observer())
                &&& !old(self).registry().counters().contains_key(old(self).registry().next_observer())
                &&& final(self).registry().counters() == old(self).registry().counters().insert(old(self).registry().next_observer(), CountObserver { expected_count, waker: None })
                &&& Some(final(self).registry().next_observer()) == spec_next_identifier_state(old(self).registry().next_observer())
            },
    {
        let count = self.waiters.count();
        let r = self.waiters.register_observer(expected_count, count);
        proof {
            self.lemma_deadlines_bounded_kept(*old(self));
        }
        r
    }

    /// Registers an observer of the next future deadline.
    pub fn register_deadline_observer(&mut self) -> (r: u64)
        requires
            old(self).wf(),
            old(self).registry().next_observer() != 0,
        ensures
            final(self).wf(),
            final(self).now() == old(self).now(),
            final(self).registry().timers_unchanged(old(self).registry()),
            final(self).registry().counters() == old(self).registry().counters(),
            r == old(self).registry().next_observer(),
            !old(self).registry().watchers().contains_key(r),
            final(self).registry().watchers() == old(self).registry().watchers().insert(r, None),
            Some(final(self).registry().next_observer()) == spec_next_identifier_state(old(self).registry().next_observer()),
    {
        let r = self.waiters.register_deadline_observer();
        proof {
            self.lemma_deadlines_bounded_kept(*old(self));
        }
        r
    }

    /// Polls a next-deadline observer, storing `waker` while it is pending.
    ///
    /// Returns the observed deadline when one lies ahead, removing the
    /// observer, and any detached waker for destruction after unlocking.
    pub fn poll_deadline_observer(&mut self, observer_id: u64, waker: &Waker) -> (r: (Option<u128>, Option<Waker>))
        requires
            old(self).wf(),
            old(self).registry().watchers().contains_key(observer_id),
        ensures
            final(self).wf(),
            final(self).now() == old(self).now(),
            final(self).registry().timers_unchanged(old(self).registry()),
            final(self).registry().counters() == old(self).registry().counters(),
            final(self).registry().next_observer() == old(self).registry().next_observer(),
            r.0 == old(self).spec_next_deadline(),
            r.0 is Some ==> final(self).registry().watchers() == old(self).registry().watchers().remove(observer_id) && r.1 == old(self).registry().watchers()[observer_id],
            r.0 is None ==> {
                &&& final(self).registry().watchers().dom() == old(self).registry().watchers().dom()
                &&& forall|j: u64| j != observer_id && #[trigger] old(self).registry().watchers().contains_key(j) ==> final(self).registry().watchers()[j] == old(self).registry().watchers()[j]
                &&& waker_refreshed(old(self).registry().watchers()[observer_id], final(self).registry().watchers()[observer_id], r.1)
            },
    {
        let elapsed = self.elapsed.value();
        let r = self.waiters.poll_deadline_observer(observer_id, elapsed, waker);
        proof {
            self.lemma_deadlines_bounded_kept(*old(self));
        }
        r
    }

    /// Polls a waiter-count observer, storing `waker` while it is pending.
    ///
    /// Returns whether the count was reached and any replaced waker for
    /// destruction after unlocking.
    pub fn poll_waiter_observer(&mut self, observer_id: u64, waker: &Waker) -> (r: (bool, Option<Waker>))
        requires
            old(self).wf(),
        ensures
            final(self).wf(),
            final(self).now() == old(self).now(),
            final(self).registry().timers_unchanged(old(self).registry()),
            final(self).registry().watchers() == old(self).registry().watchers(),
            final(self).registry().next_observer() == old(self).registry().next_observer(),
            !old(self).registry().counters().contains_key(observer_id) ==> r.0 && r.1 is None && final(self).registry().counters() == old(self).registry().counters(),
            old(self).registry().counters().contains_key(observer_id) ==> {
                &&& !r.0
                &&& final(self).registry().counters().dom() == old(self).registry().counters().dom()
                &&& forall|j: u64| j != observer_id && #[trigger] old(self).registry().counters().contains_key(j) ==> final(self).registry().counters()[j] == old(self).registry().counters()[j]
                &&& final(self).registry().counters()[observer_id].expected_count == old(self).registry().counters()[observer_id].expected_count
                &&& waker_refreshed(old(self).registry().counters()[observer_id].waker, final(self).registry().counters()[observer_id].waker, r.1)
            },
    {
        let r = self.waiters.poll_observer(observer_id, waker);
        proof {
            self.lemma_deadlines_bounded_kept(*old(self));
        }
        r
    }

    /// Unregisters an incomplete observer and returns its detached waker.
    pub fn unregister_waiter_observer(&mut self, observer_id: u64) -> (r: Option<Waker>)
        requires
            old(self).wf(),
        ensures
            final(self).wf(),
            final(self).now() == old(self).now(),
            final(self).registry().timers_unchanged(old(self).registry()),
            final(self).registry().next_observer() == old(self).registry().next_observer(),
            final(self).registry().counters() == old(self).registry().counters().remove(observer_id),
            final(self).registry().watchers() == old(self).registry().watchers().remove(observer_id),
            r == (if old(self).registry().counters().contains_key(observer_id) {
                old(self).registry().counters()[observer_id].waker
            } else if old(self).registry().watchers().contains_key(observer_id) {
                old(self).registry().watchers()[observer_id]
            } else {
                None
            }),
    {
        let r = self.waiters.unregister_observer(observer_id);
        proof {
            self.lemma_deadlines_bounded_kept(*old(self));
        }
        r
    }

    /// Returns whether a waiter-count observer is still waiting.
    pub fn contains_observer(&self, observer_id: u64) -> (r: bool)
        ensures
            r == self.registry().counters().contains_key(observer_id),
    {
        self.waiters.contains_observer(observer_id)
    }

    /// Returns whether a future-deadline observer is registered.
    pub fn contains_deadline_observer(&self, observer_id: u64) -> (r: bool)
        ensures
            r == self.registry().watchers().contains_key(observer_id),
    {
        self.waiters.contains_deadline_observer(observer_id)
    }

    /// Returns whether a timer waiter is registered.
    pub fn contains_timer_waiter(&self, waiter_id: u64) -> (r: bool)
        ensures
            r == self.registry().timers().contains_key(waiter_id),
    {
        self.waiters.contains_timer(waiter_id)
    }

    /// Polls a timer waiter against the current logical time, storing
    /// `waker` while it is pending and removing it once ready.
    pub fn poll_timer_waiter(&mut self, waiter_id: u64, waker: &Waker) -> (r: (bool, Option<Waker>))
        requires
            old(self).wf(),
            old(self).registry().timers().contains_key(waiter_id),
        ensures
            final(self).wf(),
            final(self).now() == old(self).now(),
            final(self).registry().next_timer_id() == old(self).registry().next_timer_id(),
            final(self).registry().observers_unchanged(old(self).registry()),
            r.0 == (old(self).now() >= old(self).registry().timers()[waiter_id].deadline),
            r.0 ==> final(self).registry().timers() == old(self).registry().timers().remove(waiter_id) && r.1 == old(self).registry().timers()[waiter_id].waker,
            !r.0 ==> {
                &&& final(self).registry().timers().dom() == old(self).registry().timers().dom()
                &&& forall|j: u64| j != waiter_id && #[trigger] old(self).registry().timers().contains_key(j) ==> final(self).registry().timers()[j] == old(self).registry().timers()[j]
                &&& final(self).registry().timers()[waiter_id].deadline == old(self).registry().timers()[waiter_id].deadline
                &&& waker_refreshed(old(self).registry().timers()[waiter_id].waker, final(self).registry().timers()[waiter_id].waker, r.1)
            },
    {
        let elapsed = self.elapsed.value();
        let r = self.waiters.poll_timer(waiter_id, elapsed, waker);
        proof {
            assert forall|id: u64| #[trigger] self.registry().timers().contains_key(id) implies self.registry().timers()[id].deadline <= MAX_DURATION_NANOS by {
                assert(old(self).registry().timers().contains_key(id));
            }
        }
        r
    }

    /// Unregisters a timer waiter after completion or cancellation.
    ///
    /// Returns the removed waiter's optional waker, or `None` when absent.
    pub fn unregister_timer_waiter(&mut self, waiter_id: u64) -> (r: Option<Option<Waker>>)
        requires
            old(self).wf(),
        ensures
            final(self).wf(),
            final(self).now() == old(self).now(),
            final(self).registry().timers() == old(self).registry().timers().remove(waiter_id),
            final(self).registry().next_timer_id() == old(self).registry().next_timer_id(),
            final(self).registry().observers_unchanged(old(self).registry()),
            r == (if old(self).registry().timers().contains_key(waiter_id) { Some(old(self).registry().timers()[waiter_id].waker) } else { None }),
    {
        let r = self.waiters.unregister_timer(waiter_id);
        proof {
            assert forall|id: u64| #[trigger] self.registry().timers().contains_key(id) implies self.registry().timers()[id].deadline <= MAX_DURATION_NANOS by {
                assert(old(self).registry().timers().contains_key(id));
            }
        }
        r
    }

    /// Deadlines stay within range when the timer registrations are unchanged.
    proof fn lemma_deadlines_bounded_kept(self, before: ManualMonotonicState)
        requires
            before.wf(),
            self.registry().wf(),
            self.now() == before.now(),
            self.registry().timers() == before.registry().timers(),
        ensures
            self.wf(),
    {
    }

    /// The earliest future deadline is the deadline of a registered waiter,
    /// so it lies ahead of the logical time and fits in a `Duration`.
    pub proof fn lemma_next_deadline_registered(self, d: u128)
        requires
            self.wf(),
            self.spec_next_deadline() == Some(d),
        ensures
            self.now() < d <= MAX_DURATION_NANOS,
    {
        let timers = self.registry().timers();
        let e = choose|e: u128| is_next_future_deadline(timers, self.now(), e);
        crate::waiter_registry::lemma_has_future_deadline_min(timers, self.now());
        assert(is_next_future_deadline(timers, self.now(), e));
        let id = choose|id: u64| #[trigger] timers.contains_key(id) && timers[id].deadline == e;
        assert(timers.contains_key(id));
    }

}

/// An advance never moves the logical time backward: it moves to a target
/// at or after the current time.
pub proof fn lemma_advance_never_backward(before: ManualMonotonicState, after: ManualMonotonicState, target: u128, wakers: Seq<Waker>)
    requires
        before.now() <= target,
        ManualMonotonicState::moved_to(before, after, target, wakers),
    ensures
        after.now() >= before.now(),
        after.now() == target,
{
}

/// Advancing to or past a waiter's deadline hands out the waker that waiter
/// last stored.
pub proof fn lemma_advance_wakes_due_waiter(before: ManualMonotonicState, after: ManualMonotonicState, target: u128, wakers: Seq<Waker>, id: u64)
    requires
        ManualMonotonicState::moved_to(before, after, target, wakers),
        before.registry().timers().contains_key(id),
        before.registry().timers()[id].deadline <= target,
        before.registry().timers()[id].waker is Some,
    ensures
        exists|i: int| 0 <= i < wakers.len() && Some(wakers[i]) == before.registry().timers()[id].waker,
        after.registry().timers()[id].waker is None,
{
    let ids = choose|ids: Seq<u64>| lists_wakers_of(wakers, ids, timer_wakers(before.registry().timers()), due_timer_ids(before.registry().timers(), target));
    let stored = timer_wakers(before.registry().timers());
    assert(stored.contains_key(id) && stored[id] is Some);
    assert(due_timer_ids(before.registry().timers(), target).contains(id));
    assert(ids.contains(id));
    let i = ids.index_of(id);
    assert(stored[ids[i]] == Some(wakers[i]));
}

/// A waiter woken by one advance is not woken again by the next, unless it
/// stored a new waker in between: the second advance hands out only wakers
/// of waiters that were not due at the first.
pub proof fn lemma_waker_handed_out_once(
    r0: ManualMonotonicState,
    r1: ManualMonotonicState,
    r2: ManualMonotonicState,
    t1: u128,
    t2: u128,
    w1: Seq<Waker>,
    w2: Seq<Waker>,
    ids2: Seq<u64>,
)
    requires
        ManualMonotonicState::moved_to(r0, r1, t1, w1),
        ManualMonotonicState::moved_to(r1, r2, t2, w2),
        lists_wakers_of(w2, ids2, timer_wakers(r1.registry().timers()), due_timer_ids(r1.registry().timers(), t2)),
    ensures
        forall|i: int| 0 <= i < ids2.len() ==> !due_timer_ids(r0.registry().timers(), t1).contains(#[trigger] ids2[i]),
{
    assert forall|i: int| 0 <= i < ids2.len() implies !due_timer_ids(r0.registry().timers(), t1).contains(#[trigger] ids2[i]) by {
        let id = ids2[i];
        assert(timer_wakers(r1.registry().timers())[id] == Some(w2[i]));
        assert(r1.registry().timers().contains_key(id));
    }
}

/// A timer registered for `deadline` is still registered, with that
/// deadline, after an advance to or past it, and its poll then finds it
/// ready.
pub proof fn lemma_registered_timer_ready_after_advance(
    r0: ManualWaiterRegistry,
    r1: ManualMonotonicState,
    r2: ManualMonotonicState,
    deadline: u128,
    id: u64,
    satisfied: Seq<Waker>,
    target: u128,
    due: Seq<Waker>,
)
    requires
        ManualMonotonicState::timer_registered(r0, r1.registry(), deadline, id, satisfied),
        ManualMonotonicState::moved_to(r1, r2, target, due),
        deadline <= target,
    ensures
        r2.registry().timers().contains_key(id),
        r2.registry().timers()[id].deadline == deadline,
        r2.now() >= r2.registry().timers()[id].deadline,
{
    assert(r1.registry().timers().contains_key(id));
}


/// An advance keeps every registration, due or not, so the waiter count is
/// unchanged until the due waiters are polled or dropped.
pub proof fn lemma_due_waiter_counted_until_polled(before: ManualMonotonicState, after: ManualMonotonicState, target: u128, wakers: Seq<Waker>)
    requires
        ManualMonotonicState::moved_to(before, after, target, wakers),
    ensures
        after.spec_waiter_count() == before.spec_waiter_count(),
{
    assert(after.registry().timers().dom() == before.registry().timers().dom());
}

/// Removing a registered waiter, as a ready poll or a cancellation does,
/// lowers the waiter count by exactly one.
pub proof fn lemma_removed_waiter_leaves_count(before: ManualWaiterRegistry, after: ManualWaiterRegistry, id: u64)
    requires
        before.wf(),
        before.timers().contains_key(id),
        after.timers() == before.timers().remove(id),
    ensures
        after.spec_count() == before.spec_count() - 1,
{
    assert(after.timers().dom() == before.timers().dom().remove(id));
}

} // verus!
