//! An explicitly advanced monotonic clock for deterministic tests.
use crate::clock_domain::ClockDomain;
use crate::duration::{duration_nanos, MAX_DURATION_NANOS};
use crate::error::TimeError;
use crate::manual_state::{AdvanceEffects, ManualMonotonicState};
use crate::monotonic_clock::MonotonicClock;
use crate::monotonic_instant::MonotonicInstant;
use crate::waiter_registry::{waker_refreshed, CountObserver, TimerWaiter};
use crate::clock_domain::spec_next_identifier_state;
use crate::real_time_wait::{pending_outcome, pending_step, RealTimeWait};
use std::task::Waker;
use std::time::Duration;
use vstd::prelude::*;

verus! {

/// How a wait for registered timer waiters stands after it began.
#[derive(Debug, Clone, Copy, PartialEq, Eq, Structural)]
pub enum WaitersWait {
    /// The expected number of waiters is registered.
    Reached,
    /// The wait ended without the expected number of waiters.
    TimedOut,
    /// The wait continues, watched by the observer with this identifier.
    Watching(u64),
}

/// A monotonic clock that advances only when explicitly instructed.
///
/// Every operation is one atomic step on the clock's time domain. Advances
/// return the task wakers that became due; the caller invokes them after the
/// step, outside any lock that shares the clock.
pub struct ManualMonotonicClock {
    /// The identifier of the originating monotonic clock domain.
    domain: ClockDomain,
    /// Logical time and waiter registrations of this manual time domain.
    state: ManualMonotonicState,
}

impl ManualMonotonicClock {
    /// The domain carried by every instant of this clock.
    pub closed spec fn spec_domain(self) -> ClockDomain {
        self.domain
    }

    /// The time domain's logical time and registrations.
    pub closed spec fn time_state(self) -> ManualMonotonicState {
        self.state
    }

    /// The time domain's registrations are well formed.
    pub open spec fn wf(self) -> bool {
        self.time_state().wf()
    }

    /// The current logical time, in nanoseconds from the origin.
    pub open spec fn now_nanos(self) -> u128 {
        self.time_state().now()
    }

    /// Creates a manual clock in `domain` at its zero-duration origin.
    pub fn new(domain: ClockDomain) -> (r: ManualMonotonicClock)
        ensures
            r.wf(),
            r.spec_domain() == domain,
            r.now_nanos() == 0,
            r.time_state().registry().timers().is_empty(),
            r.time_state().registry().counters().is_empty(),
            r.time_state().registry().watchers().is_empty(),
    {
        ManualMonotonicClock { domain, state: ManualMonotonicState::new() }
    }

    /// Advances this clock by `duration` and returns the task wakers that
    /// became due, for the caller to invoke.
    ///
    /// A zero duration succeeds as a no-op with no wakers. Returns
    /// `TimeError::InstantOverflow`, without change, when the resulting
    /// elapsed time cannot be represented.
    pub fn advance(&mut self, duration: Duration) -> (r: Result<AdvanceEffects, TimeError>)
        requires
            old(self).wf(),
        ensures
            final(self).wf(),
            final(self).spec_domain() == old(self).spec_domain(),
            duration_nanos(duration) == 0 ==> (r matches Ok(effects) && effects.due_wakers@.len() == 0 && final(self).time_state() == old(self).time_state()),
            duration_nanos(duration) != 0 && old(self).now_nanos() + duration_nanos(duration) > MAX_DURATION_NANOS ==> (r matches Err(TimeError::InstantOverflow) && final(self).time_state() == old(self).time_state()),
            duration_nanos(duration) != 0 && old(self).now_nanos() + duration_nanos(duration) <= MAX_DURATION_NANOS ==> (r matches Ok(effects) && ManualMonotonicState::moved_to(old(self).time_state(), final(self).time_state(), (old(self).now_nanos() + duration_nanos(duration)) as u128, effects.due_wakers@)),
    {
        match self.state.advance(duration) {
            Ok(Some(effects)) => Ok(effects),
            Ok(None) => Ok(AdvanceEffects { due_wakers: Vec::new() }),
            Err(e) => Err(e),
        }
    }

    /// Advances this clock to an absolute instant in the same domain and
    /// returns the task wakers that became due.
    ///
    /// Returns `TimeError::ClockDomainMismatch` for a foreign instant and
    /// `TimeError::CannotMoveBackward` when `target` precedes the current
    /// instant, both without change. Reaching the current instant is a no-op.
    pub fn advance_to(&mut self, target: MonotonicInstant) -> (r: Result<AdvanceEffects, TimeError>)
        requires
            old(self).wf(),
        ensures
            final(self).wf(),
            final(self).spec_domain() == old(self).spec_domain(),
            target.spec_domain() != old(self).spec_domain() ==> (r matches Err(TimeError::ClockDomainMismatch { expected, actual }) && expected == old(self).spec_domain() && actual == target.spec_domain() && final(self).time_state() == old(self).time_state()),
            target.spec_domain() == old(self).spec_domain() && target.nanos() < old(self).now_nanos() ==> (r matches Err(TimeError::CannotMoveBackward { current_elapsed, requested_elapsed }) && duration_nanos(current_elapsed) == old(self).now_nanos() && duration_nanos(requested_elapsed) == target.nanos() && final(self).time_state() == old(self).time_state()),
            target.spec_domain() == old(self).spec_domain() && target.nanos() == old(self).now_nanos() ==> (r matches Ok(effects) && effects.due_wakers@.len() == 0 && final(self).time_state() == old(self).time_state()),
            target.spec_domain() == old(self).spec_domain() && target.nanos() > old(self).now_nanos() ==> (r matches Ok(effects) && ManualMonotonicState::moved_to(old(self).time_state(), final(self).time_state(), target.nanos(), effects.due_wakers@)),
    {
        match target.ensure_domain(self.domain) {
            Err(e) => Err(e),
            Ok(()) => {
                let target_elapsed = target.elapsed_nanos();
                match self.state.advance_to(target_elapsed) {
                    Ok(Some(effects)) => Ok(effects),
                    Ok(None) => Ok(AdvanceEffects { due_wakers: Vec::new() }),
                    Err(e) => Err(e),
                }
            },
        }
    }

    /// Returns the number of registered timer deadline waiters, including
    /// reached waiters whose futures were not yet polled again or dropped.
    pub fn pending_waiters(&self) -> (r: usize)
        ensures
            r == self.time_state().spec_waiter_count(),
    {
        self.state.waiter_count()
    }

    /// Returns the earliest registered deadline that has not yet been reached.
    pub fn next_deadline(&self) -> (r: Option<MonotonicInstant>)
        requires
            self.wf(),
        ensures
            self.time_state().spec_next_deadline() is None ==> r is None,
            self.time_state().spec_next_deadline() matches Some(d) ==> (r matches Some(i) && i.spec_domain() == self.spec_domain() && i.nanos() == d),
    {
        match self.state.next_future_deadline() {
            None => None,
            Some(d) => {
                proof {
                    self.lemma_next_deadline_bounded(d);
                }
                Some(MonotonicInstant::from_nanos(self.domain, d))
            },
        }
    }

    /// A registered deadline fits in a `Duration`.
    proof fn lemma_next_deadline_bounded(self, d: u128)
        requires
            self.wf(),
            self.time_state().spec_next_deadline() == Some(d),
        ensures
            d <= MAX_DURATION_NANOS,
    {
        self.time_state().lemma_next_deadline_registered(d);
    }

    /// Advances to the earliest registered future deadline.
    ///
    /// Returns the reached instant and the wakers that became due, or `None`
    /// without change when no future deadline is registered. Registrations
    /// that are already due are ignored.
    pub fn advance_to_next_deadline(&mut self) -> (r: Option<(MonotonicInstant, AdvanceEffects)>)
        requires
            old(self).wf(),
        ensures
            final(self).wf(),
            final(self).spec_domain() == old(self).spec_domain(),
            old(self).time_state().spec_next_deadline() is None ==> r is None && final(self).time_state() == old(self).time_state(),
            old(self).time_state().spec_next_deadline() matches Some(d) ==> (r matches Some((reached, effects)) && reached.spec_domain() == old(self).spec_domain() && reached.nanos() == d && ManualMonotonicState::moved_to(old(self).time_state(), final(self).time_state(), d, effects.due_wakers@)),
    {
        match self.state.advance_to_next_deadline() {
            None => None,
            Some((target, effects)) => {
                let elapsed = self.state.elapsed();
                Some((MonotonicInstant::from_nanos(self.domain, elapsed), effects))
            },
        }
    }

    /// Advances to the earliest future deadline when at least
    /// `expected_count` timer waiters are registered.
    ///
    /// The count check, deadline selection and time update form one atomic
    /// step. Registrations that are already due may contribute to the count,
    /// but the clock advances only when a future deadline exists. Returns
    /// `None`, without change, while either condition is unmet.
    pub fn advance_to_next_deadline_if_waiters(&mut self, expected_count: usize) -> (r: Option<(MonotonicInstant, AdvanceEffects)>)
        requires
            old(self).wf(),
        ensures
            final(self).wf(),
            final(self).spec_domain() == old(self).spec_domain(),
            (old(self).time_state().spec_waiter_count() < expected_count || old(self).time_state().spec_next_deadline() is None) ==> r is None && final(self).time_state() == old(self).time_state(),
            old(self).time_state().spec_waiter_count() >= expected_count ==> (old(self).time_state().spec_next_deadline() matches Some(d) ==> (r matches Some((reached, effects)) && reached.spec_domain() == old(self).spec_domain() && reached.nanos() == d && ManualMonotonicState::moved_to(old(self).time_state(), final(self).time_state(), d, effects.due_wakers@))),
    {
        match self.state.advance_if_waiters_ready(expected_count) {
            None => None,
            Some((target, effects)) => {
                let elapsed = self.state.elapsed();
                Some((MonotonicInstant::from_nanos(self.domain, elapsed), effects))
            },
        }
    }

    /// One step of a wait, bounded by real time, for a future deadline to be
    /// registered.
    ///
    /// Ends with the earliest future deadline once one exists; otherwise
    /// decides, from the real time `remaining` and whether the last sleep
    /// `timed_out`, whether to sleep again or give up.
    pub fn next_deadline_wait_step(&self, remaining: Option<Duration>, timed_out: bool) -> (r: RealTimeWait<MonotonicInstant>)
        requires
            self.wf(),
        ensures
            self.time_state().spec_next_deadline() matches Some(d) ==> (r matches RealTimeWait::Ready(i) && i.spec_domain() == self.spec_domain() && i.nanos() == d),
            self.time_state().spec_next_deadline() is None ==> r == pending_outcome::<MonotonicInstant>(remaining, timed_out),
    {
        match self.next_deadline() {
            Some(deadline) => RealTimeWait::Ready(deadline),
            None => pending_step(remaining, timed_out),
        }
    }

    /// One step of a wait, bounded by real time, for `expected_count` timer
    /// waiters followed by an advance to the earliest future deadline.
    ///
    /// Advances, as [`advance_to_next_deadline_if_waiters`](Self::advance_to_next_deadline_if_waiters)
    /// does, as soon as both conditions hold; otherwise leaves the clock
    /// unchanged and decides whether to sleep again or give up.
    pub fn advance_after_waiters_step(&mut self, expected_count: usize, remaining: Option<Duration>, timed_out: bool) -> (r: RealTimeWait<(MonotonicInstant, AdvanceEffects)>)
        requires
            old(self).wf(),
        ensures
            final(self).wf(),
            final(self).spec_domain() == old(self).spec_domain(),
            (old(self).time_state().spec_waiter_count() < expected_count || old(self).time_state().spec_next_deadline() is None) ==> r == pending_outcome::<(MonotonicInstant, AdvanceEffects)>(remaining, timed_out) && final(self).time_state() == old(self).time_state(),
            old(self).time_state().spec_waiter_count() >= expected_count ==> (old(self).time_state().spec_next_deadline() matches Some(d) ==> (r matches RealTimeWait::Ready((reached, effects)) && reached.spec_domain() == old(self).spec_domain() && reached.nanos() == d && ManualMonotonicState::moved_to(old(self).time_state(), final(self).time_state(), d, effects.due_wakers@))),
    {
        match self.advance_to_next_deadline_if_waiters(expected_count) {
            Some(advanced) => RealTimeWait::Ready(advanced),
            None => pending_step(remaining, timed_out),
        }
    }

    /// Starts a wait, bounded by real time, for at least `expected_count`
    /// timer waiters.
    ///
    /// Ends at once when the count is already reached, or when the wait's
    /// real-time deadline could not be represented (`deadline_known` is
    /// false); otherwise registers a waiter-count observer to watch.
    pub fn begin_wait_for_waiters(&mut self, expected_count: usize, deadline_known: bool) -> (r: WaitersWait)
        requires
            old(self).wf(),
            deadline_known && old(self).time_state().spec_waiter_count() < expected_count ==> old(self).time_state().registry().next_observer() != 0,
        ensures
            final(self).wf(),
            final(self).spec_domain() == old(self).spec_domain(),
            old(self).time_state().spec_waiter_count() >= expected_count ==> r == WaitersWait::Reached && final(self).time_state() == old(self).time_state(),
            old(self).time_state().spec_waiter_count() < expected_count && !deadline_known ==> r == WaitersWait::TimedOut && final(self).time_state() == old(self).time_state(),
            old(self).time_state().spec_waiter_count() < expected_count && deadline_known ==> {
                &&& r == WaitersWait::Watching(old(self).time_state().registry().next_observer())
                &&& final(self).time_state().now() == old(self).time_state().now()
                &&& final(self).time_state().registry().timers_unchanged(old(self).time_state().registry())
                &&& final(self).time_state().registry().counters() == old(self).time_state().registry().counters().insert(old(self).time_state().registry().next_observer(), CountObserver { expected_count, waker: None })
                &&& final(self).time_state().registry().watchers() == old(self).time_state().registry().watchers()
                &&& Some(final(self).time_state().registry().next_observer()) == spec_next_identifier_state(old(self).time_state().registry().next_observer())
            },
    {
        if self.waiters_reached(expected_count) {
            return WaitersWait::Reached;
        }
        if !deadline_known {
            return WaitersWait::TimedOut;
        }
        match self.register_waiter_observer(expected_count) {
            Some(observer_id) => WaitersWait::Watching(observer_id),
            None => WaitersWait::Reached,
        }
    }

    /// Continues a wait started by [`begin_wait_for_waiters`](Self::begin_wait_for_waiters)
    /// after a sleep.
    ///
    /// Returns `Some(true)` once the observer completed, `Some(false)` after
    /// removing it when the sleep `timed_out` first, and `None` to sleep
    /// again.
    pub fn resume_wait_for_waiters(&mut self, observer_id: u64, timed_out: bool) -> (r: Option<bool>)
        requires
            old(self).wf(),
        ensures
            final(self).wf(),
            final(self).spec_domain() == old(self).spec_domain(),
            final(self).time_state().now() == old(self).time_state().now(),
            final(self).time_state().registry().timers_unchanged(old(self).time_state().registry()),
            !old(self).time_state().registry().counters().contains_key(observer_id) ==> r == Some(true) && final(self).time_state() == old(self).time_state(),
            old(self).time_state().registry().counters().contains_key(observer_id) && timed_out ==> {
                &&& r == Some(false)
                &&& final(self).time_state().registry().counters() == old(self).time_state().registry().counters().remove(observer_id)
                &&& final(self).time_state().registry().watchers() == old(self).time_state().registry().watchers()
                &&& final(self).time_state().registry().next_observer() == old(self).time_state().registry().next_observer()
            },
            old(self).time_state().registry().counters().contains_key(observer_id) && !timed_out ==> r is None && final(self).time_state() == old(self).time_state(),
    {
        if !self.contains_observer(observer_id) {
            return Some(true);
        }
        if timed_out {
            let _removed = self.unregister_waiter_observer(observer_id);
            return Some(false);
        }
        None
    }

    /// Whether at least `expected_count` timer waiters are registered.
    pub fn waiters_reached(&self, expected_count: usize) -> (r: bool)
        ensures
            r == (self.time_state().spec_waiter_count() >= expected_count),
    {
        self.state.waiters_reached(expected_count)
    }

    /// Registers a timer waiter for `deadline`.
    ///
    /// Returns `Ok(None)`, without change, when the deadline has already been
    /// reached, and otherwise the new waiter identifier together with the
    /// wakers of observers that the registration satisfied, for the caller to
    /// invoke after this step. A foreign deadline returns a domain error.
    pub fn register_timer_waiter(&mut self, deadline: MonotonicInstant) -> (r: Result<Option<(u64, Vec<Waker>)>, TimeError>)
        requires
            old(self).wf(),
            deadline.spec_domain() == old(self).spec_domain() && deadline.nanos() > old(self).now_nanos() ==> old(self).time_state().registry().next_timer_id() != 0,
        ensures
            final(self).spec_domain() == old(self).spec_domain(),
            final(self).wf(),
            deadline.spec_domain() != old(self).spec_domain() ==> (r matches Err(TimeError::ClockDomainMismatch { expected, actual }) && expected == old(self).spec_domain() && actual == deadline.spec_domain() && final(self).time_state() == old(self).time_state()),
            deadline.spec_domain() == old(self).spec_domain() && deadline.nanos() <= old(self).now_nanos() ==> (r matches Ok(None) && final(self).time_state() == old(self).time_state()),
            deadline.spec_domain() == old(self).spec_domain() && deadline.nanos() > old(self).now_nanos() ==> (r matches Ok(Some((id, wakers))) && final(self).now_nanos() == old(self).now_nanos() && ManualMonotonicState::timer_registered(old(self).time_state().registry(), final(self).time_state().registry(), deadline.nanos(), id, wakers@)),
    {
        match deadline.ensure_domain(self.domain) {
            Err(e) => Err(e),
            Ok(()) => Ok(self.state.register_timer_waiter(deadline.elapsed_nanos())),
        }
    }

    /// Registers an observer of the total timer waiter count.
    ///
    /// Returns `None`, without change, when the count is already satisfied.
    pub fn register_waiter_observer(&mut self, expected_count: usize) -> (r: Option<u64>)
        requires
            old(self).wf(),
            old(self).time_state().spec_waiter_count() < expected_count ==> old(self).time_state().registry().next_observer() != 0,
        ensures
            final(self).spec_domain() == old(self).spec_domain(),
            final(self).time_state().wf(),
            final(self).time_state().now() == old(self).time_state().now(),
            final(self).time_state().registry().timers_unchanged(old(self).time_state().registry()),
            final(self).time_state().registry().watchers() == old(self).time_state().registry().watchers(),
            old(self).time_state().spec_waiter_count() >= expected_count ==> r is None && final(self).time_state() == old(self).time_state(),
            old(self).time_state().spec_waiter_count() < expected_count ==> {
                &&& r == Some(old(self).time_state().registry().next_observer())
                &&& !old(self).time_state().registry().counters().contains_key(old(self).time_state().registry().next_observer())
                &&& final(self).time_state().registry().counters() == old(self).time_state().registry().counters().insert(old(self).time_state().registry().next_observer(), CountObserver { expected_count, waker: None })
                &&& Some(final(self).time_state().registry().next_observer()) == spec_next_identifier_state(old(self).time_state().registry().next_observer())
            },
    {
        self.state.register_waiter_observer(expected_count)
    }

    /// Registers an observer of the next future deadline.
    pub fn register_deadline_observer(&mut self) -> (r: u64)
        requires
            old(self).wf(),
            old(self).time_state().registry().next_observer() != 0,
        ensures
            final(self).spec_domain() == old(self).spec_domain(),
            final(self).time_state().wf(),
            final(self).time_state().now() == old(self).time_state().now(),
            final(self).time_state().registry().timers_unchanged(old(self).time_state().registry()),
            final(self).time_state().registry().counters() == old(self).time_state().registry().counters(),
            r == old(self).time_state().registry().next_observer(),
            !old(self).time_state().registry().watchers().contains_key(r),
            final(self).time_state().registry().watchers() == old(self).time_state().registry().watchers().insert(r, None),
            Some(final(self).time_state().registry().next_observer()) == spec_next_identifier_state(old(self).time_state().registry().next_observer()),
    {
        self.state.register_deadline_observer()
    }

    /// Polls an observer of the next future deadline, storing `waker` while
    /// it is pending.
    ///
    /// Returns the observed deadline, removing the observer, once a future
    /// deadline exists, and any detached waker for destruction after the step.
    pub fn poll_deadline_observer(&mut self, observer_id: u64, waker: &Waker) -> (r: (Option<MonotonicInstant>, Option<Waker>))
        requires
            old(self).wf(),
            old(self).time_state().registry().watchers().contains_key(observer_id),
        ensures
            final(self).spec_domain() == old(self).spec_domain(),
            final(self).time_state().wf(),
            final(self).time_state().now() == old(self).time_state().now(),
            final(self).time_state().registry().timers_unchanged(old(self).time_state().registry()),
            final(self).time_state().registry().counters() == old(self).time_state().registry().counters(),
            final(self).time_state().registry().next_observer() == old(self).time_state().registry().next_observer(),
            old(self).time_state().spec_next_deadline() is None ==> r.0 is None,
            old(self).time_state().spec_next_deadline() matches Some(d) ==> (r.0 matches Some(i) && i.spec_domain() == old(self).spec_domain() && i.nanos() == d),
            r.0 is Some ==> final(self).time_state().registry().watchers() == old(self).time_state().registry().watchers().remove(observer_id) && r.1 == old(self).time_state().registry().watchers()[observer_id],
            r.0 is None ==> {
                &&& final(self).time_state().registry().watchers().dom() == old(self).time_state().registry().watchers().dom()
                &&& forall|j: u64| j != observer_id && #[trigger] old(self).time_state().registry().watchers().contains_key(j) ==> final(self).time_state().registry().watchers()[j] == old(self).time_state().registry().watchers()[j]
                &&& waker_refreshed(old(self).time_state().registry().watchers()[observer_id], final(self).time_state().registry().watchers()[observer_id], r.1)
            },
    {
        let (deadline, detached) = self.state.poll_deadline_observer(observer_id, waker);
        match deadline {
            None => (None, detached),
            Some(d) => {
                proof {
                    old(self).time_state().lemma_next_deadline_registered(d);
                }
                (Some(MonotonicInstant::from_nanos(self.domain, d)), detached)
            },
        }
    }

    /// Polls an observer of the total waiter count, storing `waker` while it
    /// is pending.
    ///
    /// Returns whether the count was reached and any replaced waker for
    /// destruction after the step.
    pub fn poll_waiter_observer(&mut self, observer_id: u64, waker: &Waker) -> (r: (bool, Option<Waker>))
        requires
            old(self).wf(),
        ensures
            final(self).spec_domain() == old(self).spec_domain(),
            final(self).time_state().wf(),
            final(self).time_state().now() == old(self).time_state().now(),
            final(self).time_state().registry().timers_unchanged(old(self).time_state().registry()),
            final(self).time_state().registry().watchers() == old(self).time_state().registry().watchers(),
            final(self).time_state().registry().next_observer() == old(self).time_state().registry().next_observer(),
            !old(self).time_state().registry().counters().contains_key(observer_id) ==> r.0 && r.1 is None && final(self).time_state().registry().counters() == old(self).time_state().registry().counters(),
            old(self).time_state().registry().counters().contains_key(observer_id) ==> {
                &&& !r.0
                &&& final(self).time_state().registry().counters().dom() == old(self).time_state().registry().counters().dom()
                &&& forall|j: u64| j != observer_id && #[trigger] old(self).time_state().registry().counters().contains_key(j) ==> final(self).time_state().registry().counters()[j] == old(self).time_state().registry().counters()[j]
                &&& final(self).time_state().registry().counters()[observer_id].expected_count == old(self).time_state().registry().counters()[observer_id].expected_count
                &&& waker_refreshed(old(self).time_state().registry().counters()[observer_id].waker, final(self).time_state().registry().counters()[observer_id].waker, r.1)
            },
    {
        self.state.poll_waiter_observer(observer_id, waker)
    }

    /// Removes an incomplete observer and returns its detached waker.
    pub fn unregister_waiter_observer(&mut self, observer_id: u64) -> (r: Option<Waker>)
        requires
            old(self).wf(),
        ensures
            final(self).spec_domain() == old(self).spec_domain(),
            final(self).time_state().wf(),
            final(self).time_state().now() == old(self).time_state().now(),
            final(self).time_state().registry().timers_unchanged(old(self).time_state().registry()),
            final(self).time_state().registry().next_observer() == old(self).time_state().registry().next_observer(),
            final(self).time_state().registry().counters() == old(self).time_state().registry().counters().remove(observer_id),
            final(self).time_state().registry().watchers() == old(self).time_state().registry().watchers().remove(observer_id),
            r == (if old(self).time_state().registry().counters().contains_key(observer_id) {
                old(self).time_state().registry().counters()[observer_id].waker
            } else if old(self).time_state().registry().watchers().contains_key(observer_id) {
                old(self).time_state().registry().watchers()[observer_id]
            } else {
                None
            }),
    {
        self.state.unregister_waiter_observer(observer_id)
    }

    /// Polls a registered timer waiter against the current logical time,
    /// storing `waker` while it is pending and removing the waiter once its
    /// deadline was reached.
    pub fn poll_timer_waiter(&mut self, waiter_id: u64, waker: &Waker) -> (r: (bool, Option<Waker>))
        requires
            old(self).wf(),
            old(self).time_state().registry().timers().contains_key(waiter_id),
        ensures
            final(self).spec_domain() == old(self).spec_domain(),
            final(self).time_state().wf(),
            final(self).time_state().now() == old(self).time_state().now(),
            final(self).time_state().registry().next_timer_id() == old(self).time_state().registry().next_timer_id(),
            final(self).time_state().registry().observers_unchanged(old(self).time_state().registry()),
            r.0 == (old(self).time_state().now() >= old(self).time_state().registry().timers()[waiter_id].deadline),
            r.0 ==> final(self).time_state().registry().timers() == old(self).time_state().registry().timers().remove(waiter_id) && r.1 == old(self).time_state().registry().timers()[waiter_id].waker,
            !r.0 ==> {
                &&& final(self).time_state().registry().timers().dom() == old(self).time_state().registry().timers().dom()
                &&& forall|j: u64| j != waiter_id && #[trigger] old(self).time_state().registry().timers().contains_key(j) ==> final(self).time_state().registry().timers()[j] == old(self).time_state().registry().timers()[j]
                &&& final(self).time_state().registry().timers()[waiter_id].deadline == old(self).time_state().registry().timers()[waiter_id].deadline
                &&& waker_refreshed(old(self).time_state().registry().timers()[waiter_id].waker, final(self).time_state().registry().timers()[waiter_id].waker, r.1)
            },
    {
        self.state.poll_timer_waiter(waiter_id, waker)
    }

    /// Removes a timer waiter after completion or future cancellation and
    /// returns its optional waker, or `None` when it was absent.
    pub fn unregister_timer_waiter(&mut self, waiter_id: u64) -> (r: Option<Option<Waker>>)
        requires
            old(self).wf(),
        ensures
            final(self).spec_domain() == old(self).spec_domain(),
            final(self).time_state().wf(),
            final(self).time_state().now() == old(self).time_state().now(),
            final(self).time_state().registry().timers() == old(self).time_state().registry().timers().remove(waiter_id),
            final(self).time_state().registry().next_timer_id() == old(self).time_state().registry().next_timer_id(),
            final(self).time_state().registry().observers_unchanged(old(self).time_state().registry()),
            r == (if old(self).time_state().registry().timers().contains_key(waiter_id) { Some(old(self).time_state().registry().timers()[waiter_id].waker) } else { None }),
    {
        self.state.unregister_timer_waiter(waiter_id)
    }

    /// Returns whether a waiter-count observer is still waiting.
    pub fn contains_observer(&self, observer_id: u64) -> (r: bool)
        ensures
            r == self.time_state().registry().counters().contains_key(observer_id),
    {
        self.state.contains_observer(observer_id)
    }

    /// Returns whether a future-deadline observer is registered.
    pub fn contains_deadline_observer(&self, observer_id: u64) -> (r: bool)
        ensures
            r == self.time_state().registry().watchers().contains_key(observer_id),
    {
        self.state.contains_deadline_observer(observer_id)
    }

    /// Returns whether a timer waiter is registered.
    pub fn contains_timer_waiter(&self, waiter_id: u64) -> (r: bool)
        ensures
            r == self.time_state().registry().timers().contains_key(waiter_id),
    {
        self.state.contains_timer_waiter(waiter_id)
    }

    /// Whether another timer waiter can still be registered.
    pub fn timer_ids_available(&self) -> (r: bool)
        ensures
            r == (self.time_state().registry().next_timer_id() != 0),
    {
        self.state.timer_ids_available()
    }

    /// Whether another observer can still be registered.
    pub fn observer_ids_available(&self) -> (r: bool)
        ensures
            r == (self.time_state().registry().next_observer() != 0),
    {
        self.state.observer_ids_available()
    }
}

impl MonotonicClock for ManualMonotonicClock {
    open spec fn clock_domain(&self) -> ClockDomain {
        self.spec_domain()
    }

    /// Returns this clock's domain without sampling the time.
    fn domain(&self) -> (r: ClockDomain) {
        self.domain
    }

    /// Returns the current logical instant in this clock's domain.
    fn now(&self) -> (r: MonotonicInstant)
        ensures
            r.nanos() == self.now_nanos(),
    {
        MonotonicInstant::from_nanos(self.domain, self.state.elapsed())
    }
}

} // verus!
