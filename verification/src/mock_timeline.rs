//! A logical timeline shared by mock time components, and its instants.
//!
//! The timeline holds elapsed time that only moves when a test advances it,
//! together with event counters and the number of blocked waiters of each
//! kind. Sharing it between threads, and blocking on it, is left to the
//! caller: every method here is a single step on the state.
use crate::arith::{clamp, saturating_add_u128, spec_wrapping_increment, wrapping_increment_u64};
use crate::duration::{duration_from_nanos_saturating, duration_nanos, nanos_of, MAX_DURATION_NANOS};
use crate::error::MockTimeError;
use crate::real_time_wait::{pending_outcome, pending_step, RealTimeWait};
use crate::wall_time::{time_delta_is_negative, time_delta_num_nanoseconds, to_std};
use chrono::TimeDelta;
use std::cmp::Ordering;
use std::time::Duration;
use vstd::prelude::*;
use vstd::std_specs::cmp::PartialOrdSpecImpl;

verus! {

/// A point on one mock timeline.
///
/// Instants from different timelines are unordered.
#[derive(Debug, Clone, Copy, PartialEq, Eq, Hash, Structural)]
pub struct MockInstant {
    timeline_id: u64,
    nanos_since_origin: u128,
}

impl MockInstant {
    /// The identifier of the timeline this instant belongs to.
    pub closed spec fn spec_timeline(self) -> u64 {
        self.timeline_id
    }

    /// The nanoseconds between the timeline's origin and this instant.
    pub closed spec fn spec_nanos(self) -> u128 {
        self.nanos_since_origin
    }

    /// Creates the instant `nanos_since_origin` nanoseconds after the origin
    /// of timeline `timeline_id`.
    pub fn from_nanos_since_origin(timeline_id: u64, nanos_since_origin: u128) -> (r: MockInstant)
        ensures
            r.spec_timeline() == timeline_id,
            r.spec_nanos() == nanos_since_origin,
    {
        MockInstant { timeline_id, nanos_since_origin }
    }

    /// Returns the identifier of the timeline that created this instant.
    pub fn timeline_id(&self) -> (r: u64)
        ensures
            r == self.spec_timeline(),
    {
        self.timeline_id
    }

    /// Returns the nanoseconds elapsed from the timeline origin.
    pub fn nanos_since_origin(&self) -> (r: u128)
        ensures
            r == self.spec_nanos(),
    {
        self.nanos_since_origin
    }

    /// Returns the instant `duration` later on the same timeline, saturating
    /// at the largest representable instant.
    pub fn saturating_add(self, duration: Duration) -> (r: MockInstant)
        ensures
            r.spec_timeline() == self.spec_timeline(),
            r.spec_nanos() == clamp(self.spec_nanos() + duration_nanos(duration), 0, u128::MAX as int),
    {
        MockInstant {
            timeline_id: self.timeline_id,
            nanos_since_origin: saturating_add_u128(self.nanos_since_origin, nanos_of(duration)),
        }
    }

    /// Orders two instants of the same timeline by their position on it.
    pub open spec fn position_order(&self, other: &MockInstant) -> Option<Ordering> {
        if self.spec_timeline() == other.spec_timeline() {
            if self.spec_nanos() < other.spec_nanos() {
                Some(Ordering::Less)
            } else if self.spec_nanos() == other.spec_nanos() {
                Some(Ordering::Equal)
            } else {
                Some(Ordering::Greater)
            }
        } else {
            None
        }
    }
}

impl PartialOrd for MockInstant {
    fn partial_cmp(&self, other: &MockInstant) -> (r: Option<Ordering>) {
        if self.timeline_id == other.timeline_id {
            if self.nanos_since_origin < other.nanos_since_origin {
                Some(Ordering::Less)
            } else if self.nanos_since_origin == other.nanos_since_origin {
                Some(Ordering::Equal)
            } else {
                Some(Ordering::Greater)
            }
        } else {
            None
        }
    }
}

impl PartialOrdSpecImpl for MockInstant {
    open spec fn obeys_partial_cmp_spec() -> bool {
        true
    }

    open spec fn partial_cmp_spec(&self, other: &MockInstant) -> Option<Ordering> {
        self.position_order(other)
    }
}

/// The kind of a waiter blocked on a mock timeline.
#[derive(Debug, Clone, Copy, PartialEq, Eq, Hash, Structural)]
pub enum MockWaiterKind {
    /// A relative sleep.
    Sleep,
    /// A wait for an absolute deadline.
    Deadline,
}

/// The state of a mock timeline.
pub struct MockTimelineView {
    /// The timeline's identifier.
    pub id: u64,
    /// Nanoseconds elapsed since the origin.
    pub elapsed_nanos: u128,
    /// Counts changes of the elapsed time, wrapping.
    pub time_epoch: u64,
    /// Counts events that may wake waiters, wrapping.
    pub event_epoch: u64,
    /// Blocked relative sleepers.
    pub sleep_waiters: usize,
    /// Blocked deadline waiters.
    pub deadline_waiters: usize,
}

/// The number of blocked waiters of `kind` in `v`.
pub open spec fn waiters_of(v: MockTimelineView, kind: MockWaiterKind) -> usize {
    match kind {
        MockWaiterKind::Sleep => v.sleep_waiters,
        MockWaiterKind::Deadline => v.deadline_waiters,
    }
}

/// `v` with one more blocked waiter of `kind`, saturating at `usize::MAX`.
pub open spec fn with_waiter_added(v: MockTimelineView, kind: MockWaiterKind) -> MockTimelineView {
    match kind {
        MockWaiterKind::Sleep => MockTimelineView { sleep_waiters: clamp(v.sleep_waiters + 1, 0, usize::MAX as int) as usize, ..v },
        MockWaiterKind::Deadline => MockTimelineView { deadline_waiters: clamp(v.deadline_waiters + 1, 0, usize::MAX as int) as usize, ..v },
    }
}

/// `v` with one fewer blocked waiter of `kind`, saturating at zero.
pub open spec fn with_waiter_removed(v: MockTimelineView, kind: MockWaiterKind) -> MockTimelineView {
    match kind {
        MockWaiterKind::Sleep => MockTimelineView { sleep_waiters: clamp(v.sleep_waiters - 1, 0, usize::MAX as int) as usize, ..v },
        MockWaiterKind::Deadline => MockTimelineView { deadline_waiters: clamp(v.deadline_waiters - 1, 0, usize::MAX as int) as usize, ..v },
    }
}

/// `v` after its elapsed time moved by `nanos`, saturating, with both epochs
/// counted up.
pub open spec fn advanced_by(v: MockTimelineView, nanos: u128) -> MockTimelineView {
    MockTimelineView {
        elapsed_nanos: clamp(v.elapsed_nanos + nanos, 0, u128::MAX as int) as u128,
        time_epoch: spec_wrapping_increment(v.time_epoch),
        event_epoch: spec_wrapping_increment(v.event_epoch),
        ..v
    }
}

/// Returns the identifier following `next`, and advances `next`.
///
/// Identifiers start at one and are never reused; the caller must not ask
/// once the counter reached `u64::MAX`.
pub fn next_mock_timeline_id(next: &mut u64) -> (r: u64)
    requires
        *old(next) != u64::MAX,
    ensures
        r == *old(next),
        *final(next) == *old(next) + 1,
{
    let current = *next;
    *next = current + 1;
    current
}

/// A shared monotonic elapsed-time source for deterministic tests.
///
/// Time starts at zero and moves only through [`advance`](Self::advance).
pub struct MockTimeline {
    id: u64,
    elapsed_nanos: u128,
    time_epoch: u64,
    event_epoch: u64,
    sleep_waiters: usize,
    deadline_waiters: usize,
}

impl View for MockTimeline {
    type V = MockTimelineView;

    closed spec fn view(&self) -> MockTimelineView {
        MockTimelineView {
            id: self.id,
            elapsed_nanos: self.elapsed_nanos,
            time_epoch: self.time_epoch,
            event_epoch: self.event_epoch,
            sleep_waiters: self.sleep_waiters,
            deadline_waiters: self.deadline_waiters,
        }
    }
}

impl MockTimeline {
    /// Creates a timeline at elapsed zero with a fresh identifier taken from
    /// `next_id`.
    pub fn new(next_id: &mut u64) -> (r: MockTimeline)
        requires
            *old(next_id) != u64::MAX,
        ensures
            r@ == (MockTimelineView {
                id: *old(next_id),
                elapsed_nanos: 0,
                time_epoch: 0,
                event_epoch: 0,
                sleep_waiters: 0,
                deadline_waiters: 0,
            }),
            *final(next_id) == *old(next_id) + 1,
    {
        let id = next_mock_timeline_id(next_id);
        MockTimeline { id, elapsed_nanos: 0, time_epoch: 0, event_epoch: 0, sleep_waiters: 0, deadline_waiters: 0 }
    }

    /// Returns this timeline's identifier.
    pub fn id(&self) -> (r: u64)
        ensures
            r == self@.id,
    {
        self.id
    }

    /// Returns the elapsed time since the origin, saturating at
    /// `Duration::MAX`.
    pub fn elapsed(&self) -> (r: Duration)
        ensures
            duration_nanos(r) == if self@.elapsed_nanos <= MAX_DURATION_NANOS { self@.elapsed_nanos } else { MAX_DURATION_NANOS },
    {
        duration_from_nanos_saturating(self.elapsed_nanos)
    }

    /// Returns the elapsed nanoseconds since the origin.
    pub fn elapsed_nanos(&self) -> (r: u128)
        ensures
            r == self@.elapsed_nanos,
    {
        self.elapsed_nanos
    }

    /// Returns the current instant on this timeline.
    pub fn now(&self) -> (r: MockInstant)
        ensures
            r.spec_timeline() == self@.id,
            r.spec_nanos() == self@.elapsed_nanos,
    {
        MockInstant::from_nanos_since_origin(self.id, self.elapsed_nanos)
    }

    /// Returns the counter of events that may wake waiters.
    pub fn event_epoch(&self) -> (r: u64)
        ensures
            r == self@.event_epoch,
    {
        self.event_epoch
    }

    /// Advances the timeline by `duration` and returns the new event epoch.
    ///
    /// Elapsed time saturates instead of overflowing; both epochs are counted
    /// up even for a zero duration, so every advance is an event.
    pub fn advance(&mut self, duration: Duration) -> (r: u64)
        ensures
            final(self)@ == advanced_by(old(self)@, duration_nanos(duration)),
            r == final(self)@.event_epoch,
            final(self)@.elapsed_nanos >= old(self)@.elapsed_nanos,
    {
        self.elapsed_nanos = saturating_add_u128(self.elapsed_nanos, nanos_of(duration));
        self.time_epoch = wrapping_increment_u64(self.time_epoch);
        self.event_epoch = wrapping_increment_u64(self.event_epoch);
        self.event_epoch
    }

    /// Advances the timeline by a chrono duration, which must not be
    /// negative.
    ///
    /// Returns `false`, changing nothing, for a negative duration; otherwise
    /// advances as [`advance`](Self::advance) does and returns `true`.
    pub fn try_advance_by_delta(&mut self, duration: &TimeDelta) -> (r: bool)
        ensures
            r == !time_delta_is_negative(*duration),
            !r ==> final(self)@ == old(self)@,
            r ==> exists|d: Duration| {
                &&& final(self)@ == advanced_by(old(self)@, #[trigger] duration_nanos(d))
                &&& (time_delta_num_nanoseconds(*duration) matches Some(n) ==> duration_nanos(d) == n)
            },
    {
        match to_std(duration) {
            None => false,
            Some(d) => {
                self.advance(d);
                true
            },
        }
    }

    /// Resets elapsed time to zero and returns the new event epoch.
    ///
    /// Fails with [`MockTimeError::ActiveWaiters`], changing nothing, while
    /// any waiter is blocked on the timeline.
    pub fn reset(&mut self) -> (r: Result<u64, MockTimeError>)
        ensures
            (old(self)@.sleep_waiters != 0 || old(self)@.deadline_waiters != 0) <==> r == Err::<u64, MockTimeError>(MockTimeError::ActiveWaiters),
            (old(self)@.sleep_waiters == 0 && old(self)@.deadline_waiters == 0) <==> r is Ok,
            r is Err ==> final(self)@ == old(self)@,
            r is Ok ==> final(self)@ == (MockTimelineView {
                elapsed_nanos: 0,
                time_epoch: spec_wrapping_increment(old(self)@.time_epoch),
                event_epoch: spec_wrapping_increment(old(self)@.event_epoch),
                ..old(self)@
            }),
            r matches Ok(epoch) ==> epoch == final(self)@.event_epoch,
    {
        if self.sleep_waiters != 0 || self.deadline_waiters != 0 {
            return Err(MockTimeError::ActiveWaiters);
        }
        self.elapsed_nanos = 0;
        self.time_epoch = wrapping_increment_u64(self.time_epoch);
        self.event_epoch = wrapping_increment_u64(self.event_epoch);
        Ok(self.event_epoch)
    }

    /// Records an external change that blocked waiters should re-check, and
    /// returns the new event epoch. Elapsed time is unchanged.
    pub fn notify_external_change(&mut self) -> (r: u64)
        ensures
            final(self)@ == (MockTimelineView { event_epoch: spec_wrapping_increment(old(self)@.event_epoch), ..old(self)@ }),
            r == final(self)@.event_epoch,
    {
        self.event_epoch = wrapping_increment_u64(self.event_epoch);
        self.event_epoch
    }

    /// Returns whether an event happened since `observed_epoch` was read.
    pub fn event_after(&self, observed_epoch: u64) -> (r: bool)
        ensures
            r == (self@.event_epoch != observed_epoch),
    {
        self.event_epoch != observed_epoch
    }

    /// Checks that `instant` belongs to this timeline.
    pub fn ensure_own_instant(&self, instant: MockInstant) -> (r: Result<(), MockTimeError>)
        ensures
            instant.spec_timeline() == self@.id ==> r is Ok,
            instant.spec_timeline() != self@.id ==> r == Err::<(), MockTimeError>(MockTimeError::MismatchedTimeline {
                expected: self@.id,
                actual: instant.spec_timeline(),
            }),
    {
        if instant.timeline_id() == self.id {
            Ok(())
        } else {
            Err(MockTimeError::MismatchedTimeline { expected: self.id, actual: instant.timeline_id() })
        }
    }

    /// Records one more blocked waiter of `kind`.
    pub fn increment_waiter(&mut self, kind: MockWaiterKind)
        ensures
            final(self)@ == with_waiter_added(old(self)@, kind),
    {
        match kind {
            MockWaiterKind::Sleep => {
                if self.sleep_waiters < usize::MAX {
                    self.sleep_waiters = self.sleep_waiters + 1;
                }
            },
            MockWaiterKind::Deadline => {
                if self.deadline_waiters < usize::MAX {
                    self.deadline_waiters = self.deadline_waiters + 1;
                }
            },
        }
    }

    /// Records that a blocked waiter of `kind` left.
    pub fn decrement_waiter(&mut self, kind: MockWaiterKind)
        ensures
            final(self)@ == with_waiter_removed(old(self)@, kind),
    {
        match kind {
            MockWaiterKind::Sleep => {
                if self.sleep_waiters > 0 {
                    self.sleep_waiters = self.sleep_waiters - 1;
                }
            },
            MockWaiterKind::Deadline => {
                if self.deadline_waiters > 0 {
                    self.deadline_waiters = self.deadline_waiters - 1;
                }
            },
        }
    }

    /// Returns the number of blocked waiters of `kind`.
    pub fn waiter_count(&self, kind: MockWaiterKind) -> (r: usize)
        ensures
            r == waiters_of(self@, kind),
    {
        match kind {
            MockWaiterKind::Sleep => self.sleep_waiters,
            MockWaiterKind::Deadline => self.deadline_waiters,
        }
    }

    /// Returns whether the timeline has reached `deadline`.
    pub fn reached(&self, deadline: MockInstant) -> (r: bool)
        ensures
            r == (self@.elapsed_nanos >= deadline.spec_nanos()),
    {
        self.elapsed_nanos >= deadline.nanos_since_origin()
    }

    /// Returns the instant `duration` after now on this timeline.
    pub fn relative_deadline(&self, duration: Duration) -> (r: MockInstant)
        ensures
            r.spec_timeline() == self@.id,
            r.spec_nanos() == clamp(self@.elapsed_nanos + duration_nanos(duration), 0, u128::MAX as int),
    {
        self.now().saturating_add(duration)
    }

    /// Starts a blocking wait for `deadline` as a waiter of `kind`.
    ///
    /// Returns `Ok(false)` when the deadline is already reached, so no wait
    /// is needed; otherwise records the waiter and returns `Ok(true)`. The
    /// waiter must later leave through [`finish_wait`](Self::finish_wait).
    pub fn begin_wait(&mut self, deadline: MockInstant, kind: MockWaiterKind) -> (r: Result<bool, MockTimeError>)
        ensures
            deadline.spec_timeline() != old(self)@.id ==> r == Err::<bool, MockTimeError>(MockTimeError::MismatchedTimeline {
                expected: old(self)@.id,
                actual: deadline.spec_timeline(),
            }) && final(self)@ == old(self)@,
            deadline.spec_timeline() == old(self)@.id && old(self)@.elapsed_nanos >= deadline.spec_nanos() ==> r == Ok::<bool, MockTimeError>(false) && final(self)@ == old(self)@,
            deadline.spec_timeline() == old(self)@.id && old(self)@.elapsed_nanos < deadline.spec_nanos() ==> r == Ok::<bool, MockTimeError>(true) && final(self)@ == with_waiter_added(old(self)@, kind),
    {
        match self.ensure_own_instant(deadline) {
            Err(e) => Err(e),
            Ok(()) => {
                if self.reached(deadline) {
                    Ok(false)
                } else {
                    self.increment_waiter(kind);
                    Ok(true)
                }
            },
        }
    }

    /// Ends a blocking wait of `kind` started by
    /// [`begin_wait`](Self::begin_wait) once its deadline is reached.
    pub fn finish_wait(&mut self, kind: MockWaiterKind)
        ensures
            final(self)@ == with_waiter_removed(old(self)@, kind),
    {
        self.decrement_waiter(kind);
    }

    /// Decides the next step of a wait for at least `count` blocked waiters
    /// of `kind`, given the real time `remaining` before the wait gives up
    /// and whether the last sleep timed out.
    pub fn blocked_waiters_step(&self, kind: MockWaiterKind, count: usize, remaining: Option<Duration>, timed_out: bool) -> (r: RealTimeWait<()>)
        ensures
            waiters_of(self@, kind) >= count ==> r == RealTimeWait::<()>::Ready(()),
            waiters_of(self@, kind) < count ==> r == pending_outcome::<()>(remaining, timed_out),
    {
        if self.waiter_count(kind) >= count {
            RealTimeWait::Ready(())
        } else {
            pending_step(remaining, timed_out)
        }
    }
}

/// A waiter that joins and then leaves a timeline restores its waiter
/// count, unless the count of its kind was already saturated.
pub proof fn lemma_waiter_join_then_leave(v: MockTimelineView, kind: MockWaiterKind)
    requires
        waiters_of(v, kind) < usize::MAX,
    ensures
        with_waiter_removed(with_waiter_added(v, kind), kind) == v,
{
}

/// Advancing a timeline never moves its elapsed time backward, and moves it
/// by exactly the advanced amount while it stays representable.
pub proof fn lemma_advance_moves_forward(v: MockTimelineView, nanos: u128)
    ensures
        advanced_by(v, nanos).elapsed_nanos >= v.elapsed_nanos,
        v.elapsed_nanos + nanos <= u128::MAX ==> advanced_by(v, nanos).elapsed_nanos == v.elapsed_nanos + nanos,
        advanced_by(v, nanos).event_epoch != v.event_epoch,
{
}

} // verus!
