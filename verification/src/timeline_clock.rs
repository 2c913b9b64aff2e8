//! Wall-clock readings mapped onto a mock timeline.
//!
//! A clock on a timeline keeps one anchor: the wall time, in nanoseconds
//! since the Unix epoch, at which the timeline's elapsed time was zero. A
//! reading is the anchor plus the timeline's elapsed time, so advancing the
//! shared timeline moves every clock on it together.
use crate::arith::{saturating_add_i128, saturating_sub_i128};
use crate::error::MockTimeError;
use crate::arith::spec_wrapping_increment;
use crate::mock_timeline::{MockTimeline, MockTimelineView};
use crate::mock_nano_clock::{clamp_i128, millis_from_nanos, spec_millis_from_nanos};
use crate::wall_time::{spec_utc_parts_from_nanos, utc_parts_from_nanos};
use vstd::prelude::*;

verus! {

/// A timeline's elapsed nanoseconds as an `i128`, saturating at
/// `i128::MAX`.
pub open spec fn elapsed_as_i128(elapsed: u128) -> int {
    if elapsed <= i128::MAX { elapsed as int } else { i128::MAX as int }
}

/// Converts a timeline's elapsed nanoseconds to `i128`, saturating at
/// `i128::MAX`.
pub fn timeline_elapsed_i128(elapsed: u128) -> (r: i128)
    ensures
        r == elapsed_as_i128(elapsed),
{
    if elapsed <= i128::MAX as u128 {
        elapsed as i128
    } else {
        i128::MAX
    }
}

/// The anchor that makes a clock read `start_nanos` while its timeline has
/// run for `elapsed` nanoseconds, saturating.
pub open spec fn wall_origin_for(start_nanos: i128, elapsed: u128) -> int {
    clamp_i128(start_nanos - elapsed_as_i128(elapsed))
}

/// The reading, in nanoseconds since the Unix epoch, of a clock anchored at
/// `wall_origin` whose timeline has run for `elapsed` nanoseconds.
pub open spec fn wall_reading(wall_origin: i128, elapsed: u128) -> int {
    clamp_i128(wall_origin + elapsed_as_i128(elapsed))
}

/// The anchors of a [`MockClockAnchor`].
pub struct MockClockAnchorView {
    /// The anchor chosen when the clock was created.
    pub initial_wall_origin_nanos: i128,
    /// The current anchor.
    pub wall_origin_nanos: i128,
}

/// The wall-time anchor of a clock view on a mock timeline.
#[derive(Debug)]
pub struct MockClockAnchor {
    initial_wall_origin_nanos: i128,
    wall_origin_nanos: i128,
}

impl View for MockClockAnchor {
    type V = MockClockAnchorView;

    closed spec fn view(&self) -> MockClockAnchorView {
        MockClockAnchorView {
            initial_wall_origin_nanos: self.initial_wall_origin_nanos,
            wall_origin_nanos: self.wall_origin_nanos,
        }
    }
}

impl MockClockAnchor {
    /// Anchors a clock so that it reads `start_nanos` now, while its timeline
    /// has run for `elapsed` nanoseconds.
    pub fn with_timeline(start_nanos: i128, elapsed: u128) -> (r: MockClockAnchor)
        ensures
            r@.wall_origin_nanos == wall_origin_for(start_nanos, elapsed),
            r@.initial_wall_origin_nanos == r@.wall_origin_nanos,
    {
        let wall_origin_nanos = saturating_sub_i128(start_nanos, timeline_elapsed_i128(elapsed));
        MockClockAnchor { initial_wall_origin_nanos: wall_origin_nanos, wall_origin_nanos }
    }

    /// Returns the reading in nanoseconds since the Unix epoch when the
    /// timeline has run for `elapsed` nanoseconds.
    pub fn current_nanos(&self, elapsed: u128) -> (r: i128)
        ensures
            r == wall_reading(self@.wall_origin_nanos, elapsed),
    {
        saturating_add_i128(self.wall_origin_nanos, timeline_elapsed_i128(elapsed))
    }

    /// Returns the reading in milliseconds since the Unix epoch, rounded
    /// toward negative infinity.
    pub fn millis(&self, elapsed: u128) -> (r: i64)
        ensures
            r == spec_millis_from_nanos(wall_reading(self@.wall_origin_nanos, elapsed) as i128),
    {
        millis_from_nanos(self.current_nanos(elapsed))
    }

    /// Returns the reading as UTC seconds and sub-second nanoseconds,
    /// clamped to the range chrono can hold.
    pub fn utc_parts(&self, elapsed: u128) -> (r: (i64, u32))
        ensures
            r == spec_utc_parts_from_nanos(wall_reading(self@.wall_origin_nanos, elapsed)),
    {
        utc_parts_from_nanos(self.current_nanos(elapsed))
    }

    /// Reanchors the clock so that it reads `instant_nanos` now, while its
    /// timeline has run for `elapsed` nanoseconds. The timeline is not
    /// touched.
    pub fn set_time(&mut self, instant_nanos: i128, elapsed: u128)
        ensures
            final(self)@ == (MockClockAnchorView {
                wall_origin_nanos: wall_origin_for(instant_nanos, elapsed) as i128,
                ..old(self)@
            }),
    {
        self.wall_origin_nanos = saturating_sub_i128(instant_nanos, timeline_elapsed_i128(elapsed));
    }

    /// Resets the shared `timeline` to elapsed zero and then restores this
    /// clock's creation anchor.
    ///
    /// Fails with [`MockTimeError::ActiveWaiters`], changing neither, while
    /// waiters are blocked on the timeline.
    pub fn try_reset(&mut self, timeline: &mut MockTimeline) -> (r: Result<(), MockTimeError>)
        ensures
            (old(timeline)@.sleep_waiters != 0 || old(timeline)@.deadline_waiters != 0) <==> r == Err::<(), MockTimeError>(MockTimeError::ActiveWaiters),
            (old(timeline)@.sleep_waiters == 0 && old(timeline)@.deadline_waiters == 0) <==> r is Ok,
            r is Err ==> final(timeline)@ == old(timeline)@ && final(self)@ == old(self)@,
            r is Ok ==> final(timeline)@ == (MockTimelineView {
                elapsed_nanos: 0,
                time_epoch: spec_wrapping_increment(old(timeline)@.time_epoch),
                event_epoch: spec_wrapping_increment(old(timeline)@.event_epoch),
                ..old(timeline)@
            }),
            r is Ok ==> final(self)@ == (MockClockAnchorView { wall_origin_nanos: old(self)@.initial_wall_origin_nanos, ..old(self)@ }),
    {
        match timeline.reset() {
            Err(e) => Err(e),
            Ok(_) => {
                self.reset_wall_anchor();
                Ok(())
            },
        }
    }

    /// Restores the anchor chosen when the clock was created.
    pub fn reset_wall_anchor(&mut self)
        ensures
            final(self)@ == (MockClockAnchorView {
                wall_origin_nanos: old(self)@.initial_wall_origin_nanos,
                ..old(self)@
            }),
    {
        self.wall_origin_nanos = self.initial_wall_origin_nanos;
    }
}

/// A clock set to `instant_nanos` reads back exactly that time, unless the
/// anchor it needs lies below what `i128` holds.
pub proof fn lemma_read_after_set_time(instant_nanos: i128, elapsed: u128)
    requires
        instant_nanos - elapsed_as_i128(elapsed) >= i128::MIN,
    ensures
        wall_reading(wall_origin_for(instant_nanos, elapsed) as i128, elapsed) == instant_nanos,
{
}

/// Advancing the timeline by `nanos` moves the reading of a clock on it by
/// exactly `nanos`, while the reading and the elapsed time stay
/// representable.
pub proof fn lemma_reading_follows_timeline(wall_origin: i128, elapsed: u128, nanos: u128)
    requires
        elapsed + nanos <= i128::MAX,
        i128::MIN <= wall_origin + elapsed + nanos <= i128::MAX,
        i128::MIN <= wall_origin + elapsed,
    ensures
        wall_reading(wall_origin, (elapsed + nanos) as u128) == wall_reading(wall_origin, elapsed) + nanos,
{
}

} // verus!
