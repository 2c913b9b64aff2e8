//! A controllable clock whose readings follow the monotonic time elapsed
//! since its creation.
use crate::arith::{wrapping_add_i64, wrapping_sub_i64};
use crate::monotonic::{millis_reading_of, MonotonicClock};
use crate::wall_time::{num_milliseconds, time_delta_num_milliseconds};
use chrono::TimeDelta;
use vstd::prelude::*;

verus! {

/// The sum or difference `v` of two `i64` values wrapped into the `i64`
/// range, as two's-complement arithmetic does.
pub open spec fn wrap_i64(v: int) -> int {
    if v > i64::MAX {
        v - 18_446_744_073_709_551_616
    } else if v < i64::MIN {
        v + 18_446_744_073_709_551_616
    } else {
        v
    }
}

/// The control state of a [`MockClock`].
pub struct MockClockView {
    /// The creation time, in milliseconds, of the monotonic source that
    /// monotonic readings come from.
    pub source_base_millis: i64,
    /// The monotonic reading taken at creation.
    pub create_time: i64,
    /// The base of readings.
    pub epoch: i64,
    /// Milliseconds added to every reading.
    pub millis_to_add: i64,
    /// Milliseconds added after each read while auto-advance is enabled.
    pub millis_to_add_each_time: i64,
    /// Whether each read advances the following reads.
    pub add_every_time: bool,
}

/// The reading of a clock in state `v` when its monotonic source reads
/// `monotonic_now`: the base plus the monotonic time passed since creation
/// plus the added offset, in wrapping `i64` arithmetic.
pub open spec fn elapsed_reading_at(v: MockClockView, monotonic_now: i64) -> int {
    wrap_i64(wrap_i64(v.epoch + wrap_i64(monotonic_now - v.create_time)) + v.millis_to_add)
}

/// A controllable clock whose readings advance with monotonic time.
///
/// It starts at the current time and keeps running; `set_time_millis`
/// shifts its readings so that it reads the given time now.
pub struct MockClock {
    monotonic_clock: MonotonicClock,
    create_time: i64,
    epoch: i64,
    millis_to_add: i64,
    millis_to_add_each_time: i64,
    add_every_time: bool,
}

impl View for MockClock {
    type V = MockClockView;

    closed spec fn view(&self) -> MockClockView {
        MockClockView {
            source_base_millis: self.monotonic_clock.base_millis(),
            create_time: self.create_time,
            epoch: self.epoch,
            millis_to_add: self.millis_to_add,
            millis_to_add_each_time: self.millis_to_add_each_time,
            add_every_time: self.add_every_time,
        }
    }
}

impl MockClock {
    /// Creates a clock that reads the current time and keeps running.
    pub fn new() -> (r: MockClock)
        ensures
            millis_reading_of(r@.source_base_millis, r@.create_time),
            r@.epoch == r@.create_time,
            r@.create_time >= 0,
            r@.millis_to_add == 0,
            r@.millis_to_add_each_time == 0,
            !r@.add_every_time,
    {
        let monotonic_clock = MonotonicClock::new();
        let create_time = monotonic_clock.millis();
        MockClock { monotonic_clock, create_time, epoch: create_time, millis_to_add: 0, millis_to_add_each_time: 0, add_every_time: false }
    }

    /// Adds `millis` milliseconds once, or, when `add_every_time` is set,
    /// after every read.
    pub fn add_millis(&mut self, millis: i64, add_every_time: bool)
        ensures
            add_every_time ==> final(self)@ == (MockClockView { millis_to_add_each_time: millis, add_every_time: true, ..old(self)@ }),
            !add_every_time ==> final(self)@ == (MockClockView { millis_to_add: wrap_i64(old(self)@.millis_to_add + millis) as i64, ..old(self)@ }),
    {
        if add_every_time {
            self.set_auto_advance_millis(millis);
        } else {
            self.advance_millis(millis);
        }
    }

    /// Advances the clock by `millis` milliseconds once.
    pub fn advance_millis(&mut self, millis: i64)
        ensures
            final(self)@ == (MockClockView { millis_to_add: wrap_i64(old(self)@.millis_to_add + millis) as i64, ..old(self)@ }),
    {
        self.millis_to_add = wrapping_add_i64(self.millis_to_add, millis);
    }

    /// Makes every following read advance the reads after it by `millis`.
    pub fn set_auto_advance_millis(&mut self, millis: i64)
        ensures
            final(self)@ == (MockClockView { millis_to_add_each_time: millis, add_every_time: true, ..old(self)@ }),
    {
        self.millis_to_add_each_time = millis;
        self.add_every_time = true;
    }

    /// Disables auto-advance, so reads no longer change the clock.
    pub fn clear_auto_advance(&mut self)
        ensures
            final(self)@ == (MockClockView { millis_to_add_each_time: 0, add_every_time: false, ..old(self)@ }),
    {
        self.millis_to_add_each_time = 0;
        self.add_every_time = false;
    }

    /// Returns the current reading in milliseconds since the Unix epoch,
    /// then applies auto-advance to the following reads.
    pub fn millis(&mut self) -> (r: i64)
        ensures
            exists|m: i64| millis_reading_of(old(self)@.source_base_millis, m) && r == elapsed_reading_at(old(self)@, m),
            old(self)@.add_every_time ==> final(self)@ == (MockClockView { millis_to_add: wrap_i64(old(self)@.millis_to_add + old(self)@.millis_to_add_each_time) as i64, ..old(self)@ }),
            !old(self)@.add_every_time ==> final(self)@ == old(self)@,
    {
        let now = self.monotonic_clock.millis();
        let elapsed = wrapping_sub_i64(now, self.create_time);
        let result = wrapping_add_i64(wrapping_add_i64(self.epoch, elapsed), self.millis_to_add);
        assert(result == elapsed_reading_at(old(self)@, now));
        if self.add_every_time {
            self.millis_to_add = wrapping_add_i64(self.millis_to_add, self.millis_to_add_each_time);
        }
        result
    }

    /// Shifts the readings so that the clock reads `millis` now, and clears
    /// the offset and auto-advance.
    pub fn set_time_millis(&mut self, millis: i64)
        ensures
            exists|m: i64| millis_reading_of(old(self)@.source_base_millis, m) && final(self)@ == (MockClockView {
                epoch: wrap_i64(millis - #[trigger] wrap_i64(m - old(self)@.create_time)) as i64,
                millis_to_add: 0,
                millis_to_add_each_time: 0,
                add_every_time: false,
                ..old(self)@
            }),
    {
        let current_monotonic = self.monotonic_clock.millis();
        let elapsed = wrapping_sub_i64(current_monotonic, self.create_time);
        self.epoch = wrapping_sub_i64(millis, elapsed);
        self.millis_to_add = 0;
        self.millis_to_add_each_time = 0;
        self.add_every_time = false;
        assert(elapsed == wrap_i64(current_monotonic - old(self)@.create_time));
    }

    /// Advances the clock once by the whole milliseconds of a chrono
    /// duration.
    pub fn add_duration(&mut self, duration: TimeDelta)
        ensures
            final(self)@ == (MockClockView { millis_to_add: wrap_i64(old(self)@.millis_to_add + time_delta_num_milliseconds(duration)) as i64, ..old(self)@ }),
    {
        let millis = num_milliseconds(&duration);
        self.advance_millis(millis);
    }

    /// Returns to the creation base, with no offset and no auto-advance.
    pub fn reset(&mut self)
        ensures
            final(self)@ == (MockClockView {
                epoch: old(self)@.create_time,
                millis_to_add: 0,
                millis_to_add_each_time: 0,
                add_every_time: false,
                ..old(self)@
            }),
    {
        self.epoch = self.create_time;
        self.millis_to_add = 0;
        self.millis_to_add_each_time = 0;
        self.add_every_time = false;
    }
}

/// A clock set to `millis` reads back exactly that time while the
/// monotonic source has not moved, in wrapping arithmetic.
pub proof fn lemma_read_after_set_time(v: MockClockView, millis: i64, m: i64)
    ensures
        elapsed_reading_at(
            MockClockView {
                epoch: wrap_i64(millis - wrap_i64(m - v.create_time)) as i64,
                millis_to_add: 0,
                millis_to_add_each_time: 0,
                add_every_time: false,
                ..v
            },
            m,
        ) == millis,
{
}

impl Default for MockClock {
    /// Creates a running clock at the current time, as [`MockClock::new`]
    /// does.
    fn default() -> (r: Self)
        ensures
            r@.epoch == r@.create_time,
            r@.millis_to_add == 0,
            r@.millis_to_add_each_time == 0,
            !r@.add_every_time,
    {
        Self::new()
    }
}


/// A reading is the base plus the monotonic time passed since creation plus
/// the added offset, while nothing wraps; so a clock set to `millis` and
/// then advanced once by `d` reads `millis + d` while its monotonic source
/// has not moved, and in general an advance by `d` moves the reading by
/// exactly `d`.
pub proof fn lemma_set_then_advance(v: MockClockView, millis: i64, m: i64, d: i64)
    requires
        i64::MIN <= m - v.create_time <= i64::MAX,
        i64::MIN <= millis - (m - v.create_time) <= i64::MAX,
        i64::MIN <= millis + d <= i64::MAX,
    ensures
        ({
            let set = MockClockView {
                epoch: wrap_i64(millis - wrap_i64(m - v.create_time)) as i64,
                millis_to_add: 0,
                millis_to_add_each_time: 0,
                add_every_time: false,
                ..v
            };
            let advanced = MockClockView { millis_to_add: wrap_i64(set.millis_to_add + d) as i64, ..set };
            elapsed_reading_at(advanced, m) == millis + d
        }),
        i64::MIN <= v.epoch + (m - v.create_time) + v.millis_to_add <= i64::MAX
            && i64::MIN <= v.epoch + (m - v.create_time) <= i64::MAX
            ==> elapsed_reading_at(v, m) == v.epoch + (m - v.create_time) + v.millis_to_add,
{
}

} // verus!
