//! A millisecond-precision controllable clock for deterministic tests.
use crate::arith::{clamp, saturating_add_i64, saturating_sub_i64};
use crate::monotonic::{millis_reading_of, MonotonicClock};
use crate::progression::MockClockProgression;
use crate::time_source::utc_now_parts;
use crate::wall_time::{num_milliseconds, time_delta_num_milliseconds};
use chrono::TimeDelta;
use vstd::prelude::*;

verus! {

/// `v` clamped into the `i64` range.
pub open spec fn clamp_i64(v: int) -> int {
    clamp(v, i64::MIN as int, i64::MAX as int)
}

/// The control state of a [`MockClock`].
pub struct MockClockView {
    /// The creation time, in milliseconds, of the monotonic source that
    /// monotonic readings come from.
    pub source_base_millis: i64,
    /// The time captured when the clock was created, in milliseconds.
    pub initial_time: i64,
    /// The progression mode captured when the clock was created.
    pub initial_progression: MockClockProgression,
    /// The time used as the base of readings, in milliseconds.
    pub epoch: i64,
    /// The monotonic reading that corresponds to `epoch`.
    pub monotonic_base_millis: i64,
    /// The current progression mode.
    pub progression: MockClockProgression,
    /// Milliseconds added to every reading.
    pub millis_to_add: i64,
    /// Milliseconds added after each read while auto-advance is enabled.
    pub millis_to_add_each_time: i64,
    /// Whether each read advances the following reads.
    pub add_every_time: bool,
}

/// The reading of a clock in state `v` when its monotonic source reads
/// `monotonic_now`: the epoch plus, in monotonic mode, the monotonic time
/// passed since the base, plus the added offset, each sum saturating.
pub open spec fn millis_reading_at(v: MockClockView, monotonic_now: i64) -> int {
    let elapsed = if v.progression == MockClockProgression::Monotonic {
        clamp_i64(monotonic_now - v.monotonic_base_millis)
    } else {
        0
    };
    clamp_i64(clamp_i64(v.epoch + elapsed) + v.millis_to_add)
}

/// A controllable clock with millisecond precision.
///
/// Readings are frozen after construction by default. `set_time_millis`
/// reanchors the logical time without changing the progression mode or
/// auto-advance settings; `reset` returns to the creation state.
pub struct MockClock {
    initial_time: i64,
    initial_progression: MockClockProgression,
    epoch: i64,
    monotonic_clock: MonotonicClock,
    monotonic_base_millis: i64,
    progression: MockClockProgression,
    millis_to_add: i64,
    millis_to_add_each_time: i64,
    add_every_time: bool,
}

impl View for MockClock {
    type V = MockClockView;

    closed spec fn view(&self) -> MockClockView {
        MockClockView {
            source_base_millis: self.monotonic_clock.base_millis(),
            initial_time: self.initial_time,
            initial_progression: self.initial_progression,
            epoch: self.epoch,
            monotonic_base_millis: self.monotonic_base_millis,
            progression: self.progression,
            millis_to_add: self.millis_to_add,
            millis_to_add_each_time: self.millis_to_add_each_time,
            add_every_time: self.add_every_time,
        }
    }
}

impl MockClock {
    /// Returns the current reading without applying auto-advance.
    fn current_millis(&self) -> (r: i64)
        ensures
            self@.progression == MockClockProgression::Frozen ==> r == millis_reading_at(self@, 0),
            self@.progression == MockClockProgression::Monotonic ==> exists|m: i64| millis_reading_of(self@.source_base_millis, m) && r == millis_reading_at(self@, m),
    {
        if self.progression.is_monotonic() {
            let now = self.monotonic_clock.millis();
            let elapsed = saturating_sub_i64(now, self.monotonic_base_millis);
            let r = saturating_add_i64(saturating_add_i64(self.epoch, elapsed), self.millis_to_add);
            assert(r == millis_reading_at(self@, now));
            r
        } else {
            saturating_add_i64(self.epoch, self.millis_to_add)
        }
    }

    /// Folds the current reading into the epoch and restarts the monotonic
    /// base, so that the progression mode can change without a time jump.
    fn rebase_at_current(&mut self)
        ensures
            millis_reading_of(old(self)@.source_base_millis, final(self)@.monotonic_base_millis),
            old(self)@.progression == MockClockProgression::Frozen ==> final(self)@.epoch == millis_reading_at(old(self)@, 0),
            old(self)@.progression == MockClockProgression::Monotonic ==> exists|m: i64| millis_reading_of(old(self)@.source_base_millis, m) && final(self)@.epoch == millis_reading_at(old(self)@, m),
            final(self)@.millis_to_add == 0,
            final(self)@.progression == old(self)@.progression,
            final(self)@.initial_time == old(self)@.initial_time,
            final(self)@.initial_progression == old(self)@.initial_progression,
            final(self)@.millis_to_add_each_time == old(self)@.millis_to_add_each_time,
            final(self)@.add_every_time == old(self)@.add_every_time,
    {
        let current = self.current_millis();
        self.epoch = current;
        self.millis_to_add = 0;
        self.monotonic_base_millis = self.monotonic_clock.millis();
    }

    /// Creates a clock frozen at the current system time.
    pub fn new() -> (r: MockClock)
        ensures
            exists|parts: (i64, u32)| #[trigger] call_ensures(utc_now_parts, (), parts) && r@.initial_time == (parts.0 * 1_000_000_000 + parts.1) / 1_000_000,
            millis_reading_of(r@.source_base_millis, r@.monotonic_base_millis),
            r@.progression == MockClockProgression::Frozen,
            r@.initial_progression == MockClockProgression::Frozen,
            r@.epoch == r@.initial_time,
            r@.initial_time >= 0,
            r@.millis_to_add == 0,
            r@.millis_to_add_each_time == 0,
            !r@.add_every_time,
    {
        Self::with_progression(MockClockProgression::Frozen)
    }

    /// Creates a clock at the current system time with the given progression
    /// mode.
    ///
    /// In `Frozen` mode readings stay fixed until explicitly advanced; in
    /// `Monotonic` mode they progress naturally from the initial system time.
    pub fn with_progression(progression: MockClockProgression) -> (r: MockClock)
        ensures
            exists|parts: (i64, u32)| #[trigger] call_ensures(utc_now_parts, (), parts) && r@.initial_time == (parts.0 * 1_000_000_000 + parts.1) / 1_000_000,
            millis_reading_of(r@.source_base_millis, r@.monotonic_base_millis),
            r@.progression == progression,
            r@.initial_progression == progression,
            r@.epoch == r@.initial_time,
            r@.initial_time >= 0,
            r@.millis_to_add == 0,
            r@.millis_to_add_each_time == 0,
            !r@.add_every_time,
    {
        let (seconds, subsec) = utc_now_parts();
        let initial_time = seconds * 1000 + (subsec / 1_000_000) as i64;
        let monotonic_clock = MonotonicClock::new();
        let monotonic_base_millis = monotonic_clock.millis();
        MockClock {
            initial_time,
            initial_progression: progression,
            epoch: initial_time,
            monotonic_clock,
            monotonic_base_millis,
            progression,
            millis_to_add: 0,
            millis_to_add_each_time: 0,
            add_every_time: false,
        }
    }

    /// Returns the current progression mode.
    pub fn progression(&self) -> (r: MockClockProgression)
        ensures
            r == self@.progression,
    {
        self.progression
    }

    /// Switches the progression mode without changing the current reading.
    ///
    /// The current reading is first folded into the clock's base state, so
    /// changing between frozen and monotonic modes causes no time jump.
    pub fn set_progression(&mut self, progression: MockClockProgression)
        ensures
            millis_reading_of(old(self)@.source_base_millis, final(self)@.monotonic_base_millis),
            final(self)@.progression == progression,
            millis_reading_at(final(self)@, final(self)@.monotonic_base_millis) == final(self)@.epoch,
            old(self)@.progression == MockClockProgression::Frozen ==> final(self)@.epoch == millis_reading_at(old(self)@, 0),
            old(self)@.progression == MockClockProgression::Monotonic ==> exists|m: i64| millis_reading_of(old(self)@.source_base_millis, m) && final(self)@.epoch == millis_reading_at(old(self)@, m),
            final(self)@.millis_to_add == 0,
            final(self)@.initial_time == old(self)@.initial_time,
            final(self)@.initial_progression == old(self)@.initial_progression,
            final(self)@.millis_to_add_each_time == old(self)@.millis_to_add_each_time,
            final(self)@.add_every_time == old(self)@.add_every_time,
    {
        self.rebase_at_current();
        self.progression = progression;
    }

    /// Returns whether monotonic progression is enabled.
    pub fn monotonic_progression_enabled(&self) -> (r: bool)
        ensures
            r == (self@.progression == MockClockProgression::Monotonic),
    {
        self.progression().is_monotonic()
    }

    /// Enables (`true`) or disables (`false`) monotonic progression, like
    /// [`set_progression`](Self::set_progression).
    pub fn set_monotonic_progression_enabled(&mut self, enabled: bool)
        ensures
            millis_reading_of(old(self)@.source_base_millis, final(self)@.monotonic_base_millis),
            final(self)@.progression == (if enabled { MockClockProgression::Monotonic } else { MockClockProgression::Frozen }),
            millis_reading_at(final(self)@, final(self)@.monotonic_base_millis) == final(self)@.epoch,
            old(self)@.progression == MockClockProgression::Frozen ==> final(self)@.epoch == millis_reading_at(old(self)@, 0),
            old(self)@.progression == MockClockProgression::Monotonic ==> exists|m: i64| millis_reading_of(old(self)@.source_base_millis, m) && final(self)@.epoch == millis_reading_at(old(self)@, m),
            final(self)@.millis_to_add == 0,
            final(self)@.initial_time == old(self)@.initial_time,
            final(self)@.initial_progression == old(self)@.initial_progression,
            final(self)@.millis_to_add_each_time == old(self)@.millis_to_add_each_time,
            final(self)@.add_every_time == old(self)@.add_every_time,
    {
        let progression = if enabled {
            MockClockProgression::Monotonic
        } else {
            MockClockProgression::Frozen
        };
        self.set_progression(progression);
    }

    /// Adds `millis` milliseconds once, or, when `add_every_time` is set,
    /// after every read.
    pub fn add_millis(&mut self, millis: i64, add_every_time: bool)
        ensures
            add_every_time ==> final(self)@ == (MockClockView { millis_to_add_each_time: millis, add_every_time: true, ..old(self)@ }),
            !add_every_time ==> final(self)@ == (MockClockView { millis_to_add: clamp_i64(old(self)@.millis_to_add + millis) as i64, ..old(self)@ }),
    {
        if add_every_time {
            self.set_auto_advance_millis(millis);
        } else {
            self.advance_millis(millis);
        }
    }

    /// Advances the clock by `millis` milliseconds once, saturating the
    /// accumulated offset at the `i64` bounds.
    pub fn advance_millis(&mut self, millis: i64)
        ensures
            final(self)@ == (MockClockView { millis_to_add: clamp_i64(old(self)@.millis_to_add + millis) as i64, ..old(self)@ }),
    {
        self.millis_to_add = saturating_add_i64(self.millis_to_add, millis);
    }

    /// Makes every following read advance the reads after it by `millis`.
    pub fn set_auto_advance_millis(&mut self, millis: i64)
        ensures
            final(self)@ == (MockClockView { millis_to_add_each_time: millis, add_every_time: true, ..old(self)@ }),
    {
        self.millis_to_add_each_time = millis;
        self.add_every_time = true;
    }

    /// Disables auto-advance, so reads no longer change the clock.
    pub fn clear_auto_advance(&mut self)
        ensures
            final(self)@ == (MockClockView { millis_to_add_each_time: 0, add_every_time: false, ..old(self)@ }),
    {
        self.millis_to_add_each_time = 0;
        self.add_every_time = false;
    }

    /// Returns the current reading in milliseconds since the Unix epoch,
    /// then applies auto-advance to the following reads.
    pub fn millis(&mut self) -> (r: i64)
        ensures
            old(self)@.progression == MockClockProgression::Frozen ==> r == millis_reading_at(old(self)@, 0),
            old(self)@.progression == MockClockProgression::Monotonic ==> exists|m: i64| millis_reading_of(old(self)@.source_base_millis, m) && r == millis_reading_at(old(self)@, m),
            old(self)@.add_every_time ==> final(self)@ == (MockClockView { millis_to_add: clamp_i64(old(self)@.millis_to_add + old(self)@.millis_to_add_each_time) as i64, ..old(self)@ }),
            !old(self)@.add_every_time ==> final(self)@ == old(self)@,
    {
        let result = self.current_millis();
        if self.add_every_time {
            self.millis_to_add = saturating_add_i64(self.millis_to_add, self.millis_to_add_each_time);
        }
        result
    }

    /// Reanchors the logical time at `millis` milliseconds past the Unix
    /// epoch, keeping the progression mode and auto-advance settings.
    pub fn set_time_millis(&mut self, millis: i64)
        ensures
            millis_reading_of(old(self)@.source_base_millis, final(self)@.monotonic_base_millis),
            final(self)@ == (MockClockView {
                epoch: millis,
                monotonic_base_millis: final(self)@.monotonic_base_millis,
                millis_to_add: 0,
                ..old(self)@
            }),
    {
        self.epoch = millis;
        self.monotonic_base_millis = self.monotonic_clock.millis();
        self.millis_to_add = 0;
    }

    /// Advances the clock once by the whole milliseconds of a chrono
    /// duration.
    pub fn add_duration(&mut self, duration: TimeDelta)
        ensures
            final(self)@ == (MockClockView { millis_to_add: clamp_i64(old(self)@.millis_to_add + time_delta_num_milliseconds(duration)) as i64, ..old(self)@ }),
    {
        let millis = num_milliseconds(&duration);
        self.advance_millis(millis);
    }

    /// Returns to the creation state: the initial time and progression mode,
    /// no offset, and no auto-advance.
    pub fn reset(&mut self)
        ensures
            millis_reading_of(old(self)@.source_base_millis, final(self)@.monotonic_base_millis),
            final(self)@ == reset_view(old(self)@, final(self)@.monotonic_base_millis),
    {
        self.epoch = self.initial_time;
        self.progression = self.initial_progression;
        self.monotonic_base_millis = self.monotonic_clock.millis();
        self.millis_to_add = 0;
        self.millis_to_add_each_time = 0;
        self.add_every_time = false;
    }
}

/// In frozen mode a read returns exactly the time most recently set, until
/// the clock is advanced.
pub proof fn lemma_frozen_read_after_set_time(v: MockClockView, millis: i64, base: i64)
    requires
        v.progression == MockClockProgression::Frozen,
    ensures
        millis_reading_at(MockClockView { epoch: millis, monotonic_base_millis: base, millis_to_add: 0, ..v }, 0) == millis,
{
}

/// In frozen mode an advance by `millis` moves the reading by exactly that
/// amount while no sum saturates.
pub proof fn lemma_frozen_advance_moves_reading(v: MockClockView, millis: i64)
    requires
        v.progression == MockClockProgression::Frozen,
        i64::MIN <= v.millis_to_add + millis <= i64::MAX,
        i64::MIN <= v.epoch + v.millis_to_add + millis <= i64::MAX,
        i64::MIN <= v.epoch + v.millis_to_add <= i64::MAX,
    ensures
        millis_reading_at(MockClockView { millis_to_add: (v.millis_to_add + millis) as i64, ..v }, 0) == millis_reading_at(v, 0) + millis,
{
}

impl Default for MockClock {
    /// Creates a clock frozen at the current system time, as
    /// [`MockClock::new`] does.
    fn default() -> (r: Self)
        ensures
            r@.progression == MockClockProgression::Frozen,
            r@.initial_progression == MockClockProgression::Frozen,
            r@.epoch == r@.initial_time,
            r@.millis_to_add == 0,
            r@.millis_to_add_each_time == 0,
            !r@.add_every_time,
    {
        Self::new()
    }
}


/// With auto-advance enabled in frozen mode, each read is followed by a
/// read exactly `millis_to_add_each_time` later, while no sum saturates.
pub proof fn lemma_auto_advance_spacing(v: MockClockView)
    requires
        v.progression == MockClockProgression::Frozen,
        v.add_every_time,
        i64::MIN <= v.millis_to_add + v.millis_to_add_each_time <= i64::MAX,
        i64::MIN <= v.epoch + v.millis_to_add + v.millis_to_add_each_time <= i64::MAX,
        i64::MIN <= v.epoch + v.millis_to_add <= i64::MAX,
    ensures
        millis_reading_at(
            MockClockView { millis_to_add: clamp_i64(v.millis_to_add + v.millis_to_add_each_time) as i64, ..v },
            0,
        ) == millis_reading_at(v, 0) + v.millis_to_add_each_time,
{
    lemma_frozen_advance_moves_reading(v, v.millis_to_add_each_time);
}


/// The state [`MockClock::reset`] leaves behind, with `base` the fresh
/// monotonic base it takes.
pub open spec fn reset_view(v: MockClockView, base: i64) -> MockClockView {
    MockClockView {
        epoch: v.initial_time,
        progression: v.initial_progression,
        monotonic_base_millis: base,
        millis_to_add: 0,
        millis_to_add_each_time: 0,
        add_every_time: false,
        ..v
    }
}

/// Whatever control calls happened after a frozen clock was created, a
/// reset restores its frozen mode and the reading it gave at creation.
pub proof fn lemma_reset_restores_initial_reading(created: MockClockView, later: MockClockView, base: i64, m: i64)
    requires
        created.progression == MockClockProgression::Frozen,
        created.initial_progression == MockClockProgression::Frozen,
        created.epoch == created.initial_time,
        created.millis_to_add == 0,
        later.initial_time == created.initial_time,
        later.initial_progression == created.initial_progression,
    ensures
        reset_view(later, base).progression == MockClockProgression::Frozen,
        millis_reading_at(reset_view(later, base), m) == millis_reading_at(created, 0),
        millis_reading_at(created, 0) == created.initial_time,
{
}


/// In either progression mode, while no sum saturates, a reading is the
/// epoch plus the monotonic time passed since the base (in monotonic mode
/// only) plus the added offset; so at the same monotonic reading an advance
/// by `millis` moves the reading by exactly `millis`.
pub proof fn lemma_advance_moves_reading(v: MockClockView, m: i64, millis: i64)
    requires
        ({
            let e = if v.progression == MockClockProgression::Monotonic { m - v.monotonic_base_millis } else { 0 };
            &&& i64::MIN <= e <= i64::MAX
            &&& i64::MIN <= v.epoch + e <= i64::MAX
            &&& i64::MIN <= v.epoch + e + v.millis_to_add <= i64::MAX
            &&& i64::MIN <= v.millis_to_add + millis <= i64::MAX
            &&& i64::MIN <= v.epoch + e + v.millis_to_add + millis <= i64::MAX
        }),
    ensures
        v.progression == MockClockProgression::Monotonic ==> millis_reading_at(v, m) == v.epoch + (m - v.monotonic_base_millis) + v.millis_to_add,
        v.progression == MockClockProgression::Frozen ==> millis_reading_at(v, m) == v.epoch + v.millis_to_add,
        millis_reading_at(MockClockView { millis_to_add: (v.millis_to_add + millis) as i64, ..v }, m) == millis_reading_at(v, m) + millis,
{
}

} // verus!
