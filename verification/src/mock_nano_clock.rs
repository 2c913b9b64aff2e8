//! A nanosecond-precision controllable clock for deterministic tests.
use crate::arith::{clamp, saturating_add_i128, saturating_mul_i128, saturating_sub_i128};
use crate::duration::MAX_DURATION_NANOS;
use crate::nano_monotonic::NanoMonotonicClock;
use crate::progression::MockClockProgression;
use crate::time_source::{utc_now_parts, MAX_UTC_TIMESTAMP};
use crate::wall_time::{is_negative, num_nanoseconds, time_delta_is_negative, time_delta_num_nanoseconds};
use chrono::TimeDelta;
use vstd::prelude::*;

verus! {

/// Nanoseconds per millisecond.
pub const NANOS_PER_MILLISECOND: i128 = 1_000_000;

/// Nanoseconds per second.
pub const NANOS_PER_SECOND_I128: i128 = 1_000_000_000;

/// `v` clamped into the `i128` range.
pub open spec fn clamp_i128(v: int) -> int {
    clamp(v, i128::MIN as int, i128::MAX as int)
}

/// The nanoseconds since the Unix epoch of a time `seconds` whole seconds and
/// `subsec_nanos` nanoseconds past it, saturating at the `i128` bounds.
pub open spec fn spec_datetime_to_nanos(seconds: i64, subsec_nanos: u32) -> int {
    clamp_i128(clamp_i128(seconds * 1_000_000_000) + subsec_nanos)
}

/// Converts a time given as whole seconds and sub-second nanoseconds since
/// the Unix epoch to nanoseconds, saturating at the `i128` bounds.
pub fn datetime_to_nanos(seconds: i64, subsec_nanos: u32) -> (r: i128)
    ensures
        r == spec_datetime_to_nanos(seconds, subsec_nanos),
        r == seconds * 1_000_000_000 + subsec_nanos,
{
    let r = saturating_add_i128(saturating_mul_i128(seconds as i128, NANOS_PER_SECOND_I128), subsec_nanos as i128);
    r
}

/// The nanoseconds held by a signed duration whose exact nanosecond count is
/// `num_nanoseconds` when that fits in `i64`; otherwise the bound on the
/// side of its sign.
pub open spec fn spec_nanos_from_delta(num_nanoseconds: Option<i64>, is_negative: bool) -> int {
    match num_nanoseconds {
        Some(n) => n as int,
        None => if is_negative { i128::MIN as int } else { i128::MAX as int },
    }
}

/// Converts a signed duration, given by its nanosecond count when that fits
/// in `i64` and by its sign, to nanoseconds: the exact count when known,
/// otherwise the `i128` bound on the side of its sign.
pub fn nanos_from_delta(num_nanoseconds: Option<i64>, is_negative: bool) -> (r: i128)
    ensures
        r == spec_nanos_from_delta(num_nanoseconds, is_negative),
{
    match num_nanoseconds {
        Some(n) => n as i128,
        None => if is_negative { i128::MIN } else { i128::MAX },
    }
}

/// Converts a chrono duration to nanoseconds, saturating at the `i128`
/// bounds on the side of its sign when its count does not fit in `i64`.
pub fn duration_to_nanos(duration: &TimeDelta) -> (r: i128)
    ensures
        r == spec_nanos_from_delta(time_delta_num_nanoseconds(*duration), time_delta_is_negative(*duration)),
{
    nanos_from_delta(num_nanoseconds(duration), is_negative(duration))
}

/// Floor division of `a` by a positive `b`.
pub open spec fn floor_div(a: int, b: int) -> int {
    a / b
}

/// The millisecond count of `nanos` nanoseconds, rounded toward negative
/// infinity and clamped to the `i64` range.
pub open spec fn spec_millis_from_nanos(nanos: i128) -> int {
    clamp(floor_div(nanos as int, 1_000_000), i64::MIN as int, i64::MAX as int)
}

/// Floor division of a negative `n = -p - 1` by a positive `d` is one less
/// than the negated quotient of `p`.
proof fn lemma_floor_div_negative(n: int, p: int, d: int)
    requires
        p >= 0,
        n == -p - 1,
        d > 0,
    ensures
        n / d == -(p / d) - 1,
{
    let q = p / d;
    let r = p % d;
    vstd::arithmetic::div_mod::lemma_fundamental_div_mod(p, d);
    assert(n == d * (-q - 1) + (d - r - 1)) by (nonlinear_arith)
        requires
            p == d * q + r,
            n == -p - 1,
    ;
    vstd::arithmetic::div_mod::lemma_fundamental_div_mod_converse(n, d, -q - 1, d - r - 1);
}

/// Converts nanoseconds to milliseconds, rounding toward negative infinity
/// and saturating at the `i64` bounds.
pub fn millis_from_nanos(nanos: i128) -> (r: i64)
    ensures
        r == spec_millis_from_nanos(nanos),
{
    let millis: i128 = if nanos >= 0 {
        nanos / NANOS_PER_MILLISECOND
    } else {
        let p = -(nanos + 1);
        proof {
            lemma_floor_div_negative(nanos as int, p as int, 1_000_000);
        }
        -(p / NANOS_PER_MILLISECOND) - 1
    };
    if millis > i64::MAX as i128 {
        i64::MAX
    } else if millis < i64::MIN as i128 {
        i64::MIN
    } else {
        millis as i64
    }
}

/// The control state of a [`MockNanoClock`].
pub struct MockNanoClockView {
    /// The timestamp captured when the clock was created.
    pub initial_nanos: i128,
    /// The progression mode captured when the clock was created.
    pub initial_progression: MockClockProgression,
    /// The timestamp used as the base of readings.
    pub epoch_nanos: i128,
    /// The monotonic reading that corresponds to `epoch_nanos`.
    pub monotonic_base_nanos: i128,
    /// The current progression mode.
    pub progression: MockClockProgression,
    /// Nanoseconds added to every reading.
    pub nanos_to_add: i128,
    /// Nanoseconds added after each read while auto-advance is enabled.
    pub nanos_to_add_each_time: i128,
    /// Whether each read advances the following reads.
    pub add_every_time: bool,
}

/// The reading of a clock in state `v` when its monotonic source reads
/// `monotonic_now`: the epoch plus, in monotonic mode, the monotonic time
/// passed since the base, plus the added offset, each sum saturating.
pub open spec fn reading_at(v: MockNanoClockView, monotonic_now: i128) -> int {
    let elapsed = if v.progression == MockClockProgression::Monotonic {
        clamp_i128(monotonic_now - v.monotonic_base_nanos)
    } else {
        0
    };
    clamp_i128(clamp_i128(v.epoch_nanos + elapsed) + v.nanos_to_add)
}

/// A nanosecond-precision controllable clock for testing.
///
/// Readings are frozen after construction by default. `set_time` reanchors
/// the logical time without changing the progression mode or auto-advance
/// settings; `reset` returns to the creation state.
pub struct MockNanoClock {
    /// The frozen nanosecond timestamp captured when this clock was created.
    initial_nanos: i128,
    /// The progression mode captured when this clock was created.
    initial_progression: MockClockProgression,
    /// The epoch nanosecond timestamp to use as the base.
    epoch_nanos: i128,
    /// The monotonic clock used when monotonic progression is enabled.
    monotonic_clock: NanoMonotonicClock,
    /// The monotonic reading corresponding to `epoch_nanos`.
    monotonic_base_nanos: i128,
    /// The current progression mode.
    progression: MockClockProgression,
    /// Additional nanoseconds to add to the current time.
    nanos_to_add: i128,
    /// Nanoseconds to add after each read.
    nanos_to_add_each_time: i128,
    /// Whether to automatically add `nanos_to_add_each_time` on each call.
    add_every_time: bool,
}

impl View for MockNanoClock {
    type V = MockNanoClockView;

    closed spec fn view(&self) -> MockNanoClockView {
        MockNanoClockView {
            initial_nanos: self.initial_nanos,
            initial_progression: self.initial_progression,
            epoch_nanos: self.epoch_nanos,
            monotonic_base_nanos: self.monotonic_base_nanos,
            progression: self.progression,
            nanos_to_add: self.nanos_to_add,
            nanos_to_add_each_time: self.nanos_to_add_each_time,
            add_every_time: self.add_every_time,
        }
    }
}

impl MockNanoClock {
    /// Returns the current reading without applying auto-advance.
    fn current_nanos(&self) -> (r: i128)
        ensures
            self@.progression == MockClockProgression::Frozen ==> r == reading_at(self@, 0),
            self@.progression == MockClockProgression::Monotonic ==> exists|m: i128| 0 <= m <= MAX_DURATION_NANOS && r == reading_at(self@, m),
    {
        if self.progression.is_monotonic() {
            let now = self.monotonic_clock.monotonic_nanos();
            let elapsed = saturating_sub_i128(now, self.monotonic_base_nanos);
            let r = saturating_add_i128(saturating_add_i128(self.epoch_nanos, elapsed), self.nanos_to_add);
            assert(r == reading_at(self@, now));
            r
        } else {
            saturating_add_i128(self.epoch_nanos, self.nanos_to_add)
        }
    }

    /// Folds the current reading into the epoch and restarts the monotonic
    /// base, so that the progression mode can change without a time jump.
    fn rebase_at_current(&mut self)
        ensures
            old(self)@.progression == MockClockProgression::Frozen ==> final(self)@.epoch_nanos == reading_at(old(self)@, 0),
            old(self)@.progression == MockClockProgression::Monotonic ==> exists|m: i128| 0 <= m <= MAX_DURATION_NANOS && final(self)@.epoch_nanos == reading_at(old(self)@, m),
            final(self)@.nanos_to_add == 0,
            0 <= final(self)@.monotonic_base_nanos <= MAX_DURATION_NANOS,
            final(self)@.progression == old(self)@.progression,
            final(self)@.initial_nanos == old(self)@.initial_nanos,
            final(self)@.initial_progression == old(self)@.initial_progression,
            final(self)@.nanos_to_add_each_time == old(self)@.nanos_to_add_each_time,
            final(self)@.add_every_time == old(self)@.add_every_time,
    {
        let current = self.current_nanos();
        self.epoch_nanos = current;
        self.nanos_to_add = 0;
        self.monotonic_base_nanos = self.monotonic_clock.monotonic_nanos();
    }

    /// Creates a clock frozen at the current system time.
    pub fn new() -> (r: MockNanoClock)
        ensures
            exists|parts: (i64, u32)| #[trigger] call_ensures(utc_now_parts, (), parts) && r@.initial_nanos == parts.0 * 1_000_000_000 + parts.1,
            r@.progression == MockClockProgression::Frozen,
            r@.initial_progression == MockClockProgression::Frozen,
            r@.epoch_nanos == r@.initial_nanos,
            0 <= r@.initial_nanos <= MAX_UTC_TIMESTAMP * 1_000_000_000 + 999_999_999,
            0 <= r@.monotonic_base_nanos <= MAX_DURATION_NANOS,
            r@.nanos_to_add == 0,
            r@.nanos_to_add_each_time == 0,
            !r@.add_every_time,
    {
        Self::with_progression(MockClockProgression::Frozen)
    }

    /// Creates a clock at the current system time with the given progression
    /// mode.
    ///
    /// In `Frozen` mode readings stay fixed until explicitly advanced; in
    /// `Monotonic` mode they progress naturally from the initial system time.
    pub fn with_progression(progression: MockClockProgression) -> (r: MockNanoClock)
        ensures
            exists|parts: (i64, u32)| #[trigger] call_ensures(utc_now_parts, (), parts) && r@.initial_nanos == parts.0 * 1_000_000_000 + parts.1,
            r@.progression == progression,
            r@.initial_progression == progression,
            r@.epoch_nanos == r@.initial_nanos,
            0 <= r@.initial_nanos <= MAX_UTC_TIMESTAMP * 1_000_000_000 + 999_999_999,
            0 <= r@.monotonic_base_nanos <= MAX_DURATION_NANOS,
            r@.nanos_to_add == 0,
            r@.nanos_to_add_each_time == 0,
            !r@.add_every_time,
    {
        let (seconds, subsec) = utc_now_parts();
        let initial_nanos = datetime_to_nanos(seconds, subsec);
        let monotonic_clock = NanoMonotonicClock::new();
        let monotonic_base_nanos = monotonic_clock.monotonic_nanos();
        MockNanoClock {
            initial_nanos,
            initial_progression: progression,
            epoch_nanos: initial_nanos,
            monotonic_clock,
            monotonic_base_nanos,
            progression,
            nanos_to_add: 0,
            nanos_to_add_each_time: 0,
            add_every_time: false,
        }
    }

    /// Returns the current progression mode.
    pub fn progression(&self) -> (r: MockClockProgression)
        ensures
            r == self@.progression,
    {
        self.progression
    }

    /// Switches the progression mode without changing the current reading.
    ///
    /// The current reading is first folded into the clock's base state, so
    /// changing between frozen and monotonic modes causes no time jump: the
    /// reading at the new monotonic base is the reading folded in.
    pub fn set_progression(&mut self, progression: MockClockProgression)
        ensures
            final(self)@.progression == progression,
            reading_at(final(self)@, final(self)@.monotonic_base_nanos) == final(self)@.epoch_nanos,
            old(self)@.progression == MockClockProgression::Frozen ==> final(self)@.epoch_nanos == reading_at(old(self)@, 0),
            old(self)@.progression == MockClockProgression::Monotonic ==> exists|m: i128| 0 <= m <= MAX_DURATION_NANOS && final(self)@.epoch_nanos == reading_at(old(self)@, m),
            final(self)@.nanos_to_add == 0,
            final(self)@.initial_nanos == old(self)@.initial_nanos,
            final(self)@.initial_progression == old(self)@.initial_progression,
            final(self)@.nanos_to_add_each_time == old(self)@.nanos_to_add_each_time,
            final(self)@.add_every_time == old(self)@.add_every_time,
    {
        self.rebase_at_current();
        self.progression = progression;
    }

    /// Returns whether monotonic progression is enabled.
    pub fn monotonic_progression_enabled(&self) -> (r: bool)
        ensures
            r == (self@.progression == MockClockProgression::Monotonic),
    {
        self.progression().is_monotonic()
    }

    /// Enables (`true`) or disables (`false`) monotonic progression, like
    /// [`set_progression`](Self::set_progression).
    pub fn set_monotonic_progression_enabled(&mut self, enabled: bool)
        ensures
            final(self)@.progression == (if enabled { MockClockProgression::Monotonic } else { MockClockProgression::Frozen }),
            reading_at(final(self)@, final(self)@.monotonic_base_nanos) == final(self)@.epoch_nanos,
            old(self)@.progression == MockClockProgression::Frozen ==> final(self)@.epoch_nanos == reading_at(old(self)@, 0),
            old(self)@.progression == MockClockProgression::Monotonic ==> exists|m: i128| 0 <= m <= MAX_DURATION_NANOS && final(self)@.epoch_nanos == reading_at(old(self)@, m),
            final(self)@.nanos_to_add == 0,
            final(self)@.initial_nanos == old(self)@.initial_nanos,
            final(self)@.initial_progression == old(self)@.initial_progression,
            final(self)@.nanos_to_add_each_time == old(self)@.nanos_to_add_each_time,
            final(self)@.add_every_time == old(self)@.add_every_time,
    {
        let progression = if enabled {
            MockClockProgression::Monotonic
        } else {
            MockClockProgression::Frozen
        };
        self.set_progression(progression);
    }

    /// Adds `nanos` nanoseconds once, or, when `add_every_time` is set,
    /// after every read.
    pub fn add_nanos(&mut self, nanos: i128, add_every_time: bool)
        ensures
            add_every_time ==> final(self)@ == (MockNanoClockView { nanos_to_add_each_time: nanos, add_every_time: true, ..old(self)@ }),
            !add_every_time ==> final(self)@ == (MockNanoClockView { nanos_to_add: clamp_i128(old(self)@.nanos_to_add + nanos) as i128, ..old(self)@ }),
    {
        if add_every_time {
            self.set_auto_advance_nanos(nanos);
        } else {
            self.advance_nanos(nanos);
        }
    }

    /// Advances the clock by `nanos` nanoseconds once, saturating the
    /// accumulated offset at the `i128` bounds.
    pub fn advance_nanos(&mut self, nanos: i128)
        ensures
            final(self)@ == (MockNanoClockView { nanos_to_add: clamp_i128(old(self)@.nanos_to_add + nanos) as i128, ..old(self)@ }),
    {
        self.nanos_to_add = saturating_add_i128(self.nanos_to_add, nanos);
    }

    /// Makes every following read advance the reads after it by `nanos`.
    pub fn set_auto_advance_nanos(&mut self, nanos: i128)
        ensures
            final(self)@ == (MockNanoClockView { nanos_to_add_each_time: nanos, add_every_time: true, ..old(self)@ }),
    {
        self.nanos_to_add_each_time = nanos;
        self.add_every_time = true;
    }

    /// Disables auto-advance, so reads no longer change the clock.
    pub fn clear_auto_advance(&mut self)
        ensures
            final(self)@ == (MockNanoClockView { nanos_to_add_each_time: 0, add_every_time: false, ..old(self)@ }),
    {
        self.nanos_to_add_each_time = 0;
        self.add_every_time = false;
    }

    /// Returns the current reading in nanoseconds since the Unix epoch, then
    /// applies auto-advance to the following reads.
    pub fn nanos(&mut self) -> (r: i128)
        ensures
            old(self)@.progression == MockClockProgression::Frozen ==> r == reading_at(old(self)@, 0),
            old(self)@.progression == MockClockProgression::Monotonic ==> exists|m: i128| 0 <= m <= MAX_DURATION_NANOS && r == reading_at(old(self)@, m),
            old(self)@.add_every_time ==> final(self)@ == (MockNanoClockView { nanos_to_add: clamp_i128(old(self)@.nanos_to_add + old(self)@.nanos_to_add_each_time) as i128, ..old(self)@ }),
            !old(self)@.add_every_time ==> final(self)@ == old(self)@,
    {
        let result = self.current_nanos();
        if self.add_every_time {
            self.nanos_to_add = saturating_add_i128(self.nanos_to_add, self.nanos_to_add_each_time);
        }
        result
    }

    /// Returns the current reading in milliseconds since the Unix epoch,
    /// rounded toward negative infinity, then applies auto-advance.
    pub fn millis(&mut self) -> (r: i64)
        ensures
            old(self)@.progression == MockClockProgression::Frozen ==> r == spec_millis_from_nanos(reading_at(old(self)@, 0) as i128),
            old(self)@.progression == MockClockProgression::Monotonic ==> exists|m: i128| 0 <= m <= MAX_DURATION_NANOS && r == spec_millis_from_nanos(reading_at(old(self)@, m) as i128),
            old(self)@.add_every_time ==> final(self)@ == (MockNanoClockView { nanos_to_add: clamp_i128(old(self)@.nanos_to_add + old(self)@.nanos_to_add_each_time) as i128, ..old(self)@ }),
            !old(self)@.add_every_time ==> final(self)@ == old(self)@,
    {
        millis_from_nanos(self.nanos())
    }

    /// Reanchors the logical time at `seconds` and `subsec_nanos` past the
    /// Unix epoch, keeping the progression mode and auto-advance settings.
    pub fn set_time(&mut self, seconds: i64, subsec_nanos: u32)
        ensures
            final(self)@ == (MockNanoClockView {
                epoch_nanos: spec_datetime_to_nanos(seconds, subsec_nanos) as i128,
                monotonic_base_nanos: final(self)@.monotonic_base_nanos,
                nanos_to_add: 0,
                ..old(self)@
            }),
            0 <= final(self)@.monotonic_base_nanos <= MAX_DURATION_NANOS,
    {
        self.epoch_nanos = datetime_to_nanos(seconds, subsec_nanos);
        self.monotonic_base_nanos = self.monotonic_clock.monotonic_nanos();
        self.nanos_to_add = 0;
    }

    /// Advances the clock once by a signed chrono duration, saturating the
    /// accumulated offset at the `i128` bounds.
    pub fn add_duration(&mut self, duration: TimeDelta)
        ensures
            final(self)@ == (MockNanoClockView { nanos_to_add: clamp_i128(old(self)@.nanos_to_add + spec_nanos_from_delta(time_delta_num_nanoseconds(duration), time_delta_is_negative(duration))) as i128, ..old(self)@ }),
    {
        self.advance_nanos(duration_to_nanos(&duration));
    }

    /// Returns to the creation state: the initial time and progression mode,
    /// no offset, and no auto-advance.
    pub fn reset(&mut self)
        ensures
            final(self)@ == reset_view(old(self)@, final(self)@.monotonic_base_nanos),
            0 <= final(self)@.monotonic_base_nanos <= MAX_DURATION_NANOS,
    {
        self.epoch_nanos = self.initial_nanos;
        self.progression = self.initial_progression;
        self.monotonic_base_nanos = self.monotonic_clock.monotonic_nanos();
        self.nanos_to_add = 0;
        self.nanos_to_add_each_time = 0;
        self.add_every_time = false;
    }
}

/// In frozen mode a read returns exactly the time most recently set, until
/// the clock is advanced.
pub proof fn lemma_frozen_read_after_set_time(v: MockNanoClockView, seconds: i64, subsec_nanos: u32, base: i128)
    requires
        v.progression == MockClockProgression::Frozen,
    ensures
        reading_at(
            MockNanoClockView { epoch_nanos: spec_datetime_to_nanos(seconds, subsec_nanos) as i128, monotonic_base_nanos: base, nanos_to_add: 0, ..v },
            0,
        ) == seconds * 1_000_000_000 + subsec_nanos,
{
}

/// In frozen mode an advance by `nanos` moves the reading by exactly that
/// amount while no sum saturates.
pub proof fn lemma_frozen_advance_moves_reading(v: MockNanoClockView, nanos: i128)
    requires
        v.progression == MockClockProgression::Frozen,
        i128::MIN <= v.nanos_to_add + nanos <= i128::MAX,
        i128::MIN <= v.epoch_nanos + v.nanos_to_add + nanos <= i128::MAX,
        i128::MIN <= v.epoch_nanos + v.nanos_to_add <= i128::MAX,
    ensures
        reading_at(MockNanoClockView { nanos_to_add: (v.nanos_to_add + nanos) as i128, ..v }, 0) == reading_at(v, 0) + nanos,
{
}

impl Default for MockNanoClock {
    /// Creates a clock frozen at the current system time, as
    /// [`MockNanoClock::new`] does.
    fn default() -> (r: Self)
        ensures
            r@.progression == MockClockProgression::Frozen,
            r@.initial_progression == MockClockProgression::Frozen,
            r@.epoch_nanos == r@.initial_nanos,
            r@.nanos_to_add == 0,
            r@.nanos_to_add_each_time == 0,
            !r@.add_every_time,
    {
        Self::new()
    }
}


/// With auto-advance enabled in frozen mode, each read is followed by a
/// read exactly `nanos_to_add_each_time` later, while no sum saturates.
pub proof fn lemma_auto_advance_spacing(v: MockNanoClockView)
    requires
        v.progression == MockClockProgression::Frozen,
        v.add_every_time,
        i128::MIN <= v.nanos_to_add + v.nanos_to_add_each_time <= i128::MAX,
        i128::MIN <= v.epoch_nanos + v.nanos_to_add + v.nanos_to_add_each_time <= i128::MAX,
        i128::MIN <= v.epoch_nanos + v.nanos_to_add <= i128::MAX,
    ensures
        reading_at(
            MockNanoClockView { nanos_to_add: clamp_i128(v.nanos_to_add + v.nanos_to_add_each_time) as i128, ..v },
            0,
        ) == reading_at(v, 0) + v.nanos_to_add_each_time,
{
    lemma_frozen_advance_moves_reading(v, v.nanos_to_add_each_time);
}


/// The state [`MockNanoClock::reset`] leaves behind, with `base` the fresh
/// monotonic base it takes.
pub open spec fn reset_view(v: MockNanoClockView, base: i128) -> MockNanoClockView {
    MockNanoClockView {
        epoch_nanos: v.initial_nanos,
        progression: v.initial_progression,
        monotonic_base_nanos: base,
        nanos_to_add: 0,
        nanos_to_add_each_time: 0,
        add_every_time: false,
        ..v
    }
}

/// Whatever control calls happened after a frozen clock was created, a
/// reset restores its frozen mode and the reading it gave at creation.
pub proof fn lemma_reset_restores_initial_reading(created: MockNanoClockView, later: MockNanoClockView, base: i128, m: i128)
    requires
        created.progression == MockClockProgression::Frozen,
        created.initial_progression == MockClockProgression::Frozen,
        created.epoch_nanos == created.initial_nanos,
        created.nanos_to_add == 0,
        later.initial_nanos == created.initial_nanos,
        later.initial_progression == created.initial_progression,
    ensures
        reset_view(later, base).progression == MockClockProgression::Frozen,
        reading_at(reset_view(later, base), m) == reading_at(created, 0),
        reading_at(created, 0) == created.initial_nanos,
{
}


/// In either progression mode, while no sum saturates, a reading is the
/// epoch plus the monotonic time passed since the base (in monotonic mode
/// only) plus the added offset; so at the same monotonic reading an advance
/// by `nanos` moves the reading by exactly `nanos`.
pub proof fn lemma_advance_moves_reading(v: MockNanoClockView, m: i128, nanos: i128)
    requires
        ({
            let e = if v.progression == MockClockProgression::Monotonic { m - v.monotonic_base_nanos } else { 0 };
            &&& i128::MIN <= e <= i128::MAX
            &&& i128::MIN <= v.epoch_nanos + e <= i128::MAX
            &&& i128::MIN <= v.epoch_nanos + e + v.nanos_to_add <= i128::MAX
            &&& i128::MIN <= v.nanos_to_add + nanos <= i128::MAX
            &&& i128::MIN <= v.epoch_nanos + e + v.nanos_to_add + nanos <= i128::MAX
        }),
    ensures
        v.progression == MockClockProgression::Monotonic ==> reading_at(v, m) == v.epoch_nanos + (m - v.monotonic_base_nanos) + v.nanos_to_add,
        v.progression == MockClockProgression::Frozen ==> reading_at(v, m) == v.epoch_nanos + v.nanos_to_add,
        reading_at(MockNanoClockView { nanos_to_add: (v.nanos_to_add + nanos) as i128, ..v }, m) == reading_at(v, m) + nanos,
{
}

} // verus!
