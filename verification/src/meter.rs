//! Stopwatches that measure elapsed time with a clock.
use crate::arith::{clamp, saturating_sub_i128, saturating_sub_i64};
use crate::clock::{millis_reading, nanos_reading, Clock, NanoClock};
use crate::format::{format_duration_millis, format_duration_nanos, millis_text, nanos_text};
use crate::monotonic::MonotonicClock;
use crate::nano_monotonic::NanoMonotonicClock;
use vstd::prelude::*;

verus! {

/// Division of `a` by the positive `b`, rounding toward zero.
pub open spec fn trunc_div(a: int, b: int) -> int {
    if a >= 0 { a / b } else { -((-a) / b) }
}

/// Divides by a positive divisor, rounding toward zero.
fn div_toward_zero(a: i128, b: i128) -> (r: i128)
    requires
        b > 1,
    ensures
        r == trunc_div(a as int, b as int),
{
    a / b
}

/// The time a stopwatch shows, given its start and end readings: zero
/// before it starts, the saturating difference once it stops, and the
/// difference from `now` while it runs.
pub open spec fn shown_elapsed(start: Option<int>, end: Option<int>, now: int, lo: int, hi: int) -> int {
    match start {
        None => 0,
        Some(s) => match end {
            Some(e) => clamp(e - s, lo, hi),
            None => clamp(now - s, lo, hi),
        },
    }
}

/// A stopwatch with millisecond precision.
///
/// It starts stopped and unstarted; `start` records a reading of its clock,
/// `stop` records another, and the elapsed time runs from the first to the
/// second, or to the present while it is running. Differences saturate at
/// the `i64` bounds.
pub struct TimeMeter<C: Clock> {
    clock: C,
    start_time: Option<i64>,
    end_time: Option<i64>,
}

/// The milliseconds a stopwatch shows while its clock reads `now`.
pub open spec fn meter_elapsed<C: Clock>(m: &TimeMeter<C>, now: int) -> int {
    shown_elapsed(opt_int(m.spec_start()), opt_int(m.spec_end()), now, i64::MIN as int, i64::MAX as int)
}

/// Whether the shown time does not depend on the clock's next reading.
pub open spec fn meter_settled<C: Clock>(m: &TimeMeter<C>) -> bool {
    m.spec_end() is Some || m.spec_start() is None
}

/// Whether the stopwatch may show `shown` milliseconds: exactly its settled
/// time, or, while it runs, the time from the start to some reading of its
/// clock.
pub open spec fn meter_shows<C: Clock>(m: &TimeMeter<C>, shown: int) -> bool {
    if meter_settled(m) {
        shown == meter_elapsed(m, 0)
    } else {
        exists|now: i64| #[trigger] millis_reading(&m.spec_clock(), now) && shown == meter_elapsed(m, now as int)
    }
}

impl<C: Clock> TimeMeter<C> {
    /// The reading recorded at the start, if started.
    pub closed spec fn spec_start(&self) -> Option<i64> {
        self.start_time
    }

    /// The reading recorded at the stop, if stopped.
    pub closed spec fn spec_end(&self) -> Option<i64> {
        self.end_time
    }

    /// The clock the meter reads.
    pub closed spec fn spec_clock(&self) -> C {
        self.clock
    }

    /// Creates an unstarted meter that reads `clock`.
    pub fn with_clock(clock: C) -> (r: Self)
        ensures
            r.spec_start() is None,
            r.spec_end() is None,
            r.spec_clock() == clock,
    {
        TimeMeter { clock, start_time: None, end_time: None }
    }

    /// Creates a meter that reads `clock` and starts it at once.
    pub fn with_clock_started(clock: C) -> (r: Self)
        ensures
            r.spec_start() matches Some(s) && millis_reading(&clock, s),
            r.spec_end() is None,
            r.spec_clock() == clock,
    {
        let mut meter = Self::with_clock(clock);
        meter.start();
        meter
    }

    /// Starts, or restarts, timing from the current reading.
    pub fn start(&mut self)
        ensures
            final(self).spec_start() matches Some(s) && millis_reading(&old(self).spec_clock(), s),
            final(self).spec_end() is None,
            final(self).spec_clock() == old(self).spec_clock(),
    {
        self.start_time = Some(self.clock.millis());
        self.end_time = None;
    }

    /// Stops timing at the current reading.
    pub fn stop(&mut self)
        ensures
            final(self).spec_end() matches Some(e) && millis_reading(&old(self).spec_clock(), e),
            final(self).spec_start() == old(self).spec_start(),
            final(self).spec_clock() == old(self).spec_clock(),
    {
        self.end_time = Some(self.clock.millis());
    }

    /// Returns to the unstarted state.
    pub fn reset(&mut self)
        ensures
            final(self).spec_start() is None,
            final(self).spec_end() is None,
            final(self).spec_clock() == old(self).spec_clock(),
    {
        self.start_time = None;
        self.end_time = None;
    }

    /// Resets and starts timing again.
    pub fn restart(&mut self)
        ensures
            final(self).spec_start() matches Some(s) && millis_reading(&old(self).spec_clock(), s),
            final(self).spec_end() is None,
            final(self).spec_clock() == old(self).spec_clock(),
    {
        self.reset();
        self.start();
    }

    /// Returns the elapsed milliseconds: zero before the start, the time
    /// between start and stop once stopped, and the time since the start
    /// while running.
    pub fn millis(&self) -> (r: i64)
        ensures
            meter_shows(self, r as int),
    {
        let start = match self.start_time {
            Some(t) => t,
            None => {
                assert(0 == meter_elapsed(self, 0));
                return 0;
            },
        };
        let end = match self.end_time {
            Some(t) => t,
            None => {
                let now = self.clock.millis();
                assert(millis_reading(&self.spec_clock(), now));
                now
            },
        };
        let r = saturating_sub_i64(end, start);
        assert(r == meter_elapsed(self, end as int));
        r
    }

    /// Returns the elapsed whole seconds, rounded toward zero.
    pub fn seconds(&self) -> (r: i64)
        ensures
            exists|m: i64| r == trunc_div(m as int, 1000) && #[trigger] meter_shows(self, m as int),
    {
        let m = self.millis();
        div_toward_zero(m as i128, 1000) as i64
    }

    /// Returns the elapsed whole minutes, rounded toward zero.
    pub fn minutes(&self) -> (r: i64)
        ensures
            exists|m: i64| r == trunc_div(m as int, 60_000) && #[trigger] meter_shows(self, m as int),
    {
        let m = self.millis();
        div_toward_zero(m as i128, 60_000) as i64
    }

    /// Returns the elapsed time formatted for humans, as
    /// [`format_duration_millis`] does.
    pub fn readable_duration(&self) -> (r: String)
        ensures
            exists|m: i64| r@ == millis_text(m as int) && #[trigger] meter_shows(self, m as int),
    {
        format_duration_millis(self.millis())
    }

    /// Returns whether the meter has started and not stopped.
    pub fn is_running(&self) -> (r: bool)
        ensures
            r == (self.spec_start() is Some && self.spec_end() is None),
    {
        self.start_time.is_some() && self.end_time.is_none()
    }

    /// Returns whether the meter has stopped.
    pub fn is_stopped(&self) -> (r: bool)
        ensures
            r == self.spec_end() is Some,
    {
        self.end_time.is_some()
    }

    /// Returns the clock the meter reads.
    pub fn clock(&self) -> (r: &C)
        ensures
            *r == self.spec_clock(),
    {
        &self.clock
    }

    /// Returns the clock the meter reads, for the caller to adjust; the
    /// recorded readings stay as they are.
    pub fn clock_mut(&mut self) -> (r: &mut C)
        ensures
            *r == old(self).spec_clock(),
            final(self).spec_clock() == *final(r),
            final(self).spec_start() == old(self).spec_start(),
            final(self).spec_end() == old(self).spec_end(),
    {
        &mut self.clock
    }
}

impl TimeMeter<MonotonicClock> {
    /// Creates an unstarted meter on a fresh monotonic clock.
    pub fn new() -> (r: Self)
        ensures
            r.spec_start() is None,
            r.spec_end() is None,
    {
        Self::with_clock(MonotonicClock::new())
    }

    /// Creates a meter on a fresh monotonic clock and starts it.
    pub fn start_now() -> (r: Self)
        ensures
            r.spec_start() matches Some(s) && millis_reading(&r.spec_clock(), s),
            r.spec_end() is None,
    {
        Self::with_clock_started(MonotonicClock::new())
    }
}

/// A stopwatch with nanosecond precision.
///
/// It behaves as [`TimeMeter`] but reads nanoseconds; differences saturate
/// at the `i128` bounds.
pub struct NanoTimeMeter<C: NanoClock> {
    clock: C,
    start_time: Option<i128>,
    end_time: Option<i128>,
}

/// The nanoseconds a nano stopwatch shows while its clock reads `now`.
pub open spec fn nano_elapsed<C: NanoClock>(m: &NanoTimeMeter<C>, now: int) -> int {
    shown_elapsed(opt_int(m.spec_start()), opt_int(m.spec_end()), now, i128::MIN as int, i128::MAX as int)
}

/// Whether the shown time does not depend on the clock's next reading.
pub open spec fn nano_settled<C: NanoClock>(m: &NanoTimeMeter<C>) -> bool {
    m.spec_end() is Some || m.spec_start() is None
}

/// Whether the stopwatch may show `shown` nanoseconds: exactly its settled
/// time, or, while it runs, the time from the start to some reading of its
/// clock.
pub open spec fn nano_shows<C: NanoClock>(m: &NanoTimeMeter<C>, shown: int) -> bool {
    if nano_settled(m) {
        shown == nano_elapsed(m, 0)
    } else {
        exists|now: i128| #[trigger] nanos_reading(&m.spec_clock(), now) && shown == nano_elapsed(m, now as int)
    }
}

impl<C: NanoClock> NanoTimeMeter<C> {
    /// The reading recorded at the start, if started.
    pub closed spec fn spec_start(&self) -> Option<i128> {
        self.start_time
    }

    /// The reading recorded at the stop, if stopped.
    pub closed spec fn spec_end(&self) -> Option<i128> {
        self.end_time
    }

    /// The clock the meter reads.
    pub closed spec fn spec_clock(&self) -> C {
        self.clock
    }

    /// Creates an unstarted meter that reads `clock`.
    pub fn with_clock(clock: C) -> (r: Self)
        ensures
            r.spec_start() is None,
            r.spec_end() is None,
            r.spec_clock() == clock,
    {
        NanoTimeMeter { clock, start_time: None, end_time: None }
    }

    /// Creates a meter that reads `clock` and starts it at once.
    pub fn with_clock_started(clock: C) -> (r: Self)
        ensures
            r.spec_start() matches Some(s) && nanos_reading(&clock, s),
            r.spec_end() is None,
            r.spec_clock() == clock,
    {
        let mut meter = Self::with_clock(clock);
        meter.start();
        meter
    }

    /// Starts, or restarts, timing from the current reading.
    pub fn start(&mut self)
        ensures
            final(self).spec_start() matches Some(s) && nanos_reading(&old(self).spec_clock(), s),
            final(self).spec_end() is None,
            final(self).spec_clock() == old(self).spec_clock(),
    {
        self.start_time = Some(self.clock.nanos());
        self.end_time = None;
    }

    /// Stops timing at the current reading.
    pub fn stop(&mut self)
        ensures
            final(self).spec_end() matches Some(e) && nanos_reading(&old(self).spec_clock(), e),
            final(self).spec_start() == old(self).spec_start(),
            final(self).spec_clock() == old(self).spec_clock(),
    {
        self.end_time = Some(self.clock.nanos());
    }

    /// Returns to the unstarted state.
    pub fn reset(&mut self)
        ensures
            final(self).spec_start() is None,
            final(self).spec_end() is None,
            final(self).spec_clock() == old(self).spec_clock(),
    {
        self.start_time = None;
        self.end_time = None;
    }

    /// Resets and starts timing again.
    pub fn restart(&mut self)
        ensures
            final(self).spec_start() matches Some(s) && nanos_reading(&old(self).spec_clock(), s),
            final(self).spec_end() is None,
            final(self).spec_clock() == old(self).spec_clock(),
    {
        self.reset();
        self.start();
    }

    /// Returns the elapsed nanoseconds: zero before the start, the time
    /// between start and stop once stopped, and the time since the start
    /// while running.
    pub fn nanos(&self) -> (r: i128)
        ensures
            nano_shows(self, r as int),
    {
        let start = match self.start_time {
            Some(t) => t,
            None => {
                assert(0 == nano_elapsed(self, 0));
                return 0;
            },
        };
        let end = match self.end_time {
            Some(t) => t,
            None => {
                let now = self.clock.nanos();
                assert(nanos_reading(&self.spec_clock(), now));
                now
            },
        };
        let r = saturating_sub_i128(end, start);
        assert(r == nano_elapsed(self, end as int));
        r
    }

    /// Returns the elapsed whole microseconds, rounded toward zero.
    pub fn micros(&self) -> (r: i128)
        ensures
            exists|n: i128| r == trunc_div(n as int, 1000) && #[trigger] nano_shows(self, n as int),
    {
        div_toward_zero(self.nanos(), 1000)
    }

    /// Returns the elapsed whole milliseconds, rounded toward zero and cut
    /// to 64 bits.
    pub fn millis(&self) -> (r: i64)
        ensures
            exists|n: i128| r == trunc_div(n as int, 1_000_000) as i64 && #[trigger] nano_shows(self, n as int),
    {
        #[verifier::truncate]
        (div_toward_zero(self.nanos(), 1_000_000) as i64)
    }

    /// Returns the elapsed whole seconds, rounded toward zero and cut to 64
    /// bits.
    pub fn seconds(&self) -> (r: i64)
        ensures
            exists|n: i128| r == trunc_div(n as int, 1_000_000_000) as i64 && #[trigger] nano_shows(self, n as int),
    {
        #[verifier::truncate]
        (div_toward_zero(self.nanos(), 1_000_000_000) as i64)
    }

    /// Returns the elapsed whole minutes, rounded toward zero and cut to 64
    /// bits.
    pub fn minutes(&self) -> (r: i64)
        ensures
            exists|n: i128| r == trunc_div(n as int, 60_000_000_000) as i64 && #[trigger] nano_shows(self, n as int),
    {
        #[verifier::truncate]
        (div_toward_zero(self.nanos(), 60_000_000_000) as i64)
    }

    /// Returns the elapsed time formatted for humans, as
    /// [`format_duration_nanos`] does.
    pub fn readable_duration(&self) -> (r: String)
        ensures
            exists|n: i128| r@ == nanos_text(n as int) && #[trigger] nano_shows(self, n as int),
    {
        format_duration_nanos(self.nanos())
    }

    /// Returns whether the meter has started and not stopped.
    pub fn is_running(&self) -> (r: bool)
        ensures
            r == (self.spec_start() is Some && self.spec_end() is None),
    {
        self.start_time.is_some() && self.end_time.is_none()
    }

    /// Returns whether the meter has stopped.
    pub fn is_stopped(&self) -> (r: bool)
        ensures
            r == self.spec_end() is Some,
    {
        self.end_time.is_some()
    }

    /// Returns the clock the meter reads.
    pub fn clock(&self) -> (r: &C)
        ensures
            *r == self.spec_clock(),
    {
        &self.clock
    }

    /// Returns the clock the meter reads, for the caller to adjust; the
    /// recorded readings stay as they are.
    pub fn clock_mut(&mut self) -> (r: &mut C)
        ensures
            *r == old(self).spec_clock(),
            final(self).spec_clock() == *final(r),
            final(self).spec_start() == old(self).spec_start(),
            final(self).spec_end() == old(self).spec_end(),
    {
        &mut self.clock
    }
}

impl NanoTimeMeter<NanoMonotonicClock> {
    /// Creates an unstarted meter on a fresh monotonic clock.
    pub fn new() -> (r: Self)
        ensures
            r.spec_start() is None,
            r.spec_end() is None,
    {
        Self::with_clock(NanoMonotonicClock::new())
    }

    /// Creates a meter on a fresh monotonic clock and starts it.
    pub fn start_now() -> (r: Self)
        ensures
            r.spec_start() matches Some(s) && nanos_reading(&r.spec_clock(), s),
            r.spec_end() is None,
    {
        Self::with_clock_started(NanoMonotonicClock::new())
    }
}

/// An optional integer reading as an optional mathematical integer.
pub open spec fn opt_int<T: Integer>(o: Option<T>) -> Option<int> {
    match o {
        Some(v) => Some(v as int),
        None => None,
    }
}

impl Default for TimeMeter<MonotonicClock> {
    /// Creates an unstarted meter on a fresh monotonic clock.
    fn default() -> (r: Self)
        ensures
            r.spec_start() is None,
            r.spec_end() is None,
    {
        Self::new()
    }
}

impl Default for NanoTimeMeter<NanoMonotonicClock> {
    /// Creates an unstarted meter on a fresh monotonic clock.
    fn default() -> (r: Self)
        ensures
            r.spec_start() is None,
            r.spec_end() is None,
    {
        Self::new()
    }
}

} // verus!
