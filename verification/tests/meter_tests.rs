use qubit_clock::advance_registry::ManualAdvanceRegistry;
use qubit_clock::clock::{Clock, NanoClock};
use qubit_clock::meter::{NanoTimeMeter, TimeMeter};
use qubit_clock::monotonic::MonotonicClock;
use qubit_clock::nano_monotonic::NanoMonotonicClock;
use std::cell::Cell;

/// A clock that reports a scripted sequence of readings.
struct ScriptedClock {
    readings: Vec<i128>,
    next: Cell<usize>,
}

impl ScriptedClock {
    fn new(readings: Vec<i128>) -> Self {
        ScriptedClock { readings, next: Cell::new(0) }
    }

    fn read(&self) -> i128 {
        let i = self.next.get();
        self.next.set(i + 1);
        self.readings[i]
    }
}

impl Clock for ScriptedClock {
    fn millis(&self) -> i64 {
        self.read() as i64
    }
}

impl NanoClock for ScriptedClock {
    fn nanos(&self) -> i128 {
        self.read()
    }
}

#[test]
fn time_meter_measures_between_start_and_stop() {
    let mut meter = TimeMeter::with_clock(ScriptedClock::new(vec![1_000, 66_500, 70_000]));
    assert_eq!(meter.millis(), 0);
    assert!(!meter.is_running());
    assert!(!meter.is_stopped());
    meter.start();
    assert!(meter.is_running());
    meter.stop();
    assert!(meter.is_stopped());
    assert!(!meter.is_running());
    assert_eq!(meter.millis(), 65_500);
    assert_eq!(meter.seconds(), 65);
    assert_eq!(meter.minutes(), 1);
    assert_eq!(meter.readable_duration(), "1m 6s");
    meter.reset();
    assert_eq!(meter.millis(), 0);
    assert!(!meter.is_stopped());
}

#[test]
fn time_meter_running_reads_the_clock() {
    let meter = TimeMeter::with_clock_started(ScriptedClock::new(vec![10, 250]));
    assert_eq!(meter.millis(), 240);
}

#[test]
fn time_meter_negative_interval_rounds_toward_zero() {
    let mut meter = TimeMeter::with_clock(ScriptedClock::new(vec![5_000, 3_500]));
    meter.start();
    meter.stop();
    assert_eq!(meter.millis(), -1_500);
    assert_eq!(meter.seconds(), -1);
    assert_eq!(meter.readable_duration(), "0 ms");
}

#[test]
fn time_meter_saturates_extreme_readings() {
    let mut meter = TimeMeter::with_clock(ScriptedClock::new(vec![i64::MIN as i128, i64::MAX as i128]));
    meter.start();
    meter.stop();
    assert_eq!(meter.millis(), i64::MAX);
}

#[test]
fn time_meter_restart() {
    let mut meter = TimeMeter::with_clock(ScriptedClock::new(vec![0, 100, 150, 400]));
    meter.start();
    meter.stop();
    assert_eq!(meter.millis(), 100);
    meter.restart();
    assert!(meter.is_running());
    meter.stop();
    assert_eq!(meter.millis(), 250);
}

#[test]
fn nano_meter_units() {
    let mut meter = NanoTimeMeter::with_clock(ScriptedClock::new(vec![0, 61_500_000_000]));
    meter.start();
    meter.stop();
    assert_eq!(meter.nanos(), 61_500_000_000);
    assert_eq!(meter.micros(), 61_500_000);
    assert_eq!(meter.millis(), 61_500);
    assert_eq!(meter.seconds(), 61);
    assert_eq!(meter.minutes(), 1);
    assert_eq!(meter.readable_duration(), "1m 2s");
}

#[test]
fn nano_meter_unstarted_and_restarted() {
    let mut meter = NanoTimeMeter::with_clock(ScriptedClock::new(vec![5, 1_505, 2_000, 2_750]));
    assert_eq!(meter.nanos(), 0);
    meter.start();
    meter.stop();
    assert_eq!(meter.readable_duration(), "1.5 μs");
    meter.restart();
    meter.stop();
    assert_eq!(meter.nanos(), 750);
}

#[test]
fn default_meters_run_on_real_clocks() {
    let mut meter = TimeMeter::start_now();
    assert!(meter.is_running());
    meter.stop();
    assert!(meter.millis() >= 0);
    let mut nano = NanoTimeMeter::start_now();
    nano.stop();
    assert!(nano.nanos() >= 0);
    assert_eq!(TimeMeter::<MonotonicClock>::new().millis(), 0);
    assert_eq!(NanoTimeMeter::<NanoMonotonicClock>::default().nanos(), 0);
}

#[test]
fn monotonic_clocks_never_go_back() {
    let clock = MonotonicClock::new();
    let a = clock.millis();
    let b = clock.millis();
    assert!(b >= a);
    assert!(a > 1_600_000_000_000);
    let nano = NanoMonotonicClock::new();
    let x = nano.nanos();
    let y = nano.nanos();
    assert!(y >= x);
    assert!(nano.monotonic_nanos() >= 0);
    assert!(nano.millis() > 1_600_000_000_000);
}

#[test]
fn advance_registry_hands_out_fresh_identifiers() {
    let mut registry: ManualAdvanceRegistry<u32> = ManualAdvanceRegistry::new();
    let a = registry.register(10);
    let b = registry.register(20);
    assert_eq!((a, b), (1, 2));
    let mut all = registry.callbacks();
    all.sort();
    assert_eq!(all, vec![10, 20]);
    assert_eq!(registry.unregister(a), Some(10));
    assert_eq!(registry.unregister(a), None);
    assert_eq!(registry.register(30), 3);
    let mut all = registry.callbacks();
    all.sort();
    assert_eq!(all, vec![20, 30]);
}
