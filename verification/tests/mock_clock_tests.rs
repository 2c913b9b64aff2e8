use chrono::TimeDelta;
use qubit_clock::elapsed_mock_clock::MockClock as RunningMockClock;
use qubit_clock::mock_clock::MockClock;
use qubit_clock::mock_nano_clock::{datetime_to_nanos, duration_to_nanos, millis_from_nanos, MockNanoClock};
use qubit_clock::progression::MockClockProgression;

#[test]
fn progression_defaults_to_frozen() {
    assert_eq!(MockClockProgression::default(), MockClockProgression::Frozen);
    assert!(MockClockProgression::Monotonic.is_monotonic());
    assert!(!MockClockProgression::Frozen.is_monotonic());
}

#[test]
fn nano_clock_is_frozen_by_default() {
    let mut clock = MockNanoClock::new();
    assert_eq!(clock.progression(), MockClockProgression::Frozen);
    assert!(!clock.monotonic_progression_enabled());
    let a = clock.nanos();
    let b = clock.nanos();
    assert_eq!(a, b);
    assert!(a > 1_600_000_000_000_000_000);
}

#[test]
fn nano_clock_reads_back_the_time_set() {
    let mut clock = MockNanoClock::new();
    clock.set_time(1_704_067_200, 5);
    assert_eq!(clock.nanos(), 1_704_067_200_000_000_005);
    assert_eq!(clock.millis(), 1_704_067_200_000);
    clock.advance_nanos(1_000);
    assert_eq!(clock.nanos(), 1_704_067_200_000_001_005);
    clock.add_duration(TimeDelta::milliseconds(2));
    assert_eq!(clock.nanos(), 1_704_067_200_002_001_005);
}

#[test]
fn nano_clock_auto_advance() {
    let mut clock = MockNanoClock::new();
    clock.set_time(0, 0);
    clock.add_nanos(100, true);
    let t1 = clock.nanos();
    let t2 = clock.nanos();
    assert_eq!(t2 - t1, 100);
    clock.clear_auto_advance();
    let t3 = clock.nanos();
    let t4 = clock.nanos();
    assert_eq!(t3, t4);
    assert_eq!(t3, 200);
    clock.add_nanos(7, false);
    assert_eq!(clock.nanos(), 207);
}

#[test]
fn nano_clock_reset_restores_creation_state() {
    let mut clock = MockNanoClock::with_progression(MockClockProgression::Frozen);
    let initial = clock.nanos();
    clock.set_time(12, 0);
    clock.set_auto_advance_nanos(3);
    clock.set_progression(MockClockProgression::Monotonic);
    clock.reset();
    assert_eq!(clock.progression(), MockClockProgression::Frozen);
    assert_eq!(clock.nanos(), initial);
    assert_eq!(clock.nanos(), initial);
}

#[test]
fn nano_clock_switching_progression_keeps_the_reading() {
    let mut clock = MockNanoClock::new();
    clock.set_time(100, 0);
    clock.advance_nanos(50);
    clock.set_monotonic_progression_enabled(true);
    assert!(clock.monotonic_progression_enabled());
    let r = clock.nanos();
    assert!(r >= 100_000_000_050);
    assert!(r < 100_000_000_050 + 60_000_000_000);
    clock.set_monotonic_progression_enabled(false);
    let frozen = clock.nanos();
    assert_eq!(clock.nanos(), frozen);
    assert!(frozen >= r);
}

#[test]
fn nano_conversions() {
    assert_eq!(datetime_to_nanos(-1, 999_999_999), -1);
    assert_eq!(datetime_to_nanos(i64::MAX, 0), i64::MAX as i128 * 1_000_000_000);
    assert_eq!(millis_from_nanos(-1), -1);
    assert_eq!(millis_from_nanos(1_999_999), 1);
    assert_eq!(millis_from_nanos(-1_000_000), -1);
    assert_eq!(millis_from_nanos(-1_000_001), -2);
    assert_eq!(millis_from_nanos(i128::MAX), i64::MAX);
    assert_eq!(millis_from_nanos(i128::MIN), i64::MIN);
    assert_eq!(duration_to_nanos(&TimeDelta::nanoseconds(-5)), -5);
    assert_eq!(duration_to_nanos(&TimeDelta::seconds(3)), 3_000_000_000);
    assert_eq!(duration_to_nanos(&TimeDelta::MAX), i128::MAX);
    assert_eq!(duration_to_nanos(&TimeDelta::MIN), i128::MIN);
}

#[test]
fn milli_clock_documented_behavior() {
    let mut clock = MockClock::new();
    let before = clock.millis();
    clock.add_millis(1000, false);
    assert_eq!(clock.millis(), before + 1000);
    clock.add_millis(100, true);
    let t1 = clock.millis();
    let t2 = clock.millis();
    assert_eq!(t2 - t1, 100);
    clock.clear_auto_advance();
    let t3 = clock.millis();
    let t4 = clock.millis();
    assert_eq!(t3, t4);
}

#[test]
fn milli_clock_set_time_advance_and_reset() {
    let mut clock = MockClock::default();
    let initial = clock.millis();
    clock.set_time_millis(1_704_067_200_000);
    assert_eq!(clock.millis(), 1_704_067_200_000);
    clock.add_duration(TimeDelta::hours(1));
    assert_eq!(clock.millis(), 1_704_070_800_000);
    clock.advance_millis(i64::MAX);
    assert_eq!(clock.millis(), i64::MAX);
    clock.reset();
    assert_eq!(clock.millis(), initial);
    clock.set_progression(MockClockProgression::Monotonic);
    assert_eq!(clock.progression(), MockClockProgression::Monotonic);
    assert!(clock.millis() >= initial);
}

#[test]
fn running_clock_follows_set_time() {
    let mut clock = RunningMockClock::new();
    clock.set_time_millis(5_000);
    let r = clock.millis();
    assert!(r >= 5_000 && r < 65_000);
    clock.add_millis(1_000, false);
    assert!(clock.millis() >= 6_000);
    clock.add_duration(TimeDelta::seconds(1));
    assert!(clock.millis() >= 7_000);
    clock.set_auto_advance_millis(10);
    let a = clock.millis();
    let b = clock.millis();
    assert!(b >= a + 10);
    clock.reset();
    let mut other = RunningMockClock::default();
    assert!(other.millis() > 0);
}
