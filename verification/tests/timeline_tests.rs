use chrono::TimeDelta;
use qubit_clock::error::MockTimeError;
use qubit_clock::mock_timeline::{next_mock_timeline_id, MockInstant, MockTimeline, MockWaiterKind};
use qubit_clock::real_time_wait::RealTimeWait;
use qubit_clock::timeline_clock::{timeline_elapsed_i128, MockClockAnchor};
use qubit_clock::wall_time::{utc_parts_from_millis, utc_parts_from_nanos, utc_parts_or_epoch, MIN_UTC_TIMESTAMP};
use qubit_clock::time_source::MAX_UTC_TIMESTAMP;
use std::time::Duration;

fn timeline() -> MockTimeline {
    let mut next = 1u64;
    MockTimeline::new(&mut next)
}

#[test]
fn timeline_ids_are_sequential() {
    let mut next = 7u64;
    assert_eq!(next_mock_timeline_id(&mut next), 7);
    assert_eq!(next_mock_timeline_id(&mut next), 8);
    let t = MockTimeline::new(&mut next);
    assert_eq!(t.id(), 9);
    assert_eq!(next, 10);
}

#[test]
fn timeline_advances_and_counts_events() {
    let mut t = timeline();
    assert_eq!(t.elapsed(), Duration::ZERO);
    assert_eq!(t.event_epoch(), 0);
    assert_eq!(t.advance(Duration::from_millis(1500)), 1);
    assert_eq!(t.elapsed(), Duration::from_millis(1500));
    assert_eq!(t.elapsed_nanos(), 1_500_000_000);
    assert_eq!(t.now().nanos_since_origin(), 1_500_000_000);
    assert_eq!(t.now().timeline_id(), t.id());
    assert_eq!(t.notify_external_change(), 2);
    assert_eq!(t.elapsed_nanos(), 1_500_000_000);
    assert!(t.event_after(1));
    assert!(!t.event_after(2));
    assert!(t.try_advance_by_delta(&TimeDelta::milliseconds(500)));
    assert_eq!(t.elapsed(), Duration::from_secs(2));
    assert!(!t.try_advance_by_delta(&TimeDelta::milliseconds(-1)));
    assert_eq!(t.elapsed(), Duration::from_secs(2));
}

#[test]
fn timeline_reset_refuses_active_waiters() {
    let mut t = timeline();
    t.advance(Duration::from_secs(3));
    let deadline = t.relative_deadline(Duration::from_secs(1));
    assert_eq!(t.begin_wait(deadline, MockWaiterKind::Sleep), Ok(true));
    assert_eq!(t.waiter_count(MockWaiterKind::Sleep), 1);
    assert_eq!(t.waiter_count(MockWaiterKind::Deadline), 0);
    assert_eq!(t.reset(), Err(MockTimeError::ActiveWaiters));
    assert_eq!(t.elapsed(), Duration::from_secs(3));
    assert!(!t.reached(deadline));
    t.advance(Duration::from_secs(1));
    assert!(t.reached(deadline));
    t.finish_wait(MockWaiterKind::Sleep);
    assert_eq!(t.waiter_count(MockWaiterKind::Sleep), 0);
    assert!(t.reset().is_ok());
    assert_eq!(t.elapsed(), Duration::ZERO);
}

#[test]
fn timeline_waits_check_their_instant() {
    let mut t = timeline();
    let mut next = 50u64;
    let other = MockTimeline::new(&mut next);
    let foreign = other.now();
    assert_eq!(
        t.begin_wait(foreign, MockWaiterKind::Deadline),
        Err(MockTimeError::MismatchedTimeline { expected: t.id(), actual: 50 })
    );
    assert_eq!(t.begin_wait(t.now(), MockWaiterKind::Deadline), Ok(false));
    assert_eq!(t.waiter_count(MockWaiterKind::Deadline), 0);
    t.increment_waiter(MockWaiterKind::Deadline);
    t.decrement_waiter(MockWaiterKind::Deadline);
    t.decrement_waiter(MockWaiterKind::Deadline);
    assert_eq!(t.waiter_count(MockWaiterKind::Deadline), 0);
    assert!(matches!(t.blocked_waiters_step(MockWaiterKind::Sleep, 0, None, false), RealTimeWait::Ready(())));
    assert!(matches!(t.blocked_waiters_step(MockWaiterKind::Sleep, 1, None, false), RealTimeWait::TimedOut));
    assert!(matches!(
        t.blocked_waiters_step(MockWaiterKind::Sleep, 1, Some(Duration::from_millis(3)), false),
        RealTimeWait::Sleep(d) if d == Duration::from_millis(3)
    ));
}

#[test]
fn mock_instants_order_within_one_timeline() {
    let a = MockInstant::from_nanos_since_origin(1, 10);
    let b = MockInstant::from_nanos_since_origin(1, 20);
    let c = MockInstant::from_nanos_since_origin(2, 20);
    assert!(a < b);
    assert_eq!(a.partial_cmp(&c), None);
    assert_eq!(a.saturating_add(Duration::from_nanos(10)), b);
    let top = MockInstant::from_nanos_since_origin(1, u128::MAX - 1);
    assert_eq!(top.saturating_add(Duration::from_secs(1)).nanos_since_origin(), u128::MAX);
}

#[test]
fn mock_time_error_messages() {
    assert_eq!(MockTimeError::ActiveWaiters.message(), "mock timeline has active waiters");
    assert_eq!(
        MockTimeError::MismatchedTimeline { expected: 3, actual: 12 }.message(),
        "mock instant belongs to timeline 12, but timeline 3 was expected"
    );
}

#[test]
fn clock_on_a_timeline_reads_back_set_time_and_follows_advances() {
    let mut t = timeline();
    t.advance(Duration::from_secs(10));
    let mut anchor = MockClockAnchor::with_timeline(1_000_000_000_000, t.elapsed_nanos());
    assert_eq!(anchor.current_nanos(t.elapsed_nanos()), 1_000_000_000_000);
    t.advance(Duration::from_millis(1));
    assert_eq!(anchor.current_nanos(t.elapsed_nanos()), 1_000_001_000_000);
    assert_eq!(anchor.millis(t.elapsed_nanos()), 1_000_001);
    assert_eq!(anchor.utc_parts(t.elapsed_nanos()), (1_000, 1_000_000));
    anchor.set_time(-5, t.elapsed_nanos());
    assert_eq!(anchor.current_nanos(t.elapsed_nanos()), -5);
    assert_eq!(anchor.millis(t.elapsed_nanos()), -1);
    assert_eq!(anchor.try_reset(&mut t), Ok(()));
    assert_eq!(t.elapsed(), Duration::ZERO);
    assert_eq!(anchor.current_nanos(0), 1_000_000_000_000 - 10_000_000_000);
}

#[test]
fn clock_reset_fails_while_waiters_block() {
    let mut t = timeline();
    let mut anchor = MockClockAnchor::with_timeline(0, 0);
    t.advance(Duration::from_secs(1));
    anchor.set_time(42, t.elapsed_nanos());
    t.increment_waiter(MockWaiterKind::Sleep);
    assert_eq!(anchor.try_reset(&mut t), Err(MockTimeError::ActiveWaiters));
    assert_eq!(anchor.current_nanos(t.elapsed_nanos()), 42);
    assert_eq!(t.elapsed(), Duration::from_secs(1));
}

#[test]
fn wall_time_parts() {
    assert_eq!(timeline_elapsed_i128(u128::MAX), i128::MAX);
    assert_eq!(timeline_elapsed_i128(5), 5);
    assert_eq!(utc_parts_from_nanos(-1), (-1, 999_999_999));
    assert_eq!(utc_parts_from_nanos(1_500_000_000), (1, 500_000_000));
    assert_eq!(utc_parts_from_nanos(i128::MAX), (MAX_UTC_TIMESTAMP, 999_999_999));
    assert_eq!(utc_parts_from_nanos(i128::MIN), (MIN_UTC_TIMESTAMP, 0));
    assert_eq!(utc_parts_from_millis(-1), (-1, 999_000_000));
    assert_eq!(utc_parts_from_millis(i64::MAX), (MAX_UTC_TIMESTAMP, 999_999_999));
    assert_eq!(utc_parts_or_epoch(2_000_000_001), (2, 1));
    assert_eq!(utc_parts_or_epoch(i128::MAX), (0, 0));
    assert_eq!(chrono::DateTime::<chrono::Utc>::MIN_UTC.timestamp(), MIN_UTC_TIMESTAMP);
    assert_eq!(chrono::DateTime::<chrono::Utc>::MAX_UTC.timestamp(), MAX_UTC_TIMESTAMP);
    assert!(chrono::DateTime::from_timestamp(MIN_UTC_TIMESTAMP, 0).is_some());
    assert!(chrono::DateTime::from_timestamp(MIN_UTC_TIMESTAMP - 1, 999_999_999).is_none());
    assert!(chrono::DateTime::from_timestamp(MAX_UTC_TIMESTAMP, 999_999_999).is_some());
    assert!(chrono::DateTime::from_timestamp(MAX_UTC_TIMESTAMP + 1, 0).is_none());
}
