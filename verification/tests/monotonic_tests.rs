use qubit_clock::clock_domain::{allocate_clock_domain_id, ClockDomain, ClockDomainAllocator};
use qubit_clock::error::TimeError;
use qubit_clock::manual_clock::{ManualMonotonicClock, WaitersWait};
use qubit_clock::monotonic_clock::MonotonicClock;
use qubit_clock::monotonic_instant::MonotonicInstant;
use qubit_clock::real_time_wait::RealTimeWait;
use qubit_clock::std_monotonic_clock::StdMonotonicClock;
use std::sync::atomic::{AtomicUsize, Ordering};
use std::sync::Arc;
use std::task::{Wake, Waker};
use std::time::Duration;

fn two_domains() -> (ClockDomain, ClockDomain) {
    let mut allocator = ClockDomainAllocator::new();
    let a = ClockDomain::new(&mut allocator);
    let b = ClockDomain::new(&mut allocator);
    (a, b)
}

struct CountingWake(AtomicUsize);

impl Wake for CountingWake {
    fn wake(self: Arc<Self>) {
        self.0.fetch_add(1, Ordering::SeqCst);
    }
    fn wake_by_ref(self: &Arc<Self>) {
        self.0.fetch_add(1, Ordering::SeqCst);
    }
}

#[test]
fn clock_domains_are_distinct() {
    let (a, b) = two_domains();
    assert_ne!(a, b);
    assert_eq!(a.identifier(), 1);
    assert_eq!(b.identifier(), 2);
}

#[test]
fn domain_allocator_exhausts_after_the_last_identifier() {
    let mut counter = 1u64;
    assert_eq!(allocate_clock_domain_id(&mut counter), Some(1));
    assert_eq!(allocate_clock_domain_id(&mut counter), Some(2));
    let mut counter = u64::MAX - 1;
    assert_eq!(allocate_clock_domain_id(&mut counter), Some(u64::MAX - 1));
    assert_eq!(allocate_clock_domain_id(&mut counter), None);
    assert_eq!(counter, u64::MAX);
}

#[test]
fn instant_add_then_measure_round_trips() {
    let (domain, _) = two_domains();
    let start = MonotonicInstant::new(domain, Duration::from_secs(5));
    let later = start.checked_add(Duration::from_millis(1500)).unwrap();
    assert_eq!(later.domain(), domain);
    assert_eq!(later.elapsed_since_origin(), Duration::from_millis(6500));
    assert_eq!(later.duration_since(start).unwrap(), Duration::from_millis(1500));
    assert!(later > start);
    assert!(start < later);
}

#[test]
fn instant_errors() {
    let (a, b) = two_domains();
    let x = MonotonicInstant::new(a, Duration::from_secs(1));
    let y = MonotonicInstant::new(b, Duration::from_secs(2));
    assert!(matches!(x.duration_since(y), Err(TimeError::ClockDomainMismatch { expected, actual }) if expected == a && actual == b));
    assert_eq!(x.partial_cmp(&y), None);
    let z = MonotonicInstant::new(a, Duration::from_secs(3));
    assert!(matches!(
        x.duration_since(z),
        Err(TimeError::InvalidInstantOrder { current_elapsed, earlier_elapsed })
            if current_elapsed == Duration::from_secs(1) && earlier_elapsed == Duration::from_secs(3)
    ));
    let max = MonotonicInstant::new(a, Duration::MAX);
    assert!(matches!(max.checked_add(Duration::from_nanos(1)), Err(TimeError::InstantOverflow)));
    assert!(x.ensure_domain(a).is_ok());
}

#[test]
fn session_expires_exactly_at_its_deadline() {
    let (domain, _) = two_domains();
    let mut clock = ManualMonotonicClock::new(domain);
    let expires_at = clock.now().checked_add(Duration::from_secs(30)).unwrap();
    assert!(clock.now() < expires_at);
    clock.advance(Duration::from_secs(30)).unwrap();
    assert!(clock.now() >= expires_at);
    assert_eq!(clock.now(), expires_at);
}

#[test]
fn manual_clock_advance_rules() {
    let (domain, other) = two_domains();
    let mut clock = ManualMonotonicClock::new(domain);
    assert_eq!(clock.now().elapsed_since_origin(), Duration::ZERO);
    assert_eq!(clock.advance(Duration::ZERO).unwrap().due_wakers.len(), 0);
    clock.advance(Duration::from_secs(2)).unwrap();
    let back = MonotonicInstant::new(domain, Duration::from_secs(1));
    assert!(matches!(
        clock.advance_to(back),
        Err(TimeError::CannotMoveBackward { current_elapsed, requested_elapsed })
            if current_elapsed == Duration::from_secs(2) && requested_elapsed == Duration::from_secs(1)
    ));
    let foreign = MonotonicInstant::new(other, Duration::from_secs(9));
    assert!(matches!(clock.advance_to(foreign), Err(TimeError::ClockDomainMismatch { .. })));
    let target = MonotonicInstant::new(domain, Duration::from_secs(7));
    clock.advance_to(target).unwrap();
    assert_eq!(clock.now(), target);
    assert!(matches!(clock.advance(Duration::MAX), Err(TimeError::InstantOverflow)));
    assert_eq!(clock.now(), target);
}

#[test]
fn advancing_past_a_deadline_wakes_its_waiter_once() {
    let (domain, _) = two_domains();
    let mut clock = ManualMonotonicClock::new(domain);
    let deadline = MonotonicInstant::new(domain, Duration::from_secs(10));
    let (id, satisfied) = clock.register_timer_waiter(deadline).unwrap().unwrap();
    assert!(satisfied.is_empty());
    assert_eq!(clock.pending_waiters(), 1);
    assert_eq!(clock.next_deadline(), Some(deadline));

    let flag = Arc::new(CountingWake(AtomicUsize::new(0)));
    let waker = Waker::from(flag.clone());
    let (ready, replaced) = clock.poll_timer_waiter(id, &waker);
    assert!(!ready);
    assert!(replaced.is_none());

    let effects = clock.advance(Duration::from_secs(4)).unwrap();
    assert!(effects.due_wakers.is_empty());
    let effects = clock.advance(Duration::from_secs(6)).unwrap();
    assert_eq!(effects.due_wakers.len(), 1);
    for w in effects.due_wakers {
        w.wake();
    }
    assert_eq!(flag.0.load(Ordering::SeqCst), 1);

    let effects = clock.advance(Duration::from_secs(1)).unwrap();
    assert!(effects.due_wakers.is_empty());
    assert_eq!(clock.pending_waiters(), 1);

    let (ready, _) = clock.poll_timer_waiter(id, &waker);
    assert!(ready);
    assert_eq!(clock.pending_waiters(), 0);
}

#[test]
fn registering_a_reached_deadline_needs_no_waiter() {
    let (domain, _) = two_domains();
    let mut clock = ManualMonotonicClock::new(domain);
    clock.advance(Duration::from_secs(5)).unwrap();
    let reached = MonotonicInstant::new(domain, Duration::from_secs(5));
    assert!(clock.register_timer_waiter(reached).unwrap().is_none());
    assert_eq!(clock.pending_waiters(), 0);
}

#[test]
fn advance_to_next_deadline_picks_the_earliest_future_one() {
    let (domain, _) = two_domains();
    let mut clock = ManualMonotonicClock::new(domain);
    assert!(clock.advance_to_next_deadline().is_none());
    let late = MonotonicInstant::new(domain, Duration::from_secs(20));
    let early = MonotonicInstant::new(domain, Duration::from_secs(8));
    clock.register_timer_waiter(late).unwrap().unwrap();
    clock.register_timer_waiter(early).unwrap().unwrap();
    let (reached, _) = clock.advance_to_next_deadline().unwrap();
    assert_eq!(reached, early);
    assert_eq!(clock.now(), early);
    assert_eq!(clock.next_deadline(), Some(late));
    assert!(clock.advance_to_next_deadline_if_waiters(3).is_none());
    let (reached, _) = clock.advance_to_next_deadline_if_waiters(2).unwrap();
    assert_eq!(reached, late);
    assert_eq!(clock.next_deadline(), None);
}

#[test]
fn waiter_count_observers() {
    let (domain, _) = two_domains();
    let mut clock = ManualMonotonicClock::new(domain);
    assert!(clock.register_waiter_observer(0).is_none());
    let observer = clock.register_waiter_observer(1).unwrap();
    assert!(clock.contains_observer(observer));
    let flag = Arc::new(CountingWake(AtomicUsize::new(0)));
    let waker = Waker::from(flag.clone());
    let (ready, _) = clock.poll_waiter_observer(observer, &waker);
    assert!(!ready);
    let (_, satisfied) = clock
        .register_timer_waiter(MonotonicInstant::new(domain, Duration::from_secs(3)))
        .unwrap()
        .unwrap();
    assert_eq!(satisfied.len(), 1);
    assert!(!clock.contains_observer(observer));
    let (ready, _) = clock.poll_waiter_observer(observer, &waker);
    assert!(ready);
}

#[test]
fn blocking_wait_steps() {
    let (domain, _) = two_domains();
    let mut clock = ManualMonotonicClock::new(domain);
    assert!(matches!(clock.next_deadline_wait_step(Some(Duration::from_millis(5)), false), RealTimeWait::Sleep(d) if d == Duration::from_millis(5)));
    assert!(matches!(clock.next_deadline_wait_step(Some(Duration::ZERO), false), RealTimeWait::TimedOut));
    assert!(matches!(clock.next_deadline_wait_step(None, false), RealTimeWait::TimedOut));
    assert!(matches!(clock.next_deadline_wait_step(Some(Duration::from_millis(5)), true), RealTimeWait::TimedOut));

    assert_eq!(clock.begin_wait_for_waiters(0, true), WaitersWait::Reached);
    assert_eq!(clock.begin_wait_for_waiters(1, false), WaitersWait::TimedOut);
    let observer = match clock.begin_wait_for_waiters(1, true) {
        WaitersWait::Watching(id) => id,
        other => panic!("unexpected {other:?}"),
    };
    assert_eq!(clock.resume_wait_for_waiters(observer, false), None);
    let deadline = MonotonicInstant::new(domain, Duration::from_secs(1));
    clock.register_timer_waiter(deadline).unwrap().unwrap();
    assert_eq!(clock.resume_wait_for_waiters(observer, false), Some(true));

    assert!(matches!(clock.next_deadline_wait_step(None, true), RealTimeWait::Ready(d) if d == deadline));
    match clock.advance_after_waiters_step(1, None, false) {
        RealTimeWait::Ready((reached, effects)) => {
            assert_eq!(reached, deadline);
            assert!(effects.due_wakers.is_empty());
        }
        _ => panic!("expected an advance"),
    }

    let observer = match clock.begin_wait_for_waiters(2, true) {
        WaitersWait::Watching(id) => id,
        other => panic!("unexpected {other:?}"),
    };
    assert_eq!(clock.resume_wait_for_waiters(observer, true), Some(false));
    assert!(!clock.contains_observer(observer));
}

#[test]
fn std_clock_reports_its_domain_and_never_goes_back() {
    let (domain, _) = two_domains();
    let clock = StdMonotonicClock::new(domain);
    let first = clock.now();
    let second = clock.now();
    assert_eq!(first.domain(), domain);
    assert!(second >= first);
    assert!(clock.deadline_after(Duration::from_secs(1)).unwrap() > first);
}
