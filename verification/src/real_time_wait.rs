//! Decisions of waits bounded by real time.
//!
//! A blocking wait re-examines the shared state each time it is woken. The
//! library decides, from the state and from what the real-time clock
//! reported, whether the wait is over and with what result; the caller only
//! performs the sleep that was asked for.
use crate::duration::{duration_nanos, nanos_of};
use std::time::Duration;
use vstd::prelude::*;

verus! {

/// What a waiter does after examining the shared state.
#[derive(Debug)]
pub enum RealTimeWait<T> {
    /// The awaited condition holds; the wait ends with this value.
    Ready(T),
    /// The condition does not hold yet; sleep at most this long, or until
    /// woken, and examine the state again.
    Sleep(Duration),
    /// The real-time budget is spent; the wait ends without a value.
    TimedOut,
}

/// The step a wait takes when its condition does not hold: it times out
/// when the last sleep did, or when no real time remains; otherwise it
/// sleeps for the remaining time.
pub open spec fn pending_outcome<T>(remaining: Option<Duration>, timed_out: bool) -> RealTimeWait<T> {
    if timed_out {
        RealTimeWait::TimedOut
    } else {
        match remaining {
            Some(d) => if duration_nanos(d) == 0 { RealTimeWait::TimedOut } else { RealTimeWait::Sleep(d) },
            None => RealTimeWait::TimedOut,
        }
    }
}

/// Decides the next step of a wait whose condition has just been found not
/// to hold.
///
/// `timed_out` tells whether the last sleep ended because its time was up;
/// `remaining` is the real time left before the wait's deadline, or `None`
/// when that deadline cannot be represented or has passed.
pub fn pending_step<T>(remaining: Option<Duration>, timed_out: bool) -> (r: RealTimeWait<T>)
    ensures
        r == pending_outcome::<T>(remaining, timed_out),
{
    if timed_out {
        return RealTimeWait::TimedOut;
    }
    match remaining {
        Some(d) => {
            if nanos_of(d) == 0 {
                RealTimeWait::TimedOut
            } else {
                RealTimeWait::Sleep(d)
            }
        },
        None => RealTimeWait::TimedOut,
    }
}

} // verus!
