//! Error types produced by time-domain operations.
use crate::clock_domain::ClockDomain;
use crate::format::{decimal, push_decimal};
use vstd::string::StringExecFns;
use std::time::Duration;
use vstd::prelude::*;

verus! {

/// The standard I/O error type, carried opaquely as the source of a timer
/// backend failure.
#[verifier::external_type_specification]
#[verifier::external_body]
pub struct ExIoError(std::io::Error);

/// Describes a backend failure that prevented timer registration or completion.
///
/// Each variant preserves the most specific source exposed by its backend.
#[derive(Debug)]
#[allow(inconsistent_fields)]
pub enum TimerUnavailableError {
    /// The standard timer could not spawn its shared scheduler worker.
    WorkerThreadSpawnFailed {
        /// I/O error returned by the native thread builder.
        source: std::io::Error,
    },
    /// The standard timer scheduler worker exited before the deadline.
    SchedulerWorkerTerminated,
    /// The target asynchronous runtime has no enabled time driver.
    TimeDriverDisabled,
    /// The target asynchronous runtime shut down before a pending timer
    /// future completed.
    RuntimeShuttingDown,
    /// A custom timer backend is unavailable.
    BackendUnavailable {
        /// Stable name identifying the custom backend.
        backend: &'static str,
        /// Message of the backend-specific error that prevented timer
        /// registration or completion.
        source: String,
    },
}

/// Identifies the unavailable resource that prevented timer registration.
#[derive(Debug, Clone, Copy, PartialEq, Eq, Structural)]
pub enum TimerUnavailableReason {
    /// The standard timer could not spawn its shared scheduler worker.
    WorkerThreadSpawnFailed,
    /// No asynchronous runtime was entered when a deadline was registered.
    RuntimeNotEntered,
    /// The entered asynchronous runtime has no enabled time driver.
    TimeDriverDisabled,
    /// A custom or otherwise unspecified timer backend is unavailable.
    BackendUnavailable,
}

/// Describes an invalid monotonic-time operation.
#[derive(Debug)]
pub enum TimeError {
    /// Two monotonic instants belong to different clock domains.
    ClockDomainMismatch {
        /// Domain required by the receiving clock or instant.
        expected: ClockDomain,
        /// Domain carried by the supplied instant.
        actual: ClockDomain,
    },
    /// A monotonic instant cannot represent the requested result.
    InstantOverflow,
    /// A manual monotonic clock was asked to move backward.
    CannotMoveBackward {
        /// Current elapsed duration in the manual clock domain.
        current_elapsed: Duration,
        /// Earlier elapsed duration requested by the caller.
        requested_elapsed: Duration,
    },
    /// Duration was requested with an earlier instant after the current one.
    InvalidInstantOrder {
        /// Elapsed duration carried by the receiving current instant.
        current_elapsed: Duration,
        /// Elapsed duration carried by the supplied earlier instant.
        earlier_elapsed: Duration,
    },
    /// A timer could not register or complete a requested deadline.
    TimerUnavailable {
        /// Backend error that prevented timer registration or completion.
        source: TimerUnavailableError,
    },
}

impl From<TimerUnavailableError> for TimeError {
    /// Wraps a timer-backend failure as a monotonic time error.
    fn from(source: TimerUnavailableError) -> (r: Self) {
        TimeError::TimerUnavailable { source }
    }
}

impl vstd::std_specs::convert::FromSpecImpl<TimerUnavailableError> for TimeError {
    open spec fn obeys_from_spec() -> bool {
        true
    }

    open spec fn from_spec(v: TimerUnavailableError) -> Self {
        TimeError::TimerUnavailable { source: v }
    }
}

/// Describes an invalid mock-time operation.
#[derive(Debug, Clone, Copy, PartialEq, Eq, Structural)]
pub enum MockTimeError {
    /// The timeline cannot be reset while waiters are blocked on it.
    ActiveWaiters,
    /// A mock instant from another timeline was supplied.
    MismatchedTimeline {
        /// The timeline that was expected.
        expected: u64,
        /// The timeline that created the supplied instant.
        actual: u64,
    },
}

impl MockTimeError {
    /// The human-readable description of this error.
    pub open spec fn spec_message(self) -> Seq<char> {
        match self {
            MockTimeError::ActiveWaiters => "mock timeline has active waiters"@,
            MockTimeError::MismatchedTimeline { expected, actual } =>
                "mock instant belongs to timeline "@ + decimal(actual as nat) + ", but timeline "@ + decimal(expected as nat) + " was expected"@,
        }
    }

    /// Describes this error for humans.
    pub fn message(&self) -> (r: String)
        ensures
            r@ == self.spec_message(),
    {
        match self {
            MockTimeError::ActiveWaiters => String::from_str("mock timeline has active waiters"),
            MockTimeError::MismatchedTimeline { expected, actual } => {
                let mut out = String::from_str("mock instant belongs to timeline ");
                push_decimal(&mut out, *actual as u128);
                out.append(", but timeline ");
                push_decimal(&mut out, *expected as u128);
                out.append(" was expected");
                out
            },
        }
    }
}

} // verus!
