//! Injectable time for deterministic code: monotonic instants scoped to
//! clock domains, explicitly advanced manual clocks with deadline waiters,
//! controllable wall clocks, mock timelines, stopwatches, and duration
//! formatting.
//!
//! Every clock's state and every decision lives here and is verified. The
//! caller shares state between threads, blocks, and wakes tasks as the
//! returned effects ask.

use vstd::prelude::*;

pub mod arith;
pub mod duration;
pub mod time_source;
pub mod wall_time;
pub mod real_time_wait;

pub mod clock_domain;
pub mod error;
pub mod monotonic_instant;
pub mod monotonic_clock;
pub mod std_monotonic_clock;
pub mod waiter_registry;
pub mod manual_state;
pub mod manual_clock;
pub mod advance_registry;

pub mod progression;
pub mod clock;
pub mod monotonic;
pub mod nano_monotonic;
pub mod mock_clock;
pub mod mock_nano_clock;
pub mod elapsed_mock_clock;
pub mod mock_timeline;
pub mod timeline_clock;

pub mod format;
pub mod meter;

pub use clock_domain::ClockDomain;
pub use error::{MockTimeError, TimeError, TimerUnavailableError, TimerUnavailableReason};
pub use manual_clock::ManualMonotonicClock;
pub use mock_clock::MockClock;
pub use mock_nano_clock::MockNanoClock;
pub use mock_timeline::{MockInstant, MockTimeline, MockWaiterKind};
pub use monotonic_clock::MonotonicClock;
pub use monotonic_instant::MonotonicInstant;
pub use nano_monotonic::NanoMonotonicClock;
pub use progression::MockClockProgression;
pub use std_monotonic_clock::StdMonotonicClock;
