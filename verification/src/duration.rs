//! Conversions between `std::time::Duration` and whole nanoseconds.
//!
//! Logical time is kept internally as a count of nanoseconds, which makes
//! ordering and arithmetic visible to the verifier. These helpers are the only
//! place where the opaque standard-library duration type is entered or read.
use std::time::Duration;
use vstd::prelude::*;

verus! {

/// Nanoseconds per second.
pub const NANOS_PER_SECOND: u128 = 1_000_000_000;

/// The number of nanoseconds held by `Duration::MAX`
/// (`u64::MAX` seconds plus 999,999,999 nanoseconds).
pub const MAX_DURATION_NANOS: u128 = 18_446_744_073_709_551_615_999_999_999;

/// The total number of nanoseconds that `Duration::as_nanos` reports for `d`.
pub uninterp spec fn duration_nanos(d: Duration) -> u128;

/// Reads the total nanoseconds of a duration through `Duration::as_nanos`.
///
/// Trusted: the result is the value named `duration_nanos(d)`, and, as every
/// duration is at most `Duration::MAX`, it never exceeds `MAX_DURATION_NANOS`.
#[verifier::external_body]
pub fn nanos_of(d: Duration) -> (r: u128)
    ensures
        r == duration_nanos(d),
        r <= MAX_DURATION_NANOS,
{
    d.as_nanos()
}

/// Builds a duration through `Duration::new(secs, nanos)`.
///
/// Trusted: for `nanos` below one second `Duration::new` does not carry and
/// cannot panic, and the built duration holds `secs * 1e9 + nanos`
/// nanoseconds in total.
#[verifier::external_body]
fn duration_new(secs: u64, nanos: u32) -> (d: Duration)
    requires
        nanos < 1_000_000_000,
    ensures
        duration_nanos(d) == secs as int * 1_000_000_000 + nanos as int,
{
    Duration::new(secs, nanos)
}

/// Builds the duration that holds exactly `nanos` nanoseconds.
pub fn duration_from_nanos(nanos: u128) -> (d: Duration)
    requires
        nanos <= MAX_DURATION_NANOS,
    ensures
        duration_nanos(d) == nanos,
{
    let secs = nanos / NANOS_PER_SECOND;
    let sub = nanos % NANOS_PER_SECOND;
    assert(secs <= u64::MAX);
    duration_new(secs as u64, sub as u32)
}

/// Builds the duration that holds `nanos` nanoseconds, or `Duration::MAX`
/// when `nanos` exceeds what a duration can hold.
pub fn duration_from_nanos_saturating(nanos: u128) -> (d: Duration)
    ensures
        duration_nanos(d) == if nanos <= MAX_DURATION_NANOS { nanos } else { MAX_DURATION_NANOS },
{
    if nanos <= MAX_DURATION_NANOS {
        duration_from_nanos(nanos)
    } else {
        duration_from_nanos(MAX_DURATION_NANOS)
    }
}

} // verus!

verus! {

/// A count of nanoseconds that fits in a `Duration`.
#[derive(Debug, Clone, Copy)]
pub struct BoundedNanos {
    value: u128,
}

impl BoundedNanos {
    #[verifier::type_invariant]
    spec fn inv(self) -> bool {
        self.value <= MAX_DURATION_NANOS
    }

    /// The held count of nanoseconds.
    pub closed spec fn spec_value(self) -> u128 {
        self.value
    }

    /// Holds `value` nanoseconds.
    pub fn new(value: u128) -> (r: BoundedNanos)
        requires
            value <= MAX_DURATION_NANOS,
        ensures
            r.spec_value() == value,
    {
        BoundedNanos { value }
    }

    /// Returns the held count of nanoseconds, which fits in a `Duration`.
    pub fn value(&self) -> (r: u128)
        ensures
            r == self.spec_value(),
            r <= MAX_DURATION_NANOS,
    {
        proof {
            use_type_invariant(self);
        }
        self.value
    }
}

} // verus!
