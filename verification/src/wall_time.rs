//! Wall-clock values: chrono's signed durations, and UTC timestamps held as
//! whole seconds and sub-second nanoseconds since the Unix epoch.
use crate::duration::duration_nanos;
use crate::time_source::MAX_UTC_TIMESTAMP;
use chrono::TimeDelta;
use std::time::Duration;
use vstd::prelude::*;

verus! {

/// chrono's signed duration, carried opaquely.
#[verifier::external_type_specification]
#[verifier::external_body]
pub struct ExTimeDelta(TimeDelta);

/// The earliest Unix timestamp, in whole seconds, that a chrono
/// `DateTime<Utc>` can hold (January 1 of 262144 BCE, midnight).
pub const MIN_UTC_TIMESTAMP: i64 = -8_334_601_228_800;

/// What `TimeDelta::num_nanoseconds` returns for `d`.
pub uninterp spec fn time_delta_num_nanoseconds(d: TimeDelta) -> Option<i64>;

/// What `TimeDelta::num_milliseconds` returns for `d`.
pub uninterp spec fn time_delta_num_milliseconds(d: TimeDelta) -> i64;

/// Whether `d` compares below `TimeDelta::zero()`.
pub uninterp spec fn time_delta_is_negative(d: TimeDelta) -> bool;

/// Reads the whole nanoseconds of `d` through `TimeDelta::num_nanoseconds`.
///
/// Trusted: the result is the named value; chrono returns `None` exactly
/// when the count does not fit in `i64`, which is left unsaid here.
#[verifier::external_body]
pub fn num_nanoseconds(d: &TimeDelta) -> (r: Option<i64>)
    ensures
        r == time_delta_num_nanoseconds(*d),
{
    d.num_nanoseconds()
}

/// Reads the whole milliseconds of `d` through `TimeDelta::num_milliseconds`.
///
/// Trusted: the result is the named value. chrono bounds every delta to
/// `i64::MAX` milliseconds either way, so the call cannot overflow.
#[verifier::external_body]
pub fn num_milliseconds(d: &TimeDelta) -> (r: i64)
    ensures
        r == time_delta_num_milliseconds(*d),
{
    d.num_milliseconds()
}

/// Compares `d` with `TimeDelta::zero()`.
///
/// Trusted: the result is the named value, and, where the nanosecond count
/// of `d` fits in `i64`, it tells whether that count is negative (chrono
/// orders deltas by their normalized seconds and nanoseconds).
#[verifier::external_body]
pub fn is_negative(d: &TimeDelta) -> (r: bool)
    ensures
        r == time_delta_is_negative(*d),
        time_delta_num_nanoseconds(*d) matches Some(n) ==> (r <==> n < 0),
{
    *d < TimeDelta::zero()
}

/// Converts `d` to a standard duration through `TimeDelta::to_std`, or
/// `None` when chrono refuses a negative delta.
///
/// Trusted: chrono fails exactly for negative deltas, and otherwise keeps
/// every nanosecond.
#[verifier::external_body]
pub fn to_std(d: &TimeDelta) -> (r: Option<Duration>)
    ensures
        r is None <==> time_delta_is_negative(*d),
        r matches Some(s) ==> (time_delta_num_nanoseconds(*d) matches Some(n) ==> duration_nanos(s) == n),
{
    d.to_std().ok()
}

/// Floor division of `a` by the positive `b`, as an integer.
pub open spec fn floor_div(a: int, b: int) -> int {
    a / b
}

/// The seconds and sub-second nanoseconds of the UTC time `nanos`
/// nanoseconds after the Unix epoch, clamped to the range chrono can hold.
pub open spec fn spec_utc_parts_from_nanos(nanos: int) -> (i64, u32) {
    let seconds = floor_div(nanos, 1_000_000_000);
    if seconds < MIN_UTC_TIMESTAMP {
        (MIN_UTC_TIMESTAMP, 0u32)
    } else if seconds > MAX_UTC_TIMESTAMP {
        (MAX_UTC_TIMESTAMP, 999_999_999u32)
    } else {
        (seconds as i64, (nanos % 1_000_000_000) as u32)
    }
}

/// Splits `nanos` nanoseconds since the Unix epoch into whole seconds and
/// sub-second nanoseconds, rounding toward negative infinity; times outside
/// chrono's range become its earliest or latest representable time.
pub fn utc_parts_from_nanos(nanos: i128) -> (r: (i64, u32))
    ensures
        r == spec_utc_parts_from_nanos(nanos as int),
        MIN_UTC_TIMESTAMP <= r.0 <= MAX_UTC_TIMESTAMP,
        r.1 < 1_000_000_000,
{
    let q = nanos / 1_000_000_000;
    let m = nanos % 1_000_000_000;
    let (seconds, sub) = if m < 0 { (q - 1, m + 1_000_000_000) } else { (q, m) };
    proof {
        assert(nanos == seconds * 1_000_000_000 + sub);
        vstd::arithmetic::div_mod::lemma_fundamental_div_mod_converse(nanos as int, 1_000_000_000, seconds as int, sub as int);
    }
    if seconds < MIN_UTC_TIMESTAMP as i128 {
        (MIN_UTC_TIMESTAMP, 0)
    } else if seconds > MAX_UTC_TIMESTAMP as i128 {
        (MAX_UTC_TIMESTAMP, 999_999_999)
    } else {
        (seconds as i64, sub as u32)
    }
}

/// The seconds and sub-second nanoseconds of the UTC time `millis`
/// milliseconds after the Unix epoch, clamped to the range chrono can hold.
pub open spec fn spec_utc_parts_from_millis(millis: int) -> (i64, u32) {
    spec_utc_parts_from_nanos(millis * 1_000_000)
}

/// Splits `millis` milliseconds since the Unix epoch into whole seconds and
/// sub-second nanoseconds; times outside chrono's range become its earliest
/// or latest representable time.
pub fn utc_parts_from_millis(millis: i64) -> (r: (i64, u32))
    ensures
        r == spec_utc_parts_from_millis(millis as int),
        MIN_UTC_TIMESTAMP <= r.0 <= MAX_UTC_TIMESTAMP,
        r.1 < 1_000_000_000,
{
    utc_parts_from_nanos(millis as i128 * 1_000_000)
}

/// The seconds and sub-second nanoseconds of the UTC time `nanos`
/// nanoseconds after the Unix epoch, or the Unix epoch itself when that time
/// lies outside chrono's range.
pub open spec fn spec_utc_parts_or_epoch(nanos: int) -> (i64, u32) {
    let seconds = floor_div(nanos, 1_000_000_000);
    if MIN_UTC_TIMESTAMP <= seconds <= MAX_UTC_TIMESTAMP {
        (seconds as i64, (nanos % 1_000_000_000) as u32)
    } else {
        (0i64, 0u32)
    }
}

/// Splits `nanos` nanoseconds since the Unix epoch into whole seconds and
/// sub-second nanoseconds, falling back to the Unix epoch outside chrono's
/// range.
pub fn utc_parts_or_epoch(nanos: i128) -> (r: (i64, u32))
    ensures
        r == spec_utc_parts_or_epoch(nanos as int),
{
    let seconds = nanos / 1_000_000_000;
    let m = nanos % 1_000_000_000;
    let (seconds, sub) = if m < 0 { (seconds - 1, m + 1_000_000_000) } else { (seconds, m) };
    proof {
        vstd::arithmetic::div_mod::lemma_fundamental_div_mod_converse(nanos as int, 1_000_000_000, seconds as int, sub as int);
    }
    if MIN_UTC_TIMESTAMP as i128 <= seconds && seconds <= MAX_UTC_TIMESTAMP as i128 {
        (seconds as i64, sub as u32)
    } else {
        (0, 0)
    }
}

} // verus!
