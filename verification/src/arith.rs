//! Saturating integer arithmetic.
use vstd::prelude::*;

verus! {

/// `v` clamped into the range `lo..=hi`.
pub open spec fn clamp(v: int, lo: int, hi: int) -> int {
    if v < lo { lo } else if v > hi { hi } else { v }
}

/// Adds two `i64` values, saturating at the numeric bounds.
pub fn saturating_add_i64(a: i64, b: i64) -> (r: i64)
    ensures
        r == clamp(a + b, i64::MIN as int, i64::MAX as int),
{
    if b > 0 && a > i64::MAX - b {
        i64::MAX
    } else if b < 0 && a < i64::MIN - b {
        i64::MIN
    } else {
        a + b
    }
}

/// Adds two `i128` values, saturating at the numeric bounds.
pub fn saturating_add_i128(a: i128, b: i128) -> (r: i128)
    ensures
        r == clamp(a + b, i128::MIN as int, i128::MAX as int),
{
    if b > 0 && a > i128::MAX - b {
        i128::MAX
    } else if b < 0 && a < i128::MIN - b {
        i128::MIN
    } else {
        a + b
    }
}

/// Subtracts two `i128` values, saturating at the numeric bounds.
pub fn saturating_sub_i128(a: i128, b: i128) -> (r: i128)
    ensures
        r == clamp(a - b, i128::MIN as int, i128::MAX as int),
{
    if b < 0 && a > i128::MAX + b {
        i128::MAX
    } else if b > 0 && a < i128::MIN + b {
        i128::MIN
    } else {
        a - b
    }
}

/// Multiplies two `i128` values, saturating at the numeric bounds.
pub fn saturating_mul_i128(a: i128, b: i128) -> (r: i128)
    ensures
        r == clamp(a * b, i128::MIN as int, i128::MAX as int),
{
    match a.checked_mul(b) {
        Some(v) => v,
        None => {
            if (a < 0) == (b < 0) {
                proof {
                    assert(a * b > 0) by (nonlinear_arith)
                        requires
                            (a < 0) == (b < 0),
                            a != 0,
                            b != 0,
                    ;
                }
                i128::MAX
            } else {
                proof {
                    assert(a * b < 0) by (nonlinear_arith)
                        requires
                            (a < 0) != (b < 0),
                            a != 0,
                            b != 0,
                    ;
                }
                i128::MIN
            }
        },
    }
}

/// Adds two `i64` values, wrapping around at the numeric bounds.
pub fn wrapping_add_i64(a: i64, b: i64) -> (r: i64)
    ensures
        r == (if a + b > i64::MAX { a + b - 18_446_744_073_709_551_616 } else if a + b < i64::MIN { a + b + 18_446_744_073_709_551_616 } else { a + b }),
{
    let s = a as i128 + b as i128;
    if s > i64::MAX as i128 {
        (s - 18_446_744_073_709_551_616i128) as i64
    } else if s < i64::MIN as i128 {
        (s + 18_446_744_073_709_551_616i128) as i64
    } else {
        s as i64
    }
}

/// Adds two `u128` values, saturating at `u128::MAX`.
pub fn saturating_add_u128(a: u128, b: u128) -> (r: u128)
    ensures
        r == clamp(a + b, 0, u128::MAX as int),
{
    if a > u128::MAX - b {
        u128::MAX
    } else {
        a + b
    }
}

/// Increments a `u64` counter, wrapping from `u64::MAX` to zero.
pub fn wrapping_increment_u64(a: u64) -> (r: u64)
    ensures
        r == spec_wrapping_increment(a),
{
    if a == u64::MAX {
        0
    } else {
        a + 1
    }
}

/// The successor of `a`, wrapping from `u64::MAX` to zero.
pub open spec fn spec_wrapping_increment(a: u64) -> u64 {
    if a == u64::MAX { 0 } else { (a + 1) as u64 }
}

/// Subtracts two `i64` values, wrapping around at the numeric bounds.
pub fn wrapping_sub_i64(a: i64, b: i64) -> (r: i64)
    ensures
        r == (if a - b > i64::MAX { a - b - 18_446_744_073_709_551_616 } else if a - b < i64::MIN { a - b + 18_446_744_073_709_551_616 } else { a - b }),
{
    let s = a as i128 - b as i128;
    if s > i64::MAX as i128 {
        (s - 18_446_744_073_709_551_616i128) as i64
    } else if s < i64::MIN as i128 {
        (s + 18_446_744_073_709_551_616i128) as i64
    } else {
        s as i64
    }
}

/// Subtracts two `i64` values, saturating at the numeric bounds.
pub fn saturating_sub_i64(a: i64, b: i64) -> (r: i64)
    ensures
        r == clamp(a - b, i64::MIN as int, i64::MAX as int),
{
    if b < 0 && a > i64::MAX + b {
        i64::MAX
    } else if b > 0 && a < i64::MIN + b {
        i64::MIN
    } else {
        a - b
    }
}

} // verus!
