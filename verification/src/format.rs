//! Human-readable duration formatting.
use vstd::prelude::*;
use vstd::string::StringExecFns;

verus! {

/// The decimal digit character for `d` (below ten).
pub open spec fn digit_char(d: nat) -> char {
    if d == 0 { '0' }
    else if d == 1 { '1' }
    else if d == 2 { '2' }
    else if d == 3 { '3' }
    else if d == 4 { '4' }
    else if d == 5 { '5' }
    else if d == 6 { '6' }
    else if d == 7 { '7' }
    else if d == 8 { '8' }
    else { '9' }
}

/// The decimal representation of `n`, without leading zeros.
pub open spec fn decimal(n: nat) -> Seq<char>
    decreases n,
{
    if n < 10 {
        seq![digit_char(n)]
    } else {
        decimal(n / 10).push(digit_char(n % 10))
    }
}

/// `value / divisor` rounded to the nearest integer, halves rounded up.
pub open spec fn round_half_up(value: int, divisor: int) -> int
    recommends
        value >= 0,
        divisor > 0,
{
    (2 * value + divisor) / (2 * divisor)
}

/// `tenths / 10` with one decimal place, the decimal omitted when it is zero,
/// followed by `unit`.
pub open spec fn tenths_text(tenths: nat, unit: Seq<char>) -> Seq<char> {
    if tenths % 10 > 0 {
        decimal(tenths / 10) + seq!['.'] + decimal(tenths % 10) + unit
    } else {
        decimal(tenths / 10) + unit
    }
}

/// `total` seconds as hours, minutes and seconds, leaving out zero
/// components: "Xh Ym Zs", "Xh Ym", "Xh Zs", "Xh", "Ym Zs", "Ym", or "Zs".
pub open spec fn hms_text(total: nat) -> Seq<char> {
    let hours = total / 3600;
    let minutes = (total % 3600) / 60;
    let seconds = total % 60;
    let h = decimal(hours) + seq!['h'];
    let m = decimal(minutes) + seq!['m'];
    let s = decimal(seconds) + seq!['s'];
    if hours > 0 {
        if minutes > 0 && seconds > 0 {
            h + seq![' '] + m + seq![' '] + s
        } else if minutes > 0 {
            h + seq![' '] + m
        } else if seconds > 0 {
            h + seq![' '] + s
        } else {
            h
        }
    } else if minutes > 0 {
        if seconds > 0 {
            m + seq![' '] + s
        } else {
            m
        }
    } else {
        s
    }
}

/// The human-readable form of a duration of `millis` milliseconds:
/// negative durations read "0 ms"; below a second "X ms"; below a minute
/// seconds rounded to one decimal place; otherwise hours, minutes and
/// seconds rounded to the nearest second.
pub open spec fn millis_text(millis: int) -> Seq<char> {
    if millis < 0 {
        seq!['0', ' ', 'm', 's']
    } else if millis < 1000 {
        decimal(millis as nat) + seq![' ', 'm', 's']
    } else if millis < 60_000 {
        let tenths = round_half_up(millis, 100);
        if tenths >= 600 {
            hms_text((tenths / 10) as nat)
        } else {
            tenths_text(tenths as nat, seq!['s'])
        }
    } else {
        hms_text(round_half_up(millis, 1000) as nat)
    }
}

/// The band of a nanosecond count: nanoseconds or microseconds, then
/// milliseconds, then seconds and above.
pub open spec fn nanos_band(nanos: int) -> nat {
    if nanos < 1_000_000 { 2 } else if nanos < 1_000_000_000 { 1 } else { 0 }
}

/// The human-readable form of a duration of `nanos` nanoseconds:
/// negative durations read "0 ns"; below a microsecond "X ns"; below a
/// millisecond microseconds, below a second milliseconds, and below a minute
/// seconds, each rounded to one decimal place; a value that rounds up to the
/// next unit is shown in that unit; one minute or more reads as hours,
/// minutes and seconds rounded to the nearest second.
pub open spec fn nanos_text(nanos: int) -> Seq<char>
    decreases nanos_band(nanos),
{
    if nanos < 0 {
        seq!['0', ' ', 'n', 's']
    } else if nanos < 1000 {
        decimal(nanos as nat) + seq![' ', 'n', 's']
    } else if nanos < 1_000_000 {
        let tenths = round_half_up(nanos, 100);
        if tenths >= 10_000 {
            nanos_text(tenths * 100)
        } else {
            tenths_text(tenths as nat, seq![' ', '\u{3bc}', 's'])
        }
    } else if nanos < 1_000_000_000 {
        let tenths = round_half_up(nanos, 100_000);
        if tenths >= 10_000 {
            nanos_text(tenths * 100_000)
        } else {
            tenths_text(tenths as nat, seq![' ', 'm', 's'])
        }
    } else if nanos < 60_000_000_000 {
        let tenths = round_half_up(nanos, 100_000_000);
        if tenths >= 600 {
            hms_text((tenths / 10) as nat)
        } else {
            tenths_text(tenths as nat, seq!['s'])
        }
    } else {
        hms_text(round_half_up(nanos, 1_000_000_000) as nat)
    }
}

/// The one-character string of a decimal digit.
fn digit_str(d: u8) -> (r: &'static str)
    requires
        d < 10,
    ensures
        r@ == seq![digit_char(d as nat)],
{
    proof {
        reveal_strlit("0");
        reveal_strlit("1");
        reveal_strlit("2");
        reveal_strlit("3");
        reveal_strlit("4");
        reveal_strlit("5");
        reveal_strlit("6");
        reveal_strlit("7");
        reveal_strlit("8");
        reveal_strlit("9");
    }
    if d == 0 { "0" }
    else if d == 1 { "1" }
    else if d == 2 { "2" }
    else if d == 3 { "3" }
    else if d == 4 { "4" }
    else if d == 5 { "5" }
    else if d == 6 { "6" }
    else if d == 7 { "7" }
    else if d == 8 { "8" }
    else { "9" }
}

/// Appends the decimal representation of `n` to `out`.
pub(crate) fn push_decimal(out: &mut String, n: u128)
    ensures
        final(out)@ == old(out)@ + decimal(n as nat),
    decreases n,
{
    if n >= 10 {
        push_decimal(out, n / 10);
    }
    let d = (n % 10) as u8;
    out.append(digit_str(d));
    proof {
        assert(decimal(n as nat) == if n < 10 { seq![digit_char(n as nat)] } else { decimal((n / 10) as nat).push(digit_char((n % 10) as nat)) });
        if n < 10 {
            assert(n % 10 == n);
        }
    }
}

/// Formats a value stored in tenths using the specified unit suffix.
fn format_tenths(value_tenths: i128, unit: &str) -> (r: String)
    requires
        value_tenths >= 0,
    ensures
        r@ == tenths_text(value_tenths as nat, unit@),
{
    let whole = value_tenths / 10;
    let tenths = value_tenths % 10;
    let mut out = String::new();
    push_decimal(&mut out, whole as u128);
    if tenths > 0 {
        proof {
            reveal_strlit(".");
        }
        out.append(".");
        push_decimal(&mut out, tenths as u128);
    }
    out.append(unit);
    out
}

/// Divides a non-negative value by a positive divisor using half-up rounding.
fn div_round_half_up(value: i128, divisor: i128) -> (r: i128)
    requires
        value >= 0,
        divisor > 0,
    ensures
        r == round_half_up(value as int, divisor as int),
{
    let quotient = value / divisor;
    let remainder = value % divisor;
    proof {
        assert(value == divisor * quotient + remainder) by (nonlinear_arith)
            requires
                quotient == value / divisor,
                remainder == value % divisor,
                divisor > 0,
        ;
        assert(quotient <= value) by (nonlinear_arith)
            requires
                quotient == value / divisor,
                value >= 0,
                divisor > 0,
        ;
        lemma_round_half_up(value as int, divisor as int, quotient as int, remainder as int);
    }
    if remainder >= divisor - remainder {
        if quotient == i128::MAX {
            quotient
        } else {
            quotient + 1
        }
    } else {
        quotient
    }
}

/// Half-up rounding adds one to the quotient exactly when twice the
/// remainder reaches the divisor.
proof fn lemma_round_half_up(value: int, divisor: int, quotient: int, remainder: int)
    requires
        divisor > 0,
        value >= 0,
        value == divisor * quotient + remainder,
        0 <= remainder < divisor,
    ensures
        round_half_up(value, divisor) == if 2 * remainder >= divisor { quotient + 1 } else { quotient },
        divisor > 1 ==> quotient < value || value == 0,
{
    let t = 2 * remainder + divisor;
    assert(2 * value + divisor == (2 * divisor) * quotient + t) by (nonlinear_arith)
        requires
            value == divisor * quotient + remainder,
            t == 2 * remainder + divisor,
    ;
    if 2 * remainder >= divisor {
        assert(2 * divisor <= t < 4 * divisor);
        assert((2 * value + divisor) == (2 * divisor) * (quotient + 1) + (t - 2 * divisor)) by (nonlinear_arith)
            requires
                2 * value + divisor == (2 * divisor) * quotient + t,
        ;
        vstd::arithmetic::div_mod::lemma_fundamental_div_mod_converse(2 * value + divisor, 2 * divisor, quotient + 1, t - 2 * divisor);
    } else {
        vstd::arithmetic::div_mod::lemma_fundamental_div_mod_converse(2 * value + divisor, 2 * divisor, quotient, t);
    }
    if divisor > 1 && value > 0 {
        assert(quotient < value) by (nonlinear_arith)
            requires
                value == divisor * quotient + remainder,
                divisor > 1,
                value > 0,
                0 <= remainder,
        ;
    }
}

/// Formats a non-negative duration expressed as whole seconds.
fn format_duration_seconds(total_seconds: i128) -> (r: String)
    requires
        total_seconds >= 0,
    ensures
        r@ == hms_text(total_seconds as nat),
{
    let hours = total_seconds / 3600;
    let minutes = (total_seconds % 3600) / 60;
    let seconds = total_seconds % 60;
    proof {
        reveal_strlit("h");
        reveal_strlit("m");
        reveal_strlit("s");
        reveal_strlit(" ");
    }
    let mut out = String::new();
    if hours > 0 {
        push_decimal(&mut out, hours as u128);
        out.append("h");
        if minutes > 0 {
            out.append(" ");
            push_decimal(&mut out, minutes as u128);
            out.append("m");
        }
        if seconds > 0 {
            out.append(" ");
            push_decimal(&mut out, seconds as u128);
            out.append("s");
        }
    } else if minutes > 0 {
        push_decimal(&mut out, minutes as u128);
        out.append("m");
        if seconds > 0 {
            out.append(" ");
            push_decimal(&mut out, seconds as u128);
            out.append("s");
        }
    } else {
        push_decimal(&mut out, seconds as u128);
        out.append("s");
    }
    proof {
        let h = decimal(hours as nat) + seq!['h'];
        let m = decimal(minutes as nat) + seq!['m'];
        let sec = decimal(seconds as nat) + seq!['s'];
        assert(h + seq![' '] + m + seq![' '] + sec =~= h + (seq![' '] + m) + (seq![' '] + sec));
    }
    out
}

/// Formats a millisecond duration stored as `i128`.
fn format_duration_millis_i128(millis: i128) -> (r: String)
    ensures
        r@ == millis_text(millis as int),
{
    if millis < 0 {
        proof {
            reveal_strlit("0 ms");
        }
        return String::from_str("0 ms");
    }
    if millis < 1000 {
        let mut out = String::new();
        push_decimal(&mut out, millis as u128);
        proof {
            reveal_strlit(" ms");
        }
        out.append(" ms");
        return out;
    }
    if millis < 60_000 {
        let tenths = div_round_half_up(millis, 100);
        if tenths >= 600 {
            return format_duration_seconds(tenths / 10);
        }
        proof {
            reveal_strlit("s");
        }
        return format_tenths(tenths, "s");
    }
    format_duration_seconds(div_round_half_up(millis, 1000))
}

/// Formats a duration in milliseconds into a human-readable string.
///
/// The format adapts to the duration: below one second "X ms"; below one
/// minute "X.Ys" rounded to one decimal place; below one hour "Xm Ys"; and
/// "Xh Ym Zs" otherwise, each rounded to the nearest second. Zero
/// components are left out, and a negative duration reads "0 ms".
pub fn format_duration_millis(millis: i64) -> (r: String)
    ensures
        r@ == millis_text(millis as int),
{
    format_duration_millis_i128(millis as i128)
}

/// Formats a duration in nanoseconds into a human-readable string.
///
/// The format adapts to the duration: below one microsecond "X ns"; below
/// one millisecond "X.Y μs"; below one second "X.Y ms"; below one minute
/// "X.Ys", each rounded to one decimal place; one minute or more as "Xm Ys"
/// or "Xh Ym Zs", rounded to the nearest second. A negative duration reads
/// "0 ns".
pub fn format_duration_nanos(nanos: i128) -> (r: String)
    ensures
        r@ == nanos_text(nanos as int),
    decreases nanos_band(nanos as int),
{
    if nanos < 0 {
        proof {
            reveal_strlit("0 ns");
        }
        return String::from_str("0 ns");
    }
    if nanos < 1000 {
        let mut out = String::new();
        push_decimal(&mut out, nanos as u128);
        proof {
            reveal_strlit(" ns");
        }
        out.append(" ns");
        return out;
    }
    if nanos < 1_000_000 {
        let tenths = div_round_half_up(nanos, 100);
        if tenths >= 10_000 {
            proof {
                assert(tenths <= 10_000) by (nonlinear_arith)
                    requires
                        tenths == (2 * nanos + 100) / 200,
                        nanos < 1_000_000,
                ;
                assert(nanos_band(tenths * 100) < nanos_band(nanos as int));
            }
            return format_duration_nanos(tenths * 100);
        }
        proof {
            reveal_strlit(" \u{3bc}s");
        }
        format_tenths(tenths, " \u{3bc}s")
    } else if nanos < 1_000_000_000 {
        let tenths = div_round_half_up(nanos, 100_000);
        if tenths >= 10_000 {
            proof {
                assert(tenths <= 10_000) by (nonlinear_arith)
                    requires
                        tenths == (2 * nanos + 100_000) / 200_000,
                        nanos < 1_000_000_000,
                ;
                assert(nanos_band(tenths * 100_000) < nanos_band(nanos as int));
            }
            return format_duration_nanos(tenths * 100_000);
        }
        proof {
            reveal_strlit(" ms");
        }
        format_tenths(tenths, " ms")
    } else if nanos < 60_000_000_000 {
        let tenths = div_round_half_up(nanos, 100_000_000);
        if tenths >= 600 {
            return format_duration_seconds(tenths / 10);
        }
        proof {
            reveal_strlit("s");
        }
        format_tenths(tenths, "s")
    } else {
        format_duration_seconds(div_round_half_up(nanos, 1_000_000_000))
    }
}

/// Between one millisecond and the point that rounds up to a second, a
/// nanosecond duration reads as its millisecond count rounded half up to
/// one decimal place, the decimal left out when it is zero, then " ms".
pub proof fn lemma_nanos_millisecond_band(nanos: int)
    requires
        1_000_000 <= nanos < 999_950_000,
    ensures
        ({
            let q = (2 * nanos + 100_000) / 200_000;
            &&& 10 <= q < 10_000
            &&& nanos_text(nanos) == decimal((q / 10) as nat) + (if q % 10 != 0 { seq!['.'] + decimal((q % 10) as nat) } else { Seq::empty() }) + seq![' ', 'm', 's']
        }),
{
    let q = (2 * nanos + 100_000) / 200_000;
    assert(round_half_up(nanos, 100_000) == q);
    assert(10 <= q < 10_000);
    if q % 10 == 0 {
        assert(decimal((q / 10) as nat) + Seq::<char>::empty() == decimal((q / 10) as nat));
    }
}

/// Between one microsecond and the point that rounds up to a millisecond,
/// a nanosecond duration reads as its microsecond count rounded half up to
/// one decimal place, the decimal left out when it is zero, then " μs".
pub proof fn lemma_nanos_microsecond_band(nanos: int)
    requires
        1_000 <= nanos < 999_950,
    ensures
        ({
            let q = (2 * nanos + 100) / 200;
            &&& 10 <= q < 10_000
            &&& nanos_text(nanos) == decimal((q / 10) as nat) + (if q % 10 != 0 { seq!['.'] + decimal((q % 10) as nat) } else { Seq::empty() }) + seq![' ', '\u{3bc}', 's']
        }),
{
    let q = (2 * nanos + 100) / 200;
    assert(round_half_up(nanos, 100) == q);
    if q % 10 == 0 {
        assert(decimal((q / 10) as nat) + Seq::<char>::empty() == decimal((q / 10) as nat));
    }
}

/// Between one second and the point that rounds up to a minute, a
/// nanosecond duration reads as its second count rounded half up to one
/// decimal place, the decimal left out when it is zero, then "s".
pub proof fn lemma_nanos_second_band(nanos: int)
    requires
        1_000_000_000 <= nanos < 59_950_000_000,
    ensures
        ({
            let q = (2 * nanos + 100_000_000) / 200_000_000;
            &&& 10 <= q < 600
            &&& nanos_text(nanos) == decimal((q / 10) as nat) + (if q % 10 != 0 { seq!['.'] + decimal((q % 10) as nat) } else { Seq::empty() }) + seq!['s']
        }),
{
    let q = (2 * nanos + 100_000_000) / 200_000_000;
    assert(round_half_up(nanos, 100_000_000) == q);
    if q % 10 == 0 {
        assert(decimal((q / 10) as nat) + Seq::<char>::empty() == decimal((q / 10) as nat));
    }
}

/// Below one microsecond a non-negative nanosecond duration reads as its
/// exact count then " ns", and below one second a non-negative millisecond
/// duration reads as its exact count then " ms".
pub proof fn lemma_exact_small_counts(nanos: int, millis: int)
    ensures
        0 <= nanos < 1000 ==> nanos_text(nanos) == decimal(nanos as nat) + seq![' ', 'n', 's'],
        0 <= millis < 1000 ==> millis_text(millis) == decimal(millis as nat) + seq![' ', 'm', 's'],
{
}


/// Between one second and the point that rounds up to a minute, a
/// millisecond duration reads as its second count rounded half up to one
/// decimal place, the decimal left out when it is zero, then "s".
pub proof fn lemma_millis_second_band(millis: int)
    requires
        1_000 <= millis < 59_950,
    ensures
        ({
            let q = (2 * millis + 100) / 200;
            &&& 10 <= q < 600
            &&& millis_text(millis) == decimal((q / 10) as nat) + (if q % 10 != 0 { seq!['.'] + decimal((q % 10) as nat) } else { Seq::empty() }) + seq!['s']
        }),
{
    let q = (2 * millis + 100) / 200;
    assert(round_half_up(millis, 100) == q);
    if q % 10 == 0 {
        assert(decimal((q / 10) as nat) + Seq::<char>::empty() == decimal((q / 10) as nat));
    }
}

} // verus!
