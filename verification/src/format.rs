//! Sizes and durations as text for the user.

use crate::text::{decimal, digit_char, push_decimal, signed_decimal};
use vstd::prelude::*;

verus! {

/// The quotient of `numerator` by `denominator` rounded to the nearest whole
/// number; exactly halfway between two, the even one is taken.
pub open spec fn round_half_even(numerator: nat, denominator: nat) -> nat {
    let quotient = numerator / denominator;
    let rest = numerator % denominator;
    if 2 * rest < denominator {
        quotient
    } else if 2 * rest > denominator {
        quotient + 1
    } else if quotient % 2 == 0 {
        quotient
    } else {
        quotient + 1
    }
}

/// The spacing of the double precision numbers around `n`: one up to 53
/// bits, and doubled with every further bit.
pub open spec fn double_spacing(n: nat) -> nat
    decreases n,
{
    if n < 0x20_0000_0000_0000 {
        1
    } else {
        2 * double_spacing(n / 2)
    }
}

/// The double precision number nearest to `n`; exactly halfway between two,
/// the one with the even mantissa.
pub open spec fn nearest_double(n: nat) -> nat {
    round_half_even(n, double_spacing(n)) * double_spacing(n)
}

/// The place in the list of units of the largest unit that a size reaches:
/// bytes, then kilo-, mega-, giga- and terabytes, each 1024 of the one
/// before.
pub open spec fn unit_index(size: nat) -> nat {
    if size < 1024 {
        0
    } else if size < 1_048_576 {
        1
    } else if size < 1_073_741_824 {
        2
    } else if size < 1_099_511_627_776 {
        3
    } else {
        4
    }
}

/// The number of bytes in the unit at `index`.
pub open spec fn unit_bytes(index: nat) -> nat {
    if index == 0 {
        1
    } else if index == 1 {
        1024
    } else if index == 2 {
        1_048_576
    } else if index == 3 {
        1_073_741_824
    } else {
        1_099_511_627_776
    }
}

/// The name of the unit at `index`.
pub open spec fn unit_name(index: nat) -> Seq<char> {
    if index == 0 {
        "B"@
    } else if index == 1 {
        "KB"@
    } else if index == 2 {
        "MB"@
    } else if index == 3 {
        "GB"@
    } else {
        "TB"@
    }
}

/// A number below one hundred with two digits.
pub open spec fn two_digits(n: nat) -> Seq<char> {
    seq![digit_char((n / 10) as int), digit_char((n % 10) as int)]
}

/// A size in hundredths of its unit: the size is taken as the nearest double
/// precision number, divided by its unit and rounded to two decimals.
pub open spec fn hundredths(bytes: nat) -> nat {
    let size = nearest_double(bytes);
    round_half_even(size * 100, unit_bytes(unit_index(size)))
}

/// A size as text: the number with two decimals, a space and the unit.
pub open spec fn bytes_text(bytes: nat) -> Seq<char> {
    decimal(hundredths(bytes) / 100) + "."@ + two_digits(hundredths(bytes) % 100) + " "@
        + unit_name(unit_index(nearest_double(bytes)))
}

/// Rounds a quotient to the nearest whole number, halves to the even one.
fn rounded_quotient(numerator: u128, denominator: u128) -> (rounded: u128)
    requires
        denominator > 0,
        numerator < 0x1_0000_0000_0000_0000_0000,
    ensures
        rounded == round_half_even(numerator as nat, denominator as nat),
        rounded <= numerator / denominator + 1,
{
    let quotient: u128 = numerator / denominator;
    let rest: u128 = numerator % denominator;
    if rest < denominator - rest {
        quotient
    } else if rest > denominator - rest {
        quotient + 1
    } else if quotient % 2 == 0 {
        quotient
    } else {
        quotient + 1
    }
}

/// The double precision number nearest to `bytes`.
fn to_nearest_double(bytes: u64) -> (size: u128)
    ensures
        size == nearest_double(bytes as nat),
        size < 0x1_0000_0000_0000_1000,
{
    let mut spacing: u64 = 1;
    let mut rest: u64 = bytes;
    while rest >= 0x20_0000_0000_0000
        invariant
            1 <= spacing < 4096,
            rest * spacing <= bytes,
            bytes < (rest + 1) * spacing,
            double_spacing(bytes as nat) == spacing * double_spacing(rest as nat),
        decreases rest,
    {
        let ghost before = rest;
        let ghost unit = spacing;
        assert(unit < 2048) by (nonlinear_arith)
            requires
                before >= 0x20_0000_0000_0000,
                before * unit <= 0xffff_ffff_ffff_ffff,
                unit >= 1,
        ;
        rest = rest / 2;
        spacing = spacing * 2;
        assert(rest * spacing <= bytes && bytes < (rest + 1) * spacing && spacing
            * double_spacing(rest as nat) == unit * double_spacing(before as nat))
            by (nonlinear_arith)
            requires
                rest == before / 2,
                spacing == 2 * unit,
                before * unit <= bytes,
                bytes < (before + 1) * unit,
                double_spacing(before as nat) == 2 * double_spacing(rest as nat),
        ;
    }
    assert(double_spacing(rest as nat) == 1);
    assert(double_spacing(bytes as nat) == spacing) by (nonlinear_arith)
        requires
            double_spacing(bytes as nat) == spacing * double_spacing(rest as nat),
            double_spacing(rest as nat) == 1,
    ;
    let rounded = rounded_quotient(bytes as u128, spacing as u128);
    assert(bytes as int / spacing as int == rest) by (nonlinear_arith)
        requires
            rest * spacing <= bytes,
            bytes < (rest + 1) * spacing,
            spacing >= 1,
    ;
    assert(rounded * spacing <= bytes + spacing) by (nonlinear_arith)
        requires
            rounded <= rest + 1,
            rest * spacing <= bytes,
            spacing >= 1,
    ;
    rounded * (spacing as u128)
}

/// The name of the unit at `index`.
fn unit_label(index: usize) -> (name: &'static str)
    ensures
        name@ == unit_name(index as nat),
{
    if index == 0 {
        "B"
    } else if index == 1 {
        "KB"
    } else if index == 2 {
        "MB"
    } else if index == 3 {
        "GB"
    } else {
        "TB"
    }
}

/// Appends a number below one hundred with two digits.
fn push_two_digits(out: &mut String, n: u64)
    requires
        n < 100,
    ensures
        final(out)@ == old(out)@ + two_digits(n as nat),
{
    let ghost start = out@;
    push_decimal(out, n / 10);
    push_decimal(out, n % 10);
    proof {
        assert(decimal((n / 10) as nat) =~= seq![digit_char((n / 10) as int)]);
        assert(decimal((n % 10) as nat) =~= seq![digit_char((n % 10) as int)]);
        assert(out@ =~= start + two_digits(n as nat));
    }
}

/// Renders a size in bytes with two decimals in the largest unit that it
/// reaches, from `B` to `TB`.
pub fn format_bytes(bytes: u64) -> (text: String)
    ensures
        text@ == bytes_text(bytes as nat),
{
    let size: u128 = to_nearest_double(bytes);
    let index: usize = if size < 1024 {
        0
    } else if size < 1_048_576 {
        1
    } else if size < 1_073_741_824 {
        2
    } else if size < 1_099_511_627_776 {
        3
    } else {
        4
    };
    let unit: u128 = if index == 0 {
        1
    } else if index == 1 {
        1024
    } else if index == 2 {
        1_048_576
    } else if index == 3 {
        1_073_741_824
    } else {
        1_099_511_627_776
    };
    let scaled: u128 = rounded_quotient(size * 100, unit);
    let whole: u64 = (scaled / 100) as u64;
    let cents: u64 = (scaled % 100) as u64;
    let mut text = String::new();
    push_decimal(&mut text, whole);
    text.append(".");
    push_two_digits(&mut text, cents);
    text.append(" ");
    text.append(unit_label(index));
    assert(text@ =~= bytes_text(bytes as nat));
    text
}

/// The largest number of seconds, to either side of zero, that a duration
/// can hold.
pub const MAX_DURATION_SECONDS: i64 = 9_223_372_036_854_775;

/// The quotient of a division that rounds towards zero.
pub open spec fn truncated_quotient(n: int, d: int) -> int {
    if n >= 0 {
        n / d
    } else {
        -((-n) / d)
    }
}

/// The remainder of a division that rounds towards zero: it has the sign of
/// the dividend.
pub open spec fn truncated_remainder(n: int, d: int) -> int {
    n - truncated_quotient(n, d) * d
}

/// Whole hours of a duration of `seconds` seconds.
///
/// Calls `chrono::Duration::seconds` and `num_hours` on the result. The
/// first accepts every number of seconds within `MAX_DURATION_SECONDS` of
/// zero; the second divides the seconds by 3600 and rounds towards zero.
#[verifier::external_body]
fn whole_hours(seconds: i64) -> (hours: i64)
    requires
        -MAX_DURATION_SECONDS <= seconds <= MAX_DURATION_SECONDS,
    ensures
        hours == truncated_quotient(seconds as int, 3600),
{
    chrono::Duration::seconds(seconds).num_hours()
}

/// Whole minutes of a duration of `seconds` seconds.
///
/// Calls `chrono::Duration::seconds` and `num_minutes` on the result, which
/// divides the seconds by 60 and rounds towards zero.
#[verifier::external_body]
fn whole_minutes(seconds: i64) -> (minutes: i64)
    requires
        -MAX_DURATION_SECONDS <= seconds <= MAX_DURATION_SECONDS,
    ensures
        minutes == truncated_quotient(seconds as int, 60),
{
    chrono::Duration::seconds(seconds).num_minutes()
}

/// A duration as text: hours, minutes and seconds, without the leading
/// parts that are not above zero.
pub open spec fn duration_text(seconds: int) -> Seq<char> {
    let hours = truncated_quotient(seconds, 3600);
    let minutes = truncated_remainder(truncated_quotient(seconds, 60), 60);
    let rest = truncated_remainder(seconds, 60);
    if hours > 0 {
        signed_decimal(hours) + "h "@ + signed_decimal(minutes) + "m "@ + signed_decimal(rest)
            + "s"@
    } else if minutes > 0 {
        signed_decimal(minutes) + "m "@ + signed_decimal(rest) + "s"@
    } else {
        signed_decimal(rest) + "s"@
    }
}

/// Appends the numeral of a signed number.
fn push_signed(out: &mut String, n: i64)
    requires
        n > i64::MIN,
    ensures
        final(out)@ == old(out)@ + signed_decimal(n as int),
{
    let ghost start = out@;
    if n < 0 {
        out.append("-");
        push_decimal(out, (-n) as u64);
        proof {
            reveal_strlit("-");
            assert("-"@ =~= seq!['-']);
            assert(out@ =~= start + signed_decimal(n as int));
        }
    } else {
        push_decimal(out, n as u64);
    }
}

/// Renders a duration of `seconds` seconds, such as `1h 2m 3s`, `2m 3s` or
/// `3s`.
pub fn format_duration(seconds: i64) -> (text: String)
    requires
        -MAX_DURATION_SECONDS <= seconds <= MAX_DURATION_SECONDS,
    ensures
        text@ == duration_text(seconds as int),
{
    let hours: i64 = whole_hours(seconds);
    let minutes: i64 = whole_minutes(seconds) % 60;
    let rest: i64 = seconds % 60;
    let mut text = String::new();
    if hours > 0 {
        push_signed(&mut text, hours);
        text.append("h ");
        push_signed(&mut text, minutes);
        text.append("m ");
        push_signed(&mut text, rest);
        text.append("s");
    } else if minutes > 0 {
        push_signed(&mut text, minutes);
        text.append("m ");
        push_signed(&mut text, rest);
        text.append("s");
    } else {
        push_signed(&mut text, rest);
        text.append("s");
    }
    assert(text@ =~= duration_text(seconds as int));
    text
}

} // verus!
