//! How sizes and durations are shown to a person.
//!
//! The figures agree with what double-precision formatting prints: the
//! value is taken as a double, and the last digit shown is the nearest one,
//! ties going to the even digit.

use vstd::prelude::*;
use vstd::string::*;
use vstd::arithmetic::div_mod::lemma_fundamental_div_mod;

verus! {

/// The text of one decimal digit.
pub open spec fn digit_text(d: int) -> Seq<char> {
    if d == 0 {
        "0"@
    } else if d == 1 {
        "1"@
    } else if d == 2 {
        "2"@
    } else if d == 3 {
        "3"@
    } else if d == 4 {
        "4"@
    } else if d == 5 {
        "5"@
    } else if d == 6 {
        "6"@
    } else if d == 7 {
        "7"@
    } else if d == 8 {
        "8"@
    } else {
        "9"@
    }
}

/// The decimal text of a number, without leading zeros.
pub open spec fn decimal_text(n: nat) -> Seq<char>
    decreases n,
{
    if n < 10 {
        digit_text(n as int)
    } else {
        decimal_text(n / 10) + digit_text((n % 10) as int)
    }
}

/// The quotient of two numbers, rounded to the nearest integer; a quotient
/// that lies halfway goes to the even one.
pub open spec fn round_half_even(numerator: int, denominator: int) -> int {
    let q = numerator / denominator;
    let r = numerator % denominator;
    if 2 * r > denominator || (2 * r == denominator && q % 2 == 1) {
        q + 1
    } else {
        q
    }
}

/// The spacing of the doubles around an integer of 2^53 or more.
pub open spec fn double_step(n: int) -> int {
    if n < 0x40000000000000 {
        2int
    } else if n < 0x80000000000000 {
        4int
    } else if n < 0x100000000000000 {
        8int
    } else if n < 0x200000000000000 {
        16int
    } else if n < 0x400000000000000 {
        32int
    } else if n < 0x800000000000000 {
        64int
    } else if n < 0x1000000000000000 {
        128int
    } else if n < 0x2000000000000000 {
        256int
    } else if n < 0x4000000000000000 {
        512int
    } else if n < 0x8000000000000000 {
        1024int
    } else {
        2048int
    }
}

/// The double nearest to an integer below 2^64: the integer itself below
/// 2^53, and above that the nearest multiple of the spacing.
pub open spec fn double_of(n: int) -> int {
    if n < 0x20000000000000 {
        n
    } else {
        round_half_even(n, double_step(n)) * double_step(n)
    }
}

/// The unit in which a size is shown: bytes below 1024, then KB, MB and,
/// from 1024 MB on, GB.
pub open spec fn size_unit(bytes: int) -> int {
    if bytes < 1024 {
        0
    } else if bytes < 1048576 {
        1
    } else if bytes < 1073741824 {
        2
    } else {
        3
    }
}

/// The number of bytes in a unit.
pub open spec fn unit_bytes(unit: int) -> int {
    if unit == 0 {
        1
    } else if unit == 1 {
        1024
    } else if unit == 2 {
        1048576
    } else {
        1073741824
    }
}

/// The name of a unit.
pub open spec fn unit_name(unit: int) -> Seq<char> {
    if unit == 0 {
        " B"@
    } else if unit == 1 {
        " KB"@
    } else if unit == 2 {
        " MB"@
    } else {
        " GB"@
    }
}

/// A size in hundredths of its unit.
pub open spec fn size_hundredths(bytes: int) -> int {
    round_half_even(double_of(bytes) * 100, unit_bytes(size_unit(bytes)))
}

/// The text of a size: whole bytes below 1024, else two decimals and the
/// unit.
pub open spec fn file_size_text(bytes: u64) -> Seq<char> {
    if bytes < 1024 {
        decimal_text(bytes as nat) + " B"@
    } else {
        let h = size_hundredths(bytes as int);
        decimal_text((h / 100) as nat) + "."@ + digit_text((h / 10) % 10) + digit_text(h % 10)
            + unit_name(size_unit(bytes as int))
    }
}

/// The factor that brings a number of seconds from 1 to below 60, given in
/// milliseconds, to a double's 53 significant bits.
pub open spec fn seconds_scale(milliseconds: int) -> int {
    if milliseconds < 2000 {
        0x10000000000000int
    } else if milliseconds < 4000 {
        0x8000000000000int
    } else if milliseconds < 8000 {
        0x4000000000000int
    } else if milliseconds < 16000 {
        0x2000000000000int
    } else if milliseconds < 32000 {
        0x1000000000000int
    } else {
        0x800000000000int
    }
}

/// Where the double nearest to a number of seconds lies against the exact
/// number: 1 above it, 0 on it, -1 below it.
pub open spec fn double_of_seconds_lies(milliseconds: int) -> int {
    let scaled = milliseconds * seconds_scale(milliseconds);
    let q = scaled / 1000;
    let r = scaled % 1000;
    if r == 0 {
        0
    } else if 2 * r > 1000 || (2 * r == 1000 && q % 2 == 1) {
        1
    } else {
        -1
    }
}

/// A duration from one second to below a minute, in tenths of a second.
/// Halfway between two tenths the double decides: the upper tenth where it
/// lies above the exact number, the lower where it lies below, the even one
/// where it is exact.
pub open spec fn duration_tenths(milliseconds: int) -> int {
    let low = milliseconds / 100;
    let rest = milliseconds % 100;
    if rest > 50 {
        low + 1
    } else if rest < 50 {
        low
    } else if double_of_seconds_lies(milliseconds) > 0 || (double_of_seconds_lies(milliseconds)
        == 0 && low % 2 == 1) {
        low + 1
    } else {
        low
    }
}

/// The text of a duration: milliseconds below a second, seconds with one
/// decimal below a minute, else whole minutes and seconds.
pub open spec fn processing_time_text(milliseconds: u64) -> Seq<char> {
    if milliseconds < 1000 {
        decimal_text(milliseconds as nat) + "ms"@
    } else if milliseconds < 60000 {
        let t = duration_tenths(milliseconds as int);
        decimal_text((t / 10) as nat) + "."@ + digit_text(t % 10) + "s"@
    } else {
        decimal_text((milliseconds / 60000) as nat) + "m "@ + decimal_text(
            ((milliseconds % 60000) / 1000) as nat,
        ) + "s"@
    }
}

fn digit(d: u128) -> (text: &'static str)
    requires
        d < 10,
    ensures
        text@ == digit_text(d as int),
{
    if d == 0 {
        "0"
    } else if d == 1 {
        "1"
    } else if d == 2 {
        "2"
    } else if d == 3 {
        "3"
    } else if d == 4 {
        "4"
    } else if d == 5 {
        "5"
    } else if d == 6 {
        "6"
    } else if d == 7 {
        "7"
    } else if d == 8 {
        "8"
    } else {
        "9"
    }
}

/// The decimal text of a number.
pub fn decimal(n: u128) -> (text: String)
    ensures
        text@ == decimal_text(n as nat),
    decreases n,
{
    if n < 10 {
        String::from_str(digit(n))
    } else {
        decimal(n / 10).concat(digit(n % 10))
    }
}

fn rounded_quotient(numerator: u128, denominator: u128) -> (rounded: u128)
    requires
        0 < denominator <= 0x10000000000000000,
        numerator <= 0x10000000000000000000,
    ensures
        rounded == round_half_even(numerator as int, denominator as int),
        rounded <= numerator / denominator + 1,
{
    let q: u128 = numerator / denominator;
    let r: u128 = numerator % denominator;
    if 2 * r > denominator || (2 * r == denominator && q % 2 == 1) {
        q + 1
    } else {
        q
    }
}

fn nearest_double(n: u64) -> (value: u128)
    ensures
        value == double_of(n as int),
        value <= 0x10000000000000000,
{
    if n < 0x20000000000000 {
        return n as u128;
    }
    let step: u128 = if n < 0x40000000000000 {
        2u128
    } else if n < 0x80000000000000 {
        4u128
    } else if n < 0x100000000000000 {
        8u128
    } else if n < 0x200000000000000 {
        16u128
    } else if n < 0x400000000000000 {
        32u128
    } else if n < 0x800000000000000 {
        64u128
    } else if n < 0x1000000000000000 {
        128u128
    } else if n < 0x2000000000000000 {
        256u128
    } else if n < 0x4000000000000000 {
        512u128
    } else if n < 0x8000000000000000 {
        1024u128
    } else {
        2048u128
    };
    let rounded: u128 = rounded_quotient(n as u128, step);
    proof {
        lemma_fundamental_div_mod(n as int, step as int);
        let q = n as int / step as int;
        assert(rounded <= q + 1);
        assert(step * q <= n);
        assert(rounded * step <= step * q + step) by (nonlinear_arith)
            requires
                rounded <= q + 1,
                step > 0,
        ;
        assert(n as int % step as int == 0 ==> rounded == q);
        assert(0x10000000000000000int % step as int == 0);
        assert(rounded * step <= 0x10000000000000000) by {
            if rounded == q + 1 {
                multiple_below(q, step as int, 0x10000000000000000int / step as int);
            }
        }
    }
    rounded * step
}

/// A multiple of a step that lies below another multiple of it lies at
/// least one step below.
proof fn multiple_below(q: int, step: int, limit: int)
    requires
        step > 0,
        q * step < limit * step,
    ensures
        (q + 1) * step <= limit * step,
{
    assert(q < limit) by (nonlinear_arith)
        requires
            step > 0,
            q * step < limit * step,
    ;
    assert((q + 1) * step <= limit * step) by (nonlinear_arith)
        requires
            step > 0,
            q + 1 <= limit,
    ;
}

/// Shows a size.
pub fn get_file_size_formatted(bytes: u64) -> (text: String)
    ensures
        text@ == file_size_text(bytes),
{
    if bytes < 1024 {
        return decimal(bytes as u128).concat(" B");
    }
    let value: u128 = nearest_double(bytes);
    let (unit, name): (u128, &str) = if bytes < 1048576 {
        (1024, " KB")
    } else if bytes < 1073741824 {
        (1048576, " MB")
    } else {
        (1073741824, " GB")
    };
    let h: u128 = rounded_quotient(value * 100, unit);
    decimal(h / 100).concat(".").concat(digit((h / 10) % 10)).concat(digit(h % 10)).concat(name)
}

/// Shows a duration.
pub fn get_processing_time_formatted(milliseconds: u64) -> (text: String)
    ensures
        text@ == processing_time_text(milliseconds),
{
    if milliseconds < 1000 {
        decimal(milliseconds as u128).concat("ms")
    } else if milliseconds < 60000 {
        let low: u128 = (milliseconds / 100) as u128;
        let rest: u64 = milliseconds % 100;
        let tenths: u128 = if rest > 50 {
            low + 1
        } else if rest < 50 {
            low
        } else {
            let scale: u128 = if milliseconds < 2000 {
        0x10000000000000u128
    } else if milliseconds < 4000 {
        0x8000000000000u128
    } else if milliseconds < 8000 {
        0x4000000000000u128
    } else if milliseconds < 16000 {
        0x2000000000000u128
    } else if milliseconds < 32000 {
        0x1000000000000u128
    } else {
        0x800000000000u128
    };
            assert(milliseconds * scale <= 60000 * 0x10000000000000) by (nonlinear_arith)
                requires
                    milliseconds < 60000,
                    scale <= 0x10000000000000,
            ;
            let scaled: u128 = (milliseconds as u128) * scale;
            let q: u128 = scaled / 1000;
            let r: u128 = scaled % 1000;
            let above = r != 0 && (2 * r > 1000 || (2 * r == 1000 && q % 2 == 1));
            if above || (r == 0 && low % 2 == 1) {
                low + 1
            } else {
                low
            }
        };
        decimal(tenths / 10).concat(".").concat(digit(tenths % 10)).concat("s")
    } else {
        decimal((milliseconds / 60000) as u128).concat("m ").concat(
            decimal(((milliseconds % 60000) / 1000) as u128).as_str(),
        ).concat("s")
    }
}

} // verus!
