//! Integer-exact text rendering: decimal numbers, and the human-readable
//! byte-count format used by the result report.

use vstd::prelude::*;
use vstd::string::StringExecFns;

verus! {

/// The character of one decimal digit.
pub open spec fn spec_digit_char(d: nat) -> char {
    ((48 + d) as u8) as char
}

/// The decimal digits of a number, most significant first.
pub open spec fn spec_digits(n: nat) -> Seq<char>
    decreases n,
{
    if n < 10 {
        seq![spec_digit_char(n)]
    } else {
        spec_digits(n / 10) + seq![spec_digit_char(n % 10)]
    }
}

/// One decimal digit as text.
fn digit_str(d: u64) -> (r: &'static str)
    requires
        d < 10,
    ensures
        r@ == seq![spec_digit_char(d as nat)],
{
    let r = match d {
        0 => "0",
        1 => "1",
        2 => "2",
        3 => "3",
        4 => "4",
        5 => "5",
        6 => "6",
        7 => "7",
        8 => "8",
        _ => "9",
    };
    proof {
        reveal_strlit("0");
        reveal_strlit("1");
        reveal_strlit("2");
        reveal_strlit("3");
        reveal_strlit("4");
        reveal_strlit("5");
        reveal_strlit("6");
        reveal_strlit("7");
        reveal_strlit("8");
        reveal_strlit("9");
        assert(r@ =~= seq![spec_digit_char(d as nat)]);
    }
    r
}

/// Renders a number in decimal.
pub fn u64_to_string(n: u64) -> (r: String)
    ensures
        r@ == spec_digits(n as nat),
    decreases n,
{
    if n < 10 {
        digit_str(n).to_owned()
    } else {
        let mut s = u64_to_string(n / 10);
        s.append(digit_str(n % 10));
        proof {
            assert(s@ =~= spec_digits(n as nat));
        }
        s
    }
}

/// `a / d` rounded half up.
pub open spec fn spec_round_div(a: nat, d: nat) -> nat
    recommends
        d >= 1,
{
    (((2 * a + d) as int) / (2 * (d as int))) as nat
}

/// The divisor of the unit a byte count is shown in: the largest power of
/// 1024 (up to terabytes) not exceeding the count.
pub open spec fn spec_unit_divisor(bytes: nat) -> nat {
    if bytes >= 0x100_0000_0000 {
        0x100_0000_0000
    } else if bytes >= 0x4000_0000 {
        0x4000_0000
    } else if bytes >= 0x10_0000 {
        0x10_0000
    } else if bytes >= 0x400 {
        0x400
    } else {
        1
    }
}

/// The unit a byte count is shown in.
pub open spec fn spec_unit_name(bytes: nat) -> Seq<char> {
    if bytes >= 0x100_0000_0000 {
        "TB"@
    } else if bytes >= 0x4000_0000 {
        "GB"@
    } else if bytes >= 0x10_0000 {
        "MB"@
    } else if bytes >= 0x400 {
        "KB"@
    } else {
        "B"@
    }
}

/// A byte count as human-readable text: "0 B" for zero; otherwise the count
/// scaled into its unit, rounded half up to two decimals below 10, one
/// decimal below 100, and none from 100 on, followed by a space and the
/// unit.
pub open spec fn spec_format_bytes(bytes: nat) -> Seq<char> {
    if bytes == 0 {
        "0 B"@
    } else {
        let d = spec_unit_divisor(bytes);
        let unit = spec_unit_name(bytes);
        if bytes >= 100 * d {
            spec_digits(spec_round_div(bytes, d)) + " "@ + unit
        } else if bytes >= 10 * d {
            let s = spec_round_div(10 * bytes, d);
            spec_digits(s / 10) + "."@ + seq![spec_digit_char(s % 10)] + " "@ + unit
        } else {
            let s = spec_round_div(100 * bytes, d);
            spec_digits(s / 100) + "."@ + seq![spec_digit_char((s / 10) % 10), spec_digit_char(
                s % 10,
            )] + " "@ + unit
        }
    }
}

/// `scaled / d` rounded half up, for the divisors used here.
fn round_div(scaled: u128, d: u64) -> (r: u64)
    requires
        1 <= d,
        scaled <= 200 * (u64::MAX as int),
        spec_round_div(scaled as nat, d as nat) <= u64::MAX,
    ensures
        r == spec_round_div(scaled as nat, d as nat),
{
    let q: u128 = (2 * scaled + d as u128) / (2 * d as u128);
    q as u64
}

/// The unit divisor and name for a byte count.
fn unit_of(bytes: u64) -> (r: (u64, &'static str))
    ensures
        r.0 == spec_unit_divisor(bytes as nat),
        r.1@ == spec_unit_name(bytes as nat),
{
    if bytes >= 0x100_0000_0000 {
        (0x100_0000_0000, "TB")
    } else if bytes >= 0x4000_0000 {
        (0x4000_0000, "GB")
    } else if bytes >= 0x10_0000 {
        (0x10_0000, "MB")
    } else if bytes >= 0x400 {
        (0x400, "KB")
    } else {
        (1, "B")
    }
}

/// Renders a byte count as human-readable text ("0 B", "1023 B", "1.50 KB",
/// "10.0 KB", "100 KB", ...).
pub fn format_bytes(bytes: u64) -> (r: String)
    ensures
        r@ == spec_format_bytes(bytes as nat),
{
    if bytes == 0 {
        return "0 B".to_owned();
    }
    let (d, unit) = unit_of(bytes);
    proof {
        assert(d >= 1);
        assert((2 * (bytes as int) + d) / (2 * (d as int)) <= bytes as int) by (nonlinear_arith)
            requires
                1 <= d as int,
                1 <= bytes as int;
        assert((2 * (10 * (bytes as int)) + d) / (2 * (d as int)) <= 10 * (bytes as int))
            by (nonlinear_arith)
            requires
                1 <= d as int,
                1 <= bytes as int;
        assert((2 * (100 * (bytes as int)) + d) / (2 * (d as int)) <= 100 * (bytes as int))
            by (nonlinear_arith)
            requires
                1 <= d as int,
                1 <= bytes as int;
    }
    let mut s: String;
    if bytes >= 100 * d {
        let rounded = round_div(bytes as u128, d);
        s = u64_to_string(rounded);
    } else if bytes >= 10 * d {
        let scaled = round_div(10 * (bytes as u128), d);
        s = u64_to_string(scaled / 10);
        s.append(".");
        s.append(digit_str(scaled % 10));
        proof {
            reveal_strlit(".");
        }
    } else {
        let scaled = round_div(100 * (bytes as u128), d);
        s = u64_to_string(scaled / 100);
        s.append(".");
        s.append(digit_str((scaled / 10) % 10));
        s.append(digit_str(scaled % 10));
        proof {
            reveal_strlit(".");
        }
    }
    s.append(" ");
    s.append(unit);
    proof {
        reveal_strlit(" ");
        assert(s@ =~= spec_format_bytes(bytes as nat));
    }
    s
}

} // verus!
