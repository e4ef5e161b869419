//! Byte-size formatting: decimal rendering of integers and base-1024 unit
//! formatting with two decimal places, fully specified at the level of
//! character sequences.

use vstd::prelude::*;
use vstd::string::StringExecFns;

verus! {

pub const KIB: u64 = 1024;

pub const MIB: u64 = 1024 * 1024;

pub const GIB: u64 = 1024 * 1024 * 1024;

pub const TIB: u64 = 1024 * 1024 * 1024 * 1024;

/// The character for a single decimal digit.
pub open spec fn spec_digit(d: int) -> char
    recommends
        0 <= d < 10,
{
    if d == 0 {
        '0'
    } else if d == 1 {
        '1'
    } else if d == 2 {
        '2'
    } else if d == 3 {
        '3'
    } else if d == 4 {
        '4'
    } else if d == 5 {
        '5'
    } else if d == 6 {
        '6'
    } else if d == 7 {
        '7'
    } else if d == 8 {
        '8'
    } else {
        '9'
    }
}

/// Decimal rendering of a natural number, most significant digit first.
pub open spec fn spec_dec(n: nat) -> Seq<char>
    decreases n,
{
    if n < 10 {
        seq![spec_digit(n as int)]
    } else {
        spec_dec(n / 10) + seq![spec_digit((n % 10) as int)]
    }
}

/// Two-digit rendering of a value below 100, zero-padded.
pub open spec fn spec_two_dec(f: int) -> Seq<char>
    recommends
        0 <= f < 100,
{
    seq![spec_digit(f / 10), spec_digit(f % 10)]
}

/// `bytes` measured in `unit`s, rendered as "W.FF": the whole part followed
/// by two decimal places, rounding half away from zero.
pub open spec fn spec_scaled_two_dec(bytes: u64, unit: u64) -> Seq<char>
    recommends
        unit >= 1,
{
    let w0 = bytes as int / unit as int;
    let f0 = ((bytes as int % unit as int) * 100 + unit as int / 2) / unit as int;
    let w = if f0 == 100 {
        w0 + 1
    } else {
        w0
    };
    let f = if f0 == 100 {
        0
    } else {
        f0
    };
    spec_dec(w as nat) + "."@ + spec_two_dec(f)
}

/// The base-1024 unit in which `bytes` is rendered: the largest of B, KB,
/// MB, GB, TB that does not exceed it, TB at most.
pub open spec fn spec_unit_size(bytes: u64) -> u64 {
    if bytes >= TIB {
        TIB
    } else if bytes >= GIB {
        GIB
    } else if bytes >= MIB {
        MIB
    } else if bytes >= KIB {
        KIB
    } else {
        1
    }
}

/// The name of the unit chosen by `spec_unit_size`.
pub open spec fn spec_unit_name(bytes: u64) -> Seq<char> {
    if bytes >= TIB {
        "TB"@
    } else if bytes >= GIB {
        "GB"@
    } else if bytes >= MIB {
        "MB"@
    } else if bytes >= KIB {
        "KB"@
    } else {
        "B"@
    }
}

/// Human-readable rendering of a byte count: base-1024 units with two
/// decimal places, "0 B" for zero.
pub open spec fn spec_format_bytes(bytes: u64) -> Seq<char> {
    if bytes == 0 {
        "0 B"@
    } else {
        spec_scaled_two_dec(bytes, spec_unit_size(bytes)) + " "@ + spec_unit_name(bytes)
    }
}

/// The string for a single decimal digit.
fn digit_str(d: u64) -> (r: &'static str)
    requires
        d < 10,
    ensures
        r@ == seq![spec_digit(d as int)],
{
    proof {
        reveal_strlit("0");
        reveal_strlit("1");
        reveal_strlit("2");
        reveal_strlit("3");
        reveal_strlit("4");
        reveal_strlit("5");
        reveal_strlit("6");
        reveal_strlit("7");
        reveal_strlit("8");
        reveal_strlit("9");
    }
    let r = match d {
        0 => "0",
        1 => "1",
        2 => "2",
        3 => "3",
        4 => "4",
        5 => "5",
        6 => "6",
        7 => "7",
        8 => "8",
        _ => "9",
    };
    proof {
        assert(r@ =~= seq![spec_digit(d as int)]);
    }
    r
}

/// Decimal rendering of a `u64`, most significant digit first.
pub fn u64_to_string(n: u64) -> (s: String)
    ensures
        s@ == spec_dec(n as nat),
    decreases n,
{
    if n < 10 {
        String::from_str(digit_str(n))
    } else {
        let mut s = u64_to_string(n / 10);
        s.append(digit_str(n % 10));
        proof {
            assert(s@ =~= spec_dec(n as nat));
        }
        s
    }
}

/// "W.FF" rendering of `bytes` measured in `unit`s.
pub(crate) fn scaled_two_dec(bytes: u64, unit: u64) -> (s: String)
    requires
        1 <= unit <= TIB,
    ensures
        s@ == spec_scaled_two_dec(bytes, unit),
{
    let w0 = bytes / unit;
    let rem = bytes % unit;
    proof {
        assert(rem < unit);
        assert(rem as int * 100 + unit as int / 2 < 101 * unit as int) by (nonlinear_arith)
            requires
                rem < unit,
                unit >= 1,
        ;
        assert((rem as int * 100 + unit as int / 2) / (unit as int) <= 100) by (nonlinear_arith)
            requires
                rem as int * 100 + unit as int / 2 < 101 * unit as int,
                unit >= 1,
        ;
        assert(rem as int * 100 + unit as int / 2 <= u64::MAX) by (nonlinear_arith)
            requires
                rem < unit,
                unit <= TIB,
        ;
    }
    let f0 = (rem * 100 + unit / 2) / unit;
    let (w, f): (u64, u64) = if f0 == 100 {
        proof {
            // rounding can only carry when the unit admits a remainder
            assert(unit >= 2);
            assert(bytes as int / (unit as int) < u64::MAX) by (nonlinear_arith)
                requires
                    unit >= 2,
                    bytes <= u64::MAX,
            ;
        }
        (w0 + 1, 0)
    } else {
        (w0, f0)
    };
    let mut s = u64_to_string(w);
    s.append(".");
    s.append(digit_str(f / 10));
    s.append(digit_str(f % 10));
    proof {
        assert(s@ =~= spec_scaled_two_dec(bytes, unit));
    }
    s
}

/// Format a byte count as a human-readable string: base-1024 units
/// (B, KB, MB, GB, TB) with two decimal places.
pub fn format_bytes(bytes: u64) -> (s: String)
    ensures
        s@ == spec_format_bytes(bytes),
{
    if bytes == 0 {
        return String::from_str("0 B");
    }
    let (unit, name): (u64, &'static str) = if bytes >= TIB {
        (TIB, "TB")
    } else if bytes >= GIB {
        (GIB, "GB")
    } else if bytes >= MIB {
        (MIB, "MB")
    } else if bytes >= KIB {
        (KIB, "KB")
    } else {
        (1, "B")
    };
    let mut s = scaled_two_dec(bytes, unit);
    s.append(" ");
    s.append(name);
    proof {
        assert(s@ =~= spec_format_bytes(bytes));
    }
    s
}

/// Format a byte count as a human-readable string; identical to
/// `format_bytes`.
pub fn format_size(bytes: u64) -> (s: String)
    ensures
        s@ == spec_format_bytes(bytes),
{
    format_bytes(bytes)
}

} // verus!
