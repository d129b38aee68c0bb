//! Human-readable formatting of byte counts and transfer speeds.
//!
//! Counts below 1024 are printed exactly; larger counts are scaled by a
//! binary unit and printed with one decimal digit, rounded to nearest with
//! ties to even.

use vstd::prelude::*;
use vstd::string::StringExecFns;

verus! {

/// The character for one decimal digit.
pub open spec fn spec_digit(d: int) -> char {
    if d == 0 {
        '0'
    } else if d == 1 {
        '1'
    } else if d == 2 {
        '2'
    } else if d == 3 {
        '3'
    } else if d == 4 {
        '4'
    } else if d == 5 {
        '5'
    } else if d == 6 {
        '6'
    } else if d == 7 {
        '7'
    } else if d == 8 {
        '8'
    } else {
        '9'
    }
}

/// The decimal digit string of a nonnegative integer, without sign or
/// leading zeros (the number zero is the single digit `0`).
pub open spec fn spec_dec(n: int) -> Seq<char>
    decreases n,
{
    if n < 10 {
        seq![spec_digit(n)]
    } else {
        spec_dec(n / 10).push(spec_digit(n % 10))
    }
}

/// The one-character string for one decimal digit.
fn digit_str(d: u64) -> (s: &'static str)
    requires
        d < 10,
    ensures
        s@ == seq![spec_digit(d as int)],
{
    let s: &'static str = match d {
        0 => "0",
        1 => "1",
        2 => "2",
        3 => "3",
        4 => "4",
        5 => "5",
        6 => "6",
        7 => "7",
        8 => "8",
        _ => "9",
    };
    proof {
        reveal_strlit("0");
        reveal_strlit("1");
        reveal_strlit("2");
        reveal_strlit("3");
        reveal_strlit("4");
        reveal_strlit("5");
        reveal_strlit("6");
        reveal_strlit("7");
        reveal_strlit("8");
        reveal_strlit("9");
        assert(s@ =~= seq![spec_digit(d as int)]);
    }
    s
}

/// Write the decimal digits of `n` onto the end of `s`.
fn push_dec(s: &mut String, n: u64)
    ensures
        final(s)@ == old(s)@ + spec_dec(n as int),
    decreases n,
{
    if n >= 10 {
        push_dec(s, n / 10);
        let d = digit_str(n % 10);
        s.append(d);
        proof {
            assert(s@ =~= old(s)@ + spec_dec(n as int));
        }
    } else {
        let d = digit_str(n);
        s.append(d);
        proof {
            assert(s@ =~= old(s)@ + spec_dec(n as int));
        }
    }
}

/// The decimal rendering of a value, as a fresh string.
pub(crate) fn u64_to_dec(n: u64) -> (s: String)
    ensures
        s@ == spec_dec(n as int),
{
    let mut s = String::new();
    push_dec(&mut s, n);
    proof {
        assert(s@ =~= spec_dec(n as int));
    }
    s
}

/// `b` scaled by `unit` in tenths, rounded to nearest with ties to even:
/// the integer nearest to `10 * b / unit`.
pub open spec fn spec_tenths(b: int, unit: int) -> int
    recommends
        unit >= 2,
{
    let n = b * 10;
    let q = n / unit;
    let r = n % unit;
    if 2 * r > unit {
        q + 1
    } else if 2 * r < unit {
        q
    } else if q % 2 == 1 {
        q + 1
    } else {
        q
    }
}

fn tenths(b: u64, unit: u64) -> (t: u64)
    requires
        1024 <= unit,
    ensures
        t == spec_tenths(b as int, unit as int),
{
    let n: u128 = (b as u128) * 10;
    let u: u128 = unit as u128;
    let q: u128 = n / u;
    let r: u128 = n % u;
    proof {
        assert(q * u + r == n && 0 <= r < u) by {
            vstd::arithmetic::div_mod::lemma_fundamental_div_mod(n as int, u as int);
        }
        assert(q <= n) by (nonlinear_arith)
            requires
                q * u + r == n && 0 <= r && u >= 1024,
        ;
    }
    let t128: u128 = if 2 * r > u {
        q + 1
    } else if 2 * r < u {
        q
    } else if q % 2 == 1 {
        q + 1
    } else {
        q
    };
    proof {
        assert(n <= 0xffffffffffffffff * 10);
        assert(q < 0xffffffffffffffff) by (nonlinear_arith)
            requires
                q * u + r == n && 0 <= r && u >= 1024 && n <= 0xffffffffffffffff * 10,
        ;
    }
    t128 as u64
}

/// One-decimal rendering of a count of tenths: `13` is printed `1.3`.
pub open spec fn spec_tenth_str(t: int) -> Seq<char>
    recommends
        t >= 0,
{
    spec_dec(t / 10) + seq!['.'] + seq![spec_digit(t % 10)]
}

fn render_tenths(t: u64, suffix: &str) -> (s: String)
    ensures
        s@ == spec_tenth_str(t as int) + suffix@,
{
    let mut s = u64_to_dec(t / 10);
    s.append(".");
    let frac = u64_to_dec(t % 10);
    s.append(frac.as_str());
    s.append(suffix);
    proof {
        assert(seq!['.'] =~= "."@) by {
            reveal_strlit(".");
        }
        assert(spec_dec((t % 10) as int) =~= seq![spec_digit((t % 10) as int)]);
        assert(s@ =~= spec_tenth_str(t as int) + suffix@);
    }
    s
}

/// The rendering of a byte count: exact below 1 KB, otherwise one decimal
/// in the largest binary unit up to GB.
pub open spec fn spec_format_bytes(b: int) -> Seq<char> {
    if b < 1024 {
        spec_dec(b) + " B"@
    } else if b < 1048576 {
        spec_tenth_str(spec_tenths(b, 1024)) + " KB"@
    } else if b < 1073741824 {
        spec_tenth_str(spec_tenths(b, 1048576)) + " MB"@
    } else {
        spec_tenth_str(spec_tenths(b, 1073741824)) + " GB"@
    }
}

/// Format a byte count for display.
pub fn format_bytes(bytes: u64) -> (s: String)
    ensures
        s@ == spec_format_bytes(bytes as int),
{
    if bytes < 1024 {
        let mut s = u64_to_dec(bytes);
        s.append(" B");
        proof {
            assert(s@ =~= spec_format_bytes(bytes as int));
        }
        s
    } else if bytes < 1024 * 1024 {
        render_tenths(tenths(bytes, 1024), " KB")
    } else if bytes < 1024 * 1024 * 1024 {
        render_tenths(tenths(bytes, 1024 * 1024), " MB")
    } else {
        render_tenths(tenths(bytes, 1024 * 1024 * 1024), " GB")
    }
}

/// The rendering of a transfer speed: as `spec_format_bytes` but with a
/// `/s` suffix and no unit above MB.
pub open spec fn spec_format_speed(b: int) -> Seq<char> {
    if b < 1024 {
        spec_dec(b) + " B/s"@
    } else if b < 1048576 {
        spec_tenth_str(spec_tenths(b, 1024)) + " KB/s"@
    } else {
        spec_tenth_str(spec_tenths(b, 1048576)) + " MB/s"@
    }
}

/// Format a transfer speed in bytes per second for display.
pub fn format_speed(speed: u64) -> (s: String)
    ensures
        s@ == spec_format_speed(speed as int),
{
    if speed < 1024 {
        let mut s = u64_to_dec(speed);
        s.append(" B/s");
        proof {
            assert(s@ =~= spec_format_speed(speed as int));
        }
        s
    } else if speed < 1024 * 1024 {
        render_tenths(tenths(speed, 1024), " KB/s")
    } else {
        render_tenths(tenths(speed, 1024 * 1024), " MB/s")
    }
}

} // verus!
