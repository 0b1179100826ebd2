use vstd::prelude::*;
use crate::text::{decimal, digit_char, decimal_text, digit_text, join_text};

verus! {

pub const KIB: u64 = 1024;
pub const MIB: u64 = 1024 * 1024;
pub const GIB: u64 = 1024 * 1024 * 1024;

/// `n / unit` in hundredths, rounded to nearest, ties to even.
pub open spec fn hundredths(n: nat, unit: nat) -> nat
    recommends
        unit > 0,
{
    let q = (n * 100) / unit;
    let rem = (n * 100) % unit;
    if 2 * rem > unit || (2 * rem == unit && q % 2 == 1) { q + 1 } else { q }
}

/// A count of hundredths written with two decimals.
pub open spec fn two_decimals(h: nat) -> Seq<char> {
    decimal(h / 100) + seq!['.', digit_char((h % 100) / 10), digit_char(h % 10)]
}

/// `n / unit` with two decimals, followed by `suffix`.
pub open spec fn scaled_text(n: nat, unit: nat, suffix: Seq<char>) -> Seq<char> {
    two_decimals(hundredths(n, unit)) + suffix
}

pub open spec fn bytes_text(b: u64) -> Seq<char> {
    if b >= GIB {
        scaled_text(b as nat, GIB as nat, " GB"@)
    } else if b >= MIB {
        scaled_text(b as nat, MIB as nat, " MB"@)
    } else if b >= KIB {
        scaled_text(b as nat, KIB as nat, " KB"@)
    } else {
        decimal(b as nat) + " B"@
    }
}

pub open spec fn speed_text(s: u64) -> Seq<char> {
    if s >= MIB {
        scaled_text(s as nat, MIB as nat, " MB/s"@)
    } else if s >= KIB {
        scaled_text(s as nat, KIB as nat, " KB/s"@)
    } else {
        decimal(s as nat) + " B/s"@
    }
}

fn scaled(n: u64, unit: u64, suffix: &str) -> (r: String)
    requires
        unit > 0,
    ensures
        r@ == scaled_text(n as nat, unit as nat, suffix@),
{
    let m: u128 = n as u128 * 100;
    let q: u128 = m / unit as u128;
    let rem: u128 = m % unit as u128;
    assert(q <= m) by (nonlinear_arith)
        requires
            q == m / unit as u128,
            unit >= 1,
    ;
    let h: u128 = if 2 * rem > unit as u128 || (2 * rem == unit as u128 && q % 2 == 1) { q + 1 } else { q };
    assert(h == hundredths(n as nat, unit as nat));
    let whole = (h / 100) as u64;
    let frac = (h % 100) as u64;
    let number = decimal_text(whole);
    let point = join_text(number.as_str(), ".");
    let tens = join_text(point.as_str(), digit_text(frac / 10));
    let units = join_text(tens.as_str(), digit_text(frac % 10));
    proof {
        reveal_strlit(".");
        assert(units@ == two_decimals(h as nat));
    }
    join_text(units.as_str(), suffix)
}

/// A byte count for display: plain bytes under a kibibyte, else kibibytes,
/// mebibytes or gibibytes with two decimals.
pub fn format_bytes(bytes: u64) -> (r: String)
    ensures
        r@ == bytes_text(bytes),
{
    if bytes >= GIB {
        scaled(bytes, GIB, " GB")
    } else if bytes >= MIB {
        scaled(bytes, MIB, " MB")
    } else if bytes >= KIB {
        scaled(bytes, KIB, " KB")
    } else {
        let number = decimal_text(bytes);
        join_text(number.as_str(), " B")
    }
}

/// A throughput in bytes per second for display.
pub fn format_speed(bytes_per_sec: u64) -> (r: String)
    ensures
        r@ == speed_text(bytes_per_sec),
{
    if bytes_per_sec >= MIB {
        scaled(bytes_per_sec, MIB, " MB/s")
    } else if bytes_per_sec >= KIB {
        scaled(bytes_per_sec, KIB, " KB/s")
    } else {
        let number = decimal_text(bytes_per_sec);
        join_text(number.as_str(), " B/s")
    }
}

} // verus!
