//! Human-scaled rendering of byte counts.
use vstd::prelude::*;
use crate::error::{decimal, render_decimal};

verus! {

pub const KB: u64 = 1024;

pub const MB: u64 = 1048576;

pub const GB: u64 = 1073741824;

/// `n / unit` in tenths, rounded to nearest with ties to even.
pub open spec fn scaled_tenths(n: nat, unit: nat) -> nat
    recommends
        unit > 0,
{
    let t = n * 10;
    let f = t / unit;
    let rem = t % unit;
    if 2 * rem > unit || (2 * rem == unit && f % 2 == 1) {
        f + 1
    } else {
        f
    }
}

/// `n / unit` with one decimal, followed by a space and `suffix`.
pub open spec fn scaled_text(n: nat, unit: nat, suffix: Seq<char>) -> Seq<char> {
    let t = scaled_tenths(n, unit);
    decimal(t / 10) + "."@ + decimal(t % 10) + " "@ + suffix
}

/// The rendering of a byte count: plain bytes below one KiB, else one decimal
/// in the largest binary unit (KB, MB, GB) that the count reaches.
pub open spec fn size_text(n: nat) -> Seq<char> {
    if n >= GB {
        scaled_text(n, GB as nat, "GB"@)
    } else if n >= MB {
        scaled_text(n, MB as nat, "MB"@)
    } else if n >= KB {
        scaled_text(n, KB as nat, "KB"@)
    } else {
        decimal(n) + " B"@
    }
}

proof fn lemma_split_tenths(n: nat, unit: nat, q: nat, r: nat)
    requires
        unit > 0,
        q == n / unit,
        r == n % unit,
    ensures
        (n * 10) / unit == q * 10 + (r * 10) / unit,
        (n * 10) % unit == (r * 10) % unit,
{
    assert(n == q * unit + r) by (nonlinear_arith)
        requires
            unit > 0,
            q == n / unit,
            r == n % unit,
    ;
    assert(n * 10 == (q * 10) * unit + r * 10) by (nonlinear_arith)
        requires
            n == q * unit + r,
    ;
    assert((r * 10) == unit * ((r * 10) / unit) + (r * 10) % unit) by (nonlinear_arith)
        requires
            unit > 0,
    ;
    assert(n * 10 == (q * 10 + (r * 10) / unit) * unit + (r * 10) % unit) by (nonlinear_arith)
        requires
            n * 10 == (q * 10) * unit + r * 10,
            (r * 10) == unit * ((r * 10) / unit) + (r * 10) % unit,
    ;
    vstd::arithmetic::div_mod::lemma_fundamental_div_mod_converse(
        (n * 10) as int,
        unit as int,
        (q * 10 + (r * 10) / unit) as int,
        ((r * 10) % unit) as int,
    );
}

proof fn lemma_digits(w: nat, fr: nat)
    requires
        fr < 10,
    ensures
        (w * 10 + fr) / 10 == w,
        (w * 10 + fr) % 10 == fr,
{
    vstd::arithmetic::div_mod::lemma_fundamental_div_mod_converse(
        (w * 10 + fr) as int,
        10,
        w as int,
        fr as int,
    );
}

fn render_scaled(n: u64, unit: u64, suffix: &str) -> (r: String)
    requires
        unit == KB || unit == MB || unit == GB,
    ensures
        r@ == scaled_text(n as nat, unit as nat, suffix@),
{
    let q = n / unit;
    let rest = n % unit;
    let t = rest * 10;
    let f = t / unit;
    let rem = t % unit;
    proof {
        lemma_split_tenths(n as nat, unit as nat, q as nat, rest as nat);
        assert(f < 10) by (nonlinear_arith)
            requires
                rest < unit,
                t == rest * 10,
                f == t / unit,
                unit > 0,
        ;
    }
    let up = 2 * rem > unit || (2 * rem == unit && f % 2 == 1);
    let ghost tenths = scaled_tenths(n as nat, unit as nat);
    let (whole, frac): (u64, u64) = if up {
        if f == 9 {
            (q + 1, 0)
        } else {
            (q, f + 1)
        }
    } else {
        (q, f)
    };
    proof {
        assert((q * 10 + f) % 2 == f % 2) by (nonlinear_arith);
        assert(tenths == whole * 10 + frac);
        lemma_digits(whole as nat, frac as nat);
    }
    let mut r = render_decimal(whole);
    r.append(".");
    r.append(render_decimal(frac).as_str());
    r.append(" ");
    r.append(suffix);
    r
}

/// Renders a byte count for people: `"512 B"`, `"1.5 KB"`, `"2.0 MB"`, `"1.2 GB"`.
pub fn format_size(bytes: u64) -> (r: String)
    ensures
        r@ == size_text(bytes as nat),
{
    if bytes >= GB {
        render_scaled(bytes, GB, "GB")
    } else if bytes >= MB {
        render_scaled(bytes, MB, "MB")
    } else if bytes >= KB {
        render_scaled(bytes, KB, "KB")
    } else {
        let mut r = render_decimal(bytes);
        r.append(" B");
        r
    }
}

} // verus!
