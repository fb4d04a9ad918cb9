//! Sizes as the browser shows them: plain bytes below a kilobyte, else
//! kilo-, mega- or gigabytes (powers of 1024) with one decimal place.
//!
//! The quotient is the one a binary `f64` holds: the byte count rounded to
//! 53 significant bits, divided by a power of two (which is exact), and the
//! decimal place is rounded to nearest with halves going to the even digit.
use vstd::prelude::*;
use vstd::arithmetic::power2::pow2;
use crate::text::{decimal, decimal_string, digit, digit_char, push_char};

verus! {

/// `v / d` rounded to the nearest whole number, a half going to the even
/// neighbour.
pub open spec fn div_round_even(v: nat, d: nat) -> nat {
    let q = v / d;
    let r = v % d;
    if 2 * r > d || (2 * r == d && q % 2 == 1) {
        q + 1
    } else {
        q
    }
}

/// How many low bits of `v` do not fit in the 53-bit significand of an
/// `f64`.
pub open spec fn dropped_bits(v: nat) -> nat
    decreases v,
{
    if v < 0x20_0000_0000_0000 {
        0
    } else {
        1 + dropped_bits(v / 2)
    }
}

/// The value of a whole number `v` converted to `f64`: `v` rounded to 53
/// significant bits, a half going to the even neighbour.
pub open spec fn f64_value(v: nat) -> nat {
    div_round_even(v, pow2(dropped_bits(v))) * pow2(dropped_bits(v))
}

/// The tenths shown for `f64_value(v) / 2^shift`.
pub open spec fn tenths(v: nat, shift: nat) -> nat {
    div_round_even(f64_value(v) * 10, pow2(shift))
}

/// A count of tenths written with one decimal place (`12` is `1.2`).
pub open spec fn with_one_decimal(t: nat) -> Seq<char> {
    decimal(t / 10) + seq!['.', digit(t % 10)]
}

/// `n` in decimal, with a minus sign when it is negative.
pub open spec fn signed_decimal(n: int) -> Seq<char> {
    if n < 0 {
        seq!['-'] + decimal((-n) as nat)
    } else {
        decimal(n as nat)
    }
}

/// The text shown for a size of `bytes`.
pub open spec fn size_text(bytes: int) -> Seq<char> {
    if bytes >= 0x4000_0000 {
        with_one_decimal(tenths(bytes as nat, 30)) + seq![' ', 'G', 'B']
    } else if bytes >= 0x10_0000 {
        with_one_decimal(tenths(bytes as nat, 20)) + seq![' ', 'M', 'B']
    } else if bytes >= 0x400 {
        with_one_decimal(tenths(bytes as nat, 10)) + seq![' ', 'K', 'B']
    } else {
        signed_decimal(bytes) + seq![' ', 'B']
    }
}

/// `v / d` rounded to the nearest whole number, halves to even.
fn round_half_even(v: u128, d: u128) -> (r: u128)
    requires
        d > 0,
        v < u128::MAX,
    ensures
        r == div_round_even(v as nat, d as nat),
        r <= v / d + 1,
{
    let q = v / d;
    let r = v % d;
    proof {
        vstd::arithmetic::div_mod::lemma_div_nonincreasing(v as int, d as int);
        vstd::arithmetic::div_mod::lemma_mod_pos_bound(v as int, d as int);
    }
    if r > d - r || (r == d - r && q % 2 == 1) {
        q + 1
    } else {
        q
    }
}

/// `v` converted to `f64`, as the whole number that the `f64` holds.
fn f64_of(v: u64) -> (r: u128)
    requires
        v < 0x8000_0000_0000_0000,
    ensures
        r == f64_value(v as nat),
        r <= 0x8000_0000_0000_0400,
{
    let mut w: u64 = v;
    let mut d: u64 = 1;
    let ghost mut e: nat = 0;
    proof {
        vstd::arithmetic::power2::lemma2_to64();
    }
    while w >= 0x20_0000_0000_0000
        invariant
            v < 0x8000_0000_0000_0000,
            d == pow2(e),
            e <= 10,
            0 < d <= 0x400,
            w == v as nat / d as nat,
            dropped_bits(v as nat) == e + dropped_bits(w as nat),
        decreases w,
    {
        proof {
            vstd::arithmetic::div_mod::lemma_fundamental_div_mod(v as int, d as int);
            vstd::arithmetic::div_mod::lemma_mod_pos_bound(v as int, d as int);
            assert(d * w <= v);
            assert(d * 0x20_0000_0000_0000 <= d * w) by (nonlinear_arith)
                requires
                    w >= 0x20_0000_0000_0000,
            ;
            assert(d < 0x400) by (nonlinear_arith)
                requires
                    d * 0x20_0000_0000_0000 <= v,
                    v < 0x8000_0000_0000_0000,
            ;
            vstd::arithmetic::div_mod::lemma_div_denominator(v as int, d as int, 2);
            vstd::arithmetic::power2::lemma_pow2_unfold(e + 1);
            vstd::arithmetic::power2::lemma2_to64();
            if e > 10 {
                vstd::arithmetic::power2::lemma_pow2_strictly_increases(10, e);
            }
            if e + 1 < 10 {
                vstd::arithmetic::power2::lemma_pow2_strictly_increases(e + 1, 10);
            }
        }
        w = w / 2;
        d = d * 2;
        proof {
            e = e + 1;
        }
    }
    let q = round_half_even(v as u128, d as u128);
    proof {
        vstd::arithmetic::div_mod::lemma_fundamental_div_mod(v as int, d as int);
        vstd::arithmetic::div_mod::lemma_mod_pos_bound(v as int, d as int);
        assert(q * d <= (w + 1) * d) by (nonlinear_arith)
            requires
                q <= w + 1,
                d > 0,
        ;
        assert((w + 1) * d == d * w + d) by (nonlinear_arith);
    }
    q * (d as u128)
}

/// `t` tenths with one decimal place.
fn one_decimal(t: u128) -> (s: String)
    requires
        t / 10 <= u64::MAX,
    ensures
        s@ == with_one_decimal(t as nat),
{
    let mut s = decimal_string((t / 10) as u64);
    push_char(&mut s, '.');
    push_char(&mut s, digit_char((t % 10) as u32));
    assert(s@ =~= with_one_decimal(t as nat));
    s
}

/// The size shown for `bytes`: below 1024 the count itself with ` B`,
/// else the count over 1024, 1024² or 1024³ with one decimal place and
/// ` KB`, ` MB` or ` GB`.
pub fn format_size(bytes: i64) -> (r: String)
    ensures
        r@ == size_text(bytes as int),
{
    proof {
        vstd::arithmetic::power2::lemma2_to64();
    }
    if bytes >= 0x400 {
        let f = f64_of(bytes as u64);
        let (unit, shift, letter): (u128, Ghost<nat>, char) = if bytes >= 0x4000_0000 {
            (0x4000_0000, Ghost(30nat), 'G')
        } else if bytes >= 0x10_0000 {
            (0x10_0000, Ghost(20nat), 'M')
        } else {
            (0x400, Ghost(10nat), 'K')
        };
        assert(unit == pow2(shift@));
        let t = round_half_even(f * 10, unit);
        assert(t <= (f * 10) / (unit as int) + 1);
        assert(t / 10 <= u64::MAX) by (nonlinear_arith)
            requires
                t <= (f * 10) / (unit as int) + 1,
                f <= 0x8000_0000_0000_0400,
                unit >= 0x400,
        ;
        let mut s = one_decimal(t);
        push_char(&mut s, ' ');
        push_char(&mut s, letter);
        push_char(&mut s, 'B');
        s
    } else {
        let mut s = if bytes < 0 {
            let mut m = String::new();
            push_char(&mut m, '-');
            let digits = decimal_string((0i128 - bytes as i128) as u64);
            m.append(digits.as_str());
            m
        } else {
            decimal_string(bytes as u64)
        };
        push_char(&mut s, ' ');
        push_char(&mut s, 'B');
        s
    }
}

} // verus!
