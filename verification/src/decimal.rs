//! Decimal text of a single-precision number, with one place behind the point.
//!
//! The magnitude is rounded to the nearest tenth, a tie to the even one. A
//! negative number keeps its sign also where it rounds to zero.

use vstd::prelude::*;
use vstd::arithmetic::div_mod::*;
use vstd::arithmetic::power2::*;
use crate::binary32::{
    exponent_of, fraction_of, is_finite, is_infinite, is_nan,
    magnitude_units, shift, sign_of, sign_set, significand,
};

verus! {

/// The quotient `n / d` rounded to the nearest whole number, a tie to the
/// even one.
pub open spec fn round_half_even(n: nat, d: nat) -> nat
    recommends
        d > 0,
{
    let q = n / d;
    let r = n % d;
    if 2 * r > d || (2 * r == d && q % 2 == 1) {
        q + 1
    } else {
        q
    }
}

/// The magnitude of a finite pattern in tenths, rounded.
pub open spec fn tenths(bits: u32) -> nat {
    round_half_even(10 * magnitude_units(bits), pow2(149))
}

pub open spec fn digit_char(d: nat) -> char
    recommends
        d < 10,
{
    if d == 0 {
        '0'
    } else if d == 1 {
        '1'
    } else if d == 2 {
        '2'
    } else if d == 3 {
        '3'
    } else if d == 4 {
        '4'
    } else if d == 5 {
        '5'
    } else if d == 6 {
        '6'
    } else if d == 7 {
        '7'
    } else if d == 8 {
        '8'
    } else {
        '9'
    }
}

/// The decimal digits of a natural number, without leading zeros.
pub open spec fn decimal_digits(n: nat) -> Seq<char>
    decreases n,
{
    if n < 10 {
        seq![digit_char(n)]
    } else {
        decimal_digits(n / 10).push(digit_char(n % 10))
    }
}

/// The text of the number with one decimal place.
pub open spec fn one_decimal(bits: u32) -> Seq<char> {
    if is_nan(bits) {
        seq!['N', 'a', 'N']
    } else {
        let sign = if sign_set(bits) {
            seq!['-']
        } else {
            Seq::empty()
        };
        if is_infinite(bits) {
            sign + seq!['i', 'n', 'f']
        } else {
            sign + decimal_digits(tenths(bits) / 10) + seq!['.', digit_char(tenths(bits) % 10)]
        }
    }
}

/// `String::push`: appends one character to the end of the string.
pub assume_specification[ String::push ](text: &mut String, c: char)
    ensures
        final(text)@ == old(text)@.push(c),
;

/// A quotient of two multiples of `c` rounds as the quotient of the factors.
proof fn lemma_round_scaled(n: nat, d: nat, c: nat)
    requires
        d > 0,
        c > 0,
    ensures
        round_half_even(n * c, d * c) == round_half_even(n, d),
{
    lemma_div_multiples_vanish_quotient(c as int, n as int, d as int);
    lemma_truncate_middle(n as int, c as int, d as int);
    assert(n * c == c * n) by (nonlinear_arith);
    assert(d * c == c * d) by (nonlinear_arith);
    let r = n % d;
    assert((n * c) % (d * c) == c * r);
    assert((n * c) / (d * c) == n / d);
    assert((2 * (c * r) > c * d) == (2 * r > d)) by (nonlinear_arith)
        requires
            c > 0,
    ;
    assert((2 * (c * r) == c * d) == (2 * r == d)) by (nonlinear_arith)
        requires
            c > 0,
    ;
}

/// A multiple of the divisor needs no rounding.
proof fn lemma_round_exact(a: nat, d: nat)
    requires
        d > 0,
    ensures
        round_half_even(a * d, d) == a,
{
    lemma_div_multiples_vanish(a as int, d as int);
    lemma_mod_multiples_basic(a as int, d as int);
    assert(a * d == d * a) by (nonlinear_arith);
}

/// Less than half of the divisor rounds to zero.
proof fn lemma_round_small(n: nat, d: nat)
    requires
        2 * n < d,
    ensures
        round_half_even(n, d) == 0,
{
    lemma_basic_div(n as int, d as int);
    lemma_small_mod(n, d);
}

proof fn lemma_pow2_127()
    ensures
        pow2(127) == 0x8000_0000_0000_0000_0000_0000_0000_0000u128,
        pow2(104) == 0x100_0000_0000_0000_0000_0000_0000u128,
{
    lemma2_to64();
    lemma2_to64_rest();
    lemma_pow2_adds(64, 63);
    lemma_pow2_adds(64, 40);
    assert(0x1_0000_0000_0000_0000 * 0x8000_0000_0000_0000
        == 0x8000_0000_0000_0000_0000_0000_0000_0000u128) by (nonlinear_arith);
    assert(0x1_0000_0000_0000_0000 * 0x100_0000_0000 == 0x100_0000_0000_0000_0000_0000_0000u128)
        by (nonlinear_arith);
}

/// Two to the power of `k`.
fn power_of_two(k: u32) -> (p: u128)
    requires
        k <= 127,
    ensures
        p == pow2(k as nat),
{
    let mut p: u128 = 1;
    let mut i: u32 = 0;
    proof {
        lemma2_to64();
    }
    while i < k
        invariant
            i <= k <= 127,
            p == pow2(i as nat),
        decreases k - i,
    {
        proof {
            lemma_pow2_unfold((i + 1) as nat);
            lemma_pow2_127();
            if i + 1 < 127 {
                lemma_pow2_strictly_increases((i + 1) as nat, 127);
            }
        }
        p = p * 2;
        i = i + 1;
    }
    p
}

/// The rounded magnitude of a finite pattern, split into its whole part and
/// its tenths digit. Nothing for an infinity or a NaN.
pub fn rounded_tenths(bits: u32) -> (parts: Option<(u128, u8)>)
    ensures
        parts is Some <==> is_finite(bits),
        parts matches Some((whole, tenth)) ==> whole == tenths(bits) / 10 && tenth == tenths(bits)
            % 10,
{
    let e: u32 = exponent_of(bits);
    let f: u32 = fraction_of(bits);
    if e == 255 {
        return None;
    }
    let sig: u64 = if e == 0 {
        f as u64
    } else {
        0x80_0000 + f as u64
    };
    let sh: u32 = if e == 0 {
        0
    } else {
        e - 1
    };
    assert(sig == significand(bits) && sh == shift(bits));
    proof {
        lemma_pow2_pos(149);
        lemma_pow2_pos(sh as nat);
    }
    if sh >= 149 {
        let k: u32 = sh - 149;
        let p: u128 = power_of_two(k);
        proof {
            lemma_pow2_127();
            if k < 104 {
                lemma_pow2_strictly_increases(k as nat, 104);
            }
            assert(sig * p < 0x1_0000_0000_0000_0000_0000_0000_0000_0000) by (nonlinear_arith)
                requires
                    sig < 0x100_0000,
                    p <= 0x100_0000_0000_0000_0000_0000_0000u128,
            ;
        }
        let whole: u128 = (sig as u128) * p;
        proof {
            lemma_pow2_adds(k as nat, 149);
            let unit = pow2(149);
            assert(10 * (sig * (p * unit)) == (10 * whole) * unit) by (nonlinear_arith)
                requires
                    whole == sig * p,
            ;
            lemma_round_exact((10 * whole) as nat, unit);
        }
        Some((whole, 0))
    } else {
        let s: u32 = 149 - sh;
        proof {
            lemma_pow2_adds(s as nat, sh as nat);
            lemma_pow2_pos(s as nat);
            assert(10 * (sig * pow2(sh as nat)) == (10 * sig) * pow2(sh as nat))
                by (nonlinear_arith);
            lemma_round_scaled((10 * sig) as nat, pow2(s as nat), pow2(sh as nat));
            assert(tenths(bits) == round_half_even((10 * sig) as nat, pow2(s as nat)));
            lemma2_to64();
        }
        if s >= 30 {
            proof {
                if s > 30 {
                    lemma_pow2_strictly_increases(30, s as nat);
                }
                lemma_round_small((10 * sig) as nat, pow2(s as nat));
            }
            Some((0, 0))
        } else {
            proof {
                lemma_pow2_strictly_increases(s as nat, 30);
            }
            let d: u64 = power_of_two(s) as u64;
            let n: u64 = 10 * sig;
            let q: u64 = n / d;
            let r: u64 = n % d;
            let t: u64 = if 2 * r > d || (2 * r == d && q % 2 == 1) {
                q + 1
            } else {
                q
            };
            assert(t == tenths(bits));
            Some(((t / 10) as u128, (t % 10) as u8))
        }
    }
}

fn digit(d: u8) -> (c: char)
    requires
        d < 10,
    ensures
        c == digit_char(d as nat),
{
    if d == 0 {
        '0'
    } else if d == 1 {
        '1'
    } else if d == 2 {
        '2'
    } else if d == 3 {
        '3'
    } else if d == 4 {
        '4'
    } else if d == 5 {
        '5'
    } else if d == 6 {
        '6'
    } else if d == 7 {
        '7'
    } else if d == 8 {
        '8'
    } else {
        '9'
    }
}

/// Appends the decimal digits of `n`.
pub fn push_decimal(text: &mut String, n: u128)
    ensures
        final(text)@ == old(text)@ + decimal_digits(n as nat),
    decreases n,
{
    if n >= 10 {
        push_decimal(text, n / 10);
    }
    text.push(digit((n % 10) as u8));
}

/// The text of the number with one decimal place.
pub fn format_one_decimal(bits: u32) -> (text: String)
    ensures
        text@ == one_decimal(bits),
{
    let mut text = String::new();
    let negative = sign_of(bits);
    match rounded_tenths(bits) {
        Some((whole, tenth)) => {
            if negative {
                text.push('-');
            }
            push_decimal(&mut text, whole);
            text.push('.');
            text.push(digit(tenth));
            assert(text@ =~= one_decimal(bits));
        },
        None => {
            if fraction_of(bits) != 0 {
                text.push('N');
                text.push('a');
                text.push('N');
            } else {
                if negative {
                    text.push('-');
                }
                text.push('i');
                text.push('n');
                text.push('f');
            }
            assert(text@ =~= one_decimal(bits));
        },
    }
    text
}

} // verus!
