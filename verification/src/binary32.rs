//! IEEE-754 single-precision values, read from their 32-bit patterns.
//!
//! A measured quantity travels through this crate as the bit pattern of a
//! single-precision number. The magnitude of a finite pattern is a whole
//! number of units of 2^-149, the spacing of the smallest values of the
//! format, which lets every comparison and rounding be stated over naturals.

use vstd::prelude::*;
use vstd::arithmetic::power2::*;

verus! {

/// The pattern of the number 30.
pub const THIRTY: u32 = 0x41F0_0000;

/// The pattern of positive infinity.
pub const POSITIVE_INFINITY: u32 = 0x7F80_0000;

/// Whether the sign bit is set.
pub open spec fn sign_set(bits: u32) -> bool {
    bits >= 0x8000_0000
}

/// The eight exponent bits.
pub open spec fn exponent_field(bits: u32) -> nat {
    ((bits / 0x80_0000) % 0x100) as nat
}

/// The twenty-three fraction bits.
pub open spec fn fraction_field(bits: u32) -> nat {
    (bits % 0x80_0000) as nat
}

pub open spec fn is_nan(bits: u32) -> bool {
    exponent_field(bits) == 255 && fraction_field(bits) != 0
}

pub open spec fn is_infinite(bits: u32) -> bool {
    exponent_field(bits) == 255 && fraction_field(bits) == 0
}

pub open spec fn is_finite(bits: u32) -> bool {
    exponent_field(bits) < 255
}

/// The significand of a finite pattern as a whole number: the fraction bits,
/// with the implicit leading one unless the pattern is subnormal.
pub open spec fn significand(bits: u32) -> nat {
    if exponent_field(bits) == 0 {
        fraction_field(bits)
    } else {
        0x80_0000 + fraction_field(bits)
    }
}

/// How many binary places the significand of a finite pattern is shifted up
/// from the unit of 2^-149.
pub open spec fn shift(bits: u32) -> nat {
    if exponent_field(bits) == 0 {
        0
    } else {
        (exponent_field(bits) - 1) as nat
    }
}

/// The magnitude of a finite pattern, in units of 2^-149.
pub open spec fn magnitude_units(bits: u32) -> nat {
    significand(bits) * pow2(shift(bits))
}

/// Whether the number is greater than `whole`, as IEEE-754 compares: a NaN is
/// greater than nothing, positive infinity is greater than every whole number.
pub open spec fn greater_than_whole(bits: u32, whole: nat) -> bool {
    &&& !is_nan(bits)
    &&& !sign_set(bits)
    &&& is_infinite(bits) || magnitude_units(bits) > whole * pow2(149)
}

pub fn sign_of(bits: u32) -> (negative: bool)
    ensures
        negative == sign_set(bits),
{
    bits >= 0x8000_0000
}

pub fn exponent_of(bits: u32) -> (e: u32)
    ensures
        e == exponent_field(bits),
        e <= 255,
{
    (bits / 0x80_0000) % 0x100
}

pub fn fraction_of(bits: u32) -> (f: u32)
    ensures
        f == fraction_field(bits),
        f < 0x80_0000,
{
    bits % 0x80_0000
}

/// A finite pattern with a larger exponent field than `e` lies at or above
/// 2^(e + 23) units, and one with exponent field `e` below it.
proof fn lemma_magnitude_bounds(bits: u32)
    requires
        is_finite(bits),
    ensures
        exponent_field(bits) >= 1 ==> pow2(23) * pow2(shift(bits)) <= magnitude_units(bits),
        magnitude_units(bits) < pow2(24) * pow2(shift(bits)),
{
    lemma2_to64();
    let p = pow2(shift(bits));
    let s = significand(bits);
    lemma_pow2_pos(shift(bits));
    assert(s < 0x100_0000);
    assert(s * p < 0x100_0000 * p) by (nonlinear_arith)
        requires
            s < 0x100_0000,
            p > 0,
    ;
    if exponent_field(bits) >= 1 {
        assert(0x80_0000 * p <= s * p) by (nonlinear_arith)
            requires
                0x80_0000 <= s,
                p > 0,
        ;
    }
}

/// Whether the number is greater than 30.
pub fn exceeds_thirty(bits: u32) -> (r: bool)
    ensures
        r == greater_than_whole(bits, 30),
{
    proof {
        lemma2_to64();
        lemma_pow2_pos(149);
        let e = exponent_field(bits);
        if bits < 0x8000_0000 && e < 255 {
            lemma_magnitude_bounds(bits);
            let p = pow2(shift(bits));
            if e >= 132 {
                // at least 2^154 units, which is 32
                lemma_pow2_adds(23, shift(bits));
                lemma_pow2_adds(5, 149);
                if shift(bits) > 131 {
                    lemma_pow2_strictly_increases(154, 23 + shift(bits));
                }
                assert(pow2(154) == 32 * pow2(149));
                assert(30 * pow2(149) < 32 * pow2(149)) by (nonlinear_arith)
                    requires
                        pow2(149) > 0,
                ;
            } else if e == 131 {
                // 2^130 units is 2^-19, so 30 is 15 * 2^20 of them
                lemma_pow2_adds(19, 130);
                let q = pow2(130);
                assert(pow2(149) == 0x8_0000 * q);
                assert(30 * (0x8_0000 * q) == 0xF0_0000 * q) by (nonlinear_arith);
                let s = significand(bits);
                assert((s > 0xF0_0000) == (s * q > 0xF0_0000 * q)) by (nonlinear_arith)
                    requires
                        q > 0,
                ;
            } else {
                // below 2^153 units, which is 16
                lemma_pow2_adds(24, shift(bits));
                lemma_pow2_adds(4, 149);
                if shift(bits) < 129 {
                    lemma_pow2_strictly_increases(24 + shift(bits), 153);
                }
                assert(pow2(153) == 16 * pow2(149));
                assert(16 * pow2(149) <= 30 * pow2(149)) by (nonlinear_arith)
                    requires
                        pow2(149) > 0,
                ;
            }
        }
    }
    THIRTY < bits && bits <= POSITIVE_INFINITY
}

} // verus!
