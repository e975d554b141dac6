//! Decisions on IEEE 754 binary64 values, taken on their bit patterns.
//!
//! Decoded signal values are doubles; this library holds each one as the
//! 64 bits of its encoding, so that the comparisons and the integer cast the
//! adapters make on them are integer computations with exact contracts.

use vstd::prelude::*;
use vstd::arithmetic::power2::{pow2, lemma2_to64, lemma2_to64_rest, lemma_pow2_pos, lemma_pow2_strictly_increases};
use vstd::arithmetic::div_mod::{lemma_basic_div, lemma_multiply_divide_lt, lemma_div_is_ordered, lemma_div_by_multiple, lemma_fundamental_div_mod};
use vstd::bits::lemma_u64_shr_is_div;

verus! {

/// The sign bit of a double (1 for negative).
pub open spec fn f64_sign_bit(bits: u64) -> u64 {
    bits >> 63u64
}

/// The biased exponent field of a double.
pub open spec fn f64_biased_exponent(bits: u64) -> u64 {
    (bits >> 52u64) & 0x7ffu64
}

/// The fraction (trailing significand) field of a double.
pub open spec fn f64_fraction(bits: u64) -> u64 {
    bits & 0xf_ffff_ffff_ffffu64
}

/// The double is a NaN.
pub open spec fn f64_is_nan(bits: u64) -> bool {
    f64_biased_exponent(bits) == 0x7ff && f64_fraction(bits) != 0
}

/// The double is `+0` or `-0`.
pub open spec fn f64_is_zero(bits: u64) -> bool {
    f64_biased_exponent(bits) == 0 && f64_fraction(bits) == 0
}

/// IEEE 754 equality of two doubles: no NaN equals anything, the two zeros
/// are equal, and otherwise equal values have equal encodings.
pub open spec fn f64_equal(a: u64, b: u64) -> bool {
    &&& !f64_is_nan(a)
    &&& !f64_is_nan(b)
    &&& (a == b || (f64_is_zero(a) && f64_is_zero(b)))
}

/// The integer part of the magnitude of a finite double: the magnitude of a
/// normal double is `(2^52 + fraction) * 2^(exponent - 1075)`, that of a
/// subnormal one is below one.
pub open spec fn f64_magnitude_floor(bits: u64) -> nat {
    let e = f64_biased_exponent(bits);
    if e == 0 {
        0
    } else {
        let significand: nat = (f64_fraction(bits) + pow2(52)) as nat;
        if e >= 1075 {
            significand * pow2((e - 1075) as nat)
        } else {
            significand / pow2((1075 - e) as nat)
        }
    }
}

/// What `value as u8` gives for a double: NaN gives 0, the value is
/// truncated towards zero and then saturated into `0..=255`.
pub open spec fn f64_to_u8_saturating(bits: u64) -> u8 {
    if f64_is_nan(bits) {
        0
    } else if f64_sign_bit(bits) == 1 {
        0
    } else if f64_biased_exponent(bits) == 0x7ff {
        255
    } else if f64_magnitude_floor(bits) >= 255 {
        255
    } else {
        f64_magnitude_floor(bits) as u8
    }
}

/// Equality of doubles is symmetric, reflexive except on NaN, never holds for
/// a NaN, holds between `+0` and `-0`, and otherwise needs equal encodings.
pub proof fn lemma_f64_equal_laws(a: u64, b: u64)
    ensures
        f64_equal(a, b) == f64_equal(b, a),
        !f64_is_nan(a) ==> f64_equal(a, a),
        f64_is_nan(a) ==> !f64_equal(a, b),
        f64_equal(0, 0x8000_0000_0000_0000),
        (a != b && !(f64_is_zero(a) && f64_is_zero(b))) ==> !f64_equal(a, b),
        f64_equal(F64_TWO_BITS, F64_TWO_BITS),
        !f64_equal(F64_TWO_BITS, F64_ZERO_BITS),
{
    assert(f64_is_zero(0x8000_0000_0000_0000)) by (bit_vector);
    assert(f64_is_zero(0)) by (bit_vector);
    assert(!f64_is_nan(F64_TWO_BITS) && !f64_is_zero(F64_TWO_BITS)) by (bit_vector);
}

/// The cast to `u8` truncates towards zero and saturates: for a finite
/// positive double of magnitude `significand / d` (with `d` a power of two),
/// an unsaturated result `r` satisfies `r * d <= significand < (r + 1) * d`,
/// and 255 is given exactly when the magnitude is at least 255. NaN,
/// negative values and values below one give 0; infinity gives 255.
pub proof fn lemma_u8_cast_truncates_and_saturates(bits: u64)
    ensures
        f64_is_nan(bits) ==> f64_to_u8_saturating(bits) == 0,
        !f64_is_nan(bits) && f64_sign_bit(bits) == 1 ==> f64_to_u8_saturating(bits) == 0,
        f64_sign_bit(bits) == 0 && f64_biased_exponent(bits) == 0x7ff && f64_fraction(bits) == 0
            ==> f64_to_u8_saturating(bits) == 255,
        f64_sign_bit(bits) == 0 && f64_biased_exponent(bits) < 1023 ==> f64_to_u8_saturating(bits) == 0,
        f64_sign_bit(bits) == 0 && 1023 <= f64_biased_exponent(bits) < 1075 ==> {
            let d = pow2((1075 - f64_biased_exponent(bits)) as nat) as int;
            let significand = f64_fraction(bits) + pow2(52);
            let r = f64_to_u8_saturating(bits) as int;
            &&& r < 255 ==> r * d <= significand < (r + 1) * d
            &&& r == 255 <==> 255 * d <= significand
        },
        f64_sign_bit(bits) == 0 && 1075 <= f64_biased_exponent(bits) < 0x7ff ==> f64_to_u8_saturating(bits) == 255,
{
    lemma2_to64();
    lemma2_to64_rest();
    let e = f64_biased_exponent(bits);
    assert(f64_sign_bit(bits) <= 1) by (bit_vector);
    assert(e <= 0x7ff) by (bit_vector)
        requires e == (bits >> 52u64) & 0x7ffu64;
    assert(f64_fraction(bits) < 0x10_0000_0000_0000u64) by (bit_vector);
    let significand: int = f64_fraction(bits) + pow2(52);
    if f64_sign_bit(bits) == 0 && 1 <= e < 1075 {
        let k = (1075 - e) as nat;
        let d = pow2(k) as int;
        lemma_pow2_pos(k);
        let q = significand / d;
        lemma_fundamental_div_mod(significand, d);
        assert(d * q <= significand < d * (q + 1)) by (nonlinear_arith)
            requires significand == d * q + significand % d, 0 <= significand % d < d;
        if e < 1023 {
            if k > 53 {
                lemma_pow2_strictly_increases(53, k);
            }
            lemma_basic_div(significand, d);
        } else {
            assert(f64_magnitude_floor(bits) == q);
            if q >= 255 {
                assert(255 * d <= significand) by (nonlinear_arith)
                    requires d * q <= significand, q >= 255, d > 0;
            } else {
                assert(!(255 * d <= significand)) by (nonlinear_arith)
                    requires significand < d * (q + 1), q < 255, d > 0;
                assert(q * d <= significand < (q + 1) * d) by (nonlinear_arith)
                    requires d * q <= significand < d * (q + 1);
            }
        }
    }
    if f64_sign_bit(bits) == 0 && 1075 <= e < 0x7ff {
        let k = (e - 1075) as nat;
        lemma_pow2_pos(k);
        assert(significand * pow2(k) >= significand) by (nonlinear_arith)
            requires pow2(k) >= 1, significand >= 0;
    }
}

/// The encoding of `2.0`.
pub const F64_TWO_BITS: u64 = 0x4000_0000_0000_0000;

/// The encoding of `+0.0`.
pub const F64_ZERO_BITS: u64 = 0;

/// All bits but the sign are clear exactly for the two zeros.
proof fn lemma_magnitude_bits_zero(x: u64)
    ensures
        (x & 0x7fff_ffff_ffff_ffffu64 == 0) == f64_is_zero(x),
{
    assert((x & 0x7fff_ffff_ffff_ffffu64 == 0) == (((x >> 52u64) & 0x7ffu64) == 0
        && x & 0xf_ffff_ffff_ffffu64 == 0)) by (bit_vector);
}

/// `a == b` on two doubles given by their encodings.
pub fn f64_bits_equal(a: u64, b: u64) -> (r: bool)
    ensures
        r == f64_equal(a, b),
{
    let a_nan = (a >> 52u64) & 0x7ffu64 == 0x7ffu64 && a & 0xf_ffff_ffff_ffffu64 != 0;
    let b_nan = (b >> 52u64) & 0x7ffu64 == 0x7ffu64 && b & 0xf_ffff_ffff_ffffu64 != 0;
    if a_nan || b_nan {
        false
    } else if a == b {
        true
    } else {
        proof {
            lemma_magnitude_bits_zero(a);
            lemma_magnitude_bits_zero(b);
        }
        a & 0x7fff_ffff_ffff_ffffu64 == 0 && b & 0x7fff_ffff_ffff_ffffu64 == 0
    }
}

/// `value as u8` on a double given by its encoding: NaN and negative values
/// give 0, others are truncated towards zero and saturated at 255.
pub fn f64_bits_to_u8_saturating(bits: u64) -> (r: u8)
    ensures
        r == f64_to_u8_saturating(bits),
{
    let exponent = (bits >> 52u64) & 0x7ffu64;
    let fraction = bits & 0xf_ffff_ffff_ffffu64;
    let sign = bits >> 63u64;
    assert(sign <= 1) by (bit_vector)
        requires sign == bits >> 63u64;
    if exponent == 0x7ffu64 {
        return if fraction == 0 && sign == 0 { 255 } else { 0 };
    }
    if sign != 0 {
        return 0;
    }
    proof {
        lemma2_to64();
        lemma2_to64_rest();
        assert(fraction < 0x10_0000_0000_0000u64) by (bit_vector)
            requires fraction == bits & 0xf_ffff_ffff_ffffu64;
    }
    let ghost significand: nat = (fraction + pow2(52)) as nat;
    if exponent < 1023 {
        proof {
            if exponent != 0 {
                let k = (1075 - exponent) as nat;
                if k > 53 {
                    lemma_pow2_strictly_increases(53, k);
                }
                lemma_basic_div(significand as int, pow2(k) as int);
            }
        }
        return 0;
    }
    if exponent >= 1031 {
        proof {
            if exponent >= 1075 {
                let k = (exponent - 1075) as nat;
                lemma_pow2_pos(k);
                assert(significand * pow2(k) >= significand) by (nonlinear_arith)
                    requires pow2(k) >= 1;
            } else {
                let k = (1075 - exponent) as nat;
                if k < 44 {
                    lemma_pow2_strictly_increases(k, 44);
                }
                lemma_pow2_pos(k);
                assert(256 * pow2(k) <= significand) by (nonlinear_arith)
                    requires pow2(k) <= pow2(44), pow2(44) * 256 == pow2(52), significand >= pow2(52);
                lemma_div_is_ordered(256 * pow2(k) as int, significand as int, pow2(k) as int);
                lemma_div_by_multiple(256, pow2(k) as int);
            }
        }
        return 255;
    }
    let full = fraction | 0x10_0000_0000_0000u64;
    let shift = 1075u64 - exponent;
    proof {
        assert(full == fraction + 0x10_0000_0000_0000u64) by (bit_vector)
            requires fraction < 0x10_0000_0000_0000u64, full == fraction | 0x10_0000_0000_0000u64;
        lemma_u64_shr_is_div(full, shift);
        if shift < 52 {
            lemma_pow2_strictly_increases(shift as nat, 52);
        }
        if shift > 45 {
            lemma_pow2_strictly_increases(45, shift as nat);
        }
        assert(significand < 256 * pow2(shift as nat)) by (nonlinear_arith)
            requires pow2(45) <= pow2(shift as nat), pow2(45) * 256 == pow2(53), significand < pow2(53);
        lemma_multiply_divide_lt(significand as int, pow2(shift as nat) as int, 256);
    }
    let q = full >> shift;
    (q as u8)
}

} // verus!
