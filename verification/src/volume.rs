//! Volume scalars.
//!
//! A volume is a single-precision floating-point number, held here by its
//! IEEE-754 bit pattern: one sign bit, eight exponent bits and twenty-three
//! fraction bits. The player accepts the volumes that lie between zero and
//! one, both included.

use vstd::arithmetic::power2::{
    lemma_pow2_pos,
    lemma_pow2_strictly_increases,
    lemma_pow2_unfold,
    pow2,
};
use vstd::prelude::*;

verus! {

/// The bit pattern of `1.0`: full volume.
pub const UNITY: u32 = 0x3F80_0000;

/// The bit pattern of `0.0`: silence.
pub const SILENCE: u32 = 0;

/// The bit pattern of `-0.0`, which compares equal to zero.
pub const NEGATIVE_ZERO: u32 = 0x8000_0000;

/// The sign bit of a pattern: `1` for a negative number.
pub open spec fn sign_of(bits: u32) -> u32 {
    bits >> 31
}

/// The biased exponent of a pattern.
pub open spec fn exponent_of(bits: u32) -> u32 {
    (bits >> 23) & 0xff
}

/// The fraction bits of a pattern.
pub open spec fn fraction_of(bits: u32) -> u32 {
    bits & 0x7f_ffff
}

/// Whether a pattern is not a number.
pub open spec fn is_nan(bits: u32) -> bool {
    exponent_of(bits) == 255 && fraction_of(bits) != 0
}

/// Whether a pattern is one of the two zeros.
pub open spec fn is_zero(bits: u32) -> bool {
    exponent_of(bits) == 0 && fraction_of(bits) == 0
}

/// Whether the number is zero or more: a number, and not negative unless
/// it is the negative zero.
pub open spec fn at_least_zero(bits: u32) -> bool {
    !is_nan(bits) && (sign_of(bits) == 0 || is_zero(bits))
}

/// Whether the number is one or less: a number that is negative, or whose
/// exponent lies below that of `1.0`, or that is `1.0` itself.
pub open spec fn at_most_one(bits: u32) -> bool {
    !is_nan(bits) && (sign_of(bits) == 1 || exponent_of(bits) < 127 || (exponent_of(bits) == 127
        && fraction_of(bits) == 0))
}

/// Whether the number lies between zero and one, both included.
pub open spec fn in_unit_range(bits: u32) -> bool {
    at_least_zero(bits) && at_most_one(bits)
}

/// Whether the number equals one. Only one pattern does.
pub open spec fn is_unity(bits: u32) -> bool {
    sign_of(bits) == 0 && exponent_of(bits) == 127 && fraction_of(bits) == 0
}

/// Whether a pattern is a finite number: neither infinite nor not a number.
pub open spec fn is_finite(bits: u32) -> bool {
    exponent_of(bits) != 255
}

/// The absolute value of a finite number, counted in units of the smallest
/// positive number, which is two to the power of -149. A pattern with
/// exponent zero counts its fraction; any other counts its fraction with
/// the hidden bit in front, doubled once for each step of the exponent
/// above one.
pub open spec fn magnitude(bits: u32) -> nat {
    if exponent_of(bits) == 0 {
        fraction_of(bits) as nat
    } else {
        (0x80_0000 + fraction_of(bits)) as nat * pow2((exponent_of(bits) - 1) as nat)
    }
}

/// The number one, counted in the same units: two to the power of 149.
pub open spec fn unit_magnitude() -> nat {
    0x80_0000 * pow2(126)
}

/// The volumes in range are the numbers whose value lies between zero and
/// one: the finite numbers that are not negative and at most one in
/// absolute value, and the negative zero. Full volume is the number one.
pub proof fn lemma_unit_range_is_numeric(bits: u32)
    ensures
        in_unit_range(bits) <==> is_finite(bits) && (if sign_of(bits) == 0 {
            magnitude(bits) <= unit_magnitude()
        } else {
            magnitude(bits) == 0
        }),
        is_unity(bits) <==> is_finite(bits) && sign_of(bits) == 0 && magnitude(bits)
            == unit_magnitude(),
{
    let s = sign_of(bits);
    let e = exponent_of(bits);
    let f = fraction_of(bits);
    assert((bits >> 31) <= 1u32) by (bit_vector);
    assert(((bits >> 23) & 0xff) <= 255u32) by (bit_vector);
    assert((bits & 0x7f_ffff) < 0x80_0000u32) by (bit_vector);
    let one = pow2(126);
    lemma_pow2_pos(126);
    assert(0x80_0000 * one >= 0x80_0000) by (nonlinear_arith)
        requires
            one >= 1,
    ;
    if e == 0 {
    } else if e <= 126 {
        let p = pow2((e - 1) as nat);
        lemma_pow2_pos((e - 1) as nat);
        lemma_pow2_unfold(e as nat);
        if e < 126 {
            lemma_pow2_strictly_increases(e as nat, 126);
        }
        assert(0 < (0x80_0000 + f) * p < 0x80_0000 * one) by (nonlinear_arith)
            requires
                0 <= f < 0x80_0000,
                0 < p,
                2 * p <= one,
        ;
    } else if e == 127 {
        assert(((0x80_0000 + f) * one <= 0x80_0000 * one) <==> f == 0) by (nonlinear_arith)
            requires
                0 <= f,
                0 < one,
        ;
        assert(((0x80_0000 + f) * one == 0x80_0000 * one) <==> f == 0) by (nonlinear_arith)
            requires
                0 <= f,
                0 < one,
        ;
    } else if e <= 254 {
        let p = pow2((e - 1) as nat);
        lemma_pow2_unfold(127);
        if e > 128 {
            lemma_pow2_strictly_increases(127, (e - 1) as nat);
        }
        assert((0x80_0000 + f) * p > 0x80_0000 * one) by (nonlinear_arith)
            requires
                0 <= f,
                0 < one,
                p >= 2 * one,
        ;
    } else {
    }
}

/// The volumes in range are the patterns from `0.0` up to `1.0`, which are
/// in increasing order, and the negative zero.
pub proof fn lemma_unit_range_patterns(bits: u32)
    ensures
        in_unit_range(bits) <==> (bits <= UNITY || bits == NEGATIVE_ZERO),
        is_unity(bits) <==> bits == UNITY,
{
    assert(in_unit_range(bits) <==> (bits <= 0x3F80_0000u32 || bits == 0x8000_0000u32)) by {
        assert(((bits >> 31) == 0 || (((bits >> 23) & 0xff) == 0 && (bits & 0x7f_ffff) == 0)) && !(((
        bits >> 23) & 0xff) == 255 && (bits & 0x7f_ffff) != 0) && ((bits >> 31) == 1 || ((bits
            >> 23) & 0xff) < 127 || (((bits >> 23) & 0xff) == 127 && (bits & 0x7f_ffff) == 0))
            <==> (bits <= 0x3F80_0000u32 || bits == 0x8000_0000u32)) by (bit_vector);
    }
    assert(is_unity(bits) <==> bits == 0x3F80_0000u32) by {
        assert(((bits >> 31) == 0 && ((bits >> 23) & 0xff) == 127 && (bits & 0x7f_ffff) == 0)
            <==> bits == 0x3F80_0000u32) by (bit_vector);
    }
}

/// Whether `bits` is a volume that the player accepts.
pub fn is_valid_volume(bits: u32) -> (r: bool)
    ensures
        r == in_unit_range(bits),
{
    proof {
        lemma_unit_range_patterns(bits);
    }
    bits <= UNITY || bits == NEGATIVE_ZERO
}

/// Whether `bits` is full volume, at which samples pass unscaled.
pub fn is_full_volume(bits: u32) -> (r: bool)
    ensures
        r == is_unity(bits),
{
    proof {
        lemma_unit_range_patterns(bits);
    }
    bits == UNITY
}

} // verus!
