//! Classification and ordering of IEEE 754 binary64 bit patterns.
//!
//! A real number enters the engine as the `u64` bit pattern of a binary64
//! value.  Everything the engine needs to decide about such a number — is it
//! a zero, is it finite, is it strictly positive, how does it rank in the
//! standard total order — is a function of the pattern alone, so it can be
//! computed and specified here exactly, without floating-point arithmetic.

use vstd::prelude::*;

verus! {

/// The sign bit of a binary64 pattern.
pub const SIGN_MASK: u64 = 0x8000_0000_0000_0000;

/// All bits of a binary64 pattern but the sign: exponent and fraction.
pub const MAGNITUDE_MASK: u64 = 0x7FFF_FFFF_FFFF_FFFF;

/// The exponent field of a binary64 pattern.
pub const EXPONENT_MASK: u64 = 0x7FF0_0000_0000_0000;

/// The fraction (trailing significand) field of a binary64 pattern.
pub const FRACTION_MASK: u64 = 0x000F_FFFF_FFFF_FFFF;

/// The binary64 pattern of the small positive constant substituted for a
/// zero coordinate before fitting, so that the natural logarithms taken by
/// the transformed families stay defined.  It encodes one millionth.
pub const EPSILON_BITS: u64 = 0x3EB0_C6F7_A0B5_ED8D;

/// The pattern encodes positive or negative zero: the only two patterns on
/// which binary64 equality with zero holds.
pub open spec fn is_zero_pattern(b: u64) -> bool {
    b & MAGNITUDE_MASK == 0
}

/// The pattern encodes a finite value: the exponent field is not saturated.
pub open spec fn is_finite_pattern(b: u64) -> bool {
    b & EXPONENT_MASK != EXPONENT_MASK
}

/// The pattern encodes a NaN: saturated exponent with a nonzero fraction.
pub open spec fn is_nan_pattern(b: u64) -> bool {
    b & EXPONENT_MASK == EXPONENT_MASK && b & FRACTION_MASK != 0
}

/// The pattern encodes a value strictly greater than zero: the sign bit is
/// clear, the magnitude is nonzero, and the value is not a NaN.  This is
/// exactly where the natural logarithm of the encoded value is a real
/// number or positive infinity.
pub open spec fn is_positive_pattern(b: u64) -> bool {
    b & SIGN_MASK == 0 && b & MAGNITUDE_MASK != 0 && !is_nan_pattern(b)
}

/// Whether `b` encodes positive or negative zero.
pub fn pattern_is_zero(b: u64) -> (r: bool)
    ensures
        r == is_zero_pattern(b),
{
    b & MAGNITUDE_MASK == 0
}

/// Whether `b` encodes a finite value.
pub fn pattern_is_finite(b: u64) -> (r: bool)
    ensures
        r == is_finite_pattern(b),
{
    b & EXPONENT_MASK != EXPONENT_MASK
}

/// Whether `b` encodes a NaN.
pub fn pattern_is_nan(b: u64) -> (r: bool)
    ensures
        r == is_nan_pattern(b),
{
    b & EXPONENT_MASK == EXPONENT_MASK && b & FRACTION_MASK != 0
}

/// Whether `b` encodes a value strictly greater than zero.
pub fn pattern_is_positive(b: u64) -> (r: bool)
    ensures
        r == is_positive_pattern(b),
{
    b & SIGN_MASK == 0 && b & MAGNITUDE_MASK != 0 && !pattern_is_nan(b)
}

/// The substitute for a raw coordinate: a zero pattern is replaced by the
/// positive epsilon pattern, every other pattern is kept unchanged.
pub open spec fn clamp_zero_spec(b: u64) -> u64 {
    if is_zero_pattern(b) {
        EPSILON_BITS
    } else {
        b
    }
}

/// Replaces a zero coordinate by the epsilon substitute.
pub fn clamp_zero(b: u64) -> (r: u64)
    ensures
        r == clamp_zero_spec(b),
{
    if pattern_is_zero(b) {
        EPSILON_BITS
    } else {
        b
    }
}

/// The rank of a pattern in the standard binary64 total order (the order of
/// `total_cmp`): two patterns compare in that order exactly as their ranks
/// compare as unsigned integers.  A pattern with a clear sign bit is moved
/// above every pattern with a set sign bit by setting its top bit; a pattern
/// with a set sign bit is reversed by complementing it.
pub open spec fn total_rank_spec(b: u64) -> u64 {
    if b & SIGN_MASK == 0 {
        b | SIGN_MASK
    } else {
        !b
    }
}

/// The rank of `b` in the binary64 total order.
pub fn total_rank(b: u64) -> (r: u64)
    ensures
        r == total_rank_spec(b),
{
    if b & SIGN_MASK == 0 {
        b | SIGN_MASK
    } else {
        !b
    }
}

/// On patterns with a clear sign bit — every finite non-negative value, in
/// particular every root-mean-square score — the total order agrees with the
/// unsigned order of the patterns themselves.
pub proof fn lemma_total_rank_monotone_on_nonnegative(a: u64, b: u64)
    requires
        a & SIGN_MASK == 0,
        b & SIGN_MASK == 0,
    ensures
        (total_rank_spec(a) <= total_rank_spec(b)) <==> (a <= b),
{
    assert(((a | 0x8000_0000_0000_0000u64) <= (b | 0x8000_0000_0000_0000u64)) <==> (a <= b))
        by (bit_vector)
        requires
            a & 0x8000_0000_0000_0000u64 == 0,
            b & 0x8000_0000_0000_0000u64 == 0,
    ;
}

/// Distinct patterns have distinct ranks: the total order never confuses two
/// bit patterns, so a ranking decided over ranks is decided over patterns.
pub proof fn lemma_total_rank_injective(a: u64, b: u64)
    requires
        total_rank_spec(a) == total_rank_spec(b),
    ensures
        a == b,
{
    assert((if a & 0x8000_0000_0000_0000u64 == 0 {
        a | 0x8000_0000_0000_0000u64
    } else {
        !a
    }) == (if b & 0x8000_0000_0000_0000u64 == 0 {
        b | 0x8000_0000_0000_0000u64
    } else {
        !b
    }) ==> a == b) by (bit_vector);
}

} // verus!
