//! IEEE-754 binary64 values, represented by their bit patterns.
//!
//! A `u64` here always holds the bit pattern of a binary64 (double-precision)
//! value: sign bit on top, then eleven exponent bits, then fifty-two fraction
//! bits. Comparisons are pure bit arithmetic and are verified; the rounding
//! arithmetic (add, subtract, multiply, divide, conversion from an integer)
//! is done by `rustc_apfloat`'s software binary64 implementation behind
//! trusted wrappers, each of which names its result with an uninterpreted
//! spec function.

use vstd::prelude::*;
use vstd::arithmetic::div_mod::lemma_fundamental_div_mod_converse;
use rustc_apfloat::Float;
use rustc_apfloat::ieee::Double;

verus! {

/// Bit pattern of +0.0.
pub const POS_ZERO: u64 = 0x0000_0000_0000_0000;

/// Bit pattern of 2.0, the coefficient in the imaginary part of the
/// Mandelbrot recurrence.
pub const TWO: u64 = 0x4000_0000_0000_0000;

/// Bit pattern of 4.0, the squared-modulus escape threshold.
pub const FOUR: u64 = 0x4010_0000_0000_0000;

/// The sign bit of a binary64 bit pattern (2^63).
pub const SIGN_BIT: u64 = 0x8000_0000_0000_0000;

/// Magnitude of the bit pattern of infinity: exponent all ones, fraction zero.
pub const INF_MAGNITUDE: u64 = 0x7FF0_0000_0000_0000;

/// A bit pattern encodes NaN exactly when its magnitude (the pattern with the
/// sign bit stripped) exceeds the magnitude of infinity, i.e. the exponent
/// bits are all ones and the fraction is nonzero.
pub open spec fn is_nan(b: u64) -> bool {
    b % SIGN_BIT > INF_MAGNITUDE
}

/// Signed-magnitude key of a bit pattern. For non-NaN patterns the key is
/// ordered exactly as the encoded values are: magnitudes of positive values
/// grow with the value, negative patterns are mirrored below zero, and both
/// zeros (+0.0 and -0.0) map to key 0.
pub open spec fn key(b: u64) -> int {
    if b >= SIGN_BIT {
        -((b - SIGN_BIT) as int)
    } else {
        b as int
    }
}

/// The `>` comparison on binary64 values given by bit pattern: false whenever
/// either operand is NaN, otherwise the signed-magnitude order of the keys.
pub open spec fn is_gt(a: u64, b: u64) -> bool {
    !is_nan(a) && !is_nan(b) && key(a) > key(b)
}

/// The `<= 0.0` test on a binary64 value given by bit pattern: false for NaN,
/// true for both zeros and for every negative value, infinity included.
pub open spec fn is_le_zero(b: u64) -> bool {
    !is_nan(b) && key(b) <= 0
}

/// Strip the sign bit: the magnitude of a pattern, which equals its key up to
/// sign.
proof fn lemma_magnitude(b: u64)
    ensures
        b >= SIGN_BIT ==> b % SIGN_BIT == b - SIGN_BIT,
        b < SIGN_BIT ==> b % SIGN_BIT == b,
{
    if b >= SIGN_BIT {
        lemma_fundamental_div_mod_converse(b as int, SIGN_BIT as int, 1, b - SIGN_BIT);
    } else {
        lemma_fundamental_div_mod_converse(b as int, SIGN_BIT as int, 0, b as int);
    }
}

/// Compare two binary64 values, given by bit pattern, with the semantics of
/// `>` on doubles: false if either is NaN, otherwise by value.
pub fn gt(a: u64, b: u64) -> (r: bool)
    ensures
        r == is_gt(a, b),
{
    proof {
        lemma_magnitude(a);
        lemma_magnitude(b);
    }
    let mag_a: u64 = a % SIGN_BIT;
    let mag_b: u64 = b % SIGN_BIT;
    if mag_a > INF_MAGNITUDE || mag_b > INF_MAGNITUDE {
        false
    } else if a >= SIGN_BIT && b >= SIGN_BIT {
        mag_a < mag_b
    } else if a < SIGN_BIT && b < SIGN_BIT {
        mag_a > mag_b
    } else if a >= SIGN_BIT {
        false
    } else {
        mag_a > 0 || mag_b > 0
    }
}

/// Test whether a binary64 value, given by bit pattern, is `<= 0.0`: false
/// for NaN, true for both zeros and every negative value.
pub fn le_zero(b: u64) -> (r: bool)
    ensures
        r == is_le_zero(b),
{
    proof {
        lemma_magnitude(b);
    }
    let mag: u64 = b % SIGN_BIT;
    if mag > INF_MAGNITUDE {
        false
    } else {
        b >= SIGN_BIT || b == POS_ZERO
    }
}

/// The binary64 sum of the values encoded by `a` and `b`, rounded to nearest
/// (ties to even), as a bit pattern.
pub uninterp spec fn add_bits(a: u64, b: u64) -> u64;

/// The binary64 difference of the values encoded by `a` and `b`, rounded to
/// nearest (ties to even), as a bit pattern.
pub uninterp spec fn sub_bits(a: u64, b: u64) -> u64;

/// The binary64 product of the values encoded by `a` and `b`, rounded to
/// nearest (ties to even), as a bit pattern.
pub uninterp spec fn mul_bits(a: u64, b: u64) -> u64;

/// The binary64 quotient of the values encoded by `a` and `b`, rounded to
/// nearest (ties to even), as a bit pattern.
pub uninterp spec fn div_bits(a: u64, b: u64) -> u64;

/// The binary64 value nearest to the integer `n` (ties to even), as a bit
/// pattern.
pub uninterp spec fn from_u64_bits(n: u64) -> u64;

/// Relies on rustc_apfloat's binary64 addition (`IeeeFloat::<DoubleS>::add_r`,
/// round to nearest, ties to even): the sum's bit pattern is a function of the
/// two operand bit patterns alone, and +0.0 + +0.0 is +0.0.
#[verifier::external_body]
pub(crate) fn bits_add(a: u64, b: u64) -> (r: u64)
    ensures
        r == add_bits(a, b),
        a == POS_ZERO && b == POS_ZERO ==> r == POS_ZERO,
{
    let x = Double::from_bits(a as u128);
    let y = Double::from_bits(b as u128);
    (x + y).value.to_bits() as u64
}

/// Relies on rustc_apfloat's binary64 subtraction
/// (`IeeeFloat::<DoubleS>::sub_r`, round to nearest, ties to even): the
/// difference's bit pattern is a function of the two operand bit patterns
/// alone, and +0.0 - +0.0 is +0.0.
#[verifier::external_body]
pub(crate) fn bits_sub(a: u64, b: u64) -> (r: u64)
    ensures
        r == sub_bits(a, b),
        a == POS_ZERO && b == POS_ZERO ==> r == POS_ZERO,
{
    let x = Double::from_bits(a as u128);
    let y = Double::from_bits(b as u128);
    (x - y).value.to_bits() as u64
}

/// Relies on rustc_apfloat's binary64 multiplication
/// (`IeeeFloat::<DoubleS>::mul_r`, round to nearest, ties to even): the
/// product's bit pattern is a function of the two operand bit patterns alone,
/// +0.0 * +0.0 is +0.0, and 2.0 * +0.0 is +0.0.
#[verifier::external_body]
pub(crate) fn bits_mul(a: u64, b: u64) -> (r: u64)
    ensures
        r == mul_bits(a, b),
        a == POS_ZERO && b == POS_ZERO ==> r == POS_ZERO,
        a == TWO && b == POS_ZERO ==> r == POS_ZERO,
{
    let x = Double::from_bits(a as u128);
    let y = Double::from_bits(b as u128);
    (x * y).value.to_bits() as u64
}

/// Relies on rustc_apfloat's binary64 division (`IeeeFloat::<DoubleS>::div_r`,
/// round to nearest, ties to even): the quotient's bit pattern is a function
/// of the two operand bit patterns alone.
#[verifier::external_body]
pub(crate) fn bits_div(a: u64, b: u64) -> (r: u64)
    ensures
        r == div_bits(a, b),
{
    let x = Double::from_bits(a as u128);
    let y = Double::from_bits(b as u128);
    (x / y).value.to_bits() as u64
}

/// Relies on rustc_apfloat's integer-to-binary64 conversion
/// (`Float::from_u128`, round to nearest, ties to even): the bit pattern is a
/// function of the integer alone.
#[verifier::external_body]
pub(crate) fn bits_from_u64(n: u64) -> (r: u64)
    ensures
        r == from_u64_bits(n),
{
    Double::from_u128(n as u128).value.to_bits() as u64
}

} // verus!
