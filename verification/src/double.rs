use vstd::prelude::*;
use rustc_apfloat::Float;
use rustc_apfloat::Round;
use rustc_apfloat::ieee::Double;

verus! {

// A double-precision (IEEE-754 binary64) value is carried as its 64-bit
// pattern: 1 sign bit, 11 exponent bits, 52 fraction bits.

/// The bit pattern of the machine epsilon for binary64, 2^-52: the smallest
/// eps with 1.0 + eps distinguishable from 1.0, and the default tolerance
/// for approximate equality.
pub const F64_EPSILON_BITS: u64 = 0x3CB0_0000_0000_0000;

/// True of every bit pattern that binary64 reads as a NaN: exponent all
/// ones and fraction nonzero.
pub open spec fn is_nan_bits(b: u64) -> bool {
    (b >> 52) & 0x7FF == 0x7FF && b & 0x000F_FFFF_FFFF_FFFF != 0
}

/// True of every bit pattern that binary64 reads as a finite value: the
/// exponent is not all ones, so the pattern is neither an infinity nor a NaN.
pub open spec fn is_finite_bits(b: u64) -> bool {
    (b >> 52) & 0x7FF != 0x7FF
}

/// The absolute value of a double, which IEEE-754 defines as exactly this
/// bit operation: the sign bit cleared, every other bit kept.
pub open spec fn abs_bits(b: u64) -> u64 {
    b & 0x7FFF_FFFF_FFFF_FFFF
}

/// The strict `<` order of IEEE-754 on two doubles given by bit pattern:
/// false whenever either operand is a NaN; the two zeros are equal; apart
/// from that, sign-magnitude order, where patterns of equal sign order as
/// their magnitude bits do as integers.
pub open spec fn lt_bits(a: u64, b: u64) -> bool {
    if is_nan_bits(a) || is_nan_bits(b) {
        false
    } else if (a >> 63) == 1 && (b >> 63) == 1 {
        abs_bits(b) < abs_bits(a)
    } else if (a >> 63) == 1 {
        !(abs_bits(a) == 0 && abs_bits(b) == 0)
    } else if (b >> 63) == 1 {
        false
    } else {
        abs_bits(a) < abs_bits(b)
    }
}

/// The bit pattern of the binary64 sum of the two operand bit patterns,
/// rounded to nearest, ties to even.
pub uninterp spec fn add_bits(a: u64, b: u64) -> u64;

/// The bit pattern of the binary64 difference of the two operand bit
/// patterns, rounded to nearest, ties to even.
pub uninterp spec fn sub_bits(a: u64, b: u64) -> u64;

/// The bit pattern of the binary64 product of the two operand bit patterns,
/// rounded to nearest, ties to even.
pub uninterp spec fn mul_bits(a: u64, b: u64) -> u64;

/// The bit pattern of the binary64 quotient of the two operand bit
/// patterns, rounded to nearest, ties to even.
pub uninterp spec fn div_bits(a: u64, b: u64) -> u64;

/// The bit pattern of the binary64 square root of the operand bit pattern,
/// rounded to nearest, ties to even.
pub uninterp spec fn sqrt_bits(a: u64) -> u64;

/// Relies on rustc_apfloat's `Double::add_r`: IEEE-754 binary64 addition
/// rounded to nearest, ties to even, a pure function of the operand bit
/// patterns.
#[verifier::external_body]
pub(crate) fn f64_add(a: u64, b: u64) -> (r: u64)
    ensures
        r == add_bits(a, b),
{
    let x = Double::from_bits(a as u128);
    let y = Double::from_bits(b as u128);
    x.add_r(y, Round::NearestTiesToEven).value.to_bits() as u64
}

/// Relies on rustc_apfloat's `Double::sub_r`: IEEE-754 binary64 subtraction
/// rounded to nearest, ties to even, a pure function of the operand bit
/// patterns. Under this rounding the difference of a finite value and
/// itself is exactly positive zero.
#[verifier::external_body]
pub(crate) fn f64_sub(a: u64, b: u64) -> (r: u64)
    ensures
        r == sub_bits(a, b),
        a == b && is_finite_bits(a) ==> r == 0,
{
    let x = Double::from_bits(a as u128);
    let y = Double::from_bits(b as u128);
    x.sub_r(y, Round::NearestTiesToEven).value.to_bits() as u64
}

/// Relies on rustc_apfloat's `Double::mul_r`: IEEE-754 binary64
/// multiplication rounded to nearest, ties to even, a pure function of the
/// operand bit patterns. The product does not depend on the order of the
/// operands, except that of two NaN operands the left one's payload is
/// kept.
#[verifier::external_body]
pub(crate) fn f64_mul(a: u64, b: u64) -> (r: u64)
    ensures
        r == mul_bits(a, b),
        !(is_nan_bits(a) && is_nan_bits(b)) ==> r == mul_bits(b, a),
{
    let x = Double::from_bits(a as u128);
    let y = Double::from_bits(b as u128);
    x.mul_r(y, Round::NearestTiesToEven).value.to_bits() as u64
}

/// Relies on rustc_apfloat's `Double::div_r`: IEEE-754 binary64 division
/// rounded to nearest, ties to even, a pure function of the operand bit
/// patterns; zero divided by zero is a NaN.
#[verifier::external_body]
pub(crate) fn f64_div(a: u64, b: u64) -> (r: u64)
    ensures
        r == div_bits(a, b),
{
    let x = Double::from_bits(a as u128);
    let y = Double::from_bits(b as u128);
    x.div_r(y, Round::NearestTiesToEven).value.to_bits() as u64
}

/// Relies on ieee_apsqrt's `sqrt_accurate`: the correctly rounded IEEE-754
/// binary64 square root of the argument bit pattern (rounded to nearest,
/// ties to even), a pure function of that pattern; the root of a negative
/// value is a NaN.
#[verifier::external_body]
pub(crate) fn f64_sqrt(a: u64) -> (r: u64)
    ensures
        r == sqrt_bits(a),
{
    ieee_apsqrt::sqrt_accurate(a, Round::NearestTiesToEven).0.value
}

/// Whether the bit pattern reads as a NaN.
pub fn f64_is_nan(a: u64) -> (r: bool)
    ensures
        r == is_nan_bits(a),
{
    (a >> 52) & 0x7FF == 0x7FF && a & 0x000F_FFFF_FFFF_FFFF != 0
}

/// The absolute value of a double given by bit pattern: the sign bit
/// cleared, as IEEE-754 defines it.
pub fn f64_abs(a: u64) -> (r: u64)
    ensures
        r == abs_bits(a),
{
    a & 0x7FFF_FFFF_FFFF_FFFF
}

/// The strict `<` comparison of two doubles given by bit pattern: false
/// whenever either operand is a NaN.
pub fn f64_lt(a: u64, b: u64) -> (r: bool)
    ensures
        r == lt_bits(a, b),
{
    if f64_is_nan(a) || f64_is_nan(b) {
        false
    } else if (a >> 63) == 1 && (b >> 63) == 1 {
        (b & 0x7FFF_FFFF_FFFF_FFFF) < (a & 0x7FFF_FFFF_FFFF_FFFF)
    } else if (a >> 63) == 1 {
        !((a & 0x7FFF_FFFF_FFFF_FFFF) == 0 && (b & 0x7FFF_FFFF_FFFF_FFFF) == 0)
    } else if (b >> 63) == 1 {
        false
    } else {
        (a & 0x7FFF_FFFF_FFFF_FFFF) < (b & 0x7FFF_FFFF_FFFF_FFFF)
    }
}

} // verus!
