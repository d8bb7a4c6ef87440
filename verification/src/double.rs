//! IEEE-754 binary64 numbers, carried as their 64-bit patterns.
//!
//! Sign, magnitude and order are read off the pattern and proved here. The
//! four rounded operations are computed by `rustc_apfloat`; their results are
//! named by [`fsum`], [`fdiff`], [`fprod`] and [`fquot`], and nothing else is
//! assumed of them.

use rustc_apfloat::Float;
use rustc_apfloat::ieee::Double;
use vstd::prelude::*;

verus! {

/// The sign bit of a pattern.
pub const SIGN_BIT: u64 = 0x8000_0000_0000_0000;

/// Positive infinity; every larger magnitude is a NaN.
pub const INFINITY: u64 = 0x7ff0_0000_0000_0000;

/// The pattern of `0.0`.
pub const ZERO: u64 = 0;

/// The pattern of `0.25`.
pub const QUARTER: u64 = 0x3fd0_0000_0000_0000;

/// The pattern of `0.5`.
pub const HALF: u64 = 0x3fe0_0000_0000_0000;

/// The pattern of `-0.5`.
pub const NEG_HALF: u64 = 0xbfe0_0000_0000_0000;

/// The pattern of `1.0`.
pub const ONE: u64 = 0x3ff0_0000_0000_0000;

/// The pattern of `2.0`.
pub const TWO: u64 = 0x4000_0000_0000_0000;

/// The pattern of `1.0e-10`, the tolerance of the relaxation solvers.
pub const TOLERANCE: u64 = 0x3ddb_7cdf_d9d7_bdbb;

/// The pattern with the sign bit cleared: the absolute value.
pub open spec fn magnitude(a: u64) -> u64 {
    if a >= SIGN_BIT {
        (a - SIGN_BIT) as u64
    } else {
        a
    }
}

/// The pattern with the sign bit flipped: the negation.
pub open spec fn negated(a: u64) -> u64 {
    if a >= SIGN_BIT {
        (a - SIGN_BIT) as u64
    } else {
        (a + SIGN_BIT) as u64
    }
}

/// Whether the pattern is a NaN.
pub open spec fn is_nan(a: u64) -> bool {
    magnitude(a) > INFINITY
}

/// The place of a number that is not a NaN on the number line: patterns of
/// equal sign are ordered by magnitude, and both zeros share a place.
pub open spec fn rank(a: u64) -> int {
    if a >= SIGN_BIT {
        -(magnitude(a) as int)
    } else {
        a as int
    }
}

/// `a <= b` as IEEE-754 defines it: false as soon as either is a NaN.
pub open spec fn le(a: u64, b: u64) -> bool {
    !is_nan(a) && !is_nan(b) && rank(a) <= rank(b)
}

/// `a < b` as IEEE-754 defines it: false as soon as either is a NaN.
pub open spec fn lt(a: u64, b: u64) -> bool {
    !is_nan(a) && !is_nan(b) && rank(a) < rank(b)
}

/// The rounded sum of two doubles.
pub uninterp spec fn fsum(a: u64, b: u64) -> u64;

/// The rounded difference of two doubles.
pub uninterp spec fn fdiff(a: u64, b: u64) -> u64;

/// The rounded product of two doubles.
pub uninterp spec fn fprod(a: u64, b: u64) -> u64;

/// The rounded quotient of two doubles.
pub uninterp spec fn fquot(a: u64, b: u64) -> u64;

/// The absolute value of `a`.
pub fn abs(a: u64) -> (r: u64)
    ensures
        r == magnitude(a),
{
    if a >= SIGN_BIT {
        a - SIGN_BIT
    } else {
        a
    }
}

/// The negation of `a`.
pub fn neg(a: u64) -> (r: u64)
    ensures
        r == negated(a),
{
    if a >= SIGN_BIT {
        a - SIGN_BIT
    } else {
        a + SIGN_BIT
    }
}

/// Whether `a <= b`.
pub fn is_le(a: u64, b: u64) -> (r: bool)
    ensures
        r == le(a, b),
{
    if abs(a) > INFINITY || abs(b) > INFINITY {
        false
    } else if a >= SIGN_BIT {
        b < SIGN_BIT || b <= a
    } else {
        (b < SIGN_BIT && a <= b) || (a == 0 && b == SIGN_BIT)
    }
}

/// Whether `a < b`.
pub fn is_lt(a: u64, b: u64) -> (r: bool)
    ensures
        r == lt(a, b),
{
    if abs(a) > INFINITY || abs(b) > INFINITY {
        false
    } else if a >= SIGN_BIT {
        (b < SIGN_BIT && !(a == SIGN_BIT && b == 0)) || (b >= SIGN_BIT && b < a)
    } else {
        b < SIGN_BIT && a < b
    }
}

/// `a + b`, rounded to nearest, ties to even.
///
/// Trusted: the body is `rustc_apfloat`'s `Add` for `ieee::Double`, between
/// `Float::from_bits` and `Float::to_bits`. The contract only names the
/// pattern that comes back.
#[verifier::external_body]
pub(crate) fn fadd(a: u64, b: u64) -> (r: u64)
    ensures
        r == fsum(a, b),
{
    (Double::from_bits(a as u128) + Double::from_bits(b as u128)).value.to_bits() as u64
}

/// `a - b`, rounded to nearest, ties to even.
///
/// Trusted: the body is `rustc_apfloat`'s `Sub` for `ieee::Double`, between
/// `Float::from_bits` and `Float::to_bits`. The contract only names the
/// pattern that comes back.
#[verifier::external_body]
pub(crate) fn fsub(a: u64, b: u64) -> (r: u64)
    ensures
        r == fdiff(a, b),
{
    (Double::from_bits(a as u128) - Double::from_bits(b as u128)).value.to_bits() as u64
}

/// `a * b`, rounded to nearest, ties to even.
///
/// Trusted: the body is `rustc_apfloat`'s `Mul` for `ieee::Double`, between
/// `Float::from_bits` and `Float::to_bits`. The contract only names the
/// pattern that comes back.
#[verifier::external_body]
pub(crate) fn fmul(a: u64, b: u64) -> (r: u64)
    ensures
        r == fprod(a, b),
{
    (Double::from_bits(a as u128) * Double::from_bits(b as u128)).value.to_bits() as u64
}

/// `a / b`, rounded to nearest, ties to even; a zero divisor gives an
/// infinity or a NaN, never a panic.
///
/// Trusted: the body is `rustc_apfloat`'s `Div` for `ieee::Double`, between
/// `Float::from_bits` and `Float::to_bits`. The contract only names the
/// pattern that comes back.
#[verifier::external_body]
pub(crate) fn fdiv(a: u64, b: u64) -> (r: u64)
    ensures
        r == fquot(a, b),
{
    (Double::from_bits(a as u128) / Double::from_bits(b as u128)).value.to_bits() as u64
}

} // verus!
