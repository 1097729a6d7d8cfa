//! The order of IEEE 754 binary64 values, read from their bit patterns.
//!
//! A pattern holds a sign in bit 63 and a magnitude in the 63 bits below it.
//! Among the patterns that are no NaN, a larger magnitude is a number further
//! from zero, so comparing two numbers is comparing two signed magnitudes. The
//! two zeros share the magnitude 0 and compare equal; a NaN compares with
//! nothing, itself included.

use vstd::prelude::*;

verus! {

/// The sign bit of a pattern.
pub const SIGN_BIT: u64 = 0x8000_0000_0000_0000;

/// The pattern of positive infinity. A magnitude above it is a NaN.
pub const INFINITY: u64 = 0x7FF0_0000_0000_0000;

/// The pattern of `0.0`.
pub const ZERO: u64 = 0;

/// The pattern of `1.0`.
pub const ONE: u64 = 0x3FF0_0000_0000_0000;

/// The pattern with the sign bit cleared: the absolute value.
pub open spec fn magnitude_spec(bits: u64) -> u64 {
    if bits >= SIGN_BIT {
        (bits - SIGN_BIT) as u64
    } else {
        bits
    }
}

/// Whether the pattern is a NaN: exponent all ones and a fraction that is not zero.
pub open spec fn is_nan_spec(bits: u64) -> bool {
    magnitude_spec(bits) > INFINITY
}

/// The place of a pattern on the number line: its magnitude, negated where the
/// sign bit is set. Meaningful for patterns that are no NaN.
pub open spec fn rank(bits: u64) -> int {
    if bits >= SIGN_BIT {
        -(magnitude_spec(bits) as int)
    } else {
        bits as int
    }
}

/// `a <= b` as binary64 numbers.
pub open spec fn le_spec(a: u64, b: u64) -> bool {
    !is_nan_spec(a) && !is_nan_spec(b) && rank(a) <= rank(b)
}

/// `a < b` as binary64 numbers.
pub open spec fn lt_spec(a: u64, b: u64) -> bool {
    !is_nan_spec(a) && !is_nan_spec(b) && rank(a) < rank(b)
}

/// Clears the sign bit.
#[verifier::when_used_as_spec(magnitude_spec)]
pub fn magnitude(bits: u64) -> (r: u64)
    ensures
        r == magnitude_spec(bits),
{
    if bits >= SIGN_BIT {
        bits - SIGN_BIT
    } else {
        bits
    }
}

/// Tells a NaN from a number.
#[verifier::when_used_as_spec(is_nan_spec)]
pub fn is_nan(bits: u64) -> (r: bool)
    ensures
        r == is_nan_spec(bits),
{
    magnitude(bits) > INFINITY
}

/// The signed magnitude of a pattern, for comparing two of them.
fn signed(bits: u64) -> (r: i64)
    ensures
        r == rank(bits),
{
    let m: u64 = magnitude(bits);
    if bits >= SIGN_BIT {
        -(m as i64)
    } else {
        m as i64
    }
}

/// `a <= b`, false where either is a NaN.
#[verifier::when_used_as_spec(le_spec)]
pub fn le(a: u64, b: u64) -> (r: bool)
    ensures
        r == le_spec(a, b),
{
    !is_nan(a) && !is_nan(b) && signed(a) <= signed(b)
}

/// `a < b`, false where either is a NaN.
#[verifier::when_used_as_spec(lt_spec)]
pub fn lt(a: u64, b: u64) -> (r: bool)
    ensures
        r == lt_spec(a, b),
{
    !is_nan(a) && !is_nan(b) && signed(a) < signed(b)
}

} // verus!
