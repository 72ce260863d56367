//! Classification and ordering of IEEE-754 binary64 values, given by their bit patterns.
//!
//! The library carries every real number as the 64-bit pattern of a binary64 value. The
//! predicates here are exact: a pattern is finite when its exponent field is not all ones, and
//! two non-NaN patterns compare by sign and magnitude, which is the order of the values they
//! denote (both zeros compare equal).
use vstd::prelude::*;

verus! {

/// The sign bit of a binary64 pattern.
pub const SIGN_BIT: u64 = 0x8000_0000_0000_0000;

/// The pattern of positive infinity: the smallest magnitude whose exponent field is all ones.
pub const INFINITY_BITS: u64 = 0x7FF0_0000_0000_0000;

/// The pattern without its sign bit.
pub open spec fn magnitude(bits: u64) -> int {
    (bits % SIGN_BIT) as int
}

/// Whether the pattern denotes a finite value (neither an infinity nor a NaN).
pub open spec fn is_finite(bits: u64) -> bool {
    magnitude(bits) < INFINITY_BITS
}

/// Whether the pattern denotes a NaN.
pub open spec fn is_nan(bits: u64) -> bool {
    magnitude(bits) > INFINITY_BITS
}

/// A rank that orders non-NaN patterns as the values they denote.
pub open spec fn rank(bits: u64) -> int {
    if bits >= SIGN_BIT {
        -magnitude(bits)
    } else {
        magnitude(bits)
    }
}

/// `a <= b` on the denoted values; false when either is a NaN.
pub open spec fn value_le(a: u64, b: u64) -> bool {
    !is_nan(a) && !is_nan(b) && rank(a) <= rank(b)
}

/// `a < b` on the denoted values; false when either is a NaN.
pub open spec fn value_lt(a: u64, b: u64) -> bool {
    !is_nan(a) && !is_nan(b) && rank(a) < rank(b)
}

/// Whether the pattern denotes a finite value.
pub fn finite(bits: u64) -> (finite: bool)
    ensures
        finite == is_finite(bits),
{
    bits % SIGN_BIT < INFINITY_BITS
}

/// Whether the pattern denotes a NaN.
pub fn nan(bits: u64) -> (nan: bool)
    ensures
        nan == is_nan(bits),
{
    bits % SIGN_BIT > INFINITY_BITS
}

/// `a <= b` on the denoted values; false when either is a NaN.
pub fn less_or_equal(a: u64, b: u64) -> (le: bool)
    ensures
        le == value_le(a, b),
{
    if nan(a) || nan(b) {
        return false;
    }
    let a_negative = a >= SIGN_BIT;
    let b_negative = b >= SIGN_BIT;
    let a_magnitude = a % SIGN_BIT;
    let b_magnitude = b % SIGN_BIT;
    if a_negative && b_negative {
        b_magnitude <= a_magnitude
    } else if a_negative {
        true
    } else if b_negative {
        a_magnitude == 0 && b_magnitude == 0
    } else {
        a_magnitude <= b_magnitude
    }
}

/// `a < b` on the denoted values; false when either is a NaN.
pub fn less_than(a: u64, b: u64) -> (lt: bool)
    ensures
        lt == value_lt(a, b),
{
    if nan(a) || nan(b) {
        return false;
    }
    let a_negative = a >= SIGN_BIT;
    let b_negative = b >= SIGN_BIT;
    let a_magnitude = a % SIGN_BIT;
    let b_magnitude = b % SIGN_BIT;
    if a_negative && b_negative {
        b_magnitude < a_magnitude
    } else if a_negative {
        a_magnitude != 0 || b_magnitude != 0
    } else if b_negative {
        false
    } else {
        a_magnitude < b_magnitude
    }
}

} // verus!
