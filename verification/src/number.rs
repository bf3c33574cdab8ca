//! IEEE-754 binary64 values, read off their bit patterns.
//!
//! A number is a `u64`: one sign bit, eleven exponent bits, fifty-two fraction
//! bits. What depends only on the layout is decided here: whether a pattern is
//! a NaN, the pattern of the negated value, and how two values compare. A
//! non-NaN value's place in the order is its magnitude, counted downwards
//! from zero where the sign bit is set, so the two zeros share a place.
use vstd::prelude::*;

verus! {

/// The sign bit.
pub const SIGN_BIT: u64 = 0x8000_0000_0000_0000;

/// The pattern of positive infinity. Every greater magnitude is a NaN.
pub const INFINITY: u64 = 0x7ff0_0000_0000_0000;

/// Whether the sign bit is set.
pub open spec fn sign_is_set(bits: u64) -> bool {
    bits >= SIGN_BIT
}

/// The pattern without its sign bit.
pub open spec fn magnitude(bits: u64) -> u64 {
    if sign_is_set(bits) {
        (bits - SIGN_BIT) as u64
    } else {
        bits
    }
}

/// Whether the pattern is a NaN: all exponent bits set and a fraction that is not zero.
pub open spec fn is_nan(bits: u64) -> bool {
    magnitude(bits) > INFINITY
}

/// The pattern of the negated value: the same magnitude under the other sign.
pub open spec fn negated(bits: u64) -> u64 {
    if sign_is_set(bits) {
        (bits - SIGN_BIT) as u64
    } else {
        (bits + SIGN_BIT) as u64
    }
}

/// The place of a value in the order of the number line.
pub open spec fn rank(bits: u64) -> int {
    if sign_is_set(bits) {
        -(magnitude(bits) as int)
    } else {
        magnitude(bits) as int
    }
}

/// Whether neither pattern is a NaN. A NaN compares false with everything.
pub open spec fn comparable(a: u64, b: u64) -> bool {
    !is_nan(a) && !is_nan(b)
}

/// IEEE-754 `==`.
pub open spec fn equals(a: u64, b: u64) -> bool {
    comparable(a, b) && rank(a) == rank(b)
}

/// IEEE-754 `<`.
pub open spec fn precedes(a: u64, b: u64) -> bool {
    comparable(a, b) && rank(a) < rank(b)
}

/// IEEE-754 `<=`.
pub open spec fn precedes_or_equals(a: u64, b: u64) -> bool {
    comparable(a, b) && rank(a) <= rank(b)
}

/// Tells whether `bits` is a NaN.
pub fn nan(bits: u64) -> (result: bool)
    ensures
        result == is_nan(bits),
{
    let magnitude: u64 = if bits >= SIGN_BIT {
        bits - SIGN_BIT
    } else {
        bits
    };
    magnitude > INFINITY
}

/// Negates a value by flipping its sign bit.
pub fn negate(bits: u64) -> (result: u64)
    ensures
        result == negated(bits),
{
    if bits >= SIGN_BIT {
        bits - SIGN_BIT
    } else {
        bits + SIGN_BIT
    }
}

/// Computes the place of `bits` in the order.
fn place(bits: u64) -> (result: i128)
    ensures
        result == rank(bits),
{
    if bits >= SIGN_BIT {
        -((bits - SIGN_BIT) as i128)
    } else {
        bits as i128
    }
}

/// Compares two values with IEEE-754 `==`.
pub fn equal(a: u64, b: u64) -> (result: bool)
    ensures
        result == equals(a, b),
{
    !nan(a) && !nan(b) && place(a) == place(b)
}

/// Compares two values with IEEE-754 `<`.
pub fn less(a: u64, b: u64) -> (result: bool)
    ensures
        result == precedes(a, b),
{
    !nan(a) && !nan(b) && place(a) < place(b)
}

/// Compares two values with IEEE-754 `<=`.
pub fn less_equal(a: u64, b: u64) -> (result: bool)
    ensures
        result == precedes_or_equals(a, b),
{
    !nan(a) && !nan(b) && place(a) <= place(b)
}

/// Negating twice gives the pattern back.
pub proof fn lemma_negated_twice(bits: u64)
    ensures
        negated(negated(bits)) == bits,
{
}

/// Negation mirrors the order: it keeps NaNs apart from the rest and turns
/// each place into its opposite.
pub proof fn lemma_negated_mirrors(bits: u64)
    ensures
        is_nan(negated(bits)) == is_nan(bits),
        rank(negated(bits)) == -rank(bits),
{
}

/// Equal values are the same pattern, or the two zeros.
pub proof fn lemma_equals_is_identity_up_to_zero(a: u64, b: u64)
    ensures
        equals(a, b) <==> comparable(a, b) && (a == b || (magnitude(a) == 0 && magnitude(b) == 0)),
{
}

/// Among values that are not NaN, exactly one of `<`, `==`, `>` holds.
pub proof fn lemma_trichotomy(a: u64, b: u64)
    requires
        comparable(a, b),
    ensures
        precedes(a, b) || equals(a, b) || precedes(b, a),
        !(precedes(a, b) && equals(a, b)),
        !(precedes(a, b) && precedes(b, a)),
        !(equals(a, b) && precedes(b, a)),
        precedes_or_equals(a, b) == (precedes(a, b) || equals(a, b)),
{
}

} // verus!
