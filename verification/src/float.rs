//! Comparing single-precision numbers by the bits that store them.

use vstd::prelude::*;

verus! {

/// The bits of positive infinity, which no magnitude of a number exceeds.
pub const INFINITY: u32 = 0x7f80_0000;

/// The bit that holds the sign.
pub const SIGN: u32 = 0x8000_0000;

/// The bits without the sign.
pub open spec fn magnitude(bits: u32) -> int {
    if bits < SIGN {
        bits as int
    } else {
        bits - SIGN
    }
}

/// Whether the bits store no number.
pub open spec fn is_nan(bits: u32) -> bool {
    magnitude(bits) > INFINITY
}

/// Where the number that the bits store stands among all others; the two zeros share a place.
pub open spec fn rank(bits: u32) -> int {
    if bits < SIGN {
        magnitude(bits)
    } else {
        -magnitude(bits)
    }
}

/// Whether the first number is less than the second.
pub open spec fn less(a: u32, b: u32) -> bool {
    !is_nan(a) && !is_nan(b) && rank(a) < rank(b)
}

/// Whether the two are the same number.
pub open spec fn equal(a: u32, b: u32) -> bool {
    !is_nan(a) && !is_nan(b) && rank(a) == rank(b)
}

/// Tells whether the bits store no number.
pub fn nan(bits: u32) -> (res: bool)
    ensures
        res == is_nan(bits),
{
    if bits < SIGN {
        bits > INFINITY
    } else {
        bits - SIGN > INFINITY
    }
}

/// The place of a number among all others.
fn place(bits: u32) -> (res: i64)
    ensures
        res == rank(bits),
{
    if bits < SIGN {
        bits as i64
    } else {
        -((bits - SIGN) as i64)
    }
}

/// Tells whether the first number is less than the second.
pub fn is_less(a: u32, b: u32) -> (res: bool)
    ensures
        res == less(a, b),
{
    !nan(a) && !nan(b) && place(a) < place(b)
}

/// Tells whether the two are the same number.
pub fn is_equal(a: u32, b: u32) -> (res: bool)
    ensures
        res == equal(a, b),
{
    !nan(a) && !nan(b) && place(a) == place(b)
}

} // verus!
