//! What holds of numbers by their bits.

use crate::float::{equal, is_nan, less};
use vstd::prelude::*;

verus! {

/// What is no number: more than infinity, of either sign.
pub proof fn law_nan(bits: u32)
    ensures
        is_nan(bits) <==> (0x7f80_0000 < bits < 0x8000_0000 || 0xff80_0000 < bits),
{
}

/// What is no number is related to nothing.
pub proof fn law_nan_is_unrelated(a: u32, b: u32)
    requires
        is_nan(a) || is_nan(b),
    ensures
        !less(a, b),
        !equal(a, b),
{
}

/// Two numbers are the same exactly where their bits are, or where both are zero.
pub proof fn law_equal(a: u32, b: u32)
    requires
        !is_nan(a),
        !is_nan(b),
    ensures
        equal(a, b) <==> (a == b || (a % 0x8000_0000 == 0 && b % 0x8000_0000 == 0)),
{
}

/// Numbers without a sign stand in the order of their bits, those with a sign in the opposite
/// order and before the others.
pub proof fn law_order(a: u32, b: u32)
    requires
        !is_nan(a),
        !is_nan(b),
    ensures
        a < 0x8000_0000 && b < 0x8000_0000 ==> (less(a, b) <==> a < b),
        a >= 0x8000_0000 && b >= 0x8000_0000 ==> (less(a, b) <==> b < a),
        a > 0x8000_0000 && b < 0x8000_0000 ==> less(a, b) && !less(b, a),
        a == 0x8000_0000 && b < 0x8000_0000 ==> (less(a, b) <==> b > 0) && !less(b, a),
{
}

/// Of two numbers, one is less or they are the same, and only one of these holds.
pub proof fn law_one_of_three(a: u32, b: u32)
    requires
        !is_nan(a),
        !is_nan(b),
    ensures
        less(a, b) || equal(a, b) || less(b, a),
        !(less(a, b) && equal(a, b)),
        !(less(a, b) && less(b, a)),
        equal(a, b) == equal(b, a),
{
}

/// What is less than a lesser number is less.
pub proof fn law_less_is_transitive(a: u32, b: u32, c: u32)
    requires
        less(a, b),
        less(b, c),
    ensures
        less(a, c),
{
}

} // verus!
