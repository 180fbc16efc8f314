//! What holds of values that know whether they change.

use crate::attr::{changes, updated};
use vstd::prelude::*;
use vstd::std_specs::cmp::PartialEqSpec;

verus! {

/// After an update the value is the new one, or one that equals it; and the update tells of a
/// change exactly where the value before does not equal the new one.
pub proof fn law_update_takes_over<T: PartialEq>(before: T, value: T)
    requires
        value.eq_spec(&value),
    ensures
        updated(before, value).eq_spec(&value),
        changes(before, value) <==> !before.eq_spec(&value),
        !changes(before, value) ==> updated(before, value) == before,
        changes(before, value) ==> updated(before, value) == value,
{
}

} // verus!
