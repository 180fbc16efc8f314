//! A value that knows whether it changes.

use vstd::prelude::*;
use vstd::std_specs::cmp::PartialEqSpec;

verus! {

/// A value that tells on each update whether it has changed.
pub struct Attr<T>(pub T);

impl<T: PartialEq> Attr<T> {
    /// Takes over `value` where it is another than before, and tells whether it is.
    pub fn update(&mut self, value: T) -> (changed: bool)
        ensures
            T::obeys_eq_spec() ==> changed == changes(old(self).0, value),
            T::obeys_eq_spec() ==> final(self).0 == updated(old(self).0, value),
            final(self).0 == if changed {
                value
            } else {
                old(self).0
            },
    {
        if !(self.0 == value) {
            self.0 = value;
            true
        } else {
            false
        }
    }
}

/// Whether [`Attr::update`] takes over a new value.
pub open spec fn changes<T: PartialEq>(before: T, value: T) -> bool {
    !before.eq_spec(&value)
}

/// What is held after [`Attr::update`].
pub open spec fn updated<T: PartialEq>(before: T, value: T) -> T {
    if changes(before, value) {
        value
    } else {
        before
    }
}

/// The same value twice is a change at most once.
pub proof fn law_second_update_is_no_change<T: PartialEq>(before: T, value: T)
    requires
        value.eq_spec(&value),
    ensures
        !changes(updated(before, value), value),
{
}

} // verus!
