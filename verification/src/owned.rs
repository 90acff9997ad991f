//! The wrapper that marks a value as already owned.

use vstd::prelude::*;

verus! {

use crate::MaybeOwned;

/// A wrapper marking a value as already owned.
///
/// Its sole purpose is to select the "already owned, skip cloning"
/// implementation of [`MaybeOwned`]: a blanket implementation over plain
/// references cannot also cover an unwrapped owned value without the two
/// implementations colliding, so the owned case is marked by this type.
pub struct Owned<T>(pub T);

impl<T: Clone> MaybeOwned<T> for Owned<T> {
    open spec fn value(self) -> T {
        self.0
    }

    open spec fn is_owned(self) -> bool {
        true
    }

    fn borrow(&self) -> (r: &T)
        ensures
            *r == self.0,
    {
        &self.0
    }

    fn into_owned(self) -> (r: T)
        ensures
            r == self.0,
    {
        self.0
    }
}

impl<T> From<T> for Owned<T> {
    fn from(t: T) -> (r: Self)
        ensures
            r.0 == t,
    {
        Owned(t)
    }
}

impl<T> vstd::std_specs::convert::FromSpecImpl<T> for Owned<T> {
    open spec fn obeys_from_spec() -> bool {
        true
    }

    open spec fn from_spec(t: T) -> Self {
        Owned(t)
    }
}

} // verus!
