//! A sum type holding either a reference to external data or owned data.

use vstd::prelude::*;

verus! {

use vstd::pervasive::strictly_cloned;
use crate::MaybeOwned;

/// A value that either points to external data or holds owned data.
///
/// This is the copy-on-write-like shape of [`MaybeOwned`] input: converting
/// it into an owned value clones only in the [`BorrowedOrOwned::Borrowed`]
/// case; the [`BorrowedOrOwned::Owned`] case yields its held value directly.
pub enum BorrowedOrOwned<'a, T> {
    /// Points to data owned by someone else; `into_owned` must clone.
    Borrowed(&'a T),
    /// Holds the data outright; `into_owned` moves it out at zero cost.
    Owned(T),
}

impl<'a, T: Clone> MaybeOwned<T> for BorrowedOrOwned<'a, T> {
    open spec fn value(self) -> T {
        match self {
            BorrowedOrOwned::Borrowed(r) => *r,
            BorrowedOrOwned::Owned(v) => v,
        }
    }

    open spec fn is_owned(self) -> bool {
        self is Owned
    }

    fn borrow(&self) -> (r: &T)
        ensures
            *r == (*self).value(),
    {
        match self {
            BorrowedOrOwned::Borrowed(r) => *r,
            BorrowedOrOwned::Owned(v) => v,
        }
    }

    fn into_owned(self) -> (r: T)
        ensures
            self is Owned ==> r == self.value(),
            self is Borrowed ==> strictly_cloned::<T>(self.value(), r),
    {
        match self {
            BorrowedOrOwned::Borrowed(r) => T::clone(r),
            BorrowedOrOwned::Owned(v) => v,
        }
    }
}

} // verus!
