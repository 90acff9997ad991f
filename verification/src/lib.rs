//! Accept a value either borrowed or owned, and obtain an owned value,
//! cloning only when the input was actually borrowed.
//!
//! The [`MaybeOwned`] trait is the single capability this crate defines:
//! a read-only view via [`MaybeOwned::borrow`], and a consuming conversion
//! to an owned value via [`MaybeOwned::into_owned`]. It is implemented for
//! three input shapes: a plain reference `&T` (always clones), the
//! [`Owned`] wrapper (never clones), and the [`BorrowedOrOwned`] sum type
//! (clones only in its borrowed case).

use vstd::prelude::*;

mod borrowed_or_owned;
pub mod laws;
mod owned;

pub use borrowed_or_owned::BorrowedOrOwned;
pub use owned::Owned;

verus! {

use vstd::pervasive::strictly_cloned;

/// A value that can yield a read-only view of a `T` and can be consumed
/// to yield an owned `T`, cloning only when it does not already own one.
pub trait MaybeOwned<T: Clone>: Sized {
    /// The value this input stands for, as a mathematical value.
    spec fn value(self) -> T;

    /// Whether this input already owns its value, so that `into_owned`
    /// moves it out without cloning.
    spec fn is_owned(self) -> bool;

    /// A read-only view of the value. Takes `&self`, so it never mutates
    /// or consumes the input, and its result is pinned to `self.value()`:
    /// every call before `into_owned` observes the same value.
    fn borrow(&self) -> (r: &T)
        ensures
            *r == (*self).value(),
    ;

    /// Consume the input and return an owned value: the held value itself
    /// when the input already owned it, and otherwise a clone of the
    /// value it pointed to.
    fn into_owned(self) -> (r: T)
        ensures
            self.is_owned() ==> r == self.value(),
            !self.is_owned() ==> strictly_cloned::<T>(self.value(), r),
    ;
}

impl<'a, T: Clone> MaybeOwned<T> for &'a T {
    open spec fn value(self) -> T {
        *self
    }

    open spec fn is_owned(self) -> bool {
        false
    }

    fn borrow(&self) -> (r: &T)
        ensures
            *r == **self,
    {
        *self
    }

    fn into_owned(self) -> (r: T)
        ensures
            strictly_cloned::<T>(*self, r),
    {
        T::clone(self)
    }
}

} // verus!
