//! The laws of the [`MaybeOwned`] capability, stated as proof functions.

use vstd::prelude::*;

verus! {

use vstd::pervasive::cloned;
use vstd::pervasive::strictly_cloned;
use crate::MaybeOwned;
use crate::Owned;

/// Borrowing is read-only and stable: `borrow` takes its input by shared
/// reference, so it can never mutate or consume it, and any two results of
/// borrowing the same input, however many calls apart, observe the same
/// value.
pub proof fn lemma_borrow_stable<T: Clone, S: MaybeOwned<T>>(s: S, r1: &T, r2: &T)
    requires
        call_ensures(S::borrow, (&s,), r1),
        call_ensures(S::borrow, (&s,), r2),
    ensures
        *r1 == *r2,
        *r1 == s.value(),
{
}

/// An input that already owns its data gives it up without change:
/// whatever `into_owned` returns for it is the held value itself, moved,
/// never a clone of it.
pub proof fn lemma_into_owned_identity<T: Clone, S: MaybeOwned<T>>(s: S, r: T)
    requires
        s.is_owned(),
        call_ensures(S::into_owned, (s,), r),
    ensures
        r == s.value(),
{
}

/// An input that merely points at its data yields an independently owned
/// result: whatever `into_owned` returns could have come from one call of
/// `T::clone` on the value the input stood for. Whether the input owned
/// its data or not, the result is a clone of its value in the inclusive
/// sense that also counts the value itself.
pub proof fn lemma_into_owned_cloned<T: Clone, S: MaybeOwned<T>>(s: S, r: T)
    requires
        call_ensures(S::into_owned, (s,), r),
    ensures
        !s.is_owned() ==> strictly_cloned::<T>(s.value(), r),
        cloned::<T>(s.value(), r),
{
}

/// Round trip: wrapping a value in [`Owned`] and converting back yields
/// that very value, with no clone in between.
pub proof fn lemma_owned_round_trip<T: Clone>(v: T, r: T)
    requires
        call_ensures(<Owned<T> as MaybeOwned<T>>::into_owned, (Owned(v),), r),
    ensures
        r == v,
{
}

} // verus!
