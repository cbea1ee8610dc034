//! The protected state container.
//!
//! A [`ProtectedState`] owns exactly one state value. Any access, shared or
//! exclusive, demands an [`Entry`] token, that is, proof that the caller is
//! currently inside the mutual-exclusion domain. The borrow handed out is
//! scoped: it ends at the end of its borrow, which does not itself leave the
//! domain — entry and exit are the caller's own, coarser-grained operation
//! around one or more borrows.

use vstd::prelude::*;

use crate::domain::Entry;

verus! {

/// A state value gated behind the mutual-exclusion domain.
///
/// Created with an initial value, owned by its device for the device's whole
/// life, never reallocated or resized.
pub struct ProtectedState<T> {
    value: T,
}

impl<T> View for ProtectedState<T> {
    type V = T;

    closed spec fn view(&self) -> T {
        self.value
    }
}

impl<T> ProtectedState<T> {
    /// Build a container around an initial state value.
    pub fn new(value: T) -> (s: ProtectedState<T>)
        ensures
            s@ == value,
    {
        ProtectedState { value }
    }

    /// Shared access to the state, given proof of domain entry.
    pub fn borrow<'a>(&'a self, _entry: &Entry<'_>) -> (r: &'a T)
        ensures
            *r == self@,
    {
        &self.value
    }

    /// Exclusive access to the state, given proof of domain entry.
    ///
    /// The caller may mutate the state through the returned borrow; the
    /// container afterwards holds whatever the caller left behind.
    pub fn borrow_mut<'a>(&'a mut self, _entry: &Entry<'_>) -> (r: &'a mut T)
        ensures
            *r == old(self)@,
            final(self)@ == *final(r),
    {
        &mut self.value
    }

    /// Consume the container and hand back the state value.
    pub fn into_inner(self) -> (r: T)
        ensures
            r == self@,
    {
        self.value
    }
}

} // verus!
