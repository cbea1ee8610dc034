//! The mutual-exclusion domain.
//!
//! Protected state may only be read or written by a caller that is currently
//! inside the domain. The domain is global to one protection scheme: entering
//! it anywhere excludes entry anywhere else in the same scheme. Here the
//! scheme is modelled by an explicit owner value, [`Domain`], and entry by an
//! [`Entry`] token that borrows the owner for as long as the entry lasts, so
//! a nested entry on the same domain is rejected at compile time.

use vstd::prelude::*;

verus! {

/// The owner of one mutual-exclusion domain.
///
/// Exactly one `Domain` value should exist per protection scheme; the
/// embedding application creates it once at startup and threads it through
/// every operation that must enter the domain. This mirrors a global
/// exclusion primitive (such as suppressing preemption) on a concrete
/// target: exclusivity is enforced here by ownership instead.
pub struct Domain {
    _private: (),
}

/// Proof that the caller is inside the mutual-exclusion domain.
///
/// An `Entry` is obtained from [`Domain::enter`] and holds the domain for its
/// whole lifetime: while one `Entry` is live, no second entry of the same
/// domain can be made. Dropping the token leaves the domain.
pub struct Entry<'a> {
    _domain: &'a Domain,
}

impl Domain {
    /// Create the owner of a new mutual-exclusion domain.
    ///
    /// Caller-enforced precondition, not checked here: one protection scheme
    /// has one `Domain`; state containers gated by the same scheme must all
    /// be used under the same owner.
    pub fn new() -> Domain {
        Domain { _private: () }
    }

    /// Enter the mutual-exclusion domain.
    ///
    /// The returned token proves occupancy. It borrows the domain owner
    /// exclusively, so the domain cannot be entered again until the token is
    /// dropped; entry never blocks and never fails.
    pub fn enter<'a>(&'a mut self) -> Entry<'a> {
        Entry { _domain: &*self }
    }
}

} // verus!
