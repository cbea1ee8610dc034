//! Errors at the crate level.
//!
//! Driver operations themselves report no errors: the runtime defines no
//! recoverable-error channel for them. This enum exists for callers that need
//! a crate-level error value.

use vstd::prelude::*;

verus! {

/// The errors at the crate level.
#[derive(Debug, Clone, Copy, PartialEq, Eq, Structural)]
pub enum Error {
    /// An unspecified failure.
    Undefined,
}

impl Error {
    /// A short human-readable description of the error.
    pub fn message(&self) -> (r: &'static str)
        ensures
            r@ == "undefined error"@,
    {
        "undefined error"
    }
}

} // verus!
