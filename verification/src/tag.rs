//! The device class tags.
//!
//! Tags are used to statically restrain an [`Accessor`](crate::accessor::Accessor)
//! to a unique device class. Each class declares a zero-sized marker type of
//! its own; this module holds the default marker.

use vstd::prelude::*;

verus! {

/// The dummy (i.e. no-op) tag.
///
/// An accessor tagged with `NoTag` carries no device class: it offers raw
/// state access only.
pub struct NoTag;

} // verus!
