//! The device class and device instance code generators.
//!
//! A capability (device class) declaration and a managed device declaration
//! each expand, at build time, into a fixed set of artifacts: a driver-side
//! contract, a class tag and a forwarding implementation for the class; a
//! descriptor record in a dedicated linker section for the device. The
//! modules below carry the generator's whole decision logic — validation,
//! diagnostics, and the exact shape of every artifact — over a plain model
//! of the declared items. Reading declared source text into that model, and
//! rendering the artifacts back out as source text, is the embedding
//! front end's part.

use vstd::prelude::*;

pub mod class;
pub mod device;

verus! {

/// The views of a list of diagnostic messages.
pub open spec fn messages_view(v: Seq<String>) -> Seq<Seq<char>> {
    v.map_values(|s: String| s@)
}

} // verus!
