//! A device-driver runtime for heapless targets.
//!
//! A single stateless [`Driver`](device::Driver) implementation can back many
//! long-lived [`Device`](device::Device) instances. Each device owns one
//! protected state container; every read or write of that state demands proof
//! that the caller has entered the mutual-exclusion domain. Capability-tagged
//! accessors restrict, at compile time, which operations are callable on a
//! device. At startup a registry of device descriptors is traversed once, in
//! declaration order, to bring every declared device online.

pub mod accessor;
pub mod codegen;
pub mod device;
pub mod domain;
pub mod drivers;
pub mod error;
pub mod gpio;
pub mod registry;
pub mod state;
pub mod tag;

pub use accessor::Accessor;
pub use device::{Device, Driver, StateLock};
pub use error::Error;
pub use registry::{init, Descriptor};
