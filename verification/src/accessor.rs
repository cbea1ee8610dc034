//! The device class accessor.
//!
//! An accessor is a short-lived, non-owning, capability-tagged view over a
//! device. It borrows its device for its whole life, so an accessor can
//! never outlive the device it was taken from: retaining one past the
//! device is rejected at compile time. The class operations themselves are
//! declared only for accessors whose tag's contract the underlying driver
//! implements, so invoking an unsupported class is rejected at compile time
//! as well; no runtime check or dispatch table exists. The borrow is
//! exclusive: at most one accessor of a device is live at a time, and an
//! accessor cannot be duplicated — a caller that wants several takes them
//! one after another, each for the span of its use.

use core::marker::PhantomData;

use vstd::prelude::*;

use crate::device::{Device, Driver};
use crate::domain::Entry;
use crate::tag::NoTag;

verus! {

/// A device class accessor.
///
/// Holds an exclusive borrow of the device it was taken from, together with
/// a zero-sized class tag. Building one allocates nothing and checks
/// nothing at runtime.
pub struct Accessor<'d, D: Driver, Tag = NoTag> {
    /// The borrowed device of this accessor.
    pub device: &'d mut Device<D>,
    /// The zero-sized class tag of this accessor.
    pub tag: PhantomData<Tag>,
}

impl<'d, D: Driver, Tag> Accessor<'d, D, Tag> {
    /// The driver state of the device, as the accessor currently sees it.
    pub open spec fn state_spec(&self) -> D::StateType {
        (*self.device).state@
    }

    /// Create a new accessor from an exclusive borrow of a [`Device`].
    pub fn new(device: &'d mut Device<D>) -> (a: Accessor<'d, D, Tag>)
        ensures
            a.state_spec() == old(device).state@,
    {
        Accessor { device, tag: PhantomData }
    }

    /// Shared access to the inner device.
    pub fn inner<'a>(&'a self) -> (d: &'a Device<D>)
        ensures
            d.state@ == self.state_spec(),
    {
        &*self.device
    }

    /// Shared access to the internal driver state from inside the domain.
    pub fn inner_state_ref<'a>(&'a self, entry: &Entry<'_>) -> (r: &'a D::StateType)
        ensures
            *r == self.state_spec(),
    {
        self.device.state.borrow(entry)
    }

    /// Exclusive access to the internal driver state from inside the domain.
    pub fn inner_state_ref_mut<'a>(&'a mut self, entry: &Entry<'_>) -> (r: &'a mut D::StateType)
        ensures
            *r == old(self).state_spec(),
            final(self).state_spec() == *final(r),
    {
        self.device.state.borrow_mut(entry)
    }
}

} // verus!
