//! The `Gpio` device class, written out by hand.
//!
//! A device class is a named set of operations a driver may support. One
//! class declaration expands to three artifacts: a driver-side contract
//! with the self-receiver replaced by an explicit protected-state handle, a
//! zero-sized class tag, and a forwarding implementation that gives every
//! accessor tagged with the class the class's operations, provided the
//! underlying driver implements the contract. This module holds those three
//! artifacts for a `Gpio` class with `get_value` and `set_value`.

use vstd::prelude::*;

use crate::accessor::Accessor;
use crate::device::{Driver, StateLock};
use crate::domain::{Domain, Entry};

verus! {

/// The driver-side contract of the `Gpio` device class.
///
/// Each operation of the class appears here with the conventional
/// self-receiver replaced by a handle to the protected state, plus proof of
/// domain entry; the remaining arguments are passed through unchanged, in
/// declared order. Every operation declares, as a specification function,
/// exactly what it reads or writes, and a written value must be the value
/// read back.
pub trait GpioDriver: Driver {
    /// The value the class reads out of a driver state.
    spec fn get_spec(s: Self::StateType) -> u32;

    /// The driver state after the class writes `value`.
    spec fn set_spec(s: Self::StateType, value: u32) -> Self::StateType;

    /// A value written to the state is the value read back from it.
    proof fn lemma_set_then_get(s: Self::StateType, value: u32)
        ensures
            Self::get_spec(Self::set_spec(s, value)) == value,
    ;

    /// Read the current value of the device.
    fn get_value(state: &StateLock<Self>, entry: &Entry<'_>) -> (r: u32)
        ensures
            r == Self::get_spec(state@),
    ;

    /// Write a new value to the device.
    fn set_value(state: &mut StateLock<Self>, entry: &Entry<'_>, value: u32)
        ensures
            final(state)@ == Self::set_spec(old(state)@, value),
    ;
}

/// The tag of the `Gpio` device class.
pub struct GpioTag;

impl<'d, D: GpioDriver> Accessor<'d, D, GpioTag> {
    /// Read the current value of the device.
    ///
    /// Enters the mutual-exclusion domain for the duration of this one
    /// call, takes a shared borrow of the device's protected state, and
    /// forwards to the driver's contract method.
    pub fn get_value(&self, domain: &mut Domain) -> (r: u32)
        ensures
            r == D::get_spec(self.state_spec()),
    {
        let entry = domain.enter();
        D::get_value(&self.device.state, &entry)
    }

    /// Write a new value to the device.
    ///
    /// Enters the mutual-exclusion domain for the duration of this one
    /// call, takes an exclusive borrow of the device's protected state, and
    /// forwards to the driver's contract method.
    pub fn set_value(&mut self, domain: &mut Domain, value: u32)
        ensures
            final(self).state_spec() == D::set_spec(old(self).state_spec(), value),
    {
        let entry = domain.enter();
        D::set_value(&mut self.device.state, &entry, value);
    }
}

/// Sequential consistency across domain entries: a value written to a `Gpio`
/// device inside one domain entry is the value read from it inside any later
/// entry, there being no intervening write.
pub proof fn lemma_sequential_consistency<D: GpioDriver>(s: D::StateType, value: u32)
    ensures
        D::get_spec(D::set_spec(s, value)) == value,
{
    D::lemma_set_then_get(s, value);
}

} // verus!
