//! The driver contract and the device instance.
//!
//! A driver is stateless logic: it declares the shape of its per-device
//! internal state and the two lifecycle operations, `init` and `cleanup`.
//! A [`Device`] is the long-lived instance pairing one driver with one
//! protected state container. One driver implementation may back any number
//! of devices; each device specializes it with its own state.

use vstd::prelude::*;

use crate::accessor::Accessor;
use crate::domain::{Domain, Entry};
use crate::state::ProtectedState;

verus! {

/// The driver interface.
///
/// The driver does not include a state but only the implementation; the
/// internal state is stored by a [`Device`] instance. Each lifecycle
/// operation takes a handle to the protected state and proof of domain
/// entry, and declares, as a specification function, exactly the transform
/// it applies to the state. Both operations are total: they demand nothing
/// of the incoming state, so callers may invoke them any number of times.
pub trait Driver: Sized {
    /// The type of the internal driver state.
    ///
    /// It must be transferable across execution contexts.
    type StateType: Send;

    /// The initial ("zeroed") state value of this driver.
    spec fn zero_spec() -> Self::StateType;

    /// What [`Driver::init`] does to the state.
    spec fn init_spec(s: Self::StateType) -> Self::StateType;

    /// What [`Driver::cleanup`] does to the state.
    spec fn cleanup_spec(s: Self::StateType) -> Self::StateType;

    /// Build the initial state value.
    ///
    /// The runtime assumes no bit pattern: every driver constructs its own
    /// initial value explicitly, and [`Device::new`] calls this once.
    fn zeroed() -> (s: Self::StateType)
        ensures
            s == Self::zero_spec(),
    ;

    /// The init function of the driver.
    ///
    /// Initializes the driver internal state. It stands for whatever side
    /// effect the underlying hardware device needs to come up.
    fn init(state: &mut StateLock<Self>, entry: &Entry<'_>)
        ensures
            final(state)@ == Self::init_spec(old(state)@),
    ;

    /// The cleanup function of the driver.
    ///
    /// Cleans up the driver internal state, bringing it back toward a
    /// default state.
    fn cleanup(state: &mut StateLock<Self>, entry: &Entry<'_>)
        ensures
            final(state)@ == Self::cleanup_spec(old(state)@),
    ;
}

/// The protected driver internal state.
///
/// The state lives inside a device and is gated by the mutual-exclusion
/// domain: every borrow of it demands an [`Entry`] token.
pub type StateLock<D> = ProtectedState<<D as Driver>::StateType>;

/// A device instance.
///
/// Stores the driver internal state that is related to a given device
/// instance. This offers to share a driver implementation between many
/// device instances but specialize each. A device is a long-lived value:
/// created once, typically at the top level, and never destroyed during
/// normal operation.
pub struct Device<D: Driver> {
    /// The protected state for the driver that is related to this device.
    pub state: StateLock<D>,
}

impl<D: Driver> Device<D> {
    /// Create a new device instance.
    ///
    /// At creation, the driver state of this device instance holds the
    /// driver's declared initial value.
    pub fn new() -> (d: Device<D>)
        ensures
            d.state@ == D::zero_spec(),
    {
        Device { state: ProtectedState::new(D::zeroed()) }
    }

    /// Call the [`Driver::init`] function of the driver on this device.
    ///
    /// Enters the mutual-exclusion domain for the duration of the call. It
    /// has no precondition on the state, so it is safe to call any number of
    /// times; each call applies the driver's init transform once more.
    pub fn init(&mut self, domain: &mut Domain)
        ensures
            final(self).state@ == D::init_spec(old(self).state@),
    {
        let entry = domain.enter();
        D::init(&mut self.state, &entry);
    }

    /// Call the [`Driver::cleanup`] function of the driver on this device.
    ///
    /// Enters the mutual-exclusion domain for the duration of the call; like
    /// [`Device::init`] it is safe to call any number of times.
    pub fn cleanup(&mut self, domain: &mut Domain)
        ensures
            final(self).state@ == D::cleanup_spec(old(self).state@),
    {
        let entry = domain.enter();
        D::cleanup(&mut self.state, &entry);
    }

    /// Shared access to the internal driver state from inside the domain.
    pub fn state_ref<'d>(&'d self, entry: &Entry<'_>) -> (r: &'d D::StateType)
        ensures
            *r == self.state@,
    {
        self.state.borrow(entry)
    }

    /// Exclusive access to the internal driver state from inside the domain.
    pub fn state_ref_mut<'d>(&'d mut self, entry: &Entry<'_>) -> (r: &'d mut D::StateType)
        ensures
            *r == old(self).state@,
            final(self).state@ == *final(r),
    {
        self.state.borrow_mut(entry)
    }

    /// Get a new accessor for the given device class from this device.
    ///
    /// The type of an [`Accessor`] is tagged with a device class tag. Only
    /// when the underlying driver implements that class's contract do the
    /// class operations exist on the accessor, so asking for a class the
    /// driver does not implement is rejected at compile time.
    pub fn accessor<'d, Tag>(&'d mut self) -> (a: Accessor<'d, D, Tag>)
        ensures
            a.state_spec() == old(self).state@,
    {
        Accessor::new(self)
    }
}

/// The driver state after `n` consecutive init calls on a device.
pub open spec fn iterated_init_spec<D: Driver>(n: nat, s: D::StateType) -> D::StateType
    decreases n,
{
    if n == 0 {
        s
    } else {
        D::init_spec(iterated_init_spec::<D>((n - 1) as nat, s))
    }
}

/// Bring a device up `n` times in a row.
///
/// Initializing a device more than once is always allowed: no call demands
/// anything of the device, and what `n` calls leave behind is exactly the
/// `n`-fold application of the driver's own init transform — the effects
/// beyond the first call are the driver's to define, with nothing more
/// imposed by the runtime.
pub fn init_repeatedly<D: Driver>(device: &mut Device<D>, domain: &mut Domain, n: u32)
    ensures
        final(device).state@ == iterated_init_spec::<D>(n as nat, old(device).state@),
{
    let mut k: u32 = 0;
    while k < n
        invariant
            k <= n,
            device.state@ == iterated_init_spec::<D>(k as nat, old(device).state@),
        decreases n - k,
    {
        device.init(domain);
        k = k + 1;
    }
}

impl<D: Driver> Default for Device<D> {
    /// Equivalent to [`Device::new`].
    fn default() -> (d: Self)
        ensures
            d.state@ == D::zero_spec(),
    {
        Self::new()
    }
}

} // verus!
