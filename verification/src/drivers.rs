//! Reference drivers.
//!
//! Two small, fully specified drivers. [`GpioPin`] implements the `Gpio`
//! device class over a plain `u32` state and backs the class scenarios of
//! the test-suite; [`TallyDriver`] keeps a call tally in its state, which
//! makes the effect of every lifecycle invocation observable — useful for
//! checking how often, and in what order, devices are brought up.

use vstd::prelude::*;

use crate::device::{Driver, StateLock};
use crate::domain::Entry;
use crate::gpio::GpioDriver;

verus! {

/// A driver for a general-purpose I/O pin whose whole state is one `u32`.
///
/// Zero is a valid initial state for it, so a freshly constructed device
/// reads the value `0` before any `init` call. Its lifecycle operations
/// leave the state alone.
pub struct GpioPin;

impl Driver for GpioPin {
    type StateType = u32;

    open spec fn zero_spec() -> u32 {
        0u32
    }

    open spec fn init_spec(s: u32) -> u32 {
        s
    }

    open spec fn cleanup_spec(s: u32) -> u32 {
        s
    }

    fn zeroed() -> u32 {
        0
    }

    fn init(state: &mut StateLock<Self>, entry: &Entry<'_>) {
    }

    fn cleanup(state: &mut StateLock<Self>, entry: &Entry<'_>) {
    }
}

impl GpioDriver for GpioPin {
    open spec fn get_spec(s: u32) -> u32 {
        s
    }

    open spec fn set_spec(s: u32, value: u32) -> u32 {
        value
    }

    proof fn lemma_set_then_get(s: u32, value: u32) {
    }

    fn get_value(state: &StateLock<Self>, entry: &Entry<'_>) -> u32 {
        *state.borrow(entry)
    }

    fn set_value(state: &mut StateLock<Self>, entry: &Entry<'_>, value: u32) {
        let r = state.borrow_mut(entry);
        *r = value;
    }
}

/// A driver whose state tallies its `init` calls.
///
/// Each `init` raises the tally by one (wrapping at the type's maximum);
/// `cleanup` clears it. After a registry traversal over freshly built
/// devices of this driver, every tally reads exactly `1`.
pub struct TallyDriver;

impl Driver for TallyDriver {
    type StateType = u32;

    open spec fn zero_spec() -> u32 {
        0u32
    }

    open spec fn init_spec(s: u32) -> u32 {
        if s == u32::MAX {
            0u32
        } else {
            (s + 1) as u32
        }
    }

    open spec fn cleanup_spec(s: u32) -> u32 {
        0u32
    }

    fn zeroed() -> u32 {
        0
    }

    fn init(state: &mut StateLock<Self>, entry: &Entry<'_>) {
        let r = state.borrow_mut(entry);
        if *r == u32::MAX {
            *r = 0;
        } else {
            *r = *r + 1;
        }
    }

    fn cleanup(state: &mut StateLock<Self>, entry: &Entry<'_>) {
        let r = state.borrow_mut(entry);
        *r = 0;
    }
}

} // verus!
