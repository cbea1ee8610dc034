//! The device descriptor and the startup registry traversal.
//!
//! Every declared, managed device instance contributes exactly one
//! immutable [`Descriptor`]. The registry is the ordered list of all
//! descriptors; the order is the declaration order, fixed per build and not
//! semantically meaningful beyond "all devices get initialized before use".
//! At startup, [`init`] walks the registry once from front to back and
//! invokes the driver `init` of every registered device, exactly once per
//! descriptor, before returning. A device itself is an entry of the device
//! table handed to [`init`]; a descriptor refers to its device by the
//! device's position in that table. One registry covers devices of one
//! driver type: the type-erased record a linker-assembled registry carries
//! rests on raw pointer casts, so here a system with several driver types
//! walks one device table, and one traversal, per driver type.

use vstd::prelude::*;

use crate::device::{Device, Driver};
use crate::domain::Domain;

verus! {

/// A device descriptor: one immutable, fixed-layout registration record.
#[derive(Clone, Copy, Debug)]
pub struct Descriptor {
    /// A unique and short string identifier for the device. It provides a
    /// key to look up the device in the registry.
    pub path: &'static str,
    /// The registered device, as its position in the device table.
    pub device: usize,
}

impl Descriptor {
    /// Create a new device descriptor.
    pub fn new(path: &'static str, device: usize) -> (d: Descriptor)
        ensures
            d.path == path,
            d.device == device,
    {
        Descriptor { path, device }
    }
}

/// The sequence of driver states held by a sequence of devices.
pub open spec fn states_of<D: Driver>(devs: Seq<Device<D>>) -> Seq<D::StateType> {
    devs.map_values(|d: Device<D>| d.state@)
}

/// The state table that a registry traversal leaves behind: the descriptors
/// are visited in order, and each applies the driver's init transform to the
/// state of the device it refers to. A descriptor pointing outside the table
/// changes nothing.
pub open spec fn traverse_spec<D: Driver>(
    states: Seq<D::StateType>,
    descs: Seq<Descriptor>,
) -> Seq<D::StateType>
    decreases descs.len(),
{
    if descs.len() == 0 {
        states
    } else {
        let i = descs[0].device as int;
        let stepped = if i < states.len() {
            states.update(i, D::init_spec(states[i]))
        } else {
            states
        };
        traverse_spec::<D>(stepped, descs.drop_first())
    }
}

/// A traversal never changes how many devices there are.
pub proof fn lemma_traverse_len<D: Driver>(states: Seq<D::StateType>, descs: Seq<Descriptor>)
    ensures
        traverse_spec::<D>(states, descs).len() == states.len(),
    decreases descs.len(),
{
    if descs.len() > 0 {
        let i = descs[0].device as int;
        let stepped = if i < states.len() {
            states.update(i, D::init_spec(states[i]))
        } else {
            states
        };
        lemma_traverse_len::<D>(stepped, descs.drop_first());
    }
}

/// Visiting one more descriptor after a traversal is one more step of the
/// traversal.
pub proof fn lemma_traverse_snoc<D: Driver>(
    states: Seq<D::StateType>,
    descs: Seq<Descriptor>,
    d: Descriptor,
)
    ensures
        traverse_spec::<D>(states, descs.push(d)) == ({
            let t = traverse_spec::<D>(states, descs);
            let i = d.device as int;
            if i < t.len() {
                t.update(i, D::init_spec(t[i]))
            } else {
                t
            }
        }),
    decreases descs.len(),
{
    if descs.len() == 0 {
        let i = d.device as int;
        let stepped = if i < states.len() {
            states.update(i, D::init_spec(states[i]))
        } else {
            states
        };
        assert(descs.push(d)[0] == d);
        assert(descs.push(d).drop_first() =~= Seq::<Descriptor>::empty());
        assert(traverse_spec::<D>(stepped, Seq::<Descriptor>::empty()) == stepped);
    } else {
        let i = descs[0].device as int;
        let stepped = if i < states.len() {
            states.update(i, D::init_spec(states[i]))
        } else {
            states
        };
        assert(descs.push(d)[0] == descs[0]);
        assert(descs.push(d).drop_first() =~= descs.drop_first().push(d));
        lemma_traverse_snoc::<D>(stepped, descs.drop_first(), d);
    }
}

/// Initialize all registered device drivers.
///
/// This is the single bring-up entry point: the embedding application calls
/// it exactly once at startup, before any accessor is constructed or used.
/// The registry is walked from front to back; for every descriptor, in
/// order, the driver `init` of the device it refers to is invoked, exactly
/// once per descriptor, inside its own entry of the mutual-exclusion
/// domain. An empty registry is valid and simply performs no work. That
/// every descriptor refers to a device actually present in the table is an
/// environmental precondition: the registry is assembled by the build, and
/// a malformed registry is outside this runtime's responsibility.
pub fn init<D: Driver>(
    devices: &mut Vec<Device<D>>,
    descriptors: &Vec<Descriptor>,
    domain: &mut Domain,
)
    requires
        forall|i: int|
            0 <= i < descriptors@.len() ==> (#[trigger] descriptors@[i]).device
                < old(devices)@.len(),
    ensures
        final(devices)@.len() == old(devices)@.len(),
        states_of::<D>(final(devices)@) == traverse_spec::<D>(
            states_of::<D>(old(devices)@),
            descriptors@,
        ),
{
    let n = descriptors.len();
    let mut k: usize = 0;
    while k < n
        invariant
            n == descriptors@.len(),
            k <= n,
            devices@.len() == old(devices)@.len(),
            forall|i: int|
                0 <= i < descriptors@.len() ==> (#[trigger] descriptors@[i]).device
                    < devices@.len(),
            states_of::<D>(devices@) == traverse_spec::<D>(
                states_of::<D>(old(devices)@),
                descriptors@.take(k as int),
            ),
        decreases n - k,
    {
        let ghost before = devices@;
        let desc = &descriptors[k];
        let i = desc.device;
        let dev = &mut devices[i];
        dev.init(domain);
        proof {
            assert(devices@ =~= before.update(i as int, devices@[i as int]));
            assert(states_of::<D>(devices@) =~= states_of::<D>(before).update(
                i as int,
                D::init_spec(before[i as int].state@),
            ));
            assert(descriptors@.take(k as int + 1) =~= descriptors@.take(k as int).push(
                descriptors@[k as int],
            ));
            lemma_traverse_snoc::<D>(
                states_of::<D>(old(devices)@),
                descriptors@.take(k as int),
                descriptors@[k as int],
            );
        }
        k = k + 1;
    }
    proof {
        assert(descriptors@.take(n as int) =~= descriptors@);
    }
}

/// Registry traversal invokes each registered device's init exactly once:
/// where the descriptors refer to pairwise distinct devices, a device that
/// is registered ends the traversal with the init transform applied to its
/// state exactly once, and a device that is not registered ends it with its
/// state untouched.
pub proof fn lemma_traverse_each_once<D: Driver>(
    states: Seq<D::StateType>,
    descs: Seq<Descriptor>,
    k: int,
)
    requires
        0 <= k < states.len(),
        forall|i: int, j: int|
            0 <= i < j < descs.len() ==> (#[trigger] descs[i]).device != (#[trigger] descs[j]).device,
    ensures
        (exists|i: int| 0 <= i < descs.len() && (#[trigger] descs[i]).device == k)
            ==> traverse_spec::<D>(states, descs)[k] == D::init_spec(states[k]),
        (forall|i: int| 0 <= i < descs.len() ==> (#[trigger] descs[i]).device != k)
            ==> traverse_spec::<D>(states, descs)[k] == states[k],
    decreases descs.len(),
{
    if descs.len() > 0 {
        let i0 = descs[0].device as int;
        let stepped = if i0 < states.len() {
            states.update(i0, D::init_spec(states[i0]))
        } else {
            states
        };
        assert(stepped.len() == states.len());
        assert forall|i: int, j: int|
            0 <= i < j < descs.drop_first().len() implies (#[trigger] descs.drop_first()[i]).device
            != (#[trigger] descs.drop_first()[j]).device by {
            assert(descs.drop_first()[i] == descs[i + 1]);
            assert(descs.drop_first()[j] == descs[j + 1]);
        }
        lemma_traverse_each_once::<D>(stepped, descs.drop_first(), k);
        if i0 == k {
            assert(stepped[k] == D::init_spec(states[k]));
            assert forall|i: int|
                0 <= i < descs.drop_first().len() implies (#[trigger] descs.drop_first()[i]).device
                != k by {
                assert(descs.drop_first()[i] == descs[i + 1]);
            }
            assert(descs[0].device == k);
        } else {
            assert(stepped[k] == states[k]);
            if exists|i: int| 0 <= i < descs.len() && (#[trigger] descs[i]).device == k {
                let w = choose|i: int| 0 <= i < descs.len() && (#[trigger] descs[i]).device == k;
                assert(w != 0);
                assert(descs.drop_first()[w - 1] == descs[w]);
                assert(exists|i: int|
                    0 <= i < descs.drop_first().len() && (#[trigger] descs.drop_first()[i]).device
                        == k);
            } else {
                assert forall|i: int|
                    0 <= i < descs.drop_first().len() implies (#[trigger] descs.drop_first()[
                    i]).device != k by {
                    assert(descs.drop_first()[i] == descs[i + 1]);
                }
            }
        }
    }
}

} // verus!
