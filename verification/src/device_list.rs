//! Device lists: the outcome of one enumeration.

use vstd::prelude::*;
use crate::context::Context;
use crate::device::Device;
use crate::log::LogLevel;
use crate::native::NativeCall;
use crate::runtime::{
    clones, lemma_owners_gained_by_clones, owners_gained, OwnerStep, Runtime, RuntimeState,
};

verus! {

/// The devices that one enumeration found. It holds the native array of the
/// enumeration and an owner of the context that made it.
#[derive(Debug)]
pub struct DeviceList {
    context: Context,
    list: usize,
    devices: Vec<usize>,
}

impl DeviceList {
    /// The owner of the context that this list holds.
    pub closed spec fn context(&self) -> Context {
        self.context
    }

    /// The identity of the native array.
    pub closed spec fn native(&self) -> usize {
        self.list
    }

    /// The native identities of the devices, in the order of the native
    /// array.
    pub closed spec fn entries(&self) -> Seq<usize> {
        self.devices@
    }

    /// The identity of the native array.
    pub fn as_raw(&self) -> (raw: usize)
        ensures
            raw == self.native(),
    {
        self.list
    }

    /// The owner of the context that this list holds.
    pub fn context_ref(&self) -> (context: &Context)
        ensures
            *context == self.context(),
    {
        &self.context
    }

    /// The number of devices in the list.
    pub fn len(&self) -> (len: usize)
        ensures
            len == self.entries().len(),
    {
        self.devices.len()
    }

    /// The device at `index`, with the native call that takes the reference
    /// unit which the device holds from now on. The device holds a further
    /// owner of the list's context, so it may outlive the list. Beyond the
    /// end of the list there is no device and nothing happens.
    pub fn get<F: Fn(LogLevel, String)>(&self, runtime: &mut Runtime<F>, index: usize) -> (found: Option<
        (Device, NativeCall),
    >)
        requires
            old(runtime).wf(),
            self.context().live_in(old(runtime)@),
            old(runtime)@.owners(self.context().identity()) < usize::MAX,
        ensures
            final(runtime).wf(),
            index >= self.entries().len() ==> found.is_none() && final(runtime)@ == old(
                runtime,
            )@,
            index < self.entries().len() ==> found is Some && found->Some_0.0.context()
                == self.context() && found->Some_0.0.native() == self.entries()[index as int]
                && found->Some_0.1 == (NativeCall::RefDevice {
                device: self.entries()[index as int],
            }) && final(runtime)@ == old(runtime)@.acquire(self.context().identity()),
    {
        if index >= self.devices.len() {
            return None;
        }
        let device = self.devices[index];
        let owner = self.context.clone(runtime);
        Some((crate::device::from_libusb(owner, device), NativeCall::RefDevice { device }))
    }

    /// Every device of the list, in order, each with the native call that
    /// takes the reference unit which the device holds from now on. Each
    /// device holds a further owner of the list's context.
    pub fn to_vec<F: Fn(LogLevel, String)>(&self, runtime: &mut Runtime<F>) -> (taken: Vec<
        (Device, NativeCall),
    >)
        requires
            old(runtime).wf(),
            self.context().live_in(old(runtime)@),
            old(runtime)@.owners(self.context().identity()) + self.entries().len() <= usize::MAX,
        ensures
            final(runtime).wf(),
            final(runtime)@ == old(runtime)@.replay(
                self.context().identity(),
                clones(self.entries().len()),
            ),
            final(runtime)@.owners(self.context().identity()) == old(runtime)@.owners(
                self.context().identity(),
            ) + self.entries().len(),
            self.context().live_in(final(runtime)@),
            taken@.len() == self.entries().len(),
            forall|index: int|
                0 <= index < taken@.len() ==> (#[trigger] taken@[index]).0.context()
                    == self.context() && taken@[index].0.native() == self.entries()[index]
                    && taken@[index].1 == (NativeCall::RefDevice {
                    device: self.entries()[index],
                }),
    {
        let ghost before = runtime@;
        let ghost id = self.context.identity();
        let mut taken: Vec<(Device, NativeCall)> = Vec::new();
        let mut index: usize = 0;
        while index < self.devices.len()
            invariant
                index <= self.devices.len(),
                runtime.wf(),
                self.context.live_in(before),
                id == self.context.identity(),
                before.owners(id) + self.devices@.len() <= usize::MAX,
                runtime@ == before.replay(id, clones(index as nat)),
                runtime@.owners(id) == before.owners(id) + index,
                self.context.live_in(runtime@),
                taken@.len() == index,
                forall|at: int|
                    0 <= at < index ==> (#[trigger] taken@[at]).0.context() == self.context
                        && taken@[at].0.native() == self.devices@[at] && taken@[at].1 == (
                    NativeCall::RefDevice { device: self.devices@[at] }),
            decreases self.devices.len() - index,
        {
            let device = self.devices[index];
            let owner = self.context.clone(runtime);
            taken.push((crate::device::from_libusb(owner, device), NativeCall::RefDevice { device }));
            proof {
                assert(clones((index + 1) as nat).drop_last() =~= clones(index as nat));
            }
            index += 1;
        }
        taken
    }

    /// Gives up the list, and returns the native calls that this asks for,
    /// in order: the native array is released together with the reference
    /// units that it holds on its devices, and then the owner of the context
    /// is given up.
    pub fn drop<F: Fn(LogLevel, String)>(self, runtime: &mut Runtime<F>) -> (calls: Vec<NativeCall>)
        requires
            old(runtime).wf(),
            self.context().live_in(old(runtime)@),
        ensures
            final(runtime).wf(),
            final(runtime)@ == old(runtime)@.release(self.context().identity()),
            calls@ == seq![
                NativeCall::FreeDeviceList { list: self.native(), unref_devices: true },
            ] + old(runtime)@.release_calls(self.context().identity()),
    {
        let mut calls = Vec::new();
        calls.push(NativeCall::FreeDeviceList { list: self.list, unref_devices: true });
        let mut released = self.context.drop(runtime);
        calls.append(&mut released);
        calls
    }
}

/// The list of an enumeration whose native array has the identity `list` and
/// holds `devices`. It takes over `context` as its owner of the context.
pub fn from_libusb(context: Context, list: usize, devices: Vec<usize>) -> (made: DeviceList)
    ensures
        made.context() == context,
        made.native() == list,
        made.entries() == devices@,
{
    DeviceList { context, list, devices }
}

/// What happens to the owners of a context when `taken` devices are taken
/// from a list and the list is dropped then.
pub open spec fn devices_taken_and_list_dropped(taken: nat) -> Seq<OwnerStep> {
    clones(taken).push(OwnerStep::Drop)
}

/// Devices outlive their list: once a device was taken from a list, dropping
/// the list asks for no release and leaves the context alive, whoever else
/// owns it. The context then has as many owners more as devices were taken,
/// less the owner that the list held.
pub proof fn lemma_devices_outlive_list<F>(state: RuntimeState<F>, id: int, taken: nat)
    requires
        state.is_live(id),
        taken >= 1,
    ensures
        state.replay(id, devices_taken_and_list_dropped(taken)).is_live(id),
        state.replay(id, devices_taken_and_list_dropped(taken)).owners(id) == state.owners(id)
            + taken - 1,
        state.replay(id, devices_taken_and_list_dropped(taken)).callbacks == state.callbacks,
        state.replay_calls(id, devices_taken_and_list_dropped(taken)) == Seq::<
            NativeCall,
        >::empty(),
{
    let steps = devices_taken_and_list_dropped(taken);
    assert(steps.drop_last() =~= clones(taken));
    lemma_owners_gained_by_clones(taken);
    assert forall|k: int| 0 <= k <= steps.len() implies state.owners(id)
        + #[trigger] owners_gained(steps.take(k)) >= 1 by {
        if k <= taken {
            assert(steps.take(k) =~= clones(k as nat));
            lemma_owners_gained_by_clones(k as nat);
        } else {
            assert(steps.take(k) =~= steps);
        }
    }
    state.lemma_owners_keep_context_live(id, steps);
}

} // verus!
