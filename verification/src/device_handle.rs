//! Device handles: open sessions on a device.

use vstd::prelude::*;
use crate::context::Context;
use crate::log::LogLevel;
use crate::native::NativeCall;
use crate::runtime::Runtime;

verus! {

/// An open session on a device. It holds an owner of the context that the
/// device stems from, so the context outlives the session.
#[derive(Debug)]
pub struct DeviceHandle {
    context: Context,
    handle: usize,
}

impl DeviceHandle {
    /// The owner of the context that this handle holds.
    pub closed spec fn context(&self) -> Context {
        self.context
    }

    /// The identity of the session in the native library.
    pub closed spec fn native(&self) -> usize {
        self.handle
    }

    /// The identity of the session in the native library.
    pub fn as_raw(&self) -> (raw: usize)
        ensures
            raw == self.native(),
    {
        self.handle
    }

    /// The owner of the context that this handle holds.
    pub fn context_ref(&self) -> (context: &Context)
        ensures
            *context == self.context(),
    {
        &self.context
    }

    /// Closes the session, and returns the native calls that this asks for,
    /// in order: the session is closed, and then its owner of the context is
    /// given up.
    pub fn drop<F: Fn(LogLevel, String)>(self, runtime: &mut Runtime<F>) -> (calls: Vec<NativeCall>)
        requires
            old(runtime).wf(),
            self.context().live_in(old(runtime)@),
        ensures
            final(runtime).wf(),
            final(runtime)@ == old(runtime)@.release(self.context().identity()),
            calls@ == seq![NativeCall::Close { handle: self.native() }] + old(
                runtime,
            )@.release_calls(self.context().identity()),
    {
        let mut calls = Vec::new();
        calls.push(NativeCall::Close { handle: self.handle });
        let mut released = self.context.drop(runtime);
        calls.append(&mut released);
        calls
    }
}

/// The handle of a session that the native library has opened under the
/// identity `handle`. It takes over `context` as its owner of the context.
pub fn from_libusb(context: Context, handle: usize) -> (opened: DeviceHandle)
    ensures
        opened.context() == context,
        opened.native() == handle,
{
    DeviceHandle { context, handle }
}

} // verus!
