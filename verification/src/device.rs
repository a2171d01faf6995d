//! Devices: references to one device of the native library.

use vstd::prelude::*;
use crate::context::Context;
use crate::device_handle::DeviceHandle;
use crate::error::{is_failure, native_code_of, Error, NativeCode};
use crate::fields::{speed_from_libusb, speed_of, Speed};
use crate::log::LogLevel;
use crate::native::NativeCall;
use crate::runtime::Runtime;

verus! {

/// A reference to a USB device. It holds one reference unit on the native
/// device and an owner of the context that the device stems from.
#[derive(Debug)]
pub struct Device {
    context: Context,
    device: usize,
}

/// The error of a failed native call that reads a configuration: `NotFound`
/// where the native library reports that, else the native failure.
pub open spec fn config_error(status: int) -> Error {
    if native_code_of(status) == NativeCode::NotFound {
        Error::NotFound
    } else {
        Error::NativeError(native_code_of(status))
    }
}

/// The error of a failed native call that opens a device: `AccessError`
/// where the native library denies access, else the native failure.
pub open spec fn open_error(status: int) -> Error {
    if native_code_of(status) == NativeCode::Access {
        Error::AccessError
    } else {
        Error::NativeError(native_code_of(status))
    }
}

fn config_result<D>(status: i32, descriptor: D) -> (result: Result<D, Error>)
    ensures
        result == if is_failure(status as int) {
            Err::<D, Error>(config_error(status as int))
        } else {
            Ok::<D, Error>(descriptor)
        },
{
    if status < 0 {
        match crate::error::from_libusb(status) {
            NativeCode::NotFound => Err(Error::NotFound),
            code => Err(Error::NativeError(code)),
        }
    } else {
        Ok(descriptor)
    }
}

impl Device {
    /// The owner of the context that this device holds.
    pub closed spec fn context(&self) -> Context {
        self.context
    }

    /// The identity of the device in the native library.
    pub closed spec fn native(&self) -> usize {
        self.device
    }

    /// The identity of the device in the native library.
    pub fn as_raw(&self) -> (raw: usize)
        ensures
            raw == self.native(),
    {
        self.device
    }

    /// The owner of the context that this device holds.
    pub fn context_ref(&self) -> (context: &Context)
        ensures
            *context == self.context(),
    {
        &self.context
    }

    /// Reads the device descriptor from the reply of the native call: its
    /// status and the record that it filled in. A failure status gives
    /// `DescriptorReadError`.
    pub fn device_descriptor<D>(&self, status: i32, descriptor: D) -> (result: Result<D, Error>)
        ensures
            result == if is_failure(status as int) {
                Err::<D, Error>(Error::DescriptorReadError(native_code_of(status as int)))
            } else {
                Ok::<D, Error>(descriptor)
            },
    {
        if status < 0 {
            Err(Error::DescriptorReadError(crate::error::from_libusb(status)))
        } else {
            Ok(descriptor)
        }
    }

    /// Reads the configuration descriptor of one index from the reply of the
    /// native call: its status and the descriptor that it handed out. A
    /// failure status gives `NotFound` where the index names no
    /// configuration, else `NativeError`.
    pub fn config_descriptor<D>(&self, status: i32, descriptor: D) -> (result: Result<D, Error>)
        ensures
            result == if is_failure(status as int) {
                Err::<D, Error>(config_error(status as int))
            } else {
                Ok::<D, Error>(descriptor)
            },
    {
        config_result(status, descriptor)
    }

    /// Reads the descriptor of the active configuration from the reply of
    /// the native call: its status and the descriptor that it handed out. A
    /// failure status gives `NotFound` where the device is not configured,
    /// else `NativeError`.
    pub fn active_config_descriptor<D>(&self, status: i32, descriptor: D) -> (result: Result<
        D,
        Error,
    >)
        ensures
            result == if is_failure(status as int) {
                Err::<D, Error>(config_error(status as int))
            } else {
                Ok::<D, Error>(descriptor)
            },
    {
        config_result(status, descriptor)
    }

    /// The connection speed that the native speed code of this device
    /// stands for.
    pub fn speed(&self, code: i32) -> (speed: Speed)
        ensures
            speed == speed_of(code as int),
    {
        speed_from_libusb(code)
    }

    /// Opens the device from the reply of the native call: its status and
    /// the identity of the session that it opened.
    ///
    /// A failure status gives `AccessError` where access is denied, else
    /// `NativeError`, and changes nothing. Any other status gives a handle
    /// that holds a further owner of this device's context.
    pub fn open<F: Fn(LogLevel, String)>(&self, runtime: &mut Runtime<F>, status: i32, handle: usize) -> (result:
        Result<DeviceHandle, Error>)
        requires
            old(runtime).wf(),
            self.context().live_in(old(runtime)@),
            old(runtime)@.owners(self.context().identity()) < usize::MAX,
        ensures
            final(runtime).wf(),
            is_failure(status as int) ==> result == Err::<DeviceHandle, Error>(
                open_error(status as int),
            ) && final(runtime)@ == old(runtime)@,
            !is_failure(status as int) ==> result is Ok && result->Ok_0.context()
                == self.context() && result->Ok_0.native() == handle && final(runtime)@ == old(
                runtime,
            )@.acquire(self.context().identity()),
    {
        if status < 0 {
            return match crate::error::from_libusb(status) {
                NativeCode::Access => Err(Error::AccessError),
                code => Err(Error::NativeError(code)),
            };
        }
        let owner = self.context.clone(runtime);
        Ok(crate::device_handle::from_libusb(owner, handle))
    }

    /// Gives up the device, and returns the native calls that this asks for,
    /// in order: the reference unit on the native device is given back, and
    /// then the owner of the context is given up.
    pub fn drop<F: Fn(LogLevel, String)>(self, runtime: &mut Runtime<F>) -> (calls: Vec<NativeCall>)
        requires
            old(runtime).wf(),
            self.context().live_in(old(runtime)@),
        ensures
            final(runtime).wf(),
            final(runtime)@ == old(runtime)@.release(self.context().identity()),
            calls@ == seq![NativeCall::UnrefDevice { device: self.native() }] + old(
                runtime,
            )@.release_calls(self.context().identity()),
    {
        let mut calls = Vec::new();
        calls.push(NativeCall::UnrefDevice { device: self.device });
        let mut released = self.context.drop(runtime);
        calls.append(&mut released);
        calls
    }
}

/// The device that the native library knows under the identity `device`. It
/// takes over `context` as its owner of the context, and one reference unit
/// on the native device that the caller has taken for it.
pub fn from_libusb(context: Context, device: usize) -> (made: Device)
    ensures
        made.context() == context,
        made.native() == device,
{
    Device { context, device }
}

} // verus!
