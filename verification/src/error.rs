//! Errors, and the classification of native status codes.

use vstd::prelude::*;
use crate::native::{
    ERROR_ACCESS, ERROR_BUSY, ERROR_INTERRUPTED, ERROR_INVALID_PARAM, ERROR_IO, ERROR_NOT_FOUND,
    ERROR_NOT_SUPPORTED, ERROR_NO_DEVICE, ERROR_NO_MEM, ERROR_OTHER, ERROR_OVERFLOW, ERROR_PIPE,
    ERROR_TIMEOUT,
};

verus! {

/// The failure kinds that the native library reports.
#[derive(Debug, Clone, Copy, PartialEq, Eq, Structural)]
pub enum NativeCode {
    Io,
    InvalidParam,
    Access,
    NoDevice,
    NotFound,
    Busy,
    Timeout,
    Overflow,
    Pipe,
    Interrupted,
    NoMem,
    NotSupported,
    Other,
}

/// Why an operation of this crate failed.
#[derive(Debug, Clone, Copy, PartialEq, Eq, Structural)]
pub enum Error {
    /// A context could not be constructed.
    InitError(NativeCode),
    /// The attached devices could not be listed.
    EnumerationError(NativeCode),
    /// A device descriptor could not be read.
    DescriptorReadError(NativeCode),
    /// The requested entity does not exist.
    NotFound,
    /// The caller lacks the permission to open the device.
    AccessError,
    /// Any other failure of a native call.
    NativeError(NativeCode),
}

/// The failure kind that a native status code stands for. Every code without
/// a kind of its own counts as `Other`.
pub open spec fn native_code_of(code: int) -> NativeCode {
    if code == ERROR_IO {
        NativeCode::Io
    } else if code == ERROR_INVALID_PARAM {
        NativeCode::InvalidParam
    } else if code == ERROR_ACCESS {
        NativeCode::Access
    } else if code == ERROR_NO_DEVICE {
        NativeCode::NoDevice
    } else if code == ERROR_NOT_FOUND {
        NativeCode::NotFound
    } else if code == ERROR_BUSY {
        NativeCode::Busy
    } else if code == ERROR_TIMEOUT {
        NativeCode::Timeout
    } else if code == ERROR_OVERFLOW {
        NativeCode::Overflow
    } else if code == ERROR_PIPE {
        NativeCode::Pipe
    } else if code == ERROR_INTERRUPTED {
        NativeCode::Interrupted
    } else if code == ERROR_NO_MEM {
        NativeCode::NoMem
    } else if code == ERROR_NOT_SUPPORTED {
        NativeCode::NotSupported
    } else {
        NativeCode::Other
    }
}

/// Whether a native status reports a failure: negative statuses do, zero and
/// positive ones report success.
pub open spec fn is_failure(status: int) -> bool {
    status < 0
}

impl NativeCode {
    /// The native status code of this failure kind.
    pub open spec fn code(self) -> int {
        match self {
            NativeCode::Io => ERROR_IO as int,
            NativeCode::InvalidParam => ERROR_INVALID_PARAM as int,
            NativeCode::Access => ERROR_ACCESS as int,
            NativeCode::NoDevice => ERROR_NO_DEVICE as int,
            NativeCode::NotFound => ERROR_NOT_FOUND as int,
            NativeCode::Busy => ERROR_BUSY as int,
            NativeCode::Timeout => ERROR_TIMEOUT as int,
            NativeCode::Overflow => ERROR_OVERFLOW as int,
            NativeCode::Pipe => ERROR_PIPE as int,
            NativeCode::Interrupted => ERROR_INTERRUPTED as int,
            NativeCode::NoMem => ERROR_NO_MEM as int,
            NativeCode::NotSupported => ERROR_NOT_SUPPORTED as int,
            NativeCode::Other => ERROR_OTHER as int,
        }
    }

    /// The native status code of this failure kind.
    pub fn as_c_int(&self) -> (code: i32)
        ensures
            code == self.code(),
    {
        match *self {
            NativeCode::Io => ERROR_IO,
            NativeCode::InvalidParam => ERROR_INVALID_PARAM,
            NativeCode::Access => ERROR_ACCESS,
            NativeCode::NoDevice => ERROR_NO_DEVICE,
            NativeCode::NotFound => ERROR_NOT_FOUND,
            NativeCode::Busy => ERROR_BUSY,
            NativeCode::Timeout => ERROR_TIMEOUT,
            NativeCode::Overflow => ERROR_OVERFLOW,
            NativeCode::Pipe => ERROR_PIPE,
            NativeCode::Interrupted => ERROR_INTERRUPTED,
            NativeCode::NoMem => ERROR_NO_MEM,
            NativeCode::NotSupported => ERROR_NOT_SUPPORTED,
            NativeCode::Other => ERROR_OTHER,
        }
    }
}

/// Classifies a native status code.
pub fn from_libusb(code: i32) -> (kind: NativeCode)
    ensures
        kind == native_code_of(code as int),
{
    if code == ERROR_IO {
        NativeCode::Io
    } else if code == ERROR_INVALID_PARAM {
        NativeCode::InvalidParam
    } else if code == ERROR_ACCESS {
        NativeCode::Access
    } else if code == ERROR_NO_DEVICE {
        NativeCode::NoDevice
    } else if code == ERROR_NOT_FOUND {
        NativeCode::NotFound
    } else if code == ERROR_BUSY {
        NativeCode::Busy
    } else if code == ERROR_TIMEOUT {
        NativeCode::Timeout
    } else if code == ERROR_OVERFLOW {
        NativeCode::Overflow
    } else if code == ERROR_PIPE {
        NativeCode::Pipe
    } else if code == ERROR_INTERRUPTED {
        NativeCode::Interrupted
    } else if code == ERROR_NO_MEM {
        NativeCode::NoMem
    } else if code == ERROR_NOT_SUPPORTED {
        NativeCode::NotSupported
    } else {
        NativeCode::Other
    }
}

/// Classifying the code of a failure kind gives that kind back.
pub proof fn lemma_code_round_trip(kind: NativeCode)
    ensures
        native_code_of(kind.code()) == kind,
        is_failure(kind.code()),
{
}

} // verus!
