//! The vocabulary shared with the native USB library: its numeric codes and
//! the calls that this crate asks its caller to perform.

use vstd::prelude::*;

verus! {

/// The null identity, which names no resource of the native library.
pub const NULL: usize = 0;

/// The identity under which the native library knows its default context:
/// the null identity.
pub const DEFAULT_CONTEXT: usize = NULL;

/// The native option that selects the log verbosity of a context.
pub const OPTION_LOG_LEVEL: u32 = 0;

/// Log level: no messages.
pub const LOG_LEVEL_NONE: i32 = 0;

/// Log level: errors.
pub const LOG_LEVEL_ERROR: i32 = 1;

/// Log level: warnings and errors.
pub const LOG_LEVEL_WARNING: i32 = 2;

/// Log level: informational messages, warnings and errors.
pub const LOG_LEVEL_INFO: i32 = 3;

/// Log level: every message.
pub const LOG_LEVEL_DEBUG: i32 = 4;

/// Log callback scope: every message of the process.
pub const LOG_CB_GLOBAL: i32 = 1;

/// Log callback scope: the messages of one context.
pub const LOG_CB_CONTEXT: i32 = 2;

/// Capability query: whether capabilities can be queried at all.
pub const CAP_HAS_CAPABILITY: u32 = 0x0000;

/// Capability query: hotplug support.
pub const CAP_HAS_HOTPLUG: u32 = 0x0001;

/// Capability query: access to HID devices without a driver of the system.
pub const CAP_HAS_HID_ACCESS: u32 = 0x0100;

/// Capability query: detaching the kernel driver.
pub const CAP_SUPPORTS_DETACH_KERNEL_DRIVER: u32 = 0x0101;

/// Status: input or output failed.
pub const ERROR_IO: i32 = -1;

/// Status: a parameter was invalid.
pub const ERROR_INVALID_PARAM: i32 = -2;

/// Status: access was denied.
pub const ERROR_ACCESS: i32 = -3;

/// Status: the device is gone.
pub const ERROR_NO_DEVICE: i32 = -4;

/// Status: the entity was not found.
pub const ERROR_NOT_FOUND: i32 = -5;

/// Status: the resource is busy.
pub const ERROR_BUSY: i32 = -6;

/// Status: the operation timed out.
pub const ERROR_TIMEOUT: i32 = -7;

/// Status: a buffer overflowed.
pub const ERROR_OVERFLOW: i32 = -8;

/// Status: the pipe failed.
pub const ERROR_PIPE: i32 = -9;

/// Status: a system call was interrupted.
pub const ERROR_INTERRUPTED: i32 = -10;

/// Status: memory ran out.
pub const ERROR_NO_MEM: i32 = -11;

/// Status: the operation is not supported.
pub const ERROR_NOT_SUPPORTED: i32 = -12;

/// Status: any other failure.
pub const ERROR_OTHER: i32 = -99;

/// Speed: unknown.
pub const SPEED_UNKNOWN: i32 = 0;

/// Speed: low, 1.5 Mbit/s.
pub const SPEED_LOW: i32 = 1;

/// Speed: full, 12 Mbit/s.
pub const SPEED_FULL: i32 = 2;

/// Speed: high, 480 Mbit/s.
pub const SPEED_HIGH: i32 = 3;

/// Speed: super, 5 Gbit/s.
pub const SPEED_SUPER: i32 = 4;

/// Speed: super plus, 10 Gbit/s.
pub const SPEED_SUPER_PLUS: i32 = 5;

/// A call into the native library that the caller has to perform.
///
/// Raw identities are the native library's own names for its resources,
/// carried as plain integers.
#[derive(Debug, Clone, Copy, PartialEq, Eq, Structural)]
pub enum NativeCall {
    /// Initialise the default context.
    InitDefault,
    /// Release a context.
    Exit { context: usize },
    /// Set an integer option on a context.
    SetOption { context: usize, option: u32, value: i32 },
    /// Install the process-wide log trampoline for a context and scope.
    SetLogCb { context: usize, mode: i32 },
    /// Release the native array of an enumeration.
    FreeDeviceList { list: usize, unref_devices: bool },
    /// Take one reference unit on a device.
    RefDevice { device: usize },
    /// Give back one reference unit on a device.
    UnrefDevice { device: usize },
    /// Close an open device handle.
    Close { handle: usize },
}

} // verus!
