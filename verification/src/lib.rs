//! The ownership and logging core of a safe USB host access layer.
//!
//! The native USB library hands out raw resources with a strict teardown
//! order: a context has to outlive every device list, device and device
//! handle that derives from it, and each resource has to be released exactly
//! once. This crate keeps the books for that discipline and takes every
//! decision that it asks for. It does not touch the native library itself:
//!
//! - A caller performs a native call and hands its reply to the function here
//!   that reads it, as plain values: a status, a count, the identity of a
//!   native resource.
//! - Where an operation has to act on the native library, it returns the
//!   [`NativeCall`]s to perform, in order.
//!
//! A [`Context`] is one owner of a native context. Device lists, devices and
//! device handles each hold an owner of their own, and the native context is
//! released when its last owner is given up. The owners of all contexts are
//! counted in one [`Runtime`], which also holds the table of log callbacks
//! and serves as the trampoline that the native library calls for each log
//! line. A process keeps its runtime behind one lock and performs native
//! calls outside of it.
//!
//! The state of a runtime is a [`RuntimeState`]. The laws of shared
//! ownership and of log delivery are proved over it: a context stays alive
//! while it has an owner, its release is asked for exactly once, and a log
//! line reaches the callback of its own context, else the callback of the
//! whole process, else none.

pub mod context;
pub mod device;
pub mod device_handle;
pub mod device_list;
pub mod error;
pub mod fields;
pub mod log;
pub mod native;
pub mod runtime;

pub use context::{Context, DefaultContext};
pub use device::Device;
pub use device_handle::DeviceHandle;
pub use device_list::DeviceList;
pub use error::{Error, NativeCode};
pub use fields::Speed;
pub use log::{LogCallbackMap, LogCallbackMode, LogKey, LogLevel};
pub use native::NativeCall;
pub use runtime::{ContextState, OwnerStep, Runtime, RuntimeState};
