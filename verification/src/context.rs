//! Contexts: the owners of a native context, and the default context.

use vstd::prelude::*;
use crate::device_handle::DeviceHandle;
use crate::device_list::DeviceList;
use crate::error::{from_libusb, is_failure, native_code_of, Error, NativeCode};
use crate::log::{accepts_every_line, LogCallbackMode, LogLevel};
use crate::native::{NativeCall, DEFAULT_CONTEXT, NULL, OPTION_LOG_LEVEL};
use crate::runtime::{Runtime, RuntimeState};

verus! {

/// One owner of a native context.
///
/// A native context stays alive for as long as it has an owner. Every value
/// of this type is one owner: `clone` makes a further one, `drop` gives one
/// up, and the owner that is given up last has the native context released.
/// Device lists, devices and device handles each hold an owner of their
/// own, so a context outlives all that derives from it.
#[derive(Debug, PartialEq, Eq, Structural)]
pub struct Context {
    id: usize,
    raw: usize,
}

/// Whether the default context of the native library, which has no owners,
/// is initialised. A process keeps one value of this type.
#[derive(Debug)]
pub struct DefaultContext {
    initialized: bool,
}

impl View for DefaultContext {
    type V = bool;

    closed spec fn view(&self) -> bool {
        self.initialized
    }
}

impl DefaultContext {
    /// The default context before it is initialised.
    pub fn new() -> (default: Self)
        ensures
            !default@,
    {
        DefaultContext { initialized: false }
    }

    /// Whether the default context is initialised.
    pub fn is_initialized(&self) -> (initialized: bool)
        ensures
            initialized == self@,
    {
        self.initialized
    }
}

impl Context {
    /// The identity of the context in this crate.
    pub closed spec fn identity(&self) -> int {
        self.id as int
    }

    /// The identity of the context in the native library.
    pub closed spec fn native(&self) -> usize {
        self.raw
    }

    /// Whether this owner belongs to a live context of `state`.
    pub open spec fn live_in<F>(&self, state: RuntimeState<F>) -> bool {
        state.is_live(self.identity()) && state.raw(self.identity()) == self.native()
    }

    /// The identity of the context in this crate.
    pub fn id(&self) -> (id: usize)
        ensures
            id == self.identity(),
    {
        self.id
    }

    /// The identity of the context in the native library.
    pub fn as_raw(&self) -> (raw: usize)
        ensures
            raw == self.native(),
    {
        self.raw
    }

    /// Whether this owner belongs to a live context of `runtime`.
    pub fn is_live<F: Fn(LogLevel, String)>(&self, runtime: &Runtime<F>) -> (live: bool)
        ensures
            live == self.live_in(runtime@),
    {
        runtime.owners_of(self.id) > 0 && runtime.raw_of(self.id) == Some(self.raw)
    }

    /// Opens a new context from the reply of the native initialisation:
    /// its status and the identity of the context that it made.
    ///
    /// A failure status gives `InitError` and changes nothing. Any other
    /// status enters a new context with this one owner.
    pub fn new<F: Fn(LogLevel, String)>(runtime: &mut Runtime<F>, status: i32, raw: usize) -> (result:
        Result<Context, Error>)
        requires
            old(runtime).wf(),
        ensures
            final(runtime).wf(),
            is_failure(status as int) ==> result == Err::<Context, Error>(
                Error::InitError(native_code_of(status as int)),
            ) && final(runtime)@ == old(runtime)@,
            !is_failure(status as int) ==> result is Ok && final(runtime)@ == old(runtime)@.create(
                raw,
            ) && result->Ok_0.identity() == old(runtime)@.contexts.len() && result->Ok_0.native()
                == raw,
    {
        if status < 0 {
            return Err(Error::InitError(from_libusb(status)));
        }
        let id = runtime.create(raw);
        Ok(Context { id, raw })
    }

    /// A further owner of the same context.
    pub fn clone<F: Fn(LogLevel, String)>(&self, runtime: &mut Runtime<F>) -> (owner: Context)
        requires
            old(runtime).wf(),
            self.live_in(old(runtime)@),
            old(runtime)@.owners(self.identity()) < usize::MAX,
        ensures
            final(runtime).wf(),
            final(runtime)@ == old(runtime)@.acquire(self.identity()),
            owner == *self,
    {
        runtime.acquire(self.id);
        Context { id: self.id, raw: self.raw }
    }

    /// Gives up this owner, and returns the native calls that this asks for:
    /// with the last owner of a context its log callback is removed and the
    /// native context is to be released; before that nothing happens.
    pub fn drop<F: Fn(LogLevel, String)>(self, runtime: &mut Runtime<F>) -> (calls: Vec<NativeCall>)
        requires
            old(runtime).wf(),
            self.live_in(old(runtime)@),
        ensures
            final(runtime).wf(),
            final(runtime)@ == old(runtime)@.release(self.identity()),
            calls@ == old(runtime)@.release_calls(self.identity()),
    {
        runtime.release(self.id)
    }

    /// Registers `callback` for the log lines of this context or of the
    /// whole process, as `mode` says, in place of the callback registered
    /// there before. Returns the native call that installs the trampoline
    /// for this context and scope.
    pub fn set_log_callback<F: Fn(LogLevel, String)>(
        &mut self,
        runtime: &mut Runtime<F>,
        callback: F,
        mode: LogCallbackMode,
    ) -> (call: NativeCall)
        requires
            old(runtime).wf(),
            old(self).live_in(old(runtime)@),
            accepts_every_line(callback),
        ensures
            final(runtime).wf(),
            final(runtime)@ == old(runtime)@.register(mode.key_for(old(self).native()), callback),
            call == (NativeCall::SetLogCb { context: old(self).native(), mode: mode.code() as i32 }),
            *final(self) == *old(self),
    {
        runtime.register(mode.key(self.raw), callback);
        NativeCall::SetLogCb { context: self.raw, mode: mode.as_c_int() }
    }

    /// Whether the default context has to be initialised before use, and if
    /// so the native call that does it. The reply of that call goes to
    /// `init_default_context`.
    pub fn default_context_call(default: &DefaultContext) -> (call: Option<NativeCall>)
        ensures
            call == if default@ {
                None
            } else {
                Some(NativeCall::InitDefault)
            },
    {
        if default.is_initialized() {
            None
        } else {
            Some(NativeCall::InitDefault)
        }
    }

    /// Initialises the default context, once: takes the status with which
    /// the native initialisation replied where it was due.
    ///
    /// Where the default context is initialised already, nothing happens and
    /// the status is not looked at. Else a failure status gives `InitError`
    /// and leaves the default context uninitialised, and any other status
    /// marks it initialised.
    pub fn init_default_context(default: &mut DefaultContext, status: i32) -> (result: Result<
        (),
        Error,
    >)
        ensures
            old(default)@ ==> result == Ok::<(), Error>(()) && final(default)@,
            !old(default)@ && is_failure(status as int) ==> result == Err::<(), Error>(
                Error::InitError(native_code_of(status as int)),
            ) && !final(default)@,
            !old(default)@ && !is_failure(status as int) ==> result == Ok::<(), Error>(())
                && final(default)@,
    {
        if !default.initialized {
            if status < 0 {
                return Err(Error::InitError(from_libusb(status)));
            }
            default.initialized = true;
        }
        Ok(())
    }

    /// Releases the default context if it is initialised: returns the native
    /// call that does so and marks the default context uninitialised. Else
    /// nothing happens.
    pub fn release_default_context(default: &mut DefaultContext) -> (call: Option<NativeCall>)
        ensures
            !final(default)@,
            call == if old(default)@ {
                Some(NativeCall::Exit { context: DEFAULT_CONTEXT })
            } else {
                None
            },
    {
        if default.initialized {
            default.initialized = false;
            Some(NativeCall::Exit { context: DEFAULT_CONTEXT })
        } else {
            None
        }
    }

    /// The native call that sets the log level of this context.
    pub fn set_log_level(&mut self, level: LogLevel) -> (call: NativeCall)
        ensures
            call == (NativeCall::SetOption {
                context: old(self).native(),
                option: OPTION_LOG_LEVEL,
                value: level.code() as i32,
            }),
            *final(self) == *old(self),
    {
        NativeCall::SetOption {
            context: self.raw,
            option: OPTION_LOG_LEVEL,
            value: level.as_c_int(),
        }
    }

    /// The native call that sets the log level of the default context.
    pub fn set_default_context_log_level(level: LogLevel) -> (call: NativeCall)
        ensures
            call == (NativeCall::SetOption {
                context: DEFAULT_CONTEXT,
                option: OPTION_LOG_LEVEL,
                value: level.code() as i32,
            }),
    {
        NativeCall::SetOption {
            context: DEFAULT_CONTEXT,
            option: OPTION_LOG_LEVEL,
            value: level.as_c_int(),
        }
    }

    /// Reads the reply to the capability query `CAP_HAS_CAPABILITY`: whether
    /// the running native library can be asked for its capabilities.
    pub fn has_capability(&self, reply: i32) -> (supported: bool)
        ensures
            supported == (reply != 0),
    {
        reply != 0
    }

    /// Reads the reply to the capability query `CAP_HAS_HOTPLUG`: whether
    /// the running native library supports hotplug.
    pub fn has_hotplug(&self, reply: i32) -> (supported: bool)
        ensures
            supported == (reply != 0),
    {
        reply != 0
    }

    /// Reads the reply to the capability query `CAP_HAS_HID_ACCESS`: whether
    /// the running native library has HID access.
    pub fn has_hid_access(&self, reply: i32) -> (supported: bool)
        ensures
            supported == (reply != 0),
    {
        reply != 0
    }

    /// Reads the reply to the capability query
    /// `CAP_SUPPORTS_DETACH_KERNEL_DRIVER`: whether the running native
    /// library can detach the kernel driver.
    pub fn supports_detach_kernel_driver(&self, reply: i32) -> (supported: bool)
        ensures
            supported == (reply != 0),
    {
        reply != 0
    }

    /// Lists the attached devices from the reply of the native enumeration:
    /// its count, the identity of the native array and the devices in it.
    ///
    /// A negative count is a failure status: it gives `EnumerationError` and
    /// changes nothing. Any other count gives a list of that many devices,
    /// which holds a further owner of this context.
    pub fn devices<F: Fn(LogLevel, String)>(
        &self,
        runtime: &mut Runtime<F>,
        count: isize,
        list: usize,
        devices: Vec<usize>,
    ) -> (result: Result<DeviceList, Error>)
        requires
            old(runtime).wf(),
            self.live_in(old(runtime)@),
            old(runtime)@.owners(self.identity()) < usize::MAX,
            count >= 0 ==> devices@.len() == count,
        ensures
            final(runtime).wf(),
            is_failure(count as int) ==> result == Err::<DeviceList, Error>(
                Error::EnumerationError(native_code_of(count as int)),
            ) && final(runtime)@ == old(runtime)@,
            !is_failure(count as int) ==> result is Ok && result->Ok_0.context() == *self
                && result->Ok_0.native() == list && result->Ok_0.entries() == devices@
                && result->Ok_0.entries().len() == count && final(runtime)@ == old(
                runtime,
            )@.acquire(self.identity()),
    {
        if count < 0 {
            // A count below every status code has no kind of its own.
            let code = if count >= i32::MIN as isize {
                from_libusb(count as i32)
            } else {
                NativeCode::Other
            };
            return Err(Error::EnumerationError(code));
        }
        let owner = self.clone(runtime);
        Ok(crate::device_list::from_libusb(owner, list, devices))
    }

    /// Opens the first device with a given vendor and product from the
    /// reply of the native call: the identity of the session that it
    /// opened, or the null identity where it found no such device or failed.
    ///
    /// The null identity gives nothing and changes nothing; why the native
    /// call failed is not known. Any other identity gives a handle that
    /// holds a further owner of this context.
    pub fn open_device_with_vid_pid<F: Fn(LogLevel, String)>(
        &self,
        runtime: &mut Runtime<F>,
        handle: usize,
    ) -> (opened: Option<DeviceHandle>)
        requires
            old(runtime).wf(),
            self.live_in(old(runtime)@),
            old(runtime)@.owners(self.identity()) < usize::MAX,
        ensures
            final(runtime).wf(),
            handle == NULL ==> opened.is_none() && final(runtime)@ == old(runtime)@,
            handle != NULL ==> opened is Some && opened->Some_0.context() == *self
                && opened->Some_0.native() == handle && final(runtime)@ == old(runtime)@.acquire(
                self.identity(),
            ),
    {
        if handle == NULL {
            None
        } else {
            let owner = self.clone(runtime);
            Some(crate::device_handle::from_libusb(owner, handle))
        }
    }
}

} // verus!
