//! Log verbosity, callback scope and the callback registry.

use std::collections::HashMap;
use vstd::prelude::*;
use vstd::string::StringSliceAdditionalSpecFns;
use vstd::utf8::{decode_utf8, valid_utf8};
use crate::native::{
    LOG_CB_CONTEXT, LOG_CB_GLOBAL, LOG_LEVEL_DEBUG, LOG_LEVEL_ERROR, LOG_LEVEL_INFO,
    LOG_LEVEL_NONE, LOG_LEVEL_WARNING,
};

verus! {

/// Verbosity of the native library's log output.
#[derive(Debug, Clone, Copy, PartialEq, Eq, Structural)]
pub enum LogLevel {
    /// No messages are logged.
    Off,
    /// Error messages are logged.
    Error,
    /// Warning and error messages are logged.
    Warning,
    /// Informational, warning and error messages are logged.
    Info,
    /// All messages are logged.
    Debug,
}

impl LogLevel {
    /// The native code of this level.
    pub open spec fn code(self) -> int {
        match self {
            LogLevel::Off => LOG_LEVEL_NONE as int,
            LogLevel::Error => LOG_LEVEL_ERROR as int,
            LogLevel::Warning => LOG_LEVEL_WARNING as int,
            LogLevel::Info => LOG_LEVEL_INFO as int,
            LogLevel::Debug => LOG_LEVEL_DEBUG as int,
        }
    }

    /// The level that a native code stands for. Codes without a level of
    /// their own stand for `Off`.
    pub open spec fn of_code(code: int) -> LogLevel {
        if code == LOG_LEVEL_ERROR {
            LogLevel::Error
        } else if code == LOG_LEVEL_WARNING {
            LogLevel::Warning
        } else if code == LOG_LEVEL_INFO {
            LogLevel::Info
        } else if code == LOG_LEVEL_DEBUG {
            LogLevel::Debug
        } else {
            LogLevel::Off
        }
    }

    /// The native code of this level.
    pub fn as_c_int(&self) -> (code: i32)
        ensures
            code == self.code(),
    {
        match *self {
            LogLevel::Off => LOG_LEVEL_NONE,
            LogLevel::Error => LOG_LEVEL_ERROR,
            LogLevel::Warning => LOG_LEVEL_WARNING,
            LogLevel::Info => LOG_LEVEL_INFO,
            LogLevel::Debug => LOG_LEVEL_DEBUG,
        }
    }

    /// Decodes the severity that the native library attaches to a log line.
    pub fn from_c_int(raw: i32) -> (level: LogLevel)
        ensures
            level == LogLevel::of_code(raw as int),
    {
        if raw == LOG_LEVEL_ERROR {
            LogLevel::Error
        } else if raw == LOG_LEVEL_WARNING {
            LogLevel::Warning
        } else if raw == LOG_LEVEL_INFO {
            LogLevel::Info
        } else if raw == LOG_LEVEL_DEBUG {
            LogLevel::Debug
        } else {
            LogLevel::Off
        }
    }

    /// Decoding the code of a level gives that level back.
    pub proof fn lemma_code_round_trip(self)
        ensures
            LogLevel::of_code(self.code()) == self,
    {
    }
}

/// Which log lines a callback receives.
#[derive(Debug, Clone, Copy, PartialEq, Eq, Structural)]
pub enum LogCallbackMode {
    /// Every log line of the process, whichever context it stems from.
    Global,
    /// The log lines of one context.
    Context,
}

/// A key of the callback registry.
#[derive(Debug, Clone, Copy, PartialEq, Eq, Structural)]
pub enum LogKey {
    /// The process-wide entry.
    Global,
    /// The entry of the context with the given native identity.
    Context(usize),
}

impl LogCallbackMode {
    /// The native code of this scope.
    pub open spec fn code(self) -> int {
        match self {
            LogCallbackMode::Global => LOG_CB_GLOBAL as int,
            LogCallbackMode::Context => LOG_CB_CONTEXT as int,
        }
    }

    /// The registry key under which a callback of this scope is kept when a
    /// context with the given native identity registers it.
    pub open spec fn key_for(self, context: usize) -> LogKey {
        match self {
            LogCallbackMode::Global => LogKey::Global,
            LogCallbackMode::Context => LogKey::Context(context),
        }
    }

    /// The native code of this scope.
    pub fn as_c_int(&self) -> (code: i32)
        ensures
            code == self.code(),
    {
        match *self {
            LogCallbackMode::Global => LOG_CB_GLOBAL,
            LogCallbackMode::Context => LOG_CB_CONTEXT,
        }
    }

    /// The registry key under which a callback of this scope is kept when a
    /// context with the given native identity registers it.
    pub fn key(&self, context: usize) -> (key: LogKey)
        ensures
            key == self.key_for(context),
    {
        match *self {
            LogCallbackMode::Global => LogKey::Global,
            LogCallbackMode::Context => LogKey::Context(context),
        }
    }
}

/// The callback that receives a log line tagged with the native identity
/// `context`: the entry of exactly that context where there is one, else the
/// process-wide entry, else none.
pub open spec fn resolve<F>(callbacks: Map<LogKey, F>, context: usize) -> Option<F> {
    if callbacks.contains_key(LogKey::Context(context)) {
        Some(callbacks[LogKey::Context(context)])
    } else if callbacks.contains_key(LogKey::Global) {
        Some(callbacks[LogKey::Global])
    } else {
        None
    }
}

/// The text of a log line whose message buffer holds `bytes`: the decoded
/// characters where the bytes are UTF-8, else the empty text.
pub open spec fn log_text(bytes: Seq<u8>) -> Seq<char> {
    if valid_utf8(bytes) {
        decode_utf8(bytes)
    } else {
        Seq::empty()
    }
}

/// Whether a callback may be invoked on every log line.
pub open spec fn accepts_every_line<F: Fn(LogLevel, String)>(callback: F) -> bool {
    forall|level: LogLevel, text: String| call_requires(callback, (level, text))
}

/// Whether `callback` was invoked on the log line with native severity
/// `level` and message buffer `bytes`.
pub open spec fn invoked_on<F: Fn(LogLevel, String)>(callback: F, level: i32, bytes: Seq<u8>) -> bool {
    exists|text: String|
        text@ == log_text(bytes) && #[trigger] call_ensures(
            callback,
            (LogLevel::of_code(level as int), text),
            (),
        )
}

/// `core::str::from_utf8`: the bytes as a string slice where they are valid
/// UTF-8, in which case the slice holds exactly those bytes; nothing where
/// they are not.
#[verifier::external_body]
fn str_from_utf8(bytes: &[u8]) -> (text: Option<&str>)
    ensures
        text.is_some() == valid_utf8(bytes@),
        text matches Some(s) ==> s.spec_bytes() == bytes@,
{
    match std::str::from_utf8(bytes) {
        Ok(s) => Some(s),
        Err(_) => None,
    }
}

/// Decodes the message buffer of a log line. A buffer that is not UTF-8
/// gives the empty text.
pub fn log_message(bytes: &[u8]) -> (text: String)
    ensures
        text@ == log_text(bytes@),
{
    match str_from_utf8(bytes) {
        Some(s) => {
            proof {
                vstd::utf8::encode_utf8_decode_utf8(s@);
            }
            s.to_owned()
        },
        None => String::new(),
    }
}

/// The table of log callbacks: at most one for the whole process and at most
/// one for each context identity.
pub struct LogCallbackMap<F> {
    global: Option<F>,
    scoped: HashMap<usize, F>,
}

impl<F> View for LogCallbackMap<F> {
    type V = Map<LogKey, F>;

    closed spec fn view(&self) -> Map<LogKey, F> {
        Map::new(
            |key: LogKey|
                match key {
                    LogKey::Global => self.global.is_some(),
                    LogKey::Context(context) => self.scoped@.contains_key(context),
                },
            |key: LogKey|
                match key {
                    LogKey::Global => self.global.unwrap(),
                    LogKey::Context(context) => self.scoped@[context],
                },
        )
    }
}

impl<F: Fn(LogLevel, String)> LogCallbackMap<F> {
    /// Every registered callback may be invoked on every log line.
    pub open spec fn wf(&self) -> bool {
        forall|key: LogKey| #[trigger] self@.contains_key(key) ==> accepts_every_line(self@[key])
    }

    /// An empty table.
    pub fn new() -> (table: Self)
        ensures
            table@ == Map::<LogKey, F>::empty(),
            table.wf(),
    {
        let table = LogCallbackMap { global: None, scoped: HashMap::new() };
        assert(table@ =~= Map::<LogKey, F>::empty());
        table
    }

    /// Registers `callback` under `key`, in place of the callback that was
    /// registered there before, if any.
    pub fn insert(&mut self, key: LogKey, callback: F)
        requires
            old(self).wf(),
            accepts_every_line(callback),
        ensures
            final(self)@ == old(self)@.insert(key, callback),
            final(self).wf(),
    {
        match key {
            LogKey::Global => {
                self.global = Some(callback);
            },
            LogKey::Context(context) => {
                self.scoped.insert(context, callback);
            },
        }
    }

    /// Removes the callback registered under `key`, if any.
    pub fn remove(&mut self, key: LogKey)
        requires
            old(self).wf(),
        ensures
            final(self)@ == old(self)@.remove(key),
            final(self).wf(),
    {
        match key {
            LogKey::Global => {
                self.global = None;
            },
            LogKey::Context(context) => {
                self.scoped.remove(&context);
            },
        }
    }

    /// The callback registered under `key`.
    pub fn get(&self, key: LogKey) -> (found: Option<&F>)
        ensures
            found.is_some() == self@.contains_key(key),
            found matches Some(callback) ==> *callback == self@[key],
    {
        match key {
            LogKey::Global => self.global.as_ref(),
            LogKey::Context(context) => self.scoped.get(&context),
        }
    }

    /// The callback that receives a log line tagged with the native identity
    /// `context`.
    pub fn resolve(&self, context: usize) -> (found: Option<&F>)
        ensures
            found.is_some() == resolve(self@, context).is_some(),
            found matches Some(callback) ==> Some(*callback) == resolve(self@, context),
    {
        match self.get(LogKey::Context(context)) {
            Some(callback) => Some(callback),
            None => self.get(LogKey::Global),
        }
    }

    /// Delivers one log line of the native library: looks up the callback
    /// for the line's context, decodes the message and invokes the callback
    /// on it. Says whether a callback was invoked.
    pub fn dispatch(&self, context: usize, level: i32, text: &[u8]) -> (delivered: bool)
        requires
            self.wf(),
        ensures
            delivered == resolve(self@, context).is_some(),
            delivered ==> invoked_on(resolve(self@, context).unwrap(), level, text@),
    {
        match self.resolve(context) {
            Some(callback) => {
                let message = log_message(text);
                callback(LogLevel::from_c_int(level), message);
                true
            },
            None => false,
        }
    }
}

/// A callback of context scope receives the log lines of its context.
pub proof fn lemma_context_callback_receives_own_lines<F>(
    callbacks: Map<LogKey, F>,
    context: usize,
    callback: F,
)
    ensures
        resolve(callbacks.insert(LogKey::Context(context), callback), context) == Some(callback),
{
}

/// A callback of context scope changes nothing for the log lines of any
/// other context, nor for those of no context: they go where they went
/// before it was registered.
pub proof fn lemma_context_callback_misses_other_lines<F>(
    callbacks: Map<LogKey, F>,
    context: usize,
    callback: F,
    other: usize,
)
    requires
        other != context,
    ensures
        resolve(callbacks.insert(LogKey::Context(context), callback), other) == resolve(
            callbacks,
            other,
        ),
{
}

/// A callback for the whole process receives the log lines of every context
/// that has no callback of its own.
pub proof fn lemma_global_callback_receives_lines<F>(
    callbacks: Map<LogKey, F>,
    callback: F,
    context: usize,
)
    requires
        !callbacks.contains_key(LogKey::Context(context)),
    ensures
        resolve(callbacks.insert(LogKey::Global, callback), context) == Some(callback),
{
}

/// The newest callback wins: registering a callback where another one was
/// registered leaves the table as if only the newer had ever been
/// registered, so the older is never invoked again.
pub proof fn lemma_newest_callback_wins<F>(
    callbacks: Map<LogKey, F>,
    key: LogKey,
    older: F,
    newer: F,
)
    ensures
        callbacks.insert(key, older).insert(key, newer) == callbacks.insert(key, newer),
{
}

} // verus!
