//! Native-side structured failures and their translation into host
//! exceptions.
//!
//! `Error` pairs a target exception class with a message; `ExceptionInfo`
//! is its fully host-resident form, ready to raise. `PanicPayload` is what
//! the boundary guard extracted from an abnormal native termination; its
//! classification into an exception is verified here, while catching the
//! unwind itself necessarily happens outside the verified core.

use vstd::prelude::*;

use crate::Class;
use crate::host::{RubyException, Vm, runtime_error_class, type_error_class};
use crate::values::{ClassHandle, HostObject, HostValue};

verus! {

/// A native structured failure: a target host exception class and a
/// message, which is either static native text or a host value.
#[derive(Copy, Clone, Debug)]
pub struct Error {
    pub class: Class,
    pub message: ErrorMessage,
}

/// The message of an `Error`.
#[derive(Copy, Clone, Debug)]
pub enum ErrorMessage {
    /// Static native text, encoded into the host only when the error is
    /// raised.
    Static(&'static str),
    /// A value already owned by the host.
    Dynamic(HostValue),
}

/// What the boundary guard found inside an abnormal native termination.
/// The guard itself runs outside the verified core — it needs the
/// unwinding runtime — and hands the classified payload in as a value.
#[derive(Debug)]
pub enum PanicPayload {
    /// The termination carried a host exception the native code meant to
    /// raise.
    Raised(ExceptionInfo),
    /// The termination carried a structured native error.
    Structured(Error),
    /// The termination carried an owned message string.
    Text(String),
    /// The termination carried a static message string.
    Literal(&'static str),
    /// The termination carried nothing this bridge understands.
    Opaque,
}

impl Error {
    /// An error of the host's runtime-error class with a static message.
    pub fn with_c_string(message: &'static str) -> (e: Error)
        ensures
            e.class.0 == runtime_error_class(),
            e.message == ErrorMessage::Static(message),
    {
        Error {
            class: Class(ClassHandle { raw: 1 }),
            message: ErrorMessage::Static(message),
        }
    }

    /// An error of the host's runtime-error class whose message is a host
    /// value.
    pub fn with_value(message: HostValue) -> (e: Error)
        ensures
            e.class.0 == runtime_error_class(),
            e.message == ErrorMessage::Dynamic(message),
    {
        Error {
            class: Class(ClassHandle { raw: 1 }),
            message: ErrorMessage::Dynamic(message),
        }
    }

    /// Classifies the payload of an abnormal native termination into an
    /// error: a structured error passes through, message text becomes a
    /// runtime error carrying it, and anything else becomes a generic
    /// "unknown native failure".
    pub fn from_any(vm: &mut Vm, payload: PanicPayload) -> (e: Error)
        requires
            old(vm).wf(),
        ensures
            final(vm).wf(),
            final(vm).extends(*old(vm)),
            match payload {
                PanicPayload::Structured(err) => *final(vm) == *old(vm) && e == err,
                PanicPayload::Raised(info) => *final(vm) == *old(vm) && e
                    == (Error {
                    class: info.exception,
                    message: ErrorMessage::Dynamic(info.message),
                }),
                PanicPayload::Text(s) => e.class.0 == runtime_error_class() && dynamic_text(
                    *final(vm),
                    e.message,
                    s@,
                ),
                PanicPayload::Literal(s) => e.class.0 == runtime_error_class() && dynamic_text(
                    *final(vm),
                    e.message,
                    s@,
                ),
                PanicPayload::Opaque => e.class.0 == runtime_error_class() && dynamic_text(
                    *final(vm),
                    e.message,
                    "unknown native failure"@,
                ),
            },
    {
        match payload {
            PanicPayload::Structured(err) => err,
            PanicPayload::Raised(info) => Error {
                class: info.exception,
                message: ErrorMessage::Dynamic(info.message),
            },
            PanicPayload::Text(s) => {
                let v = vm.from_string(s);
                Error::with_value(v)
            },
            PanicPayload::Literal(s) => {
                let v = vm.from_text(s);
                Error::with_value(v)
            },
            PanicPayload::Opaque => {
                let v = vm.from_text("unknown native failure");
                Error::with_value(v)
            },
        }
    }

    /// The same error aimed at a different exception class.
    pub fn with_class(self, class: Class) -> (e: Error)
        ensures
            e.class == class,
            e.message == self.message,
    {
        Error { class, message: self.message }
    }

    /// Raises the error: encodes a static message into the host if needed,
    /// then captures the exception as a host-side jump and returns its
    /// token.
    pub fn raise(self, vm: &mut Vm) -> (e: RubyException)
        requires
            old(vm).wf(),
            old(vm).jumps.len() < isize::MAX as usize,
            old(vm).valid_class(self.class.0),
            self.message matches ErrorMessage::Dynamic(v) ==> old(vm).valid_handle(v),
        ensures
            final(vm).wf(),
            final(vm).extends(*old(vm)),
            final(vm).valid_jump(e),
            !(e.0 == 0),
            ({
                let target = final(vm).jump_target(e);
                &&& target.class == self.class.0
                &&& match self.message {
                    ErrorMessage::Static(s) => final(vm).obj_of(target.message)
                        matches HostObject::Str(u) && u@ == s@,
                    ErrorMessage::Dynamic(v) => target.message == v,
                }
            }),
    {
        match self.message {
            ErrorMessage::Static(s) => {
                let v = vm.from_text(s);
                vm.raise(self.class.0, v)
            },
            ErrorMessage::Dynamic(v) => vm.raise(self.class.0, v),
        }
    }

    /// The message as native text: the static text itself, or the host
    /// string's content, or nothing when the message is a host value that
    /// is not a string.
    pub fn text(&self, vm: &Vm) -> (r: Option<String>)
        requires
            vm.wf(),
            self.message matches ErrorMessage::Dynamic(v) ==> vm.valid_handle(v),
        ensures
            match self.message {
                ErrorMessage::Static(s) => r matches Some(u) && u@ == s@,
                ErrorMessage::Dynamic(v) => match r {
                    Some(u) => vm.obj_of(v) matches HostObject::Str(w) && u@ == w@,
                    None => !(vm.obj_of(v) is Str),
                },
            },
    {
        match self.message {
            ErrorMessage::Static(s) => Some(s.to_owned()),
            ErrorMessage::Dynamic(v) => {
                match &vm.heap[v.raw] {
                    HostObject::Str(_) => Some(vm.read_text(v)),
                    _ => None,
                }
            },
        }
    }
}

/// The message is a host string with exactly this text.
pub open spec fn dynamic_text(vm: Vm, m: ErrorMessage, text: Seq<char>) -> bool {
    m matches ErrorMessage::Dynamic(v) && vm.valid_handle(v) && (vm.obj_of(v)
        matches HostObject::Str(s) && s@ == text)
}

/// Conversion of native failure carriers into an `Error`.
pub trait ToError: Sized {
    /// The exception class the resulting error aims at.
    spec fn error_class(self) -> ClassHandle;

    /// The message text the resulting error carries, when this carrier
    /// determines it.
    spec fn error_text(self) -> Option<Seq<char>>;

    /// Converts into an error, encoding message text into the host where
    /// needed.
    fn to_error(self, vm: &mut Vm) -> (e: Error)
        requires
            old(vm).wf(),
        ensures
            final(vm).wf(),
            final(vm).extends(*old(vm)),
            e.class.0 == self.error_class(),
            self.error_text() matches Some(txt) ==> dynamic_text(*final(vm), e.message, txt),
    ;
}

impl ToError for Error {
    open spec fn error_class(self) -> ClassHandle {
        self.class.0
    }

    open spec fn error_text(self) -> Option<Seq<char>> {
        None
    }

    fn to_error(self, vm: &mut Vm) -> (e: Error) {
        self
    }
}

impl ToError for &'static str {
    open spec fn error_class(self) -> ClassHandle {
        runtime_error_class()
    }

    open spec fn error_text(self) -> Option<Seq<char>> {
        Some(self@)
    }

    fn to_error(self, vm: &mut Vm) -> (e: Error) {
        let v = vm.from_text(self);
        Error::with_value(v)
    }
}

impl ToError for String {
    open spec fn error_class(self) -> ClassHandle {
        runtime_error_class()
    }

    open spec fn error_text(self) -> Option<Seq<char>> {
        Some(self@)
    }

    fn to_error(self, vm: &mut Vm) -> (e: Error) {
        let v = vm.from_string(self);
        Error::with_value(v)
    }
}

/// A native failure in fully host-resident form: the exception class to
/// raise and the message value to raise it with.
#[derive(Copy, Clone, PartialEq, Eq, Structural, Debug)]
pub struct ExceptionInfo {
    pub exception: Class,
    pub message: HostValue,
}

impl ExceptionInfo {
    /// A runtime-error exception carrying the given message.
    pub fn with_message(vm: &mut Vm, text: &str) -> (e: ExceptionInfo)
        requires
            old(vm).wf(),
        ensures
            final(vm).wf(),
            final(vm).extends(*old(vm)),
            e.exception.0 == runtime_error_class(),
            final(vm).valid_handle(e.message),
            final(vm).obj_of(e.message) matches HostObject::Str(s) && s@ == text@,
    {
        let v = vm.from_text(text);
        ExceptionInfo { exception: Class(ClassHandle { raw: 1 }), message: v }
    }

    /// A type-error exception carrying the given message: the class under
    /// which every argument-coercion failure reaches the host.
    pub fn type_error(vm: &mut Vm, text: &str) -> (e: ExceptionInfo)
        requires
            old(vm).wf(),
        ensures
            final(vm).wf(),
            final(vm).extends(*old(vm)),
            e.exception.0 == type_error_class(),
            final(vm).valid_handle(e.message),
            final(vm).obj_of(e.message) matches HostObject::Str(s) && s@ == text@,
    {
        let v = vm.from_text(text);
        ExceptionInfo { exception: Class(ClassHandle { raw: 2 }), message: v }
    }

    /// Classifies the payload of an abnormal native termination: an
    /// exception the native code meant to raise passes through verbatim,
    /// message text becomes a runtime error carrying it, and anything else
    /// becomes the generic "unknown native failure" diagnosis.
    pub fn from_any(vm: &mut Vm, payload: PanicPayload) -> (e: ExceptionInfo)
        requires
            old(vm).wf(),
            payload matches PanicPayload::Raised(info) ==> old(vm).valid_handle(info.message),
        ensures
            final(vm).wf(),
            final(vm).extends(*old(vm)),
            final(vm).valid_handle(e.message),
            match payload {
                PanicPayload::Raised(info) => *final(vm) == *old(vm) && e == info,
                PanicPayload::Text(s) => e.exception.0 == runtime_error_class() && (final(vm).obj_of(e.message) matches HostObject::Str(u) && u@ == s@),
                PanicPayload::Literal(s) => e.exception.0 == runtime_error_class() && (final(vm).obj_of(e.message) matches HostObject::Str(u) && u@ == s@),
                _ => e.exception.0 == runtime_error_class() && (final(vm).obj_of(e.message)
                    matches HostObject::Str(u) && u@ == "unknown native failure"@),
            },
    {
        match payload {
            PanicPayload::Raised(info) => info,
            PanicPayload::Text(s) => {
                let v = vm.from_string(s);
                ExceptionInfo { exception: Class(ClassHandle { raw: 1 }), message: v }
            },
            PanicPayload::Literal(s) => ExceptionInfo::with_message(vm, s),
            _ => ExceptionInfo::with_message(vm, "unknown native failure"),
        }
    }

    /// The message value.
    pub fn message(&self) -> (r: HostValue)
        ensures
            r == self.message,
    {
        self.message
    }

    /// Raises the exception: captures it as a host-side jump and returns
    /// its token.
    pub fn raise(&self, vm: &mut Vm) -> (e: RubyException)
        requires
            old(vm).wf(),
            old(vm).jumps.len() < isize::MAX as usize,
            old(vm).valid_class(self.exception.0),
            old(vm).valid_handle(self.message),
        ensures
            final(vm).wf(),
            final(vm).extends(*old(vm)),
            final(vm).valid_jump(e),
            !(e.0 == 0),
            final(vm).jump_target(e) == (crate::host::HostException {
                class: self.exception.0,
                message: self.message,
            }),
    {
        vm.raise(self.exception.0, self.message)
    }
}

} // verus!
