//! The exception bridge: the two failure channels of a method invocation,
//! merged into one finalized outcome that crosses back into the host
//! exactly once.
//!
//! A native method body ends in a `MethodOutcome`: a result value, a
//! structured native failure, or a host-side jump it captured through a
//! protected invocation. `finalize` resolves the outcome into a `Finalized`
//! resolution — return a value, raise a native failure under its exception
//! class, or re-trigger the captured jump verbatim — and `deliver` states
//! what the host observes for each resolution. Neither channel is ever
//! swallowed, re-wrapped, or allowed to cross the boundary in any other
//! form.

use vstd::prelude::*;

use crate::coercions::{encodes, native_ok_in, to_host};
use crate::errors::ExceptionInfo;
use crate::host::{HostException, RubyException, Vm};
use crate::values::{ClassHandle, HostValue, NativeValue};

verus! {

/// The tri-state failure summary of an invocation: no failure, a native
/// structured failure with a target class and message, or a host-side
/// non-local jump known only by its opaque token.
#[derive(Copy, Clone, Debug)]
pub enum ExceptionState {
    NoFailure,
    NativeFailure(ExceptionInfo),
    HostFailure(RubyException),
}

/// What a native method body hands back to the trampoline.
#[derive(Debug)]
pub enum MethodOutcome {
    /// The body completed with a native result value.
    Done(NativeValue),
    /// The body failed with a structured native error.
    Failed(ExceptionInfo),
    /// A callback into the host raised; the body propagates the captured
    /// jump.
    Jumped(RubyException),
}

/// The single finalized result of an invocation: exactly one of a
/// returned value, a raised native failure, or a re-triggered host jump.
#[derive(Copy, Clone, Debug)]
pub enum Finalized {
    Return(HostValue),
    Raise { class: ClassHandle, message: HostValue },
    Rejump(RubyException),
}

/// What the host observes once a finalized result is delivered.
#[derive(Copy, Clone, PartialEq, Eq, Structural, Debug)]
pub enum HostOutcome {
    /// The invocation returned this value.
    Value(HostValue),
    /// The invocation raised this exception.
    Exception(HostException),
}

/// The failure summary of a method outcome.
pub open spec fn state_of(o: MethodOutcome) -> ExceptionState {
    match o {
        MethodOutcome::Done(_) => ExceptionState::NoFailure,
        MethodOutcome::Failed(info) => ExceptionState::NativeFailure(info),
        MethodOutcome::Jumped(e) => ExceptionState::HostFailure(e),
    }
}

/// The finalized result is the one the failure summary calls for: a value
/// is returned only when no failure occurred, a native failure is raised
/// under exactly its class and message, and a host failure is re-triggered
/// under exactly its token.
pub open spec fn resolves(state: ExceptionState, f: Finalized) -> bool {
    match state {
        ExceptionState::NoFailure => f is Return,
        ExceptionState::NativeFailure(info) => f == (Finalized::Raise {
            class: info.exception.0,
            message: info.message,
        }),
        ExceptionState::HostFailure(e) => f == Finalized::Rejump(e),
    }
}

/// The outcome is consistent with the host state: the result holds only
/// live handles, a failure names a registered class and a live message,
/// and a jump token was really captured.
pub open spec fn outcome_ok(vm: Vm, o: MethodOutcome) -> bool {
    match o {
        MethodOutcome::Done(n) => native_ok_in(vm, n),
        MethodOutcome::Failed(info) => vm.valid_class(info.exception.0) && vm.valid_handle(
            info.message,
        ),
        MethodOutcome::Jumped(e) => vm.valid_jump(e),
    }
}

/// Resolves a method outcome into the single finalized result.
///
/// A completed body's result is encoded into the host and returned; a
/// structured native failure becomes a raise of exactly its class with
/// exactly its message value; a captured host jump becomes a re-trigger of
/// exactly that token — never re-wrapped, so the original exception's
/// identity survives. Failures never touch the host state here.
pub fn finalize(vm: &mut Vm, outcome: MethodOutcome) -> (f: Finalized)
    requires
        old(vm).wf(),
        outcome_ok(*old(vm), outcome),
    ensures
        final(vm).wf(),
        final(vm).extends(*old(vm)),
        resolves(state_of(outcome), f),
        match outcome {
            MethodOutcome::Done(n) => f matches Finalized::Return(v) && final(vm).valid_handle(
                v,
            ) && encodes(*final(vm), v, n),
            MethodOutcome::Failed(info) => *final(vm) == *old(vm) && f == (Finalized::Raise {
                class: info.exception.0,
                message: info.message,
            }),
            MethodOutcome::Jumped(e) => *final(vm) == *old(vm) && f == Finalized::Rejump(e),
        },
{
    match outcome {
        MethodOutcome::Done(n) => {
            let v = to_host(vm, &n);
            Finalized::Return(v)
        },
        MethodOutcome::Failed(info) => Finalized::Raise {
            class: info.exception.0,
            message: info.message,
        },
        MethodOutcome::Jumped(e) => Finalized::Rejump(e),
    }
}

/// The finalized result holds only things the host state knows.
pub open spec fn finalized_ok(vm: Vm, f: Finalized) -> bool {
    match f {
        Finalized::Return(v) => vm.valid_handle(v),
        Finalized::Raise { class, message } => vm.valid_class(class) && vm.valid_handle(
            message,
        ),
        Finalized::Rejump(e) => vm.valid_jump(e),
    }
}

/// What the host observes for a finalized result: the returned value, the raised
/// exception, or — for a re-triggered jump — exactly the exception that
/// was captured when the jump was intercepted, with its original class and
/// message value.
pub fn deliver(vm: &Vm, f: Finalized) -> (o: HostOutcome)
    requires
        vm.wf(),
        finalized_ok(*vm, f),
    ensures
        match f {
            Finalized::Return(v) => o == HostOutcome::Value(v),
            Finalized::Raise { class, message } => o == HostOutcome::Exception(
                HostException { class, message },
            ),
            Finalized::Rejump(e) => o == HostOutcome::Exception(vm.jump_target(e)),
        },
{
    match f {
        Finalized::Return(v) => HostOutcome::Value(v),
        Finalized::Raise { class, message } => HostOutcome::Exception(
            HostException { class, message },
        ),
        Finalized::Rejump(e) => HostOutcome::Exception(vm.jump_info(e)),
    }
}

/// A host-side jump captured during the body survives finalization and
/// delivery verbatim: if the exception `{class, message}` was captured as
/// the token `e`, then however the host state has evolved since, a body
/// that propagates `e` makes the invocation surface exactly that
/// exception — the same class and the same message value, with no native
/// re-wrapping in between.
pub proof fn lemma_host_failure_verbatim(
    capture_vm: Vm,
    end_vm: Vm,
    e: RubyException,
    class: ClassHandle,
    message: HostValue,
)
    requires
        capture_vm.valid_jump(e),
        capture_vm.jump_target(e) == (HostException { class, message }),
        capture_vm.evolves_to(end_vm),
    ensures
        end_vm.valid_jump(e),
        end_vm.jump_target(e) == (HostException { class, message }),
{
    crate::host::lemma_jump_preserved(capture_vm, end_vm, e);
}

} // verus!
