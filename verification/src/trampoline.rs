//! The call trampoline: the boundary entry point the host calls for a
//! registered native method.
//!
//! `invoke` decodes the receiver (for an instance method) and then each
//! argument in declaration order through the coercion engine,
//! short-circuiting on the first failure; runs the native body; and
//! resolves everything through the exception bridge into one finalized
//! resolution. A coercion failure surfaces as a raise of the host's
//! type-error class carrying the rendered diagnostic, distinct by class
//! from any failure raised inside the method body.

use vstd::prelude::*;

use crate::bridge::{Finalized, MethodOutcome, finalize, finalized_ok, outcome_ok};
use crate::coercions::{CoercionFailure, check_failure, checks, to_checked, to_native};
use crate::host::{Vm, type_error_class};
use crate::text::{failure_text, render_failure};
use crate::values::{ClassHandle, HostObject, HostValue, NativeType, NativeValue};

verus! {

broadcast use vstd::std_specs::vec::group_vec_axioms;

/// The fixed shape of a registered method: the wrapped class its receiver
/// must be an initialized instance of (for an instance method on a
/// wrapped type), and the declared native type of each argument. The
/// argument count is fixed here, at registration time; the host passes
/// exactly this many values per call.
pub struct MethodSig {
    pub receiver: Option<ClassHandle>,
    pub args: Vec<NativeType>,
}

impl MethodSig {
    /// The fixed argument count.
    pub fn arity(&self) -> (n: usize)
        ensures
            n == self.args.len(),
    {
        self.args.len()
    }
}

/// Which argument failed to decode, and why.
pub struct ArgFailure {
    pub index: usize,
    pub cause: CoercionFailure,
}

/// Every argument passes the check for its declared type.
pub open spec fn args_check_ok(vm: Vm, types: Seq<NativeType>, args: Seq<HostValue>) -> bool {
    forall|i: int| 0 <= i < types.len() ==> checks(vm, args[i], #[trigger] types[i])
}

/// The position of the first argument that fails the check for its
/// declared type (meaningful only when one exists).
pub open spec fn first_bad_arg(vm: Vm, types: Seq<NativeType>, args: Seq<HostValue>) -> int
    decreases types.len(),
{
    if types.len() == 0 {
        0
    } else if !checks(vm, args[0], types[0]) {
        0
    } else {
        1 + first_bad_arg(vm, types.drop_first(), args.drop_first())
    }
}

/// When the arguments before `i` pass and argument `i` fails, `i` is
/// exactly `first_bad_arg`.
proof fn lemma_first_bad_arg_is(vm: Vm, types: Seq<NativeType>, args: Seq<HostValue>, i: int)
    requires
        types.len() == args.len(),
        0 <= i < types.len(),
        !checks(vm, args[i], types[i]),
        forall|j: int| 0 <= j < i ==> checks(vm, args[j], #[trigger] types[j]),
    ensures
        first_bad_arg(vm, types, args) == i,
    decreases types.len(),
{
    if i == 0 {
    } else {
        assert(checks(vm, args[0], types[0]));
        assert(types.drop_first()[i - 1] == types[i]);
        assert(args.drop_first()[i - 1] == args[i]);
        assert forall|j: int| 0 <= j < i - 1 implies checks(
            vm,
            args.drop_first()[j],
            #[trigger] types.drop_first()[j],
        ) by {
            assert(types.drop_first()[j] == types[j + 1]);
            assert(args.drop_first()[j] == args[j + 1]);
        }
        lemma_first_bad_arg_is(vm, types.drop_first(), args.drop_first(), i - 1);
    }
}

/// Decodes each argument at its declared type, in declaration order,
/// stopping at the first failure. Succeeds exactly when every argument
/// checks; a failure reports the first failing position and exactly the
/// engine's diagnostic for it.
#[verifier::loop_isolation(false)]
pub fn decode_args(vm: &Vm, types: &Vec<NativeType>, args: &Vec<HostValue>) -> (r: Result<
    Vec<NativeValue>,
    ArgFailure,
>)
    requires
        vm.wf(),
        types.len() == args.len(),
        forall|i: int| 0 <= i < args.len() ==> vm.valid_handle(#[trigger] args[i]),
    ensures
        r is Ok <==> args_check_ok(*vm, types@, args@),
        r matches Ok(vals) ==> vals.len() == args.len() && forall|i: int|
            0 <= i < args.len() ==> crate::coercions::decodes_to(
                *vm,
                args[i],
                types[i],
                #[trigger] vals[i],
            ),
        r matches Err(af) ==> {
            &&& af.index < args.len()
            &&& af.index == first_bad_arg(*vm, types@, args@)
            &&& !checks(*vm, args[af.index as int], types[af.index as int])
            &&& af.cause == check_failure(*vm, args[af.index as int], types[af.index as int])
        },
{
    let mut vals: Vec<NativeValue> = Vec::new();
    let mut i: usize = 0;
    while i < args.len()
        invariant
            i <= args.len(),
            vals.len() == i,
            forall|j: int| 0 <= j < i ==> checks(*vm, args[j], #[trigger] types[j]),
            forall|j: int|
                0 <= j < i ==> crate::coercions::decodes_to(
                    *vm,
                    args[j],
                    types[j],
                    #[trigger] vals[j],
                ),
        decreases args.len() - i,
    {
        match to_checked(vm, args[i], &types[i]) {
            Ok(ck) => {
                vals.push(to_native(vm, &ck));
            },
            Err(cause) => {
                proof {
                    lemma_first_bad_arg_is(*vm, types@, args@, i as int);
                }
                return Err(ArgFailure { index: i, cause });
            },
        }
        i += 1;
    }
    Ok(vals)
}

/// The receiver decodes: for an instance method on a wrapped type, the
/// receiver must be an initialized instance of the registered class.
pub open spec fn receiver_ok(vm: Vm, sig: MethodSig, rb_self: Option<HostValue>) -> bool {
    match sig.receiver {
        Some(c) => rb_self matches Some(v) && checks(vm, v, NativeType::Instance(c)),
        None => true,
    }
}

/// The receiver and every argument decode.
pub open spec fn decode_ok(
    vm: Vm,
    sig: MethodSig,
    rb_self: Option<HostValue>,
    args: Seq<HostValue>,
) -> bool {
    receiver_ok(vm, sig, rb_self) && args_check_ok(vm, sig.args@, args)
}

/// The diagnostic for a failed decode: the receiver's failure if the
/// receiver fails, else the first failing argument's failure.
pub open spec fn decode_failure_of(
    vm: Vm,
    sig: MethodSig,
    rb_self: Option<HostValue>,
    args: Seq<HostValue>,
) -> CoercionFailure {
    if !receiver_ok(vm, sig, rb_self) {
        check_failure(vm, rb_self->0, NativeType::Instance(sig.receiver->0))
    } else {
        let i = first_bad_arg(vm, sig.args@, args);
        check_failure(vm, args[i], sig.args@[i])
    }
}

/// A native method body. The bridge drives it with the decoded receiver
/// and arguments and takes whatever outcome it produces; the body may call
/// back into the host through the VM it is handed, so afterwards the
/// native side may assume only that the host state evolved — payloads may
/// have been released, values allocated, jumps captured.
pub trait RubyMethod {
    /// Runs the body. The outcome must be consistent with the host state
    /// the body leaves behind: a result holding only live handles, a
    /// failure naming a registered class and a live message, or a jump
    /// token that was really captured.
    fn call(&self, vm: &mut Vm, receiver: Option<NativeValue>, args: Vec<NativeValue>) -> (o:
        MethodOutcome)
        requires
            old(vm).wf(),
        ensures
            final(vm).wf(),
            old(vm).evolves_to(*final(vm)),
            outcome_ok(*final(vm), o),
    ;
}

/// The boundary entry point for one registered method.
///
/// Decodes the receiver, then each argument in declaration order,
/// short-circuiting on the first failure, which surfaces as a raise of the
/// host's type-error class carrying the rendered diagnostic — before the
/// body has run, with no other effect on the host. Otherwise the body runs
/// and its outcome is resolved: its result encoded back, its structured
/// failure raised under its own class, a captured host jump re-triggered
/// verbatim. Exactly one finalized result comes out, and it refers only to things
/// the final host state knows.
pub fn invoke<M: RubyMethod>(
    vm: &mut Vm,
    sig: &MethodSig,
    rb_self: Option<HostValue>,
    args: &Vec<HostValue>,
    method: &M,
) -> (f: Finalized)
    requires
        old(vm).wf(),
        args.len() == sig.args.len(),
        forall|i: int| 0 <= i < args.len() ==> old(vm).valid_handle(#[trigger] args[i]),
        (sig.receiver is Some) == (rb_self is Some),
        rb_self matches Some(v) ==> old(vm).valid_handle(v),
    ensures
        final(vm).wf(),
        old(vm).evolves_to(*final(vm)),
        finalized_ok(*final(vm), f),
        !decode_ok(*old(vm), *sig, rb_self, args@) ==> {
            &&& final(vm).extends(*old(vm))
            &&& f matches Finalized::Raise { class, message } && class == type_error_class()
                && final(vm).valid_handle(message) && (final(vm).obj_of(message)
                matches HostObject::Str(s) && s@ == failure_text(
                *old(vm),
                decode_failure_of(*old(vm), *sig, rb_self, args@),
            ))
        },
{
    let receiver: Option<NativeValue> = match &sig.receiver {
        Some(c) => {
            let v = match rb_self {
                Some(v) => v,
                None => vstd::pervasive::unreached(),
            };
            let t = NativeType::Instance(*c);
            match to_checked(&*vm, v, &t) {
                Ok(ck) => Some(to_native(&*vm, &ck)),
                Err(cause) => {
                    let msg = render_failure(&*vm, &cause);
                    let mv = vm.from_string(msg);
                    proof {
                        crate::host::lemma_extends_evolves(*old(vm), *vm);
                    }
                    return Finalized::Raise { class: ClassHandle { raw: 2 }, message: mv };
                },
            }
        },
        None => None,
    };
    let decoded = match decode_args(&*vm, &sig.args, args) {
        Ok(vals) => vals,
        Err(af) => {
            let msg = render_failure(&*vm, &af.cause);
            let mv = vm.from_string(msg);
            proof {
                crate::host::lemma_extends_evolves(*old(vm), *vm);
            }
            return Finalized::Raise { class: ClassHandle { raw: 2 }, message: mv };
        },
    };
    let ghost pre_body = *vm;
    let outcome = method.call(vm, receiver, decoded);
    let ghost post_body = *vm;
    let f = finalize(vm, outcome);
    proof {
        crate::host::lemma_extends_evolves(post_body, *vm);
        crate::host::lemma_evolves_trans(pre_body, post_body, *vm);
        match f {
            Finalized::Rejump(e) => {
                crate::host::lemma_jump_preserved(post_body, *vm, e);
            },
            _ => {},
        }
    }
    f
}

} // verus!
