//! The value-coercion engine: type-checked, bidirectional conversion
//! between host values and native typed values.
//!
//! `to_checked` proves (or refutes, with a diagnostic) that a host value can
//! be converted to a given native type; `to_native` performs the conversion
//! a successful check licenses; `to_host` encodes a native value back into
//! the host's heap. Every failure is a returned `CoercionFailure`, never an
//! abnormal termination, and checking never mutates the host.

use vstd::prelude::*;

use crate::host::{Vm, false_handle, nil_handle, true_handle};
use crate::values::{
    ClassHandle, HostObject, HostValue, NativeType, NativeValue, TypeTag, native_eq, obj_ok,
    tag_of,
};

verus! {

broadcast use vstd::std_specs::vec::group_vec_axioms;

/// Why a coercion was refused. Every variant names what was expected, so a
/// host-visible message can report expected against actual.
#[derive(Debug)]
pub enum CoercionFailure {
    /// The value's dynamic kind does not match the target type.
    WrongType { expected: NativeType, actual: TypeTag },
    /// The value is an integer of the right kind whose magnitude does not
    /// fit the target type; it must be rejected, never truncated.
    OutOfRange { expected: NativeType },
    /// A wrapped object registered under a different class.
    WrongClass { expected: ClassHandle, actual: ClassHandle },
    /// A wrapped object of the right class whose payload slot is empty.
    UninitializedObject { class: ClassHandle },
    /// One element of a sequence failed to coerce; the first failing
    /// element is reported.
    Element { index: usize, cause: Box<CoercionFailure> },
}

/// The host value `v` passes the type check for native type `t`: its
/// dynamic kind matches, integers are in range, every sequence element
/// passes recursively, and a wrapped object has the registered class and an
/// initialized payload.
pub open spec fn checks(vm: Vm, v: HostValue, t: NativeType) -> bool
    decreases t,
{
    match t {
        NativeType::Unit => vm.obj_of(v) is Nil,
        NativeType::Bool => vm.obj_of(v) is Bool,
        NativeType::Int32 => vm.obj_of(v) matches HostObject::Int(i) && i32::MIN <= i
            <= i32::MAX,
        NativeType::Uint32 => vm.obj_of(v) matches HostObject::Int(i) && 0 <= i <= u32::MAX,
        NativeType::Int64 => vm.obj_of(v) matches HostObject::Int(i) && i64::MIN <= i
            <= i64::MAX,
        NativeType::Uint64 => vm.obj_of(v) matches HostObject::Int(i) && 0 <= i <= u64::MAX,
        NativeType::Float64 => vm.obj_of(v) is Float,
        NativeType::Text => vm.obj_of(v) is Str,
        NativeType::List(et) => vm.obj_of(v) matches HostObject::Arr(elems) && forall|i: int|
            0 <= i < elems.len() ==> checks(vm, #[trigger] elems[i], *et),
        NativeType::Maybe(et) => vm.obj_of(v) is Nil || checks(vm, v, *et),
        NativeType::Instance(c) => vm.obj_of(v) matches HostObject::Data {
            class,
            payload,
        } && class == c && payload is Some,
    }
}

/// The position of the first element of `elems` that fails the check for
/// `t` (meaningful only when one exists).
pub open spec fn first_bad(vm: Vm, elems: Seq<HostValue>, t: NativeType) -> int
    decreases elems.len(),
{
    if elems.len() == 0 {
        0
    } else if !checks(vm, elems[0], t) {
        0
    } else {
        1 + first_bad(vm, elems.drop_first(), t)
    }
}

/// When the elements up to `i` pass the check and element `i` fails it,
/// `i` is exactly `first_bad`.
pub proof fn lemma_first_bad_is(vm: Vm, elems: Seq<HostValue>, t: NativeType, i: int)
    requires
        0 <= i < elems.len(),
        !checks(vm, elems[i], t),
        forall|j: int| 0 <= j < i ==> checks(vm, #[trigger] elems[j], t),
    ensures
        first_bad(vm, elems, t) == i,
    decreases elems.len(),
{
    if i == 0 {
    } else {
        assert(checks(vm, elems[0], t));
        assert(elems.drop_first()[i - 1] == elems[i]);
        assert forall|j: int| 0 <= j < i - 1 implies checks(
            vm,
            #[trigger] elems.drop_first()[j],
            t,
        ) by {
            assert(elems.drop_first()[j] == elems[j + 1]);
        }
        lemma_first_bad_is(vm, elems.drop_first(), t, i - 1);
    }
}

/// The diagnostic for a failed check of `v` against `t` (meaningful only
/// when the check fails): the exact failure the coercion engine reports.
pub open spec fn check_failure(vm: Vm, v: HostValue, t: NativeType) -> CoercionFailure
    decreases t,
{
    match t {
        NativeType::Int32 | NativeType::Uint32 | NativeType::Int64 | NativeType::Uint64 => {
            if vm.obj_of(v) is Int {
                CoercionFailure::OutOfRange { expected: t }
            } else {
                CoercionFailure::WrongType { expected: t, actual: tag_of(vm.obj_of(v)) }
            }
        },
        NativeType::List(et) => match vm.obj_of(v) {
            HostObject::Arr(elems) => {
                let i = first_bad(vm, elems@, *et);
                CoercionFailure::Element {
                    index: i as usize,
                    cause: Box::new(check_failure(vm, elems[i], *et)),
                }
            },
            _ => CoercionFailure::WrongType { expected: t, actual: tag_of(vm.obj_of(v)) },
        },
        NativeType::Maybe(et) => check_failure(vm, v, *et),
        NativeType::Instance(c) => match vm.obj_of(v) {
            HostObject::Data { class, .. } => {
                if class == c {
                    CoercionFailure::UninitializedObject { class: c }
                } else {
                    CoercionFailure::WrongClass { expected: c, actual: class }
                }
            },
            _ => CoercionFailure::WrongType { expected: t, actual: tag_of(vm.obj_of(v)) },
        },
        _ => CoercionFailure::WrongType { expected: t, actual: tag_of(vm.obj_of(v)) },
    }
}

/// Copies a native type descriptor.
pub fn copy_type(t: &NativeType) -> (r: NativeType)
    ensures
        r == *t,
    decreases t,
{
    match t {
        NativeType::Unit => NativeType::Unit,
        NativeType::Bool => NativeType::Bool,
        NativeType::Int32 => NativeType::Int32,
        NativeType::Uint32 => NativeType::Uint32,
        NativeType::Int64 => NativeType::Int64,
        NativeType::Uint64 => NativeType::Uint64,
        NativeType::Float64 => NativeType::Float64,
        NativeType::Text => NativeType::Text,
        NativeType::List(et) => NativeType::List(Box::new(copy_type(&**et))),
        NativeType::Maybe(et) => NativeType::Maybe(Box::new(copy_type(&**et))),
        NativeType::Instance(c) => NativeType::Instance(*c),
    }
}

/// A host value proven, by a prior type check, to be convertible to the
/// native type it carries. It is a capability token: it holds no data
/// beyond the handle and the target type, and `to_checked` is the one
/// constructor that establishes the proof.
#[derive(Debug)]
pub struct Checked<'a> {
    pub handle: HostValue,
    pub ty: &'a NativeType,
}

/// The result of a type check: a capability to convert, or the diagnostic
/// saying why the value was refused.
pub type CheckResult<'a> = Result<Checked<'a>, CoercionFailure>;

/// Checks that `v` can be converted to native type `t`. Succeeds exactly
/// when `checks` holds; on failure returns exactly the `check_failure`
/// diagnostic. Reading never mutates the host.
#[verifier::loop_isolation(false)]
pub fn to_checked<'a>(vm: &Vm, v: HostValue, t: &'a NativeType) -> (r: CheckResult<'a>)
    requires
        vm.wf(),
        vm.valid_handle(v),
    ensures
        r is Ok <==> checks(*vm, v, *t),
        r matches Ok(c) ==> c.handle == v && c.ty == t,
        r matches Err(f) ==> f == check_failure(*vm, v, *t),
    decreases t,
{
    match t {
        NativeType::Unit => {
            match &vm.heap[v.raw] {
                HostObject::Nil => Ok(Checked { handle: v, ty: t }),
                _ => Err(
                    CoercionFailure::WrongType { expected: copy_type(t), actual: vm.type_tag(v) },
                ),
            }
        },
        NativeType::Bool => {
            match &vm.heap[v.raw] {
                HostObject::Bool(_) => Ok(Checked { handle: v, ty: t }),
                _ => Err(
                    CoercionFailure::WrongType { expected: copy_type(t), actual: vm.type_tag(v) },
                ),
            }
        },
        NativeType::Int32 => {
            match &vm.heap[v.raw] {
                HostObject::Int(i) => {
                    if i32::MIN as i128 <= *i && *i <= i32::MAX as i128 {
                        Ok(Checked { handle: v, ty: t })
                    } else {
                        Err(CoercionFailure::OutOfRange { expected: copy_type(t) })
                    }
                },
                _ => Err(
                    CoercionFailure::WrongType { expected: copy_type(t), actual: vm.type_tag(v) },
                ),
            }
        },
        NativeType::Uint32 => {
            match &vm.heap[v.raw] {
                HostObject::Int(i) => {
                    if 0 <= *i && *i <= u32::MAX as i128 {
                        Ok(Checked { handle: v, ty: t })
                    } else {
                        Err(CoercionFailure::OutOfRange { expected: copy_type(t) })
                    }
                },
                _ => Err(
                    CoercionFailure::WrongType { expected: copy_type(t), actual: vm.type_tag(v) },
                ),
            }
        },
        NativeType::Int64 => {
            match &vm.heap[v.raw] {
                HostObject::Int(i) => {
                    if i64::MIN as i128 <= *i && *i <= i64::MAX as i128 {
                        Ok(Checked { handle: v, ty: t })
                    } else {
                        Err(CoercionFailure::OutOfRange { expected: copy_type(t) })
                    }
                },
                _ => Err(
                    CoercionFailure::WrongType { expected: copy_type(t), actual: vm.type_tag(v) },
                ),
            }
        },
        NativeType::Uint64 => {
            match &vm.heap[v.raw] {
                HostObject::Int(i) => {
                    if 0 <= *i && *i <= u64::MAX as i128 {
                        Ok(Checked { handle: v, ty: t })
                    } else {
                        Err(CoercionFailure::OutOfRange { expected: copy_type(t) })
                    }
                },
                _ => Err(
                    CoercionFailure::WrongType { expected: copy_type(t), actual: vm.type_tag(v) },
                ),
            }
        },
        NativeType::Float64 => {
            match &vm.heap[v.raw] {
                HostObject::Float(_) => Ok(Checked { handle: v, ty: t }),
                _ => Err(
                    CoercionFailure::WrongType { expected: copy_type(t), actual: vm.type_tag(v) },
                ),
            }
        },
        NativeType::Text => {
            match &vm.heap[v.raw] {
                HostObject::Str(_) => Ok(Checked { handle: v, ty: t }),
                _ => Err(
                    CoercionFailure::WrongType { expected: copy_type(t), actual: vm.type_tag(v) },
                ),
            }
        },
        NativeType::List(et) => {
            if !vm.is_type(v, TypeTag::Arr) {
                return Err(
                    CoercionFailure::WrongType { expected: copy_type(t), actual: vm.type_tag(v) },
                );
            }
            let len = vm.array_len(v);
            let mut i: usize = 0;
            while i < len
                invariant
                    i <= len,
                    forall|j: int|
                        0 <= j < i ==> checks(
                            *vm,
                            #[trigger] (vm.obj_of(v)->Arr_0)[j],
                            **et,
                        ),
                decreases len - i,
            {
                let e = vm.array_get(v, i);
                match to_checked(vm, e, et) {
                    Ok(_) => {},
                    Err(f) => {
                        proof {
                            lemma_first_bad_is(*vm, (vm.obj_of(v)->Arr_0)@, **et, i as int);
                        }
                        return Err(
                            CoercionFailure::Element { index: i, cause: Box::new(f) },
                        );
                    },
                }
                i += 1;
            }
            Ok(Checked { handle: v, ty: t })
        },
        NativeType::Maybe(et) => {
            if vm.is_type(v, TypeTag::Nil) {
                Ok(Checked { handle: v, ty: t })
            } else {
                match to_checked(vm, v, et) {
                    Ok(_) => Ok(Checked { handle: v, ty: t }),
                    Err(f) => Err(f),
                }
            }
        },
        NativeType::Instance(c) => {
            match &vm.heap[v.raw] {
                HostObject::Data { class, payload } => {
                    if *class == *c {
                        if payload.is_some() {
                            Ok(Checked { handle: v, ty: t })
                        } else {
                            Err(CoercionFailure::UninitializedObject { class: *c })
                        }
                    } else {
                        Err(CoercionFailure::WrongClass { expected: *c, actual: *class })
                    }
                },
                _ => Err(
                    CoercionFailure::WrongType { expected: copy_type(t), actual: vm.type_tag(v) },
                ),
            }
        },
    }
}

/// What a successful check licenses: decoding `v` at type `t` yields
/// exactly the native value `n` (text compared by its characters).
pub open spec fn decodes_to(vm: Vm, v: HostValue, t: NativeType, n: NativeValue) -> bool
    decreases t,
{
    match t {
        NativeType::Unit => vm.obj_of(v) is Nil && n is Unit,
        NativeType::Bool => vm.obj_of(v) matches HostObject::Bool(b) && n == NativeValue::Bool(
            b,
        ),
        NativeType::Int32 => vm.obj_of(v) matches HostObject::Int(i) && i32::MIN <= i
            <= i32::MAX && n == NativeValue::Int32(i as i32),
        NativeType::Uint32 => vm.obj_of(v) matches HostObject::Int(i) && 0 <= i <= u32::MAX
            && n == NativeValue::Uint32(i as u32),
        NativeType::Int64 => vm.obj_of(v) matches HostObject::Int(i) && i64::MIN <= i
            <= i64::MAX && n == NativeValue::Int64(i as i64),
        NativeType::Uint64 => vm.obj_of(v) matches HostObject::Int(i) && 0 <= i <= u64::MAX
            && n == NativeValue::Uint64(i as u64),
        NativeType::Float64 => vm.obj_of(v) matches HostObject::Float(bits) && n
            == NativeValue::Float64(bits),
        NativeType::Text => vm.obj_of(v) matches HostObject::Str(s) && n
            matches NativeValue::Text(u) && u@ == s@,
        NativeType::List(et) => vm.obj_of(v) matches HostObject::Arr(elems) && n
            matches NativeValue::List(ns) && ns.len() == elems.len() && forall|i: int|
            0 <= i < elems.len() ==> decodes_to(vm, elems[i], *et, #[trigger] ns[i]),
        NativeType::Maybe(et) => if vm.obj_of(v) is Nil {
            n is Absent
        } else {
            n matches NativeValue::Present(b) && decodes_to(vm, v, *et, *b)
        },
        NativeType::Instance(c) => vm.obj_of(v) matches HostObject::Data {
            class,
            payload,
        } && class == c && payload is Some && n == NativeValue::Instance(v),
    }
}

/// Converts a checked host value to its native value. The result is
/// exactly what `decodes_to` describes; conversion reads the host but
/// never mutates it.
#[verifier::loop_isolation(false)]
pub fn to_native(vm: &Vm, c: &Checked<'_>) -> (n: NativeValue)
    requires
        vm.wf(),
        vm.valid_handle(c.handle),
        checks(*vm, c.handle, *c.ty),
    ensures
        decodes_to(*vm, c.handle, *c.ty, n),
    decreases c.ty,
{
    let v = c.handle;
    match c.ty {
        NativeType::Unit => NativeValue::Unit,
        NativeType::Bool => match &vm.heap[v.raw] {
            HostObject::Bool(b) => NativeValue::Bool(*b),
            _ => vstd::pervasive::unreached(),
        },
        NativeType::Int32 => match &vm.heap[v.raw] {
            HostObject::Int(i) => NativeValue::Int32(*i as i32),
            _ => vstd::pervasive::unreached(),
        },
        NativeType::Uint32 => match &vm.heap[v.raw] {
            HostObject::Int(i) => NativeValue::Uint32(*i as u32),
            _ => vstd::pervasive::unreached(),
        },
        NativeType::Int64 => match &vm.heap[v.raw] {
            HostObject::Int(i) => NativeValue::Int64(*i as i64),
            _ => vstd::pervasive::unreached(),
        },
        NativeType::Uint64 => match &vm.heap[v.raw] {
            HostObject::Int(i) => NativeValue::Uint64(*i as u64),
            _ => vstd::pervasive::unreached(),
        },
        NativeType::Float64 => match &vm.heap[v.raw] {
            HostObject::Float(bits) => NativeValue::Float64(*bits),
            _ => vstd::pervasive::unreached(),
        },
        NativeType::Text => match &vm.heap[v.raw] {
            HostObject::Str(s) => NativeValue::Text(s.clone()),
            _ => vstd::pervasive::unreached(),
        },
        NativeType::List(et) => {
            let len = vm.array_len(v);
            let mut out: Vec<NativeValue> = Vec::new();
            let mut i: usize = 0;
            while i < len
                invariant
                    i <= len,
                    out.len() == i,
                    forall|j: int|
                        0 <= j < i ==> decodes_to(
                            *vm,
                            (vm.obj_of(v)->Arr_0)[j],
                            **et,
                            #[trigger] out[j],
                        ),
                decreases len - i,
            {
                let e = vm.array_get(v, i);
                let ck = Checked { handle: e, ty: &**et };
                out.push(to_native(vm, &ck));
                i += 1;
            }
            NativeValue::List(out)
        },
        NativeType::Maybe(et) => {
            if vm.is_type(v, TypeTag::Nil) {
                NativeValue::Absent
            } else {
                let ck = Checked { handle: v, ty: &**et };
                NativeValue::Present(Box::new(to_native(vm, &ck)))
            }
        },
        NativeType::Instance(_) => NativeValue::Instance(v),
    }
}

/// The handle `v` is an encoding of the native value `n` in the host: nil
/// for unit and absent values, the boolean singletons for booleans, a
/// fresh heap value for the rest, and for a wrapped instance the very
/// handle the native side held.
pub open spec fn encodes(vm: Vm, v: HostValue, n: NativeValue) -> bool
    decreases n,
{
    vm.valid_handle(v) && match n {
        NativeValue::Unit => v == nil_handle(),
        NativeValue::Bool(b) => v == if b {
            true_handle()
        } else {
            false_handle()
        },
        NativeValue::Int32(x) => vm.obj_of(v) == HostObject::Int(x as i128),
        NativeValue::Uint32(x) => vm.obj_of(v) == HostObject::Int(x as i128),
        NativeValue::Int64(x) => vm.obj_of(v) == HostObject::Int(x as i128),
        NativeValue::Uint64(x) => vm.obj_of(v) == HostObject::Int(x as i128),
        NativeValue::Float64(bits) => vm.obj_of(v) == HostObject::Float(bits),
        NativeValue::Text(s) => vm.obj_of(v) matches HostObject::Str(u) && u@ == s@,
        NativeValue::List(vs) => vm.obj_of(v) matches HostObject::Arr(elems) && elems.len()
            == vs.len() && forall|i: int|
            0 <= i < vs.len() ==> encodes(vm, elems[i], #[trigger] vs[i]),
        NativeValue::Absent => v == nil_handle(),
        NativeValue::Present(b) => encodes(vm, v, *b),
        NativeValue::Instance(h) => v == h && vm.obj_of(v) is Data,
    }
}

/// Every wrapped-instance handle inside `n` refers to a live wrapped
/// object of the host: what encoding a native value back requires.
pub open spec fn native_ok_in(vm: Vm, n: NativeValue) -> bool
    decreases n,
{
    match n {
        NativeValue::List(vs) => forall|i: int|
            0 <= i < vs.len() ==> native_ok_in(vm, #[trigger] vs[i]),
        NativeValue::Present(b) => native_ok_in(vm, *b),
        NativeValue::Instance(h) => vm.valid_handle(h) && vm.obj_of(h) is Data,
        _ => true,
    }
}

/// The native value `n` conforms to the native type `t`. For wrapped
/// instances the host is consulted: the handle must refer to a live,
/// initialized wrapped object of the registered class. Under `Maybe`, a
/// present value may not itself be one that encodes to nil, since the
/// host cannot tell such a value apart from an absent one.
pub open spec fn has_type(vm: Vm, n: NativeValue, t: NativeType) -> bool
    decreases t,
{
    match t {
        NativeType::Unit => n is Unit,
        NativeType::Bool => n is Bool,
        NativeType::Int32 => n is Int32,
        NativeType::Uint32 => n is Uint32,
        NativeType::Int64 => n is Int64,
        NativeType::Uint64 => n is Uint64,
        NativeType::Float64 => n is Float64,
        NativeType::Text => n is Text,
        NativeType::List(et) => n matches NativeValue::List(vs) && forall|i: int|
            0 <= i < vs.len() ==> has_type(vm, #[trigger] vs[i], *et),
        NativeType::Maybe(et) => n is Absent || (n matches NativeValue::Present(b) && has_type(
            vm,
            *b,
            *et,
        ) && !nil_encoding(*b)),
        NativeType::Instance(c) => n matches NativeValue::Instance(h) && vm.valid_handle(h)
            && (vm.obj_of(h) matches HostObject::Data { class, payload } && class == c
                && payload is Some),
    }
}

/// The native value encodes to the host's nil sentinel.
pub open spec fn nil_encoding(n: NativeValue) -> bool
    decreases n,
{
    match n {
        NativeValue::Unit => true,
        NativeValue::Absent => true,
        NativeValue::Present(b) => nil_encoding(*b),
        _ => false,
    }
}

/// A well-typed value contains only live wrapped-instance handles, so it
/// can be encoded.
pub proof fn lemma_has_type_ok(vm: Vm, n: NativeValue, t: NativeType)
    requires
        has_type(vm, n, t),
    ensures
        native_ok_in(vm, n),
    decreases t,
{
    match t {
        NativeType::List(et) => {
            let vs = n->List_0;
            assert forall|i: int| 0 <= i < vs.len() implies native_ok_in(
                vm,
                #[trigger] vs[i],
            ) by {
                lemma_has_type_ok(vm, vs[i], *et);
            }
        },
        NativeType::Maybe(et) => {
            match n {
                NativeValue::Present(b) => {
                    lemma_has_type_ok(vm, *b, *et);
                },
                _ => {},
            }
        },
        _ => {},
    }
}

/// A value that does not encode to nil is never encoded as the nil
/// sentinel.
proof fn lemma_nonnil_encoding(vm: Vm, v: HostValue, n: NativeValue)
    requires
        vm.wf(),
        encodes(vm, v, n),
        !nil_encoding(n),
    ensures
        !(vm.obj_of(v) is Nil),
    decreases n,
{
    match n {
        NativeValue::Present(b) => {
            lemma_nonnil_encoding(vm, v, *b);
        },
        _ => {},
    }
}

/// Decoding inverts encoding: a host value that encodes a well-typed
/// native value passes the type check for that type and decodes back to
/// it.
pub proof fn lemma_encode_decode(vm: Vm, v: HostValue, t: NativeType, n: NativeValue)
    requires
        vm.wf(),
        encodes(vm, v, n),
        has_type(vm, n, t),
    ensures
        checks(vm, v, t),
        decodes_to(vm, v, t, n),
    decreases t,
{
    match t {
        NativeType::List(et) => {
            let elems = vm.obj_of(v)->Arr_0;
            let vs = n->List_0;
            assert forall|i: int| 0 <= i < elems.len() implies checks(
                vm,
                #[trigger] elems[i],
                *et,
            ) by {
                assert(encodes(vm, elems[i], vs[i]));
                lemma_encode_decode(vm, elems[i], *et, vs[i]);
            }
            assert forall|i: int| 0 <= i < elems.len() implies decodes_to(
                vm,
                elems[i],
                *et,
                #[trigger] vs[i],
            ) by {
                assert(encodes(vm, elems[i], vs[i]));
                lemma_encode_decode(vm, elems[i], *et, vs[i]);
            }
        },
        NativeType::Maybe(et) => {
            match n {
                NativeValue::Absent => {},
                NativeValue::Present(b) => {
                    lemma_encode_decode(vm, v, *et, *b);
                    lemma_nonnil_encoding(vm, v, *b);
                },
                _ => {},
            }
        },
        _ => {},
    }
}

/// Decoding is deterministic: two values a host value decodes to at one
/// type are equal, element for element and character for character.
pub proof fn lemma_decode_unique(
    vm: Vm,
    v: HostValue,
    t: NativeType,
    n1: NativeValue,
    n2: NativeValue,
)
    requires
        decodes_to(vm, v, t, n1),
        decodes_to(vm, v, t, n2),
    ensures
        native_eq(n1, n2),
    decreases t,
{
    match t {
        NativeType::List(et) => {
            let elems = vm.obj_of(v)->Arr_0;
            let ns1 = n1->List_0;
            let ns2 = n2->List_0;
            assert forall|i: int| 0 <= i < ns1.len() implies native_eq(
                #[trigger] ns1[i],
                ns2[i],
            ) by {
                assert(decodes_to(vm, elems[i], *et, ns1[i]));
                assert(decodes_to(vm, elems[i], *et, ns2[i]));
                lemma_decode_unique(vm, elems[i], *et, ns1[i], ns2[i]);
            }
        },
        NativeType::Maybe(et) => {
            if !(vm.obj_of(v) is Nil) {
                lemma_decode_unique(vm, v, *et, *n1->Present_0, *n2->Present_0);
            }
        },
        _ => {},
    }
}

/// Round trip for every supported type: a well-typed native value encoded
/// into the host passes the type check and decodes back to a value equal
/// to it, element for element. For sequences this is exactly the
/// guarantee that order and element values are reproduced.
pub proof fn lemma_round_trip(
    vm: Vm,
    v: HostValue,
    t: NativeType,
    n1: NativeValue,
    n2: NativeValue,
)
    requires
        vm.wf(),
        has_type(vm, n1, t),
        encodes(vm, v, n1),
        decodes_to(vm, v, t, n2),
    ensures
        checks(vm, v, t),
        native_eq(n2, n1),
{
    lemma_encode_decode(vm, v, t, n1);
    lemma_decode_unique(vm, v, t, n2, n1);
}

/// The native type is a primitive scalar.
pub open spec fn is_scalar(t: NativeType) -> bool {
    match t {
        NativeType::Unit | NativeType::Bool | NativeType::Int32 | NativeType::Uint32
            | NativeType::Int64 | NativeType::Uint64 | NativeType::Float64 => true,
        _ => false,
    }
}

/// Round trip on the host side for primitive scalars: decoding a checked
/// host value and encoding the result — possibly in a later host state —
/// yields a host value whose tag and numeric value equal the original's.
pub proof fn lemma_scalar_round_trip(
    vm0: Vm,
    vm1: Vm,
    v: HostValue,
    v2: HostValue,
    t: NativeType,
    n: NativeValue,
)
    requires
        vm0.wf(),
        vm1.wf(),
        is_scalar(t),
        checks(vm0, v, t),
        decodes_to(vm0, v, t, n),
        encodes(vm1, v2, n),
    ensures
        vm1.obj_of(v2) == vm0.obj_of(v),
        vm1.tag_of_value(v2) == vm0.tag_of_value(v),
{
}

/// An encoding stays an encoding when the host allocates more values.
pub proof fn lemma_encodes_extends(vm1: Vm, vm2: Vm, v: HostValue, n: NativeValue)
    requires
        encodes(vm1, v, n),
        vm2.extends(vm1),
    ensures
        encodes(vm2, v, n),
    decreases n,
{
    match n {
        NativeValue::List(vs) => {
            let elems = vm1.obj_of(v)->Arr_0;
            assert forall|i: int| 0 <= i < vs.len() implies encodes(
                vm2,
                elems[i],
                #[trigger] vs[i],
            ) by {
                lemma_encodes_extends(vm1, vm2, elems[i], vs[i]);
            }
        },
        NativeValue::Present(b) => {
            lemma_encodes_extends(vm1, vm2, v, *b);
        },
        _ => {},
    }
}

/// `native_ok_in` is preserved when the host allocates more values.
pub proof fn lemma_native_ok_extends(vm1: Vm, vm2: Vm, n: NativeValue)
    requires
        native_ok_in(vm1, n),
        vm2.extends(vm1),
    ensures
        native_ok_in(vm2, n),
    decreases n,
{
    match n {
        NativeValue::List(vs) => {
            assert forall|i: int| 0 <= i < vs.len() implies native_ok_in(
                vm2,
                #[trigger] vs[i],
            ) by {
                lemma_native_ok_extends(vm1, vm2, vs[i]);
            }
        },
        NativeValue::Present(b) => {
            lemma_native_ok_extends(vm1, vm2, *b);
        },
        _ => {},
    }
}

/// A check stays valid, and the value decodes to the same thing, while
/// the host only allocates: new values never disturb a checked one. (A
/// protected call back into the host gives no such guarantee: the
/// collector may empty a wrapped object's payload slot, which is exactly
/// why a wrapped value must be re-checked after one.)
pub proof fn lemma_checks_extends(
    vm1: Vm,
    vm2: Vm,
    v: HostValue,
    t: NativeType,
    n: NativeValue,
)
    requires
        vm1.wf(),
        vm1.valid_handle(v),
        vm2.extends(vm1),
        checks(vm1, v, t),
        decodes_to(vm1, v, t, n),
    ensures
        checks(vm2, v, t),
        decodes_to(vm2, v, t, n),
    decreases t,
{
    match t {
        NativeType::List(et) => {
            let elems = vm1.obj_of(v)->Arr_0;
            let ns = n->List_0;
            assert(obj_ok(vm1.obj_of(v), vm1.heap.len() as int, vm1.classes.len() as int));
            assert forall|i: int| 0 <= i < elems.len() implies checks(
                vm2,
                #[trigger] elems[i],
                *et,
            ) by {
                lemma_checks_extends(vm1, vm2, elems[i], *et, ns[i]);
            }
            assert forall|i: int| 0 <= i < elems.len() implies decodes_to(
                vm2,
                elems[i],
                *et,
                #[trigger] ns[i],
            ) by {
                lemma_checks_extends(vm1, vm2, elems[i], *et, ns[i]);
            }
        },
        NativeType::Maybe(et) => {
            if !(vm1.obj_of(v) is Nil) {
                lemma_checks_extends(vm1, vm2, v, *et, *n->Present_0);
            }
        },
        _ => {},
    }
}

/// `extends` is transitive.
pub proof fn lemma_extends_trans(vm0: Vm, vm1: Vm, vm2: Vm)
    requires
        vm1.extends(vm0),
        vm2.extends(vm1),
    ensures
        vm2.extends(vm0),
{
}

/// Encodes a native value into the host's heap: the inverse direction of
/// the coercion engine. Unit and absent values encode to the nil
/// singleton, booleans to the boolean singletons, and a wrapped instance
/// to the very handle the native side held; everything else is a freshly
/// allocated host value. Existing host values are never touched.
#[verifier::loop_isolation(false)]
pub fn to_host(vm: &mut Vm, n: &NativeValue) -> (v: HostValue)
    requires
        old(vm).wf(),
        native_ok_in(*old(vm), *n),
    ensures
        final(vm).wf(),
        final(vm).extends(*old(vm)),
        final(vm).valid_handle(v),
        encodes(*final(vm), v, *n),
    decreases n,
{
    match n {
        NativeValue::Unit => vm.nil(),
        NativeValue::Bool(b) => vm.bool_value(*b),
        NativeValue::Int32(x) => vm.from_i64(*x as i64),
        NativeValue::Uint32(x) => vm.from_u64(*x as u64),
        NativeValue::Int64(x) => vm.from_i64(*x),
        NativeValue::Uint64(x) => vm.from_u64(*x),
        NativeValue::Float64(bits) => vm.from_f64_bits(*bits),
        NativeValue::Text(s) => vm.from_text(s.as_str()),
        NativeValue::List(vs) => {
            let mut elems: Vec<HostValue> = Vec::new();
            let mut i: usize = 0;
            while i < vs.len()
                invariant
                    i <= vs.len(),
                    elems.len() == i,
                    vm.wf(),
                    vm.extends(*old(vm)),
                    forall|j: int| 0 <= j < i ==> encodes(*vm, elems[j], #[trigger] vs[j]),
                decreases vs.len() - i,
            {
                let ghost prev = *vm;
                proof {
                    lemma_native_ok_extends(*old(vm), *vm, *n);
                }
                let e = to_host(vm, &vs[i]);
                proof {
                    lemma_extends_trans(*old(vm), prev, *vm);
                    assert forall|j: int| 0 <= j < i implies encodes(
                        *vm,
                        elems[j],
                        #[trigger] vs[j],
                    ) by {
                        lemma_encodes_extends(prev, *vm, elems[j], vs[j]);
                    }
                }
                elems.push(e);
                i += 1;
            }
            let ghost endvm = *vm;
            let ghost es = elems@;
            proof {
                assert forall|j: int| 0 <= j < elems.len() implies (#[trigger] elems@[j]).raw
                    < vm.heap.len() by {
                    assert(encodes(*vm, elems[j as int], vs[j as int]));
                }
            }
            let r = vm.from_elements(elems);
            proof {
                lemma_extends_trans(*old(vm), endvm, *vm);
                assert forall|j: int| 0 <= j < vs.len() implies encodes(
                    *vm,
                    es[j],
                    #[trigger] vs[j],
                ) by {
                    lemma_encodes_extends(endvm, *vm, es[j], vs[j]);
                }
            }
            r
        },
        NativeValue::Absent => vm.nil(),
        NativeValue::Present(b) => to_host(vm, &**b),
        NativeValue::Instance(h) => *h,
    }
}

/// A host value proven convertible to the native type `T`. It carries no
/// payload beyond the handle and a phantom marker; it is a capability
/// token, not a copy.
pub struct CheckedValue<T> {
    pub inner: HostValue,
    pub marker: core::marker::PhantomData<T>,
}

impl<T> CheckedValue<T> {
    /// Wraps a handle without a check. This is the escape hatch for code
    /// that has already established the check by other means; the
    /// conversion functions still demand the proof, so an unchecked token
    /// grants nothing by itself.
    pub fn new(inner: HostValue) -> (r: CheckedValue<T>)
        ensures
            r.inner == inner,
    {
        CheckedValue { inner, marker: core::marker::PhantomData }
    }
}

/// Typed checking of a host value against the native type standing for
/// `T`: the per-type face of `to_checked`.
pub trait UncheckedValue<T>: Sized {
    /// The handle being checked.
    spec fn handle_of(self) -> HostValue;

    /// The native type that stands for `T`.
    spec fn target_type() -> NativeType;

    /// Checks that this host value can be converted to `T`. Succeeds
    /// exactly when the type check passes, and fails with exactly the
    /// engine's diagnostic.
    fn to_checked(self, vm: &Vm) -> (r: Result<CheckedValue<T>, CoercionFailure>)
        requires
            vm.wf(),
            vm.valid_handle(self.handle_of()),
        ensures
            r is Ok <==> checks(*vm, self.handle_of(), Self::target_type()),
            r matches Ok(c) ==> c.inner == self.handle_of(),
            r matches Err(f) ==> f == check_failure(*vm, self.handle_of(), Self::target_type()),
    ;
}

/// Typed conversion of a checked host value into a native value: the
/// per-type face of `to_native`.
pub trait ToRust<T>: Sized {
    /// The handle being converted.
    spec fn source_handle(self) -> HostValue;

    /// The native type that stands for `T`.
    spec fn source_type() -> NativeType;

    /// How a `T` sits inside the engine's value universe.
    spec fn lift(value: T) -> NativeValue;

    /// Converts, given that the check passed. The result is exactly what
    /// decoding at the standing type yields.
    fn to_rust(self, vm: &Vm) -> (r: T)
        requires
            vm.wf(),
            vm.valid_handle(self.source_handle()),
            checks(*vm, self.source_handle(), Self::source_type()),
        ensures
            decodes_to(*vm, self.source_handle(), Self::source_type(), Self::lift(r)),
    ;
}

/// Typed encoding of a native value into the host: the per-type face of
/// `to_host`.
pub trait ToRuby: Sized {
    /// How this value sits inside the engine's value universe.
    spec fn native_form(self) -> NativeValue;

    /// Encodes this value into the host's heap. Existing host values are
    /// never touched.
    fn to_ruby(self, vm: &mut Vm) -> (r: HostValue)
        requires
            old(vm).wf(),
            native_ok_in(*old(vm), self.native_form()),
        ensures
            final(vm).wf(),
            final(vm).extends(*old(vm)),
            final(vm).valid_handle(r),
            encodes(*final(vm), r, self.native_form()),
    ;
}

impl UncheckedValue<bool> for HostValue {
    open spec fn handle_of(self) -> HostValue {
        self
    }

    open spec fn target_type() -> NativeType {
        NativeType::Bool
    }

    fn to_checked(self, vm: &Vm) -> (r: Result<CheckedValue<bool>, CoercionFailure>) {
        let t = NativeType::Bool;
        match to_checked(vm, self, &t) {
            Ok(_) => Ok(CheckedValue::new(self)),
            Err(f) => Err(f),
        }
    }
}

impl UncheckedValue<i32> for HostValue {
    open spec fn handle_of(self) -> HostValue {
        self
    }

    open spec fn target_type() -> NativeType {
        NativeType::Int32
    }

    fn to_checked(self, vm: &Vm) -> (r: Result<CheckedValue<i32>, CoercionFailure>) {
        let t = NativeType::Int32;
        match to_checked(vm, self, &t) {
            Ok(_) => Ok(CheckedValue::new(self)),
            Err(f) => Err(f),
        }
    }
}

impl UncheckedValue<u32> for HostValue {
    open spec fn handle_of(self) -> HostValue {
        self
    }

    open spec fn target_type() -> NativeType {
        NativeType::Uint32
    }

    fn to_checked(self, vm: &Vm) -> (r: Result<CheckedValue<u32>, CoercionFailure>) {
        let t = NativeType::Uint32;
        match to_checked(vm, self, &t) {
            Ok(_) => Ok(CheckedValue::new(self)),
            Err(f) => Err(f),
        }
    }
}

impl UncheckedValue<i64> for HostValue {
    open spec fn handle_of(self) -> HostValue {
        self
    }

    open spec fn target_type() -> NativeType {
        NativeType::Int64
    }

    fn to_checked(self, vm: &Vm) -> (r: Result<CheckedValue<i64>, CoercionFailure>) {
        let t = NativeType::Int64;
        match to_checked(vm, self, &t) {
            Ok(_) => Ok(CheckedValue::new(self)),
            Err(f) => Err(f),
        }
    }
}

impl UncheckedValue<u64> for HostValue {
    open spec fn handle_of(self) -> HostValue {
        self
    }

    open spec fn target_type() -> NativeType {
        NativeType::Uint64
    }

    fn to_checked(self, vm: &Vm) -> (r: Result<CheckedValue<u64>, CoercionFailure>) {
        let t = NativeType::Uint64;
        match to_checked(vm, self, &t) {
            Ok(_) => Ok(CheckedValue::new(self)),
            Err(f) => Err(f),
        }
    }
}

impl UncheckedValue<String> for HostValue {
    open spec fn handle_of(self) -> HostValue {
        self
    }

    open spec fn target_type() -> NativeType {
        NativeType::Text
    }

    fn to_checked(self, vm: &Vm) -> (r: Result<CheckedValue<String>, CoercionFailure>) {
        let t = NativeType::Text;
        match to_checked(vm, self, &t) {
            Ok(_) => Ok(CheckedValue::new(self)),
            Err(f) => Err(f),
        }
    }
}

impl ToRust<bool> for CheckedValue<bool> {
    open spec fn source_handle(self) -> HostValue {
        self.inner
    }

    open spec fn source_type() -> NativeType {
        NativeType::Bool
    }

    open spec fn lift(value: bool) -> NativeValue {
        NativeValue::Bool(value)
    }

    fn to_rust(self, vm: &Vm) -> (r: bool) {
        let t = NativeType::Bool;
        let n = to_native(vm, &Checked { handle: self.inner, ty: &t });
        match n {
            NativeValue::Bool(b) => b,
            _ => vstd::pervasive::unreached(),
        }
    }
}

impl ToRust<i32> for CheckedValue<i32> {
    open spec fn source_handle(self) -> HostValue {
        self.inner
    }

    open spec fn source_type() -> NativeType {
        NativeType::Int32
    }

    open spec fn lift(value: i32) -> NativeValue {
        NativeValue::Int32(value)
    }

    fn to_rust(self, vm: &Vm) -> (r: i32) {
        let t = NativeType::Int32;
        let n = to_native(vm, &Checked { handle: self.inner, ty: &t });
        match n {
            NativeValue::Int32(x) => x,
            _ => vstd::pervasive::unreached(),
        }
    }
}

impl ToRust<u32> for CheckedValue<u32> {
    open spec fn source_handle(self) -> HostValue {
        self.inner
    }

    open spec fn source_type() -> NativeType {
        NativeType::Uint32
    }

    open spec fn lift(value: u32) -> NativeValue {
        NativeValue::Uint32(value)
    }

    fn to_rust(self, vm: &Vm) -> (r: u32) {
        let t = NativeType::Uint32;
        let n = to_native(vm, &Checked { handle: self.inner, ty: &t });
        match n {
            NativeValue::Uint32(x) => x,
            _ => vstd::pervasive::unreached(),
        }
    }
}

impl ToRust<i64> for CheckedValue<i64> {
    open spec fn source_handle(self) -> HostValue {
        self.inner
    }

    open spec fn source_type() -> NativeType {
        NativeType::Int64
    }

    open spec fn lift(value: i64) -> NativeValue {
        NativeValue::Int64(value)
    }

    fn to_rust(self, vm: &Vm) -> (r: i64) {
        let t = NativeType::Int64;
        let n = to_native(vm, &Checked { handle: self.inner, ty: &t });
        match n {
            NativeValue::Int64(x) => x,
            _ => vstd::pervasive::unreached(),
        }
    }
}

impl ToRust<u64> for CheckedValue<u64> {
    open spec fn source_handle(self) -> HostValue {
        self.inner
    }

    open spec fn source_type() -> NativeType {
        NativeType::Uint64
    }

    open spec fn lift(value: u64) -> NativeValue {
        NativeValue::Uint64(value)
    }

    fn to_rust(self, vm: &Vm) -> (r: u64) {
        let t = NativeType::Uint64;
        let n = to_native(vm, &Checked { handle: self.inner, ty: &t });
        match n {
            NativeValue::Uint64(x) => x,
            _ => vstd::pervasive::unreached(),
        }
    }
}

impl ToRust<String> for CheckedValue<String> {
    open spec fn source_handle(self) -> HostValue {
        self.inner
    }

    open spec fn source_type() -> NativeType {
        NativeType::Text
    }

    open spec fn lift(value: String) -> NativeValue {
        NativeValue::Text(value)
    }

    fn to_rust(self, vm: &Vm) -> (r: String) {
        let t = NativeType::Text;
        let n = to_native(vm, &Checked { handle: self.inner, ty: &t });
        match n {
            NativeValue::Text(s) => s,
            _ => vstd::pervasive::unreached(),
        }
    }
}

impl ToRuby for () {
    open spec fn native_form(self) -> NativeValue {
        NativeValue::Unit
    }

    fn to_ruby(self, vm: &mut Vm) -> (r: HostValue) {
        to_host(vm, &NativeValue::Unit)
    }
}

impl ToRuby for bool {
    open spec fn native_form(self) -> NativeValue {
        NativeValue::Bool(self)
    }

    fn to_ruby(self, vm: &mut Vm) -> (r: HostValue) {
        to_host(vm, &NativeValue::Bool(self))
    }
}

impl ToRuby for i32 {
    open spec fn native_form(self) -> NativeValue {
        NativeValue::Int32(self)
    }

    fn to_ruby(self, vm: &mut Vm) -> (r: HostValue) {
        to_host(vm, &NativeValue::Int32(self))
    }
}

impl ToRuby for u32 {
    open spec fn native_form(self) -> NativeValue {
        NativeValue::Uint32(self)
    }

    fn to_ruby(self, vm: &mut Vm) -> (r: HostValue) {
        to_host(vm, &NativeValue::Uint32(self))
    }
}

impl ToRuby for i64 {
    open spec fn native_form(self) -> NativeValue {
        NativeValue::Int64(self)
    }

    fn to_ruby(self, vm: &mut Vm) -> (r: HostValue) {
        to_host(vm, &NativeValue::Int64(self))
    }
}

impl ToRuby for u64 {
    open spec fn native_form(self) -> NativeValue {
        NativeValue::Uint64(self)
    }

    fn to_ruby(self, vm: &mut Vm) -> (r: HostValue) {
        to_host(vm, &NativeValue::Uint64(self))
    }
}

impl ToRuby for String {
    open spec fn native_form(self) -> NativeValue {
        NativeValue::Text(self)
    }

    fn to_ruby(self, vm: &mut Vm) -> (r: HostValue) {
        to_host(vm, &NativeValue::Text(self))
    }
}

} // verus!
