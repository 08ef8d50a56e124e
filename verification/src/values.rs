//! The value universe on both sides of the boundary.
//!
//! `HostValue` is an opaque, copyable handle to a heap slot owned by the host
//! VM; `HostObject` is what such a slot holds, and `TypeTag` is its dynamic
//! kind. `NativeValue` is the typed native counterpart that the coercion
//! engine produces and consumes, and `NativeType` describes which native type
//! a coercion is aimed at.

use vstd::prelude::*;

verus! {

broadcast use vstd::std_specs::vec::group_vec_axioms;

/// An opaque, copyable handle to a value owned and tagged by the host VM.
/// Identity is equality of the handle.
#[derive(Copy, Clone, PartialEq, Eq, Structural, Debug, Hash)]
pub struct HostValue {
    pub raw: usize,
}

/// A handle to a class registered with the host VM.
#[derive(Copy, Clone, PartialEq, Eq, Structural, Debug, Hash)]
pub struct ClassHandle {
    pub raw: usize,
}

/// The dynamic kind of a host value. Queried, never constructed, by the
/// native side.
#[derive(Copy, Clone, PartialEq, Eq, Structural, Debug)]
pub enum TypeTag {
    /// The "no value" sentinel.
    Nil,
    /// The boolean truth value.
    True,
    /// The boolean falsehood value.
    False,
    /// An integer that fits the host's fixed-width integer range.
    Fixnum,
    /// An integer outside the fixed-width range.
    Bignum,
    /// A double-precision floating-point value.
    Float,
    /// A text string.
    Str,
    /// An ordered sequence of host values.
    Arr,
    /// A host object wrapping a native-owned payload.
    Data,
}

/// A native typed value, the result of decoding a host value and the input
/// of encoding one.
#[derive(Debug)]
pub enum NativeValue {
    /// The unit value; encodes to the host's nil sentinel.
    Unit,
    Bool(bool),
    Int32(i32),
    Uint32(u32),
    Int64(i64),
    Uint64(u64),
    /// The bit pattern of an IEEE-754 double. The bridge moves the bits
    /// across the boundary unchanged and never interprets them numerically.
    Float64(u64),
    Text(String),
    List(Vec<NativeValue>),
    /// An optional value that is absent.
    Absent,
    /// An optional value that is present.
    Present(Box<NativeValue>),
    /// A checked reference to a host object that wraps a native payload.
    Instance(HostValue),
}

/// Native-owned data attached to a host object handle. It is owned by the
/// wrapper until the host collector drives its release.
#[derive(Debug)]
pub struct NativePayload {
    pub value: NativeValue,
}

/// What a host heap slot holds.
#[derive(Debug)]
pub enum HostObject {
    /// The "no value" sentinel.
    Nil,
    Bool(bool),
    /// An integer; the host distinguishes fixed-width and big integers only
    /// by range, so one representation carries both.
    Int(i128),
    /// A double-precision float, kept as its bit pattern.
    Float(u64),
    Str(String),
    Arr(Vec<HostValue>),
    /// A host object carrying a native-owned payload slot. The slot is empty
    /// between allocation and initialization, and again after release.
    Data { class: ClassHandle, payload: Option<NativePayload> },
}

/// The native type a coercion is aimed at.
#[derive(Debug)]
pub enum NativeType {
    Unit,
    Bool,
    Int32,
    Uint32,
    Int64,
    Uint64,
    Float64,
    Text,
    /// An ordered container with elements of one native type.
    List(Box<NativeType>),
    /// An optional value: the host's nil maps to "absent", any other value
    /// is coerced at the inner type.
    Maybe(Box<NativeType>),
    /// A host object wrapped around a native payload, registered under the
    /// given class.
    Instance(ClassHandle),
}

/// The dynamic kind of a heap object.
pub open spec fn tag_of(o: HostObject) -> TypeTag {
    match o {
        HostObject::Nil => TypeTag::Nil,
        HostObject::Bool(b) => if b {
            TypeTag::True
        } else {
            TypeTag::False
        },
        HostObject::Int(i) => if i64::MIN <= i <= i64::MAX {
            TypeTag::Fixnum
        } else {
            TypeTag::Bignum
        },
        HostObject::Float(_) => TypeTag::Float,
        HostObject::Str(_) => TypeTag::Str,
        HostObject::Arr(_) => TypeTag::Arr,
        HostObject::Data { .. } => TypeTag::Data,
    }
}

/// Structural equality of native values, comparing text by its characters
/// and sequences element by element.
pub open spec fn native_eq(a: NativeValue, b: NativeValue) -> bool
    decreases a,
{
    match (a, b) {
        (NativeValue::Unit, NativeValue::Unit) => true,
        (NativeValue::Bool(x), NativeValue::Bool(y)) => x == y,
        (NativeValue::Int32(x), NativeValue::Int32(y)) => x == y,
        (NativeValue::Uint32(x), NativeValue::Uint32(y)) => x == y,
        (NativeValue::Int64(x), NativeValue::Int64(y)) => x == y,
        (NativeValue::Uint64(x), NativeValue::Uint64(y)) => x == y,
        (NativeValue::Float64(x), NativeValue::Float64(y)) => x == y,
        (NativeValue::Text(x), NativeValue::Text(y)) => x@ == y@,
        (NativeValue::List(x), NativeValue::List(y)) => {
            &&& x.len() == y.len()
            &&& forall|i: int|
                0 <= i < x.len() ==> native_eq(#[trigger] x[i], y[i])
        },
        (NativeValue::Absent, NativeValue::Absent) => true,
        (NativeValue::Present(x), NativeValue::Present(y)) => native_eq(*x, *y),
        (NativeValue::Instance(x), NativeValue::Instance(y)) => x == y,
        _ => false,
    }
}

/// All host handles held inside a native value point below the given heap
/// length.
pub open spec fn native_refs_ok(n: NativeValue, heap_len: int) -> bool
    decreases n,
{
    match n {
        NativeValue::List(v) => forall|i: int|
            0 <= i < v.len() ==> native_refs_ok(#[trigger] v[i], heap_len),
        NativeValue::Present(b) => native_refs_ok(*b, heap_len),
        NativeValue::Instance(h) => h.raw < heap_len,
        _ => true,
    }
}

/// `native_refs_ok` is preserved when the heap grows.
pub proof fn lemma_native_refs_ok_mono(n: NativeValue, l1: int, l2: int)
    requires
        native_refs_ok(n, l1),
        l1 <= l2,
    ensures
        native_refs_ok(n, l2),
    decreases n,
{
    match n {
        NativeValue::List(v) => {
            assert forall|i: int| 0 <= i < v.len() implies native_refs_ok(#[trigger] v[i], l2) by {
                lemma_native_refs_ok_mono(v[i], l1, l2);
            }
        },
        NativeValue::Present(b) => {
            lemma_native_refs_ok_mono(*b, l1, l2);
        },
        _ => {},
    }
}

/// The host handles held inside a native value, in left-to-right order:
/// what the collector's trace callback must report as reachable.
pub open spec fn payload_handles(n: NativeValue) -> Seq<HostValue>
    decreases n,
{
    match n {
        NativeValue::List(vs) => handles_in_list(vs@),
        NativeValue::Present(b) => payload_handles(*b),
        NativeValue::Instance(h) => seq![h],
        _ => Seq::empty(),
    }
}

/// The host handles held inside a sequence of native values, in order.
pub open spec fn handles_in_list(s: Seq<NativeValue>) -> Seq<HostValue>
    decreases s,
{
    if s.len() == 0 {
        Seq::empty()
    } else {
        handles_in_list(s.drop_last()) + payload_handles(s.last())
    }
}

/// A heap object is internally consistent with a heap of `heap_len` slots
/// and a class table of `classes_len` entries: every handle it holds points
/// into the heap, every class it names is registered, and an integer stays
/// within the range the host can produce.
pub open spec fn obj_ok(o: HostObject, heap_len: int, classes_len: int) -> bool {
    match o {
        HostObject::Int(i) => i64::MIN <= i <= u64::MAX,
        HostObject::Arr(elems) => forall|j: int|
            0 <= j < elems.len() ==> (#[trigger] elems[j]).raw < heap_len,
        HostObject::Data { class, payload } => {
            &&& class.raw < classes_len
            &&& (payload matches Some(p) ==> native_refs_ok(p.value, heap_len))
        },
        _ => true,
    }
}

/// `obj_ok` is preserved when the heap grows.
pub proof fn lemma_obj_ok_mono(o: HostObject, l1: int, l2: int, classes_len: int)
    requires
        obj_ok(o, l1, classes_len),
        l1 <= l2,
    ensures
        obj_ok(o, l2, classes_len),
{
    match o {
        HostObject::Data { class, payload } => {
            if payload is Some {
                lemma_native_refs_ok_mono(payload->0.value, l1, l2);
            }
        },
        _ => {},
    }
}

/// Copies a native value; the copy is `native_eq` to the original.
#[verifier::loop_isolation(false)]
pub fn copy_native(n: &NativeValue) -> (r: NativeValue)
    ensures
        native_eq(r, *n),
    decreases n,
{
    match n {
        NativeValue::Unit => NativeValue::Unit,
        NativeValue::Bool(b) => NativeValue::Bool(*b),
        NativeValue::Int32(x) => NativeValue::Int32(*x),
        NativeValue::Uint32(x) => NativeValue::Uint32(*x),
        NativeValue::Int64(x) => NativeValue::Int64(*x),
        NativeValue::Uint64(x) => NativeValue::Uint64(*x),
        NativeValue::Float64(x) => NativeValue::Float64(*x),
        NativeValue::Text(s) => NativeValue::Text(s.clone()),
        NativeValue::List(v) => {
            let mut out: Vec<NativeValue> = Vec::new();
            let mut i: usize = 0;
            while i < v.len()
                invariant
                    i <= v.len(),
                    out.len() == i,
                    forall|j: int| 0 <= j < i ==> native_eq(#[trigger] out[j], v[j]),
                decreases v.len() - i,
            {
                out.push(copy_native(&v[i]));
                i += 1;
            }
            NativeValue::List(out)
        },
        NativeValue::Absent => NativeValue::Absent,
        NativeValue::Present(b) => NativeValue::Present(Box::new(copy_native(&**b))),
        NativeValue::Instance(h) => NativeValue::Instance(*h),
    }
}

/// Appends the host handles held inside `n` to `out`, in order.
#[verifier::loop_isolation(false)]
pub fn collect_handles(n: &NativeValue, out: &mut Vec<HostValue>)
    ensures
        final(out)@ == old(out)@ + payload_handles(*n),
    decreases n,
{
    match n {
        NativeValue::List(vs) => {
            let mut i: usize = 0;
            while i < vs.len()
                invariant
                    i <= vs.len(),
                    out@ == old(out)@ + handles_in_list(vs@.take(i as int)),
                decreases vs.len() - i,
            {
                collect_handles(&vs[i], out);
                proof {
                    assert(vs@.take(i + 1).drop_last() =~= vs@.take(i as int));
                    assert(vs@.take(i + 1).last() == vs@[i as int]);
                    assert(out@ =~= old(out)@ + handles_in_list(vs@.take(i + 1)));
                }
                i += 1;
            }
            proof {
                assert(vs@.take(vs.len() as int) =~= vs@);
            }
        },
        NativeValue::Present(b) => {
            collect_handles(&**b, out);
        },
        NativeValue::Instance(h) => {
            out.push(*h);
            proof {
                assert(out@ =~= old(out)@ + payload_handles(*n));
            }
        },
        _ => {
            proof {
                assert(out@ =~= old(out)@ + payload_handles(*n));
            }
        },
    }
}

/// Copies a payload; the copy's value is `native_eq` to the original's.
pub fn copy_payload(p: &NativePayload) -> (r: NativePayload)
    ensures
        native_eq(r.value, p.value),
{
    NativePayload { value: copy_native(&p.value) }
}

} // verus!
