//! Rendering of values and diagnostics as text for host-visible messages.
//!
//! Every renderer has a spec-level counterpart stating the exact character
//! sequence it produces, so the messages a failed coercion raises are
//! pinned down, not just produced.

use vstd::prelude::*;

use crate::coercions::CoercionFailure;
use crate::host::Vm;
use crate::values::{HostObject, HostValue, NativeType, TypeTag};

verus! {

broadcast use vstd::std_specs::vec::group_vec_axioms;

/// The decimal digit character for `d` (meaningful for `d < 10`).
pub open spec fn digit_char(d: nat) -> char {
    if d == 0 {
        '0'
    } else if d == 1 {
        '1'
    } else if d == 2 {
        '2'
    } else if d == 3 {
        '3'
    } else if d == 4 {
        '4'
    } else if d == 5 {
        '5'
    } else if d == 6 {
        '6'
    } else if d == 7 {
        '7'
    } else if d == 8 {
        '8'
    } else {
        '9'
    }
}

/// The decimal digits of `n`, most significant first.
pub open spec fn dec_digits(n: nat) -> Seq<char>
    decreases n,
{
    if n < 10 {
        seq![digit_char(n)]
    } else {
        dec_digits(n / 10) + seq![digit_char(n % 10)]
    }
}

/// The one-character string for the decimal digit `d`.
fn digit_str(d: u64) -> (r: &'static str)
    requires
        d < 10,
    ensures
        r@ == seq![digit_char(d as nat)],
{
    proof {
        reveal_strlit("0");
        reveal_strlit("1");
        reveal_strlit("2");
        reveal_strlit("3");
        reveal_strlit("4");
        reveal_strlit("5");
        reveal_strlit("6");
        reveal_strlit("7");
        reveal_strlit("8");
        reveal_strlit("9");
    }
    match d {
        0 => "0",
        1 => "1",
        2 => "2",
        3 => "3",
        4 => "4",
        5 => "5",
        6 => "6",
        7 => "7",
        8 => "8",
        _ => "9",
    }
}

/// Renders `n` in decimal.
pub fn decimal(n: u64) -> (r: String)
    ensures
        r@ == dec_digits(n as nat),
    decreases n,
{
    if n < 10 {
        String::from_str(digit_str(n))
    } else {
        let mut s = decimal(n / 10);
        s.append(digit_str(n % 10));
        s
    }
}

/// The name under which a dynamic kind appears in messages.
pub open spec fn tag_text(tag: TypeTag) -> Seq<char> {
    match tag {
        TypeTag::Nil => "nil"@,
        TypeTag::True => "true"@,
        TypeTag::False => "false"@,
        TypeTag::Fixnum => "Integer"@,
        TypeTag::Bignum => "Integer"@,
        TypeTag::Float => "Float"@,
        TypeTag::Str => "String"@,
        TypeTag::Arr => "Array"@,
        TypeTag::Data => "Object"@,
    }
}

/// Renders a dynamic kind's name.
pub fn tag_name(tag: TypeTag) -> (r: &'static str)
    ensures
        r@ == tag_text(tag),
{
    match tag {
        TypeTag::Nil => "nil",
        TypeTag::True => "true",
        TypeTag::False => "false",
        TypeTag::Fixnum => "Integer",
        TypeTag::Bignum => "Integer",
        TypeTag::Float => "Float",
        TypeTag::Str => "String",
        TypeTag::Arr => "Array",
        TypeTag::Data => "Object",
    }
}

/// The name of the class `c` in `vm` (empty for an unregistered handle).
pub open spec fn class_text(vm: Vm, c: crate::values::ClassHandle) -> Seq<char> {
    if c.raw < vm.classes.len() {
        vm.classes[c.raw as int].name@
    } else {
        Seq::empty()
    }
}

/// The name under which a native type appears in messages.
pub open spec fn type_text(vm: Vm, t: NativeType) -> Seq<char>
    decreases t,
{
    match t {
        NativeType::Unit => "nil"@,
        NativeType::Bool => "bool"@,
        NativeType::Int32 => "i32"@,
        NativeType::Uint32 => "u32"@,
        NativeType::Int64 => "i64"@,
        NativeType::Uint64 => "u64"@,
        NativeType::Float64 => "f64"@,
        NativeType::Text => "String"@,
        NativeType::List(et) => "Vec<"@ + type_text(vm, *et) + ">"@,
        NativeType::Maybe(et) => "Option<"@ + type_text(vm, *et) + ">"@,
        NativeType::Instance(c) => class_text(vm, c),
    }
}

/// Renders a native type's name.
pub fn type_label(vm: &Vm, t: &NativeType) -> (r: String)
    requires
        vm.wf(),
    ensures
        r@ == type_text(*vm, *t),
    decreases t,
{
    match t {
        NativeType::Unit => String::from_str("nil"),
        NativeType::Bool => String::from_str("bool"),
        NativeType::Int32 => String::from_str("i32"),
        NativeType::Uint32 => String::from_str("u32"),
        NativeType::Int64 => String::from_str("i64"),
        NativeType::Uint64 => String::from_str("u64"),
        NativeType::Float64 => String::from_str("f64"),
        NativeType::Text => String::from_str("String"),
        NativeType::List(et) => {
            let mut s = String::from_str("Vec<");
            let inner = type_label(vm, &**et);
            s.append(inner.as_str());
            s.append(">");
            s
        },
        NativeType::Maybe(et) => {
            let mut s = String::from_str("Option<");
            let inner = type_label(vm, &**et);
            s.append(inner.as_str());
            s.append(">");
            s
        },
        NativeType::Instance(c) => {
            if c.raw < vm.classes.len() {
                vm.class_name(*c)
            } else {
                String::new()
            }
        },
    }
}

/// The message text for a coercion failure, mirroring the host's own
/// "no implicit conversion" phrasing.
pub open spec fn failure_text(vm: Vm, f: CoercionFailure) -> Seq<char>
    decreases f,
{
    match f {
        CoercionFailure::WrongType { expected, actual } => "no implicit conversion of "@
            + tag_text(actual) + " into "@ + type_text(vm, expected),
        CoercionFailure::OutOfRange { expected } => "integer out of range for "@ + type_text(
            vm,
            expected,
        ),
        CoercionFailure::WrongClass { expected, actual } => "no implicit conversion of "@
            + class_text(vm, actual) + " into "@ + class_text(vm, expected),
        CoercionFailure::UninitializedObject { class } => "uninitialized "@ + class_text(
            vm,
            class,
        ),
        CoercionFailure::Element { index, cause } => "failed to convert element "@ + dec_digits(
            index as nat,
        ) + ": "@ + failure_text(vm, *cause),
    }
}

/// Renders the message for a coercion failure.
pub fn render_failure(vm: &Vm, f: &CoercionFailure) -> (r: String)
    requires
        vm.wf(),
    ensures
        r@ == failure_text(*vm, *f),
    decreases f,
{
    match f {
        CoercionFailure::WrongType { expected, actual } => {
            let mut s = String::from_str("no implicit conversion of ");
            s.append(tag_name(*actual));
            s.append(" into ");
            let tn = type_label(vm, expected);
            s.append(tn.as_str());
            s
        },
        CoercionFailure::OutOfRange { expected } => {
            let mut s = String::from_str("integer out of range for ");
            let tn = type_label(vm, expected);
            s.append(tn.as_str());
            s
        },
        CoercionFailure::WrongClass { expected, actual } => {
            let mut s = String::from_str("no implicit conversion of ");
            let an = class_handle_name(vm, *actual);
            s.append(an.as_str());
            s.append(" into ");
            let en = class_handle_name(vm, *expected);
            s.append(en.as_str());
            s
        },
        CoercionFailure::UninitializedObject { class } => {
            let mut s = String::from_str("uninitialized ");
            let cn = class_handle_name(vm, *class);
            s.append(cn.as_str());
            s
        },
        CoercionFailure::Element { index, cause } => {
            let mut s = String::from_str("failed to convert element ");
            let d = decimal(*index as u64);
            s.append(d.as_str());
            s.append(": ");
            let inner = render_failure(vm, &**cause);
            s.append(inner.as_str());
            s
        },
    }
}

/// Renders the name of a class handle, or the empty string when it is not
/// registered.
fn class_handle_name(vm: &Vm, c: crate::values::ClassHandle) -> (r: String)
    requires
        vm.wf(),
    ensures
        r@ == class_text(*vm, c),
{
    if c.raw < vm.classes.len() {
        vm.class_name(c)
    } else {
        String::new()
    }
}

/// The display text of a host value: exact for the simple kinds, a
/// placeholder for floats and aggregates, whose rendering the host owns.
pub open spec fn inspect_text(vm: Vm, v: HostValue) -> Seq<char> {
    match vm.obj_of(v) {
        HostObject::Nil => "nil"@,
        HostObject::Bool(b) => if b {
            "true"@
        } else {
            "false"@
        },
        HostObject::Int(i) => if i >= 0 {
            dec_digits(i as nat)
        } else {
            "-"@ + dec_digits((-i) as nat)
        },
        HostObject::Float(_) => "<Float>"@,
        HostObject::Str(s) => "\""@ + s@ + "\""@,
        HostObject::Arr(_) => "<Array>"@,
        HostObject::Data { class, .. } => "#<"@ + class_text(vm, class) + ">"@,
    }
}

/// Renders a host value for a message, standing in for the host's own
/// inspection primitive.
pub fn inspect(vm: &Vm, v: HostValue) -> (r: String)
    requires
        vm.wf(),
        vm.valid_handle(v),
    ensures
        r@ == inspect_text(*vm, v),
{
    match &vm.heap[v.raw] {
        HostObject::Nil => String::from_str("nil"),
        HostObject::Bool(b) => {
            if *b {
                String::from_str("true")
            } else {
                String::from_str("false")
            }
        },
        HostObject::Int(i) => {
            if *i >= 0 {
                decimal(*i as u64)
            } else {
                let mut s = String::from_str("-");
                let d = decimal((-*i) as u64);
                s.append(d.as_str());
                s
            }
        },
        HostObject::Float(_) => String::from_str("<Float>"),
        HostObject::Str(t) => {
            let mut s = String::from_str("\"");
            s.append(t.as_str());
            s.append("\"");
            s
        },
        HostObject::Arr(_) => String::from_str("<Array>"),
        HostObject::Data { class, .. } => {
            let mut s = String::from_str("#<");
            let cn = class_handle_name(vm, *class);
            s.append(cn.as_str());
            s.append(">");
            s
        },
    }
}

/// The message for a value that was not of the expected type:
/// "Expected ..., got ...".
pub open spec fn invalid_text(vm: Vm, v: HostValue, expected: Seq<char>) -> Seq<char> {
    "Expected "@ + expected + ", got "@ + inspect_text(vm, v)
}

/// Renders the "Expected ..., got ..." message for a value of the wrong
/// type.
pub fn invalid(vm: &Vm, v: HostValue, expected: &str) -> (r: String)
    requires
        vm.wf(),
        vm.valid_handle(v),
    ensures
        r@ == invalid_text(*vm, v, expected@),
{
    let mut s = String::from_str("Expected ");
    s.append(expected);
    s.append(", got ");
    let d = inspect(vm, v);
    s.append(d.as_str());
    s
}

} // verus!
