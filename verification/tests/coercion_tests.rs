use helix::coercions::{
    to_checked, to_host, to_native, CheckedValue, CoercionFailure, ToRuby, ToRust,
    UncheckedValue,
};
use helix::host::Vm;
use helix::values::NativePayload;
use helix::Class;
use helix::text::{decimal, inspect, invalid, render_failure};
use helix::values::{HostObject, HostValue, NativeType, NativeValue, TypeTag};

fn read_string(vm: &Vm, v: HostValue) -> String {
    match &vm.heap[v.raw] {
        HostObject::Str(s) => s.clone(),
        _ => panic!("not a host string"),
    }
}

#[test]
fn i64_round_trip() {
    let mut vm = Vm::new();
    let v = vm.from_i64(-42);
    assert_eq!(vm.type_tag(v), TypeTag::Fixnum);
    let t = NativeType::Int64;
    let ck = to_checked(&vm, v, &t).unwrap();
    let n = to_native(&vm, &ck);
    assert!(matches!(n, NativeValue::Int64(-42)));
    let v2 = to_host(&mut vm, &n);
    assert_eq!(vm.type_tag(v2), TypeTag::Fixnum);
    assert!(matches!(vm.heap[v2.raw], HostObject::Int(-42)));
}

#[test]
fn u64_round_trip_large() {
    let mut vm = Vm::new();
    let big: u64 = u64::MAX - 1;
    let v = vm.from_u64(big);
    assert_eq!(vm.type_tag(v), TypeTag::Bignum);
    let t = NativeType::Uint64;
    let ck = to_checked(&vm, v, &t).unwrap();
    let n = to_native(&vm, &ck);
    assert!(matches!(n, NativeValue::Uint64(x) if x == big));
    let v2 = to_host(&mut vm, &n);
    assert_eq!(vm.type_tag(v2), TypeTag::Bignum);
    assert!(matches!(vm.heap[v2.raw], HostObject::Int(i) if i == big as i128));
}

#[test]
fn f64_round_trip() {
    let mut vm = Vm::new();
    let bits = 3.5f64.to_bits();
    let v = vm.from_f64_bits(bits);
    assert_eq!(vm.type_tag(v), TypeTag::Float);
    let t = NativeType::Float64;
    let ck = to_checked(&vm, v, &t).unwrap();
    let n = to_native(&vm, &ck);
    assert!(matches!(n, NativeValue::Float64(b) if b == bits));
    let v2 = to_host(&mut vm, &n);
    assert_eq!(vm.type_tag(v2), TypeTag::Float);
    match vm.heap[v2.raw] {
        HostObject::Float(b) => assert_eq!(f64::from_bits(b), 3.5),
        _ => panic!("expected a float"),
    }
}

#[test]
fn bool_round_trip_uses_singletons() {
    let mut vm = Vm::new();
    let v = vm.bool_value(true);
    assert_eq!(vm.type_tag(v), TypeTag::True);
    let t = NativeType::Bool;
    let ck = to_checked(&vm, v, &t).unwrap();
    let n = to_native(&vm, &ck);
    assert!(matches!(n, NativeValue::Bool(true)));
    let v2 = to_host(&mut vm, &n);
    assert_eq!(v2.raw, 1);
    assert_eq!(vm.type_tag(v2), TypeTag::True);
}

#[test]
fn string_round_trip() {
    let mut vm = Vm::new();
    let v = vm.from_text("hello");
    let t = NativeType::Text;
    let ck = to_checked(&vm, v, &t).unwrap();
    let n = to_native(&vm, &ck);
    assert!(matches!(&n, NativeValue::Text(s) if s == "hello"));
    let v2 = to_host(&mut vm, &n);
    assert_eq!(read_string(&vm, v2), "hello");
}

#[test]
fn sequence_round_trip_preserves_order() {
    let mut vm = Vm::new();
    let s = NativeValue::List(vec![
        NativeValue::Int64(3),
        NativeValue::Int64(1),
        NativeValue::Int64(2),
    ]);
    let v = to_host(&mut vm, &s);
    assert_eq!(vm.type_tag(v), TypeTag::Arr);
    let t = NativeType::List(Box::new(NativeType::Int64));
    let ck = to_checked(&vm, v, &t).unwrap();
    let n = to_native(&vm, &ck);
    match n {
        NativeValue::List(items) => {
            assert_eq!(items.len(), 3);
            assert!(matches!(items[0], NativeValue::Int64(3)));
            assert!(matches!(items[1], NativeValue::Int64(1)));
            assert!(matches!(items[2], NativeValue::Int64(2)));
        }
        _ => panic!("expected a list"),
    }
}

#[test]
fn nested_sequence_round_trip() {
    let mut vm = Vm::new();
    let s = NativeValue::List(vec![
        NativeValue::List(vec![NativeValue::Uint32(1)]),
        NativeValue::List(vec![]),
    ]);
    let v = to_host(&mut vm, &s);
    let t = NativeType::List(Box::new(NativeType::List(Box::new(NativeType::Uint32))));
    let ck = to_checked(&vm, v, &t).unwrap();
    let n = to_native(&vm, &ck);
    match n {
        NativeValue::List(items) => {
            assert_eq!(items.len(), 2);
            assert!(matches!(&items[0], NativeValue::List(inner) if inner.len() == 1));
            assert!(matches!(&items[1], NativeValue::List(inner) if inner.is_empty()));
        }
        _ => panic!("expected a list"),
    }
}

#[test]
fn wrong_type_is_reported_not_crashed() {
    let mut vm = Vm::new();
    let v = vm.from_text("3");
    let t = NativeType::Int64;
    match to_checked(&vm, v, &t) {
        Err(CoercionFailure::WrongType { expected, actual }) => {
            assert!(matches!(expected, NativeType::Int64));
            assert_eq!(actual, TypeTag::Str);
        }
        _ => panic!("expected a wrong-type failure"),
    }
}

#[test]
fn out_of_range_is_rejected_not_truncated() {
    let mut vm = Vm::new();
    let v = vm.from_i64(-1);
    let t = NativeType::Uint64;
    match to_checked(&vm, v, &t) {
        Err(CoercionFailure::OutOfRange { expected }) => {
            assert!(matches!(expected, NativeType::Uint64));
        }
        _ => panic!("expected an out-of-range failure"),
    }
    let w = vm.from_i64(i64::from(i32::MAX) + 1);
    let t32 = NativeType::Int32;
    assert!(matches!(
        to_checked(&vm, w, &t32),
        Err(CoercionFailure::OutOfRange { .. })
    ));
}

#[test]
fn first_failing_element_is_reported() {
    let mut vm = Vm::new();
    let a = vm.from_i64(1);
    let b = vm.from_text("x");
    let c = vm.from_text("y");
    let arr = vm.from_elements(vec![a, b, c]);
    let t = NativeType::List(Box::new(NativeType::Int64));
    match to_checked(&vm, arr, &t) {
        Err(CoercionFailure::Element { index, cause }) => {
            assert_eq!(index, 1);
            assert!(matches!(*cause, CoercionFailure::WrongType { .. }));
        }
        _ => panic!("expected an element failure"),
    }
}

#[test]
fn optional_maps_nil_to_absent() {
    let mut vm = Vm::new();
    let nil = vm.nil();
    let t = NativeType::Maybe(Box::new(NativeType::Int64));
    let ck = to_checked(&vm, nil, &t).unwrap();
    assert!(matches!(to_native(&vm, &ck), NativeValue::Absent));

    let five = vm.from_i64(5);
    let ck2 = to_checked(&vm, five, &t).unwrap();
    match to_native(&vm, &ck2) {
        NativeValue::Present(inner) => assert!(matches!(*inner, NativeValue::Int64(5))),
        _ => panic!("expected a present value"),
    }

    let s = vm.from_text("no");
    assert!(to_checked(&vm, s, &t).is_err());
}

#[test]
fn unit_encodes_to_nil() {
    let mut vm = Vm::new();
    let v = to_host(&mut vm, &NativeValue::Unit);
    assert_eq!(v.raw, 0);
    assert_eq!(vm.type_tag(v), TypeTag::Nil);
}

#[test]
fn typed_traits_round_trip() {
    let mut vm = Vm::new();
    let v = 7i64.to_ruby(&mut vm);
    let ck: CheckedValue<i64> = UncheckedValue::<i64>::to_checked(v, &vm).unwrap();
    let x: i64 = ck.to_rust(&vm);
    assert_eq!(x, 7);

    let sv = String::from("abc").to_ruby(&mut vm);
    let sck: CheckedValue<String> = UncheckedValue::<String>::to_checked(sv, &vm).unwrap();
    let s: String = sck.to_rust(&vm);
    assert_eq!(s, "abc");

    let bv = false.to_ruby(&mut vm);
    let bck: CheckedValue<bool> = UncheckedValue::<bool>::to_checked(bv, &vm).unwrap();
    assert!(!bck.to_rust(&vm));

    assert!(UncheckedValue::<u32>::to_checked(sv, &vm).is_err());
}

#[test]
fn decimal_renders_exact_digits() {
    assert_eq!(decimal(0), "0");
    assert_eq!(decimal(7), "7");
    assert_eq!(decimal(12345), "12345");
    assert_eq!(decimal(u64::MAX), "18446744073709551615");
}

#[test]
fn failure_messages_name_expected_and_actual() {
    let mut vm = Vm::new();
    let v = vm.from_text("3");
    let t = NativeType::Int64;
    let f = to_checked(&vm, v, &t).unwrap_err();
    assert_eq!(
        render_failure(&vm, &f),
        "no implicit conversion of String into i64"
    );

    let a = vm.from_i64(1);
    let b = vm.from_text("x");
    let arr = vm.from_elements(vec![a, b]);
    let lt = NativeType::List(Box::new(NativeType::Int64));
    let ef = to_checked(&vm, arr, &lt).unwrap_err();
    assert_eq!(
        render_failure(&vm, &ef),
        "failed to convert element 1: no implicit conversion of String into i64"
    );
}

#[test]
fn inspect_renders_simple_values() {
    let mut vm = Vm::new();
    let nil = vm.nil();
    assert_eq!(inspect(&vm, nil), "nil");
    let yes = vm.bool_value(true);
    assert_eq!(inspect(&vm, yes), "true");
    let n = vm.from_i64(42);
    assert_eq!(inspect(&vm, n), "42");
    let m = vm.from_i64(-7);
    assert_eq!(inspect(&vm, m), "-7");
    let s = vm.from_text("hi");
    assert_eq!(inspect(&vm, s), "\"hi\"");
}

#[test]
fn invalid_names_expected_and_got() {
    let mut vm = Vm::new();
    let s = vm.from_text("3");
    assert_eq!(invalid(&vm, s, "f64"), "Expected f64, got \"3\"");
}

#[test]
fn wrong_class_is_reported() {
    let mut vm = Vm::new();
    let wanted = Class::new(&mut vm, String::from("Wanted"));
    let other = Class::new(&mut vm, String::from("Other"));
    let obj = vm.wrap(
        other.inner(),
        Some(NativePayload { value: NativeValue::Unit }),
    );
    let t = NativeType::Instance(wanted.inner());
    match to_checked(&vm, obj, &t) {
        Err(CoercionFailure::WrongClass { expected, actual }) => {
            assert_eq!(expected, wanted.inner());
            assert_eq!(actual, other.inner());
        }
        _ => panic!("expected a wrong-class failure"),
    }
    let f = to_checked(&vm, obj, &t).unwrap_err();
    assert_eq!(
        render_failure(&vm, &f),
        "no implicit conversion of Other into Wanted"
    );
}

#[test]
fn uninitialized_object_is_a_distinct_failure() {
    let mut vm = Vm::new();
    let class = Class::new(&mut vm, String::from("Thing"));
    let obj = vm.wrap(class.inner(), None);
    let t = NativeType::Instance(class.inner());
    match to_checked(&vm, obj, &t) {
        Err(CoercionFailure::UninitializedObject { class: c }) => {
            assert_eq!(c, class.inner());
        }
        _ => panic!("expected an uninitialized-object failure"),
    }
}
