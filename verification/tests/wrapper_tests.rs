use helix::host::Vm;
use helix::values::{HostObject, NativePayload, NativeValue, TypeTag};
use helix::Class;

#[test]
fn wrap_and_unwrap_payload() {
    let mut vm = Vm::new();
    let class = Class::new(&mut vm, String::from("Counter"));
    let v = vm.wrap(
        class.inner(),
        Some(NativePayload { value: NativeValue::Int64(10) }),
    );
    assert_eq!(vm.type_tag(v), TypeTag::Data);
    assert_eq!(vm.class_of(v), Some(class.inner()));
    let p = vm.unwrap(v).expect("payload should be present");
    assert!(matches!(p.value, NativeValue::Int64(10)));
}

#[test]
fn release_once_then_noop() {
    let mut vm = Vm::new();
    let class = Class::new(&mut vm, String::from("Counter"));
    let v = vm.wrap(
        class.inner(),
        Some(NativePayload { value: NativeValue::Int64(10) }),
    );

    // The collector's callback hands the payload out exactly once.
    let first = vm.release(v);
    assert!(matches!(first, Some(NativePayload { value: NativeValue::Int64(10) })));
    assert!(vm.unwrap(v).is_none());

    // Releasing an already-empty slot is a no-op: nothing to free twice.
    let second = vm.release(v);
    assert!(second.is_none());
    assert!(matches!(
        vm.heap[v.raw],
        HostObject::Data { payload: None, .. }
    ));
}

#[test]
fn release_tolerates_never_initialized_slot() {
    let mut vm = Vm::new();
    let class = Class::new(&mut vm, String::from("Counter"));
    let v = vm.wrap(class.inner(), None);
    assert!(vm.unwrap(v).is_none());
    assert!(vm.release(v).is_none());
}

#[test]
fn reinitialization_releases_previous_payload_exactly_once() {
    let mut vm = Vm::new();
    let class = Class::new(&mut vm, String::from("Counter"));
    let v = vm.wrap(
        class.inner(),
        Some(NativePayload { value: NativeValue::Int64(1) }),
    );
    let previous = vm.replace_payload(
        v,
        Some(NativePayload { value: NativeValue::Int64(2) }),
    );
    assert!(matches!(previous, Some(NativePayload { value: NativeValue::Int64(1) })));
    let now = vm.unwrap(v).expect("replacement should be present");
    assert!(matches!(now.value, NativeValue::Int64(2)));
}

#[test]
fn class_registration_records_methods() {
    let mut vm = Vm::new();
    let base = Class::new(&mut vm, String::from("Calculator"));
    let sub = base.subclass(&mut vm, String::from("Scientific"));
    assert_eq!(vm.classes[sub.inner().raw].parent, Some(base.inner()));
    sub.define_method(&mut vm, String::from("multiply"), 2);
    let methods = &vm.classes[sub.inner().raw].methods;
    assert_eq!(methods.len(), 1);
    assert_eq!(methods[0].name, "multiply");
    assert_eq!(methods[0].arity, 2);
    assert!(!methods[0].singleton);
    assert_eq!(vm.class_name(sub.inner()), "Scientific");
}

#[test]
fn trace_reports_reachable_handles_in_order() {
    let mut vm = Vm::new();
    let class = Class::new(&mut vm, String::from("Holder"));
    let a = vm.from_i64(1);
    let b = vm.from_i64(2);
    let payload = NativePayload {
        value: NativeValue::List(vec![
            NativeValue::Instance(a),
            NativeValue::Int64(5),
            NativeValue::Present(Box::new(NativeValue::Instance(b))),
        ]),
    };
    let v = vm.wrap(class.inner(), Some(payload));
    assert_eq!(vm.trace(v), vec![a, b]);

    let empty = vm.wrap(class.inner(), None);
    assert!(vm.trace(empty).is_empty());
}
