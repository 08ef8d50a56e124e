use helix::errors::{Error, ErrorMessage, ExceptionInfo, PanicPayload, ToError};
use helix::host::{HostStep, RubyException, Vm};
use helix::values::{ClassHandle, HostObject, HostValue, TypeTag};
use helix::{check_version, Class, Symbol};

const RUNTIME_ERROR: ClassHandle = ClassHandle { raw: 1 };
const TYPE_ERROR: ClassHandle = ClassHandle { raw: 2 };

fn read_string(vm: &Vm, v: HostValue) -> String {
    match &vm.heap[v.raw] {
        HostObject::Str(s) => s.clone(),
        _ => panic!("not a host string"),
    }
}

#[test]
fn ruby_exception_tokens() {
    assert!(RubyException::new().is_empty());
    assert!(RubyException::empty().is_empty());
    assert_eq!(RubyException::new().state(), 0);
    let e = RubyException::for_tag(6);
    assert!(!e.is_empty());
    assert_eq!(e.state(), 6);
}

#[test]
fn fresh_vm_has_singletons_and_builtin_classes() {
    let vm = Vm::new();
    let nil = vm.nil();
    assert_eq!(vm.type_tag(nil), TypeTag::Nil);
    assert_eq!(vm.type_tag(vm.bool_value(true)), TypeTag::True);
    assert_eq!(vm.type_tag(vm.bool_value(false)), TypeTag::False);
    assert_eq!(vm.class_name(ClassHandle { raw: 0 }), "Object");
    assert_eq!(vm.class_name(RUNTIME_ERROR), "RuntimeError");
    assert_eq!(vm.class_name(TYPE_ERROR), "TypeError");
    assert!(vm.jumps.is_empty());
}

#[test]
fn type_queries() {
    let mut vm = Vm::new();
    let v = vm.from_text("abc");
    assert!(vm.is_type(v, TypeTag::Str));
    assert!(!vm.is_type(v, TypeTag::Arr));
    assert_eq!(vm.class_of(v), None);
    let a = vm.from_elements(vec![v]);
    assert_eq!(vm.array_len(a), 1);
    assert_eq!(vm.array_get(a, 0), v);
}

#[test]
fn protected_invocation_returns_the_value_when_nothing_is_raised() {
    let mut vm = Vm::new();
    let v = vm.from_i64(5);
    assert_eq!(vm.protect(HostStep::Returns(v)), Ok(v));
    assert!(vm.jumps.is_empty());
}

#[test]
fn protected_invocation_captures_a_raise_as_a_token() {
    let mut vm = Vm::new();
    let message = vm.from_text("stop");
    let r = vm.protect(HostStep::Raises { class: RUNTIME_ERROR, message });
    let jump = r.expect_err("a raise must be intercepted");
    assert!(!jump.is_empty());
    let captured = vm.jump_info(jump);
    assert_eq!(captured.class, RUNTIME_ERROR);
    assert_eq!(captured.message, message);
}

#[test]
fn error_constructors_and_raise() {
    let mut vm = Vm::new();
    let e = Error::with_c_string("static trouble");
    assert_eq!(e.class.inner(), RUNTIME_ERROR);
    assert_eq!(e.text(&vm), Some(String::from("static trouble")));

    let jump = e.raise(&mut vm);
    let captured = vm.jump_info(jump);
    assert_eq!(captured.class, RUNTIME_ERROR);
    assert_eq!(read_string(&vm, captured.message), "static trouble");

    let mv = vm.from_text("dynamic trouble");
    let d = Error::with_value(mv).with_class(Class(TYPE_ERROR));
    assert_eq!(d.class.inner(), TYPE_ERROR);
    assert_eq!(d.text(&vm), Some(String::from("dynamic trouble")));
    assert!(matches!(d.message, ErrorMessage::Dynamic(v) if v == mv));
}

#[test]
fn to_error_conversions() {
    let mut vm = Vm::new();
    let e1 = "oops".to_error(&mut vm);
    assert_eq!(e1.class.inner(), RUNTIME_ERROR);
    assert_eq!(e1.text(&vm), Some(String::from("oops")));

    let e2 = String::from("owned oops").to_error(&mut vm);
    assert_eq!(e2.text(&vm), Some(String::from("owned oops")));

    let e3 = e1.to_error(&mut vm);
    assert_eq!(e3.class.inner(), RUNTIME_ERROR);
}

#[test]
fn error_from_any_classifies_payloads() {
    let mut vm = Vm::new();
    let s = Error::from_any(&mut vm, PanicPayload::Literal("bad"));
    assert_eq!(s.text(&vm), Some(String::from("bad")));

    let o = Error::from_any(&mut vm, PanicPayload::Opaque);
    assert_eq!(o.text(&vm), Some(String::from("unknown native failure")));
}

#[test]
fn exception_info_from_any_classifies_payloads() {
    let mut vm = Vm::new();
    let info = ExceptionInfo::type_error(&mut vm, "wrong kind");
    assert_eq!(info.exception.inner(), TYPE_ERROR);
    assert_eq!(read_string(&vm, info.message()), "wrong kind");

    // An exception the native code meant to raise passes through verbatim.
    let again = ExceptionInfo::from_any(&mut vm, PanicPayload::Raised(info));
    assert_eq!(again, info);

    let t = ExceptionInfo::from_any(&mut vm, PanicPayload::Text(String::from("blew up")));
    assert_eq!(t.exception.inner(), RUNTIME_ERROR);
    assert_eq!(read_string(&vm, t.message()), "blew up");

    let u = ExceptionInfo::from_any(&mut vm, PanicPayload::Opaque);
    assert_eq!(read_string(&vm, u.message()), "unknown native failure");

    let jump = u.raise(&mut vm);
    assert_eq!(vm.jump_info(jump).message, u.message());
}

#[test]
fn symbols_and_versions() {
    let s = Symbol::new(String::from("multiply"));
    assert_eq!(s.0, "multiply");
    assert!(check_version("1.2.3", "1.2.3"));
    assert!(!check_version("1.2.3", "1.2.4"));
}

#[test]
fn raising_a_dynamic_message_keeps_its_identity() {
    let mut vm = Vm::new();
    let mv = vm.from_text("already hosted");
    let e = Error::with_value(mv);
    let jump = e.raise(&mut vm);
    let captured = vm.jump_info(jump);
    // The very same host value, not a copy.
    assert_eq!(captured.message, mv);
}
