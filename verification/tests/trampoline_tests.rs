use helix::bridge::{deliver, Finalized, HostOutcome, MethodOutcome};
use helix::errors::ExceptionInfo;
use helix::host::{HostStep, Vm};
use helix::trampoline::{invoke, MethodSig, RubyMethod};
use helix::values::{ClassHandle, HostObject, HostValue, NativePayload, NativeType, NativeValue};
use helix::Class;

const RUNTIME_ERROR: ClassHandle = ClassHandle { raw: 1 };
const TYPE_ERROR: ClassHandle = ClassHandle { raw: 2 };

fn read_string(vm: &Vm, v: HostValue) -> String {
    match &vm.heap[v.raw] {
        HostObject::Str(s) => s.clone(),
        _ => panic!("not a host string"),
    }
}

/// multiply(a: f64, b: f64) -> f64, as a user would register it.
struct Multiply;

impl RubyMethod for Multiply {
    fn call(
        &self,
        _vm: &mut Vm,
        _receiver: Option<NativeValue>,
        args: Vec<NativeValue>,
    ) -> MethodOutcome {
        let a = match args[0] {
            NativeValue::Float64(bits) => f64::from_bits(bits),
            _ => unreachable!(),
        };
        let b = match args[1] {
            NativeValue::Float64(bits) => f64::from_bits(bits),
            _ => unreachable!(),
        };
        MethodOutcome::Done(NativeValue::Float64((a * b).to_bits()))
    }
}

/// A body that fails with a structured native error.
struct Failing;

impl RubyMethod for Failing {
    fn call(
        &self,
        vm: &mut Vm,
        _receiver: Option<NativeValue>,
        _args: Vec<NativeValue>,
    ) -> MethodOutcome {
        MethodOutcome::Failed(ExceptionInfo::with_message(vm, "boom"))
    }
}

/// A body whose callback into the host raises; it propagates the captured
/// jump.
struct CallsBack;

impl RubyMethod for CallsBack {
    fn call(
        &self,
        vm: &mut Vm,
        _receiver: Option<NativeValue>,
        _args: Vec<NativeValue>,
    ) -> MethodOutcome {
        let message = vm.from_text("interrupted");
        match vm.protect(HostStep::Raises { class: RUNTIME_ERROR, message }) {
            Ok(_) => unreachable!(),
            Err(jump) => MethodOutcome::Jumped(jump),
        }
    }
}

/// An instance method that reads its wrapped receiver's payload.
struct ReadCounter;

impl RubyMethod for ReadCounter {
    fn call(
        &self,
        vm: &mut Vm,
        receiver: Option<NativeValue>,
        _args: Vec<NativeValue>,
    ) -> MethodOutcome {
        let handle = match receiver {
            Some(NativeValue::Instance(h)) => h,
            _ => unreachable!(),
        };
        match vm.unwrap(handle) {
            Some(NativePayload { value }) => MethodOutcome::Done(value),
            None => MethodOutcome::Failed(ExceptionInfo::with_message(vm, "no payload")),
        }
    }
}

#[test]
fn multiply_three_by_four_returns_twelve() {
    let mut vm = Vm::new();
    let sig = MethodSig {
        receiver: None,
        args: vec![NativeType::Float64, NativeType::Float64],
    };
    let a = vm.from_f64_bits(3.0f64.to_bits());
    let b = vm.from_f64_bits(4.0f64.to_bits());
    let resolution = invoke(&mut vm, &sig, None, &vec![a, b], &Multiply);
    match resolution {
        Finalized::Return(v) => match vm.heap[v.raw] {
            HostObject::Float(bits) => assert_eq!(f64::from_bits(bits), 12.0),
            _ => panic!("expected a float result"),
        },
        _ => panic!("expected a returned value"),
    }
}

#[test]
fn multiply_with_string_argument_raises_type_error_naming_the_type() {
    let mut vm = Vm::new();
    let sig = MethodSig {
        receiver: None,
        args: vec![NativeType::Float64, NativeType::Float64],
    };
    let a = vm.from_text("three");
    let b = vm.from_f64_bits(4.0f64.to_bits());
    let resolution = invoke(&mut vm, &sig, None, &vec![a, b], &Multiply);
    match resolution {
        Finalized::Raise { class, message } => {
            assert_eq!(class, TYPE_ERROR);
            let text = read_string(&vm, message);
            assert_eq!(text, "no implicit conversion of String into f64");
            assert!(text.contains("f64"));
        }
        _ => panic!("expected a type-error raise"),
    }
}

#[test]
fn uninitialized_receiver_raises_type_error_not_a_fault() {
    let mut vm = Vm::new();
    let class = Class::new(&mut vm, String::from("Counter"));
    let obj = vm.wrap(class.inner(), None);
    let sig = MethodSig { receiver: Some(class.inner()), args: vec![] };
    let resolution = invoke(&mut vm, &sig, Some(obj), &vec![], &ReadCounter);
    match resolution {
        Finalized::Raise { class: c, message } => {
            assert_eq!(c, TYPE_ERROR);
            assert_eq!(read_string(&vm, message), "uninitialized Counter");
        }
        _ => panic!("expected a type-error raise"),
    }
}

#[test]
fn initialized_receiver_reaches_the_body() {
    let mut vm = Vm::new();
    let class = Class::new(&mut vm, String::from("Counter"));
    let obj = vm.wrap(
        class.inner(),
        Some(NativePayload { value: NativeValue::Int64(99) }),
    );
    let sig = MethodSig { receiver: Some(class.inner()), args: vec![] };
    let resolution = invoke(&mut vm, &sig, Some(obj), &vec![], &ReadCounter);
    match resolution {
        Finalized::Return(v) => assert!(matches!(vm.heap[v.raw], HostObject::Int(99))),
        _ => panic!("expected a returned value"),
    }
}

#[test]
fn native_failure_surfaces_as_runtime_error_with_original_message() {
    let mut vm = Vm::new();
    let sig = MethodSig { receiver: None, args: vec![] };
    let resolution = invoke(&mut vm, &sig, None, &vec![], &Failing);
    match resolution {
        Finalized::Raise { class, message } => {
            assert_eq!(class, RUNTIME_ERROR);
            assert_eq!(read_string(&vm, message), "boom");
            match deliver(&vm, resolution) {
                HostOutcome::Exception(e) => {
                    assert_eq!(e.class, RUNTIME_ERROR);
                    assert_eq!(e.message, message);
                }
                _ => panic!("expected an exception"),
            }
        }
        _ => panic!("expected a raise"),
    }
}

#[test]
fn host_jump_propagates_verbatim() {
    let mut vm = Vm::new();
    let sig = MethodSig { receiver: None, args: vec![] };
    let resolution = invoke(&mut vm, &sig, None, &vec![], &CallsBack);
    match resolution {
        Finalized::Rejump(jump) => {
            assert!(!jump.is_empty());
            // Delivery re-triggers the captured jump: the host observes the
            // original exception, message value identity included.
            let original = vm.jump_info(jump);
            match deliver(&vm, resolution) {
                HostOutcome::Exception(e) => {
                    assert_eq!(e, original);
                    assert_eq!(e.class, RUNTIME_ERROR);
                    assert_eq!(read_string(&vm, e.message), "interrupted");
                }
                _ => panic!("expected an exception"),
            }
        }
        _ => panic!("expected a re-triggered jump, with no native wrapping"),
    }
}

#[test]
fn arity_is_fixed_at_registration() {
    let sig = MethodSig {
        receiver: None,
        args: vec![NativeType::Float64, NativeType::Float64],
    };
    assert_eq!(sig.arity(), 2);
}
