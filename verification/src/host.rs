//! A model of the host virtual machine's primitive surface.
//!
//! `Vm` owns a heap of tagged values, a class table, and a table of captured
//! non-local jumps. The methods of `Vm` are the fixed set of host primitives
//! the bridge depends on: value construction and inspection, type-tag
//! queries, class and method registration, object wrapping and payload
//! release, protected invocation, and exception raising.

use vstd::prelude::*;

use crate::values::{
    ClassHandle, HostObject, HostValue, NativePayload, TypeTag, collect_handles, copy_payload,
    lemma_obj_ok_mono, native_eq, native_refs_ok, obj_ok, payload_handles, tag_of,
};

verus! {

broadcast use vstd::std_specs::vec::group_vec_axioms;

/// An opaque token for a host-side non-local jump that was intercepted by a
/// protected invocation. A zero state means "no jump".
#[derive(Copy, Clone, PartialEq, Eq, Structural, Debug)]
pub struct RubyException(pub isize);

impl RubyException {
    /// The empty token: no jump was captured.
    pub fn new() -> (r: RubyException)
        ensures
            r.0 == 0,
    {
        RubyException(0)
    }

    /// The empty token, under its other customary name.
    pub fn empty() -> (r: RubyException)
        ensures
            r.0 == 0,
    {
        RubyException(0)
    }

    /// A token carrying the host's opaque jump state.
    pub fn for_tag(tag: isize) -> (r: RubyException)
        ensures
            r.0 == tag,
    {
        RubyException(tag)
    }

    /// Whether no jump was captured.
    pub fn is_empty(&self) -> (r: bool)
        ensures
            r == (self.0 == 0),
    {
        self.0 == 0
    }

    /// The opaque jump state.
    pub fn state(&self) -> (r: isize)
        ensures
            r == self.0,
    {
        self.0
    }
}

/// A host-level exception: an exception class together with a message value.
#[derive(Copy, Clone, PartialEq, Eq, Structural, Debug)]
pub struct HostException {
    pub class: ClassHandle,
    pub message: HostValue,
}

/// A method installed on a class: its name, its fixed argument count, and
/// whether it is a type-level (rather than instance) method.
#[derive(Debug)]
pub struct MethodEntry {
    pub name: String,
    pub arity: usize,
    pub singleton: bool,
}

/// A class registered with the host VM.
#[derive(Debug)]
pub struct ClassInfo {
    pub name: String,
    pub parent: Option<ClassHandle>,
    pub methods: Vec<MethodEntry>,
}

/// What host-level code did during a protected invocation: it either ran to
/// completion with a result value, or raised an exception. The bridge cannot
/// predict which; it receives the step as an event and must handle both.
#[derive(Copy, Clone, Debug)]
pub enum HostStep {
    Returns(HostValue),
    Raises { class: ClassHandle, message: HostValue },
}

/// The handle of the nil singleton.
pub open spec fn nil_handle() -> HostValue {
    HostValue { raw: 0 }
}

/// The handle of the boolean-true singleton.
pub open spec fn true_handle() -> HostValue {
    HostValue { raw: 1 }
}

/// The handle of the boolean-false singleton.
pub open spec fn false_handle() -> HostValue {
    HostValue { raw: 2 }
}

/// The class of plain objects, registered when the VM is created.
pub open spec fn object_class() -> ClassHandle {
    ClassHandle { raw: 0 }
}

/// The class of runtime errors, used for native structured failures.
pub open spec fn runtime_error_class() -> ClassHandle {
    ClassHandle { raw: 1 }
}

/// The class of type errors, used for argument-coercion failures.
pub open spec fn type_error_class() -> ClassHandle {
    ClassHandle { raw: 2 }
}

/// The host virtual machine: a heap of tagged values, a class table, and the
/// table of captured non-local jumps.
#[derive(Debug)]
pub struct Vm {
    pub heap: Vec<HostObject>,
    pub classes: Vec<ClassInfo>,
    pub jumps: Vec<HostException>,
}

impl Vm {
    /// The handle points into the heap.
    pub open spec fn valid_handle(self, v: HostValue) -> bool {
        v.raw < self.heap.len()
    }

    /// The class handle points into the class table.
    pub open spec fn valid_class(self, c: ClassHandle) -> bool {
        c.raw < self.classes.len()
    }

    /// The heap object a handle refers to.
    pub open spec fn obj_of(self, v: HostValue) -> HostObject {
        self.heap[v.raw as int]
    }

    /// The dynamic kind of the value a handle refers to.
    pub open spec fn tag_of_value(self, v: HostValue) -> TypeTag {
        tag_of(self.obj_of(v))
    }

    /// The jump token is non-empty and indexes the jump table.
    pub open spec fn valid_jump(self, e: RubyException) -> bool {
        1 <= e.0 <= self.jumps.len()
    }

    /// The exception a captured jump token stands for.
    pub open spec fn jump_target(self, e: RubyException) -> HostException {
        self.jumps[e.0 - 1]
    }

    /// Well-formedness: the three singletons sit at their fixed handles, the
    /// three built-in classes are registered, every object's handles point
    /// into the heap, and every captured jump names a registered class and a
    /// live message value.
    pub open spec fn wf(self) -> bool {
        &&& self.heap.len() >= 3
        &&& self.heap[0] == HostObject::Nil
        &&& self.heap[1] == HostObject::Bool(true)
        &&& self.heap[2] == HostObject::Bool(false)
        &&& forall|i: int|
            0 <= i < self.heap.len() ==> obj_ok(
                #[trigger] self.heap[i],
                self.heap.len() as int,
                self.classes.len() as int,
            )
        &&& self.classes.len() >= 3
        &&& forall|i: int|
            0 <= i < self.classes.len() ==> ((#[trigger] self.classes[i].parent) matches Some(p)
                ==> p.raw < self.classes.len())
        &&& forall|i: int|
            0 <= i < self.jumps.len() ==> {
                &&& (#[trigger] self.jumps[i]).class.raw < self.classes.len()
                &&& self.jumps[i].message.raw < self.heap.len()
            }
    }

    /// The new state extends the old: the heap and the jump table have only
    /// grown, existing slots are untouched, and the class table is the same.
    /// Every handle, class and jump token that was valid stays valid and
    /// refers to the same thing.
    pub open spec fn extends(self, old_vm: Vm) -> bool {
        &&& self.heap.len() >= old_vm.heap.len()
        &&& forall|i: int| 0 <= i < old_vm.heap.len() ==> #[trigger] self.heap[i] == old_vm.heap[i]
        &&& self.classes == old_vm.classes
        &&& self.jumps.len() >= old_vm.jumps.len()
        &&& forall|i: int|
            0 <= i < old_vm.jumps.len() ==> #[trigger] self.jumps[i] == old_vm.jumps[i]
    }

    /// Like `extends`, but a wrapped object's payload slot may also have
    /// changed, and classes may have been added. This is all a native caller
    /// may assume about the VM after handing control to arbitrary host-level
    /// or user code: the collector may have released payloads, and load-time
    /// code may have registered classes, but values it holds handles to keep
    /// their identity and dynamic kind.
    pub open spec fn evolves_to(self, new_vm: Vm) -> bool {
        &&& new_vm.heap.len() >= self.heap.len()
        &&& forall|i: int|
            0 <= i < self.heap.len() ==> same_but_payload(
                self.heap[i],
                #[trigger] new_vm.heap[i],
            )
        &&& new_vm.classes.len() >= self.classes.len()
        &&& new_vm.jumps.len() >= self.jumps.len()
        &&& forall|i: int|
            0 <= i < self.jumps.len() ==> #[trigger] new_vm.jumps[i] == self.jumps[i]
    }

    /// A fresh VM: the singleton values at their fixed handles, the built-in
    /// classes registered, no captured jumps.
    pub fn new() -> (vm: Vm)
        ensures
            vm.wf(),
            vm.heap.len() == 3,
            vm.classes.len() == 3,
            vm.jumps.len() == 0,
            vm.classes[0].name@ == "Object"@,
            vm.classes[1].name@ == "RuntimeError"@,
            vm.classes[2].name@ == "TypeError"@,
    {
        let mut heap: Vec<HostObject> = Vec::new();
        heap.push(HostObject::Nil);
        heap.push(HostObject::Bool(true));
        heap.push(HostObject::Bool(false));
        let mut classes: Vec<ClassInfo> = Vec::new();
        classes.push(
            ClassInfo { name: String::from_str("Object"), parent: None, methods: Vec::new() },
        );
        classes.push(
            ClassInfo {
                name: String::from_str("RuntimeError"),
                parent: Some(ClassHandle { raw: 0 }),
                methods: Vec::new(),
            },
        );
        classes.push(
            ClassInfo {
                name: String::from_str("TypeError"),
                parent: Some(ClassHandle { raw: 0 }),
                methods: Vec::new(),
            },
        );
        Vm { heap, classes, jumps: Vec::new() }
    }

    /// The nil sentinel.
    pub fn nil(&self) -> (v: HostValue)
        requires
            self.wf(),
        ensures
            v == nil_handle(),
            self.valid_handle(v),
            self.obj_of(v) == HostObject::Nil,
    {
        HostValue { raw: 0 }
    }

    /// The boolean singleton for `b`.
    pub fn bool_value(&self, b: bool) -> (v: HostValue)
        requires
            self.wf(),
        ensures
            v == if b {
                true_handle()
            } else {
                false_handle()
            },
            self.valid_handle(v),
            self.obj_of(v) == HostObject::Bool(b),
    {
        if b {
            HostValue { raw: 1 }
        } else {
            HostValue { raw: 2 }
        }
    }

    /// Allocates a heap slot for the given object and hands back its handle.
    fn new_object(&mut self, o: HostObject) -> (v: HostValue)
        requires
            old(self).wf(),
            obj_ok(o, old(self).heap.len() as int, old(self).classes.len() as int),
        ensures
            final(self).wf(),
            final(self).extends(*old(self)),
            final(self).heap.len() == old(self).heap.len() + 1,
            v.raw == old(self).heap.len(),
            final(self).valid_handle(v),
            final(self).obj_of(v) == o,
            final(self).classes == old(self).classes,
            final(self).jumps == old(self).jumps,
    {
        let raw = self.heap.len();
        proof {
            assert forall|i: int| 0 <= i < old(self).heap.len() implies obj_ok(
                #[trigger] old(self).heap[i],
                old(self).heap.len() + 1,
                old(self).classes.len() as int,
            ) by {
                lemma_obj_ok_mono(
                    old(self).heap[i],
                    old(self).heap.len() as int,
                    old(self).heap.len() + 1,
                    old(self).classes.len() as int,
                );
            }
            lemma_obj_ok_mono(
                o,
                old(self).heap.len() as int,
                old(self).heap.len() + 1,
                old(self).classes.len() as int,
            );
        }
        self.heap.push(o);
        HostValue { raw }
    }

    /// Builds a host integer from a signed 64-bit native integer.
    pub fn from_i64(&mut self, n: i64) -> (v: HostValue)
        requires
            old(self).wf(),
        ensures
            final(self).wf(),
            final(self).extends(*old(self)),
            final(self).jumps == old(self).jumps,
            final(self).valid_handle(v),
            final(self).obj_of(v) == HostObject::Int(n as i128),
    {
        self.new_object(HostObject::Int(n as i128))
    }

    /// Builds a host integer from an unsigned 64-bit native integer.
    pub fn from_u64(&mut self, n: u64) -> (v: HostValue)
        requires
            old(self).wf(),
        ensures
            final(self).wf(),
            final(self).extends(*old(self)),
            final(self).jumps == old(self).jumps,
            final(self).valid_handle(v),
            final(self).obj_of(v) == HostObject::Int(n as i128),
    {
        self.new_object(HostObject::Int(n as i128))
    }

    /// Builds a host float from the bit pattern of an IEEE-754 double.
    pub fn from_f64_bits(&mut self, bits: u64) -> (v: HostValue)
        requires
            old(self).wf(),
        ensures
            final(self).wf(),
            final(self).extends(*old(self)),
            final(self).jumps == old(self).jumps,
            final(self).valid_handle(v),
            final(self).obj_of(v) == HostObject::Float(bits),
    {
        self.new_object(HostObject::Float(bits))
    }

    /// Builds a host string owning a copy of the given native text.
    pub fn from_text(&mut self, s: &str) -> (v: HostValue)
        requires
            old(self).wf(),
        ensures
            final(self).wf(),
            final(self).extends(*old(self)),
            final(self).jumps == old(self).jumps,
            final(self).valid_handle(v),
            final(self).obj_of(v) matches HostObject::Str(t) && t@ == s@,
    {
        self.new_object(HostObject::Str(s.to_owned()))
    }

    /// Builds a host string owning the given native text.
    pub fn from_string(&mut self, s: String) -> (v: HostValue)
        requires
            old(self).wf(),
        ensures
            final(self).wf(),
            final(self).extends(*old(self)),
            final(self).jumps == old(self).jumps,
            final(self).valid_handle(v),
            final(self).obj_of(v) == HostObject::Str(s),
    {
        self.new_object(HostObject::Str(s))
    }

    /// Builds a host array from a native list of element handles.
    pub fn from_elements(&mut self, elems: Vec<HostValue>) -> (v: HostValue)
        requires
            old(self).wf(),
            forall|i: int| 0 <= i < elems.len() ==> (#[trigger] elems[i]).raw < old(self).heap.len(),
        ensures
            final(self).wf(),
            final(self).extends(*old(self)),
            final(self).jumps == old(self).jumps,
            final(self).valid_handle(v),
            final(self).obj_of(v) == HostObject::Arr(elems),
    {
        self.new_object(HostObject::Arr(elems))
    }

    /// The dynamic kind of the value a handle refers to.
    pub fn type_tag(&self, v: HostValue) -> (t: TypeTag)
        requires
            self.wf(),
            self.valid_handle(v),
        ensures
            t == self.tag_of_value(v),
    {
        match &self.heap[v.raw] {
            HostObject::Nil => TypeTag::Nil,
            HostObject::Bool(b) => if *b {
                TypeTag::True
            } else {
                TypeTag::False
            },
            HostObject::Int(i) => if i64::MIN as i128 <= *i && *i <= i64::MAX as i128 {
                TypeTag::Fixnum
            } else {
                TypeTag::Bignum
            },
            HostObject::Float(_) => TypeTag::Float,
            HostObject::Str(_) => TypeTag::Str,
            HostObject::Arr(_) => TypeTag::Arr,
            HostObject::Data { .. } => TypeTag::Data,
        }
    }

    /// Whether the value a handle refers to has the given dynamic kind.
    pub fn is_type(&self, v: HostValue, t: TypeTag) -> (r: bool)
        requires
            self.wf(),
            self.valid_handle(v),
        ensures
            r == (self.tag_of_value(v) == t),
    {
        self.type_tag(v) == t
    }

    /// The runtime class of a wrapped object, if the value is one.
    pub fn class_of(&self, v: HostValue) -> (r: Option<ClassHandle>)
        requires
            self.wf(),
            self.valid_handle(v),
        ensures
            match r {
                Some(c) => self.obj_of(v) matches HostObject::Data { class, .. } && c == class,
                None => !(self.obj_of(v) is Data),
            },
    {
        match &self.heap[v.raw] {
            HostObject::Data { class, .. } => Some(*class),
            _ => None,
        }
    }

    /// The name a class was registered under.
    pub fn class_name(&self, c: ClassHandle) -> (r: String)
        requires
            self.wf(),
            self.valid_class(c),
        ensures
            r@ == self.classes[c.raw as int].name@,
    {
        self.classes[c.raw].name.clone()
    }

    /// Copies the text of a host string into a native owned string.
    pub fn read_text(&self, v: HostValue) -> (r: String)
        requires
            self.wf(),
            self.valid_handle(v),
            self.obj_of(v) is Str,
        ensures
            self.obj_of(v) matches HostObject::Str(s) && r@ == s@,
    {
        match &self.heap[v.raw] {
            HostObject::Str(s) => s.clone(),
            _ => String::new(),
        }
    }

    /// The element count of a host array.
    pub fn array_len(&self, v: HostValue) -> (r: usize)
        requires
            self.wf(),
            self.valid_handle(v),
            self.obj_of(v) is Arr,
        ensures
            self.obj_of(v) matches HostObject::Arr(elems) && r == elems.len(),
    {
        match &self.heap[v.raw] {
            HostObject::Arr(elems) => elems.len(),
            _ => 0,
        }
    }

    /// The element of a host array at the given position.
    pub fn array_get(&self, v: HostValue, i: usize) -> (r: HostValue)
        requires
            self.wf(),
            self.valid_handle(v),
            self.obj_of(v) matches HostObject::Arr(elems) && i < elems.len(),
        ensures
            self.obj_of(v) matches HostObject::Arr(elems) && r == elems[i as int],
            self.valid_handle(r),
    {
        match &self.heap[v.raw] {
            HostObject::Arr(elems) => elems[i],
            _ => HostValue { raw: 0 },
        }
    }

    /// Registers a class under the given name, optionally as a subclass.
    /// Part of module load; never called once invocations begin.
    pub fn define_class(&mut self, name: String, parent: Option<ClassHandle>) -> (c: ClassHandle)
        requires
            old(self).wf(),
            parent matches Some(p) ==> old(self).valid_class(p),
        ensures
            final(self).wf(),
            final(self).heap == old(self).heap,
            final(self).jumps == old(self).jumps,
            final(self).classes.len() == old(self).classes.len() + 1,
            c.raw == old(self).classes.len(),
            final(self).valid_class(c),
            final(self).classes[c.raw as int].name == name,
            final(self).classes[c.raw as int].parent == parent,
            final(self).classes[c.raw as int].methods.len() == 0,
            forall|i: int|
                0 <= i < old(self).classes.len() ==> #[trigger] final(self).classes[i] == old(self).classes[i],
    {
        let raw = self.classes.len();
        proof {
            assert forall|i: int| 0 <= i < old(self).heap.len() implies obj_ok(
                #[trigger] old(self).heap[i],
                old(self).heap.len() as int,
                old(self).classes.len() + 1,
            ) by {
                assert(obj_ok(
                    old(self).heap[i],
                    old(self).heap.len() as int,
                    old(self).classes.len() as int,
                ));
            }
        }
        self.classes.push(ClassInfo { name, parent, methods: Vec::new() });
        ClassHandle { raw }
    }

    /// Installs a method on a class: its name, its fixed argument count, and
    /// whether it is type-level. Part of module load.
    pub fn define_method(&mut self, c: ClassHandle, name: String, arity: usize, singleton: bool)
        requires
            old(self).wf(),
            old(self).valid_class(c),
        ensures
            final(self).wf(),
            final(self).heap == old(self).heap,
            final(self).jumps == old(self).jumps,
            final(self).classes.len() == old(self).classes.len(),
            forall|i: int|
                0 <= i < old(self).classes.len() && i != c.raw ==> #[trigger] final(self).classes[i] == old(self).classes[i],
            final(self).classes[c.raw as int].name == old(self).classes[c.raw as int].name,
            final(self).classes[c.raw as int].parent == old(self).classes[c.raw as int].parent,
            final(self).classes[c.raw as int].methods.len() == old(self).classes[c.raw as int].methods.len() + 1,
            forall|j: int|
                0 <= j < old(self).classes[c.raw as int].methods.len() ==> #[trigger] final(self).classes[c.raw as int].methods[j] == old(self).classes[c.raw as int].methods[j],
            ({
                let ms = final(self).classes[c.raw as int].methods;
                let entry = ms[ms.len() - 1];
                entry.name == name && entry.arity == arity && entry.singleton == singleton
            }),
    {
        let info = vstd::std_specs::vec::vec_index_mut(&mut self.classes, c.raw);
        info.methods.push(MethodEntry { name, arity, singleton });
    }

    /// Allocates a host object wrapping the given native payload (or an
    /// empty slot, for an object that is constructed but not yet
    /// initialized).
    pub fn wrap(&mut self, class: ClassHandle, payload: Option<NativePayload>) -> (v: HostValue)
        requires
            old(self).wf(),
            old(self).valid_class(class),
            payload matches Some(p) ==> native_refs_ok(p.value, old(self).heap.len() as int),
        ensures
            final(self).wf(),
            final(self).extends(*old(self)),
            final(self).jumps == old(self).jumps,
            final(self).valid_handle(v),
            final(self).obj_of(v) == (HostObject::Data { class, payload }),
    {
        self.new_object(HostObject::Data { class, payload })
    }

    /// Reads the wrapped payload of an object, by copy. `None` both when the
    /// slot is empty and when it is filled is distinguished by the ensures.
    pub fn unwrap(&self, v: HostValue) -> (r: Option<NativePayload>)
        requires
            self.wf(),
            self.valid_handle(v),
            self.obj_of(v) is Data,
        ensures
            match r {
                Some(p) => self.obj_of(v) matches HostObject::Data { payload: Some(q), .. }
                    && native_eq(p.value, q.value),
                None => self.obj_of(v) matches HostObject::Data { payload: None, .. },
            },
    {
        match &self.heap[v.raw] {
            HostObject::Data { payload: Some(p), .. } => Some(copy_payload(p)),
            _ => None,
        }
    }

    /// Replaces the wrapped payload of an object, handing the previous
    /// payload back to the caller — the single owner responsible for
    /// releasing it. With `None` this is the collector's release callback:
    /// idempotent, and a no-op on an empty slot.
    pub fn replace_payload(&mut self, v: HostValue, payload: Option<NativePayload>) -> (r: Option<
        NativePayload,
    >)
        requires
            old(self).wf(),
            old(self).valid_handle(v),
            old(self).obj_of(v) is Data,
            payload matches Some(p) ==> native_refs_ok(p.value, old(self).heap.len() as int),
        ensures
            final(self).wf(),
            final(self).heap.len() == old(self).heap.len(),
            final(self).classes == old(self).classes,
            final(self).jumps == old(self).jumps,
            forall|i: int|
                0 <= i < old(self).heap.len() && i != v.raw ==> #[trigger] final(self).heap[i]
                    == old(self).heap[i],
            old(self).obj_of(v) matches HostObject::Data { class, payload: before } && {
                &&& final(self).obj_of(v) == (HostObject::Data { class, payload })
                &&& r == before
            },
    {
        let slot = vstd::std_specs::vec::vec_index_mut(&mut self.heap, v.raw);
        let mut replacement = match slot {
            HostObject::Data { class, .. } => HostObject::Data { class: *class, payload },
            _ => HostObject::Nil,
        };
        core::mem::swap(slot, &mut replacement);
        match replacement {
            HostObject::Data { payload: before, .. } => before,
            _ => None,
        }
    }

    /// The collector's release callback: empties the payload slot and hands
    /// the payload, if any, back for disposal. Releasing an already-empty
    /// slot is a no-op that returns nothing, so release is idempotent and a
    /// payload can never be handed out — and hence freed — twice (see
    /// `lemma_release_idempotent`).
    pub fn release(&mut self, v: HostValue) -> (r: Option<NativePayload>)
        requires
            old(self).wf(),
            old(self).valid_handle(v),
            old(self).obj_of(v) is Data,
        ensures
            final(self).wf(),
            release_step(*old(self), *final(self), v, r),
    {
        self.replace_payload(v, None)
    }

    /// The collector's trace callback: reports the host handles reachable
    /// from the wrapped payload, in order. It takes the host read-only, so
    /// the traversal can neither mutate the payload nor allocate in a way
    /// that could re-trigger collection.
    pub fn trace(&self, v: HostValue) -> (r: Vec<HostValue>)
        requires
            self.wf(),
            self.valid_handle(v),
            self.obj_of(v) is Data,
        ensures
            match self.obj_of(v) {
                HostObject::Data { payload: Some(p), .. } => r@ == payload_handles(p.value),
                _ => r@ == Seq::<HostValue>::empty(),
            },
    {
        let mut out: Vec<HostValue> = Vec::new();
        match &self.heap[v.raw] {
            HostObject::Data { payload: Some(p), .. } => {
                collect_handles(&p.value, &mut out);
            },
            _ => {},
        }
        out
    }

    /// Protected invocation: runs one step of host-level code while
    /// intercepting any non-local jump it raises. A raise is captured in the
    /// jump table and returned as an opaque token instead of propagating.
    pub fn protect(&mut self, step: HostStep) -> (r: Result<HostValue, RubyException>)
        requires
            old(self).wf(),
            old(self).jumps.len() < isize::MAX as usize,
            match step {
                HostStep::Returns(v) => old(self).valid_handle(v),
                HostStep::Raises { class, message } => old(self).valid_class(class) && old(self).valid_handle(message),
            },
        ensures
            final(self).wf(),
            final(self).extends(*old(self)),
            final(self).heap == old(self).heap,
            match step {
                HostStep::Returns(v) => *final(self) == *old(self) && r == Result::<
                    HostValue,
                    RubyException,
                >::Ok(v),
                HostStep::Raises { class, message } => {
                    &&& final(self).jumps.len() == old(self).jumps.len() + 1
                    &&& final(self).jumps[final(self).jumps.len() - 1] == (HostException {
                        class,
                        message,
                    })
                    &&& r matches Result::Err(e) && final(self).valid_jump(e) && !(e.0 == 0)
                        && final(self).jump_target(e) == (HostException { class, message })
                },
            },
    {
        match step {
            HostStep::Returns(v) => Ok(v),
            HostStep::Raises { class, message } => {
                self.jumps.push(HostException { class, message });
                Err(RubyException(self.jumps.len() as isize))
            },
        }
    }

    /// Looks up the exception a captured jump token stands for, as the host
    /// does when asked to re-trigger the jump verbatim.
    pub fn jump_info(&self, e: RubyException) -> (r: HostException)
        requires
            self.wf(),
            self.valid_jump(e),
        ensures
            r == self.jump_target(e),
    {
        self.jumps[(e.0 as usize) - 1]
    }

    /// Raises an exception: captures it as a host-side jump and returns the
    /// opaque token for it.
    pub fn raise(&mut self, class: ClassHandle, message: HostValue) -> (e: RubyException)
        requires
            old(self).wf(),
            old(self).jumps.len() < isize::MAX as usize,
            old(self).valid_class(class),
            old(self).valid_handle(message),
        ensures
            final(self).wf(),
            final(self).extends(*old(self)),
            final(self).heap == old(self).heap,
            final(self).jumps.len() == old(self).jumps.len() + 1,
            final(self).valid_jump(e),
            !(e.0 == 0),
            final(self).jump_target(e) == (HostException { class, message }),
    {
        self.jumps.push(HostException { class, message });
        RubyException(self.jumps.len() as isize)
    }
}

/// Everything `release` does to the host state: the payload slot of `v` is
/// emptied and its previous content is what the call hands out; nothing
/// else changes.
pub open spec fn release_step(
    before: Vm,
    after: Vm,
    v: HostValue,
    r: Option<NativePayload>,
) -> bool {
    &&& after.heap.len() == before.heap.len()
    &&& after.classes == before.classes
    &&& after.jumps == before.jumps
    &&& forall|i: int|
        0 <= i < before.heap.len() && i != v.raw ==> #[trigger] after.heap[i] == before.heap[i]
    &&& before.obj_of(v) matches HostObject::Data { class, payload } && {
        &&& after.obj_of(v) == (HostObject::Data { class, payload: None })
        &&& r == payload
    }
}

/// Release is idempotent and a payload is freed at most once: after one
/// release of `v`, a second release of `v` finds the slot empty, hands
/// nothing out, and leaves the host state exactly as it was.
pub proof fn lemma_release_idempotent(
    vm0: Vm,
    vm1: Vm,
    vm2: Vm,
    v: HostValue,
    r1: Option<NativePayload>,
    r2: Option<NativePayload>,
)
    requires
        vm0.valid_handle(v),
        vm0.obj_of(v) is Data,
        release_step(vm0, vm1, v, r1),
        release_step(vm1, vm2, v, r2),
    ensures
        r2 is None,
        vm2.heap@ == vm1.heap@,
        vm2.classes == vm1.classes,
        vm2.jumps == vm1.jumps,
{
    assert forall|i: int| 0 <= i < vm1.heap.len() implies vm2.heap[i] == vm1.heap[i] by {
        if i != v.raw {
            assert(vm2.heap[i] == vm1.heap[i]);
        } else {
            assert(vm2.obj_of(v) == vm1.obj_of(v));
        }
    }
    assert(vm2.heap@ =~= vm1.heap@);
}

/// An extension is in particular an evolution: nothing a strict extension
/// does is beyond what arbitrary host-level code may do.
pub proof fn lemma_extends_evolves(vm1: Vm, vm2: Vm)
    requires
        vm2.extends(vm1),
    ensures
        vm1.evolves_to(vm2),
{
    assert forall|i: int| 0 <= i < vm1.heap.len() implies same_but_payload(
        vm1.heap[i],
        #[trigger] vm2.heap[i],
    ) by {
        assert(vm2.heap[i] == vm1.heap[i]);
    }
}

/// Evolution is transitive.
pub proof fn lemma_evolves_trans(vm0: Vm, vm1: Vm, vm2: Vm)
    requires
        vm0.evolves_to(vm1),
        vm1.evolves_to(vm2),
    ensures
        vm0.evolves_to(vm2),
{
    assert forall|i: int| 0 <= i < vm0.heap.len() implies same_but_payload(
        vm0.heap[i],
        #[trigger] vm2.heap[i],
    ) by {
        assert(same_but_payload(vm0.heap[i], vm1.heap[i]));
        assert(same_but_payload(vm1.heap[i], vm2.heap[i]));
    }
}

/// A captured jump token stays valid, and stands for the same exception,
/// however the host state grows afterwards: what makes re-triggering it
/// verbatim possible at finalization time.
pub proof fn lemma_jump_preserved(vm1: Vm, vm2: Vm, e: RubyException)
    requires
        vm1.valid_jump(e),
        vm1.evolves_to(vm2),
    ensures
        vm2.valid_jump(e),
        vm2.jump_target(e) == vm1.jump_target(e),
{
}

/// The two objects are the same, except that a wrapped object's payload slot
/// may differ.
pub open spec fn same_but_payload(before: HostObject, after: HostObject) -> bool {
    match before {
        HostObject::Data { class, .. } => after matches HostObject::Data {
            class: c2,
            ..
        } && c2 == class,
        _ => after == before,
    }
}

} // verus!
