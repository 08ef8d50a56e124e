//! A verified runtime core for a bridge between statically typed native code
//! and a dynamically typed, garbage-collected host virtual machine.
//!
//! The crate models the host VM's value universe as a tagged heap (`host::Vm`)
//! and verifies the three boundary-crossing concerns that make such a bridge
//! hard to get right:
//!
//! * the **coercion engine** (`coercions`): type-checked, bidirectional
//!   conversion between host values and native typed values;
//! * the **exception bridge** (`bridge`): capturing native structured failures
//!   and host-side non-local jumps, and resolving every method invocation to
//!   exactly one finalized outcome;
//! * the **object wrapper protocol** (`host`): attaching a native-owned
//!   payload to a host object and releasing it, idempotently, from the
//!   collector's callback.

use vstd::prelude::*;

pub mod bridge;
pub mod coercions;
pub mod errors;
pub mod host;
pub mod text;
pub mod trampoline;
pub mod values;

use host::{Vm, object_class};
use values::ClassHandle;

verus! {

broadcast use vstd::std_specs::vec::group_vec_axioms;

/// A handle to a host class, as the native side holds it.
#[derive(Copy, Clone, PartialEq, Eq, Structural, Debug)]
pub struct Class(pub ClassHandle);

impl Class {
    /// The underlying class handle.
    pub fn inner(&self) -> (r: ClassHandle)
        ensures
            r == self.0,
    {
        self.0
    }

    /// Registers a new class under the given name, as a subclass of the
    /// host's base object class.
    pub fn new(vm: &mut Vm, name: String) -> (c: Class)
        requires
            old(vm).wf(),
        ensures
            final(vm).wf(),
            final(vm).heap == old(vm).heap,
            final(vm).jumps == old(vm).jumps,
            final(vm).classes.len() == old(vm).classes.len() + 1,
            c.0.raw == old(vm).classes.len(),
            final(vm).valid_class(c.0),
            final(vm).classes[c.0.raw as int].name == name,
            final(vm).classes[c.0.raw as int].parent == Some(object_class()),
            forall|i: int|
                0 <= i < old(vm).classes.len() ==> #[trigger] final(vm).classes[i] == old(
                    vm,
                ).classes[i],
    {
        Class(ClassHandle { raw: 0 }).subclass(vm, name)
    }

    /// Registers a new class under the given name, as a subclass of this
    /// one.
    pub fn subclass(&self, vm: &mut Vm, name: String) -> (c: Class)
        requires
            old(vm).wf(),
            old(vm).valid_class(self.0),
        ensures
            final(vm).wf(),
            final(vm).heap == old(vm).heap,
            final(vm).jumps == old(vm).jumps,
            final(vm).classes.len() == old(vm).classes.len() + 1,
            c.0.raw == old(vm).classes.len(),
            final(vm).valid_class(c.0),
            final(vm).classes[c.0.raw as int].name == name,
            final(vm).classes[c.0.raw as int].parent == Some(self.0),
            forall|i: int|
                0 <= i < old(vm).classes.len() ==> #[trigger] final(vm).classes[i] == old(
                    vm,
                ).classes[i],
    {
        Class(vm.define_class(name, Some(self.0)))
    }

    /// Installs an instance method of the given name and fixed argument
    /// count on this class.
    pub fn define_method(&self, vm: &mut Vm, name: String, arity: usize)
        requires
            old(vm).wf(),
            old(vm).valid_class(self.0),
        ensures
            final(vm).wf(),
            final(vm).heap == old(vm).heap,
            final(vm).jumps == old(vm).jumps,
            final(vm).classes.len() == old(vm).classes.len(),
            final(vm).classes[self.0.raw as int].methods.len() == old(
                vm,
            ).classes[self.0.raw as int].methods.len() + 1,
            ({
                let ms = final(vm).classes[self.0.raw as int].methods;
                let entry = ms[ms.len() - 1];
                entry.name == name && entry.arity == arity && !entry.singleton
            }),
    {
        vm.define_method(self.0, name, arity, false);
    }
}

/// An interned method or symbol name.
#[derive(Clone, PartialEq, Eq, Hash, Debug)]
pub struct Symbol(pub String);

impl Symbol {
    /// Wraps a name as a symbol.
    pub fn new(string: String) -> (s: Symbol)
        ensures
            s.0 == string,
    {
        Symbol(string)
    }
}

/// The host value a generated wrapper keeps as its own metadata slot.
pub type Metadata = values::HostValue;

/// The untyped representation of a handle, for registration bookkeeping.
pub fn as_usize(value: values::HostValue) -> (r: usize)
    ensures
        r == value.raw,
{
    value.raw
}

/// Compares the runtime's version string against the one this library was
/// built for; a module must not load when they differ.
pub fn check_version(runtime: &str, built_for: &str) -> (r: bool)
    ensures
        r == (runtime@ == built_for@),
{
    let a = String::from_str(runtime);
    let b = String::from_str(built_for);
    a == b
}

} // verus!
