//! Script-function registration: the fixed-layout descriptor record the host
//! reads to install a script-callable function, and the process-wide registry
//! those records are pushed into.
//!
//! The registry owns every descriptor it holds, including each string and the
//! scratch buffer, so that everything a record points at stays reachable and
//! stable for as long as the process runs. Converting a record to the host's
//! raw byte layout is the embedding program's job.

use vstd::prelude::*;

verus! {

/// Capacity, in elements, of the scratch buffer allocated for the host
/// alongside each registered function.
pub const SQ_SCRATCH_BUFFER_CAPACITY: usize = 1000;

/// Return-type tag of a script-callable function, as the host enumerates
/// them. This bridge only ever emits `Boolean`; the host ABI defines further
/// tags.
#[derive(Debug, Clone, Copy, PartialEq, Eq, Structural)]
pub enum SqReturnType {
    Boolean,
}

/// A script-function descriptor: the record the host consumes to install one
/// script-callable function. Field order follows the host ABI; the reserved
/// `unknown` slots must be emitted verbatim even though their meaning is
/// unspecified. `F` is the function payload handed through to the host.
pub struct SQFuncRegistration<F> {
    /// Name the function is visible under inside the script virtual machine.
    pub squirrel_func_name: String,
    /// Name of the native implementation.
    pub cpp_func_name: String,
    /// Help text shown by the host.
    pub help_text: String,
    /// Return type, as the script type string the host expects.
    pub return_type_string: String,
    /// Argument types, as the script type string the host expects.
    pub arg_types: String,
    /// Reserved slot; emitted verbatim.
    pub unknown1: i32,
    /// Reserved slot; emitted verbatim.
    pub unknown2: i32,
    /// Developer level required to call the function.
    pub dev_level: i32,
    /// Short name; the host's use of it is unspecified.
    pub short_name_maybe: String,
    /// Return-type tag.
    pub return_type: SqReturnType,
    /// Scratch storage the host may write through; owned here so it stays
    /// valid for the life of the registry entry.
    pub external_buffer: Vec<u32>,
    /// Capacity of the scratch buffer, as the host ABI carries it.
    pub external_buffer_size: i32,
    /// Reserved slot; emitted verbatim.
    pub unknown3: i32,
    /// Reserved slot; emitted verbatim.
    pub unknown4: i32,
    /// The function itself.
    pub func_ptr: F,
}

/// What the one descriptor this bridge builds looks like: fixed metadata for
/// every field but the function payload, which is `func`.
pub open spec fn is_bridge_registration<F>(r: SQFuncRegistration<F>, func: F) -> bool {
    &&& r.squirrel_func_name@ == "rrplug_test"@
    &&& r.cpp_func_name@ == "rrplug_test"@
    &&& r.help_text@ == "rrplug_test"@
    &&& r.return_type_string@ == "void"@
    &&& r.arg_types@ == "bool"@
    &&& r.unknown1 == 0
    &&& r.unknown2 == 0
    &&& r.dev_level == 0
    &&& r.short_name_maybe@ == "rrplug_test"@
    &&& r.return_type == SqReturnType::Boolean
    &&& r.external_buffer@.len() == SQ_SCRATCH_BUFFER_CAPACITY
    &&& (forall|i: int|
        0 <= i < r.external_buffer@.len() ==> r.external_buffer@[i] == 0u32)
    &&& r.external_buffer_size == SQ_SCRATCH_BUFFER_CAPACITY as i32
    &&& r.unknown3 == 0
    &&& r.unknown4 == 0
    &&& r.func_ptr == func
}

impl<F> SQFuncRegistration<F> {
    /// Builds the descriptor this bridge registers: caller-supplied behaviour
    /// for the function payload, structurally fixed metadata for the rest,
    /// and a freshly allocated, zeroed scratch buffer for host use.
    pub fn bridge_registration(func: F) -> (r: Self)
        ensures
            is_bridge_registration(r, func),
    {
        let mut buffer: Vec<u32> = Vec::new();
        let mut i: usize = 0;
        while i < SQ_SCRATCH_BUFFER_CAPACITY
            invariant
                i <= SQ_SCRATCH_BUFFER_CAPACITY,
                buffer@.len() == i,
                forall|j: int| 0 <= j < buffer@.len() ==> buffer@[j] == 0u32,
            decreases SQ_SCRATCH_BUFFER_CAPACITY - i,
        {
            buffer.push(0u32);
            i = i + 1;
        }
        SQFuncRegistration {
            squirrel_func_name: "rrplug_test".to_owned(),
            cpp_func_name: "rrplug_test".to_owned(),
            help_text: "rrplug_test".to_owned(),
            return_type_string: "void".to_owned(),
            arg_types: "bool".to_owned(),
            unknown1: 0,
            unknown2: 0,
            dev_level: 0,
            short_name_maybe: "rrplug_test".to_owned(),
            return_type: SqReturnType::Boolean,
            external_buffer: buffer,
            external_buffer_size: 1000,
            unknown3: 0,
            unknown4: 0,
            func_ptr: func,
        }
    }
}

/// Process-wide registry of pending script-function descriptors, guarded by
/// one lock. Once a descriptor is pushed it is never removed or mutated;
/// the host consumes the registry at a time of its own choosing.
pub struct SqFunctionRegistry<F> {
    locked: bool,
    functions: Vec<SQFuncRegistration<F>>,
}

impl<F> View for SqFunctionRegistry<F> {
    type V = Seq<SQFuncRegistration<F>>;

    closed spec fn view(&self) -> Seq<SQFuncRegistration<F>> {
        self.functions@
    }
}

impl<F> SqFunctionRegistry<F> {
    /// Whether the registry's lock is currently held.
    pub closed spec fn is_locked(&self) -> bool {
        self.locked
    }

    /// An empty registry whose lock is free.
    pub fn new() -> (r: Self)
        ensures
            r@ == Seq::<SQFuncRegistration<F>>::empty(),
            !r.is_locked(),
    {
        SqFunctionRegistry { locked: false, functions: Vec::new() }
    }

    /// Tries to take the registry's lock without blocking. Succeeds exactly
    /// when the lock was free; the stored descriptors are never touched.
    pub fn try_lock(&mut self) -> (r: bool)
        ensures
            r == !old(self).is_locked(),
            final(self).is_locked(),
            final(self)@ == old(self)@,
    {
        if self.locked {
            false
        } else {
            self.locked = true;
            true
        }
    }

    /// Releases the registry's lock.
    pub fn unlock(&mut self)
        requires
            old(self).is_locked(),
        ensures
            !final(self).is_locked(),
            final(self)@ == old(self)@,
    {
        self.locked = false;
    }

    /// Appends a descriptor, preserving the order of earlier registrations.
    /// The caller must already have exclusive access to the registry.
    pub fn push(&mut self, registration: SQFuncRegistration<F>)
        ensures
            final(self)@ == old(self)@.push(registration),
            final(self).is_locked() == old(self).is_locked(),
    {
        self.functions.push(registration);
    }

    /// How many descriptors are pending.
    pub fn len(&self) -> (r: usize)
        ensures
            r == self@.len(),
    {
        self.functions.len()
    }

    /// The descriptor at position `i`, in registration order.
    pub fn get(&self, i: usize) -> (r: &SQFuncRegistration<F>)
        requires
            i < self@.len(),
        ensures
            *r == self@[i as int],
    {
        &self.functions[i]
    }
}

} // verus!
