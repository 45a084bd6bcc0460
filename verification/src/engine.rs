//! The engine-callback registry: an ordered, append-only collection of
//! callbacks to run when the host signals engine load.
//!
//! The registry is guarded by a mutual-exclusion lock acquired with
//! non-blocking try-semantics; the lock state is part of the registry value,
//! so the drop-on-contention policy of callback registration is stated and
//! proved rather than left to chance. Invoking the stored callbacks is the
//! host's job, not this crate's.

use vstd::prelude::*;

verus! {

/// Process-wide registry of engine-load callbacks, guarded by one lock.
///
/// `C` is the callback payload: an opaque unit of behaviour owned by the
/// registry once added, never removed or invoked from here.
pub struct EngineCallbacks<C> {
    locked: bool,
    callbacks: Vec<C>,
}

impl<C> View for EngineCallbacks<C> {
    type V = Seq<C>;

    closed spec fn view(&self) -> Seq<C> {
        self.callbacks@
    }
}

impl<C> EngineCallbacks<C> {
    /// Whether the registry's lock is currently held.
    pub closed spec fn is_locked(&self) -> bool {
        self.locked
    }

    /// An empty registry whose lock is free.
    pub fn new() -> (r: Self)
        ensures
            r@ == Seq::<C>::empty(),
            !r.is_locked(),
    {
        EngineCallbacks { locked: false, callbacks: Vec::new() }
    }

    /// Tries to take the registry's lock without blocking. Succeeds exactly
    /// when the lock was free; the stored callbacks are never touched.
    pub fn try_lock(&mut self) -> (r: bool)
        ensures
            r == !old(self).is_locked(),
            final(self).is_locked(),
            final(self)@ == old(self)@,
    {
        if self.locked {
            false
        } else {
            self.locked = true;
            true
        }
    }

    /// Releases the registry's lock.
    pub fn unlock(&mut self)
        requires
            old(self).is_locked(),
        ensures
            !final(self).is_locked(),
            final(self)@ == old(self)@,
    {
        self.locked = false;
    }

    /// Appends a callback, preserving the order of earlier registrations.
    /// The caller must already have exclusive access to the registry.
    pub fn add_callback(&mut self, callback: C)
        ensures
            final(self)@ == old(self)@.push(callback),
            final(self).is_locked() == old(self).is_locked(),
    {
        self.callbacks.push(callback);
    }

    /// How many callbacks have been recorded.
    pub fn len(&self) -> (r: usize)
        ensures
            r == self@.len(),
    {
        self.callbacks.len()
    }

    /// The callback at position `i`, in registration order.
    pub fn get(&self, i: usize) -> (r: &C)
        requires
            i < self@.len(),
        ensures
            *r == self@[i as int],
    {
        &self.callbacks[i]
    }
}

/// Registrations that find the lock free are recorded in submission order:
/// after two successful additions the earlier entries are untouched and the
/// two new callbacks stand at the end, in the order they were submitted.
pub proof fn lemma_callbacks_recorded_in_submission_order<C>(s: Seq<C>, a: C, b: C)
    ensures
        s.push(a).push(b).len() == s.len() + 2,
        s.push(a).push(b)[s.len() as int] == a,
        s.push(a).push(b)[s.len() as int + 1] == b,
        forall|i: int| 0 <= i < s.len() ==> s.push(a).push(b)[i] == s[i],
{
}

} // verus!
