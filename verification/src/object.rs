//! The slot: an atomic cell that owns one strong reference to a managed
//! object, or is empty.

use crate::protocol::{conclude, conclusion};
use crate::protocol::{access, access_of};
use crate::protocol::{Access, Call, Comparison, Handle, Operation, Step, Task, Verdict};
use std::sync::atomic::AtomicUsize;
use std::sync::atomic::Ordering;
use vstd::prelude::*;

verus! {

/// A slot shared between threads. Its content is read and written only by
/// single sequentially consistent accesses, and never under a lock.
///
/// A method that begins an operation makes the operation's first access and
/// returns the first [`Step`]; [`AtomicObject::resume`] and
/// [`AtomicObject::answer`] continue it. Other threads may come between any
/// two calls, so a contract cannot name what an access will find: it says
/// that the step returned is the one that [`conclusion`] gives for whatever
/// handle the access did find.
#[derive(Debug)]
pub struct AtomicObject {
    value: AtomicUsize,
}

impl AtomicObject {
    /// A slot that holds `initial`, whose reference passes from the caller to
    /// the slot. There is no slot without a first object.
    pub fn new(initial: Handle) -> (slot: Option<AtomicObject>)
        ensures
            slot is Some <==> !initial.is_empty(),
    {
        if initial.is_empty() {
            None
        } else {
            Some(AtomicObject { value: AtomicUsize::new(initial.raw) })
        }
    }

    /// Makes one access to the content and reports what the access found.
    /// What a read, a swap or a compare-and-swap finds is up to the threads
    /// that wrote before it. Where no access is asked for, none is made and
    /// the report is the empty handle.
    fn touch(&self, access: Access) -> (found: Handle)
        ensures
            access is Nothing ==> found == Handle::empty(),
    {
        match access {
            Access::Nothing => Handle::empty(),
            Access::Read => Handle { raw: self.value.load(Ordering::SeqCst) },
            Access::Swap(new) => Handle { raw: self.value.swap(new.raw, Ordering::SeqCst) },
            Access::CompareAndSwap { current, new } => {
                match self.value.compare_exchange(
                    current.raw,
                    new.raw,
                    Ordering::SeqCst,
                    Ordering::SeqCst,
                ) {
                    Ok(found) => Handle { raw: found },
                    Err(found) => Handle { raw: found },
                }
            },
        }
    }

    /// Makes the call's access, then decides the step from what it found.
    fn turn(&self, call: Call) -> (step: Step)
        ensures
            exists|held: Handle| step == #[trigger] conclusion(call, held),
            access_of(call) is Nothing ==> step == conclusion(call, Handle::empty()),
    {
        let held = self.touch(access(call));
        conclude(call, held)
    }

    /// Begins a load: reads the content and asks for a reference to it, which
    /// will be the caller's.
    pub fn load(&self) -> (step: Step)
        ensures
            exists|held: Handle| step == #[trigger] conclusion(Call::Begin(Operation::Load), held),
    {
        self.turn(Call::Begin(Operation::Load))
    }

    /// Begins a store: asks for the second reference to `val`, the one that
    /// goes back to the caller. The slot is not touched before that reference
    /// is taken.
    pub fn store(&self, val: Handle) -> (step: Step)
        ensures
            step == Step::Retain(val, Task::Swap(val)),
    {
        self.turn(Call::Begin(Operation::Store(val)))
    }

    /// Exchanges the content for `val` and ends: the old content and its
    /// reference pass to the caller, `val` and its reference to the slot. No
    /// reference is taken or given up.
    pub fn exchange(&self, val: Handle) -> (step: Step)
        ensures
            exists|held: Handle|
                step == #[trigger] conclusion(Call::Begin(Operation::Exchange(val)), held),
    {
        self.turn(Call::Begin(Operation::Exchange(val)))
    }

    /// Begins a compare-and-exchange: reads the content as the first snapshot
    /// and asks for a reference to it.
    pub fn compare_exchange(&self, expected: Handle, desired: Handle) -> (step: Step)
        ensures
            exists|held: Handle|
                step == #[trigger] conclusion(
                    Call::Begin(Operation::CompareExchange { expected, desired }),
                    held,
                ),
    {
        self.turn(Call::Begin(Operation::CompareExchange { expected, desired }))
    }

    /// Reads the content for the collector: a borrowed handle to visit, or
    /// nothing to do where the slot is empty.
    pub fn traverse(&self) -> (step: Step)
        ensures
            exists|held: Handle|
                step == #[trigger] conclusion(Call::Begin(Operation::Traverse), held),
    {
        self.turn(Call::Begin(Operation::Traverse))
    }

    /// Empties the slot and asks that the reference it held be given up. Of
    /// a slot that is empty already it asks that the reference to no object
    /// be given up, which is nothing.
    pub fn clear(&self) -> (step: Step)
        ensures
            exists|held: Handle| step == #[trigger] conclusion(Call::Begin(Operation::Clear), held),
    {
        self.turn(Call::Begin(Operation::Clear))
    }

    /// Continues an operation after the caller has carried out a `Retain` or a
    /// `Release`.
    pub fn resume(&self, task: Task) -> (step: Step)
        ensures
            exists|held: Handle| step == #[trigger] conclusion(Call::Resume(task), held),
            !(task is Swap) ==> step == conclusion(Call::Resume(task), Handle::empty()),
    {
        self.turn(Call::Resume(task))
    }

    /// Continues a compare-and-exchange with the host's verdict. After
    /// `Equal` it tries once to put `desired` in place of the snapshot.
    pub fn answer(&self, comparison: Comparison, verdict: Verdict) -> (step: Step)
        ensures
            exists|held: Handle|
                step == #[trigger] conclusion(Call::Answer(comparison, verdict), held),
            !(verdict is Equal) ==> step == conclusion(
                Call::Answer(comparison, verdict),
                Handle::empty(),
            ),
    {
        self.turn(Call::Answer(comparison, verdict))
    }
}

} // verus!
