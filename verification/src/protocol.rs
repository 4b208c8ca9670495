//! The reference-counting protocol of the object slot, one step at a time.
//!
//! An operation on the slot is a short conversation between the slot and the
//! host runtime. The slot decides; the host acts. Each call into the slot
//! touches the slot's content at most once, atomically, and yields a [`Step`]:
//! either a request that the caller must carry out against the host (take a
//! reference, give one up, compare two objects, show one to the collector) or
//! the end of the operation. The caller carries the request out and comes back
//! with the [`Task`] or the [`Comparison`] that the step handed to it.
//!
//! Everything here is a function of plain values: what a call does is fixed by
//! the call and by the handle that its one access found in the slot.

use vstd::prelude::*;

verus! {

/// The identity of a managed object, as wide as an address. Zero identifies no
/// object: it is what an emptied slot holds.
#[derive(Clone, Copy, Debug, PartialEq, Eq)]
pub struct Handle {
    pub raw: usize,
}

impl Handle {
    pub open spec fn spec_empty() -> Handle {
        Handle { raw: 0 }
    }

    /// The handle of no object.
    #[verifier::when_used_as_spec(spec_empty)]
    pub fn empty() -> (handle: Handle)
        ensures
            handle == Handle::spec_empty(),
    {
        Handle { raw: 0 }
    }

    pub open spec fn spec_is_empty(self) -> bool {
        self.raw == 0
    }

    /// Whether this is the handle of no object.
    #[verifier::when_used_as_spec(spec_is_empty)]
    pub fn is_empty(self) -> (empty: bool)
        ensures
            empty == self.spec_is_empty(),
    {
        self.raw == 0
    }
}

/// What a caller may ask of the slot.
#[derive(Clone, Copy, Debug, PartialEq, Eq)]
pub enum Operation {
    /// Read the content and hand the caller a reference of its own to it.
    Load,
    /// Put the handle in the slot, give up the content it replaces, and hand
    /// the handle back with a second reference.
    Store(Handle),
    /// Put the handle in the slot and hand the replaced content to the caller.
    Exchange(Handle),
    /// Put `desired` in the slot if the host finds the content equal to
    /// `expected`; hand the caller the content that was compared last.
    CompareExchange { expected: Handle, desired: Handle },
    /// Show the content to the collector without taking a reference.
    Traverse,
    /// Empty the slot and give up the content.
    Clear,
}

/// A compare-and-exchange in flight: the caller's two handles, and the content
/// that was read from the slot and that the operation holds a reference to.
#[derive(Clone, Copy, Debug, PartialEq, Eq)]
pub struct Comparison {
    pub expected: Handle,
    pub desired: Handle,
    pub snapshot: Handle,
}

/// The host's answer to a comparison.
#[derive(Clone, Copy, Debug, PartialEq, Eq)]
pub enum Verdict {
    Equal,
    Different,
    /// The host's equality failed; the failure goes to the caller.
    Raised,
}

/// What remains of an operation once the caller has carried out a request.
#[derive(Clone, Copy, Debug, PartialEq, Eq)]
pub enum Task {
    /// Nothing but to end with [`Step::Return`].
    Return { value: Handle, stored: Handle },
    /// Nothing but to end with [`Step::Done`].
    Done,
    /// Nothing but to end with [`Step::Raise`].
    Raise,
    /// Exchange the content for this handle and give the old content up.
    Swap(Handle),
    /// Ask the host for a verdict.
    Compare(Comparison),
    /// The slot changed under a comparison: give the stale snapshot up, then
    /// compare afresh.
    Retire { stale: Handle, next: Comparison },
}

/// What the slot asks of its caller next. A step that is dropped is an
/// operation abandoned half-way, with references uncounted.
#[must_use]
#[derive(Clone, Copy, Debug, PartialEq, Eq)]
pub enum Step {
    /// Take one more strong reference to the object, then resume the task.
    Retain(Handle, Task),
    /// Give one strong reference to the object up, then resume the task.
    Release(Handle, Task),
    /// Ask the host whether `snapshot` equals `expected`, then answer.
    Compare(Comparison),
    /// Show the object to the collector, borrowed; the operation ends with
    /// whatever the collector's visitor says.
    Visit(Handle),
    /// The operation ends. `value` is its result, and the caller owns one
    /// strong reference to it. `stored` is the handle that went into the slot
    /// on the caller's behalf: the reference that the caller had to it is now
    /// the slot's. It is empty where the slot took nothing.
    Return { value: Handle, stored: Handle },
    /// The operation ends without a result.
    Done,
    /// The operation ends with the failure that the host's equality raised.
    Raise,
}

/// One entry into the slot.
#[derive(Clone, Copy, Debug, PartialEq, Eq)]
pub enum Call {
    Begin(Operation),
    Resume(Task),
    Answer(Comparison, Verdict),
}

/// The one atomic access that a call makes to the slot's content.
#[derive(Clone, Copy, Debug, PartialEq, Eq)]
pub enum Access {
    Nothing,
    Read,
    Swap(Handle),
    CompareAndSwap { current: Handle, new: Handle },
}

/// The access that a call makes.
pub open spec fn access_of(call: Call) -> Access {
    match call {
        Call::Begin(Operation::Load) => Access::Read,
        Call::Begin(Operation::Store(_)) => Access::Nothing,
        Call::Begin(Operation::Exchange(val)) => Access::Swap(val),
        Call::Begin(Operation::CompareExchange { .. }) => Access::Read,
        Call::Begin(Operation::Traverse) => Access::Read,
        Call::Begin(Operation::Clear) => Access::Swap(Handle::empty()),
        Call::Resume(Task::Swap(val)) => Access::Swap(val),
        Call::Resume(_) => Access::Nothing,
        Call::Answer(comparison, Verdict::Equal) => Access::CompareAndSwap {
            current: comparison.snapshot,
            new: comparison.desired,
        },
        Call::Answer(_, _) => Access::Nothing,
    }
}

/// What the slot holds after an access that found `held` in it.
pub open spec fn content_after(access: Access, held: Handle) -> Handle {
    match access {
        Access::Nothing => held,
        Access::Read => held,
        Access::Swap(new) => new,
        Access::CompareAndSwap { current, new } => if held == current {
            new
        } else {
            held
        },
    }
}

/// The step that a call yields when its access found `held` in the slot.
pub open spec fn conclusion(call: Call, held: Handle) -> Step {
    match call {
        Call::Begin(Operation::Load) => Step::Retain(
            held,
            Task::Return { value: held, stored: Handle::empty() },
        ),
        Call::Begin(Operation::Store(val)) => Step::Retain(val, Task::Swap(val)),
        Call::Begin(Operation::Exchange(val)) => Step::Return { value: held, stored: val },
        Call::Begin(Operation::CompareExchange { expected, desired }) => Step::Retain(
            held,
            Task::Compare(Comparison { expected, desired, snapshot: held }),
        ),
        Call::Begin(Operation::Traverse) => if held.is_empty() {
            Step::Done
        } else {
            Step::Visit(held)
        },
        Call::Begin(Operation::Clear) => Step::Release(held, Task::Done),
        Call::Resume(Task::Return { value, stored }) => Step::Return { value, stored },
        Call::Resume(Task::Done) => Step::Done,
        Call::Resume(Task::Raise) => Step::Raise,
        Call::Resume(Task::Swap(val)) => Step::Release(
            held,
            Task::Return { value: val, stored: val },
        ),
        Call::Resume(Task::Compare(comparison)) => Step::Compare(comparison),
        Call::Resume(Task::Retire { stale, next }) => Step::Release(stale, Task::Compare(next)),
        Call::Answer(comparison, Verdict::Different) => Step::Return {
            value: comparison.snapshot,
            stored: Handle::empty(),
        },
        Call::Answer(comparison, Verdict::Raised) => Step::Release(
            comparison.snapshot,
            Task::Raise,
        ),
        Call::Answer(comparison, Verdict::Equal) => if held == comparison.snapshot {
            Step::Release(
                comparison.snapshot,
                Task::Return { value: comparison.snapshot, stored: comparison.desired },
            )
        } else {
            Step::Retain(
                held,
                Task::Retire {
                    stale: comparison.snapshot,
                    next: Comparison {
                        expected: comparison.expected,
                        desired: comparison.desired,
                        snapshot: held,
                    },
                },
            )
        },
    }
}

/// The access that a call makes to the slot.
pub fn access(call: Call) -> (access: Access)
    ensures
        access == access_of(call),
{
    match call {
        Call::Begin(Operation::Load) => Access::Read,
        Call::Begin(Operation::Store(_)) => Access::Nothing,
        Call::Begin(Operation::Exchange(val)) => Access::Swap(val),
        Call::Begin(Operation::CompareExchange { .. }) => Access::Read,
        Call::Begin(Operation::Traverse) => Access::Read,
        Call::Begin(Operation::Clear) => Access::Swap(Handle::empty()),
        Call::Resume(Task::Swap(val)) => Access::Swap(val),
        Call::Resume(_) => Access::Nothing,
        Call::Answer(comparison, Verdict::Equal) => Access::CompareAndSwap {
            current: comparison.snapshot,
            new: comparison.desired,
        },
        Call::Answer(_, _) => Access::Nothing,
    }
}

/// The step that a call yields, given the handle that its access found in the
/// slot. Where the call makes no access, `held` does not matter.
pub fn conclude(call: Call, held: Handle) -> (step: Step)
    ensures
        step == conclusion(call, held),
{
    match call {
        Call::Begin(Operation::Load) => Step::Retain(
            held,
            Task::Return { value: held, stored: Handle::empty() },
        ),
        Call::Begin(Operation::Store(val)) => Step::Retain(val, Task::Swap(val)),
        Call::Begin(Operation::Exchange(val)) => Step::Return { value: held, stored: val },
        Call::Begin(Operation::CompareExchange { expected, desired }) => Step::Retain(
            held,
            Task::Compare(Comparison { expected, desired, snapshot: held }),
        ),
        Call::Begin(Operation::Traverse) => if held.is_empty() {
            Step::Done
        } else {
            Step::Visit(held)
        },
        Call::Begin(Operation::Clear) => Step::Release(held, Task::Done),
        Call::Resume(task) => continue_task(task, held),
        Call::Answer(comparison, verdict) => settle(comparison, verdict, held),
    }
}

/// The step that follows a request the caller has carried out.
fn continue_task(task: Task, held: Handle) -> (step: Step)
    ensures
        step == conclusion(Call::Resume(task), held),
{
    match task {
        Task::Return { value, stored } => Step::Return { value, stored },
        Task::Done => Step::Done,
        Task::Raise => Step::Raise,
        Task::Swap(val) => Step::Release(held, Task::Return { value: val, stored: val }),
        Task::Compare(comparison) => Step::Compare(comparison),
        Task::Retire { stale, next } => Step::Release(stale, Task::Compare(next)),
    }
}

/// The step that follows the host's verdict on a comparison. After `Equal`,
/// `held` is what the compare-and-swap found: the swap took place exactly if
/// that is the snapshot.
fn settle(comparison: Comparison, verdict: Verdict, held: Handle) -> (step: Step)
    ensures
        step == conclusion(Call::Answer(comparison, verdict), held),
{
    match verdict {
        Verdict::Different => Step::Return {
            value: comparison.snapshot,
            stored: Handle::empty(),
        },
        Verdict::Raised => Step::Release(comparison.snapshot, Task::Raise),
        Verdict::Equal => {
            if held.raw == comparison.snapshot.raw {
                Step::Release(
                    comparison.snapshot,
                    Task::Return { value: comparison.snapshot, stored: comparison.desired },
                )
            } else {
                Step::Retain(
                    held,
                    Task::Retire {
                        stale: comparison.snapshot,
                        next: Comparison {
                            expected: comparison.expected,
                            desired: comparison.desired,
                            snapshot: held,
                        },
                    },
                )
            }
        },
    }
}

} // verus!
