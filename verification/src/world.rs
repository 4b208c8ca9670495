//! Many operations on one slot, interleaved.
//!
//! Every access to the slot is sequentially consistent, so whatever threads do
//! to one slot happens in some single order. A [`World`] is the slot, the
//! host's reference counts and the operations in flight; a schedule is that
//! order. One [`Move`] lets one thread make its next call into the slot and
//! carries out the `Retain` or `Release` that the call asks for. The call's
//! access and that request happen in the same move: the host keeps an object
//! alive between the instant the slot is read and the instant the reference to
//! what was read is counted.

use crate::protocol::{access_of, conclusion, content_after};
use crate::protocol::{Call, Handle, Operation, Step, Verdict};
use vstd::prelude::*;

verus! {

/// Where one thread stands: about to begin an operation, or at the step that
/// its last call yielded.
pub enum Phase {
    Idle(Operation),
    At(Step),
}

/// One turn of one thread. `judge` is the host's equality as it stands at the
/// turn: it may differ from turn to turn, and it may fail.
pub struct Move {
    pub thread: int,
    pub judge: spec_fn(Handle, Handle) -> Verdict,
}

pub struct World {
    pub slot: Handle,
    pub counts: Map<Handle, int>,
    pub threads: Seq<Phase>,
}

/// A slot that holds `slot`, and one thread for each operation, about to
/// begin it.
pub open spec fn start(
    slot: Handle,
    counts: Map<Handle, int>,
    operations: Seq<Operation>,
) -> World {
    World {
        slot,
        counts,
        threads: Seq::new(operations.len(), |i: int| Phase::Idle(operations[i])),
    }
}

/// The reference count of an object; zero where the host has no count for it.
pub open spec fn count(counts: Map<Handle, int>, object: Handle) -> int {
    if counts.dom().contains(object) {
        counts[object]
    } else {
        0
    }
}

/// The counts after `by` references to an object were added. Counting a
/// reference to no object does nothing.
pub open spec fn adjusted(counts: Map<Handle, int>, object: Handle, by: int) -> Map<Handle, int> {
    if object.is_empty() {
        counts
    } else {
        counts.insert(object, count(counts, object) + by)
    }
}

/// The counts after the host has carried out what a step asks for.
pub open spec fn performed(step: Step, counts: Map<Handle, int>) -> Map<Handle, int> {
    match step {
        Step::Retain(object, _) => adjusted(counts, object, 1),
        Step::Release(object, _) => adjusted(counts, object, -1),
        _ => counts,
    }
}

/// Whether an operation is over.
pub open spec fn finished(phase: Phase) -> bool {
    match phase {
        Phase::At(Step::Return { .. }) => true,
        Phase::At(Step::Done) => true,
        Phase::At(Step::Raise) => true,
        Phase::At(Step::Visit(_)) => true,
        _ => false,
    }
}

/// The call that a thread makes next, if its operation is not over.
pub open spec fn next_call(phase: Phase, judge: spec_fn(Handle, Handle) -> Verdict) -> Option<
    Call,
> {
    match phase {
        Phase::Idle(operation) => Some(Call::Begin(operation)),
        Phase::At(Step::Retain(_, task)) => Some(Call::Resume(task)),
        Phase::At(Step::Release(_, task)) => Some(Call::Resume(task)),
        Phase::At(Step::Compare(comparison)) => Some(
            Call::Answer(comparison, judge(comparison.snapshot, comparison.expected)),
        ),
        _ => None,
    }
}

/// The world after one move. A move of a thread that does not exist, or whose
/// operation is over, changes nothing.
pub open spec fn advance(world: World, turn: Move) -> World {
    if 0 <= turn.thread < world.threads.len() {
        match next_call(world.threads[turn.thread], turn.judge) {
            Some(call) => {
                let step = conclusion(call, world.slot);
                World {
                    slot: content_after(access_of(call), world.slot),
                    counts: performed(step, world.counts),
                    threads: world.threads.update(turn.thread, Phase::At(step)),
                }
            },
            None => world,
        }
    } else {
        world
    }
}

/// The world after a schedule of moves.
pub open spec fn run(world: World, schedule: Seq<Move>) -> World
    decreases schedule.len(),
{
    if schedule.len() == 0 {
        world
    } else {
        advance(run(world, schedule.drop_last()), schedule.last())
    }
}

} // verus!
