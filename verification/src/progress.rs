//! Left alone, every operation is over after a few calls, and a
//! compare-and-exchange goes round only when another thread has written.

use crate::protocol::{access_of, conclusion, content_after};
use crate::protocol::{Call, Comparison, Handle, Operation, Step, Task, Verdict};
use crate::world::{advance, finished, run, start};
use crate::world::{Move, Phase, World};
use vstd::prelude::*;

verus! {

/// The calls that a task still takes, at most, when no other thread writes the
/// slot.
pub open spec fn calls_after(task: Task) -> nat {
    match task {
        Task::Return { .. } => 1,
        Task::Done => 1,
        Task::Raise => 1,
        Task::Swap(_) => 2,
        Task::Compare(_) => 3,
        Task::Retire { .. } => 4,
    }
}

/// The calls that an operation still takes, at most, when no other thread
/// writes the slot.
pub open spec fn calls_left(phase: Phase) -> nat {
    match phase {
        Phase::Idle(Operation::Load) => 2,
        Phase::Idle(Operation::Store(_)) => 3,
        Phase::Idle(Operation::Exchange(_)) => 1,
        Phase::Idle(Operation::CompareExchange { .. }) => 4,
        Phase::Idle(Operation::Traverse) => 1,
        Phase::Idle(Operation::Clear) => 2,
        Phase::At(Step::Retain(_, task)) => calls_after(task),
        Phase::At(Step::Release(_, task)) => calls_after(task),
        Phase::At(Step::Compare(_)) => 2,
        _ => 0,
    }
}

/// A comparison in flight has the slot's content for its snapshot: nothing
/// has been written since the content was read.
pub open spec fn undisturbed(world: World) -> bool {
    &&& world.threads.len() == 1
    &&& match world.threads[0] {
        Phase::At(Step::Retain(_, Task::Compare(comparison))) => comparison.snapshot == world.slot,
        Phase::At(Step::Compare(comparison)) => comparison.snapshot == world.slot,
        Phase::At(Step::Retain(_, Task::Retire { .. })) => false,
        Phase::At(Step::Release(_, Task::Retire { .. })) => false,
        Phase::At(Step::Release(_, Task::Compare(_))) => false,
        _ => true,
    }
}

proof fn advance_comes_closer(world: World, turn: Move)
    requires
        undisturbed(world),
        turn.thread == 0,
    ensures
        undisturbed(advance(world, turn)),
        calls_left(world.threads[0]) > 0 ==> calls_left(advance(world, turn).threads[0])
            < calls_left(world.threads[0]),
        calls_left(world.threads[0]) == 0 ==> calls_left(advance(world, turn).threads[0]) == 0,
{
}

proof fn run_comes_closer(
    slot: Handle,
    counts: Map<Handle, int>,
    operation: Operation,
    schedule: Seq<Move>,
)
    requires
        forall|k: int| 0 <= k < schedule.len() ==> (#[trigger] schedule[k]).thread == 0,
    ensures
        undisturbed(run(start(slot, counts, seq![operation]), schedule)),
        calls_left(run(start(slot, counts, seq![operation]), schedule).threads[0])
            + schedule.len() <= 4 || calls_left(
            run(start(slot, counts, seq![operation]), schedule).threads[0],
        ) == 0,
    decreases schedule.len(),
{
    if schedule.len() > 0 {
        run_comes_closer(slot, counts, operation, schedule.drop_last());
        advance_comes_closer(
            run(start(slot, counts, seq![operation]), schedule.drop_last()),
            schedule.last(),
        );
    }
}

/// An operation that no other thread disturbs is over after four calls into
/// the slot at most, whatever the host's equality answers: nothing waits and
/// nothing goes round.
pub proof fn alone_it_ends_in_four_calls(
    slot: Handle,
    counts: Map<Handle, int>,
    operation: Operation,
    schedule: Seq<Move>,
)
    requires
        schedule.len() >= 4,
        forall|k: int| 0 <= k < schedule.len() ==> (#[trigger] schedule[k]).thread == 0,
    ensures
        finished(run(start(slot, counts, seq![operation]), schedule).threads[0]),
{
    run_comes_closer(slot, counts, operation, schedule);
}

/// A compare-and-exchange goes round only after a match, and only when the
/// slot no longer holds the snapshot: some other thread has written in
/// between. The attempt leaves the slot as it found it, and the next
/// comparison is made on what the slot holds now.
pub proof fn going_round_means_the_slot_has_changed(
    comparison: Comparison,
    verdict: Verdict,
    held: Handle,
)
    requires
        conclusion(Call::Answer(comparison, verdict), held) is Retain,
    ensures
        verdict == Verdict::Equal,
        held != comparison.snapshot,
        content_after(access_of(Call::Answer(comparison, verdict)), held) == held,
        conclusion(Call::Answer(comparison, verdict), held) == Step::Retain(
            held,
            Task::Retire {
                stale: comparison.snapshot,
                next: Comparison {
                    expected: comparison.expected,
                    desired: comparison.desired,
                    snapshot: held,
                },
            },
        ),
{
}

} // verus!
