//! A compare-and-exchange whose comparisons all fail takes nothing.

use crate::protocol::{Comparison, Handle, Operation, Step, Task, Verdict};
use crate::world::{advance, finished, run};
use crate::world::{Move, Phase, World};
use vstd::prelude::*;

verus! {

/// The host finds nothing equal to `expected`.
pub open spec fn never_equal(judge: spec_fn(Handle, Handle) -> Verdict, expected: Handle) -> bool {
    forall|found: Handle| #[trigger] judge(found, expected) == Verdict::Different
}

/// Where a compare-and-exchange can stand as long as no comparison has
/// succeeded: it has read a snapshot and holds a reference to it, or it has
/// returned the snapshot.
pub open spec fn unmatched(phase: Phase, expected: Handle, desired: Handle) -> bool {
    match phase {
        Phase::Idle(operation) => operation == (Operation::CompareExchange { expected, desired }),
        Phase::At(Step::Retain(snapshot, Task::Compare(comparison))) => comparison == (Comparison {
            expected,
            desired,
            snapshot,
        }),
        Phase::At(Step::Compare(comparison)) => comparison.expected == expected
            && comparison.desired == desired,
        Phase::At(Step::Return { stored, .. }) => stored == Handle::empty(),
        _ => false,
    }
}

proof fn advance_keeps_unmatched(
    world: World,
    turn: Move,
    thread: int,
    expected: Handle,
    desired: Handle,
)
    requires
        0 <= thread < world.threads.len(),
        unmatched(world.threads[thread], expected, desired),
        never_equal(turn.judge, expected),
    ensures
        advance(world, turn).threads.len() == world.threads.len(),
        unmatched(advance(world, turn).threads[thread], expected, desired),
        turn.thread == thread ==> advance(world, turn).slot == world.slot,
{
}

proof fn run_keeps_unmatched(
    world: World,
    schedule: Seq<Move>,
    thread: int,
    expected: Handle,
    desired: Handle,
)
    requires
        0 <= thread < world.threads.len(),
        unmatched(world.threads[thread], expected, desired),
        forall|k: int|
            0 <= k < schedule.len() ==> never_equal(#[trigger] schedule[k].judge, expected),
    ensures
        run(world, schedule).threads.len() == world.threads.len(),
        unmatched(run(world, schedule).threads[thread], expected, desired),
    decreases schedule.len(),
{
    if schedule.len() > 0 {
        run_keeps_unmatched(world, schedule.drop_last(), thread, expected, desired);
        advance_keeps_unmatched(
            run(world, schedule.drop_last()),
            schedule.last(),
            thread,
            expected,
            desired,
        );
    }
}

/// Let a thread compare-and-exchange while the host finds nothing equal to
/// `expected`, among any other threads and in any order. Then no move of that
/// thread changes the slot, and when the thread is done it has returned a
/// snapshot and the slot has taken nothing from it: `desired` and the
/// reference to it are the caller's as before.
pub proof fn mismatch_takes_nothing(
    world: World,
    schedule: Seq<Move>,
    thread: int,
    expected: Handle,
    desired: Handle,
)
    requires
        0 <= thread < world.threads.len(),
        world.threads[thread] == Phase::Idle(Operation::CompareExchange { expected, desired }),
        forall|k: int|
            0 <= k < schedule.len() ==> never_equal(#[trigger] schedule[k].judge, expected),
    ensures
        finished(run(world, schedule).threads[thread]) ==> match run(
            world,
            schedule,
        ).threads[thread] {
            Phase::At(Step::Return { stored, .. }) => stored == Handle::empty(),
            _ => false,
        },
        forall|k: int|
            0 <= k < schedule.len() && (#[trigger] schedule[k]).thread == thread ==> run(
                world,
                schedule.take(k + 1),
            ).slot == run(world, schedule.take(k)).slot,
{
    run_keeps_unmatched(world, schedule, thread, expected, desired);
    assert forall|k: int|
        0 <= k < schedule.len() && (#[trigger] schedule[k]).thread == thread implies run(
        world,
        schedule.take(k + 1),
    ).slot == run(world, schedule.take(k)).slot by {
        // The run up to and with move `k` is the run up to it, then the move.
        assert(schedule.take(k + 1).drop_last() =~= schedule.take(k));
        run_keeps_unmatched(world, schedule.take(k), thread, expected, desired);
        advance_keeps_unmatched(
            run(world, schedule.take(k)),
            schedule[k],
            thread,
            expected,
            desired,
        );
    }
}

} // verus!
