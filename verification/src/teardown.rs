//! Clearing a slot again is clearing it once.

use crate::protocol::{Handle, Operation, Step, Task};
use crate::world::{adjusted, advance, run, start};
use crate::world::{Move, Phase, World};
use vstd::prelude::*;

verus! {

/// A slot that holds `slot`, and `clears` threads that are each about to
/// clear it.
pub open spec fn teardown(slot: Handle, counts: Map<Handle, int>, clears: nat) -> World {
    start(slot, counts, Seq::new(clears, |i: int| Operation::Clear))
}

/// Where a clear can stand.
pub open spec fn clearing(phase: Phase) -> bool {
    match phase {
        Phase::Idle(Operation::Clear) => true,
        Phase::At(Step::Release(_, Task::Done)) => true,
        Phase::At(Step::Done) => true,
        _ => false,
    }
}

/// No clear has begun: all is as it was.
pub open spec fn intact(world: World, slot: Handle, counts: Map<Handle, int>) -> bool {
    &&& world.slot == slot
    &&& world.counts == counts
    &&& forall|j: int| 0 <= j < world.threads.len() ==> #[trigger] world.threads[j] is Idle
}

/// A clear has begun: the slot is empty, and the one reference that it held
/// has been given up.
pub open spec fn cleared(world: World, slot: Handle, counts: Map<Handle, int>) -> bool {
    &&& world.slot == Handle::empty()
    &&& world.counts == adjusted(counts, slot, -1)
    &&& exists|j: int| 0 <= j < world.threads.len() && !(#[trigger] world.threads[j] is Idle)
}

proof fn advance_keeps_clearing(world: World, turn: Move, slot: Handle, counts: Map<Handle, int>)
    requires
        forall|j: int| 0 <= j < world.threads.len() ==> clearing(#[trigger] world.threads[j]),
        intact(world, slot, counts) || cleared(world, slot, counts),
    ensures
        advance(world, turn).threads.len() == world.threads.len(),
        forall|j: int|
            0 <= j < world.threads.len() ==> clearing(#[trigger] advance(world, turn).threads[j]),
        intact(advance(world, turn), slot, counts) || cleared(advance(world, turn), slot, counts),
{
    let after = advance(world, turn);
    if 0 <= turn.thread < world.threads.len() {
        if cleared(world, slot, counts) {
            // A clear that has begun does not go back to being idle.
            let begun = choose|j: int|
                0 <= j < world.threads.len() && !(#[trigger] world.threads[j] is Idle);
            assert(!(after.threads[begun] is Idle));
        } else {
            // The first clear to move has begun.
            assert(!(after.threads[turn.thread] is Idle));
        }
    }
}

/// Clear a slot any number of times, one clear after the other or their steps
/// in any order. As long as none has begun, nothing has changed. Once the
/// first has begun, the slot is empty and exactly one reference has been
/// given up, the one to what the slot held: every further clear finds the
/// slot empty and gives up nothing.
pub proof fn clearing_again_changes_nothing(
    slot: Handle,
    counts: Map<Handle, int>,
    clears: nat,
    schedule: Seq<Move>,
)
    ensures
        run(teardown(slot, counts, clears), schedule).threads.len() == clears,
        forall|j: int|
            0 <= j < clears ==> clearing(
                #[trigger] run(teardown(slot, counts, clears), schedule).threads[j],
            ),
        intact(run(teardown(slot, counts, clears), schedule), slot, counts) || cleared(
            run(teardown(slot, counts, clears), schedule),
            slot,
            counts,
        ),
    decreases schedule.len(),
{
    if schedule.len() > 0 {
        clearing_again_changes_nothing(slot, counts, clears, schedule.drop_last());
        advance_keeps_clearing(
            run(teardown(slot, counts, clears), schedule.drop_last()),
            schedule.last(),
            slot,
            counts,
        );
    }
}

} // verus!
