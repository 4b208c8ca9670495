//! Threads that race to replace the same content: one wins.

use crate::protocol::{Comparison, Handle, Operation, Step, Task, Verdict};
use crate::world::{advance, finished, run, start};
use crate::world::{Move, Phase, World};
use vstd::prelude::*;

verus! {

/// A slot that holds `old`, and one thread for each handle in `desired`, each
/// about to put its handle in the place of `old`.
pub open spec fn contest(old: Handle, desired: Seq<Handle>, counts: Map<Handle, int>) -> World {
    start(
        old,
        counts,
        Seq::new(
            desired.len(),
            |i: int| Operation::CompareExchange { expected: old, desired: desired[i] },
        ),
    )
}

/// The host finds `old` equal to itself and to none of the handles that the
/// threads bring.
pub open spec fn tells_apart(
    judge: spec_fn(Handle, Handle) -> Verdict,
    old: Handle,
    desired: Seq<Handle>,
) -> bool {
    &&& judge(old, old) == Verdict::Equal
    &&& forall|i: int|
        0 <= i < desired.len() ==> judge(#[trigger] desired[i], old) == Verdict::Different
}

/// The comparison of a thread that brings `mine` and has read `snapshot`.
pub open spec fn attempt(old: Handle, mine: Handle, snapshot: Handle) -> Comparison {
    Comparison { expected: old, desired: mine, snapshot }
}

/// A thread that has not yet tried to swap since it read `snapshot`.
pub open spec fn comparing(phase: Phase, old: Handle, mine: Handle, snapshot: Handle) -> bool {
    ||| phase == Phase::At(Step::Retain(snapshot, Task::Compare(attempt(old, mine, snapshot))))
    ||| phase == Phase::At(Step::Compare(attempt(old, mine, snapshot)))
}

/// The thread whose swap took place.
pub open spec fn won(phase: Phase, old: Handle, mine: Handle) -> bool {
    ||| phase == Phase::At(Step::Release(old, Task::Return { value: old, stored: mine }))
    ||| phase == Phase::At(Step::Return { value: old, stored: mine })
}

/// A thread other than the winner, once the winner's handle is in the slot.
pub open spec fn beaten(phase: Phase, old: Handle, mine: Handle, winner: Handle) -> bool {
    ||| phase == Phase::Idle(Operation::CompareExchange { expected: old, desired: mine })
    ||| comparing(phase, old, mine, old)
    ||| comparing(phase, old, mine, winner)
    ||| phase == Phase::At(
        Step::Retain(winner, Task::Retire { stale: old, next: attempt(old, mine, winner) }),
    )
    ||| phase == Phase::At(Step::Release(old, Task::Compare(attempt(old, mine, winner))))
    ||| phase == Phase::At(Step::Return { value: winner, stored: Handle::empty() })
}

/// No swap has taken place yet.
pub open spec fn undecided(world: World, old: Handle, desired: Seq<Handle>) -> bool {
    &&& world.slot == old
    &&& world.threads.len() == desired.len()
    &&& forall|j: int|
        0 <= j < desired.len() ==> {
            ||| #[trigger] world.threads[j] == Phase::Idle(
                Operation::CompareExchange { expected: old, desired: desired[j] },
            )
            ||| comparing(world.threads[j], old, desired[j], old)
        }
}

/// The swap of thread `winner` has taken place, and no other.
pub open spec fn decided(world: World, old: Handle, desired: Seq<Handle>, winner: int) -> bool {
    &&& 0 <= winner < desired.len()
    &&& world.slot == desired[winner]
    &&& world.threads.len() == desired.len()
    &&& won(world.threads[winner], old, desired[winner])
    &&& forall|j: int|
        0 <= j < desired.len() && j != winner ==> beaten(
            #[trigger] world.threads[j],
            old,
            desired[j],
            desired[winner],
        )
}

proof fn advance_opens_or_decides(
    world: World,
    turn: Move,
    old: Handle,
    desired: Seq<Handle>,
)
    requires
        undecided(world, old, desired),
        tells_apart(turn.judge, old, desired),
        forall|i: int| 0 <= i < desired.len() ==> #[trigger] desired[i] != old,
    ensures
        undecided(advance(world, turn), old, desired) || decided(
            advance(world, turn),
            old,
            desired,
            turn.thread,
        ),
{
    if 0 <= turn.thread < world.threads.len() {
        // The thread that moves is idle or comparing, as every thread is.
        let me = turn.thread;
        assert(world.threads[me] == Phase::Idle(
            Operation::CompareExchange { expected: old, desired: desired[me] },
        ) || comparing(world.threads[me], old, desired[me], old));
    }
}

proof fn advance_keeps_decided(
    world: World,
    turn: Move,
    old: Handle,
    desired: Seq<Handle>,
    winner: int,
)
    requires
        decided(world, old, desired, winner),
        tells_apart(turn.judge, old, desired),
        forall|i: int| 0 <= i < desired.len() ==> #[trigger] desired[i] != old,
    ensures
        decided(advance(world, turn), old, desired, winner),
{
}

proof fn race_is_undecided_or_decided(
    old: Handle,
    desired: Seq<Handle>,
    counts: Map<Handle, int>,
    schedule: Seq<Move>,
) -> (winner: int)
    requires
        forall|i: int| 0 <= i < desired.len() ==> #[trigger] desired[i] != old,
        forall|k: int|
            0 <= k < schedule.len() ==> tells_apart(#[trigger] schedule[k].judge, old, desired),
    ensures
        undecided(run(contest(old, desired, counts), schedule), old, desired) || decided(
            run(contest(old, desired, counts), schedule),
            old,
            desired,
            winner,
        ),
    decreases schedule.len(),
{
    if schedule.len() == 0 {
        0
    } else {
        let before = run(contest(old, desired, counts), schedule.drop_last());
        let winner = race_is_undecided_or_decided(old, desired, counts, schedule.drop_last());
        if undecided(before, old, desired) {
            advance_opens_or_decides(before, schedule.last(), old, desired);
            schedule.last().thread
        } else {
            advance_keeps_decided(before, schedule.last(), old, desired, winner);
            winner
        }
    }
}

/// Let any number of threads, at least one, each try to put a handle of its
/// own in the place of `old`, in a slot that holds `old`, while the host tells
/// `old` apart from each of those handles. Run them in any order until all are
/// done. Then exactly one thread has swapped: it returns `old` and its handle
/// is in the slot. Every other thread returns the winner's handle, and the
/// slot has taken nothing from it.
pub proof fn one_contender_wins(
    old: Handle,
    desired: Seq<Handle>,
    counts: Map<Handle, int>,
    schedule: Seq<Move>,
) -> (winner: int)
    requires
        desired.len() > 0,
        forall|i: int| 0 <= i < desired.len() ==> #[trigger] desired[i] != old,
        forall|k: int|
            0 <= k < schedule.len() ==> tells_apart(#[trigger] schedule[k].judge, old, desired),
    ensures
        ({
            let end = run(contest(old, desired, counts), schedule);
            (forall|j: int| 0 <= j < desired.len() ==> finished(#[trigger] end.threads[j])) ==> {
                &&& 0 <= winner < desired.len()
                &&& end.slot == desired[winner]
                &&& end.threads[winner] == Phase::At(
                    Step::Return { value: old, stored: desired[winner] },
                )
                &&& forall|j: int|
                    0 <= j < desired.len() && j != winner ==> #[trigger] end.threads[j]
                        == Phase::At(
                        Step::Return { value: desired[winner], stored: Handle::empty() },
                    )
            }
        }),
{
    let end = run(contest(old, desired, counts), schedule);
    let winner = race_is_undecided_or_decided(old, desired, counts, schedule);
    if undecided(end, old, desired) {
        // Before any swap no thread is done, and there is at least one.
        assert(!finished(end.threads[0]));
    }
    winner
}

} // verus!
