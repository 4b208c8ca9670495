//! What the slot holds is alive, and so is what an operation holds.

use crate::conservation::{idle_threads_hold_nothing, references_elsewhere_are_untouched};
use crate::conservation::{balance, one_if, total_balance};
use crate::protocol::{Handle, Operation, Step, Task};
use crate::world::{advance, count, run, start};
use crate::world::{Move, Phase, World};
use vstd::prelude::*;

verus! {

/// The references to an object that the caller of an operation brings for the
/// slot to take.
pub open spec fn brought(operation: Operation, object: Handle) -> int {
    match operation {
        Operation::Store(val) => one_if(val, object),
        Operation::Exchange(val) => one_if(val, object),
        Operation::CompareExchange { desired, .. } => one_if(desired, object),
        _ => 0,
    }
}

/// What all callers bring of an object, added up.
pub open spec fn total_brought(operations: Seq<Operation>, object: Handle) -> int
    decreases operations.len(),
{
    if operations.len() == 0 {
        0
    } else {
        total_brought(operations.drop_last(), object) + brought(operations.last(), object)
    }
}

/// Whether a task can be what remains of an operation.
pub open spec fn task_of(operation: Operation, task: Task) -> bool {
    match task {
        Task::Return { stored, .. } => stored.is_empty() || brought(operation, stored) == 1,
        Task::Done => true,
        Task::Raise => true,
        Task::Swap(val) => operation == Operation::Store(val),
        Task::Compare(comparison) => operation == (Operation::CompareExchange {
            expected: comparison.expected,
            desired: comparison.desired,
        }),
        Task::Retire { next, .. } => operation == (Operation::CompareExchange {
            expected: next.expected,
            desired: next.desired,
        }),
    }
}

/// Whether a thread can stand at a phase in the course of an operation.
pub open spec fn phase_of(operation: Operation, phase: Phase) -> bool {
    match phase {
        Phase::Idle(idle) => idle == operation,
        Phase::At(Step::Retain(_, task)) => task_of(operation, task),
        Phase::At(Step::Release(_, task)) => task_of(operation, task),
        Phase::At(Step::Compare(comparison)) => operation == (Operation::CompareExchange {
            expected: comparison.expected,
            desired: comparison.desired,
        }),
        Phase::At(Step::Return { stored, .. }) => stored.is_empty() || brought(operation, stored)
            == 1,
        _ => true,
    }
}

/// Every thread stands where its operation can stand.
pub open spec fn in_course(world: World, operations: Seq<Operation>) -> bool {
    &&& world.threads.len() == operations.len()
    &&& forall|i: int|
        0 <= i < operations.len() ==> phase_of(operations[i], #[trigger] world.threads[i])
}

proof fn advance_stays_in_course(world: World, turn: Move, operations: Seq<Operation>)
    requires
        in_course(world, operations),
    ensures
        in_course(advance(world, turn), operations),
{
}

proof fn run_stays_in_course(
    slot: Handle,
    counts: Map<Handle, int>,
    operations: Seq<Operation>,
    schedule: Seq<Move>,
)
    ensures
        in_course(run(start(slot, counts, operations), schedule), operations),
    decreases schedule.len(),
{
    if schedule.len() > 0 {
        run_stays_in_course(slot, counts, operations, schedule.drop_last());
        advance_stays_in_course(
            run(start(slot, counts, operations), schedule.drop_last()),
            schedule.last(),
            operations,
        );
    }
}

proof fn nobody_owes(threads: Seq<Phase>, operations: Seq<Operation>, object: Handle)
    requires
        !object.is_empty(),
        threads.len() == operations.len(),
        forall|i: int| 0 <= i < operations.len() ==> phase_of(operations[i], #[trigger] threads[i]),
    ensures
        total_brought(operations, object) + total_balance(threads, object) >= 0,
        forall|i: int|
            0 <= i < operations.len() ==> total_brought(operations, object) + total_balance(
                threads,
                object,
            ) >= brought(operations[i], object) + balance(#[trigger] threads[i], object) >= 0,
    decreases threads.len(),
{
    if threads.len() > 0 {
        let last = threads.len() - 1;
        nobody_owes(threads.drop_last(), operations.drop_last(), object);
        assert forall|i: int| 0 <= i < operations.len() implies total_brought(operations, object)
            + total_balance(threads, object) >= brought(operations[i], object) + balance(
            #[trigger] threads[i],
            object,
        ) >= 0 by {
            if i < last {
                assert(threads.drop_last()[i] == threads[i]);
            }
        }
    }
}

/// Let every caller own the references that it brings: at the start, the
/// count of each object covers the slot's reference and one reference for
/// every operation that brings the object. Then at every moment of every
/// schedule the count of each object covers the slot's reference to it, and
/// besides that every reference that an operation holds or has handed to its
/// caller, and every reference that a caller has brought and the slot has not
/// taken. So the slot never holds an object whose count is zero, and no
/// operation gives up a reference that is not there.
pub proof fn held_objects_are_alive(
    slot: Handle,
    counts: Map<Handle, int>,
    operations: Seq<Operation>,
    schedule: Seq<Move>,
    object: Handle,
)
    requires
        !object.is_empty(),
        count(counts, object) >= one_if(slot, object) + total_brought(operations, object),
    ensures
        ({
            let now = run(start(slot, counts, operations), schedule);
            &&& now.threads.len() == operations.len()
            &&& count(now.counts, object) >= one_if(now.slot, object)
            &&& forall|i: int|
                0 <= i < operations.len() ==> count(now.counts, object) >= one_if(
                    now.slot,
                    object,
                ) + brought(operations[i], object) + balance(#[trigger] now.threads[i], object)
            &&& forall|i: int|
                0 <= i < operations.len() ==> brought(operations[i], object) + balance(
                    #[trigger] now.threads[i],
                    object,
                ) >= 0
        }),
{
    let begin = start(slot, counts, operations);
    let now = run(begin, schedule);
    run_stays_in_course(slot, counts, operations, schedule);
    references_elsewhere_are_untouched(begin, schedule, object);
    idle_threads_hold_nothing(begin.threads, object);
    nobody_owes(now.threads, operations, object);
}

} // verus!
