//! No reference is lost and none is given up twice.

use crate::protocol::{Handle, Step, Task};
use crate::world::{advance, count, run};
use crate::world::{Move, Phase, World};
use vstd::prelude::*;

verus! {

/// One if `holder` is the object, zero if not.
pub open spec fn one_if(holder: Handle, object: Handle) -> int {
    if holder == object {
        1
    } else {
        0
    }
}

/// The references to an object that an operation will hold for its caller once
/// the task is resumed, less the references that the slot took from the caller.
pub open spec fn task_balance(task: Task, object: Handle) -> int {
    match task {
        Task::Return { value, stored } => one_if(value, object) - one_if(stored, object),
        Task::Done => 0,
        Task::Raise => 0,
        Task::Swap(val) => one_if(val, object),
        Task::Compare(comparison) => one_if(comparison.snapshot, object),
        Task::Retire { stale, next } => one_if(stale, object) + one_if(next.snapshot, object),
    }
}

/// The references to an object that a thread's operation holds for its caller,
/// less those that the slot took from the caller. An operation that has ended
/// with `Return { value, stored }` has handed one reference to `value` over
/// and has taken one reference to `stored`.
pub open spec fn balance(phase: Phase, object: Handle) -> int {
    match phase {
        Phase::Idle(_) => 0,
        Phase::At(Step::Retain(_, task)) => task_balance(task, object),
        Phase::At(Step::Release(_, task)) => task_balance(task, object),
        Phase::At(Step::Compare(comparison)) => one_if(comparison.snapshot, object),
        Phase::At(Step::Visit(_)) => 0,
        Phase::At(Step::Return { value, stored }) => one_if(value, object) - one_if(
            stored,
            object,
        ),
        Phase::At(Step::Done) => 0,
        Phase::At(Step::Raise) => 0,
    }
}

/// The balances of all threads, added up.
pub open spec fn total_balance(threads: Seq<Phase>, object: Handle) -> int
    decreases threads.len(),
{
    if threads.len() == 0 {
        0
    } else {
        total_balance(threads.drop_last(), object) + balance(threads.last(), object)
    }
}

/// The references to an object that neither the slot nor an operation on it
/// accounts for.
pub open spec fn elsewhere(world: World, object: Handle) -> int {
    count(world.counts, object) - one_if(world.slot, object) - total_balance(
        world.threads,
        object,
    )
}

proof fn total_balance_after_update(threads: Seq<Phase>, at: int, phase: Phase, object: Handle)
    requires
        0 <= at < threads.len(),
    ensures
        total_balance(threads.update(at, phase), object) == total_balance(threads, object)
            - balance(threads[at], object) + balance(phase, object),
    decreases threads.len(),
{
    let updated = threads.update(at, phase);
    if at == threads.len() - 1 {
        assert(updated.drop_last() =~= threads.drop_last());
    } else {
        assert(updated.drop_last() =~= threads.drop_last().update(at, phase));
        total_balance_after_update(threads.drop_last(), at, phase, object);
    }
}

/// Threads that have not begun hold nothing.
pub proof fn idle_threads_hold_nothing(threads: Seq<Phase>, object: Handle)
    requires
        forall|i: int| 0 <= i < threads.len() ==> #[trigger] threads[i] is Idle,
    ensures
        total_balance(threads, object) == 0,
    decreases threads.len(),
{
    if threads.len() > 0 {
        idle_threads_hold_nothing(threads.drop_last(), object);
    }
}

proof fn advance_conserves(world: World, turn: Move, object: Handle)
    requires
        !object.is_empty(),
    ensures
        elsewhere(advance(world, turn), object) == elsewhere(world, object),
{
    if 0 <= turn.thread < world.threads.len() {
        let after = advance(world, turn);
        total_balance_after_update(
            world.threads,
            turn.thread,
            after.threads[turn.thread],
            object,
        );
    }
}

/// Whatever the threads do and in whatever order, and whatever the host's
/// equality answers, the count of every object moves only with the slot and
/// with the references that operations hold for their callers: what the rest
/// of the program owns of the object is untouched.
pub proof fn references_elsewhere_are_untouched(world: World, schedule: Seq<Move>, object: Handle)
    requires
        !object.is_empty(),
    ensures
        elsewhere(run(world, schedule), object) == elsewhere(world, object),
    decreases schedule.len(),
{
    if schedule.len() > 0 {
        references_elsewhere_are_untouched(world, schedule.drop_last(), object);
        advance_conserves(run(world, schedule.drop_last()), schedule.last(), object);
    }
}

/// Reference counts are conserved. Start with every operation yet to begin and
/// run any schedule. Then the count of an object has changed by exactly:
/// one up if the slot holds the object now, one down if it held it at the
/// start, and for every operation the references it holds or has handed to
/// its caller less those the slot took from its caller. Nothing leaks and
/// nothing is released twice.
pub proof fn references_are_conserved(world: World, schedule: Seq<Move>, object: Handle)
    requires
        !object.is_empty(),
        forall|i: int| 0 <= i < world.threads.len() ==> #[trigger] world.threads[i] is Idle,
    ensures
        count(run(world, schedule).counts, object) - count(world.counts, object) == one_if(
            run(world, schedule).slot,
            object,
        ) - one_if(world.slot, object) + total_balance(run(world, schedule).threads, object),
{
    references_elsewhere_are_untouched(world, schedule, object);
    idle_threads_hold_nothing(world.threads, object);
}

} // verus!
