//! What each operation does when no other thread comes between its calls.

use crate::protocol::{Handle, Operation, Step, Verdict};
use crate::world::{advance, count, start};
use crate::world::{Move, Phase, World};
use vstd::prelude::*;

verus! {

/// The world after a single thread has carried one operation through, with the
/// host's equality fixed. Four turns are enough for every operation, and a
/// turn after the end changes nothing.
pub open spec fn alone(
    slot: Handle,
    counts: Map<Handle, int>,
    operation: Operation,
    judge: spec_fn(Handle, Handle) -> Verdict,
) -> World {
    let turn = Move { thread: 0, judge };
    advance(advance(advance(advance(start(slot, counts, seq![operation]), turn), turn), turn), turn)
}

/// One if the object is `holder` and `holder` is an object at all, zero if
/// not: what one reference to `holder` adds to the count of the object.
pub open spec fn share(holder: Handle, object: Handle) -> int {
    if holder == object && !holder.is_empty() {
        1
    } else {
        0
    }
}

/// A load leaves the slot as it is, takes one reference to the content and
/// returns the content.
pub proof fn load_alone(
    slot: Handle,
    counts: Map<Handle, int>,
    judge: spec_fn(Handle, Handle) -> Verdict,
)
    ensures
        ({
            let end = alone(slot, counts, Operation::Load, judge);
            &&& end.slot == slot
            &&& end.threads[0] == Phase::At(Step::Return { value: slot, stored: Handle::empty() })
            &&& forall|object: Handle| #[trigger]
                count(end.counts, object) == count(counts, object) + share(slot, object)
        }),
{
}

/// A store puts `val` in the slot, gives up one reference to the old content,
/// takes one reference to `val` and returns `val`: the slot has the reference
/// that the caller brought, the caller has the new one.
pub proof fn store_alone(
    slot: Handle,
    counts: Map<Handle, int>,
    val: Handle,
    judge: spec_fn(Handle, Handle) -> Verdict,
)
    ensures
        ({
            let end = alone(slot, counts, Operation::Store(val), judge);
            &&& end.slot == val
            &&& end.threads[0] == Phase::At(Step::Return { value: val, stored: val })
            &&& forall|object: Handle| #[trigger]
                count(end.counts, object) == count(counts, object) + share(val, object) - share(
                    slot,
                    object,
                )
        }),
{
}

/// An exchange puts `val` in the slot and returns the old content. No count
/// changes: the caller's reference to `val` is the slot's now, and the slot's
/// reference to the old content is the caller's.
pub proof fn exchange_alone(
    slot: Handle,
    counts: Map<Handle, int>,
    val: Handle,
    judge: spec_fn(Handle, Handle) -> Verdict,
)
    ensures
        ({
            let end = alone(slot, counts, Operation::Exchange(val), judge);
            &&& end.slot == val
            &&& end.threads[0] == Phase::At(Step::Return { value: slot, stored: val })
            &&& end.counts == counts
        }),
{
}

/// A compare-and-exchange whose content the host finds equal to `expected`
/// puts `desired` in the slot and returns the old content. No count has
/// changed in the end: the caller's reference to `desired` is the slot's now,
/// and the slot's reference to the old content is the caller's.
pub proof fn compare_exchange_alone_on_a_match(
    slot: Handle,
    counts: Map<Handle, int>,
    expected: Handle,
    desired: Handle,
    judge: spec_fn(Handle, Handle) -> Verdict,
)
    requires
        judge(slot, expected) == Verdict::Equal,
    ensures
        ({
            let end = alone(slot, counts, Operation::CompareExchange { expected, desired }, judge);
            &&& end.slot == desired
            &&& end.threads[0] == Phase::At(Step::Return { value: slot, stored: desired })
            &&& forall|object: Handle| #[trigger]
                count(end.counts, object) == count(counts, object)
        }),
{
}

/// A compare-and-exchange whose content the host finds different from
/// `expected` leaves the slot as it is, takes one reference to the content and
/// returns the content. It takes nothing from the caller.
pub proof fn compare_exchange_alone_on_a_mismatch(
    slot: Handle,
    counts: Map<Handle, int>,
    expected: Handle,
    desired: Handle,
    judge: spec_fn(Handle, Handle) -> Verdict,
)
    requires
        judge(slot, expected) == Verdict::Different,
    ensures
        ({
            let end = alone(slot, counts, Operation::CompareExchange { expected, desired }, judge);
            &&& end.slot == slot
            &&& end.threads[0] == Phase::At(Step::Return { value: slot, stored: Handle::empty() })
            &&& forall|object: Handle| #[trigger]
                count(end.counts, object) == count(counts, object) + share(slot, object)
        }),
{
}

/// A compare-and-exchange on which the host's equality fails leaves the slot
/// as it is and every count as it was, and ends with the failure.
pub proof fn compare_exchange_alone_on_a_failure(
    slot: Handle,
    counts: Map<Handle, int>,
    expected: Handle,
    desired: Handle,
    judge: spec_fn(Handle, Handle) -> Verdict,
)
    requires
        judge(slot, expected) == Verdict::Raised,
    ensures
        ({
            let end = alone(slot, counts, Operation::CompareExchange { expected, desired }, judge);
            &&& end.slot == slot
            &&& end.threads[0] == Phase::At(Step::Raise)
            &&& forall|object: Handle| #[trigger]
                count(end.counts, object) == count(counts, object)
        }),
{
}

/// A traversal shows the content to the collector, or nothing where the slot
/// is empty, and changes neither the slot nor a count.
pub proof fn traverse_alone(
    slot: Handle,
    counts: Map<Handle, int>,
    judge: spec_fn(Handle, Handle) -> Verdict,
)
    ensures
        ({
            let end = alone(slot, counts, Operation::Traverse, judge);
            &&& end.slot == slot
            &&& end.counts == counts
            &&& end.threads[0] == if slot.is_empty() {
                Phase::At(Step::Done)
            } else {
                Phase::At(Step::Visit(slot))
            }
        }),
{
}

/// A clear empties the slot and gives up one reference to what it held.
pub proof fn clear_alone(
    slot: Handle,
    counts: Map<Handle, int>,
    judge: spec_fn(Handle, Handle) -> Verdict,
)
    ensures
        ({
            let end = alone(slot, counts, Operation::Clear, judge);
            &&& end.slot == Handle::empty()
            &&& end.threads[0] == Phase::At(Step::Done)
            &&& forall|object: Handle| #[trigger]
                count(end.counts, object) == count(counts, object) - share(slot, object)
        }),
{
}

} // verus!
