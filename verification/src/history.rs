//! The writes to one cell, in the one order in which they took place.
//!
//! A store and an exchange both put a value in the cell. The exchange hands
//! the value that it replaced to its caller; the store drops it.

use crate::primitive::{held_after, returned};
use crate::primitive::Request;
use vstd::prelude::*;

verus! {

/// Whether every call is a store or an exchange.
pub open spec fn all_write<V>(calls: Seq<Request<V>>) -> bool {
    forall|i: int| 0 <= i < calls.len() ==> (#[trigger] calls[i] is Store || calls[i] is Exchange)
}

/// The value that a store or an exchange brings.
pub open spec fn incoming<V>(call: Request<V>) -> V
    recommends
        call is Store || call is Exchange,
{
    match call {
        Request::Store(val) => val,
        Request::Exchange(val) => val,
        _ => arbitrary(),
    }
}

/// What the cell holds after the calls, in their order.
pub open spec fn content<V>(initial: V, calls: Seq<Request<V>>) -> V
    decreases calls.len(),
{
    if calls.len() == 0 {
        initial
    } else {
        held_after(content(initial, calls.drop_last()), calls.last())
    }
}

/// What each call found in the cell.
pub open spec fn found<V>(initial: V, calls: Seq<Request<V>>) -> Seq<V> {
    Seq::new(calls.len(), |i: int| content(initial, calls.take(i)))
}

/// After any stores and exchanges, from any threads, the cell holds the value
/// of the one that came last.
pub proof fn last_write_stands<V>(initial: V, calls: Seq<Request<V>>)
    requires
        all_write(calls),
        calls.len() > 0,
    ensures
        content(initial, calls) == incoming(calls.last()),
{
}

/// An exchange returns the value of the write just before it, or the cell's
/// first value where nothing was written before it.
pub proof fn exchange_returns_previous_write<V>(initial: V, calls: Seq<Request<V>>, at: int)
    requires
        all_write(calls),
        0 <= at < calls.len(),
        calls[at] is Exchange,
    ensures
        returned(found(initial, calls)[at], calls[at]) == if at == 0 {
            initial
        } else {
            incoming(calls[at - 1])
        },
{
}

/// No value is lost and none appears twice: the values that the writes found
/// and replaced, followed by the value that the cell holds in the end, are the
/// cell's first value followed by the values written, each once and in order.
pub proof fn every_value_leaves_once<V>(initial: V, calls: Seq<Request<V>>)
    requires
        all_write(calls),
    ensures
        found(initial, calls).push(content(initial, calls)) == seq![initial] + Seq::new(
            calls.len(),
            |i: int| incoming(calls[i]),
        ),
{
    assert(found(initial, calls).push(content(initial, calls)) =~= seq![initial] + Seq::new(
        calls.len(),
        |i: int| incoming(calls[i]),
    ));
}

} // verus!
