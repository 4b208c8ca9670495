//! The boolean flag and the 32-bit counter.
//!
//! Each method is one sequentially consistent hardware access, so all calls
//! on one cell, from all threads, take place in a single order. A cell is
//! shared: between any two calls of one thread another thread may write. A
//! contract therefore speaks of the value that the access found in the cell,
//! whatever it was, and never of what an earlier call left there.

use std::sync::atomic::Ordering;
use vstd::prelude::*;

verus! {

/// What the four accesses common to all cells ask for.
pub enum Request<V> {
    Load,
    Store(V),
    Exchange(V),
    CompareExchange { expected: V, new: V },
}

/// What a cell holds after an access that found `held` in it.
pub open spec fn held_after<V>(held: V, request: Request<V>) -> V {
    match request {
        Request::Load => held,
        Request::Store(val) => val,
        Request::Exchange(val) => val,
        Request::CompareExchange { expected, new } => if held == expected {
            new
        } else {
            held
        },
    }
}

/// What an access returns when it finds `held` in the cell. A load and an
/// exchange return what they found; a store returns what it wrote; a
/// compare-and-exchange returns what the cell holds once it is over, with no
/// word on whether it wrote.
pub open spec fn returned<V>(held: V, request: Request<V>) -> V {
    match request {
        Request::Load => held,
        Request::Store(val) => val,
        Request::Exchange(_) => held,
        Request::CompareExchange { .. } => held_after(held, request),
    }
}

/// A boolean flag shared between threads.
pub struct AtomicBool {
    inner: std::sync::atomic::AtomicBool,
}

impl AtomicBool {
    /// A flag that holds `val`.
    pub fn new(val: bool) -> Self {
        AtomicBool { inner: std::sync::atomic::AtomicBool::new(val) }
    }

    /// Reads the flag.
    pub fn load(&self) -> bool {
        self.inner.load(Ordering::SeqCst)
    }

    /// Writes `val` and returns it.
    pub fn store(&self, val: bool) -> (stored: bool)
        ensures
            stored == val,
    {
        self.inner.store(val, Ordering::SeqCst);
        val
    }

    /// Writes `val` and returns the value it replaced.
    pub fn exchange(&self, val: bool) -> bool {
        self.inner.swap(val, Ordering::SeqCst)
    }

    /// Writes `new` if the flag holds `expected`. Returns what the flag holds
    /// once the access is over: `new` where it wrote, and what it found where
    /// it did not.
    pub fn compare_exchange(&self, expected: bool, new: bool) -> (now: bool)
        ensures
            exists|held: bool|
                now == #[trigger] returned(held, Request::CompareExchange { expected, new }),
            expected != new ==> now == new,
    {
        let found = match self.inner.compare_exchange(
            expected,
            new,
            Ordering::SeqCst,
            Ordering::SeqCst,
        ) {
            Ok(found) => found,
            Err(found) => found,
        };
        let now = resulting_bool(found, expected, new);
        assert(now == returned(found, Request::CompareExchange { expected, new }));
        now
    }
}

/// What a flag holds after a compare-and-exchange that found `found` in it.
pub fn resulting_bool(found: bool, expected: bool, new: bool) -> (now: bool)
    ensures
        now == held_after(found, Request::CompareExchange { expected, new }),
{
    if found == expected {
        new
    } else {
        found
    }
}

/// A 32-bit signed counter shared between threads.
pub struct AtomicInt {
    inner: std::sync::atomic::AtomicI32,
}

impl AtomicInt {
    /// A counter that holds `val`.
    pub fn new(val: i32) -> Self {
        AtomicInt { inner: std::sync::atomic::AtomicI32::new(val) }
    }

    /// Reads the counter.
    pub fn load(&self) -> i32 {
        self.inner.load(Ordering::SeqCst)
    }

    /// Writes `val` and returns it.
    pub fn store(&self, val: i32) -> (stored: i32)
        ensures
            stored == val,
    {
        self.inner.store(val, Ordering::SeqCst);
        val
    }

    /// Writes `val` and returns the value it replaced.
    pub fn exchange(&self, val: i32) -> i32 {
        self.inner.swap(val, Ordering::SeqCst)
    }

    /// Writes `new` if the counter holds `expected`. Returns what the counter
    /// holds once the access is over: `new` where it wrote, and what it found
    /// where it did not.
    pub fn compare_exchange(&self, expected: i32, new: i32) -> (now: i32)
        ensures
            exists|held: i32|
                now == #[trigger] returned(held, Request::CompareExchange { expected, new }),
            now == new || now != expected,
    {
        let found = match self.inner.compare_exchange(
            expected,
            new,
            Ordering::SeqCst,
            Ordering::SeqCst,
        ) {
            Ok(found) => found,
            Err(found) => found,
        };
        let now = resulting_int(found, expected, new);
        assert(now == returned(found, Request::CompareExchange { expected, new }));
        now
    }

    /// Adds `val`, wrapping round in two's complement, and returns the value
    /// from before the addition.
    pub fn fetch_add(&self, val: i32) -> i32 {
        self.inner.fetch_add(val, Ordering::SeqCst)
    }

    /// Subtracts `val`, wrapping round in two's complement, and returns the
    /// value from before the subtraction.
    pub fn fetch_sub(&self, val: i32) -> i32 {
        self.inner.fetch_sub(val, Ordering::SeqCst)
    }

    /// Replaces the value by its bitwise and with `val`, and returns the value
    /// from before.
    pub fn fetch_and(&self, val: i32) -> i32 {
        self.inner.fetch_and(val, Ordering::SeqCst)
    }

    /// Replaces the value by its bitwise or with `val`, and returns the value
    /// from before.
    pub fn fetch_or(&self, val: i32) -> i32 {
        self.inner.fetch_or(val, Ordering::SeqCst)
    }

    /// Replaces the value by its bitwise exclusive or with `val`, and returns
    /// the value from before.
    pub fn fetch_xor(&self, val: i32) -> i32 {
        self.inner.fetch_xor(val, Ordering::SeqCst)
    }
}

/// What a counter holds after a compare-and-exchange that found `found` in it.
pub fn resulting_int(found: i32, expected: i32, new: i32) -> (now: i32)
    ensures
        now == held_after(found, Request::CompareExchange { expected, new }),
{
    if found == expected {
        new
    } else {
        found
    }
}

} // verus!
