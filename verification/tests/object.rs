use haxe_atomic::object::AtomicObject;
use haxe_atomic::protocol::{Comparison, Handle, Step, Task, Verdict};
use std::collections::HashMap;

fn obj(raw: usize) -> Handle {
    Handle { raw }
}

/// A host that counts references and records what it was asked to do.
struct Host {
    counts: HashMap<usize, i64>,
    visited: Vec<usize>,
    compared: Vec<(usize, usize)>,
}

#[derive(Debug, PartialEq)]
enum Ending {
    Returned { value: Handle, stored: Handle },
    Done,
    Raised,
}

impl Host {
    fn with(counts: &[(usize, i64)]) -> Host {
        Host { counts: counts.iter().cloned().collect(), visited: Vec::new(), compared: Vec::new() }
    }

    fn count(&self, raw: usize) -> i64 {
        self.counts.get(&raw).cloned().unwrap_or(0)
    }

    fn retain(&mut self, object: Handle) {
        if !object.is_empty() {
            *self.counts.entry(object.raw).or_insert(0) += 1;
        }
    }

    fn release(&mut self, object: Handle) {
        if !object.is_empty() {
            let count = self.counts.entry(object.raw).or_insert(0);
            assert!(*count > 0, "released an object that nobody holds");
            *count -= 1;
        }
    }

    /// Carries an operation through, comparing by identity unless `judge`
    /// says otherwise.
    fn finish(
        &mut self,
        slot: &AtomicObject,
        first: Step,
        judge: &dyn Fn(usize, usize) -> Verdict,
    ) -> Ending {
        let mut step = first;
        loop {
            step = match step {
                Step::Retain(object, task) => {
                    self.retain(object);
                    slot.resume(task)
                }
                Step::Release(object, task) => {
                    self.release(object);
                    slot.resume(task)
                }
                Step::Compare(comparison) => {
                    self.compared.push((comparison.snapshot.raw, comparison.expected.raw));
                    slot.answer(comparison, judge(comparison.snapshot.raw, comparison.expected.raw))
                }
                Step::Visit(object) => {
                    self.visited.push(object.raw);
                    return Ending::Done;
                }
                Step::Return { value, stored } => return Ending::Returned { value, stored },
                Step::Done => return Ending::Done,
                Step::Raise => return Ending::Raised,
            };
        }
    }
}

fn identity(found: usize, expected: usize) -> Verdict {
    if found == expected {
        Verdict::Equal
    } else {
        Verdict::Different
    }
}

fn never(_found: usize, _expected: usize) -> Verdict {
    Verdict::Different
}

fn failing(_found: usize, _expected: usize) -> Verdict {
    Verdict::Raised
}

/// Books what an operation handed to its caller and what the slot took.
fn account(mine: &mut HashMap<usize, i64>, ending: &Ending) {
    if let Ending::Returned { value, stored } = ending {
        if !value.is_empty() {
            *mine.entry(value.raw).or_insert(0) += 1;
        }
        if !stored.is_empty() {
            *mine.entry(stored.raw).or_insert(0) -= 1;
        }
    }
}

fn peek(slot: &AtomicObject) -> Handle {
    match slot.load() {
        Step::Retain(object, _) => object,
        other => panic!("a load begins with a reference, not with {:?}", other),
    }
}

#[test]
fn new_refuses_the_empty_handle() {
    assert!(AtomicObject::new(Handle::empty()).is_none());
    assert!(AtomicObject::new(obj(1)).is_some());
}

#[test]
fn load_hands_out_a_counted_reference() {
    let slot = AtomicObject::new(obj(10)).unwrap();
    let mut host = Host::with(&[(10, 1)]);
    let first = slot.load();
    assert_eq!(
        first,
        Step::Retain(obj(10), Task::Return { value: obj(10), stored: Handle::empty() })
    );
    let ending = host.finish(&slot, first, &identity);
    assert_eq!(ending, Ending::Returned { value: obj(10), stored: Handle::empty() });
    assert_eq!(host.count(10), 2);
    assert_eq!(peek(&slot), obj(10));
}

#[test]
fn store_releases_the_old_and_returns_the_new() {
    let slot = AtomicObject::new(obj(10)).unwrap();
    let mut host = Host::with(&[(10, 1), (20, 1)]);
    let first = slot.store(obj(20));
    assert_eq!(first, Step::Retain(obj(20), Task::Swap(obj(20))));
    assert_eq!(peek(&slot), obj(10));
    let ending = host.finish(&slot, first, &identity);
    assert_eq!(ending, Ending::Returned { value: obj(20), stored: obj(20) });
    assert_eq!(host.count(10), 0);
    assert_eq!(host.count(20), 2);
    assert_eq!(peek(&slot), obj(20));
}

#[test]
fn exchange_counts_nothing() {
    let slot = AtomicObject::new(obj(10)).unwrap();
    let mut host = Host::with(&[(10, 1), (20, 1)]);
    let first = slot.exchange(obj(20));
    assert_eq!(first, Step::Return { value: obj(10), stored: obj(20) });
    let ending = host.finish(&slot, first, &identity);
    assert_eq!(ending, Ending::Returned { value: obj(10), stored: obj(20) });
    assert_eq!(host.count(10), 1);
    assert_eq!(host.count(20), 1);
    assert_eq!(peek(&slot), obj(20));
}

#[test]
fn compare_exchange_swaps_on_a_match() {
    let slot = AtomicObject::new(obj(10)).unwrap();
    let mut host = Host::with(&[(10, 1), (20, 1)]);
    let ending = host.finish(&slot, slot.compare_exchange(obj(10), obj(20)), &identity);
    assert_eq!(ending, Ending::Returned { value: obj(10), stored: obj(20) });
    assert_eq!(host.compared, vec![(10, 10)]);
    assert_eq!(host.count(10), 1);
    assert_eq!(host.count(20), 1);
    assert_eq!(peek(&slot), obj(20));
}

#[test]
fn compare_exchange_goes_by_the_hosts_equality() {
    let slot = AtomicObject::new(obj(10)).unwrap();
    let mut host = Host::with(&[(10, 1), (11, 1), (20, 1)]);
    let alike = |found: usize, expected: usize| {
        if found / 10 == expected / 10 {
            Verdict::Equal
        } else {
            Verdict::Different
        }
    };
    let ending = host.finish(&slot, slot.compare_exchange(obj(11), obj(20)), &alike);
    assert_eq!(ending, Ending::Returned { value: obj(10), stored: obj(20) });
    assert_eq!(host.compared, vec![(10, 11)]);
    assert_eq!(peek(&slot), obj(20));
}

#[test]
fn compare_exchange_mismatch_leaves_slot_and_desired() {
    let slot = AtomicObject::new(obj(10)).unwrap();
    let mut host = Host::with(&[(10, 1), (20, 1), (30, 1)]);
    let ending = host.finish(&slot, slot.compare_exchange(obj(30), obj(20)), &never);
    assert_eq!(ending, Ending::Returned { value: obj(10), stored: Handle::empty() });
    assert_eq!(host.count(10), 2);
    assert_eq!(host.count(20), 1);
    assert_eq!(host.count(30), 1);
    assert_eq!(peek(&slot), obj(10));
}

#[test]
fn compare_exchange_passes_a_failing_equality_on() {
    let slot = AtomicObject::new(obj(10)).unwrap();
    let mut host = Host::with(&[(10, 1), (20, 1)]);
    let ending = host.finish(&slot, slot.compare_exchange(obj(10), obj(20)), &failing);
    assert_eq!(ending, Ending::Raised);
    assert_eq!(host.count(10), 1);
    assert_eq!(host.count(20), 1);
    assert_eq!(peek(&slot), obj(10));
}

#[test]
fn compare_exchange_retries_after_losing_the_race() {
    let slot = AtomicObject::new(obj(10)).unwrap();
    let mut host = Host::with(&[(10, 1), (20, 1), (30, 1)]);
    let comparison = match slot.compare_exchange(obj(10), obj(30)) {
        Step::Retain(object, Task::Compare(comparison)) => {
            host.retain(object);
            comparison
        }
        other => panic!("unexpected first step {:?}", other),
    };
    assert_eq!(comparison, Comparison { expected: obj(10), desired: obj(30), snapshot: obj(10) });
    // Another thread gets in between the read and the swap.
    let other = host.finish(&slot, slot.exchange(obj(20)), &identity);
    assert_eq!(other, Ending::Returned { value: obj(10), stored: obj(20) });
    let lost = slot.answer(comparison, Verdict::Equal);
    let fresh = Comparison { expected: obj(10), desired: obj(30), snapshot: obj(20) };
    assert_eq!(lost, Step::Retain(obj(20), Task::Retire { stale: obj(10), next: fresh }));
    let ending = host.finish(&slot, lost, &identity);
    assert_eq!(ending, Ending::Returned { value: obj(20), stored: Handle::empty() });
    assert_eq!(host.compared, vec![(20, 10)]);
    assert_eq!(host.count(10), 1);
    assert_eq!(host.count(20), 2);
    assert_eq!(host.count(30), 1);
    assert_eq!(peek(&slot), obj(20));
}

#[test]
fn two_contenders_one_winner() {
    let slot = AtomicObject::new(obj(10)).unwrap();
    let mut host = Host::with(&[(10, 1), (20, 1), (30, 1)]);
    let first = slot.compare_exchange(obj(10), obj(20));
    let second = slot.compare_exchange(obj(10), obj(30));
    let (first, second) = match (first, second) {
        (Step::Retain(a, Task::Compare(first)), Step::Retain(b, Task::Compare(second))) => {
            host.retain(a);
            host.retain(b);
            (first, second)
        }
        other => panic!("unexpected first steps {:?}", other),
    };
    let won = host.finish(&slot, slot.answer(first, identity(10, 10)), &identity);
    let lost = host.finish(&slot, slot.answer(second, identity(10, 10)), &identity);
    assert_eq!(won, Ending::Returned { value: obj(10), stored: obj(20) });
    assert_eq!(lost, Ending::Returned { value: obj(20), stored: Handle::empty() });
    assert_eq!(peek(&slot), obj(20));
    // The winner's caller owns the old object, the slot and the loser's
    // caller each own the winner's, and the loser still owns its own.
    assert_eq!(host.count(10), 1);
    assert_eq!(host.count(20), 2);
    assert_eq!(host.count(30), 1);
}

#[test]
fn traverse_borrows() {
    let slot = AtomicObject::new(obj(10)).unwrap();
    let mut host = Host::with(&[(10, 1)]);
    let first = slot.traverse();
    assert_eq!(first, Step::Visit(obj(10)));
    assert_eq!(host.finish(&slot, first, &identity), Ending::Done);
    assert_eq!(host.visited, vec![10]);
    assert_eq!(host.count(10), 1);
}

#[test]
fn traverse_of_a_cleared_slot_visits_nothing() {
    let slot = AtomicObject::new(obj(10)).unwrap();
    let mut host = Host::with(&[(10, 1)]);
    host.finish(&slot, slot.clear(), &identity);
    assert_eq!(slot.traverse(), Step::Done);
    assert!(host.visited.is_empty());
}

#[test]
fn clear_twice_releases_once() {
    let slot = AtomicObject::new(obj(10)).unwrap();
    let mut host = Host::with(&[(10, 2)]);
    let first = slot.clear();
    assert_eq!(first, Step::Release(obj(10), Task::Done));
    assert_eq!(host.finish(&slot, first, &identity), Ending::Done);
    assert_eq!(host.count(10), 1);
    assert_eq!(peek(&slot), Handle::empty());
    let again = slot.clear();
    assert_eq!(again, Step::Release(Handle::empty(), Task::Done));
    assert_eq!(host.finish(&slot, again, &identity), Ending::Done);
    assert_eq!(host.count(10), 1);
    assert_eq!(peek(&slot), Handle::empty());
}

#[test]
fn counts_follow_the_slot_through_a_sequence() {
    let slot = AtomicObject::new(obj(10)).unwrap();
    // One reference each: 10 is the slot's, the others are the caller's.
    let mut host = Host::with(&[(10, 1), (20, 1), (30, 1), (40, 1)]);
    let mut mine: HashMap<usize, i64> = [(20, 1), (30, 1), (40, 1)].into_iter().collect();
    let first = host.finish(&slot, slot.load(), &identity);
    account(&mut mine, &first);
    let first = host.finish(&slot, slot.store(obj(20)), &identity);
    account(&mut mine, &first);
    let first = host.finish(&slot, slot.exchange(obj(30)), &identity);
    account(&mut mine, &first);
    let first = host.finish(&slot, slot.compare_exchange(obj(30), obj(40)), &identity);
    account(&mut mine, &first);
    let first = host.finish(&slot, slot.compare_exchange(obj(30), obj(20)), &identity);
    account(&mut mine, &first);
    let first = host.finish(&slot, slot.load(), &identity);
    account(&mut mine, &first);
    assert_eq!(peek(&slot), obj(40));
    for object in [10usize, 20, 30, 40] {
        let held = if object == 40 { 1 } else { 0 };
        assert_eq!(host.count(object), held + mine.get(&object).cloned().unwrap_or(0));
    }
    let last = host.finish(&slot, slot.clear(), &identity);
    account(&mut mine, &last);
    for object in [10usize, 20, 30, 40] {
        assert_eq!(host.count(object), mine.get(&object).cloned().unwrap_or(0));
    }
}

#[test]
fn load_of_a_cleared_slot_counts_nothing() {
    let slot = AtomicObject::new(obj(10)).unwrap();
    let mut host = Host::with(&[(10, 1)]);
    host.finish(&slot, slot.clear(), &identity);
    let ending = host.finish(&slot, slot.load(), &identity);
    assert_eq!(ending, Ending::Returned { value: Handle::empty(), stored: Handle::empty() });
    assert_eq!(host.count(10), 0);
    assert_eq!(host.count(0), 0);
}

#[test]
fn store_into_a_cleared_slot_releases_nothing() {
    let slot = AtomicObject::new(obj(10)).unwrap();
    let mut host = Host::with(&[(10, 1), (20, 1)]);
    host.finish(&slot, slot.clear(), &identity);
    let ending = host.finish(&slot, slot.store(obj(20)), &identity);
    assert_eq!(ending, Ending::Returned { value: obj(20), stored: obj(20) });
    assert_eq!(host.count(10), 0);
    assert_eq!(host.count(20), 2);
    assert_eq!(peek(&slot), obj(20));
}
