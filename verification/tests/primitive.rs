use haxe_atomic::primitive::{resulting_bool, resulting_int};
use haxe_atomic::primitive::{AtomicBool, AtomicInt};

#[test]
fn bool_load_returns_initial_value() {
    assert_eq!(AtomicBool::new(false).load(), false);
    assert_eq!(AtomicBool::new(true).load(), true);
}

#[test]
fn bool_store_returns_the_value_written() {
    let flag = AtomicBool::new(false);
    assert_eq!(flag.store(true), true);
    assert_eq!(flag.load(), true);
    assert_eq!(flag.store(false), false);
    assert_eq!(flag.load(), false);
}

#[test]
fn bool_exchange_returns_the_value_replaced() {
    let flag = AtomicBool::new(false);
    assert_eq!(flag.exchange(true), false);
    assert_eq!(flag.exchange(true), true);
    assert_eq!(flag.exchange(false), true);
    assert_eq!(flag.load(), false);
}

#[test]
fn bool_compare_exchange_returns_resulting_value() {
    let flag = AtomicBool::new(false);
    assert_eq!(flag.compare_exchange(true, true), false);
    assert_eq!(flag.load(), false);
    assert_eq!(flag.compare_exchange(false, true), true);
    assert_eq!(flag.load(), true);
}

#[test]
fn bool_compare_exchange_mismatch_leaves_the_flag() {
    let flag = AtomicBool::new(true);
    assert_eq!(flag.compare_exchange(false, false), true);
    assert_eq!(flag.load(), true);
    assert_eq!(flag.compare_exchange(true, false), false);
    assert_eq!(flag.load(), false);
}

#[test]
fn resulting_bool_is_new_on_match_and_found_otherwise() {
    assert_eq!(resulting_bool(false, false, true), true);
    assert_eq!(resulting_bool(false, true, true), false);
    assert_eq!(resulting_bool(true, true, false), false);
    assert_eq!(resulting_bool(true, false, false), true);
}

#[test]
fn int_load_returns_initial_value() {
    assert_eq!(AtomicInt::new(-7).load(), -7);
}

#[test]
fn int_store_returns_the_value_written() {
    let counter = AtomicInt::new(1);
    assert_eq!(counter.store(42), 42);
    assert_eq!(counter.load(), 42);
}

#[test]
fn int_exchange_returns_the_value_replaced() {
    let counter = AtomicInt::new(1);
    assert_eq!(counter.exchange(2), 1);
    assert_eq!(counter.exchange(3), 2);
    assert_eq!(counter.load(), 3);
}

#[test]
fn int_last_write_stands() {
    let counter = AtomicInt::new(0);
    counter.store(5);
    assert_eq!(counter.exchange(6), 5);
    counter.store(7);
    assert_eq!(counter.exchange(8), 7);
    assert_eq!(counter.load(), 8);
}

#[test]
fn int_compare_exchange_returns_resulting_value() {
    let counter = AtomicInt::new(10);
    assert_eq!(counter.compare_exchange(11, 20), 10);
    assert_eq!(counter.load(), 10);
    assert_eq!(counter.compare_exchange(10, 20), 20);
    assert_eq!(counter.load(), 20);
}

#[test]
fn resulting_int_is_new_on_match_and_found_otherwise() {
    assert_eq!(resulting_int(10, 10, 20), 20);
    assert_eq!(resulting_int(10, 11, 20), 10);
    assert_eq!(resulting_int(i32::MIN, i32::MIN, i32::MAX), i32::MAX);
}

#[test]
fn fetch_add_returns_previous_value() {
    let counter = AtomicInt::new(10);
    assert_eq!(counter.fetch_add(5), 10);
    assert_eq!(counter.load(), 15);
}

#[test]
fn fetch_add_wraps_round() {
    let counter = AtomicInt::new(i32::MAX);
    assert_eq!(counter.fetch_add(1), i32::MAX);
    assert_eq!(counter.load(), i32::MIN);
}

#[test]
fn fetch_sub_returns_previous_value_and_wraps_round() {
    let counter = AtomicInt::new(10);
    assert_eq!(counter.fetch_sub(3), 10);
    assert_eq!(counter.load(), 7);
    let low = AtomicInt::new(i32::MIN);
    assert_eq!(low.fetch_sub(1), i32::MIN);
    assert_eq!(low.load(), i32::MAX);
}

#[test]
fn fetch_and_returns_previous_value() {
    let counter = AtomicInt::new(0b1010);
    assert_eq!(counter.fetch_and(0b0110), 0b1010);
    assert_eq!(counter.load(), 0b0010);
}

#[test]
fn fetch_or_returns_previous_value() {
    let counter = AtomicInt::new(0b1010);
    assert_eq!(counter.fetch_or(0b0110), 0b1010);
    assert_eq!(counter.load(), 0b1110);
}

#[test]
fn fetch_xor_returns_previous_value() {
    let counter = AtomicInt::new(0b1010);
    assert_eq!(counter.fetch_xor(0b0110), 0b1010);
    assert_eq!(counter.load(), 0b1100);
}

#[test]
fn bool_last_write_stands() {
    let flag = AtomicBool::new(false);
    flag.store(true);
    assert_eq!(flag.exchange(false), true);
    assert_eq!(flag.exchange(true), false);
    flag.store(false);
    assert_eq!(flag.load(), false);
}

#[test]
fn int_compare_exchange_with_equal_arguments_keeps_the_value() {
    let counter = AtomicInt::new(3);
    assert_eq!(counter.compare_exchange(3, 3), 3);
    assert_eq!(counter.compare_exchange(4, 4), 3);
    assert_eq!(counter.load(), 3);
}
