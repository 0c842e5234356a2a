use lib::cas::Exchange;
use lib::lazy::{
    fetched_from, get_key, get_x, increment, increment_step, key_from, store_for, successor_of,
    Fetched, IncrementError, IncrementStep, KEY_SEED, X_VALUE,
};
use std::sync::atomic::{AtomicU64, Ordering};

#[test]
fn get_key_installs_seed_once() {
    let key = AtomicU64::new(0);
    assert_eq!(get_key(&key), KEY_SEED);
    assert_eq!(key.load(Ordering::Relaxed), 48295421);
    assert_eq!(get_key(&key), 48295421);
}

#[test]
fn get_key_keeps_existing_key() {
    let key = AtomicU64::new(7);
    assert_eq!(get_key(&key), 7);
    assert_eq!(key.load(Ordering::Relaxed), 7);
}

#[test]
fn get_x_calculates_then_caches() {
    let x = AtomicU64::new(0);
    assert_eq!(get_x(&x), Fetched::Calculated(X_VALUE));
    assert_eq!(get_x(&x), Fetched::Cached(69));
    assert_eq!(get_x(&x).value(), 69);
    assert_eq!(x.load(Ordering::Relaxed), 69);
}

#[test]
fn get_x_returns_stored_value() {
    let x = AtomicU64::new(12);
    assert_eq!(get_x(&x), Fetched::Cached(12));
}

#[test]
fn increment_adds_one() {
    let a = AtomicU64::new(0);
    assert_eq!(increment(&a), Ok(1));
    assert_eq!(increment(&a), Ok(2));
    assert_eq!(a.load(Ordering::Relaxed), 2);
}

#[test]
fn increment_refuses_to_overflow() {
    let a = AtomicU64::new(u64::MAX);
    assert_eq!(increment(&a), Err(IncrementError::AtMax));
    assert_eq!(a.load(Ordering::Relaxed), u64::MAX);
}

#[test]
fn increment_near_max() {
    let a = AtomicU64::new(u64::MAX - 1);
    assert_eq!(increment(&a), Ok(u64::MAX));
}

#[test]
fn key_from_decides_from_what_came_back() {
    assert_eq!(key_from(7, None), 7);
    let won = Exchange { expected: 0, proposed: KEY_SEED, previous: Ok(0) };
    assert_eq!(key_from(0, Some(won)), KEY_SEED);
    let lost = Exchange { expected: 0, proposed: KEY_SEED, previous: Err(99) };
    assert_eq!(key_from(0, Some(lost)), 99);
}

#[test]
fn get_x_decisions() {
    assert_eq!(store_for(0), Some(69));
    assert_eq!(store_for(5), None);
    assert_eq!(fetched_from(0, Some(69)), Fetched::Calculated(69));
    assert_eq!(fetched_from(5, None), Fetched::Cached(5));
}

#[test]
fn increment_decisions() {
    assert_eq!(successor_of(5), Some(6));
    assert_eq!(successor_of(u64::MAX), None);
    assert_eq!(increment_step(u64::MAX, None), IncrementStep::AtMax);
    let won = Exchange { expected: 5, proposed: 6, previous: Ok(5) };
    assert_eq!(increment_step(5, Some(won)), IncrementStep::Done(6));
    let lost = Exchange { expected: 5, proposed: 6, previous: Err(8) };
    assert_eq!(increment_step(5, Some(lost)), IncrementStep::Retry(8));
}

#[test]
fn increment_from_five_leaves_six() {
    let a = AtomicU64::new(5);
    assert_eq!(increment(&a), Ok(6));
    assert_eq!(a.load(Ordering::Relaxed), 6);
}

#[test]
fn get_x_repeated_calls_store_once() {
    let x = AtomicU64::new(0);
    let results: Vec<Fetched> = (0..5).map(|_| get_x(&x)).collect();
    assert_eq!(results[0], Fetched::Calculated(69));
    for r in &results[1..] {
        assert_eq!(*r, Fetched::Cached(69));
    }
    assert_eq!(x.load(Ordering::Relaxed), 69);
}
