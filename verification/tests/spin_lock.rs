use lib::spin_lock::SpinLock;

#[test]
fn lock_gives_initial_value() {
    let lock = SpinLock::new(vec![1, 2, 3]);
    let g = lock.lock();
    assert_eq!(*g, vec![1, 2, 3]);
    g.release();
}

#[test]
fn write_through_guard_is_seen_by_next_lock() {
    let lock = SpinLock::new(5u32);
    let mut g = lock.lock();
    *g.deref_mut() = 7;
    assert_eq!(*g, 7);
    g.release();
    let g = lock.lock();
    assert_eq!(*g, 7);
    lock.unlock(g);
}

#[test]
fn guard_value_survives_many_locks() {
    let counter = SpinLock::new(0u64);
    for _ in 0..100 {
        let mut g = counter.lock();
        *g.deref_mut() += 1;
        g.release();
    }
    let g = counter.lock();
    assert_eq!(*g, 100);
    g.release();
}

fn shareable_between_threads<T: Sync + Send>() {}

#[test]
fn spin_lock_is_sync() {
    shareable_between_threads::<SpinLock<Vec<i32>>>();
    shareable_between_threads::<lib::channel::OneShotChannel<&'static str>>();
    shareable_between_threads::<lib::channel::Channel<&'static str>>();
    shareable_between_threads::<lib::work_stats::WorkStats>();
}

#[test]
fn into_inner_returns_last_value() {
    let lock = SpinLock::new(String::from("a"));
    let mut g = lock.lock();
    g.deref_mut().push('b');
    g.release();
    assert_eq!(lock.into_inner(), "ab");
}
