use vstd::prelude::*;

verus! {

/// The shared state of a test-and-set spin lock, as its threads see it when their
/// steps are taken one at a time: the lock flag, the threads that are inside their
/// critical section (those that hold a guard), and the protected value.
pub struct LockState<V> {
    pub locked: bool,
    pub holders: Set<int>,
    pub value: V,
}

/// One atomic step of one thread.
pub enum LockEvent<V> {
    /// Thread `t`, not holding the lock, swaps `true` into the flag; it enters its
    /// critical section when the flag held `false`.
    Swap(int),
    /// Thread `t`, holding the lock, stores `false` into the flag and leaves its
    /// critical section (its guard is given back).
    Release(int),
    /// Thread `t`, holding the lock, writes `v` through its guard.
    Write(int, V),
}

/// A new lock that holds `value`: free, held by no one.
pub open spec fn lock_init<V>(value: V) -> LockState<V> {
    LockState { locked: false, holders: Set::empty(), value }
}

/// The effect of one step. A step that its thread cannot take (a swap by a holder, a
/// release or a write by a thread that does not hold the lock) changes nothing.
pub open spec fn lock_step<V>(s: LockState<V>, e: LockEvent<V>) -> LockState<V> {
    match e {
        LockEvent::Swap(t) => {
            if s.holders.contains(t) {
                s
            } else if s.locked {
                s
            } else {
                LockState { locked: true, holders: s.holders.insert(t), value: s.value }
            }
        },
        LockEvent::Release(t) => {
            if s.holders.contains(t) {
                LockState { locked: false, holders: s.holders.remove(t), value: s.value }
            } else {
                s
            }
        },
        LockEvent::Write(t, v) => {
            if s.holders.contains(t) {
                LockState { locked: s.locked, holders: s.holders, value: v }
            } else {
                s
            }
        },
    }
}

/// The state after the steps `events`, taken in order from `start`.
pub open spec fn lock_run_from<V>(start: LockState<V>, events: Seq<LockEvent<V>>) -> LockState<V>
    decreases events.len(),
{
    if events.len() == 0 {
        start
    } else {
        lock_step(lock_run_from(start, events.drop_last()), events.last())
    }
}

/// The state after the steps `events`, taken in order from a new lock that holds
/// `value`.
pub open spec fn lock_run<V>(value: V, events: Seq<LockEvent<V>>) -> LockState<V> {
    lock_run_from(lock_init(value), events)
}

/// What every reachable state keeps: the flag is set exactly when some thread holds
/// the lock, and no two threads hold it.
pub open spec fn lock_inv<V>(s: LockState<V>) -> bool {
    &&& s.locked <==> exists|t: int| s.holders.contains(t)
    &&& forall|t1: int, t2: int| s.holders.contains(t1) && s.holders.contains(t2) ==> t1 == t2
}

proof fn lemma_lock_step_keeps_inv<V>(s: LockState<V>, e: LockEvent<V>)
    requires
        lock_inv(s),
    ensures
        lock_inv(lock_step(s, e)),
{
    let s2 = lock_step(s, e);
    match e {
        LockEvent::Swap(t) => {
            if !s.holders.contains(t) && !s.locked {
                assert(s2.holders.contains(t));
                assert forall|t1: int, t2: int|
                    s2.holders.contains(t1) && s2.holders.contains(t2) implies t1 == t2 by {
                    assert(!s.holders.contains(t1));
                    assert(!s.holders.contains(t2));
                }
            }
        },
        LockEvent::Release(t) => {
            if s.holders.contains(t) {
                assert forall|u: int| !s2.holders.contains(u) by {
                    if s.holders.contains(u) {
                        assert(u == t);
                    }
                }
            }
        },
        LockEvent::Write(t, v) => {
            if s.holders.contains(t) {
                assert(s2.holders.contains(t));
            }
        },
    }
}

proof fn lemma_lock_run_from_keeps_inv<V>(start: LockState<V>, events: Seq<LockEvent<V>>)
    requires
        lock_inv(start),
    ensures
        lock_inv(lock_run_from(start, events)),
    decreases events.len(),
{
    if events.len() > 0 {
        lemma_lock_run_from_keeps_inv(start, events.drop_last());
        lemma_lock_step_keeps_inv(lock_run_from(start, events.drop_last()), events.last());
    }
}

/// Mutual exclusion: however the steps of the threads interleave, at most one thread
/// holds the lock at a time, and the flag is set exactly while one does.
pub proof fn lock_mutual_exclusion<V>(value: V, events: Seq<LockEvent<V>>)
    ensures
        lock_inv(lock_run(value, events)),
{
    lemma_lock_run_from_keeps_inv(lock_init(value), events);
}

/// Whether none of `events` is a write.
pub open spec fn no_writes<V>(events: Seq<LockEvent<V>>) -> bool {
    forall|i: int| 0 <= i < events.len() ==> !(#[trigger] events[i] is Write)
}

proof fn lemma_no_writes_keeps_value<V>(start: LockState<V>, events: Seq<LockEvent<V>>)
    requires
        no_writes(events),
    ensures
        lock_run_from(start, events).value == start.value,
    decreases events.len(),
{
    if events.len() > 0 {
        assert(no_writes(events.drop_last())) by {
            assert forall|i: int| 0 <= i < events.drop_last().len() implies !(
            #[trigger] events.drop_last()[i] is Write) by {
                assert(events.drop_last()[i] == events[i]);
            }
        }
        lemma_no_writes_keeps_value(start, events.drop_last());
        assert(!(events[events.len() - 1] is Write));
    }
}

proof fn lemma_run_from_append<V>(
    start: LockState<V>,
    first: Seq<LockEvent<V>>,
    rest: Seq<LockEvent<V>>,
)
    ensures
        lock_run_from(start, first + rest) == lock_run_from(lock_run_from(start, first), rest),
    decreases rest.len(),
{
    if rest.len() == 0 {
        assert(first + rest =~= first);
    } else {
        assert((first + rest).drop_last() =~= first + rest.drop_last());
        lemma_run_from_append(start, first, rest.drop_last());
    }
}

/// Read-after-write: when a holder writes `v` through its guard, every later state
/// holds `v` until the next write, whoever takes and releases the lock in between. In
/// particular the next thread to take the lock reads what the last holder wrote.
pub proof fn lock_read_after_write<V>(
    value: V,
    before: Seq<LockEvent<V>>,
    t: int,
    v: V,
    after: Seq<LockEvent<V>>,
)
    requires
        lock_run(value, before).holders.contains(t),
        no_writes(after),
    ensures
        lock_run(value, before.push(LockEvent::Write(t, v)) + after).value == v,
{
    let mid = lock_run(value, before.push(LockEvent::Write(t, v)));
    assert(before.push(LockEvent::Write(t, v)).drop_last() =~= before);
    assert(mid.value == v);
    lemma_run_from_append(lock_init(value), before.push(LockEvent::Write(t, v)), after);
    lemma_no_writes_keeps_value(mid, after);
}

/// A thread that swaps while the lock is free takes it; while it is taken, a swap
/// changes nothing, and the waiting thread tries again.
pub proof fn lock_swap_takes_free_lock<V>(s: LockState<V>, t: int)
    requires
        lock_inv(s),
        !s.holders.contains(t),
    ensures
        !s.locked ==> lock_step(s, LockEvent::<V>::Swap(t)).holders == set![t],
        s.locked ==> lock_step(s, LockEvent::<V>::Swap(t)) == s,
{
    if !s.locked {
        assert(s.holders =~= Set::<int>::empty());
        assert(s.holders.insert(t) =~= set![t]);
    }
}

/// Releasing frees the lock: after the holder's release, the next swap of any other
/// thread takes it.
pub proof fn lock_release_then_swap<V>(s: LockState<V>, holder: int, t: int)
    requires
        lock_inv(s),
        s.holders.contains(holder),
        t != holder,
    ensures
        lock_step(lock_step(s, LockEvent::<V>::Release(holder)), LockEvent::<V>::Swap(t)).holders
            == set![t],
{
    let s1 = lock_step(s, LockEvent::<V>::Release(holder));
    lemma_lock_step_keeps_inv(s, LockEvent::<V>::Release(holder));
    assert(!s1.holders.contains(t));
    lock_swap_takes_free_lock(s1, t);
}

} // verus!
