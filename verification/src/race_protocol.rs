use vstd::prelude::*;
use crate::cas::exchange_of;
use crate::lazy::increment_outcome;
use crate::lazy::IncrementStep;

verus! {

/// The shared state of a lazily installed key, as its threads see it when their steps
/// are taken one at a time: the key (0 while none is installed), what each thread that
/// is still working loaded, and what each finished thread returned.
pub struct KeyState {
    pub key: u64,
    pub loaded: Map<int, u64>,
    pub returned: Map<int, u64>,
}

/// One atomic step of one thread.
pub enum KeyEvent {
    /// Thread `t` loads the key.
    Load(int),
    /// Thread `t` finishes: if it loaded a key, it returns it; if it loaded 0, it tries
    /// to exchange 0 for its own nonzero `proposal`, and returns its proposal when the
    /// exchange succeeds and the key that it found otherwise.
    Finish(int, u64),
}

pub open spec fn key_init() -> KeyState {
    KeyState { key: 0, loaded: Map::empty(), returned: Map::empty() }
}

pub open spec fn key_step(s: KeyState, e: KeyEvent) -> KeyState {
    match e {
        KeyEvent::Load(t) => {
            if s.loaded.contains_key(t) || s.returned.contains_key(t) {
                s
            } else {
                KeyState { loaded: s.loaded.insert(t, s.key), ..s }
            }
        },
        KeyEvent::Finish(t, proposal) => {
            if !s.loaded.contains_key(t) || proposal == 0 {
                s
            } else if s.loaded[t] != 0 {
                KeyState {
                    loaded: s.loaded.remove(t),
                    returned: s.returned.insert(t, s.loaded[t]),
                    ..s
                }
            } else if s.key == 0 {
                KeyState {
                    key: proposal,
                    loaded: s.loaded.remove(t),
                    returned: s.returned.insert(t, proposal),
                }
            } else {
                KeyState {
                    loaded: s.loaded.remove(t),
                    returned: s.returned.insert(t, s.key),
                    ..s
                }
            }
        },
    }
}

pub open spec fn key_run(events: Seq<KeyEvent>) -> KeyState
    decreases events.len(),
{
    if events.len() == 0 {
        key_init()
    } else {
        key_step(key_run(events.drop_last()), events.last())
    }
}

/// What every reachable state keeps: a thread loaded either 0 or the installed key,
/// and every thread returned the installed key.
pub open spec fn key_inv(s: KeyState) -> bool {
    &&& forall|t: int| #[trigger] s.loaded.contains_key(t) ==> s.loaded[t] == 0 || s.loaded[t] == s.key
    &&& forall|t: int| #[trigger] s.returned.contains_key(t) ==> s.returned[t] == s.key && s.key != 0
}

proof fn lemma_key_step_keeps_inv(s: KeyState, e: KeyEvent)
    requires
        key_inv(s),
    ensures
        key_inv(key_step(s, e)),
{
    let s2 = key_step(s, e);
    match e {
        KeyEvent::Load(t) => {},
        KeyEvent::Finish(t, proposal) => {
            if s.loaded.contains_key(t) && proposal != 0 && s.loaded[t] == 0 && s.key == 0 {
                assert forall|u: int| #[trigger] s2.returned.contains_key(u) implies s2.returned[u]
                    == s2.key by {
                    if u != t {
                        assert(s.returned.contains_key(u));
                    }
                }
            }
        },
    }
}

/// However the threads interleave, every thread that finished returned the same key,
/// the one that is installed, and it is not 0.
pub proof fn key_agreement(events: Seq<KeyEvent>, t1: int, t2: int)
    requires
        key_run(events).returned.contains_key(t1),
        key_run(events).returned.contains_key(t2),
    ensures
        key_run(events).returned[t1] == key_run(events).returned[t2],
        key_run(events).returned[t1] == key_run(events).key,
        key_run(events).key != 0,
{
    lemma_key_run_inv(events);
}

proof fn lemma_key_run_inv(events: Seq<KeyEvent>)
    ensures
        key_inv(key_run(events)),
    decreases events.len(),
{
    if events.len() > 0 {
        lemma_key_run_inv(events.drop_last());
        lemma_key_step_keeps_inv(key_run(events.drop_last()), events.last());
    }
}

/// The shared state of a counter that threads increment with compare-exchange loops,
/// as its threads see it when their steps are taken one at a time: the counter, the
/// value that each thread in the middle of an increment expects, and how many
/// increments have finished.
pub struct CounterState {
    pub counter: int,
    pub expected: Map<int, int>,
    pub finished: nat,
}

/// One atomic step of one thread.
pub enum CounterEvent {
    /// Thread `t` starts an increment by loading the counter.
    Load(int),
    /// Thread `t` tries to exchange the value it expects for its successor; on
    /// failure it goes on expecting the value that the exchange found.
    Exchange(int),
}

pub open spec fn counter_init(start: int) -> CounterState {
    CounterState { counter: start, expected: Map::empty(), finished: 0 }
}

pub open spec fn counter_step(s: CounterState, e: CounterEvent) -> CounterState {
    match e {
        CounterEvent::Load(t) => {
            if s.expected.contains_key(t) {
                s
            } else {
                CounterState { expected: s.expected.insert(t, s.counter), ..s }
            }
        },
        CounterEvent::Exchange(t) => {
            if !s.expected.contains_key(t) {
                s
            } else if s.expected[t] == s.counter {
                CounterState {
                    counter: s.counter + 1,
                    expected: s.expected.remove(t),
                    finished: s.finished + 1,
                }
            } else {
                CounterState { expected: s.expected.insert(t, s.counter), ..s }
            }
        },
    }
}

pub open spec fn counter_run(start: int, events: Seq<CounterEvent>) -> CounterState
    decreases events.len(),
{
    if events.len() == 0 {
        counter_init(start)
    } else {
        counter_step(counter_run(start, events.drop_last()), events.last())
    }
}

/// No increment is lost: however the threads interleave, the counter has grown by
/// exactly the number of increments that finished.
pub proof fn counter_no_lost_updates(start: int, events: Seq<CounterEvent>)
    ensures
        counter_run(start, events).counter == start + counter_run(start, events).finished,
    decreases events.len(),
{
    if events.len() > 0 {
        counter_no_lost_updates(start, events.drop_last());
    }
}

/// The counters of `WorkStats`, as the worker threads' steps leave them when each
/// update of a counter is one atomic read-modify-write: the number of finished items,
/// their total time, and the longest time.
pub struct StatsState {
    pub done: nat,
    pub total: int,
    pub max: int,
}

/// One atomic step of a worker's `record(micros)`: each counter is updated by one
/// read-modify-write of its own.
pub enum StatsEvent {
    /// Adds one to the number of finished items.
    CountDone,
    /// Adds `micros` to the total time.
    AddTime(nat),
    /// Raises the longest time to `micros` if it is longer.
    RaiseMax(nat),
}

pub open spec fn stats_step(s: StatsState, e: StatsEvent) -> StatsState {
    match e {
        StatsEvent::CountDone => StatsState { done: s.done + 1, ..s },
        StatsEvent::AddTime(m) => StatsState { total: s.total + m, ..s },
        StatsEvent::RaiseMax(m) => StatsState { max: if s.max < m { m as int } else { s.max }, ..s },
    }
}

pub open spec fn stats_run(events: Seq<StatsEvent>) -> StatsState
    decreases events.len(),
{
    if events.len() == 0 {
        StatsState { done: 0, total: 0, max: 0 }
    } else {
        stats_step(stats_run(events.drop_last()), events.last())
    }
}

/// How many of `events` count a finished item.
pub open spec fn count_done(events: Seq<StatsEvent>) -> nat
    decreases events.len(),
{
    if events.len() == 0 {
        0
    } else {
        count_done(events.drop_last()) + if events.last() is CountDone { 1nat } else { 0nat }
    }
}

/// No record is lost: however the workers' steps interleave, the count of finished
/// items is the number of counting steps taken, and the longest time is at least every
/// time that was recorded.
pub proof fn stats_no_lost_records(events: Seq<StatsEvent>)
    ensures
        stats_run(events).done == count_done(events),
        forall|i: int|
            0 <= i < events.len() && #[trigger] events[i] is RaiseMax ==> events[i]->RaiseMax_0
                <= stats_run(events).max,
    decreases events.len(),
{
    if events.len() > 0 {
        let prev = events.drop_last();
        stats_no_lost_records(prev);
        assert forall|i: int|
            0 <= i < events.len() && #[trigger] events[i] is RaiseMax implies events[i]->RaiseMax_0
                <= stats_run(events).max by {
            if i < events.len() - 1 {
                assert(events[i] == prev[i]);
            }
        }
    }
}

/// `increment_step` takes the model's exchange step: when thread `t` expects `current`
/// and its exchange of `current` for the successor saw the counter's value (succeeding
/// exactly when that was `current`), `Done(n)` comes exactly when the model's counter
/// becomes `n` and one more increment finishes, and `Retry(v)` exactly when the counter
/// is left as it is and `t` goes on expecting `v`, the value it found.
pub proof fn increment_step_takes_counter_exchange(
    s: CounterState,
    t: int,
    current: u64,
    e: crate::cas::Exchange,
)
    requires
        s.expected.contains_key(t),
        s.expected[t] == current,
        current < u64::MAX,
        0 <= s.counter <= u64::MAX,
        exchange_of(e, current, (current + 1) as u64),
        e.previous is Ok <==> s.counter == current,
        e.previous matches Err(v) ==> v == s.counter,
    ensures
        match increment_outcome(current, Some(e)) {
            IncrementStep::Done(n) => {
                &&& counter_step(s, CounterEvent::Exchange(t)).counter == n
                &&& n == current + 1
                &&& counter_step(s, CounterEvent::Exchange(t)).finished == s.finished + 1
            },
            IncrementStep::Retry(v) => {
                &&& counter_step(s, CounterEvent::Exchange(t)).counter == s.counter
                &&& counter_step(s, CounterEvent::Exchange(t)).expected[t] == v
                &&& v == s.counter
                &&& counter_step(s, CounterEvent::Exchange(t)).finished == s.finished
            },
            IncrementStep::AtMax => false,
        },
{
}

} // verus!
