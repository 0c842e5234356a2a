# Atomics and locks, verified

A small library of concurrency building blocks, written in Verus:

- `spin_lock`: `SpinLock<T>` and its `Guard`, with a data invariant on the value
  (none for `new`, any for `with_invariant`). Waiting for the lock is done by
  vstd's verified `RwLock`, whose writer side spins on an atomic flag.
- `channel`: a one-shot channel that refuses a second message, and a one-shot
  channel split into a `Sender` and a `Receiver`; `send_action` and
  `receive_action` decide what each operation does from what its swap found.
- `lazy`: a key installed once by compare-exchange, a lazily calculated value, and
  a counter incremented by a compare-exchange loop; `key_from`, `fetched_from` and
  `increment_step` decide each result exactly from what the atomic gave back, and
  take only the exchange or store that `get_key`, `store_for` and `successor_of` chose.
- `work_stats`, `progress`: counters that worker threads update, and the status
  line computed from them; parsing of the `help`/`stop` commands.
- `numbers`, `ready`: the averages, counters and ready-flag scans of the examples.
- `cas`: the trusted items, `AtomicU64::compare_exchange` with its documented
  result (recorded beside its arguments) and `AtomicU64::store`.
- `lock_protocol`, `one_shot_protocol`, `race_protocol`: the protocols of the spin
  lock, of the one-shot channel, of the key race and of the compare-exchange
  counter, as state machines whose steps interleave freely; their laws (mutual
  exclusion, read-after-write, at most one message, agreement on the key, no lost
  increments) are proved over every interleaving. The models are not tied to the
  executable code by a proof: the values of std atomics are not visible to Verus.

`app/` holds the demonstration programs: threads, parking, sleeping, printing and
the `unsafe` statics stay there.
