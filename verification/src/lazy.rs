use std::sync::atomic::AtomicU64;
use std::sync::atomic::Ordering;
use vstd::prelude::*;
use crate::cas::compare_exchange_u64;
use crate::cas::exchange_of;
use crate::cas::store_u64;
use crate::cas::Exchange;

verus! {

/// The key that the first caller of `get_key` installs.
pub const KEY_SEED: u64 = 48295421;

/// The value that `get_x` computes when nothing is cached yet.
pub const X_VALUE: u64 = 69;

/// Whether `get_key` can have seen this: a load that gave `loaded`, and, exactly when
/// that was 0, an exchange of 0 for `KEY_SEED`.
pub open spec fn key_observation(loaded: u64, exchanged: Option<Exchange>) -> bool {
    if loaded != 0 {
        exchanged is None
    } else {
        exchanged matches Some(e) && exchange_of(e, 0, KEY_SEED)
    }
}

/// The key that `get_key` returns after `loaded` and `exchanged`: the loaded key when
/// one was set; the proposal when the exchange installed it; otherwise the key that
/// the exchange found installed.
pub open spec fn key_outcome(loaded: u64, exchanged: Option<Exchange>) -> u64 {
    if loaded != 0 {
        loaded
    } else {
        match exchanged {
            Some(e) => match e.previous {
                Ok(_) => e.proposed,
                Err(v) => v,
            },
            None => 0,
        }
    }
}

/// Decides the key that `get_key` returns, from its load and, when that gave 0, from
/// its exchange of 0 for `KEY_SEED`.
pub fn key_from(loaded: u64, exchanged: Option<Exchange>) -> (k: u64)
    requires
        key_observation(loaded, exchanged),
    ensures
        k == key_outcome(loaded, exchanged),
        loaded != 0 ==> k == loaded,
        loaded == 0 ==> match exchanged {
            Some(e) => match e.previous {
                Ok(_) => k == KEY_SEED,
                Err(v) => k == v,
            },
            None => false,
        },
        k != 0,
{
    if loaded != 0 {
        loaded
    } else {
        match exchanged {
            Some(e) => match e.previous {
                Ok(_) => e.proposed,
                Err(v) => v,
            },
            None => 0,
        }
    }
}

/// Returns the key held in `key`, installing `KEY_SEED` first if `key` still holds the
/// "not set" value 0: it loads `key`, and when that gives 0 it exchanges 0 for
/// `KEY_SEED`; `key_from` decides the key from what came back, and takes only an
/// exchange of 0 for `KEY_SEED`. When several threads race, the exchange lets exactly
/// one of them install its key, and the others return the key that won. The race is
/// modelled in `race_protocol`, where the threads are proved to agree on one key; that
/// model is not tied to this code by a proof.
pub fn get_key(key: &AtomicU64) -> (k: u64)
    ensures
        k != 0,
{
    let loaded = key.load(Ordering::Relaxed);
    let exchanged = if loaded == 0 {
        Some(compare_exchange_u64(key, 0, KEY_SEED, Ordering::Relaxed, Ordering::Relaxed))
    } else {
        None
    };
    key_from(loaded, exchanged)
}

/// What `get_x` found: a value some earlier call had already stored, or one it
/// calculated and stored itself.
#[derive(Clone, Copy, Debug, PartialEq, Eq, Structural)]
pub enum Fetched {
    Cached(u64),
    Calculated(u64),
}

impl Fetched {
    pub open spec fn spec_value(self) -> u64 {
        match self {
            Fetched::Cached(v) => v,
            Fetched::Calculated(v) => v,
        }
    }

    pub fn value(&self) -> (v: u64)
        ensures
            v == self.spec_value(),
    {
        match self {
            Fetched::Cached(v) => *v,
            Fetched::Calculated(v) => *v,
        }
    }
}

/// What `get_x` stores after its load of `x` gave `loaded`: `X_VALUE` when nothing was
/// cached (0), nothing otherwise.
pub open spec fn x_store(loaded: u64) -> Option<u64> {
    if loaded == 0 {
        Some(X_VALUE)
    } else {
        None
    }
}

/// What `get_x` returns when its load of `x` gave `loaded`.
pub open spec fn fetched_outcome(loaded: u64) -> Fetched {
    if loaded == 0 {
        Fetched::Calculated(X_VALUE)
    } else {
        Fetched::Cached(loaded)
    }
}

/// Decides what `get_x` stores after a load that gave `loaded`.
pub fn store_for(loaded: u64) -> (s: Option<u64>)
    ensures
        s == x_store(loaded),
{
    if loaded == 0 {
        Some(X_VALUE)
    } else {
        None
    }
}

/// Decides what `get_x` returns after a load that gave `loaded` and the store (or
/// none) that `store_for` chose: the value it calculated and stored, or the one that
/// was cached.
pub fn fetched_from(loaded: u64, stored: Option<u64>) -> (r: Fetched)
    requires
        stored == x_store(loaded),
    ensures
        r == fetched_outcome(loaded),
        stored matches Some(v) ==> r == Fetched::Calculated(v),
        stored is None ==> r == Fetched::Cached(loaded),
{
    match stored {
        Some(v) => Fetched::Calculated(v),
        None => Fetched::Cached(loaded),
    }
}

/// Returns the value cached in `x`: it loads `x`; `store_for` decides whether to store
/// `X_VALUE` (when the load gave the "not calculated" value 0), and `fetched_from` takes
/// exactly the store that was made and decides the result. Two threads that both find
/// 0 both calculate and store; each gets the same value.
pub fn get_x(x: &AtomicU64) -> (r: Fetched)
    ensures
        r matches Fetched::Calculated(v) ==> v == X_VALUE,
        r matches Fetched::Cached(v) ==> v != 0,
{
    let loaded = x.load(Ordering::Relaxed);
    let stored = match store_for(loaded) {
        Some(v) => Some(store_u64(x, v, Ordering::Relaxed)),
        None => None,
    };
    fetched_from(loaded, stored)
}

/// Why `increment` left the counter unchanged.
#[derive(Clone, Copy, Debug, PartialEq, Eq, Structural)]
pub enum IncrementError {
    /// The counter held `u64::MAX`, so adding one would overflow.
    AtMax,
    /// Other threads changed the counter between every read and exchange, `u64::MAX`
    /// times in a row.
    Contended,
}

/// What `increment` does next, having seen the counter hold `current`.
#[derive(Clone, Copy, Debug, PartialEq, Eq, Structural)]
pub enum IncrementStep {
    /// `current` is `u64::MAX`: no successor to write.
    AtMax,
    /// The exchange wrote this value, the successor of `current`.
    Done(u64),
    /// Another thread had changed the counter to this value: try again from it.
    Retry(u64),
}

/// The value that `increment` writes in place of `current`: its successor, or `None`
/// when it has none.
pub open spec fn successor(current: u64) -> Option<u64> {
    if current == u64::MAX {
        None
    } else {
        Some((current + 1) as u64)
    }
}

/// The next step of `increment` once it saw `current`: with no successor it stops;
/// otherwise it exchanged `current` for its successor and got `exchanged` back.
pub open spec fn increment_outcome(current: u64, exchanged: Option<Exchange>) -> IncrementStep {
    match exchanged {
        None => IncrementStep::AtMax,
        Some(e) => match e.previous {
            Ok(_) => IncrementStep::Done(e.proposed),
            Err(v) => IncrementStep::Retry(v),
        },
    }
}

/// Makes the value that `increment` writes in place of `current`.
pub fn successor_of(current: u64) -> (r: Option<u64>)
    ensures
        r == successor(current),
{
    if current == u64::MAX {
        None
    } else {
        Some(current + 1)
    }
}

/// Decides the next step of `increment` once it saw `current`: `AtMax` when `current` is
/// `u64::MAX` (no exchange was made); after an exchange of `current` for its successor,
/// `Done` with the value written when it succeeded, and `Retry` from the value it found
/// otherwise. It takes only an exchange of `current` for its successor.
pub fn increment_step(current: u64, exchanged: Option<Exchange>) -> (s: IncrementStep)
    requires
        exchanged matches Some(e) ==> successor(current) == Some(e.proposed)
            && exchange_of(e, current, e.proposed),
        exchanged is None ==> successor(current) is None,
    ensures
        s == increment_outcome(current, exchanged),
        match exchanged {
            None => current == u64::MAX && s == IncrementStep::AtMax,
            Some(e) => match e.previous {
                Ok(_) => s == IncrementStep::Done((current + 1) as u64),
                Err(v) => s == IncrementStep::Retry(v) && v != current,
            },
        },
{
    match exchanged {
        None => IncrementStep::AtMax,
        Some(e) => match e.previous {
            Ok(_) => IncrementStep::Done(e.proposed),
            Err(v) => IncrementStep::Retry(v),
        },
    }
}

/// What `increment` does after a step: return this result, or go on from this value.
#[derive(Clone, Copy, Debug)]
pub enum IncrementControl {
    Return(Result<u64, IncrementError>),
    Continue(u64),
}

/// What `increment` does after `step`, having made `attempts` exchanges that lost their
/// race before it.
pub open spec fn control_after(step: IncrementStep, attempts: u64) -> IncrementControl {
    match step {
        IncrementStep::AtMax => IncrementControl::Return(Err(IncrementError::AtMax)),
        IncrementStep::Done(n) => IncrementControl::Return(Ok(n)),
        IncrementStep::Retry(v) => if attempts == u64::MAX {
            IncrementControl::Return(Err(IncrementError::Contended))
        } else {
            IncrementControl::Continue(v)
        },
    }
}

/// Decides what `increment` does after `step`: return the written value or `AtMax`;
/// after a lost race, go on from the value that the exchange found, unless `u64::MAX`
/// races were lost before it.
pub fn after_step(step: IncrementStep, attempts: u64) -> (c: IncrementControl)
    ensures
        c == control_after(step, attempts),
{
    match step {
        IncrementStep::AtMax => IncrementControl::Return(Err(IncrementError::AtMax)),
        IncrementStep::Done(n) => IncrementControl::Return(Ok(n)),
        IncrementStep::Retry(v) => {
            if attempts == u64::MAX {
                IncrementControl::Return(Err(IncrementError::Contended))
            } else {
                IncrementControl::Continue(v)
            }
        },
    }
}

/// `increment` gives up with `Contended` only after a lost race when `u64::MAX` races
/// were lost before it; after any other lost race it goes on from exactly the value
/// that the exchange found; and it returns `Ok` only with the value that its exchange
/// wrote.
pub proof fn increment_retries_until_written(step: IncrementStep, attempts: u64, v: u64)
    ensures
        control_after(step, attempts) == IncrementControl::Return(Err(IncrementError::Contended))
            <==> (step is Retry && attempts == u64::MAX),
        control_after(step, attempts) == IncrementControl::Continue(v) <==> (step
            == IncrementStep::Retry(v) && attempts < u64::MAX),
        control_after(step, attempts) == IncrementControl::Return(Ok(v)) <==> step
            == IncrementStep::Done(v),
        control_after(step, attempts) == IncrementControl::Return(Err(IncrementError::AtMax))
            <==> step == IncrementStep::AtMax,
{
}

/// Adds one to `a` with a compare-exchange loop: load the value `current`;
/// `successor_of` makes the value to write, and the exchange of `current` for it is
/// handed to `increment_step`, which takes only that exchange. `after_step` then
/// decides: the successor was written, and is returned at once; or another thread
/// changed the value in between, and the loop goes on from the value that the exchange
/// found. At `u64::MAX` there is no successor, and `AtMax` is returned with nothing
/// written.
///
/// A retry loop on a value that other threads share has no bound of its own, so the
/// loop stops after `u64::MAX` lost races. The counter is modelled in `race_protocol`,
/// where no increment is shown to be lost and `increment_step` is shown to take the
/// model's exchange step; the model is not tied to this code's atomic by a proof.
pub fn increment(a: &AtomicU64) -> (r: Result<u64, IncrementError>)
    ensures
        r matches Ok(n) ==> n >= 1,
{
    let mut current: u64 = a.load(Ordering::Relaxed);
    let mut attempts: u64 = 0;
    loop
        decreases u64::MAX - attempts,
    {
        let exchanged = match successor_of(current) {
            None => None,
            Some(next) => Some(
                compare_exchange_u64(a, current, next, Ordering::Relaxed, Ordering::Relaxed),
            ),
        };
        let step = increment_step(current, exchanged);
        match after_step(step, attempts) {
            IncrementControl::Return(r) => {
                return r;
            },
            IncrementControl::Continue(v) => {
                current = v;
            },
        }
        attempts = attempts + 1;
    }
}

} // verus!
