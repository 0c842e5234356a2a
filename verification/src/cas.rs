use std::sync::atomic::AtomicU64;
use std::sync::atomic::Ordering;
use vstd::prelude::*;

verus! {

/// Whether `order` may serve as the failure ordering of a compare-exchange:
/// std panics on `Release` and `AcqRel` there.
pub open spec fn valid_failure_ordering(order: Ordering) -> bool {
    order != Ordering::Release && order != Ordering::AcqRel
}

/// Whether `order` may serve as the ordering of a store: std panics on `Acquire` and
/// `AcqRel` there.
pub open spec fn valid_store_ordering(order: Ordering) -> bool {
    order != Ordering::Acquire && order != Ordering::AcqRel
}

/// One compare-exchange on an atomic: the value it expected, the value it proposed to
/// write in its place, and what it got back (the previous value, in `Ok` when the
/// proposal was written and in `Err` when it was not).
#[derive(Clone, Copy, Debug)]
pub struct Exchange {
    pub expected: u64,
    pub proposed: u64,
    pub previous: Result<u64, u64>,
}

/// Whether `e` is what a compare-exchange of `expected` for `proposed` can give: an
/// `Ok` carries `expected`, an `Err` a value other than `expected`.
pub open spec fn exchange_of(e: Exchange, expected: u64, proposed: u64) -> bool {
    &&& e.expected == expected
    &&& e.proposed == proposed
    &&& match e.previous {
        Ok(v) => v == expected,
        Err(v) => v != expected,
    }
}

/// Calls `AtomicU64::compare_exchange`, and records its arguments beside its result.
///
/// Trusted: std documents that the value is replaced by `new` exactly when it equals
/// `current`, and that the result holds the previous value, `Ok` on success and `Err`
/// otherwise. So an `Ok` carries `current` and an `Err` carries a value other than
/// `current`. Which of the two comes back depends on the other threads, and is not
/// stated.
#[verifier::external_body]
pub(crate) fn compare_exchange_u64(
    atomic: &AtomicU64,
    current: u64,
    new: u64,
    success: Ordering,
    failure: Ordering,
) -> (e: Exchange)
    requires
        valid_failure_ordering(failure),
    ensures
        exchange_of(e, current, new),
{
    Exchange {
        expected: current,
        proposed: new,
        previous: atomic.compare_exchange(current, new, success, failure),
    }
}

/// Calls `AtomicU64::store`, and returns the value that it stored.
///
/// Trusted: std documents that the call stores `value` into the atomic, and that it
/// panics when `order` is `Acquire` or `AcqRel`. What other threads then read depends on
/// them, and is not stated.
#[verifier::external_body]
pub(crate) fn store_u64(atomic: &AtomicU64, value: u64, order: Ordering) -> (stored: u64)
    requires
        valid_store_ordering(order),
    ensures
        stored == value,
{
    atomic.store(value, order);
    value
}

} // verus!
