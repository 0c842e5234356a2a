use vstd::prelude::*;
use vstd::rwlock::RwLock;
use vstd::rwlock::WriteHandle;

verus! {

/// The condition that `SpinLock::new` places on the value: none.
pub open spec fn any_value<T>() -> spec_fn(T) -> bool {
    |v: T| true
}

/// A lock that protects a value of type `T`, with a condition on that value (its data
/// invariant, `inv`) that every holder finds true and must leave true. `into_inner`
/// hands the value back; a lock that is dropped instead does not drop its value.
///
/// The value lives in a `vstd::rwlock::RwLock`, whose writer side is a verified spin
/// lock: taking it spins on a compare-exchange of an atomic flag from `false` to
/// `true`, giving it back stores `false`. Every loop in this crate must terminate, and
/// a wait for another thread cannot be shown to, so the spinning is done by that
/// verified lock rather than by a loop here. The protocol of taking and releasing is
/// modelled in `lock_protocol`, where mutual exclusion and read-after-write are proved
/// for every interleaving of the threads; that model is not tied to this code by a
/// proof.
#[verifier::reject_recursive_types(T)]
pub struct SpinLock<T> {
    cell: RwLock<T, spec_fn(T) -> bool>,
}

/// The proof that a lock is held: the lock itself and the write handle that its
/// `RwLock` gave out.
#[verifier::reject_recursive_types(T)]
struct Held<'a, T> {
    lock: &'a SpinLock<T>,
    handle: WriteHandle<'a, T, spec_fn(T) -> bool>,
}

/// Exclusive access to the value of a locked `SpinLock`. The lock stays taken until
/// the guard is given back with `release` or `SpinLock::unlock`.
#[verifier::reject_recursive_types(T)]
pub struct Guard<'a, T> {
    held: Held<'a, T>,
    value: T,
}

impl<T> SpinLock<T> {
    /// The condition that every value of this lock meets.
    pub closed spec fn inv(&self) -> spec_fn(T) -> bool {
        self.cell.pred()
    }

    /// An unlocked lock that holds `value`, with no condition on its values.
    pub fn new(value: T) -> (s: Self)
        ensures
            s.inv() == any_value::<T>(),
    {
        SpinLock { cell: RwLock::new(value, Ghost(any_value::<T>())) }
    }

    /// An unlocked lock that holds `value`, whose values must all meet `inv`.
    pub fn with_invariant(value: T, Ghost(inv): Ghost<spec_fn(T) -> bool>) -> (s: Self)
        requires
            inv(value),
        ensures
            s.inv() == inv,
    {
        SpinLock { cell: RwLock::new(value, Ghost(inv)) }
    }

    /// Consumes the lock and hands back its value, which meets the lock's condition.
    pub fn into_inner(self) -> (v: T)
        ensures
            self.inv()(v),
    {
        self.cell.into_inner()
    }

    /// Waits until the lock is free, takes it, and returns a guard of this lock that
    /// holds its value, which meets the lock's condition.
    pub fn lock(&self) -> (g: Guard<'_, T>)
        ensures
            g.lock() == *self,
            self.inv()(g.value()),
    {
        let (value, handle) = self.cell.acquire_write();
        Guard { held: Held { lock: self, handle }, value }
    }

    /// Stores the guard's value back and releases the lock; the value must meet the
    /// lock's condition. Taking the guard makes sure that no reference into the value
    /// outlives the lock. While the lock is held its value lives in the guard, so a
    /// guard that is never given back keeps the lock taken, and its value is lost.
    pub fn unlock(&self, guard: Guard<'_, T>)
        requires
            guard.lock() == *self,
            self.inv()(guard.value()),
    {
        let Guard { held, value } = guard;
        proof {
            use_type_invariant(&held);
        }
        let Held { lock, handle } = held;
        handle.release_write(value);
    }
}

impl<'a, T> Held<'a, T> {
    #[verifier::type_invariant]
    closed spec fn wf(self) -> bool {
        self.handle.rwlock() == self.lock.cell
    }
}

impl<'a, T> Guard<'a, T> {
    /// The lock that this guard holds.
    pub closed spec fn lock(&self) -> SpinLock<T> {
        *self.held.lock
    }

    /// The value that the guard gives access to.
    pub closed spec fn value(&self) -> T {
        self.value
    }

    /// Mutable access to the locked value.
    pub fn deref_mut(&mut self) -> (r: &mut T)
        ensures
            *r == old(self).value(),
            final(self).value() == *final(r),
            final(self).lock() == old(self).lock(),
    {
        &mut self.value
    }

    /// Gives the value back to its lock and releases the lock; the value must meet the
    /// lock's condition.
    pub fn release(self)
        requires
            self.lock().inv()(self.value()),
    {
        let lock = self.held.lock;
        lock.unlock(self);
    }
}

impl<'a, T> std::ops::Deref for Guard<'a, T> {
    type Target = T;

    fn deref(&self) -> (r: &T)
        ensures
            *r == self.value(),
    {
        &self.value
    }
}

} // verus!
