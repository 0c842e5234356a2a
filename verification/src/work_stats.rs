use std::sync::atomic::AtomicU64;
use std::sync::atomic::AtomicUsize;
use std::sync::atomic::Ordering;
use vstd::prelude::*;

verus! {

/// Counters that worker threads update as they finish items, and that a reporting
/// thread reads: how many items are done, how long they took in all, and how long the
/// slowest one took, in microseconds.
pub struct WorkStats {
    num_done: AtomicUsize,
    total_micros: AtomicU64,
    max_micros: AtomicU64,
}

/// The three counters of a `WorkStats`, each read once.
#[derive(Clone, Copy, Debug, PartialEq, Eq, Structural)]
pub struct Snapshot {
    pub done: usize,
    pub total_micros: u64,
    pub max_micros: u64,
}

impl WorkStats {
    /// Counters that are all zero.
    pub fn new() -> (s: Self) {
        WorkStats {
            num_done: AtomicUsize::new(0),
            total_micros: AtomicU64::new(0),
            max_micros: AtomicU64::new(0),
        }
    }

    /// Counts one more finished item, which took `micros` microseconds. Each counter is
    /// updated on its own, with relaxed ordering; the sums wrap around on overflow.
    pub fn record(&self, micros: u64) {
        self.num_done.fetch_add(1, Ordering::Relaxed);
        self.total_micros.fetch_add(micros, Ordering::Relaxed);
        self.max_micros.fetch_max(micros, Ordering::Relaxed);
    }

    /// Reads the three counters, each with relaxed ordering.
    pub fn snapshot(&self) -> (s: Snapshot) {
        let total_micros = self.total_micros.load(Ordering::Relaxed);
        let max_micros = self.max_micros.load(Ordering::Relaxed);
        let done = self.num_done.load(Ordering::Relaxed);
        Snapshot { done, total_micros, max_micros }
    }
}

} // verus!
