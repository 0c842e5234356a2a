//! Atomics and locks: a spin lock, one-shot channels, lazily installed values, a
//! compare-exchange counter and progress counters, each with its contract, and models
//! of their protocols in which the laws that hold under every interleaving of their
//! threads are proved.

pub mod cas;
pub mod channel;
pub mod lazy;
pub mod lock_protocol;
pub mod numbers;
pub mod one_shot_protocol;
pub mod progress;
pub mod race_protocol;
pub mod ready;
pub mod spin_lock;
pub mod work_stats;
