//! A small laboratory of mutual-exclusion algorithms sharing one locking
//! capability: construct an instance with `new`, then run a closure under
//! exclusive access with `with`.
//!
//! The verified core holds the cache-line padding wrapper, the exponential
//! backoff helper, a test-and-set spin lock, the two-phase backoff policy,
//! the parking mutex state machine with its FIFO wait queue and fairness
//! window, and the delegation protocol's completion-slot and drain logic.

pub mod backoff;
pub mod backoff_lock;
pub mod cache_padded;
pub mod delegation;
pub mod lock_state;
pub mod parking;
pub mod spin_lock;
