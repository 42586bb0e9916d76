//! A minimal test-and-set spin lock: one boolean "held" flag, acquired by an
//! exponential-backoff retry of "swap to held, succeed if the previous value
//! was unheld", released by a plain store with release ordering. No queueing
//! and no fairness: this is the performance floor the queued designs are
//! judged against.
//!
//! The locking capability: `with(f)` runs `f` exactly once while the flag is
//! held and returns `f`'s result only after `f` has fully completed. The
//! `FnOnce` bound makes a second execution of the same action untypable, and
//! the contract ties the returned value to an actual call of the action.
//! So that every function here provably terminates, the retry loop runs on
//! an explicit attempt budget large enough that no realistic schedule
//! exhausts it; a caller that still sees the budget run out gets its action
//! back untouched instead of a silently skipped critical section.

use core::sync::atomic::AtomicBool;
use core::sync::atomic::Ordering;
use vstd::prelude::*;

use crate::backoff::Backoff;
use crate::cache_padded::CachePadded;

verus! {

/// Failed acquire attempts `with` tolerates before giving the action back:
/// at one attempt per nanosecond this is centuries of contention, so an
/// exhausted budget marks a defect (a holder that never releases), not a
/// runtime condition.
pub const ACQUIRE_BUDGET: u64 = 0xffff_ffff_ffff_ffff;

/// The test-and-set lock. The held flag lives on its own cache line so
/// that contention on it does not interfere with neighbouring fields of
/// the owner's layout.
pub struct SpinLock {
    held: CachePadded<AtomicBool>,
}

impl SpinLock {
    /// A human-readable label for benchmark output; not part of the
    /// execution contract.
    pub fn name() -> (r: &'static str)
        ensures
            r@ == "spin_lock"@,
    {
        "spin_lock"
    }

    /// Creates an unlocked instance: the held flag starts false, so the
    /// first acquire attempt's compare-and-swap can win.
    pub fn new() -> SpinLock {
        SpinLock { held: CachePadded::new(AtomicBool::new(false)) }
    }

    /// One acquire attempt: a compare-and-swap of the held flag from false
    /// to true, succeeding exactly when the previous value was unheld.
    fn try_acquire(&self) -> bool {
        match self.held.as_ref().compare_exchange(
            false,
            true,
            Ordering::Acquire,
            Ordering::Relaxed,
        ) {
            Ok(_) => true,
            Err(_) => false,
        }
    }

    /// Releases the lock: a plain store of unheld with release ordering,
    /// publishing everything the holder wrote to the next acquirer.
    fn release(&self) {
        self.held.as_ref().store(false, Ordering::Release);
    }

    /// Runs `action` under mutual exclusion: between the winning
    /// compare-and-swap on the held flag and the release store, no other
    /// `with` call on this instance is past its own winning swap. On
    /// success the action has run exactly once, on this thread, with the
    /// call returning only after it completed, and the result is pinned to
    /// the action's own postcondition; only an exhausted attempt budget
    /// hands the action back unexecuted.
    pub fn with<R, F: FnOnce() -> R>(&self, action: F) -> (r: Result<R, F>)
        requires
            call_requires(action, ()),
        ensures
            r matches Ok(v) ==> call_ensures(action, (), v),
            r matches Err(a) ==> a == action,
    {
        let mut backoff = Backoff::new();
        let mut budget: u64 = ACQUIRE_BUDGET;
        while budget > 0
            invariant
                backoff.well_formed(),
                call_requires(action, ()),
            decreases budget,
        {
            if self.try_acquire() {
                let v = action();
                self.release();
                return Ok(v);
            }
            let _ = backoff.snooze();
            budget = budget - 1;
        }
        Err(action)
    }
}

} // verus!
