//! A variant of the test-and-set lock with a coarser, two-phase retry
//! policy: a short burst of busy-spin attempts, then sleeping for a
//! duration that doubles each round, seeded from a small exponent and reset
//! after each successful acquire. It captures the trade-off that yielding
//! to the scheduler is cheap relative to a full sleep only up to a point.
//!
//! The sleep itself is a scheduler service the verified core cannot
//! perform; `with` takes it as an injected capability (a closure from a
//! nanosecond count to the elapsed wait), so the whole retry loop and the
//! policy driving it stay verified.

use core::sync::atomic::AtomicBool;
use core::sync::atomic::Ordering;
use vstd::prelude::*;

use crate::backoff::Backoff;
use crate::cache_padded::CachePadded;
use crate::spin_lock::ACQUIRE_BUDGET;

verus! {

/// Attempts in the fast phase: this many failed acquires busy-spin before
/// the policy switches to sleeping.
pub const SPIN_BURST: u32 = 32;

/// The sleeping phase starts at `2 ^ INITIAL_SLEEP_EXP` nanoseconds
/// (about a microsecond).
pub const INITIAL_SLEEP_EXP: u32 = 10;

/// The sleep duration stops doubling at `2 ^ MAX_SLEEP_EXP` nanoseconds
/// (about a second).
pub const MAX_SLEEP_EXP: u32 = 30;

/// What the policy asks the retry loop to do after one failed acquire.
#[derive(Clone, Copy, Debug, PartialEq, Eq, Structural)]
pub enum BackoffDirective {
    /// Stay in the fast phase: busy-spin briefly and retry.
    SpinYield,
    /// Sleep for this many nanoseconds before retrying.
    Sleep(u64),
}

/// The sleep the policy asks for at a given exponent, capped at
/// [`MAX_SLEEP_EXP`].
pub open spec fn spec_sleep_nanos(exp: u32) -> u64 {
    1u64 << (if exp <= MAX_SLEEP_EXP {
        exp
    } else {
        MAX_SLEEP_EXP
    })
}

/// Each sleeping round doubles the wait, up to the cap.
pub proof fn lemma_sleep_doubles(exp: u32)
    ensures
        exp < MAX_SLEEP_EXP ==> spec_sleep_nanos((exp + 1) as u32) == 2 * spec_sleep_nanos(exp),
        spec_sleep_nanos(exp) >= 1,
{
    let e = if exp <= MAX_SLEEP_EXP {
        exp
    } else {
        MAX_SLEEP_EXP
    };
    assert(e < 31 ==> 1u64 << ((e + 1) as u32) == 2 * (1u64 << e)) by (bit_vector);
    assert(e <= 31 ==> 1u64 << e >= 1) by (bit_vector);
}

/// The two-phase retry policy: a bounded count of fast attempts, then a
/// sleep exponent that grows by one per sleeping round. Purely local
/// state.
#[derive(Clone, Copy, Debug)]
pub struct TwoPhaseBackoff {
    attempts: u32,
    exp: u32,
}

impl TwoPhaseBackoff {
    /// Failed attempts recorded in the fast phase (saturated at
    /// [`SPIN_BURST`]).
    pub closed spec fn attempts(&self) -> u32 {
        self.attempts
    }

    /// The current sleep exponent.
    pub closed spec fn exponent(&self) -> u32 {
        self.exp
    }

    /// The counters stay within their phase bounds.
    pub open spec fn well_formed(&self) -> bool {
        self.attempts() <= SPIN_BURST && INITIAL_SLEEP_EXP <= self.exponent()
            && self.exponent() <= MAX_SLEEP_EXP
    }

    /// A fresh policy: fast phase, sleep exponent at its seed.
    pub fn new() -> (r: Self)
        ensures
            r.attempts() == 0,
            r.exponent() == INITIAL_SLEEP_EXP,
            r.well_formed(),
    {
        TwoPhaseBackoff { attempts: 0, exp: INITIAL_SLEEP_EXP }
    }

    /// Returns to the fast phase and the seed exponent; called after each
    /// successful acquire.
    pub fn reset(&mut self)
        ensures
            final(self).attempts() == 0,
            final(self).exponent() == INITIAL_SLEEP_EXP,
            final(self).well_formed(),
    {
        self.attempts = 0;
        self.exp = INITIAL_SLEEP_EXP;
    }

    /// Records one failed acquire and says what to do before the next:
    /// within the burst, busy-spin; past it, sleep for the current
    /// exponent's duration, which then doubles (capped) for the round
    /// after.
    pub fn step(&mut self) -> (d: BackoffDirective)
        requires
            old(self).well_formed(),
        ensures
            final(self).well_formed(),
            old(self).attempts() < SPIN_BURST ==> {
                &&& d == BackoffDirective::SpinYield
                &&& final(self).attempts() == old(self).attempts() + 1
                &&& final(self).exponent() == old(self).exponent()
            },
            old(self).attempts() >= SPIN_BURST ==> {
                &&& d == BackoffDirective::Sleep(spec_sleep_nanos(old(self).exponent()))
                &&& final(self).attempts() == old(self).attempts()
                &&& final(self).exponent() == if old(self).exponent() < MAX_SLEEP_EXP {
                    old(self).exponent() + 1
                } else {
                    old(self).exponent() as int
                }
            },
    {
        if self.attempts < SPIN_BURST {
            self.attempts = self.attempts + 1;
            BackoffDirective::SpinYield
        } else {
            let nanos: u64 = 1u64 << self.exp;
            assert(nanos == spec_sleep_nanos(self.exp));
            if self.exp < MAX_SLEEP_EXP {
                self.exp = self.exp + 1;
            }
            BackoffDirective::Sleep(nanos)
        }
    }
}

/// The two-phase backoff lock: the same single held bit as the plain spin
/// lock, with the coarser retry policy around it.
pub struct BackoffLock {
    held: CachePadded<AtomicBool>,
}

impl BackoffLock {
    /// A human-readable label for benchmark output; not part of the
    /// execution contract.
    pub fn name() -> (r: &'static str)
        ensures
            r@ == "backoff_lock"@,
    {
        "backoff_lock"
    }

    /// Creates an unlocked instance.
    pub fn new() -> BackoffLock {
        BackoffLock { held: CachePadded::new(AtomicBool::new(false)) }
    }

    /// One acquire attempt: a compare-and-swap of the held flag from false
    /// to true, succeeding exactly when the previous value was unheld.
    fn try_acquire(&self) -> bool {
        match self.held.as_ref().compare_exchange(
            false,
            true,
            Ordering::Acquire,
            Ordering::Relaxed,
        ) {
            Ok(_) => true,
            Err(_) => false,
        }
    }

    /// Releases the lock with release ordering, publishing the holder's
    /// writes to the next acquirer.
    fn release(&self) {
        self.held.as_ref().store(false, Ordering::Release);
    }

    /// Runs `action` under mutual exclusion, exactly once, returning only
    /// after it completed, with the result pinned to the action's own
    /// postcondition. `sleep` is the injected scheduler capability: it is
    /// called with the nanosecond duration the policy asks to wait in the
    /// slow phase (a caller without a scheduler may pass a no-op and the
    /// loop degrades to busy retrying). Only an exhausted attempt budget
    /// hands the action back unexecuted.
    pub fn with<R, F: FnOnce() -> R, S: Fn(u64)>(&self, action: F, sleep: S) -> (r: Result<R, F>)
        requires
            call_requires(action, ()),
            forall|n: u64| call_requires(sleep, (n,)),
        ensures
            r matches Ok(v) ==> call_ensures(action, (), v),
            r matches Err(a) ==> a == action,
    {
        let mut policy = TwoPhaseBackoff::new();
        let mut spinner = Backoff::new();
        let mut budget: u64 = ACQUIRE_BUDGET;
        while budget > 0
            invariant
                policy.well_formed(),
                spinner.well_formed(),
                call_requires(action, ()),
                forall|n: u64| call_requires(sleep, (n,)),
            decreases budget,
        {
            if self.try_acquire() {
                let v = action();
                self.release();
                return Ok(v);
            }
            match policy.step() {
                BackoffDirective::SpinYield => {
                    let _ = spinner.snooze();
                },
                BackoffDirective::Sleep(nanos) => {
                    sleep(nanos);
                },
            }
            budget = budget - 1;
        }
        Err(action)
    }
}

} // verus!
