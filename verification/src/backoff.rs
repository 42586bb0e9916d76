//! Exponential spin-then-yield backoff: a bounded attempt counter that is
//! purely thread-local. For the first few attempts a call busy-spins for an
//! exponentially growing number of rounds; past that threshold it asks the
//! caller to yield to the scheduler instead; and once the counter reaches a
//! fixed ceiling it reports itself exhausted so the caller can switch
//! strategy altogether (to parking, say). Every lock variant's slow path
//! uses one of these.

use vstd::prelude::*;

verus! {

/// Attempts up to and including this count busy-spin locally; the spin
/// length doubles with each attempt.
pub const SPIN_LIMIT: u32 = 6;

/// The counter saturates here; at this point the backoff is exhausted and
/// the caller should stop retrying blindly.
pub const YIELD_LIMIT: u32 = 10;

/// Relies on core::hint::spin_loop: a CPU pause hint with no observable
/// effect on program state.
#[verifier::external_body]
fn cpu_relax() {
    core::hint::spin_loop();
}

/// A bounded attempt counter; monotonically increases per failed attempt,
/// saturating at [`YIELD_LIMIT`], and resettable to zero. Purely local
/// state: no shared memory.
#[derive(Clone, Copy, Debug)]
pub struct Backoff {
    step: u32,
}

impl Backoff {
    /// The number of failed attempts recorded so far (saturated at
    /// [`YIELD_LIMIT`]).
    pub closed spec fn count(&self) -> u32 {
        self.step
    }

    /// The counter never runs past its ceiling.
    pub open spec fn well_formed(&self) -> bool {
        self.count() <= YIELD_LIMIT
    }

    /// A fresh backoff with no attempts recorded.
    pub fn new() -> (r: Self)
        ensures
            r.count() == 0,
            r.well_formed(),
    {
        Backoff { step: 0 }
    }

    /// Forgets all recorded attempts.
    pub fn reset(&mut self)
        ensures
            final(self).count() == 0,
            final(self).well_formed(),
    {
        self.step = 0;
    }

    /// Records one failed attempt. While the counter is within
    /// [`SPIN_LIMIT`] this call busy-spins for `2 ^ count` rounds and
    /// returns `false`; past it the call does no local work and returns
    /// `true`, asking the caller to yield the thread to the scheduler.
    pub fn snooze(&mut self) -> (should_yield: bool)
        requires
            old(self).well_formed(),
        ensures
            final(self).count() == if old(self).count() < YIELD_LIMIT {
                old(self).count() + 1
            } else {
                old(self).count() as int
            },
            final(self).well_formed(),
            should_yield == (old(self).count() > SPIN_LIMIT),
    {
        let should_yield = self.step > SPIN_LIMIT;
        if !should_yield {
            let rounds: u32 = 1u32 << self.step;
            let mut i: u32 = 0;
            while i < rounds
                invariant
                    i <= rounds,
                decreases rounds - i,
            {
                cpu_relax();
                i = i + 1;
            }
        }
        if self.step < YIELD_LIMIT {
            self.step = self.step + 1;
        }
        should_yield
    }

    /// Whether the attempt counter has reached its ceiling, so the caller
    /// should switch strategy (e.g. to parking) rather than keep retrying.
    pub fn is_completed(&self) -> (r: bool)
        ensures
            r == (self.count() >= YIELD_LIMIT),
    {
        self.step >= YIELD_LIMIT
    }
}

} // verus!
