//! The parking mutex's atomic state word, modeled exactly: three states
//! over two independent bits, "held" and "has parked waiters", and the
//! compare-and-swap transitions the acquire and release paths attempt.
//!
//! The state word invariant: the parked bit may only be set while the held
//! bit is set, so a reader observing the unlocked byte is guaranteed no
//! waiter is queued.

use vstd::prelude::*;

verus! {

/// The state word when the lock is free and no waiter is queued.
pub const UNLOCKED: u8 = 0;

/// Bit set while some thread holds the lock.
pub const HELD_BIT: u8 = 1;

/// Bit set while the wait queue is (or is becoming) non-empty.
pub const PARKED_BIT: u8 = 2;

/// The three reachable states of the lock word.
#[derive(Clone, Copy, Debug, PartialEq, Eq, Structural)]
pub enum LockState {
    /// Free; no waiter is queued.
    Unlocked,
    /// Held; no parked waiter announced.
    Locked,
    /// Held, and at least one waiter is parked or mid-enqueue.
    LockedParked,
}

/// The byte a state is stored as: the held bit, plus the parked bit only
/// on top of the held bit.
pub open spec fn spec_encode(s: LockState) -> u8 {
    match s {
        LockState::Unlocked => UNLOCKED,
        LockState::Locked => HELD_BIT,
        LockState::LockedParked => HELD_BIT | PARKED_BIT,
    }
}

/// The bytes that some reachable state encodes to.
pub open spec fn spec_valid_byte(b: u8) -> bool {
    b == UNLOCKED || b == HELD_BIT || b == (HELD_BIT | PARKED_BIT)
}

/// The state a byte decodes to; `None` on a byte no documented state
/// produces (in particular the parked bit without the held bit).
pub open spec fn spec_decode(b: u8) -> Option<LockState> {
    if b == UNLOCKED {
        Some(LockState::Unlocked)
    } else if b == HELD_BIT {
        Some(LockState::Locked)
    } else if b == (HELD_BIT | PARKED_BIT) {
        Some(LockState::LockedParked)
    } else {
        None
    }
}

/// Encodes a state into the byte the atomic word stores.
pub fn encode(s: LockState) -> (r: u8)
    ensures
        r == spec_encode(s),
{
    match s {
        LockState::Unlocked => UNLOCKED,
        LockState::Locked => HELD_BIT,
        LockState::LockedParked => HELD_BIT | PARKED_BIT,
    }
}

/// Decodes a byte read from the atomic word; `None` marks a torn or
/// corrupted value that no documented transition produces.
pub fn decode(b: u8) -> (r: Option<LockState>)
    ensures
        r == spec_decode(b),
{
    if b == UNLOCKED {
        Some(LockState::Unlocked)
    } else if b == HELD_BIT {
        Some(LockState::Locked)
    } else if b == (HELD_BIT | PARKED_BIT) {
        Some(LockState::LockedParked)
    } else {
        None
    }
}

/// Whether some thread holds the lock in this state.
pub open spec fn holds_lock(s: LockState) -> bool {
    s != LockState::Unlocked
}

/// Whether this state announces parked (or mid-enqueue) waiters.
pub open spec fn has_parked(s: LockState) -> bool {
    s == LockState::LockedParked
}

/// Encoding and decoding are mutually inverse over the reachable states
/// and the valid bytes.
pub proof fn lemma_encode_decode(s: LockState, b: u8)
    ensures
        spec_decode(spec_encode(s)) == Some(s),
        spec_valid_byte(spec_encode(s)),
        spec_decode(b) matches Some(t) ==> spec_encode(t) == b,
        spec_valid_byte(b) <==> spec_decode(b) is Some,
{
    assert((1u8 | 2u8) == 3u8) by (bit_vector);
}

/// The state word invariant: in every valid byte the parked bit implies the
/// held bit, so a reader observing the unlocked byte is guaranteed no
/// waiter is queued.
pub proof fn lemma_parked_implies_held(b: u8)
    ensures
        spec_valid_byte(b) && (b & PARKED_BIT) != 0 ==> (b & HELD_BIT) != 0,
        spec_decode(b) == Some(LockState::Unlocked) ==> b == UNLOCKED,
{
    assert((1u8 | 2u8) == 3u8) by (bit_vector);
    assert(((b == 0u8 || b == 1u8 || b == 3u8) && (b & 2u8) != 0) ==> (b & 1u8) != 0)
        by (bit_vector);
}

/// The fast acquire edge, `Unlocked -> Locked`: what a compare-and-swap
/// from unlocked to held leaves behind, and whether it won.
pub open spec fn acquire_transition(s: LockState) -> (LockState, bool) {
    if s == LockState::Unlocked {
        (LockState::Locked, true)
    } else {
        (s, false)
    }
}

/// Applies the fast acquire edge to an observed state.
pub fn try_acquire_step(s: LockState) -> (r: (LockState, bool))
    ensures
        r == acquire_transition(s),
{
    if s == LockState::Unlocked {
        (LockState::Locked, true)
    } else {
        (s, false)
    }
}

/// The contention announcement edge, `Locked -> LockedParked`: a waiter
/// about to park sets the parked bit, but only over a plainly held word —
/// over `Unlocked` it must instead retry acquiring, and over
/// `LockedParked` the bit is already set.
pub open spec fn park_announce_transition(s: LockState) -> (LockState, bool) {
    if s == LockState::Locked {
        (LockState::LockedParked, true)
    } else {
        (s, false)
    }
}

/// Applies the contention announcement edge to an observed state.
pub fn park_announce_step(s: LockState) -> (r: (LockState, bool))
    ensures
        r == park_announce_transition(s),
{
    if s == LockState::Locked {
        (LockState::LockedParked, true)
    } else {
        (s, false)
    }
}

/// The fast release edge, `Locked -> Unlocked`: succeeds only when no
/// waiter is announced; over `LockedParked` the releaser must take the
/// queue guard and decide a hand-off instead.
pub open spec fn release_fast_transition(s: LockState) -> (LockState, bool) {
    if s == LockState::Locked {
        (LockState::Unlocked, true)
    } else {
        (s, false)
    }
}

/// Applies the fast release edge to an observed state.
pub fn release_fast_step(s: LockState) -> (r: (LockState, bool))
    ensures
        r == release_fast_transition(s),
{
    if s == LockState::Locked {
        (LockState::Unlocked, true)
    } else {
        (s, false)
    }
}

/// The state the slow release path leaves after handing the lock to a
/// popped waiter: still held on the new owner's behalf, with the parked
/// bit tracking whether anyone is left in the queue.
pub open spec fn handoff_state(queue_still_nonempty: bool) -> LockState {
    if queue_still_nonempty {
        LockState::LockedParked
    } else {
        LockState::Locked
    }
}

/// Applies the hand-off edge once a waiter has been popped.
pub fn handoff_step(queue_still_nonempty: bool) -> (r: LockState)
    ensures
        r == handoff_state(queue_still_nonempty),
        holds_lock(r),
        has_parked(r) == queue_still_nonempty,
{
    if queue_still_nonempty {
        LockState::LockedParked
    } else {
        LockState::Locked
    }
}

/// Mutual exclusion at the state-machine level: the acquire edge wins only
/// from the unlocked state and leaves the word held, a losing attempt
/// changes nothing, and no acquire can win while the word is held — so
/// between one successful acquire and the next release edge, every further
/// acquire attempt fails.
pub proof fn lemma_acquire_excludes(s: LockState)
    ensures
        acquire_transition(s).1 ==> s == LockState::Unlocked,
        acquire_transition(s).1 ==> holds_lock(acquire_transition(s).0),
        !acquire_transition(s).1 ==> acquire_transition(s).0 == s,
        holds_lock(s) ==> !acquire_transition(s).1,
        acquire_transition(s).1 ==> !acquire_transition(acquire_transition(s).0).1,
{
}

/// The state left after `k` successive acquire attempts on a word that no
/// release touches in between.
pub open spec fn state_after_attempts(s: LockState, k: nat) -> LockState
    decreases k,
{
    if k == 0 {
        s
    } else {
        state_after_attempts(acquire_transition(s).0, (k - 1) as nat)
    }
}

/// How many of `k` successive acquire attempts win, with no release in
/// between.
pub open spec fn wins_among_attempts(s: LockState, k: nat) -> nat
    decreases k,
{
    if k == 0 {
        0
    } else {
        (if acquire_transition(s).1 {
            1nat
        } else {
            0nat
        }) + wins_among_attempts(acquire_transition(s).0, (k - 1) as nat)
    }
}

/// Mutual exclusion across a whole contention round: of any number of
/// acquire attempts made between two releases — however the contending
/// threads interleave, their winning swaps form such a run — at most one
/// wins; exactly one once the word starts unlocked, and none while it is
/// held.
pub proof fn lemma_one_winner_per_round(s: LockState, k: nat)
    ensures
        wins_among_attempts(s, k) <= 1,
        holds_lock(s) ==> wins_among_attempts(s, k) == 0,
        s == LockState::Unlocked && k >= 1 ==> wins_among_attempts(s, k) == 1,
        holds_lock(state_after_attempts(s, k)) == (holds_lock(s) || (s == LockState::Unlocked && k
            >= 1)),
    decreases k,
{
    if k > 0 {
        lemma_one_winner_per_round(acquire_transition(s).0, (k - 1) as nat);
    }
}

/// Releasing is what re-enables acquiring: after a successful fast release
/// the acquire edge wins again, and after a hand-off the word stays held,
/// so barging acquires keep failing until the new owner releases.
pub proof fn lemma_release_enables(s: LockState, queue_still_nonempty: bool)
    ensures
        release_fast_transition(s).1 ==> acquire_transition(release_fast_transition(s).0).1,
        release_fast_transition(s).1 ==> !holds_lock(release_fast_transition(s).0),
        !acquire_transition(handoff_state(queue_still_nonempty)).1,
{
}

} // verus!
