//! The parking mutex's slow path: a FIFO wait queue guarded by its own
//! exclusive lock, and the time-sliced fairness policy its release path
//! applies. The queue guard and the thread suspend/resume service are the
//! surrounding runtime's to provide; everything decided under the guard —
//! who is enqueued, who is woken, in which mode, and what the lock word
//! becomes — is verified here.
//!
//! The fairness policy trades throughput against starvation: while a fair
//! window is open, a release wakes the queue head to re-contend and leaves
//! the lock free for barging arrivals; once the window's deadline has
//! passed, a release instead performs a strict hand-off to the queue head,
//! and the next deadline is pushed out by a pseudo-randomized jitter so
//! that fairness windows of distinct locks do not synchronize.

use vstd::prelude::*;

use crate::lock_state::LockState;
use crate::lock_state::handoff_state;
use crate::lock_state::has_parked;

verus! {

/// Length of a fairness window in nanoseconds (one millisecond): the first
/// release after a window closes is the strict hand-off.
pub const FAIR_WINDOW_NANOS: u64 = 1_000_000;

/// Jitter added to a refreshed window is drawn below this bound
/// (sub-millisecond).
pub const FAIR_JITTER_BOUND: u64 = 1_000_000;

/// One xorshift round: the pseudo-random generator the jitter is drawn
/// from.
pub open spec fn spec_xorshift(x: u64) -> u64 {
    let a = x ^ (x << 13);
    let b = a ^ (a >> 7);
    b ^ (b << 17)
}

/// Advances the jitter generator by one xorshift round.
pub fn xorshift(x: u64) -> (r: u64)
    ensures
        r == spec_xorshift(x),
{
    let a = x ^ (x << 13);
    let b = a ^ (a >> 7);
    b ^ (b << 17)
}

/// One blocked thread's queue node: who to resume, whether the lock was
/// handed to it, and the suspend/resume flag its park loop re-checks (a
/// spurious wake finds `notified` still false and suspends again).
#[derive(Clone, Copy, Debug, PartialEq, Eq, Structural)]
pub struct Waiter {
    /// Opaque handle naming the parked thread for the resume service.
    pub thread: u64,
    /// Set by the releaser when the lock is handed off: the woken thread
    /// already owns the lock and must not re-contend.
    pub acquired: bool,
    /// The resume flag: false while parked, set exactly when the releaser
    /// decides to wake this waiter.
    pub notified: bool,
}

/// What one slow-path release decided: whom to resume (after the state
/// store, never before) and the value to store into the lock word.
#[derive(Clone, Copy, Debug)]
pub struct ReleaseStep {
    /// The dequeued waiter to resume, already marked with its mode
    /// (`acquired` and `notified` set as decided); `None` when the queue
    /// emptied concurrently.
    pub wake: Option<Waiter>,
    /// The value the releaser stores into the lock word.
    pub next_state: LockState,
}

/// The FIFO wait queue with the fairness window's state. The whole
/// structure is touched only under its own exclusive guard, on the slow
/// path.
pub struct WaitQueue {
    items: Vec<Waiter>,
    fair_until: Option<u64>,
    prng: u64,
}

/// Whether a release at time `now` must perform the strict hand-off: the
/// fairness window was opened and its deadline has passed.
pub open spec fn spec_be_fair(fair_until: Option<u64>, now: u64) -> bool {
    fair_until matches Some(deadline) && now >= deadline
}

/// The slow-path release decision in full, as a function of the queue's
/// fields and the release time: the remaining waiters, the fairness
/// window, the jitter generator, and the step taken. `release_decision`
/// computes exactly this.
pub open spec fn spec_release(
    ws: Seq<Waiter>,
    fair_until: Option<u64>,
    prng: u64,
    now: u64,
) -> (Seq<Waiter>, Option<u64>, u64, ReleaseStep) {
    if ws.len() == 0 {
        (ws, fair_until, prng, ReleaseStep { wake: None, next_state: LockState::Unlocked })
    } else {
        let head = ws[0];
        let rest = ws.drop_first();
        if spec_be_fair(fair_until, now) {
            (
                rest,
                Some(spec_refreshed_deadline(now, prng)),
                spec_xorshift(prng),
                ReleaseStep {
                    wake: Some(Waiter { thread: head.thread, acquired: true, notified: true }),
                    next_state: handoff_state(rest.len() > 0),
                },
            )
        } else {
            let window = if fair_until is None {
                Some(sat_add(now, FAIR_WINDOW_NANOS))
            } else {
                fair_until
            };
            if rest.len() > 0 {
                (
                    rest,
                    window,
                    prng,
                    ReleaseStep {
                        wake: Some(Waiter { thread: head.thread, acquired: true, notified: true }),
                        next_state: LockState::LockedParked,
                    },
                )
            } else {
                (
                    rest,
                    window,
                    prng,
                    ReleaseStep {
                        wake: Some(Waiter { thread: head.thread, acquired: false, notified: true }),
                        next_state: LockState::Unlocked,
                    },
                )
            }
        }
    }
}

impl WaitQueue {
    /// The queued waiters, head first.
    pub closed spec fn waiters(&self) -> Seq<Waiter> {
        self.items@
    }

    /// The open fairness window's deadline; `None` before the first
    /// barging release opens one.
    pub closed spec fn fair_until(&self) -> Option<u64> {
        self.fair_until
    }

    /// The jitter generator's state.
    pub closed spec fn prng(&self) -> u64 {
        self.prng
    }

    /// Every queued waiter is still parked: not yet notified, not yet
    /// handed the lock.
    pub open spec fn well_formed(&self) -> bool {
        forall|i: int|
            0 <= i < self.waiters().len() ==> !self.waiters()[i].notified
                && !self.waiters()[i].acquired
    }

    /// An empty queue with no fairness window open. The seed keys the
    /// jitter generator — the surrounding lock passes its own address —
    /// and is forced odd so the generator never sits at zero.
    pub fn new(seed: u64) -> (r: Self)
        ensures
            r.waiters() =~= Seq::<Waiter>::empty(),
            r.fair_until() is None,
            r.prng() == seed | 1,
            r.well_formed(),
    {
        WaitQueue { items: Vec::new(), fair_until: None, prng: seed | 1 }
    }

    /// How many waiters are parked.
    pub fn len(&self) -> (n: usize)
        ensures
            n == self.waiters().len(),
    {
        self.items.len()
    }

    /// The open fairness window's deadline, if one was started.
    pub fn fair_deadline(&self) -> (d: Option<u64>)
        ensures
            d == self.fair_until(),
    {
        self.fair_until
    }

    /// The jitter generator's current state.
    pub fn jitter_state(&self) -> (s: u64)
        ensures
            s == self.prng(),
    {
        self.prng
    }

    /// Enqueues a fresh waiter for `thread` at the tail: not notified, not
    /// handed the lock. The caller announces the parked bit and parks the
    /// thread only after this returns.
    pub fn enqueue(&mut self, thread: u64)
        requires
            old(self).well_formed(),
            old(self).waiters().len() < usize::MAX,
        ensures
            final(self).waiters() =~= old(self).waiters().push(
                Waiter { thread, acquired: false, notified: false },
            ),
            final(self).fair_until() == old(self).fair_until(),
            final(self).prng() == old(self).prng(),
            final(self).well_formed(),
    {
        self.items.push(Waiter { thread, acquired: false, notified: false });
    }

    /// One slow-path release, taken under the queue guard after the fast
    /// `Locked -> Unlocked` swap failed. Pops the FIFO head and decides
    /// the fairness mode at time `now` (a monotonic nanosecond reading):
    ///
    /// - queue empty: nobody to wake; the word goes back to unlocked.
    /// - fair window closed (deadline passed): strict hand-off — the head
    ///   is woken already owning the lock, the word stays held with the
    ///   parked bit tracking the remaining queue, and the next deadline is
    ///   pushed out by a jittered window.
    /// - window open (or not yet started, which starts it): barging — the
    ///   head is woken to re-contend and the word goes back to unlocked,
    ///   but only when that head was the last waiter; with others still
    ///   parked the release hands off regardless, since an unlocked word
    ///   must guarantee an empty queue (no waiter may be stranded behind
    ///   a word that no longer announces it).
    ///
    /// Resuming is the caller's part and must happen only after the word
    /// is stored, so a resumed waiter never observes the queue update in
    /// flight.
    pub fn release_decision(&mut self, now: u64) -> (step: ReleaseStep)
        requires
            old(self).well_formed(),
        ensures
            final(self).well_formed(),
            // The decision is exactly the specified one: FIFO head popped
            // and woken once, fairness mode by the deadline, window and
            // generator updated as specified.
            final(self).waiters() =~= spec_release(
                old(self).waiters(),
                old(self).fair_until(),
                old(self).prng(),
                now,
            ).0,
            final(self).fair_until() == spec_release(
                old(self).waiters(),
                old(self).fair_until(),
                old(self).prng(),
                now,
            ).1,
            final(self).prng() == spec_release(
                old(self).waiters(),
                old(self).fair_until(),
                old(self).prng(),
                now,
            ).2,
            step == spec_release(
                old(self).waiters(),
                old(self).fair_until(),
                old(self).prng(),
                now,
            ).3,
            // No missed wakeup, modeled: the word returns to unlocked only
            // with the queue drained, and announces parked waiters exactly
            // while some remain.
            final(self).next_matches(step.next_state),
            step.next_state == LockState::Unlocked ==> final(self).waiters().len() == 0,
    {
        if self.items.len() == 0 {
            return ReleaseStep { wake: None, next_state: LockState::Unlocked };
        }
        let mut head = self.items.remove(0);
        head.notified = true;
        let be_fair = match self.fair_until {
            Some(deadline) => now >= deadline,
            None => false,
        };
        if be_fair {
            head.acquired = true;
            let jitter = self.prng % FAIR_JITTER_BOUND;
            self.prng = xorshift(self.prng);
            self.fair_until = Some(
                now.saturating_add(FAIR_WINDOW_NANOS).saturating_add(jitter),
            );
            let remaining = self.items.len() > 0;
            ReleaseStep { wake: Some(head), next_state: crate::lock_state::handoff_step(remaining) }
        } else {
            if self.fair_until.is_none() {
                self.fair_until = Some(now.saturating_add(FAIR_WINDOW_NANOS));
            }
            if self.items.len() > 0 {
                head.acquired = true;
                ReleaseStep { wake: Some(head), next_state: LockState::LockedParked }
            } else {
                head.acquired = false;
                ReleaseStep { wake: Some(head), next_state: LockState::Unlocked }
            }
        }
    }

    /// The parked bit the releaser stores agrees with the queue it leaves
    /// behind.
    pub open spec fn next_matches(&self, s: LockState) -> bool {
        has_parked(s) == (self.waiters().len() > 0)
    }
}

/// The threads that `k` successive slow-path releases wake, starting from
/// the given queue fields, with the clock held fixed.
pub open spec fn spec_wake_threads(
    ws: Seq<Waiter>,
    fair_until: Option<u64>,
    prng: u64,
    now: u64,
    k: nat,
) -> Seq<u64>
    decreases k,
{
    if k == 0 {
        Seq::empty()
    } else {
        let next = spec_release(ws, fair_until, prng, now);
        let woken: Seq<u64> = match next.3.wake {
            Some(w) => seq![w.thread],
            None => Seq::empty(),
        };
        woken + spec_wake_threads(next.0, next.1, next.2, now, (k - 1) as nat)
    }
}

/// No missed and no duplicated wakeup, over a whole drain: once every
/// parked thread's release has run (any `k` of them covering the queue),
/// the woken threads are exactly the enqueued ones, in FIFO order, each
/// exactly once — whatever mix of barging and hand-off the fairness
/// window decided along the way.
pub proof fn lemma_drain_wakes_each_exactly_once(
    ws: Seq<Waiter>,
    fair_until: Option<u64>,
    prng: u64,
    now: u64,
    k: nat,
)
    requires
        k >= ws.len(),
    ensures
        spec_wake_threads(ws, fair_until, prng, now, k) =~= ws.map_values(
            |w: Waiter| w.thread,
        ),
    decreases k,
{
    if k == 0 {
        assert(ws.map_values(|w: Waiter| w.thread) =~= Seq::<u64>::empty());
    } else if ws.len() == 0 {
        lemma_drain_wakes_each_exactly_once(ws, fair_until, prng, now, (k - 1) as nat);
        assert(ws.map_values(|w: Waiter| w.thread) =~= Seq::<u64>::empty());
    } else {
        let next = spec_release(ws, fair_until, prng, now);
        lemma_drain_wakes_each_exactly_once(next.0, next.1, next.2, now, (k - 1) as nat);
        assert(ws.map_values(|w: Waiter| w.thread) =~= seq![ws[0].thread]
            + ws.drop_first().map_values(|w: Waiter| w.thread));
    }
}

/// The deadline a strict hand-off at time `now` installs: one window out,
/// plus a jitter drawn from the generator state before it advances.
pub open spec fn spec_refreshed_deadline(now: u64, prng: u64) -> u64 {
    sat_add(sat_add(now, FAIR_WINDOW_NANOS), prng % FAIR_JITTER_BOUND)
}

/// Saturating addition, as the deadline arithmetic uses it.
pub open spec fn sat_add(a: u64, b: u64) -> u64 {
    if a + b <= u64::MAX {
        (a + b) as u64
    } else {
        u64::MAX
    }
}

/// What a resumed waiter does next, per its `acquired` flag: proceed as
/// the owner after a hand-off, or loop back to spinning and re-contending
/// after a barging wake.
pub fn resume_decision(w: &Waiter) -> (owns: bool)
    ensures
        owns == w.acquired,
{
    w.acquired
}

/// The park re-verification, taken under the queue guard before
/// enqueueing: a waiter parks only if the word is still exactly held with
/// the parked bit announced; any other observation means the lock was
/// released (or the bit cleared) concurrently, and the waiter abandons
/// parking and restarts its spin.
pub fn park_check_step(s: LockState) -> (park: bool)
    ensures
        park == (s == LockState::LockedParked),
{
    match s {
        LockState::LockedParked => true,
        _ => false,
    }
}

} // verus!
