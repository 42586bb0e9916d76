//! The delegation lock's protocol, modeled exactly: a single word holds
//! either "unlocked", "locked with an empty stack", or the head of a stack
//! of pending actions. The thread that wins the acquire race becomes the
//! executor: it runs its own action, then repeatedly swaps the word back to
//! "locked, empty", draining and running every batch of actions pushed in
//! the interim, signalling each pusher after its action ran, until a swap
//! finds the stack empty and the word can go back to unlocked.
//!
//! Two pieces carry the correctness burden and are verified here: the
//! completion-slot race (a waiter installing its resume handle against an
//! executor that may already have finished — neither a missed signal nor a
//! signal sent to nothing, in either order), and the drain order (batches in
//! arrival order, each batch newest-first, every pushed action exactly
//! once).

use vstd::prelude::*;
use vstd::seq_lib::*;

verus! {

/// The delegation word's three shapes: free, held with nothing pending, or
/// held with a non-empty stack of pending actions.
#[derive(Clone, Copy, Debug, PartialEq, Eq, Structural)]
pub enum DelegationWord {
    /// No executor; no pending action.
    Unlocked,
    /// An executor is running; the pending stack is empty.
    LockedEmpty,
    /// An executor is running and the stack holds pending actions.
    Pending,
}

/// The acquire race: a compare-and-swap from unlocked to locked-empty; the
/// winner becomes the executor.
pub open spec fn delegation_acquire_transition(w: DelegationWord) -> (DelegationWord, bool) {
    if w == DelegationWord::Unlocked {
        (DelegationWord::LockedEmpty, true)
    } else {
        (w, false)
    }
}

/// Applies the acquire race's edge to an observed word.
pub fn delegation_acquire_step(w: DelegationWord) -> (r: (DelegationWord, bool))
    ensures
        r == delegation_acquire_transition(w),
{
    if w == DelegationWord::Unlocked {
        (DelegationWord::LockedEmpty, true)
    } else {
        (w, false)
    }
}

/// The push edge: a loser links its node in front of the stack, leaving
/// the word pending. Over an unlocked word there is nobody to delegate to,
/// so the push is refused and the thread must retry acquiring instead.
pub open spec fn delegation_push_transition(w: DelegationWord) -> (DelegationWord, bool) {
    if w == DelegationWord::Unlocked {
        (w, false)
    } else {
        (DelegationWord::Pending, true)
    }
}

/// Applies the push edge to an observed word.
pub fn delegation_push_step(w: DelegationWord) -> (r: (DelegationWord, bool))
    ensures
        r == delegation_push_transition(w),
{
    if w == DelegationWord::Unlocked {
        (w, false)
    } else {
        (DelegationWord::Pending, true)
    }
}

/// What the executor does after swapping the word back to locked-empty and
/// observing the prior value.
#[derive(Clone, Copy, Debug, PartialEq, Eq, Structural)]
pub enum DrainStep {
    /// The swap read a non-empty stack: run that batch, then swap again.
    RunBatch,
    /// The swap read locked-empty: nothing arrived; commit unlocked (by a
    /// compare-and-swap, since a new push may still race in).
    TryRelease,
}

/// The executor's decision on the prior word its drain swap read. The
/// prior word cannot be unlocked: this executor holds the lock.
pub fn drain_decision(prior: DelegationWord) -> (d: DrainStep)
    requires
        prior != DelegationWord::Unlocked,
    ensures
        d == DrainStep::RunBatch <==> prior == DelegationWord::Pending,
        d == DrainStep::TryRelease <==> prior == DelegationWord::LockedEmpty,
{
    match prior {
        DelegationWord::Pending => DrainStep::RunBatch,
        _ => DrainStep::TryRelease,
    }
}

/// Executor-ship is exclusive: the acquire edge wins only from the
/// unlocked word and leaves it held; while held (with or without pending
/// actions) every further acquire attempt fails and changes nothing, and
/// a push never makes the word look unlocked.
pub proof fn lemma_delegation_excludes(w: DelegationWord)
    ensures
        delegation_acquire_transition(w).1 ==> w == DelegationWord::Unlocked,
        delegation_acquire_transition(w).1 ==> !delegation_acquire_transition(
            delegation_acquire_transition(w).0,
        ).1,
        !delegation_acquire_transition(w).1 ==> delegation_acquire_transition(w).0 == w,
        delegation_push_transition(w).1 ==> delegation_push_transition(w).0
            != DelegationWord::Unlocked,
{
}

/// How many of `k` successive acquire attempts on the delegation word win
/// executor-ship, with no release in between.
pub open spec fn executor_wins(w: DelegationWord, k: nat) -> nat
    decreases k,
{
    if k == 0 {
        0
    } else {
        (if delegation_acquire_transition(w).1 {
            1nat
        } else {
            0nat
        }) + executor_wins(delegation_acquire_transition(w).0, (k - 1) as nat)
    }
}

/// At most one executor per contention round: of any number of acquire
/// attempts between one unlock and the next, exactly one wins when the
/// word starts unlocked and none wins while it is held — so every pending
/// action is drained by a single thread at a time.
pub proof fn lemma_single_executor(w: DelegationWord, k: nat)
    ensures
        executor_wins(w, k) <= 1,
        w == DelegationWord::Unlocked && k >= 1 ==> executor_wins(w, k) == 1,
        w != DelegationWord::Unlocked ==> executor_wins(w, k) == 0,
    decreases k,
{
    if k > 0 {
        lemma_single_executor(delegation_acquire_transition(w).0, (k - 1) as nat);
    }
}

/// A pending node's completion slot, shared between the waiting pusher and
/// the executor. Both sides touch it by one atomic swap each: the waiter
/// swaps its resume handle in, the executor swaps the done sentinel in,
/// and each learns from its swap's prior value whether it won or lost the
/// race. Once done, the slot is never touched again.
#[derive(Clone, Copy, Debug, PartialEq, Eq, Structural)]
pub enum CompletionSlot {
    /// No handle installed yet: the node was pushed, its action may or may
    /// not have run, and the pusher has not committed to suspending.
    Vacant,
    /// The pusher installed this resume handle and suspends until
    /// signalled.
    Installed(u64),
    /// The sentinel: the action ran and the executor is done with the
    /// slot.
    Done,
}

/// The executor's side, after running the node's action: swap the done
/// sentinel in; signal exactly the handle the prior value held, if any.
pub open spec fn finish_transition(s: CompletionSlot) -> (CompletionSlot, Option<u64>) {
    match s {
        CompletionSlot::Vacant => (CompletionSlot::Done, None),
        CompletionSlot::Installed(h) => (CompletionSlot::Done, Some(h)),
        CompletionSlot::Done => (CompletionSlot::Done, None),
    }
}

/// Applies the executor's swap to the observed slot. The slot is consumed
/// exactly once per node, so the sentinel cannot be observed here.
pub fn executor_finish(s: CompletionSlot) -> (r: (CompletionSlot, Option<u64>))
    requires
        s != CompletionSlot::Done,
    ensures
        r == finish_transition(s),
        r.0 == CompletionSlot::Done,
{
    match s {
        CompletionSlot::Installed(h) => (CompletionSlot::Done, Some(h)),
        _ => (CompletionSlot::Done, None),
    }
}

/// The waiter's side: swap its lazily-built resume handle in. If the
/// prior value was vacant the install won and the waiter suspends until
/// signalled; if it was the done sentinel the executor already finished
/// and the waiter returns immediately without suspending.
pub open spec fn install_transition(s: CompletionSlot, h: u64) -> (CompletionSlot, bool) {
    match s {
        CompletionSlot::Vacant => (CompletionSlot::Installed(h), true),
        CompletionSlot::Installed(_) => (s, false),
        CompletionSlot::Done => (CompletionSlot::Done, false),
    }
}

/// Applies the waiter's swap to the observed slot. Only the one pusher
/// installs into its own node, so a prior installed handle cannot be
/// observed here.
pub fn waiter_install(s: CompletionSlot, h: u64) -> (r: (CompletionSlot, bool))
    requires
        !(s matches CompletionSlot::Installed(_)),
    ensures
        r == install_transition(s, h),
{
    match s {
        CompletionSlot::Vacant => (CompletionSlot::Installed(h), true),
        _ => (CompletionSlot::Done, false),
    }
}

/// The interleaving where the waiter installs before the executor
/// finishes: the waiter suspends, and the finish signals exactly the
/// installed handle.
pub open spec fn race_install_first(h: u64) -> bool {
    let installed = install_transition(CompletionSlot::Vacant, h);
    let finished = finish_transition(installed.0);
    installed.1 && finished.1 == Some(h) && finished.0 == CompletionSlot::Done
}

/// The interleaving where the executor finishes before the waiter
/// installs: no signal is sent into the void, and the waiter sees the
/// sentinel and never suspends.
pub open spec fn race_finish_first(h: u64) -> bool {
    let finished = finish_transition(CompletionSlot::Vacant);
    let installed = install_transition(finished.0, h);
    finished.1 is None && !installed.1 && installed.0 == CompletionSlot::Done
}

/// The completion race is safe in both orders: a waiter that suspends is
/// signalled exactly once at its own handle, a waiter that loses the race
/// never suspends, and no signal is ever sent when nobody suspends — so a
/// pushed action's completion is neither missed nor duplicated.
pub proof fn lemma_completion_race(h: u64)
    ensures
        race_install_first(h),
        race_finish_first(h),
{
}

/// The order the executor runs pending actions in: per drain swap one
/// batch, batches in arrival order, and within a batch the stack order —
/// newest first.
pub open spec fn spec_drain(batches: Seq<Seq<u64>>) -> Seq<u64>
    decreases batches.len(),
{
    if batches.len() == 0 {
        Seq::empty()
    } else {
        batches.first().reverse() + spec_drain(batches.drop_first())
    }
}

/// Appending one more batch extends the drain by that batch reversed.
pub proof fn lemma_drain_push(batches: Seq<Seq<u64>>, batch: Seq<u64>)
    ensures
        spec_drain(batches.push(batch)) =~= spec_drain(batches) + batch.reverse(),
    decreases batches.len(),
{
    if batches.len() == 0 {
        let empty = Seq::<Seq<u64>>::empty();
        assert(batches.push(batch).drop_first() =~= empty);
        assert(spec_drain(empty) =~= Seq::<u64>::empty());
        assert(batches.push(batch).first() == batch);
        assert(spec_drain(batches.push(batch)) =~= batch.reverse() + Seq::<u64>::empty());
        assert(spec_drain(batches) + batch.reverse() =~= batch.reverse());
        assert(batch.reverse() + Seq::<u64>::empty() =~= batch.reverse());
    } else {
        assert(batches.push(batch).drop_first() =~= batches.drop_first().push(batch));
        lemma_drain_push(batches.drop_first(), batch);
        assert(batches.push(batch).first() == batches.first());
        assert(spec_drain(batches.push(batch)) =~= batches.first().reverse() + (spec_drain(
            batches.drop_first(),
        ) + batch.reverse()));
    }
}

/// Computes the executor's full execution order from the batches its
/// successive drain swaps read (each batch in arrival order; the executor
/// walks it newest-first).
pub fn drain_order(batches: &Vec<Vec<u64>>) -> (r: Vec<u64>)
    ensures
        r@ =~= spec_drain(batches@.map_values(|b: Vec<u64>| b@)),
{
    let ghost views = batches@.map_values(|b: Vec<u64>| b@);
    let mut r: Vec<u64> = Vec::new();
    let mut i: usize = 0;
    while i < batches.len()
        invariant
            views == batches@.map_values(|b: Vec<u64>| b@),
            i <= batches.len(),
            r@ =~= spec_drain(views.take(i as int)),
        decreases batches.len() - i,
    {
        let batch = &batches[i];
        let mut j: usize = batch.len();
        while j > 0
            invariant
                views == batches@.map_values(|b: Vec<u64>| b@),
                i < batches.len(),
                batch == &batches[i as int],
                j <= batch.len(),
                r@ =~= spec_drain(views.take(i as int)) + batch@.skip(j as int).reverse(),
            decreases j,
        {
            j = j - 1;
            let ghost before = r@;
            r.push(batch[j]);
            proof {
                assert(batch@.skip(j as int).reverse() =~= batch@.skip(j as int + 1).reverse().push(
                    batch@[j as int],
                ));
            }
        }
        i = i + 1;
        proof {
            lemma_drain_push(views.take(i - 1), views[i - 1]);
            assert(views.take(i as int) =~= views.take(i - 1).push(views[i - 1]));
        }
    }
    proof {
        assert(views.take(batches@.len() as int) =~= views);
    }
    r
}

/// Delegation runs every pushed action exactly once: the drain order is a
/// permutation of everything pushed, whatever the batching — no pending
/// action is lost and none runs twice.
pub proof fn lemma_drain_exactly_once(batches: Seq<Seq<u64>>)
    ensures
        spec_drain(batches).to_multiset() =~= batches.flatten().to_multiset(),
    decreases batches.len(),
{
    if batches.len() == 0 {
    } else {
        let first = batches.first();
        let rest = batches.drop_first();
        first.lemma_reverse_to_multiset();
        lemma_multiset_commutative(first.reverse(), spec_drain(rest));
        lemma_multiset_commutative(first, rest.flatten());
        lemma_drain_exactly_once(rest);
        assert(spec_drain(batches).to_multiset() =~= first.reverse().to_multiset().add(
            spec_drain(rest).to_multiset(),
        ));
        assert(batches.flatten().to_multiset() =~= first.to_multiset().add(
            rest.flatten().to_multiset(),
        ));
    }
}

} // verus!
