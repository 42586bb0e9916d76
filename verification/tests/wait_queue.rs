use locklab::lock_state::LockState;
use locklab::parking::FAIR_WINDOW_NANOS;
use locklab::parking::WaitQueue;
use locklab::parking::park_check_step;
use locklab::parking::resume_decision;
use locklab::parking::xorshift;

#[test]
fn xorshift_matches_reference_rounds() {
    let mut expected: u64 = 9;
    expected ^= expected << 13;
    expected ^= expected >> 7;
    expected ^= expected << 17;
    assert_eq!(xorshift(9), expected);
    let mut e2 = expected;
    e2 ^= e2 << 13;
    e2 ^= e2 >> 7;
    e2 ^= e2 << 17;
    assert_eq!(xorshift(xorshift(9)), e2);
}

#[test]
fn new_queue_is_empty_with_odd_seed() {
    let q = WaitQueue::new(8);
    assert_eq!(q.len(), 0);
    assert_eq!(q.fair_deadline(), None);
    assert_eq!(q.jitter_state(), 9);
}

#[test]
fn release_on_empty_queue_goes_unlocked() {
    let mut q = WaitQueue::new(0);
    let step = q.release_decision(0);
    assert!(step.wake.is_none());
    assert_eq!(step.next_state, LockState::Unlocked);
    assert_eq!(q.fair_deadline(), None);
}

#[test]
fn first_release_barges_and_opens_window() {
    let mut q = WaitQueue::new(0);
    q.enqueue(7);
    let step = q.release_decision(100);
    let w = step.wake.expect("head must be woken");
    assert_eq!(w.thread, 7);
    assert!(w.notified);
    assert!(!w.acquired);
    assert!(!resume_decision(&w));
    assert_eq!(step.next_state, LockState::Unlocked);
    assert_eq!(q.len(), 0);
    assert_eq!(q.fair_deadline(), Some(100 + FAIR_WINDOW_NANOS));
}

#[test]
fn release_past_deadline_hands_off_with_jitter() {
    let mut q = WaitQueue::new(8);
    q.enqueue(1);
    // Opens the window at time 0 and wakes thread 1 to re-contend.
    let first = q.release_decision(0);
    assert!(!first.wake.unwrap().acquired);
    q.enqueue(2);
    let now = 2 * FAIR_WINDOW_NANOS;
    let step = q.release_decision(now);
    let w = step.wake.expect("head must be woken");
    assert_eq!(w.thread, 2);
    assert!(w.acquired);
    assert!(w.notified);
    assert!(resume_decision(&w));
    assert_eq!(step.next_state, LockState::Locked);
    // Deadline refreshed one window out, plus the jitter drawn from the
    // generator state before it advanced (seed 8 forced odd = 9).
    assert_eq!(q.fair_deadline(), Some(now + FAIR_WINDOW_NANOS + 9 % 1_000_000));
    assert_eq!(q.jitter_state(), xorshift(9));
}

#[test]
fn refreshed_deadline_saturates_at_the_clock_ceiling() {
    let mut q = WaitQueue::new(0);
    q.enqueue(1);
    // Opens the window at time 0.
    let _ = q.release_decision(0);
    q.enqueue(2);
    // A release at the clock's ceiling is past the deadline and hands off;
    // the refreshed deadline cannot run past the ceiling.
    let step = q.release_decision(u64::MAX);
    assert!(step.wake.unwrap().acquired);
    assert_eq!(q.fair_deadline(), Some(u64::MAX));
}

#[test]
fn barging_release_with_waiters_behind_hands_off() {
    let mut q = WaitQueue::new(0);
    q.enqueue(1);
    q.enqueue(2);
    // Window not yet due, but thread 2 is still parked behind the head, so
    // the word may not go unlocked: the head is handed the lock instead.
    let step = q.release_decision(0);
    let w = step.wake.unwrap();
    assert_eq!(w.thread, 1);
    assert!(w.acquired);
    assert_eq!(step.next_state, LockState::LockedParked);
    assert_eq!(q.len(), 1);
    // The next release finds only thread 2, inside the window: it barges.
    let step2 = q.release_decision(1);
    let w2 = step2.wake.unwrap();
    assert_eq!(w2.thread, 2);
    assert!(!w2.acquired);
    assert_eq!(step2.next_state, LockState::Unlocked);
    assert_eq!(q.len(), 0);
}

#[test]
fn queue_is_fifo() {
    let mut q = WaitQueue::new(0);
    q.enqueue(10);
    q.enqueue(11);
    q.enqueue(12);
    let mut woken = Vec::new();
    while q.len() > 0 {
        woken.push(q.release_decision(0).wake.unwrap().thread);
    }
    assert_eq!(woken, vec![10, 11, 12]);
}

#[test]
fn park_check_abandons_on_concurrent_release() {
    assert!(park_check_step(LockState::LockedParked));
    assert!(!park_check_step(LockState::Locked));
    assert!(!park_check_step(LockState::Unlocked));
}
