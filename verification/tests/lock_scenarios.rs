use locklab::backoff_lock::BackoffDirective;
use locklab::backoff_lock::BackoffLock;
use locklab::backoff_lock::INITIAL_SLEEP_EXP;
use locklab::backoff_lock::MAX_SLEEP_EXP;
use locklab::backoff_lock::SPIN_BURST;
use locklab::backoff_lock::TwoPhaseBackoff;
use locklab::spin_lock::SpinLock;

#[test]
fn variant_names_label_output() {
    assert_eq!(SpinLock::name(), "spin_lock");
    assert_eq!(BackoffLock::name(), "backoff_lock");
}

#[test]
fn spin_lock_single_call_writes_42() {
    let lock = SpinLock::new();
    let mut cell: u64 = 0;
    let r = lock.with(|| {
        cell = 42;
    });
    assert!(r.is_ok());
    assert_eq!(cell, 42);
}

#[test]
fn backoff_lock_single_call_writes_42() {
    let lock = BackoffLock::new();
    let mut cell: u64 = 0;
    let r = lock.with(
        || {
            cell = 42;
        },
        |_nanos| {},
    );
    assert!(r.is_ok());
    assert_eq!(cell, 42);
}

#[test]
fn spin_lock_serial_increments_add_up() {
    let lock = SpinLock::new();
    let mut counter: u64 = 0;
    for _ in 0..4000 {
        let r = lock.with(|| {
            counter += 1;
        });
        assert!(r.is_ok());
    }
    assert_eq!(counter, 4000);
}

#[test]
fn backoff_lock_serial_increments_add_up() {
    let lock = BackoffLock::new();
    let mut counter: u64 = 0;
    for _ in 0..4000 {
        let r = lock.with(
            || {
                counter += 1;
            },
            |_nanos| {},
        );
        assert!(r.is_ok());
    }
    assert_eq!(counter, 4000);
}

#[test]
fn with_returns_the_actions_result() {
    let lock = SpinLock::new();
    let r = lock.with(|| 7u32 + 8);
    assert_eq!(r.ok(), Some(15));
}

#[test]
fn teardown_after_all_calls_returned_is_clean() {
    let lock = SpinLock::new();
    let mut cell: u64 = 0;
    for _ in 0..10 {
        let r = lock.with(|| {
            cell += 1;
        });
        assert!(r.is_ok());
    }
    drop(lock);
    assert_eq!(cell, 10);
    let other = BackoffLock::new();
    let r = other.with(|| (), |_nanos| {});
    assert!(r.is_ok());
    drop(other);
}

#[test]
fn two_phase_policy_spins_a_burst_then_sleeps_doubling() {
    let mut p = TwoPhaseBackoff::new();
    for _ in 0..SPIN_BURST {
        assert_eq!(p.step(), BackoffDirective::SpinYield);
    }
    // Past the burst, sleeps double from the seed exponent up to the cap.
    assert_eq!(p.step(), BackoffDirective::Sleep(1 << INITIAL_SLEEP_EXP));
    assert_eq!(p.step(), BackoffDirective::Sleep(1 << (INITIAL_SLEEP_EXP + 1)));
    assert_eq!(p.step(), BackoffDirective::Sleep(1 << (INITIAL_SLEEP_EXP + 2)));
    for _ in 0..2 * MAX_SLEEP_EXP {
        let _ = p.step();
    }
    // Saturated at the cap.
    assert_eq!(p.step(), BackoffDirective::Sleep(1 << MAX_SLEEP_EXP));
    // A successful acquire resets the policy to the fast phase.
    p.reset();
    assert_eq!(p.step(), BackoffDirective::SpinYield);
}
