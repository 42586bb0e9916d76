use locklab::backoff::Backoff;
use locklab::backoff::SPIN_LIMIT;
use locklab::backoff::YIELD_LIMIT;
use locklab::cache_padded::CachePadded;

#[test]
fn cache_padded_round_trip() {
    let p = CachePadded::new(42u64);
    assert_eq!(*p.as_ref(), 42);
    assert_eq!(p.into_inner(), 42);
}

#[test]
fn cache_padded_from_wraps_the_value() {
    let p = CachePadded::from(5u32);
    assert_eq!(p.into_inner(), 5);
}

#[test]
fn cache_padded_as_mut_writes_through() {
    let mut p = CachePadded::new(String::from("a"));
    p.as_mut().push('b');
    assert_eq!(p.as_ref().as_str(), "ab");
    assert_eq!(p.into_inner(), "ab");
}

#[test]
fn backoff_counts_and_reports_yield() {
    let mut b = Backoff::new();
    assert!(!b.is_completed());
    let mut yields: u32 = 0;
    for _ in 0..YIELD_LIMIT {
        if b.snooze() {
            yields += 1;
        }
    }
    // The first SPIN_LIMIT + 1 attempts spin locally; the rest ask for a yield.
    assert_eq!(yields, YIELD_LIMIT - SPIN_LIMIT - 1);
    assert!(b.is_completed());
    // Saturated: further attempts keep reporting yield and stay exhausted.
    assert!(b.snooze());
    assert!(b.is_completed());
}

#[test]
fn backoff_reset_forgets_attempts() {
    let mut b = Backoff::new();
    for _ in 0..YIELD_LIMIT {
        let _ = b.snooze();
    }
    assert!(b.is_completed());
    b.reset();
    assert!(!b.is_completed());
    assert!(!b.snooze());
}
