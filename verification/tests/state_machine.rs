use locklab::lock_state::HELD_BIT;
use locklab::lock_state::LockState;
use locklab::lock_state::PARKED_BIT;
use locklab::lock_state::UNLOCKED;
use locklab::lock_state::decode;
use locklab::lock_state::encode;
use locklab::lock_state::handoff_step;
use locklab::lock_state::park_announce_step;
use locklab::lock_state::release_fast_step;
use locklab::lock_state::try_acquire_step;

#[test]
fn encode_decode_round_trip() {
    for s in [LockState::Unlocked, LockState::Locked, LockState::LockedParked] {
        assert_eq!(decode(encode(s)), Some(s));
    }
    assert_eq!(encode(LockState::Unlocked), UNLOCKED);
    assert_eq!(encode(LockState::Locked), HELD_BIT);
    assert_eq!(encode(LockState::LockedParked), HELD_BIT | PARKED_BIT);
}

#[test]
fn parked_without_held_is_invalid() {
    assert_eq!(decode(PARKED_BIT), None);
    assert_eq!(decode(4), None);
    assert_eq!(decode(255), None);
}

#[test]
fn acquire_wins_only_from_unlocked() {
    assert_eq!(try_acquire_step(LockState::Unlocked), (LockState::Locked, true));
    assert_eq!(try_acquire_step(LockState::Locked), (LockState::Locked, false));
    assert_eq!(
        try_acquire_step(LockState::LockedParked),
        (LockState::LockedParked, false)
    );
    // A winning acquire immediately excludes the next attempt.
    let (after, won) = try_acquire_step(LockState::Unlocked);
    assert!(won);
    assert!(!try_acquire_step(after).1);
}

#[test]
fn park_announce_only_over_plain_locked() {
    assert_eq!(
        park_announce_step(LockState::Locked),
        (LockState::LockedParked, true)
    );
    assert_eq!(
        park_announce_step(LockState::Unlocked),
        (LockState::Unlocked, false)
    );
    assert_eq!(
        park_announce_step(LockState::LockedParked),
        (LockState::LockedParked, false)
    );
}

#[test]
fn release_fast_only_without_waiters() {
    assert_eq!(
        release_fast_step(LockState::Locked),
        (LockState::Unlocked, true)
    );
    assert_eq!(
        release_fast_step(LockState::LockedParked),
        (LockState::LockedParked, false)
    );
}

#[test]
fn handoff_tracks_remaining_queue() {
    assert_eq!(handoff_step(true), LockState::LockedParked);
    assert_eq!(handoff_step(false), LockState::Locked);
}
