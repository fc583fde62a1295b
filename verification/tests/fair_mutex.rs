//! Tests of the fair mutex, its protocol model, and the two-phase
//! traversal decision.  The test harness runs single-threaded, so the
//! concurrency properties are exercised on the protocol model, where
//! each thread's steps can be driven explicitly; the real lock is
//! exercised for construction, access and release.

use fair_mutex::model::{LockState, Step};
use fair_mutex::sync::FairMutex;
use fair_mutex::traverse::{needs_mut_retry, resolve, TraversalError};

#[test]
fn construction_yields_initial_value() {
    let m = FairMutex::new(5u32);
    let g = m.lock();
    assert_eq!(*g.get(), 5);
}

#[test]
fn drop_then_relock_succeeds() {
    let m = FairMutex::new(1u32);
    {
        let g = m.lock();
        assert_eq!(*g.get(), 1);
    }
    let g2 = m.lock();
    assert_eq!(*g2.get(), 1);
}

#[test]
fn set_persists_across_relock() {
    let m = FairMutex::new(3u32);
    {
        let mut g = m.lock();
        g.set(7);
        assert_eq!(*g.get(), 7);
    }
    let g2 = m.lock();
    assert_eq!(*g2.get(), 7);
}

#[test]
fn replace_returns_previous_value() {
    let m = FairMutex::new(3u32);
    let mut g = m.lock();
    let prev = g.replace(9);
    assert_eq!(prev, 3);
    assert_eq!(*g.get(), 9);
}

#[test]
fn get_mut_writes_through() {
    let m = FairMutex::new(2u32);
    {
        let mut g = m.lock();
        *g.get_mut() = 11;
    }
    let g2 = m.lock();
    assert_eq!(*g2.get(), 11);
}

#[test]
fn works_with_owned_values() {
    let m = FairMutex::new(String::from("first"));
    {
        let mut g = m.lock();
        assert_eq!(g.get().as_str(), "first");
        g.set(String::from("second"));
    }
    let g2 = m.lock();
    assert_eq!(g2.get().as_str(), "second");
}

#[test]
fn model_single_thread_cycle_never_blocks() {
    let mut s = LockState::new_unlocked(0u32);
    // lock, use, release -- twice, as one thread would; no step blocks.
    for _ in 0..2 {
        assert!(s.try_step(Step::AcquireTurnstile(1)));
        assert!(s.try_step(Step::AcquireData(1)));
        assert!(s.try_step(Step::ReleaseTurnstile(1)));
        assert!(s.try_step(Step::ReleaseData(1)));
    }
    assert_eq!(s.turnstile, None);
    assert_eq!(s.data, None);
    assert_eq!(s.value, 0);
}

#[test]
fn model_reentrant_acquisition_blocks() {
    let mut s = LockState::new_unlocked(0u32);
    assert!(s.try_step(Step::AcquireTurnstile(1)));
    assert!(s.try_step(Step::AcquireData(1)));
    assert!(s.try_step(Step::ReleaseTurnstile(1)));
    // The same thread locks again without releasing its guard: it gets
    // the turnstile, but the acquisition of the data lock never proceeds.
    assert!(s.try_step(Step::AcquireTurnstile(1)));
    assert!(!s.try_step(Step::AcquireData(1)));
    // Nothing a different thread could do proceeds either.
    assert!(!s.try_step(Step::AcquireTurnstile(2)));
    assert!(!s.try_step(Step::AcquireData(2)));
    assert!(!s.try_step(Step::ReleaseData(1)));
}

#[test]
fn model_queued_thread_cannot_be_overtaken() {
    let mut s = LockState::new_unlocked(0u32);
    // Thread 1 holds the lock.
    assert!(s.try_step(Step::AcquireTurnstile(1)));
    assert!(s.try_step(Step::AcquireData(1)));
    assert!(s.try_step(Step::ReleaseTurnstile(1)));
    // Thread 2 begins acquisition and is queued, waiting for the data lock.
    assert!(s.try_step(Step::AcquireTurnstile(2)));
    assert!(!s.try_step(Step::AcquireData(2)));
    // Thread 3 arrives later: it cannot even begin queueing.
    assert!(!s.try_step(Step::AcquireTurnstile(3)));
    // The holder releases: thread 2, and only thread 2, gets the value.
    assert!(s.try_step(Step::ReleaseData(1)));
    assert!(!s.try_step(Step::AcquireTurnstile(3)));
    assert!(s.try_step(Step::AcquireData(2)));
    assert!(s.try_step(Step::ReleaseTurnstile(2)));
    // Only now can thread 3 begin.
    assert!(s.try_step(Step::AcquireTurnstile(3)));
    assert!(!s.try_step(Step::AcquireData(3)));
}

#[test]
fn model_only_the_holder_touches_the_value() {
    let mut s = LockState::new_unlocked(10u32);
    assert!(s.try_step(Step::AcquireTurnstile(1)));
    assert!(s.try_step(Step::AcquireData(1)));
    assert!(s.try_step(Step::ReleaseTurnstile(1)));
    // A non-holder can neither read nor write.
    assert!(!s.store(2, 99));
    assert!(s.read(2).is_none());
    assert_eq!(s.read(1), Some(&10));
    // The holder writes.
    assert!(s.store(1, 42));
    assert_eq!(s.read(1), Some(&42));
}

#[test]
fn model_abandoned_guard_does_not_poison() {
    let mut s = LockState::new_unlocked(10u32);
    assert!(s.try_step(Step::AcquireTurnstile(1)));
    assert!(s.try_step(Step::AcquireData(1)));
    assert!(s.try_step(Step::ReleaseTurnstile(1)));
    // The holder leaves a half-done value behind and its guard is
    // dropped on its behalf.
    assert!(s.store(1, 999));
    assert!(s.try_step(Step::ReleaseData(1)));
    // A different thread's acquisition still succeeds, and it receives
    // the abandoned value, silently.
    assert!(s.try_step(Step::AcquireTurnstile(2)));
    assert!(s.try_step(Step::AcquireData(2)));
    assert!(s.try_step(Step::ReleaseTurnstile(2)));
    assert_eq!(s.read(2), Some(&999));
}

#[test]
fn retry_only_on_needs_mut() {
    let ok: Result<u32, TraversalError<u8>> = Ok(5);
    assert!(!needs_mut_retry(&ok));
    let other: Result<u32, TraversalError<u8>> = Err(TraversalError::Other(3));
    assert!(!needs_mut_retry(&other));
    let needs: Result<u32, TraversalError<u8>> = Err(TraversalError::NeedsMut);
    assert!(needs_mut_retry(&needs));
}

#[test]
fn resolve_takes_the_retry_result() {
    let first: Result<u32, TraversalError<u8>> = Err(TraversalError::NeedsMut);
    assert_eq!(resolve(first, Some(Ok(2))), Ok(2));
    let first_ok: Result<u32, TraversalError<u8>> = Ok(1);
    assert_eq!(resolve(first_ok, None), Ok(1));
    let first_err: Result<u32, TraversalError<u8>> = Err(TraversalError::Other(7));
    assert_eq!(resolve(first_err, None), Err(TraversalError::Other(7)));
}
