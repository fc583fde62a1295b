//! The fair mutex itself.
//!
//! `FairMutex` guards a value of type `T` with two exclusive locks of the
//! `parking_lot` crate: `data`, which protects the value, and `next`, a
//! turnstile whose unit payload is never inspected and which exists only to
//! serialize entry into the wait for `data`.  Acquisition follows a fixed
//! order -- acquire the turnstile, acquire the data lock, release the turnstile --
//! so that a thread already waiting for the data lock keeps the turnstile locked
//! behind it and no later thread can overtake it.  The module
//! [`crate::model`] states this protocol abstractly and proves the
//! fairness, mutual-exclusion, deadlock and non-poisoning properties that
//! the ordering buys.
//!
//! The value a guard finds depends on what earlier holders stored there,
//! so `lock` promises nothing about it; the guard's own accessors relate
//! every read and write to the guard's view while it is held.

use vstd::prelude::*;

verus! {

#[verifier::external_type_specification]
#[verifier::external_body]
pub struct ExRawMutex(parking_lot::RawMutex);

#[verifier::external_type_specification]
#[verifier::external_body]
#[verifier::reject_recursive_types(R)]
#[verifier::reject_recursive_types(T)]
pub struct ExMutex<R, T: ?Sized>(parking_lot::lock_api::Mutex<R, T>);

/// Holds a live guard of the data lock.  `parking_lot::MutexGuard` cannot
/// be declared to Verus directly (its struct carries a bound on the
/// outside trait `RawMutex`), so this struct carries it opaquely.
#[verifier::external_body]
#[verifier::reject_recursive_types(T)]
struct DataHeld<'a, T> {
    held: parking_lot::MutexGuard<'a, T>,
}

/// Holds a live guard of the turnstile lock, opaquely, as [`DataHeld`] does
/// for the data lock.
#[verifier::external_body]
struct TurnstileHeld<'a> {
    held: parking_lot::MutexGuard<'a, ()>,
}

/// A fair mutex.
///
/// Uses an extra lock to ensure that a thread already waiting for the
/// protected value gets it before a thread that only starts waiting
/// later.  Reentrant use deadlocks, and a holder that terminates
/// abnormally leaves no poison behind: the next acquirer simply receives
/// the value as it was left.
#[verifier::reject_recursive_types(T)]
pub struct FairMutex<T> {
    /// Protects the value.
    data: parking_lot::Mutex<T>,
    /// Next-to-access: serializes entry into the wait for `data`.
    next: parking_lot::Mutex<()>,
}

/// Exclusive scoped access to the value of a [`FairMutex`].
///
/// At most one guard of the same mutex is live at any time; the data lock
/// is released when the guard is dropped, and only then.
#[verifier::reject_recursive_types(T)]
pub struct FairMutexGuard<'a, T> {
    /// The guard of the underlying data lock.
    inner: DataHeld<'a, T>,
    /// The protected value the guard currently grants access to.
    current: Ghost<T>,
}

/// Relies on `parking_lot::Mutex::new`: creates a new mutex in an
/// unlocked state, protecting the given value.
#[verifier::external_body]
fn mutex_new<T>(value: T) -> parking_lot::Mutex<T> {
    parking_lot::Mutex::new(value)
}

/// Relies on `parking_lot::Mutex::lock`: blocks the calling thread until
/// no other thread holds the turnstile, then returns its unique guard.  A
/// thread that already holds the turnstile deadlocks here.
#[verifier::external_body]
fn turnstile_acquire<'a>(turnstile: &'a parking_lot::Mutex<()>) -> TurnstileHeld<'a> {
    TurnstileHeld { held: turnstile.lock() }
}

/// Relies on the drop of `parking_lot::MutexGuard`: releases the turnstile at
/// this point, with no poisoning bookkeeping.
#[verifier::external_body]
fn turnstile_release(queued: TurnstileHeld<'_>) {
    drop(queued.held);
}

/// Relies on `parking_lot::Mutex::lock`: blocks the calling thread until
/// no other thread holds the data lock, then returns its unique guard.
/// What value the guard finds depends on earlier holders, so nothing is
/// promised of it.  A thread that already holds the data lock deadlocks
/// here.
#[verifier::external_body]
fn data_acquire<'a, T>(data: &'a parking_lot::Mutex<T>) -> DataHeld<'a, T> {
    DataHeld { held: data.lock() }
}

/// Relies on `MutexGuard`'s `Deref`: a reference to the protected value.
/// Which value that is depends on earlier holders, so nothing is promised
/// of it; [`FairMutex::lock`] uses one reading to fix the view of the
/// guard it hands out.
#[verifier::external_body]
fn peek<'a, 'b, T>(data: &'b DataHeld<'a, T>) -> &'b T {
    &*data.held
}

impl<T> FairMutex<T> {
    /// Create a new fair mutex around `data`, with the turnstile unlocked.
    pub fn new(data: T) -> FairMutex<T> {
        FairMutex { data: mutex_new(data), next: mutex_new(()) }
    }

    /// Lock the mutex.
    ///
    /// The order of the three steps below is the entire fairness
    /// algorithm and corresponds, in the model of [`crate::model`], to
    /// `AcquireTurnstile`, `AcquireData`, `ReleaseTurnstile` by the calling thread:
    /// while this thread waits for the data lock it keeps the turnstile locked,
    /// so no later thread can begin queueing, and the turnstile is released
    /// explicitly as soon as the data lock is held.  Calling `lock` on a
    /// mutex this thread already holds deadlocks, by design.
    pub fn lock(&self) -> FairMutexGuard<'_, T> {
        let queued = turnstile_acquire(&self.next);
        let inner = data_acquire(&self.data);
        turnstile_release(queued);
        let snapshot = peek(&inner);
        let ghost current: T = *snapshot;
        FairMutexGuard { inner, current: Ghost(current) }
    }
}

impl<'a, T> View for FairMutexGuard<'a, T> {
    type V = T;

    /// The protected value this guard currently grants access to.
    closed spec fn view(&self) -> T {
        self.current@
    }
}

impl<'a, T> FairMutexGuard<'a, T> {
    /// Relies on `MutexGuard`'s `Deref`: while the guard is live its
    /// holder is the only thread with access, so a read yields the
    /// guard's value.
    #[verifier::external_body]
    pub fn get(&self) -> (value: &T)
        ensures
            *value == self@,
    {
        &*self.inner.held
    }

    /// Relies on `MutexGuard`'s `DerefMut`: stores `value` as the
    /// protected value.
    #[verifier::external_body]
    pub fn set(&mut self, value: T)
        ensures
            final(self)@ == value,
    {
        *self.inner.held = value;
    }

    /// Relies on `core::mem::replace` through `MutexGuard`'s `DerefMut`:
    /// stores `value` and returns the value it displaces.
    #[verifier::external_body]
    pub fn replace(&mut self, value: T) -> (previous: T)
        ensures
            previous == old(self)@,
            final(self)@ == value,
    {
        core::mem::replace(&mut *self.inner.held, value)
    }

    /// Relies on `MutexGuard`'s `DerefMut`: hands out the exclusive
    /// borrow itself.  Nothing is known of the guard's value afterwards.
    #[verifier::external_body]
    pub fn get_mut(&mut self) -> &mut T {
        &mut *self.inner.held
    }
}

} // verus!
