//! The two-phase traversal protocol.
//!
//! An inspection framework walking the protected value first attempts a
//! non-mutating traversal; only when that attempt reports that it cannot
//! proceed without mutable access (a lazily initialised field, say) is a
//! second, mutating attempt made.  The lock's sole responsibility is to
//! serialize the two attempts through the fair acquisition sequence, and
//! the data lock is never held across both: it is released with the
//! first attempt and taken afresh for the retry.  The decision logic --
//! when to retry, and which attempt's result stands -- lives here,
//! verified; the caller performs each attempt under its own acquisition
//! of the lock.

use vstd::prelude::*;

verus! {

/// Why a traversal attempt under the lock did not produce a result.
#[derive(PartialEq, Eq, Debug)]
pub enum TraversalError<E> {
    /// The non-mutating path cannot reach what was asked of it; the
    /// traversal must be retried with mutable access.  This is recovered
    /// locally by the retry and never surfaced to the caller.
    NeedsMut,
    /// Any other failure, surfaced unchanged.
    Other(E),
}

/// Whether `outcome` asks for the mutating retry.
pub open spec fn wants_mut<N, E>(outcome: Result<N, TraversalError<E>>) -> bool {
    match outcome {
        Err(TraversalError::NeedsMut) => true,
        _ => false,
    }
}

/// Decides the second phase of the traversal: after the non-mutating
/// attempt came back with `first` -- and its acquisition of the lock was
/// released with it -- retry with mutable access exactly when the
/// attempt reported that it needs the mutable path.
pub fn needs_mut_retry<N, E>(first: &Result<N, TraversalError<E>>) -> (retry: bool)
    ensures
        retry == wants_mut(*first),
{
    match first {
        Err(TraversalError::NeedsMut) => true,
        _ => false,
    }
}

/// The final outcome of the two-phase traversal: the non-mutating
/// attempt's result stands, unless it asked for the mutable path, in
/// which case the mutating attempt's result -- whatever it is --
/// replaces it.  `second` is the mutating attempt's result, present
/// exactly when that attempt was made.
pub fn resolve<N, E>(
    first: Result<N, TraversalError<E>>,
    second: Option<Result<N, TraversalError<E>>>,
) -> (outcome: Result<N, TraversalError<E>>)
    requires
        wants_mut(first) <==> second is Some,
    ensures
        outcome == (match second {
            Some(retried) => retried,
            None => first,
        }),
        !wants_mut(first) ==> outcome == first,
{
    match second {
        Some(retried) => retried,
        None => first,
    }
}

} // verus!
