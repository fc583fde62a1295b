//! A fair mutual-exclusion primitive.
//!
//! `FairMutex` composes two ordinary exclusive locks so that acquisition
//! order approximates first-come-first-served: a thread already waiting
//! for the protected value is guaranteed to obtain it before any thread
//! that only starts waiting later.  The `model` module states that
//! guarantee, together with mutual exclusion and the documented deadlock
//! and non-poisoning behaviour, as a verified transition system.

pub mod model;
pub mod sync;
pub mod traverse;

pub use sync::FairMutex;
pub use sync::FairMutexGuard;
