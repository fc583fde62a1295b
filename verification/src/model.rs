//! A transition-system model of the fair acquisition protocol.
//!
//! The executable lock in [`crate::sync`] orders its operations as
//! *acquire turnstile, acquire data, release turnstile*; a guard drop later performs
//! *release data*.  This module states that protocol as a small state
//! machine over abstract thread identifiers and proves the properties the
//! lock is built for: mutual exclusion over the protected value, the
//! one-ahead fairness guarantee, the documented reentrancy deadlock, and
//! the absence of poisoning after a holder abandons its guard.
//!
//! A `LockState` records which thread (if any) holds each of the two
//! internal locks, together with the protected value.  A `Step` is one
//! atomic lock operation by one thread; `step_enabled` says when the
//! operation can complete without blocking, and `step_apply` gives the
//! state it leads to.  Because every locking thread follows the protocol,
//! a step is enabled only where the program of some thread could actually
//! perform it: a thread acquires the data lock only while holding the
//! turnstile, releases the turnstile only once it holds the data lock, and drops
//! its guard only outside the acquisition sequence (the turnstile was released
//! before the guard was handed out).

use vstd::prelude::*;

verus! {

/// Identifies a thread of the model.
pub type ThreadId = u64;

/// One atomic protocol step taken by one thread.
#[derive(Clone, Copy, PartialEq, Eq, Structural, Debug)]
pub enum Step {
    /// The thread completes its acquisition of the turnstile lock.
    AcquireTurnstile(ThreadId),
    /// The thread completes its acquisition of the data lock.  The
    /// protocol performs this only while holding the turnstile.
    AcquireData(ThreadId),
    /// The thread releases the turnstile, immediately after acquiring the
    /// data lock and before its guard is handed out.
    ReleaseTurnstile(ThreadId),
    /// The thread's guard is dropped, releasing the data lock.  This
    /// happens only outside the acquisition sequence, so never while the
    /// same thread holds the turnstile.
    ReleaseData(ThreadId),
}

/// The state of one fair lock: who holds each internal lock, and the
/// protected value.
#[verifier::ext_equal]
pub struct LockState<V> {
    /// The thread currently holding the turnstile lock, if any.
    pub turnstile: Option<ThreadId>,
    /// The thread currently holding the data lock (a live guard), if any.
    pub data: Option<ThreadId>,
    /// The protected value.
    pub value: V,
}

/// When `step` can complete without blocking, given that every thread
/// follows the acquisition protocol.
pub open spec fn step_enabled<V>(s: LockState<V>, step: Step) -> bool {
    match step {
        Step::AcquireTurnstile(t) => s.turnstile is None,
        Step::AcquireData(t) => s.turnstile == Some(t) && s.data is None,
        Step::ReleaseTurnstile(t) => s.turnstile == Some(t) && s.data == Some(t),
        Step::ReleaseData(t) => s.data == Some(t) && s.turnstile != Some(t),
    }
}

/// The state reached by taking `step` from `s`.
pub open spec fn step_apply<V>(s: LockState<V>, step: Step) -> LockState<V> {
    match step {
        Step::AcquireTurnstile(t) => LockState { turnstile: Some(t), ..s },
        Step::AcquireData(t) => LockState { data: Some(t), ..s },
        Step::ReleaseTurnstile(t) => LockState { turnstile: None, ..s },
        Step::ReleaseData(t) => LockState { data: None, ..s },
    }
}

/// Neither internal lock is held.
pub open spec fn unlocked<V>(s: LockState<V>) -> bool {
    s.turnstile is None && s.data is None
}

/// The state reached from `s` after the first `i` steps of `tr`.
pub open spec fn state_at<V>(s: LockState<V>, tr: Seq<Step>, i: int) -> LockState<V>
    decreases i,
{
    if i <= 0 {
        s
    } else {
        step_apply(state_at(s, tr, i - 1), tr[i - 1])
    }
}

/// An execution that can happen from `s`: every step of `tr` is enabled
/// in the state the previous steps lead to.  A step that is not enabled
/// blocks instead, so a trace in which it occurred anyway is not valid.
pub open spec fn valid_trace<V>(s: LockState<V>, tr: Seq<Step>) -> bool {
    forall|i: int| 0 <= i < tr.len() ==> step_enabled(#[trigger] state_at(s, tr, i), tr[i])
}

/// The three steps of `lock()` by thread `t`, in the order the fairness
/// algorithm prescribes.
pub open spec fn acquisition(t: ThreadId) -> Seq<Step> {
    seq![Step::AcquireTurnstile(t), Step::AcquireData(t), Step::ReleaseTurnstile(t)]
}

/// One full lock/use/unlock by thread `t`: `lock()` followed by the drop
/// of the guard.
pub open spec fn acquire_release_cycle(t: ThreadId) -> Seq<Step> {
    seq![
        Step::AcquireTurnstile(t),
        Step::AcquireData(t),
        Step::ReleaseTurnstile(t),
        Step::ReleaseData(t),
    ]
}

/// The state of a freshly created lock around `value`.
pub open spec fn initial_state<V>(value: V) -> LockState<V> {
    LockState { turnstile: None, data: None, value }
}

impl<V> LockState<V> {
    /// A freshly created, unlocked lock around `value`.
    pub fn new_unlocked(value: V) -> (s: LockState<V>)
        ensures
            s == initial_state(value),
    {
        LockState { turnstile: None, data: None, value }
    }

    /// Attempts one protocol step: takes it exactly when it is enabled,
    /// and reports whether it was.
    pub fn try_step(&mut self, step: Step) -> (ok: bool)
        ensures
            ok == step_enabled(*old(self), step),
            ok ==> *final(self) == step_apply(*old(self), step),
            !ok ==> *final(self) == *old(self),
    {
        let enabled: bool = match step {
            Step::AcquireTurnstile(t) => self.turnstile.is_none(),
            Step::AcquireData(t) => {
                let turnstile_held = match self.turnstile {
                    Some(g) => g == t,
                    None => false,
                };
                turnstile_held && self.data.is_none()
            },
            Step::ReleaseTurnstile(t) => {
                let turnstile_held = match self.turnstile {
                    Some(g) => g == t,
                    None => false,
                };
                let data_held = match self.data {
                    Some(d) => d == t,
                    None => false,
                };
                turnstile_held && data_held
            },
            Step::ReleaseData(t) => {
                let data_held = match self.data {
                    Some(d) => d == t,
                    None => false,
                };
                let turnstile_held = match self.turnstile {
                    Some(g) => g == t,
                    None => false,
                };
                data_held && !turnstile_held
            },
        };
        if enabled {
            match step {
                Step::AcquireTurnstile(t) => {
                    self.turnstile = Some(t);
                },
                Step::AcquireData(t) => {
                    self.data = Some(t);
                },
                Step::ReleaseTurnstile(t) => {
                    self.turnstile = None;
                },
                Step::ReleaseData(t) => {
                    self.data = None;
                },
            }
            proof {
                assert(*self =~= step_apply(*old(self), step));
            }
        }
        enabled
    }

    /// A holder writes the protected value; a thread that does not hold
    /// the data lock cannot touch it.
    pub fn store(&mut self, t: ThreadId, value: V) -> (ok: bool)
        ensures
            ok == (old(self).data == Some(t)),
            ok ==> final(self).turnstile == old(self).turnstile && final(self).data == old(self).data
                && final(self).value == value,
            !ok ==> *final(self) == *old(self),
    {
        let held: bool = match self.data {
            Some(d) => d == t,
            None => false,
        };
        if held {
            self.value = value;
        }
        held
    }

    /// A holder reads the protected value; a thread that does not hold
    /// the data lock sees nothing.
    pub fn read(&self, t: ThreadId) -> (value: Option<&V>)
        ensures
            match value {
                Some(v) => self.data == Some(t) && *v == self.value,
                None => self.data != Some(t),
            },
    {
        let held: bool = match self.data {
            Some(d) => d == t,
            None => false,
        };
        if held {
            Some(&self.value)
        } else {
            None
        }
    }
}

/// While thread `t` holds the data lock, it keeps holding it until its own
/// `ReleaseData` occurs: no other step can free the data lock.
proof fn lemma_data_held_until_release<V>(s: LockState<V>, tr: Seq<Step>, t: ThreadId, j: int)
    requires
        valid_trace(s, tr),
        s.data == Some(t),
        0 <= j <= tr.len(),
        forall|k: int| 0 <= k < j ==> tr[k] != Step::ReleaseData(t),
    ensures
        state_at(s, tr, j).data == Some(t),
    decreases j,
{
    if j > 0 {
        lemma_data_held_until_release(s, tr, t, j - 1);
        assert(step_enabled(state_at(s, tr, j - 1), tr[j - 1]));
    }
}

/// Mutual exclusion: while thread `t` holds the data lock -- observes a
/// live guard -- no acquisition of the data lock can occur before `t`'s
/// own release.  Two guards of the same lock are therefore never live at
/// the same time.
pub proof fn lemma_mutual_exclusion<V>(s: LockState<V>, tr: Seq<Step>, t: ThreadId, c: ThreadId, j: int)
    requires
        valid_trace(s, tr),
        s.data == Some(t),
        0 <= j < tr.len(),
        tr[j] == Step::AcquireData(c),
    ensures
        exists|k: int| 0 <= k < j && tr[k] == Step::ReleaseData(t),
{
    if forall|k: int| 0 <= k < j ==> tr[k] != Step::ReleaseData(t) {
        lemma_data_held_until_release(s, tr, t, j);
        assert(step_enabled(state_at(s, tr, j), tr[j]));
    }
    assert(exists|k: int| 0 <= k < j && tr[k] == Step::ReleaseData(t));
}

/// While thread `a` holds the turnstile and waits for the data lock, it keeps
/// the turnstile, and the data lock never becomes `a`'s without `a`'s own
/// `AcquireData`: no step of any other thread can change either fact.
proof fn lemma_turnstile_held_while_waiting<V>(s: LockState<V>, tr: Seq<Step>, a: ThreadId, j: int)
    requires
        valid_trace(s, tr),
        s.turnstile == Some(a),
        s.data != Some(a),
        0 <= j <= tr.len(),
        forall|k: int| 0 <= k < j ==> tr[k] != Step::AcquireData(a),
    ensures
        state_at(s, tr, j).turnstile == Some(a),
        state_at(s, tr, j).data != Some(a),
    decreases j,
{
    if j > 0 {
        lemma_turnstile_held_while_waiting(s, tr, a, j - 1);
        assert(step_enabled(state_at(s, tr, j - 1), tr[j - 1]));
    }
}

/// One-ahead fairness: once thread `a` is queued -- holding the turnstile,
/// waiting for the data lock -- no other thread `c` can acquire the data
/// lock before `a` does.  A thread that begins the acquisition sequence
/// is overtaken by no thread that begins it later.
pub proof fn lemma_one_ahead_fairness<V>(
    s: LockState<V>,
    tr: Seq<Step>,
    a: ThreadId,
    c: ThreadId,
    j: int,
)
    requires
        valid_trace(s, tr),
        s.turnstile == Some(a),
        s.data != Some(a),
        c != a,
        0 <= j < tr.len(),
        tr[j] == Step::AcquireData(c),
    ensures
        exists|i: int| 0 <= i < j && tr[i] == Step::AcquireData(a),
{
    if forall|i: int| 0 <= i < j ==> tr[i] != Step::AcquireData(a) {
        lemma_turnstile_held_while_waiting(s, tr, a, j);
        assert(step_enabled(state_at(s, tr, j), tr[j]));
    }
    assert(exists|i: int| 0 <= i < j && tr[i] == Step::AcquireData(a));
}

/// Reentrancy deadlocks: when thread `t` holds the data lock and has
/// re-entered the acquisition sequence far enough to hold the turnstile again,
/// the step its program needs next -- acquiring the data lock -- is
/// disabled, and the only step enabled for any thread at all is `t`'s own
/// release of the turnstile, which `t`, blocked before that point of its
/// program, never takes.
pub proof fn lemma_reentrant_deadlock<V>(s: LockState<V>, t: ThreadId)
    requires
        s.turnstile == Some(t),
        s.data == Some(t),
    ensures
        !step_enabled(s, Step::AcquireData(t)),
        forall|e: Step| step_enabled(s, e) ==> e == Step::ReleaseTurnstile(t),
{
}

/// The trace form of the reentrancy deadlock: as long as the re-entered
/// thread does not release the turnstile -- and its program, blocked waiting
/// for the data lock, never does -- nothing at all can happen: the only
/// valid trace is the empty one.
pub proof fn lemma_reentrant_no_progress<V>(s: LockState<V>, tr: Seq<Step>, t: ThreadId)
    requires
        valid_trace(s, tr),
        s.turnstile == Some(t),
        s.data == Some(t),
        forall|k: int| 0 <= k < tr.len() ==> tr[k] != Step::ReleaseTurnstile(t),
    ensures
        tr.len() == 0,
{
    if tr.len() > 0 {
        assert(step_enabled(state_at(s, tr, 0), tr[0]));
        lemma_reentrant_deadlock(s, t);
    }
}

/// A single thread performing lock, use, release on an unlocked lock
/// never blocks: every step of its full cycle is enabled, and the lock
/// ends unlocked with its value untouched by the locking itself -- so
/// the cycle can repeat at once.
pub proof fn lemma_cycle_never_blocks<V>(s: LockState<V>, t: ThreadId)
    requires
        unlocked(s),
    ensures
        valid_trace(s, acquire_release_cycle(t)),
        unlocked(state_at(s, acquire_release_cycle(t), 4)),
        state_at(s, acquire_release_cycle(t), 4).value == s.value,
{
    let tr = acquire_release_cycle(t);
    assert(state_at(s, tr, 0) == s);
    assert(state_at(s, tr, 1) == step_apply(s, tr[0]));
    assert(state_at(s, tr, 2) == step_apply(state_at(s, tr, 1), tr[1]));
    assert(state_at(s, tr, 3) == step_apply(state_at(s, tr, 2), tr[2]));
    assert(state_at(s, tr, 4) == step_apply(state_at(s, tr, 3), tr[3]));
    assert forall|i: int| 0 <= i < tr.len() implies step_enabled(
        #[trigger] state_at(s, tr, i),
        tr[i],
    ) by {
        if i == 0 {
        } else if i == 1 {
        } else if i == 2 {
        } else {
            assert(i == 3);
        }
    }
}

/// No self-deadlock under correct usage: a single thread performing
/// lock, use, release, lock, use, release in sequence never blocks, and
/// leaves the lock unlocked with its value untouched by the locking.
pub proof fn lemma_sequential_use_never_blocks<V>(s: LockState<V>, t: ThreadId)
    requires
        unlocked(s),
    ensures
        valid_trace(s, acquire_release_cycle(t) + acquire_release_cycle(t)),
        unlocked(state_at(s, acquire_release_cycle(t) + acquire_release_cycle(t), 8)),
        state_at(s, acquire_release_cycle(t) + acquire_release_cycle(t), 8).value == s.value,
{
    let tr = acquire_release_cycle(t) + acquire_release_cycle(t);
    assert(state_at(s, tr, 0) == s);
    assert(state_at(s, tr, 1) == step_apply(s, tr[0]));
    assert(state_at(s, tr, 2) == step_apply(state_at(s, tr, 1), tr[1]));
    assert(state_at(s, tr, 3) == step_apply(state_at(s, tr, 2), tr[2]));
    assert(state_at(s, tr, 4) == step_apply(state_at(s, tr, 3), tr[3]));
    assert(state_at(s, tr, 5) == step_apply(state_at(s, tr, 4), tr[4]));
    assert(state_at(s, tr, 6) == step_apply(state_at(s, tr, 5), tr[5]));
    assert(state_at(s, tr, 7) == step_apply(state_at(s, tr, 6), tr[6]));
    assert(state_at(s, tr, 8) == step_apply(state_at(s, tr, 7), tr[7]));
    assert forall|i: int| 0 <= i < tr.len() implies step_enabled(
        #[trigger] state_at(s, tr, i),
        tr[i],
    ) by {
        if i == 0 {
        } else if i == 1 {
        } else if i == 2 {
        } else if i == 3 {
        } else if i == 4 {
        } else if i == 5 {
        } else if i == 6 {
        } else {
            assert(i == 7);
        }
    }
}

/// Construction/acquisition symmetry: a lock created around `value` lets
/// the first acquiring thread in without blocking, and that thread's
/// guard finds exactly `value`.  That dropping the guard then permits a
/// subsequent acquisition by another thread is [`lemma_no_poisoning`],
/// applied to the state this lemma ends in.
pub proof fn lemma_new_then_lock<V>(value: V, t: ThreadId)
    ensures
        valid_trace(initial_state(value), acquisition(t)),
        state_at(initial_state(value), acquisition(t), 3).data == Some(t),
        state_at(initial_state(value), acquisition(t), 3).turnstile is None,
        state_at(initial_state(value), acquisition(t), 3).value == value,
{
    let s = initial_state(value);
    let tr = acquisition(t);
    assert(state_at(s, tr, 0) == s);
    assert(state_at(s, tr, 1) == step_apply(s, tr[0]));
    assert(state_at(s, tr, 2) == step_apply(state_at(s, tr, 1), tr[1]));
    assert(state_at(s, tr, 3) == step_apply(state_at(s, tr, 2), tr[2]));
    assert forall|i: int| 0 <= i < tr.len() implies step_enabled(
        #[trigger] state_at(s, tr, i),
        tr[i],
    ) by {
        if i == 0 {
        } else if i == 1 {
        } else {
            assert(i == 2);
        }
    }
}

/// The guard drop of thread `t` followed by a full acquisition by `c`.
pub open spec fn handover(t: ThreadId, c: ThreadId) -> Seq<Step> {
    seq![
        Step::ReleaseData(t),
        Step::AcquireTurnstile(c),
        Step::AcquireData(c),
        Step::ReleaseTurnstile(c),
    ]
}

/// No poisoning: when the holder of the data lock abandons its guard --
/// the guard is dropped on its behalf, the value left exactly as it was
/// -- the next thread's acquisition goes through at once and its guard
/// receives that value, silently.  The state carries no record of how
/// the previous holder ended, so no step is ever disabled on account of
/// a fault.
pub proof fn lemma_no_poisoning<V>(s: LockState<V>, t: ThreadId, c: ThreadId)
    requires
        s.data == Some(t),
        s.turnstile is None,
    ensures
        valid_trace(s, handover(t, c)),
        state_at(s, handover(t, c), 4).data == Some(c),
        state_at(s, handover(t, c), 4).turnstile is None,
        state_at(s, handover(t, c), 4).value == s.value,
{
    let tr = handover(t, c);
    assert(state_at(s, tr, 0) == s);
    assert(state_at(s, tr, 1) == step_apply(s, tr[0]));
    assert(state_at(s, tr, 2) == step_apply(state_at(s, tr, 1), tr[1]));
    assert(state_at(s, tr, 3) == step_apply(state_at(s, tr, 2), tr[2]));
    assert(state_at(s, tr, 4) == step_apply(state_at(s, tr, 3), tr[3]));
    assert forall|i: int| 0 <= i < tr.len() implies step_enabled(
        #[trigger] state_at(s, tr, i),
        tr[i],
    ) by {
        if i == 0 {
        } else if i == 1 {
        } else if i == 2 {
        } else {
            assert(i == 3);
        }
    }
}

} // verus!
