//! A verified model of the lock's masking protocol.
//!
//! The platform's interrupt mask lives in machine state that no contract in
//! this crate can observe, so [`crate::RawInterruptMutex`] can only carry the
//! platform's token opaquely. This module makes that state explicit: a
//! context's mask is a [`MaskState`], masking hands out a [`MaskToken`]
//! capturing the prior state, and [`ModelInterruptMutex`] runs exactly the
//! protocol of the real lock — mask, acquire the inner lock, store the token;
//! take the token, release the inner lock, restore the mask — over that
//! explicit state. The masking guarantees of the design, including the
//! caveat about releasing locks of distinct instances out of LIFO order,
//! are stated and proved here as lemmas over the model's transitions.
//!
//! The callers of a lock interleave; every step of the model acts on the
//! state some single caller sees while it has the lock word to itself, which
//! is the same sequential view the contracts in [`crate::lock`] take.

use vstd::prelude::*;

verus! {

/// The interrupt-mask state of one execution context: whether interrupt
/// delivery is currently enabled there.
#[derive(Clone, Copy, PartialEq, Eq, Debug)]
pub struct MaskState {
    pub enabled: bool,
}

/// The token produced by masking a context: it captures whether interrupts
/// were enabled just before, and restoring it sets the mask back to exactly
/// that state.
#[derive(Clone, Copy, PartialEq, Eq, Debug)]
pub struct MaskToken {
    pub was_enabled: bool,
}

/// One observable step of the locking protocol, in the order the steps
/// happen. The logs built from these make the ordering of the unlock path
/// checkable.
#[derive(Clone, Copy, PartialEq, Eq, Debug)]
pub enum Event {
    MaskDisabled,
    InnerAcquired,
    InnerReleased,
    MaskRestored,
}

/// The model lock: the inner lock reduced to its held/free bit, plus the
/// token slot. The slot is full exactly while the inner lock is held.
#[derive(Clone, Copy, PartialEq, Eq, Debug)]
pub struct ModelInterruptMutex {
    pub inner_locked: bool,
    pub slot: Option<MaskToken>,
}

/// Masking a context: interrupts end up disabled, and the token captures the
/// prior state.
pub open spec fn spec_disable(cpu: MaskState) -> (MaskState, MaskToken) {
    (MaskState { enabled: false }, MaskToken { was_enabled: cpu.enabled })
}

/// Restoring a token: the context's mask becomes exactly the state the token
/// captured, whatever the mask was in the meantime.
pub open spec fn spec_restore(cpu: MaskState, token: MaskToken) -> MaskState {
    MaskState { enabled: token.was_enabled }
}

impl ModelInterruptMutex {
    /// The slot is full exactly while the inner lock is held.
    pub open spec fn wf(self) -> bool {
        self.slot is Some <==> self.inner_locked
    }

    /// The mask state the stored token will restore; meaningful only while
    /// the lock is held.
    pub open spec fn saved_enabled(self) -> bool {
        self.slot.unwrap().was_enabled
    }
}

/// What locking does: mask the context, acquire the inner lock, store the
/// token.
pub open spec fn spec_lock(s: ModelInterruptMutex, cpu: MaskState) -> (ModelInterruptMutex, MaskState) {
    let (cpu1, token) = spec_disable(cpu);
    (ModelInterruptMutex { inner_locked: true, slot: Some(token) }, cpu1)
}

/// What a non-blocking acquire does: mask the context, then either acquire
/// and store the token, or — when the inner lock is already held — restore
/// the token at once and report failure.
pub open spec fn spec_try_lock(s: ModelInterruptMutex, cpu: MaskState) -> (ModelInterruptMutex, MaskState, bool) {
    let (cpu1, token) = spec_disable(cpu);
    if s.inner_locked {
        (s, spec_restore(cpu1, token), false)
    } else {
        (ModelInterruptMutex { inner_locked: true, slot: Some(token) }, cpu1, true)
    }
}

/// What unlocking does: take the token out of the slot, release the inner
/// lock, then restore the token.
pub open spec fn spec_unlock(s: ModelInterruptMutex, cpu: MaskState) -> (ModelInterruptMutex, MaskState) {
    let token = s.slot.unwrap();
    (ModelInterruptMutex { inner_locked: false, slot: None }, spec_restore(cpu, token))
}

/// The events a blocking acquire appends to the log.
pub open spec fn lock_events() -> Seq<Event> {
    seq![Event::MaskDisabled, Event::InnerAcquired]
}

/// The events a failed non-blocking acquire appends to the log.
pub open spec fn try_lock_failure_events() -> Seq<Event> {
    seq![Event::MaskDisabled, Event::MaskRestored]
}

/// The events unlocking appends to the log: the inner lock's release comes
/// strictly before the mask is restored.
pub open spec fn unlock_events() -> Seq<Event> {
    seq![Event::InnerReleased, Event::MaskRestored]
}

impl ModelInterruptMutex {
    /// The initial value: inner lock free, slot empty.
    pub fn new() -> (r: Self)
        ensures
            r.wf(),
            !r.inner_locked,
    {
        ModelInterruptMutex { inner_locked: false, slot: None }
    }

    /// Blocking acquire on `cpu`'s context, appending what it does to `log`.
    pub fn lock(&mut self, cpu: &mut MaskState, log: &mut Vec<Event>)
        requires
            old(self).wf(),
            !old(self).inner_locked,
        ensures
            final(self).wf(),
            *final(self) == spec_lock(*old(self), *old(cpu)).0,
            *final(cpu) == spec_lock(*old(self), *old(cpu)).1,
            final(log)@ == old(log)@ + lock_events(),
    {
        let token = MaskToken { was_enabled: cpu.enabled };
        cpu.enabled = false;
        log.push(Event::MaskDisabled);
        self.inner_locked = true;
        log.push(Event::InnerAcquired);
        self.slot = Some(token);
        proof {
            assert(log@ =~= old(log)@ + lock_events());
        }
    }

    /// Non-blocking acquire on `cpu`'s context, appending what it does to
    /// `log`. Succeeds exactly when the inner lock was free; on failure the
    /// lock and the mask state are left as they were.
    pub fn try_lock(&mut self, cpu: &mut MaskState, log: &mut Vec<Event>) -> (r: bool)
        requires
            old(self).wf(),
        ensures
            final(self).wf(),
            r == !old(self).inner_locked,
            *final(self) == spec_try_lock(*old(self), *old(cpu)).0,
            *final(cpu) == spec_try_lock(*old(self), *old(cpu)).1,
            r == spec_try_lock(*old(self), *old(cpu)).2,
            r ==> final(log)@ == old(log)@ + lock_events(),
            !r ==> final(log)@ == old(log)@ + try_lock_failure_events(),
    {
        let token = MaskToken { was_enabled: cpu.enabled };
        cpu.enabled = false;
        log.push(Event::MaskDisabled);
        if self.inner_locked {
            cpu.enabled = token.was_enabled;
            log.push(Event::MaskRestored);
            proof {
                assert(log@ =~= old(log)@ + try_lock_failure_events());
            }
            false
        } else {
            self.inner_locked = true;
            log.push(Event::InnerAcquired);
            self.slot = Some(token);
            proof {
                assert(log@ =~= old(log)@ + lock_events());
            }
            true
        }
    }

    /// Release on `cpu`'s context, appending what it does to `log`: the slot
    /// is emptied, the inner lock is released, and only then is the mask
    /// restored to the state captured by the matching acquire.
    pub fn unlock(&mut self, cpu: &mut MaskState, log: &mut Vec<Event>)
        requires
            old(self).wf(),
            old(self).inner_locked,
        ensures
            final(self).wf(),
            !final(self).inner_locked,
            *final(self) == spec_unlock(*old(self), *old(cpu)).0,
            *final(cpu) == spec_unlock(*old(self), *old(cpu)).1,
            final(cpu).enabled == old(self).saved_enabled(),
            final(log)@ == old(log)@ + unlock_events(),
    {
        let token_opt = self.slot;
        self.slot = None;
        let token = token_opt.unwrap();
        self.inner_locked = false;
        log.push(Event::InnerReleased);
        cpu.enabled = token.was_enabled;
        log.push(Event::MaskRestored);
        proof {
            assert(log@ =~= old(log)@ + unlock_events());
        }
    }

    /// Whether the inner lock is held.
    pub fn is_locked(&self) -> (r: bool)
        ensures
            r == self.inner_locked,
    {
        self.inner_locked
    }
}

/// Mutual exclusion, on the sequential interleavings the model describes:
/// while some caller holds the lock, any competing non-blocking acquire
/// fails and changes nothing of the lock, and a competing blocking acquire
/// is not enabled at all — `lock` asks for the lock to be free.
pub proof fn lemma_mutual_exclusion(s: ModelInterruptMutex, cpu: MaskState)
    requires
        s.inner_locked,
    ensures
        !spec_try_lock(s, cpu).2,
        spec_try_lock(s, cpu).0 == s,
{
}

/// Mask/restore correctness for a single lock: over a lock/unlock cycle the
/// context is masked from the acquire on, and the mask ends up in exactly
/// the state it had before the acquire — enabled again, if it was enabled.
pub proof fn lemma_mask_restored_after_cycle(s: ModelInterruptMutex, cpu: MaskState)
    requires
        s.wf(),
        !s.inner_locked,
    ensures
        ({
            let (s1, cpu1) = spec_lock(s, cpu);
            let (s2, cpu2) = spec_unlock(s1, cpu1);
            &&& !cpu1.enabled
            &&& cpu2.enabled == cpu.enabled
            &&& !s2.inner_locked
            &&& s2.wf()
        }),
{
}

/// A failed non-blocking acquire leaves no residue: the lock is exactly as
/// it was, and the context's mask state is exactly as it was — the token
/// taken at entry has been restored on the failure path.
pub proof fn lemma_try_lock_failure_no_residue(s: ModelInterruptMutex, cpu: MaskState)
    requires
        s.inner_locked,
    ensures
        ({
            let (s2, cpu2, ok) = spec_try_lock(s, cpu);
            &&& !ok
            &&& s2 == s
            &&& cpu2 == cpu
        }),
{
}

/// Unlock ordering: among the events one unlock appends, every release of
/// the inner lock comes strictly before every restoration of the mask. Since
/// each unlock appends exactly [`unlock_events`] to the log, this holds of
/// every cycle in a log built from any number of them.
pub proof fn lemma_unlock_releases_before_restoring()
    ensures
        forall|i: int, j: int|
            #![trigger unlock_events()[i], unlock_events()[j]]
            0 <= i < unlock_events().len() && 0 <= j < unlock_events().len()
                && unlock_events()[i] == Event::InnerReleased
                && unlock_events()[j] == Event::MaskRestored ==> i < j,
{
}

/// Nesting two distinct locks, released in LIFO order: the first acquire
/// masks the context, the second keeps it masked (the second token captures
/// the already-masked state), releasing the second leaves it masked, and
/// releasing the first restores it to enabled.
pub proof fn lemma_nested_distinct_instances_lifo(
    a: ModelInterruptMutex,
    b: ModelInterruptMutex,
    cpu: MaskState,
)
    requires
        a.wf(),
        !a.inner_locked,
        b.wf(),
        !b.inner_locked,
        cpu.enabled,
    ensures
        ({
            let (a1, cpu1) = spec_lock(a, cpu);
            let (b1, cpu2) = spec_lock(b, cpu1);
            let (b2, cpu3) = spec_unlock(b1, cpu2);
            let (a2, cpu4) = spec_unlock(a1, cpu3);
            &&& !cpu1.enabled
            &&& !cpu2.enabled
            &&& !cpu3.enabled
            &&& cpu4.enabled
        }),
{
}

/// The documented caveat: releasing distinct locks out of LIFO order can
/// re-enable interrupts prematurely. With both locks held, releasing the
/// one acquired first restores the outer state — enabled — although the
/// other lock is still held.
pub proof fn lemma_non_lifo_release_enables_early(
    a: ModelInterruptMutex,
    b: ModelInterruptMutex,
    cpu: MaskState,
)
    requires
        a.wf(),
        !a.inner_locked,
        b.wf(),
        !b.inner_locked,
        cpu.enabled,
    ensures
        ({
            let (a1, cpu1) = spec_lock(a, cpu);
            let (b1, cpu2) = spec_lock(b, cpu1);
            let (a2, cpu3) = spec_unlock(a1, cpu2);
            &&& cpu3.enabled
            &&& b1.inner_locked
        }),
{
}

/// `is_locked` reflects the inner state: it reports held exactly when a
/// non-blocking acquire at that same point would fail.
pub proof fn lemma_is_locked_predicts_try_lock(s: ModelInterruptMutex, cpu: MaskState)
    ensures
        s.inner_locked <==> !spec_try_lock(s, cpu).2,
{
}

} // verus!
