//! The contract required of an inner mutual-exclusion lock, and a minimal
//! lock satisfying it.

use vstd::prelude::*;

verus! {

/// The minimal contract an inner lock must satisfy so that
/// [`crate::RawInterruptMutex`] can wrap it.
///
/// The contract describes the lock as seen by the one execution path that has
/// exclusive access to it for the duration of a call (hence `&mut self`):
/// a blocking acquire may only be started while the lock is free, since with
/// no other path around to release it the call could never return; a
/// non-blocking acquire succeeds exactly when the lock is free and leaves the
/// lock untouched when it fails; release requires the lock to be held.
/// No reentrancy is assumed of an implementation.
pub trait RawLock: Sized {
    /// The lock's internal well-formedness condition.
    spec fn wf(&self) -> bool;

    /// Whether the lock is currently held.
    spec fn locked(&self) -> bool;

    /// The initial value: a well-formed, unlocked lock.
    fn init() -> (r: Self)
        ensures
            r.wf(),
            !r.locked(),
    ;

    /// Blocking acquire.
    fn lock(&mut self)
        requires
            old(self).wf(),
            !old(self).locked(),
        ensures
            final(self).wf(),
            final(self).locked(),
    ;

    /// Non-blocking acquire: succeeds exactly when the lock was free, and
    /// leaves the lock unchanged on failure.
    fn try_lock(&mut self) -> (r: bool)
        requires
            old(self).wf(),
        ensures
            final(self).wf(),
            r == !old(self).locked(),
            final(self).locked() == (old(self).locked() || r),
            !r ==> *final(self) == *old(self),
    ;

    /// Release; the caller must hold the lock.
    fn unlock(&mut self)
        requires
            old(self).wf(),
            old(self).locked(),
        ensures
            final(self).wf(),
            !final(self).locked(),
    ;

    /// Whether the lock is currently held.
    fn is_locked(&self) -> (r: bool)
        requires
            self.wf(),
        ensures
            r == self.locked(),
    ;
}

/// The simplest lock satisfying [`RawLock`]: a held/free flag.
///
/// This is what a spin lock looks like to the path that owns exclusive access
/// to it for the duration of a call; it is the lock the tests and the proofs
/// of this crate plug in as the inner lock.
pub struct FlagLock {
    held: bool,
}

impl RawLock for FlagLock {
    open spec fn wf(&self) -> bool {
        true
    }

    closed spec fn locked(&self) -> bool {
        self.held
    }

    fn init() -> (r: Self) {
        FlagLock { held: false }
    }

    fn lock(&mut self) {
        self.held = true;
    }

    fn try_lock(&mut self) -> (r: bool) {
        if self.held {
            false
        } else {
            self.held = true;
            true
        }
    }

    fn unlock(&mut self) {
        self.held = false;
    }

    fn is_locked(&self) -> (r: bool) {
        self.held
    }
}

} // verus!
