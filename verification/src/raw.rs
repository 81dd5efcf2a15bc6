//! The core: a lock that masks interrupts while an inner lock is held.

use vstd::prelude::*;

use crate::lock::RawLock;
use crate::platform::disable_interrupts;
use crate::platform::restore_interrupts;

verus! {

/// A mutex for sharing data with interrupt handlers or signal handlers.
///
/// This lock wraps an inner [`RawLock`] and masks interrupts while the inner
/// lock is held. Locking masks interrupts first, then acquires the inner lock,
/// then stores the platform's mask token in a slot. Unlocking takes the token
/// out of the slot, releases the inner lock, and only then releases the token,
/// restoring the mask state that existed just before the matching acquire.
///
/// The slot holds a token exactly while the inner lock is held, and only the
/// path currently holding the inner lock ever touches it; both are invariants
/// of [`RawLock::wf`] and of the `&mut self` protocol here. Masking is
/// best-effort: see the crate documentation for the caveats.
pub struct RawInterruptMutex<I> {
    inner: I,
    interrupt_token: Option<interrupts::Guard>,
}

impl<I: RawLock> RawLock for RawInterruptMutex<I> {
    /// The inner lock is well-formed and the token slot is full exactly while
    /// the inner lock is held.
    closed spec fn wf(&self) -> bool {
        &&& self.inner.wf()
        &&& self.interrupt_token is Some <==> self.inner.locked()
    }

    /// Held exactly when the inner lock is held.
    closed spec fn locked(&self) -> bool {
        self.inner.locked()
    }

    fn init() -> (r: Self) {
        RawInterruptMutex { inner: I::init(), interrupt_token: None }
    }

    fn lock(&mut self) {
        let token = disable_interrupts();
        self.inner.lock();
        self.interrupt_token = Some(token);
    }

    fn try_lock(&mut self) -> (r: bool) {
        let token = disable_interrupts();
        let ok = self.inner.try_lock();
        if ok {
            self.interrupt_token = Some(token);
        } else {
            restore_interrupts(token);
        }
        ok
    }

    fn unlock(&mut self) {
        let token = self.interrupt_token.take();
        let token = token.unwrap();
        self.inner.unlock();
        restore_interrupts(token);
    }

    fn is_locked(&self) -> (r: bool) {
        self.inner.is_locked()
    }
}

} // verus!
