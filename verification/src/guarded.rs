//! Pairing a raw lock with the value it protects.

use vstd::prelude::*;

use crate::lock::RawLock;

verus! {

/// A raw lock paired with the value it protects.
///
/// With `L = RawInterruptMutex<I>` this is the caller-facing shape of the
/// crate: a lock that masks interrupts while the value is accessible. The
/// value may be read or written only while the lock is held; the borrow
/// returned by [`InterruptMutex::value`] or [`InterruptMutex::value_mut`]
/// plays the role of a guard, and the caller releases the lock explicitly
/// with [`InterruptMutex::unlock`].
pub struct InterruptMutex<L, T> {
    raw: L,
    value: T,
}

impl<L: RawLock, T> InterruptMutex<L, T> {
    /// The underlying raw lock is well-formed.
    pub closed spec fn wf(&self) -> bool {
        self.raw.wf()
    }

    /// Whether the lock is currently held.
    pub closed spec fn locked(&self) -> bool {
        self.raw.locked()
    }

    /// The protected value.
    pub closed spec fn value_spec(&self) -> T {
        self.value
    }

    /// Creates an unlocked mutex protecting `value`.
    pub fn new(value: T) -> (r: Self)
        ensures
            r.wf(),
            !r.locked(),
            r.value_spec() == value,
    {
        InterruptMutex { raw: L::init(), value }
    }

    /// Blocking acquire; the protected value is untouched.
    pub fn lock(&mut self)
        requires
            old(self).wf(),
            !old(self).locked(),
        ensures
            final(self).wf(),
            final(self).locked(),
            final(self).value_spec() == old(self).value_spec(),
    {
        self.raw.lock();
    }

    /// Non-blocking acquire: succeeds exactly when the lock was free, and
    /// leaves the mutex unchanged on failure.
    pub fn try_lock(&mut self) -> (r: bool)
        requires
            old(self).wf(),
        ensures
            final(self).wf(),
            r == !old(self).locked(),
            final(self).locked() == (old(self).locked() || r),
            final(self).value_spec() == old(self).value_spec(),
            !r ==> *final(self) == *old(self),
    {
        self.raw.try_lock()
    }

    /// Release; the caller must hold the lock. The protected value is
    /// untouched.
    pub fn unlock(&mut self)
        requires
            old(self).wf(),
            old(self).locked(),
        ensures
            final(self).wf(),
            !final(self).locked(),
            final(self).value_spec() == old(self).value_spec(),
    {
        self.raw.unlock();
    }

    /// Whether the lock is currently held.
    pub fn is_locked(&self) -> (r: bool)
        requires
            self.wf(),
        ensures
            r == self.locked(),
    {
        self.raw.is_locked()
    }

    /// Borrows the protected value; the caller must hold the lock.
    pub fn value(&self) -> (r: &T)
        requires
            self.locked(),
        ensures
            *r == self.value_spec(),
    {
        &self.value
    }

    /// Mutably borrows the protected value; the caller must hold the lock.
    /// The lock state is untouched, and the mutex ends up protecting whatever
    /// the caller leaves behind the returned borrow.
    pub fn value_mut(&mut self) -> (r: &mut T)
        requires
            old(self).wf(),
            old(self).locked(),
        ensures
            *r == old(self).value_spec(),
            final(self).wf(),
            final(self).locked(),
            final(self).value_spec() == *final(r),
    {
        &mut self.value
    }
}

} // verus!
