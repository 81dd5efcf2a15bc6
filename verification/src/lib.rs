//! A mutex for sharing data with interrupt handlers or signal handlers.
//!
//! Using an ordinary mutex to share data with an interrupt handler can
//! deadlock: if an interrupt is raised while its own thread holds the mutex,
//! and the handler tries to acquire that same mutex, the handler spins forever.
//!
//! [`RawInterruptMutex`] wraps another lock and masks interrupts while the
//! inner lock is held. On unlock, the inner lock is released first and the
//! interrupt-mask state that existed before locking is restored afterwards.
//!
//! Interrupts are masked on a best-effort basis: nothing prevents a caller
//! from re-enabling them manually, and releasing locks of different instances
//! out of LIFO order may restore an intermediate mask state prematurely. The
//! [`model`] module states and proves exactly which masking guarantees hold,
//! including that caveat.

pub mod guarded;
pub mod lock;
pub mod model;
pub mod platform;
pub mod raw;

pub use guarded::InterruptMutex;
pub use lock::FlagLock;
pub use lock::RawLock;
pub use raw::RawInterruptMutex;
