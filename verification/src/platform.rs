//! Trusted boundary to the platform's interrupt-masking facility.
//!
//! Interrupt masking acts on machine state that no contract here can observe,
//! so these declarations state nothing about the mask itself. The [`crate::model`]
//! module makes the mask state explicit and proves the masking laws over it.

use vstd::prelude::*;

verus! {

/// `interrupts::Guard` is the platform's mask token: it is created by masking
/// interrupts on the current context and it captures the mask state that
/// existed just before; dropping it restores that state.
#[verifier::external_type_specification]
#[verifier::external_body]
pub struct ExInterruptsGuard(interrupts::Guard);

/// Relies on `interrupts::disable`: masks interrupts on the current execution
/// context and returns the token capturing the previous mask state. The token
/// depends on machine state, so nothing is stated of its value.
#[verifier::external_body]
pub(crate) fn disable_interrupts() -> interrupts::Guard {
    interrupts::disable()
}

/// Relies on `interrupts::Guard`'s `Drop` impl: releasing the token restores
/// the interrupt-mask state captured when the token was created.
#[verifier::external_body]
pub(crate) fn restore_interrupts(token: interrupts::Guard) {
    drop(token)
}

} // verus!
