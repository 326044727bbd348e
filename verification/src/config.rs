use vstd::prelude::*;

verus! {

/// Number of slots an order must wait between creation and maturity.
/// Creation and fulfillment must agree on this constant, or the maturity
/// gate is meaningless.
pub const TIME_LOCK_DURATION_SLOTS: u64 = 100;

/// Size in bytes of the type tag that prefixes every persisted record.
pub const TAG_SIZE: usize = 8;

/// Size in bytes of an account address.
pub const ADDRESS_SIZE: usize = 32;

/// Errors surfaced by the order creation path. None of them is retried:
/// the whole creation is rejected and the target slot is left untouched.
#[derive(Clone, Copy, Debug, PartialEq, Eq, Structural)]
pub enum PyraError {
    /// The maturity computation would exceed the representable slot range.
    MathOverflow,
    /// The target slot is already initialized, or the chosen payer cannot
    /// cover the required funding.
    AllocationFailure,
    /// The presented vault address does not match its deterministic
    /// derivation from the owner's address.
    AuthorizationFailure,
}

} // verus!
