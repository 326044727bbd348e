use vstd::prelude::*;
use crate::address::Address;
use crate::config::{PyraError, TIME_LOCK_DURATION_SLOTS};

verus! {

/// An owner-scoped balance container. Created elsewhere; read-only here.
/// Its address is a deterministic derivation from the owner's address and
/// the stored salt byte.
#[derive(Debug)]
pub struct Vault {
    pub owner: Address,
    pub bump: u8,
}

impl Vault {
    pub open spec fn wf(&self) -> bool {
        self.owner.wf()
    }
}

/// Who fronted the storage cost of an order. Resolved once at creation and
/// carried in the record, so refund logic downstream is a pure function of
/// stored state.
#[derive(Clone, Copy, Debug, PartialEq, Eq, Structural)]
pub enum PayerMode {
    /// The order's owner funded the allocation directly.
    OwnerFunded,
    /// A designated program-controlled payer funded the allocation.
    SponsorFunded,
}

/// The temporal/ownership gate embedded in every deferred order.
/// Immutable once constructed.
#[derive(Debug)]
pub struct TimeLock {
    /// Address of the authorizing party.
    pub owner: Address,
    /// Who funded this order's storage.
    pub payer_mode: PayerMode,
    /// Earliest slot at which fulfillment is permitted.
    pub release_slot: u64,
}

impl TimeLock {
    pub open spec fn wf(&self) -> bool {
        self.owner.wf()
    }

    pub open spec fn spec_is_owner_payer(&self) -> bool {
        self.payer_mode == PayerMode::OwnerFunded
    }

    /// Whether the owner personally funded this order's storage.
    pub fn is_owner_payer(&self) -> (r: bool)
        ensures
            r == self.spec_is_owner_payer(),
    {
        match self.payer_mode {
            PayerMode::OwnerFunded => true,
            PayerMode::SponsorFunded => false,
        }
    }

    /// The maturity gate a fulfillment collaborator must honor: the order
    /// may be executed, by any party, only once the current slot has
    /// reached the release slot.
    pub fn is_matured(&self, current_slot: u64) -> (r: bool)
        ensures
            r == (current_slot >= self.release_slot),
    {
        current_slot >= self.release_slot
    }

    /// Computes the maturity point `current_slot + TIME_LOCK_DURATION_SLOTS`
    /// and packages it with the ownership facts captured at creation.
    /// A maturity that would exceed the representable slot range is reported
    /// as `MathOverflow` rather than silently wrapped: a wrapped value would
    /// shorten the lock and defeat the double-spend protection.
    pub fn build(owner: Address, payer_mode: PayerMode, current_slot: u64) -> (r: Result<TimeLock, PyraError>)
        requires
            owner.wf(),
        ensures
            current_slot + TIME_LOCK_DURATION_SLOTS <= u64::MAX ==> (r matches Ok(t)
                && t.owner@ == owner@
                && t.payer_mode == payer_mode
                && t.release_slot == current_slot + TIME_LOCK_DURATION_SLOTS
                && t.wf()),
            current_slot + TIME_LOCK_DURATION_SLOTS > u64::MAX
                ==> r == Err::<TimeLock, PyraError>(PyraError::MathOverflow),
    {
        match current_slot.checked_add(TIME_LOCK_DURATION_SLOTS) {
            Some(release_slot) => Ok(TimeLock { owner, payer_mode, release_slot }),
            None => Err(PyraError::MathOverflow),
        }
    }
}

/// Selects who funds the order's storage: the owner directly when the
/// candidate payer is the owner, otherwise the designated payer.
pub fn select_payer_mode(rent_payer: &Address, owner: &Address) -> (r: PayerMode)
    ensures
        r == PayerMode::OwnerFunded <==> rent_payer@ == owner@,
        r == PayerMode::SponsorFunded <==> rent_payer@ != owner@,
{
    if rent_payer.eq_addr(owner) {
        PayerMode::OwnerFunded
    } else {
        PayerMode::SponsorFunded
    }
}

/// The deferred withdraw record. Written once at creation; immutable until
/// an external collaborator (fulfillment or cancellation) terminates it.
#[derive(Debug)]
pub struct WithdrawOrder {
    pub time_lock: TimeLock,
    pub amount_base_units: u64,
    pub drift_market_index: u16,
    pub reduce_only: bool,
    /// Address that ultimately receives the funds; accepted as opaque.
    pub destination: Address,
}

impl WithdrawOrder {
    pub open spec fn wf(&self) -> bool {
        self.time_lock.wf() && self.destination.wf()
    }
}

} // verus!
