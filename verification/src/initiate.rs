//! The order creation path, end to end: authorization check, storage
//! allocation with payer selection, maturity computation, and persistence
//! of the tagged record.
//!
//! Creation is atomic from the caller's point of view: on any failure the
//! target slot is left exactly as it was, so no reader ever observes a
//! partial record.

use vstd::prelude::*;
use crate::address::Address;
use crate::codec::{lemma_persisted_layout, spec_order_tag, spec_persisted_order, ORDER_ACCOUNT_SIZE, RECORD_SIZE};
use crate::config::{PyraError, TAG_SIZE, TIME_LOCK_DURATION_SLOTS};
use crate::state::{select_payer_mode, TimeLock, Vault, WithdrawOrder};
use crate::storage::{allocate_slot, write_order, StorageSlot};
use crate::vault::{check_vault_address, spec_authorized};

verus! {

/// Creation request parameters. All three pass through verbatim into the
/// persisted record.
#[derive(Clone, Copy, Debug, PartialEq, Eq, Structural)]
pub struct OrderParams {
    pub amount_base_units: u64,
    pub drift_market_index: u16,
    pub reduce_only: bool,
}

/// Whether the maturity computation `current_slot + TIME_LOCK_DURATION_SLOTS`
/// exceeds the representable slot range.
pub open spec fn spec_maturity_overflows(current_slot: u64) -> bool {
    current_slot + TIME_LOCK_DURATION_SLOTS > u64::MAX
}

/// The record a successful creation persists: owner and payer mode captured
/// verbatim from the authorization and allocation steps, maturity at
/// exactly `current_slot + TIME_LOCK_DURATION_SLOTS`, and the request
/// parameters and destination passed through unchanged.
pub open spec fn spec_order_matches_inputs(
    o: WithdrawOrder,
    owner: Seq<u8>,
    rent_payer: Seq<u8>,
    destination: Seq<u8>,
    current_slot: u64,
    params: OrderParams,
) -> bool {
    &&& o.time_lock.owner@ == owner
    &&& o.time_lock.spec_is_owner_payer() == (rent_payer == owner)
    &&& o.time_lock.release_slot == current_slot + TIME_LOCK_DURATION_SLOTS
    &&& o.amount_base_units == params.amount_base_units
    &&& o.drift_market_index == params.drift_market_index
    &&& o.reduce_only == params.reduce_only
    &&& o.destination@ == destination
}

/// Creates a time-locked withdraw order in `slot`.
///
/// The caller presents the signing owner's address (the signature itself is
/// the host runtime's fact), the vault and its claimed address, the
/// candidate rent payer with its balance and the funding the allocation
/// requires, the destination, the current slot reading, and the request
/// parameters.
///
/// Exactly one of four outcomes holds, checked in this order:
/// - the vault address does not match its derivation from the owner's
///   address and the vault's salt byte: `AuthorizationFailure`;
/// - the slot is already initialized or the payer cannot cover the
///   funding: `AllocationFailure`;
/// - the maturity computation overflows: `MathOverflow`;
/// - otherwise the order is persisted and returned.
///
/// On every failure the slot is left exactly as it was.
pub fn initiate_withdraw(
    vault: &Vault,
    vault_address: &Address,
    program_id: &Address,
    owner: &Address,
    rent_payer: &Address,
    payer_balance: u64,
    required_funding: u64,
    destination: &Address,
    current_slot: u64,
    params: OrderParams,
    slot: &mut StorageSlot,
) -> (r: Result<WithdrawOrder, PyraError>)
    requires
        owner.wf(),
        program_id.wf(),
        destination.wf(),
    ensures
        ({
            let auth = spec_authorized(owner@, vault.bump, vault_address@, program_id@);
            let no_alloc = old(slot).spec_allocation_fails(payer_balance, required_funding);
            let overflow = spec_maturity_overflows(current_slot);
            &&& !auth ==> r == Err::<WithdrawOrder, PyraError>(PyraError::AuthorizationFailure)
                && *final(slot) == *old(slot)
            &&& auth && no_alloc ==> r == Err::<WithdrawOrder, PyraError>(
                PyraError::AllocationFailure,
            ) && *final(slot) == *old(slot)
            &&& auth && !no_alloc && overflow ==> r == Err::<WithdrawOrder, PyraError>(
                PyraError::MathOverflow,
            ) && *final(slot) == *old(slot)
            &&& auth && !no_alloc && !overflow ==> (r matches Ok(o) && o.wf()
                && spec_order_matches_inputs(
                o,
                owner@,
                rent_payer@,
                destination@,
                current_slot,
                params,
            ) && final(slot).initialized && final(slot).data@ == spec_persisted_order(o)
                && final(slot).data@.len() == TAG_SIZE + RECORD_SIZE
                && final(slot).data@.subrange(0, TAG_SIZE as int) == spec_order_tag())
        }),
{
    let vault_view = Vault { owner: owner.dup(), bump: vault.bump };
    if !check_vault_address(&vault_view, vault_address, program_id) {
        return Err(PyraError::AuthorizationFailure);
    }
    if slot.initialized || payer_balance < required_funding {
        return Err(PyraError::AllocationFailure);
    }
    let payer_mode = select_payer_mode(rent_payer, owner);
    // The maturity is computed before the slot is touched, so a failed
    // creation writes no bytes.
    let time_lock = match TimeLock::build(owner.dup(), payer_mode, current_slot) {
        Ok(t) => t,
        Err(e) => {
            return Err(e);
        },
    };
    // The guard above rules out every allocation failure, so the result
    // carries no information here.
    let _allocated = allocate_slot(slot, ORDER_ACCOUNT_SIZE, payer_balance, required_funding);
    let order = WithdrawOrder {
        time_lock,
        amount_base_units: params.amount_base_units,
        drift_market_index: params.drift_market_index,
        reduce_only: params.reduce_only,
        destination: destination.dup(),
    };
    write_order(slot, &order);
    proof {
        lemma_persisted_layout(order);
    }
    Ok(order)
}

} // verus!
