//! Model of the caller-supplied storage slot an order is persisted into.
//!
//! A slot starts uninitialized and empty. Allocation brings it into
//! existence sized for the record, funded by the chosen payer; it fails on a
//! slot that already exists or on a payer that cannot cover the funding, and
//! in either case leaves the slot untouched.

use vstd::prelude::*;
use crate::codec::{spec_persisted_order, encode_order, RECORD_SIZE};
use crate::config::{PyraError, TAG_SIZE};
use crate::state::WithdrawOrder;

verus! {

/// A storage slot, as the creation path sees it: its raw bytes and whether
/// it has been brought into existence.
pub struct StorageSlot {
    pub data: Vec<u8>,
    pub initialized: bool,
}

impl StorageSlot {
    /// A fresh, never-allocated slot.
    pub fn fresh() -> (r: StorageSlot)
        ensures
            !r.initialized,
            r.data@ == Seq::<u8>::empty(),
    {
        StorageSlot { data: Vec::new(), initialized: false }
    }

    /// Whether allocation of this slot by a payer holding `payer_balance`
    /// against a required funding of `required_funding` must fail.
    pub open spec fn spec_allocation_fails(
        &self,
        payer_balance: u64,
        required_funding: u64,
    ) -> bool {
        self.initialized || payer_balance < required_funding
    }
}

/// Storage Allocator: brings `slot` into existence with `size` zeroed
/// bytes, funded by a payer holding `payer_balance` against a required
/// funding of `required_funding`. Fails, leaving the slot untouched, if the
/// slot already exists or the payer cannot cover the funding.
pub fn allocate_slot(
    slot: &mut StorageSlot,
    size: usize,
    payer_balance: u64,
    required_funding: u64,
) -> (r: Result<(), PyraError>)
    ensures
        !old(slot).spec_allocation_fails(payer_balance, required_funding) ==> (r is Ok
            && final(slot).initialized
            && final(slot).data@ == Seq::new(size as nat, |i: int| 0u8)),
        old(slot).spec_allocation_fails(payer_balance, required_funding) ==> (r == Err::<(),
        PyraError>(PyraError::AllocationFailure) && *final(slot) == *old(slot)),
{
    if slot.initialized || payer_balance < required_funding {
        return Err(PyraError::AllocationFailure);
    }
    let mut data: Vec<u8> = Vec::new();
    let mut i: usize = 0;
    while i < size
        invariant
            i <= size,
            data@ =~= Seq::new(i as nat, |k: int| 0u8),
        decreases size - i,
    {
        data.push(0);
        proof {
            assert(data@ =~= Seq::new((i + 1) as nat, |k: int| 0u8));
        }
        i += 1;
    }
    slot.data = data;
    slot.initialized = true;
    Ok(())
}

/// Order Writer: serializes `order` into an allocated slot whose size is
/// exactly `TAG_SIZE + RECORD_SIZE`. The whole image — tag first, then the
/// fixed-width fields — replaces the slot's bytes in one step.
pub fn write_order(slot: &mut StorageSlot, order: &WithdrawOrder)
    requires
        order.wf(),
        old(slot).initialized,
        old(slot).data@.len() == TAG_SIZE + RECORD_SIZE,
    ensures
        final(slot).initialized,
        final(slot).data@ == spec_persisted_order(*order),
{
    let image = encode_order(order);
    slot.data = image;
}

} // verus!
