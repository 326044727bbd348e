//! Binary layout of a persisted withdraw order.
//!
//! A persisted record is a fixed-size byte image: a `TAG_SIZE`-byte type tag
//! that identifies the record kind, followed by the field-by-field
//! serialization of the record in a stable fixed-width encoding
//! (little-endian integers, single-byte booleans, 32-byte addresses).
//!
//! Layout, by byte offset:
//! ```text
//!  0 ..  8   type tag
//!  8 .. 40   time_lock.owner
//! 40         time_lock payer mode (1 = owner funded, 0 = sponsor funded)
//! 41 .. 49   time_lock.release_slot, u64 little endian
//! 49 .. 57   amount_base_units, u64 little endian
//! 57 .. 59   drift_market_index, u16 little endian
//! 59         reduce_only (1 = true, 0 = false)
//! 60 .. 92   destination
//! ```

use vstd::prelude::*;
use vstd::bytes::*;
use crate::address::Address;
use crate::config::TAG_SIZE;
use crate::state::{PayerMode, TimeLock, WithdrawOrder};

verus! {

/// Size in bytes of the serialized record, tag excluded.
pub const RECORD_SIZE: usize = 84;

/// Total size in bytes of a persisted order: tag plus record.
pub const ORDER_ACCOUNT_SIZE: usize = 92;

/// The eight-byte type tag under which readers of the shared storage
/// namespace recognize a withdraw order record.
pub open spec fn spec_order_tag() -> Seq<u8> {
    seq![0x11u8, 0xafu8, 0x48u8, 0x85u8, 0x0cu8, 0xcau8, 0xfeu8, 0xf8u8]
}

/// Single-byte image of a payer mode.
pub open spec fn payer_mode_byte(m: PayerMode) -> u8 {
    match m {
        PayerMode::OwnerFunded => 1u8,
        PayerMode::SponsorFunded => 0u8,
    }
}

/// Single-byte image of a boolean.
pub open spec fn bool_byte(b: bool) -> u8 {
    if b {
        1u8
    } else {
        0u8
    }
}

/// Serialized record fields, in layout order, tag excluded.
pub open spec fn spec_encode_record(o: WithdrawOrder) -> Seq<u8> {
    o.time_lock.owner@ + seq![payer_mode_byte(o.time_lock.payer_mode)]
        + spec_u64_to_le_bytes(o.time_lock.release_slot)
        + spec_u64_to_le_bytes(o.amount_base_units)
        + spec_u16_to_le_bytes(o.drift_market_index) + seq![bool_byte(o.reduce_only)]
        + o.destination@
}

/// The full persisted byte image: tag followed by the record fields.
pub open spec fn spec_persisted_order(o: WithdrawOrder) -> Seq<u8> {
    spec_order_tag() + spec_encode_record(o)
}

/// The persisted image of any well-formed order is exactly
/// `TAG_SIZE + RECORD_SIZE` bytes, starts with the type tag, and places
/// every field at its documented offset.
pub proof fn lemma_persisted_layout(o: WithdrawOrder)
    requires
        o.wf(),
    ensures
        spec_persisted_order(o).len() == TAG_SIZE + RECORD_SIZE,
        spec_persisted_order(o).subrange(0, TAG_SIZE as int) == spec_order_tag(),
        spec_persisted_order(o).subrange(8, 40) == o.time_lock.owner@,
        spec_persisted_order(o)[40] == payer_mode_byte(o.time_lock.payer_mode),
        spec_persisted_order(o).subrange(41, 49) == spec_u64_to_le_bytes(o.time_lock.release_slot),
        spec_persisted_order(o).subrange(49, 57) == spec_u64_to_le_bytes(o.amount_base_units),
        spec_persisted_order(o).subrange(57, 59) == spec_u16_to_le_bytes(o.drift_market_index),
        spec_persisted_order(o)[59] == bool_byte(o.reduce_only),
        spec_persisted_order(o).subrange(60, 92) == o.destination@,
{
    lemma_auto_spec_u64_to_from_le_bytes();
    lemma_auto_spec_u16_to_from_le_bytes();
    let s = spec_persisted_order(o);
    assert(s.len() == TAG_SIZE + RECORD_SIZE);
    assert(s.subrange(0, TAG_SIZE as int) =~= spec_order_tag());
    assert(s.subrange(8, 40) =~= o.time_lock.owner@);
    assert(s.subrange(41, 49) =~= spec_u64_to_le_bytes(o.time_lock.release_slot));
    assert(s.subrange(49, 57) =~= spec_u64_to_le_bytes(o.amount_base_units));
    assert(s.subrange(57, 59) =~= spec_u16_to_le_bytes(o.drift_market_index));
    assert(s.subrange(60, 92) =~= o.destination@);
}

/// The persisted byte at the payer-mode offset is `1` exactly when the
/// owner personally funded the order's storage, and `0` otherwise.
pub proof fn lemma_persisted_payer_mode(o: WithdrawOrder)
    requires
        o.wf(),
    ensures
        spec_persisted_order(o)[40] == 1u8 <==> o.time_lock.spec_is_owner_payer(),
        spec_persisted_order(o)[40] == 0u8 <==> !o.time_lock.spec_is_owner_payer(),
{
    lemma_persisted_layout(o);
}

/// Appends all of `src` to `dst`.
fn append_bytes(dst: &mut Vec<u8>, src: &Vec<u8>)
    ensures
        final(dst)@ == old(dst)@ + src@,
{
    let n = src.len();
    let mut i: usize = 0;
    while i < n
        invariant
            n == src@.len(),
            i <= n,
            dst@ == old(dst)@ + src@.subrange(0, i as int),
        decreases n - i,
    {
        dst.push(src[i]);
        proof {
            assert(dst@ =~= old(dst)@ + src@.subrange(0, i + 1));
        }
        i += 1;
    }
    proof {
        assert(dst@ =~= old(dst)@ + src@);
    }
}

/// The type tag as owned bytes.
pub fn order_tag() -> (r: Vec<u8>)
    ensures
        r@ == spec_order_tag(),
        r@.len() == TAG_SIZE,
{
    let mut v: Vec<u8> = Vec::new();
    v.push(0x11);
    v.push(0xaf);
    v.push(0x48);
    v.push(0x85);
    v.push(0x0c);
    v.push(0xca);
    v.push(0xfe);
    v.push(0xf8);
    proof {
        assert(v@ =~= spec_order_tag());
    }
    v
}

/// Serializes the record fields, tag excluded.
pub fn encode_record(order: &WithdrawOrder) -> (r: Vec<u8>)
    requires
        order.wf(),
    ensures
        r@ == spec_encode_record(*order),
        r@.len() == RECORD_SIZE,
{
    proof {
        lemma_auto_spec_u64_to_from_le_bytes();
        lemma_auto_spec_u16_to_from_le_bytes();
    }
    let mut out: Vec<u8> = Vec::new();
    append_bytes(&mut out, &order.time_lock.owner.bytes);
    match order.time_lock.payer_mode {
        PayerMode::OwnerFunded => out.push(1),
        PayerMode::SponsorFunded => out.push(0),
    }
    let release = u64_to_le_bytes(order.time_lock.release_slot);
    append_bytes(&mut out, &release);
    let amount = u64_to_le_bytes(order.amount_base_units);
    append_bytes(&mut out, &amount);
    let index = u16_to_le_bytes(order.drift_market_index);
    append_bytes(&mut out, &index);
    if order.reduce_only {
        out.push(1);
    } else {
        out.push(0);
    }
    append_bytes(&mut out, &order.destination.bytes);
    proof {
        assert(out@ =~= spec_encode_record(*order));
    }
    out
}

/// Copies `data[start..end]` into owned bytes.
fn copy_range(data: &Vec<u8>, start: usize, end: usize) -> (r: Vec<u8>)
    requires
        start <= end <= data@.len(),
    ensures
        r@ == data@.subrange(start as int, end as int),
{
    let mut out: Vec<u8> = Vec::new();
    let mut i: usize = start;
    while i < end
        invariant
            start <= i <= end <= data@.len(),
            out@ == data@.subrange(start as int, i as int),
        decreases end - i,
    {
        out.push(data[i]);
        proof {
            assert(out@ =~= data@.subrange(start as int, i + 1));
        }
        i += 1;
    }
    out
}

/// Reads a persisted image back into a record. Returns the record exactly
/// when the bytes are the persisted image of some well-formed order; any
/// other byte string is rejected.
pub fn decode_order(data: &Vec<u8>) -> (r: Option<WithdrawOrder>)
    ensures
        r matches Some(o) ==> o.wf() && data@ == spec_persisted_order(o),
        r is None ==> forall|o: WithdrawOrder| o.wf() ==> data@ != spec_persisted_order(o),
{
    if data.len() != ORDER_ACCOUNT_SIZE {
        proof {
            assert forall|o: WithdrawOrder| o.wf() implies data@ != spec_persisted_order(o) by {
                lemma_persisted_layout(o);
            }
        }
        return None;
    }
    let tag = order_tag();
    let mut i: usize = 0;
    while i < TAG_SIZE
        invariant
            i <= TAG_SIZE,
            data@.len() == ORDER_ACCOUNT_SIZE,
            tag@ == spec_order_tag(),
            forall|k: int| 0 <= k < i ==> data@[k] == spec_order_tag()[k],
        decreases TAG_SIZE - i,
    {
        if data[i] != tag[i] {
            proof {
                assert forall|o: WithdrawOrder| o.wf() implies data@ != spec_persisted_order(o) by {
                    lemma_persisted_layout(o);
                    let s = spec_persisted_order(o);
                    assert(s.subrange(0, TAG_SIZE as int)[i as int] == s[i as int]);
                }
            }
            return None;
        }
        i += 1;
    }
    let payer_byte = data[40];
    if payer_byte > 1 {
        proof {
            assert forall|o: WithdrawOrder| o.wf() implies data@ != spec_persisted_order(o) by {
                lemma_persisted_layout(o);
            }
        }
        return None;
    }
    let reduce_byte = data[59];
    if reduce_byte > 1 {
        proof {
            assert forall|o: WithdrawOrder| o.wf() implies data@ != spec_persisted_order(o) by {
                lemma_persisted_layout(o);
            }
        }
        return None;
    }
    let owner = Address { bytes: copy_range(data, 8, 40) };
    let payer_mode = if payer_byte == 1 {
        PayerMode::OwnerFunded
    } else {
        PayerMode::SponsorFunded
    };
    let release_slot = u64_from_le_bytes(vstd::slice::slice_subrange(data.as_slice(), 41, 49));
    let amount_base_units = u64_from_le_bytes(vstd::slice::slice_subrange(data.as_slice(), 49, 57));
    let drift_market_index = u16_from_le_bytes(vstd::slice::slice_subrange(data.as_slice(), 57, 59));
    let reduce_only = reduce_byte == 1;
    let destination = Address { bytes: copy_range(data, 60, 92) };
    let order = WithdrawOrder {
        time_lock: TimeLock { owner, payer_mode, release_slot },
        amount_base_units,
        drift_market_index,
        reduce_only,
        destination,
    };
    proof {
        lemma_auto_spec_u64_to_from_le_bytes();
        lemma_auto_spec_u16_to_from_le_bytes();
        lemma_persisted_layout(order);
        let s = spec_persisted_order(order);
        assert(spec_u64_to_le_bytes(order.time_lock.release_slot) == data@.subrange(41, 49));
        assert(spec_u64_to_le_bytes(order.amount_base_units) == data@.subrange(49, 57));
        assert(spec_u16_to_le_bytes(order.drift_market_index) == data@.subrange(57, 59));
        assert forall|k: int| 0 <= k < ORDER_ACCOUNT_SIZE implies s[k] == data@[k] by {
            if k < 8 {
                assert(s.subrange(0, TAG_SIZE as int)[k] == s[k]);
            } else if k < 40 {
                assert(s.subrange(8, 40)[k - 8] == s[k]);
                assert(data@.subrange(8, 40)[k - 8] == data@[k]);
            } else if k == 40 {
            } else if k < 49 {
                assert(s.subrange(41, 49)[k - 41] == s[k]);
                assert(data@.subrange(41, 49)[k - 41] == data@[k]);
            } else if k < 57 {
                assert(s.subrange(49, 57)[k - 49] == s[k]);
                assert(data@.subrange(49, 57)[k - 49] == data@[k]);
            } else if k < 59 {
                assert(s.subrange(57, 59)[k - 57] == s[k]);
                assert(data@.subrange(57, 59)[k - 57] == data@[k]);
            } else if k == 59 {
            } else {
                assert(s.subrange(60, 92)[k - 60] == s[k]);
                assert(data@.subrange(60, 92)[k - 60] == data@[k]);
            }
        }
        assert(data@ =~= s);
    }
    Some(order)
}

/// Serializes the full persisted image: tag followed by the record.
pub fn encode_order(order: &WithdrawOrder) -> (r: Vec<u8>)
    requires
        order.wf(),
    ensures
        r@ == spec_persisted_order(*order),
        r@.len() == TAG_SIZE + RECORD_SIZE,
{
    let mut out = order_tag();
    let record = encode_record(order);
    append_bytes(&mut out, &record);
    out
}

} // verus!
