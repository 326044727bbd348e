use pyra::codec::{decode_order, encode_order, encode_record, order_tag, ORDER_ACCOUNT_SIZE, RECORD_SIZE};
use pyra::config::TAG_SIZE;
use pyra::{Address, PayerMode, TimeLock, WithdrawOrder};

fn addr(bytes: [u8; 32]) -> Address {
    Address::from_bytes(bytes.to_vec()).unwrap()
}

fn sample_order() -> WithdrawOrder {
    WithdrawOrder {
        time_lock: TimeLock {
            owner: addr([9u8; 32]),
            payer_mode: PayerMode::OwnerFunded,
            release_slot: 600,
        },
        amount_base_units: 1_000_000,
        drift_market_index: 3,
        reduce_only: true,
        destination: addr([13u8; 32]),
    }
}

#[test]
fn persisted_image_starts_with_the_tag_and_has_the_fixed_size() {
    let order = sample_order();
    let image = encode_order(&order);
    assert_eq!(image.len(), TAG_SIZE + RECORD_SIZE);
    assert_eq!(image.len(), ORDER_ACCOUNT_SIZE);
    let tag = order_tag();
    assert_eq!(&image[..TAG_SIZE], tag.as_slice());
}

#[test]
fn record_bytes_follow_the_documented_layout() {
    let order = sample_order();
    let record = encode_record(&order);
    assert_eq!(record.len(), RECORD_SIZE);
    let mut expected: Vec<u8> = Vec::new();
    expected.extend_from_slice(&[9u8; 32]);
    expected.push(1);
    expected.extend_from_slice(&600u64.to_le_bytes());
    expected.extend_from_slice(&1_000_000u64.to_le_bytes());
    expected.extend_from_slice(&3u16.to_le_bytes());
    expected.push(1);
    expected.extend_from_slice(&[13u8; 32]);
    assert_eq!(record, expected);
}

#[test]
fn tag_bytes_are_stable() {
    assert_eq!(order_tag(), vec![0x11, 0xaf, 0x48, 0x85, 0x0c, 0xca, 0xfe, 0xf8]);
}

#[test]
fn decode_inverts_encode() {
    let order = sample_order();
    let image = encode_order(&order);
    let back = decode_order(&image).unwrap();
    assert_eq!(back.time_lock.owner.bytes, order.time_lock.owner.bytes);
    assert_eq!(back.time_lock.is_owner_payer(), order.time_lock.is_owner_payer());
    assert_eq!(back.time_lock.release_slot, order.time_lock.release_slot);
    assert_eq!(back.amount_base_units, order.amount_base_units);
    assert_eq!(back.drift_market_index, order.drift_market_index);
    assert_eq!(back.reduce_only, order.reduce_only);
    assert_eq!(back.destination.bytes, order.destination.bytes);
}

#[test]
fn decode_rejects_a_wrong_length() {
    let order = sample_order();
    let mut image = encode_order(&order);
    image.pop();
    assert!(decode_order(&image).is_none());
}

#[test]
fn decode_rejects_a_tampered_tag() {
    let order = sample_order();
    let mut image = encode_order(&order);
    image[0] ^= 0xff;
    assert!(decode_order(&image).is_none());
}

#[test]
fn decode_rejects_a_malformed_payer_byte() {
    let order = sample_order();
    let mut image = encode_order(&order);
    image[TAG_SIZE + 32] = 2;
    assert!(decode_order(&image).is_none());
}

#[test]
fn decode_rejects_a_malformed_reduce_only_byte() {
    let order = sample_order();
    let mut image = encode_order(&order);
    image[TAG_SIZE + 51] = 7;
    assert!(decode_order(&image).is_none());
}
