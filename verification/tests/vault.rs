use anchor_lang::prelude::Pubkey;
use pyra::vault::check_vault_address;
use pyra::{Address, Vault};

fn addr(bytes: [u8; 32]) -> Address {
    Address::from_bytes(bytes.to_vec()).unwrap()
}

#[test]
fn vault_address_matches_the_runtime_derivation() {
    let owner_bytes = [21u8; 32];
    let program_id_bytes = [2u8; 32];
    let owner_pk = Pubkey::new_from_array(owner_bytes);
    let pid = Pubkey::new_from_array(program_id_bytes);
    let (vault_pk, bump) = Pubkey::find_program_address(&[b"vault", owner_pk.as_ref()], &pid);

    let vault = Vault { owner: addr(owner_bytes), bump };
    assert!(check_vault_address(
        &vault,
        &addr(vault_pk.to_bytes()),
        &addr(program_id_bytes)
    ));
}

#[test]
fn vault_check_rejects_a_wrong_address() {
    let owner_bytes = [21u8; 32];
    let program_id_bytes = [2u8; 32];
    let owner_pk = Pubkey::new_from_array(owner_bytes);
    let pid = Pubkey::new_from_array(program_id_bytes);
    let (vault_pk, bump) = Pubkey::find_program_address(&[b"vault", owner_pk.as_ref()], &pid);

    let vault = Vault { owner: addr(owner_bytes), bump };
    let mut wrong = vault_pk.to_bytes();
    wrong[0] ^= 1;
    assert!(!check_vault_address(&vault, &addr(wrong), &addr(program_id_bytes)));
}

#[test]
fn vault_check_rejects_a_wrong_owner() {
    let owner_bytes = [21u8; 32];
    let program_id_bytes = [2u8; 32];
    let owner_pk = Pubkey::new_from_array(owner_bytes);
    let pid = Pubkey::new_from_array(program_id_bytes);
    let (vault_pk, bump) = Pubkey::find_program_address(&[b"vault", owner_pk.as_ref()], &pid);

    let other = Vault { owner: addr([22u8; 32]), bump };
    assert!(!check_vault_address(
        &other,
        &addr(vault_pk.to_bytes()),
        &addr(program_id_bytes)
    ));
}

#[test]
fn address_construction_rejects_a_wrong_length() {
    assert!(Address::from_bytes(vec![1u8; 31]).is_none());
    assert!(Address::from_bytes(vec![1u8; 33]).is_none());
    assert!(Address::from_bytes(vec![1u8; 32]).is_some());
}

#[test]
fn address_equality_is_byte_for_byte() {
    let a = addr([3u8; 32]);
    let b = addr([3u8; 32]);
    let mut other_bytes = [3u8; 32];
    other_bytes[31] = 4;
    let c = addr(other_bytes);
    assert!(a.eq_addr(&b));
    assert!(!a.eq_addr(&c));
    let d = a.dup();
    assert!(d.eq_addr(&a));
}
