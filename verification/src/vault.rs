//! Vault Locator: deterministic derivation of a vault's storage address
//! from the literal domain tag `"vault"`, the owner's address and the
//! vault's stored salt byte. The creation path proceeds only when the
//! presented vault address matches this derivation.

use vstd::prelude::*;
use crate::address::Address;
use crate::state::Vault;

verus! {

/// What `Pubkey::create_program_address` returns for the given seed bytes,
/// salt byte and program id: `Some` derived address, or `None` where the
/// derivation is rejected. The result is a pure function of the arguments.
pub uninterp spec fn derived_address(
    seed: Seq<u8>,
    owner: Seq<u8>,
    bump: u8,
    program_id: Seq<u8>,
) -> Option<Seq<u8>>;

/// The ASCII bytes of the vault domain tag, `"vault"`.
pub open spec fn spec_vault_seed() -> Seq<u8> {
    seq!['v' as u8, 'a' as u8, 'u' as u8, 'l' as u8, 't' as u8]
}

/// The vault domain tag as owned bytes.
pub fn vault_seed() -> (r: Vec<u8>)
    ensures
        r@ == spec_vault_seed(),
{
    let mut v: Vec<u8> = Vec::new();
    v.push('v' as u8);
    v.push('a' as u8);
    v.push('u' as u8);
    v.push('l' as u8);
    v.push('t' as u8);
    proof {
        assert(v@ =~= spec_vault_seed());
    }
    v
}

/// Relies on anchor_lang's `Pubkey::create_program_address`: for seeds no
/// longer than the maximum seed length, the derived address is a pure
/// function of the seeds and the program id (a digest of them), and
/// derivation is rejected exactly when that digest lies on the curve.
#[verifier::external_body]
fn derive_program_address(
    seed: &Vec<u8>,
    owner: &Address,
    bump: u8,
    program_id: &Address,
) -> (r: Option<Address>)
    requires
        seed@.len() <= 32,
        owner.wf(),
        program_id.wf(),
    ensures
        match r {
            Some(a) => a.wf() && derived_address(seed@, owner@, bump, program_id@) == Some(a@),
            None => derived_address(seed@, owner@, bump, program_id@) is None,
        },
{
    let pid = match anchor_lang::prelude::Pubkey::try_from(program_id.bytes.as_slice()) {
        Ok(p) => p,
        Err(_) => return None,
    };
    let bump_seed = [bump];
    let seeds: [&[u8]; 3] = [seed.as_slice(), owner.bytes.as_slice(), &bump_seed];
    match anchor_lang::prelude::Pubkey::create_program_address(&seeds, &pid) {
        Ok(p) => Some(Address { bytes: p.to_bytes().to_vec() }),
        Err(_) => None,
    }
}

/// Whether `vault_address` is the address derived from the vault domain
/// tag, `owner` and the salt byte `bump` under `program_id`.
pub open spec fn spec_authorized(
    owner: Seq<u8>,
    bump: u8,
    vault_address: Seq<u8>,
    program_id: Seq<u8>,
) -> bool {
    derived_address(spec_vault_seed(), owner, bump, program_id) == Some(vault_address)
}

/// Whether `vault_address` is the address derived for `vault` under
/// `program_id`.
pub open spec fn spec_vault_address_matches(
    vault: Vault,
    vault_address: Seq<u8>,
    program_id: Seq<u8>,
) -> bool {
    spec_authorized(vault.owner@, vault.bump, vault_address, program_id)
}

/// Validates the presented vault address against its deterministic
/// derivation from the vault's owner and stored salt byte.
pub fn check_vault_address(vault: &Vault, vault_address: &Address, program_id: &Address) -> (r:
    bool)
    requires
        vault.wf(),
        program_id.wf(),
    ensures
        r == spec_vault_address_matches(*vault, vault_address@, program_id@),
{
    let seed = vault_seed();
    match derive_program_address(&seed, &vault.owner, vault.bump, program_id) {
        Some(derived) => derived.eq_addr(vault_address),
        None => false,
    }
}

} // verus!
