//! Address derivation: maps domain-separated seed tags plus the program
//! identity to a deterministic address that has no private key (an
//! "off-curve" address), together with the bump value that produced it.
//!
//! Two derivations are chained: the registry record lives at
//! `derive(["state", owner])`, and the custody address at
//! `derive(["auth", state_address])`. Binding the custody address to the
//! record address, not directly to the owner, is deliberate: tampering with
//! a record cannot silently redirect funds.

use vstd::prelude::*;
use crate::error::VaultError;

verus! {

/// The derived address and bump for a seed list and a program identity, or
/// `None` if every bump value collides with an on-curve point. The result is
/// a pure function of the seeds and the program identity alone.
pub uninterp spec fn pda_of(seeds: Seq<Seq<u8>>, program_id: Seq<u8>) -> Option<(Seq<u8>, u8)>;

/// The domain tag of registry records: the bytes of `"state"`.
pub open spec fn state_seed_tag() -> Seq<u8> {
    seq![0x73u8, 0x74u8, 0x61u8, 0x74u8, 0x65u8]
}

/// The domain tag of custody addresses: the bytes of `"auth"`.
pub open spec fn auth_seed_tag() -> Seq<u8> {
    seq![0x61u8, 0x75u8, 0x74u8, 0x68u8]
}

/// Where an owner's registry record lives: `derive(["state", owner])`.
pub open spec fn spec_state_pda(owner: Seq<u8>, program_id: Seq<u8>) -> Option<(Seq<u8>, u8)> {
    pda_of(seq![state_seed_tag(), owner], program_id)
}

/// Where a custody balance lives: `derive(["auth", state_address])`.
pub open spec fn spec_auth_pda(state_address: Seq<u8>, program_id: Seq<u8>) -> Option<(Seq<u8>, u8)> {
    pda_of(seq![auth_seed_tag(), state_address], program_id)
}

/// The full two-hop chain for one owner: the record address and bump, then
/// the custody address and bump derived from the record address.
pub open spec fn spec_vault_pdas(owner: Seq<u8>, program_id: Seq<u8>) -> Option<(Seq<u8>, u8, Seq<u8>, u8)> {
    match spec_state_pda(owner, program_id) {
        Some(s) => match spec_auth_pda(s.0, program_id) {
            Some(a) => Some((s.0, s.1, a.0, a.1)),
            None => None,
        },
        None => None,
    }
}

/// Relies on `Pubkey::try_find_program_address` of anchor-lang: for a given
/// seed list and program identity it returns the first off-curve derived
/// address, searching bump values downward from 255, together with that
/// bump. It returns `None` if every bump collides with an on-curve point,
/// or if the seed list breaks the derivation's limits (too many seeds, or
/// a seed longer than 32 bytes). Either way the result depends on the
/// seeds and the program identity alone.
#[verifier::external_body]
fn try_derive_pair(seed_a: &Vec<u8>, seed_b: &Vec<u8>, program_id: &[u8; 32]) -> (r: Option<([u8; 32], u8)>)
    ensures
        match pda_of(seq![seed_a@, seed_b@], program_id@) {
            Some(d) => r matches Some(p) && p.0@ == d.0 && p.1 == d.1,
            None => r is None,
        },
{
    let pid = anchor_lang::prelude::Pubkey::new_from_array(*program_id);
    let found = anchor_lang::prelude::Pubkey::try_find_program_address(
        &[seed_a.as_slice(), seed_b.as_slice()],
        &pid,
    );
    found.map(|(address, bump)| (address.to_bytes(), bump))
}

/// The bytes of the `"state"` domain tag.
pub fn state_tag_bytes() -> (v: Vec<u8>)
    ensures
        v@ == state_seed_tag(),
{
    let mut v: Vec<u8> = Vec::new();
    v.push(0x73);
    v.push(0x74);
    v.push(0x61);
    v.push(0x74);
    v.push(0x65);
    proof {
        assert(v@ =~= state_seed_tag());
    }
    v
}

/// The bytes of the `"auth"` domain tag.
pub fn auth_tag_bytes() -> (v: Vec<u8>)
    ensures
        v@ == auth_seed_tag(),
{
    let mut v: Vec<u8> = Vec::new();
    v.push(0x61);
    v.push(0x75);
    v.push(0x74);
    v.push(0x68);
    proof {
        assert(v@ =~= auth_seed_tag());
    }
    v
}

/// Copies a 32-byte identity into a freshly allocated seed.
pub fn bytes32_to_vec(a: &[u8; 32]) -> (v: Vec<u8>)
    ensures
        v@ == a@,
{
    let mut v: Vec<u8> = Vec::new();
    let mut i: usize = 0;
    while i < 32
        invariant
            i <= 32,
            v@.len() == i,
            forall|j: int| 0 <= j < i ==> v@[j] == a@[j],
        decreases 32 - i,
    {
        v.push(a[i]);
        i = i + 1;
    }
    proof {
        assert(v@ =~= a@);
    }
    v
}

/// Derives the registry record address for an owner:
/// `derive(["state", owner])`.
pub fn derive_state_address(owner: &[u8; 32], program_id: &[u8; 32]) -> (r: Result<([u8; 32], u8), VaultError>)
    ensures
        match spec_state_pda(owner@, program_id@) {
            Some(d) => r matches Ok(p) && p.0@ == d.0 && p.1 == d.1,
            None => r matches Err(e) && e == VaultError::DerivationExhausted,
        },
{
    let tag = state_tag_bytes();
    let anchor = bytes32_to_vec(owner);
    proof {
        assert(seq![tag@, anchor@] =~= seq![state_seed_tag(), owner@]);
    }
    match try_derive_pair(&tag, &anchor, program_id) {
        Some(p) => Ok(p),
        None => Err(VaultError::DerivationExhausted),
    }
}

/// Derives the custody address from a registry record address:
/// `derive(["auth", state_address])`.
pub fn derive_custody_address(state_address: &[u8; 32], program_id: &[u8; 32]) -> (r: Result<([u8; 32], u8), VaultError>)
    ensures
        match spec_auth_pda(state_address@, program_id@) {
            Some(d) => r matches Ok(p) && p.0@ == d.0 && p.1 == d.1,
            None => r matches Err(e) && e == VaultError::DerivationExhausted,
        },
{
    let tag = auth_tag_bytes();
    let anchor = bytes32_to_vec(state_address);
    proof {
        assert(seq![tag@, anchor@] =~= seq![auth_seed_tag(), state_address@]);
    }
    match try_derive_pair(&tag, &anchor, program_id) {
        Some(p) => Ok(p),
        None => Err(VaultError::DerivationExhausted),
    }
}

/// The fixed, permanent addresses of one owner's vault.
#[derive(Clone, Copy, Debug, PartialEq, Eq)]
pub struct VaultAddresses {
    /// Where the owner's registry record lives.
    pub state_address: [u8; 32],
    /// The bump that made `state_address` off-curve.
    pub state_bump: u8,
    /// Where the vault's balance is held.
    pub custody_address: [u8; 32],
    /// The bump that made `custody_address` off-curve.
    pub custody_bump: u8,
}

/// Derives both addresses of an owner's vault: the record address from the
/// owner identity, then the custody address from the record address.
pub fn derive_vault_addresses(owner: &[u8; 32], program_id: &[u8; 32]) -> (r: Result<VaultAddresses, VaultError>)
    ensures
        match spec_vault_pdas(owner@, program_id@) {
            Some(d) => r matches Ok(v)
                && v.state_address@ == d.0 && v.state_bump == d.1
                && v.custody_address@ == d.2 && v.custody_bump == d.3,
            None => r matches Err(e) && e == VaultError::DerivationExhausted,
        },
{
    let (state_address, state_bump) = match derive_state_address(owner, program_id) {
        Ok(p) => p,
        Err(e) => {
            return Err(e);
        },
    };
    let (custody_address, custody_bump) = match derive_custody_address(&state_address, program_id) {
        Ok(p) => p,
        Err(e) => {
            return Err(e);
        },
    };
    Ok(VaultAddresses { state_address, state_bump, custody_address, custody_bump })
}

/// Law: address derivation is pure and deterministic. Deriving the record
/// address twice from equal owner identities and equal program identities
/// yields equal addresses and equal bumps.
pub proof fn lemma_state_derivation_deterministic(
    owner_a: Seq<u8>,
    owner_b: Seq<u8>,
    program_id_a: Seq<u8>,
    program_id_b: Seq<u8>,
)
    requires
        owner_a == owner_b,
        program_id_a == program_id_b,
    ensures
        spec_state_pda(owner_a, program_id_a) == spec_state_pda(owner_b, program_id_b),
{
}

/// Law: the whole two-hop chain is pure and deterministic as well. For one
/// owner there is one record address and one custody address, permanently:
/// no operation can ever re-derive them differently.
pub proof fn lemma_vault_derivation_deterministic(
    owner_a: Seq<u8>,
    owner_b: Seq<u8>,
    program_id_a: Seq<u8>,
    program_id_b: Seq<u8>,
)
    requires
        owner_a == owner_b,
        program_id_a == program_id_b,
    ensures
        spec_vault_pdas(owner_a, program_id_a) == spec_vault_pdas(owner_b, program_id_b),
{
}

} // verus!
