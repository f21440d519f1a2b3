//! The vault registry record and the three state transitions: Initialize,
//! Deposit, Withdraw. Each transition is a short computation over values the
//! environment has already resolved into memory: the environment loads the
//! record and the balances the request touches, calls one transition, and
//! commits the result atomically (or nothing at all on an error).

use vstd::prelude::*;
use crate::derivation::{derive_vault_addresses, spec_vault_pdas, VaultAddresses};
use crate::error::VaultError;

verus! {

/// The registry record of one vault: created exactly once, immutable
/// afterward. Its existence is the sole authorization anchor for the
/// owner's vault.
#[derive(Clone, Copy, Debug, PartialEq, Eq)]
pub struct VaultState {
    /// The one identity allowed to withdraw; never changes after creation.
    pub owner: [u8; 32],
}

/// An Initialize request, as resolved by the environment: the caller's
/// identity, whether the caller signed the request, and whether the store
/// already holds a record at the derived record address.
#[derive(Clone, Copy, Debug)]
pub struct Initialize {
    /// The caller, who becomes the vault's permanent owner.
    pub owner: [u8; 32],
    /// Whether the caller cryptographically authenticated the request.
    pub owner_is_signer: bool,
    /// Whether a record already sits at `derive(["state", owner])`.
    pub record_exists: bool,
}

/// A Deposit request, as resolved by the environment: the vault's record,
/// the depositor, and the two balances the transfer touches.
#[derive(Clone, Copy, Debug)]
pub struct Deposit {
    /// The record of the vault being deposited into.
    pub vault_state: VaultState,
    /// The depositor; any identity may deposit, not just the owner.
    pub user: [u8; 32],
    /// Whether the depositor cryptographically authenticated the request.
    pub user_is_signer: bool,
    /// The depositor's own balance.
    pub user_balance: u64,
    /// The balance held at the vault's custody address.
    pub vault_auth_balance: u64,
}

/// A Withdraw request, as resolved by the environment: the vault's record,
/// the caller claiming to be the owner, and the two balances touched.
#[derive(Clone, Copy, Debug)]
pub struct Withdraw {
    /// The record of the vault being withdrawn from.
    pub vault_state: VaultState,
    /// The caller; the withdrawal succeeds only if this is the owner.
    pub owner: [u8; 32],
    /// Whether the caller cryptographically authenticated the request.
    pub owner_is_signer: bool,
    /// The caller's own balance.
    pub owner_balance: u64,
    /// The balance held at the vault's custody address.
    pub vault_auth_balance: u64,
}

/// Compares two 32-byte identities.
pub fn bytes32_eq(a: &[u8; 32], b: &[u8; 32]) -> (r: bool)
    ensures
        r <==> a@ == b@,
{
    let mut i: usize = 0;
    while i < 32
        invariant
            i <= 32,
            forall|j: int| 0 <= j < i ==> a@[j] == b@[j],
        decreases 32 - i,
    {
        if a[i] != b[i] {
            return false;
        }
        i = i + 1;
    }
    proof {
        assert(a@ =~= b@);
    }
    true
}

/// The ordinary signed-transfer primitive, applied to balances already in
/// memory: moves `amount` from a party's own balance to another balance.
/// The caller is responsible for having verified the source's signature.
/// Returns the pair (new source balance, new destination balance).
pub fn signed_transfer(from_balance: u64, to_balance: u64, amount: u64) -> (r: (u64, u64))
    requires
        from_balance >= amount,
        to_balance + amount <= u64::MAX,
    ensures
        r.0 == from_balance - amount,
        r.1 == to_balance + amount,
        r.0 + r.1 == from_balance + to_balance,
{
    (from_balance - amount, to_balance + amount)
}

/// The elevated-privilege adjustment path for custody funds. The custody
/// address has no private key, so it can never sign an ordinary transfer;
/// the vault, which structurally owns that address, moves value out of it
/// by adjusting both balances directly, as one unit. Kept separate from
/// `signed_transfer` so the weaker, signature-gated path can never be
/// applied to custody funds by mistake.
pub fn privileged_adjust(custody_balance: u64, recipient_balance: u64, amount: u64) -> (r: (u64, u64))
    requires
        custody_balance >= amount,
        recipient_balance + amount <= u64::MAX,
    ensures
        r.0 == custody_balance - amount,
        r.1 == recipient_balance + amount,
        r.0 + r.1 == custody_balance + recipient_balance,
{
    (custody_balance - amount, recipient_balance + amount)
}

/// Verifies a request's claimed addresses before any mutation: re-derives
/// the vault's record address and custody address from the record's owner
/// and compares them with the addresses the request names. The environment
/// refuses a Deposit or Withdraw request unless this check returns true,
/// so balances only ever move at a vault's own derived addresses.
pub fn verify_vault_addresses(
    record: &VaultState,
    state_address: &[u8; 32],
    custody_address: &[u8; 32],
    program_id: &[u8; 32],
) -> (r: Result<bool, VaultError>)
    ensures
        match spec_vault_pdas(record.owner@, program_id@) {
            Some(d) => r matches Ok(b) && (b <==> (state_address@ == d.0
                && custody_address@ == d.2)),
            None => r matches Err(e) && e == VaultError::DerivationExhausted,
        },
{
    let derived = match derive_vault_addresses(&record.owner, program_id) {
        Ok(a) => a,
        Err(e) => {
            return Err(e);
        },
    };
    let state_matches = bytes32_eq(state_address, &derived.state_address);
    let custody_matches = bytes32_eq(custody_address, &derived.custody_address);
    Ok(state_matches && custody_matches)
}

/// Initialize: creates the registry record for the caller's vault, binding
/// the caller as its permanent owner, after re-deriving the vault's two
/// addresses from the caller's identity. Create-only: if a record already
/// sits at the record address the request fails and nothing changes.
///
/// Returns the derived addresses together with the record to persist at
/// `state_address`; the custody address is not separately initialized — it
/// holds only a balance, created lazily on the first deposit.
pub fn initialize(ctx: &Initialize, program_id: &[u8; 32]) -> (r: Result<(VaultAddresses, VaultState), VaultError>)
    requires
        ctx.owner_is_signer,
    ensures
        match spec_vault_pdas(ctx.owner@, program_id@) {
            Some(d) => {
                if ctx.record_exists {
                    r matches Err(e) && e == VaultError::AlreadyInitialized
                } else {
                    r matches Ok(p)
                        && p.0.state_address@ == d.0 && p.0.state_bump == d.1
                        && p.0.custody_address@ == d.2 && p.0.custody_bump == d.3
                        && p.1.owner@ == ctx.owner@
                }
            },
            None => r matches Err(e) && e == VaultError::DerivationExhausted,
        },
{
    let addresses = match derive_vault_addresses(&ctx.owner, program_id) {
        Ok(a) => a,
        Err(e) => {
            return Err(e);
        },
    };
    if ctx.record_exists {
        return Err(VaultError::AlreadyInitialized);
    }
    let record = VaultState { owner: ctx.owner };
    Ok((addresses, record))
}

/// Deposit: moves `amount` from the depositor's balance into the custody
/// balance through the ordinary signed-transfer primitive. Open to any
/// identity; the vault's registered owner is never consulted. Fails with
/// `InvalidAmount` on a zero amount, and then changes nothing.
///
/// The depositor must have signed, and must hold at least `amount`: both
/// are the transfer primitive's own demands, checked by the environment
/// before the request reaches this transition.
pub fn deposit(ctx: &mut Deposit, amount: u64) -> (r: Result<(), VaultError>)
    requires
        old(ctx).user_is_signer,
        old(ctx).user_balance >= amount,
        old(ctx).vault_auth_balance + amount <= u64::MAX,
    ensures
        amount == 0 ==> (r matches Err(e) && e == VaultError::InvalidAmount && *final(ctx) == *old(ctx)),
        amount > 0 ==> (r matches Ok(u)
            && final(ctx).user_balance == old(ctx).user_balance - amount
            && final(ctx).vault_auth_balance == old(ctx).vault_auth_balance + amount),
        final(ctx).vault_state == old(ctx).vault_state,
        final(ctx).user == old(ctx).user,
        final(ctx).user_is_signer == old(ctx).user_is_signer,
        final(ctx).user_balance + final(ctx).vault_auth_balance
            == old(ctx).user_balance + old(ctx).vault_auth_balance,
{
    if amount == 0 {
        return Err(VaultError::InvalidAmount);
    }
    let (new_user_balance, new_custody_balance) =
        signed_transfer(ctx.user_balance, ctx.vault_auth_balance, amount);
    ctx.user_balance = new_user_balance;
    ctx.vault_auth_balance = new_custody_balance;
    Ok(())
}

/// Withdraw: moves `amount` from the custody balance to the caller's
/// balance, through the privileged adjustment path. Checked in order:
/// `Unauthorized` if the caller is not the registered owner, then
/// `InsufficientFunds` if the custody balance is short. On any error
/// nothing changes; on success both balances move as one unit, so no
/// state is ever observable with one side updated and not the other.
pub fn withdraw(ctx: &mut Withdraw, amount: u64) -> (r: Result<(), VaultError>)
    requires
        old(ctx).owner_is_signer,
        old(ctx).owner_balance + amount <= u64::MAX,
    ensures
        old(ctx).owner@ != old(ctx).vault_state.owner@ ==> (r matches Err(e)
            && e == VaultError::Unauthorized && *final(ctx) == *old(ctx)),
        old(ctx).owner@ == old(ctx).vault_state.owner@ && old(ctx).vault_auth_balance < amount
            ==> (r matches Err(e) && e == VaultError::InsufficientFunds && *final(ctx) == *old(ctx)),
        old(ctx).owner@ == old(ctx).vault_state.owner@ && old(ctx).vault_auth_balance >= amount
            ==> (r matches Ok(u)
                && final(ctx).vault_auth_balance == old(ctx).vault_auth_balance - amount
                && final(ctx).owner_balance == old(ctx).owner_balance + amount),
        final(ctx).vault_state == old(ctx).vault_state,
        final(ctx).owner == old(ctx).owner,
        final(ctx).owner_is_signer == old(ctx).owner_is_signer,
        final(ctx).owner_balance + final(ctx).vault_auth_balance
            == old(ctx).owner_balance + old(ctx).vault_auth_balance,
{
    if !bytes32_eq(&ctx.owner, &ctx.vault_state.owner) {
        return Err(VaultError::Unauthorized);
    }
    if ctx.vault_auth_balance < amount {
        return Err(VaultError::InsufficientFunds);
    }
    let (new_custody_balance, new_owner_balance) =
        privileged_adjust(ctx.vault_auth_balance, ctx.owner_balance, amount);
    ctx.vault_auth_balance = new_custody_balance;
    ctx.owner_balance = new_owner_balance;
    Ok(())
}

} // verus!
