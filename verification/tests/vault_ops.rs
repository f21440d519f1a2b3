//! End-to-end exercises of the vault library against the real address
//! derivation: each test plays the environment, holding the records and
//! balances a request touches and committing what a transition returns.

use solana_vault::derivation::{
    derive_custody_address, derive_state_address, derive_vault_addresses,
};
use solana_vault::error::VaultError;
use solana_vault::vault::{
    bytes32_eq, deposit, initialize, privileged_adjust, signed_transfer, verify_vault_addresses,
    withdraw, Deposit, Initialize, VaultState, Withdraw,
};

const PROGRAM_ID: [u8; 32] = [7u8; 32];

fn owner_key() -> [u8; 32] {
    let mut k = [0u8; 32];
    k[0] = 1;
    k[31] = 9;
    k
}

#[test]
fn state_derivation_is_deterministic() {
    let owner = owner_key();
    let first = derive_state_address(&owner, &PROGRAM_ID).unwrap();
    let second = derive_state_address(&owner, &PROGRAM_ID).unwrap();
    assert_eq!(first.0, second.0);
    assert_eq!(first.1, second.1);
}

#[test]
fn derived_address_differs_from_inputs() {
    let owner = owner_key();
    let (state_address, _) = derive_state_address(&owner, &PROGRAM_ID).unwrap();
    assert_ne!(state_address, owner);
    assert_ne!(state_address, PROGRAM_ID);
}

#[test]
fn distinct_owners_get_distinct_state_addresses() {
    let owner_a = owner_key();
    let owner_b = [3u8; 32];
    let (state_a, _) = derive_state_address(&owner_a, &PROGRAM_ID).unwrap();
    let (state_b, _) = derive_state_address(&owner_b, &PROGRAM_ID).unwrap();
    assert_ne!(state_a, state_b);
}

#[test]
fn chained_derivation_differs_from_direct() {
    // The custody address is bound to the record address, not directly to
    // the owner: derive(["auth", derive(["state", O])]) must diverge from
    // derive(["auth", O]).
    let owner = owner_key();
    let chained = derive_vault_addresses(&owner, &PROGRAM_ID).unwrap();
    let (direct, _) = derive_custody_address(&owner, &PROGRAM_ID).unwrap();
    assert_ne!(chained.custody_address, direct);
}

#[test]
fn vault_addresses_compose_the_two_hops() {
    let owner = owner_key();
    let both = derive_vault_addresses(&owner, &PROGRAM_ID).unwrap();
    let (state_address, state_bump) = derive_state_address(&owner, &PROGRAM_ID).unwrap();
    let (custody_address, custody_bump) =
        derive_custody_address(&state_address, &PROGRAM_ID).unwrap();
    assert_eq!(both.state_address, state_address);
    assert_eq!(both.state_bump, state_bump);
    assert_eq!(both.custody_address, custody_address);
    assert_eq!(both.custody_bump, custody_bump);
}

#[test]
fn initialize_records_the_caller_as_owner() {
    let owner = owner_key();
    let ctx = Initialize { owner, owner_is_signer: true, record_exists: false };
    let (addresses, record) = initialize(&ctx, &PROGRAM_ID).unwrap();
    assert_eq!(record.owner, owner);
    let expected = derive_vault_addresses(&owner, &PROGRAM_ID).unwrap();
    assert_eq!(addresses, expected);
}

#[test]
fn initialize_twice_fails_and_leaves_the_record_alone() {
    let owner = owner_key();
    let first = Initialize { owner, owner_is_signer: true, record_exists: false };
    let (_, record) = initialize(&first, &PROGRAM_ID).unwrap();

    // The store now holds the record, so a second attempt sees it.
    let second = Initialize { owner, owner_is_signer: true, record_exists: true };
    let r = initialize(&second, &PROGRAM_ID);
    assert_eq!(r.unwrap_err(), VaultError::AlreadyInitialized);
    // The failed attempt was never handed the record and returned nothing
    // to commit: the stored owner is unchanged.
    assert_eq!(record.owner, owner);
}

#[test]
fn deposit_of_zero_fails_and_changes_nothing() {
    let owner = owner_key();
    let mut ctx = Deposit {
        vault_state: VaultState { owner },
        user: [2u8; 32],
        user_is_signer: true,
        user_balance: 400,
        vault_auth_balance: 50,
    };
    let r = deposit(&mut ctx, 0);
    assert_eq!(r.unwrap_err(), VaultError::InvalidAmount);
    assert_eq!(ctx.vault_auth_balance, 50);
    assert_eq!(ctx.user_balance, 400);
}

#[test]
fn deposit_conserves_value() {
    let owner = owner_key();
    let mut ctx = Deposit {
        vault_state: VaultState { owner },
        user: [2u8; 32],
        user_is_signer: true,
        user_balance: 400,
        vault_auth_balance: 50,
    };
    let r = deposit(&mut ctx, 100);
    assert!(r.is_ok());
    assert_eq!(ctx.vault_auth_balance, 150);
    assert_eq!(ctx.user_balance, 300);
    assert_eq!(ctx.user_balance + ctx.vault_auth_balance, 450);
}

#[test]
fn withdraw_by_non_owner_is_unauthorized() {
    let owner = owner_key();
    let mut ctx = Withdraw {
        vault_state: VaultState { owner },
        owner: [4u8; 32],
        owner_is_signer: true,
        owner_balance: 10,
        vault_auth_balance: 500,
    };
    let r = withdraw(&mut ctx, 100);
    assert_eq!(r.unwrap_err(), VaultError::Unauthorized);
    assert_eq!(ctx.vault_auth_balance, 500);
    assert_eq!(ctx.owner_balance, 10);
}

#[test]
fn withdraw_beyond_balance_is_insufficient_funds() {
    let owner = owner_key();
    let mut ctx = Withdraw {
        vault_state: VaultState { owner },
        owner,
        owner_is_signer: true,
        owner_balance: 10,
        vault_auth_balance: 99,
    };
    let r = withdraw(&mut ctx, 100);
    assert_eq!(r.unwrap_err(), VaultError::InsufficientFunds);
    assert_eq!(ctx.vault_auth_balance, 99);
    assert_eq!(ctx.owner_balance, 10);
}

#[test]
fn withdraw_moves_both_balances_as_one_unit() {
    let owner = owner_key();
    let mut ctx = Withdraw {
        vault_state: VaultState { owner },
        owner,
        owner_is_signer: true,
        owner_balance: 7,
        vault_auth_balance: 500,
    };
    let r = withdraw(&mut ctx, 123);
    assert!(r.is_ok());
    // Both halves of the adjustment are visible together, never one alone.
    assert_eq!(ctx.vault_auth_balance, 377);
    assert_eq!(ctx.owner_balance, 130);
    assert_eq!(ctx.owner_balance + ctx.vault_auth_balance, 507);
}

#[test]
fn full_vault_lifecycle() {
    let owner = owner_key();
    let depositor_a = [11u8; 32];
    let depositor_b = [12u8; 32];

    // Initialize(O).
    let init = Initialize { owner, owner_is_signer: true, record_exists: false };
    let (_, record) = initialize(&init, &PROGRAM_ID).unwrap();

    // Deposit(A, 500).
    let mut custody_balance: u64 = 0;
    let mut a = Deposit {
        vault_state: record,
        user: depositor_a,
        user_is_signer: true,
        user_balance: 1_000,
        vault_auth_balance: custody_balance,
    };
    deposit(&mut a, 500).unwrap();
    custody_balance = a.vault_auth_balance;

    // Deposit(B, 300).
    let mut b = Deposit {
        vault_state: record,
        user: depositor_b,
        user_is_signer: true,
        user_balance: 300,
        vault_auth_balance: custody_balance,
    };
    deposit(&mut b, 300).unwrap();
    custody_balance = b.vault_auth_balance;

    assert_eq!(custody_balance, 800);

    // Withdraw(O, 800) empties the vault.
    let mut w = Withdraw {
        vault_state: record,
        owner,
        owner_is_signer: true,
        owner_balance: 0,
        vault_auth_balance: custody_balance,
    };
    withdraw(&mut w, 800).unwrap();
    custody_balance = w.vault_auth_balance;
    assert_eq!(custody_balance, 0);
    assert_eq!(w.owner_balance, 800);

    // Withdraw(O, 1) now fails: the vault is empty.
    let mut again = Withdraw {
        vault_state: record,
        owner,
        owner_is_signer: true,
        owner_balance: w.owner_balance,
        vault_auth_balance: custody_balance,
    };
    let r = withdraw(&mut again, 1);
    assert_eq!(r.unwrap_err(), VaultError::InsufficientFunds);
    assert_eq!(again.vault_auth_balance, 0);
}

#[test]
fn transfer_primitives_move_exact_amounts() {
    let (from_balance, to_balance) = signed_transfer(250, 40, 200);
    assert_eq!(from_balance, 50);
    assert_eq!(to_balance, 240);

    let (custody_balance, recipient_balance) = privileged_adjust(800, 1, 800);
    assert_eq!(custody_balance, 0);
    assert_eq!(recipient_balance, 801);
}

#[test]
fn request_addresses_are_verified_against_the_record() {
    let owner = owner_key();
    let record = VaultState { owner };
    let addresses = derive_vault_addresses(&owner, &PROGRAM_ID).unwrap();

    let ok = verify_vault_addresses(
        &record,
        &addresses.state_address,
        &addresses.custody_address,
        &PROGRAM_ID,
    );
    assert_eq!(ok, Ok(true));

    // A request that names somebody else's record address is refused.
    let other = derive_vault_addresses(&[3u8; 32], &PROGRAM_ID).unwrap();
    let mismatched = verify_vault_addresses(
        &record,
        &other.state_address,
        &addresses.custody_address,
        &PROGRAM_ID,
    );
    assert_eq!(mismatched, Ok(false));
}

#[test]
fn identity_comparison_checks_every_byte() {
    let a = owner_key();
    let mut b = owner_key();
    assert!(bytes32_eq(&a, &b));
    b[31] = 0;
    assert!(!bytes32_eq(&a, &b));
}
