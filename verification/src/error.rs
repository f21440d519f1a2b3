//! Error kinds for vault requests. Every error is terminal for the current
//! request: the request aborts with no state change.

use vstd::prelude::*;

verus! {

/// The ways a vault request can fail.
#[derive(Clone, Copy, Debug, PartialEq, Eq)]
pub enum VaultError {
    /// A deposit named an amount of zero.
    InvalidAmount,
    /// A withdrawal was requested by an identity other than the vault's owner.
    Unauthorized,
    /// A withdrawal named an amount larger than the custody balance.
    InsufficientFunds,
    /// A second initialization was attempted for an owner whose vault record
    /// already exists.
    AlreadyInitialized,
    /// Address derivation ran out of bump values without finding an off-curve
    /// address (practically unreachable).
    DerivationExhausted,
}

} // verus!
