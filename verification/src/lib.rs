//! A minimal custodial vault: a single registered owner controls a custody
//! address into which any party may deposit value, and from which only the
//! owner may withdraw. The custody address is derived deterministically and
//! has no private key, so withdrawals go through the vault's own checked
//! balance adjustment rather than an ordinary signed transfer.

pub mod derivation;
pub mod error;
pub mod vault;
