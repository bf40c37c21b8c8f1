//! A minimal verified account-balance ledger.
//!
//! The ledger keeps a keyed store of non-negative integer balances together
//! with a single total-issuance counter, and offers two state transitions:
//! crediting new funds to an account (`Pallet::mint_unsafe`) and moving funds
//! between accounts (`Pallet::transfer`).  Every transition is validated
//! before any write; a rejected call leaves the store untouched, and a
//! successful call keeps the global invariant that the issuance counter
//! equals the sum of all stored balances.

use vstd::prelude::*;

pub mod laws;
pub mod map_sum;
pub mod pallet;
pub mod store;

verus! {

/// An opaque account identifier.  The host resolves and validates the caller;
/// the ledger only compares identifiers for equality.
pub type AccountId = u64;

/// The fixed-width unsigned integer in which balances and the total issuance
/// are kept.  Stored values are non-negative by construction.
pub type Balance = u128;

} // verus!
