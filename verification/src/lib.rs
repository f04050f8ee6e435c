//! A two-phase loot-container workflow: a user opens a container by burning
//! earned stake tokens and requesting a random value from an external oracle,
//! then later redeems the fulfilled container for exactly one reward token.
//!
//! This crate verifies the claim state machine: tier eligibility, the ledger
//! guard against overlapping opens, the burn amount, the construction of the
//! randomness request (signed by a program-derived authority modelled as a
//! seed plus bump capability), and the guarded single redemption. The actual
//! token burns, mints and oracle invocations are ledger-side effects carried
//! out by the surrounding runtime from the orders this library returns.

use vstd::prelude::*;

pub mod eligibility;
pub mod error;
pub mod laws;
pub mod open_lootbox;
pub mod retrieve_item;
pub mod state;

verus! {

/// Identity of an on-ledger account, held as a plain value; the workflow
/// only ever compares identities for equality.
#[derive(Clone, Copy, PartialEq, Eq, Structural, Debug)]
pub struct AccountId {
    pub id: u64,
}

} // verus!
