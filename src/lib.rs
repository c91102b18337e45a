//! A reputation ledger for a token-gated community: peer votes move a
//! member's score, scores decay once a week, and role tiers unlock when a
//! score reaches its threshold.
use vstd::prelude::*;

pub mod pubkey;
pub mod state;
pub mod roles;
pub mod instructions;

verus! {

} // verus!
