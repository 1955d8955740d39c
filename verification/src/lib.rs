//! Scavngr: the rules of a recycling supply chain (participants, waste
//! records, transfers, confirmations, manufacturer incentives and reward
//! distribution), written as verified state machines.
//!
//! The crate holds two contracts of the platform:
//! - `contract`: the participant / waste / incentive contract, over the types
//!   of `types`;
//! - `scavenger`: the configured rewards contract (admin, token, charity,
//!   percentages, incentives with budgets, reward distribution).
//!
//! Accounts are named by `AccountId` (an integer that stands for an on-chain
//! address); the host environment (storage, authorisation, events, token
//! transfers) stays outside the library.
use vstd::prelude::*;

pub mod types;
pub mod contract;
pub mod scavenger;

verus! {

/// An integer that stands for an on-chain account address.
pub type AccountId = u64;

} // verus!
