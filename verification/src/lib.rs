//! A stateful, randomized test-oracle harness for a cluster of replicated
//! ledger nodes.
//!
//! The harness drives a cluster through sequences of transactions and epoch
//! transitions: it picks operation generators from a seeded random stream,
//! submits the transactions they build, checks their effects, and coordinates
//! a stake-weighted epoch reconfiguration whose correctness predicates are
//! validated across the epoch boundary.
use vstd::prelude::*;

pub mod effects;
pub mod errors;
pub mod layout;
pub mod reconfig;
pub mod rng;
pub mod runner;

verus! {

/// Largest stake amount a single delegation operation may request.
pub const MAX_DELEGATION_AMOUNT: u64 = 1_000_000_000_000_000;

/// Smallest stake amount a single delegation operation may request.
pub const MIN_DELEGATION_AMOUNT: u64 = 1_000_000_000;

/// Fee budget attached to every transaction the harness signs.
pub const MAX_GAS: u64 = 100_000_000;

/// Base units per whole coin.
pub const MIST_PER_SUI: u64 = 1_000_000_000;

/// Balance of the gas object each test account is funded with at startup.
pub const INITIAL_MINT_AMOUNT: u64 = 20_000_000_000_000_000;

} // verus!
