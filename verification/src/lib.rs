//! Verified core of the Credence protocol contracts: emergency drains, slash
//! history, bond tiers, token guards, delegations, arbitration, signature
//! scheme tags, early-exit penalties and admin command planning.

pub mod accounts;
pub mod arbitration;
pub mod cli;
pub mod delegation;
pub mod drain;
pub mod fuzz_rng;
pub mod penalty;
pub mod scheme;
pub mod slash_history;
pub mod tiers;
pub mod token;
