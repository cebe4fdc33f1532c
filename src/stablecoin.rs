//! The role registry of the token ledger, which decides who may mint, pause or blacklist.
//! The ledger itself (balances, allowances) is an outside collaborator of the bridge.

pub mod events;
pub mod storage;
