//! Reusable logic of a DAO running on Casper: governance rules, reputation
//! bookkeeping, the bid escrow process and voting settlement.

pub mod u256;
pub mod errors;
pub mod math;
pub mod types;
pub mod configuration;
pub mod voting;
pub mod rules;
pub mod bid_escrow;
pub mod address_map;
pub mod modules;
pub mod core_contracts;
