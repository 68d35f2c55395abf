//! The reputation token.

pub mod agg;
pub mod balances;
pub mod stakes;
pub mod token;
