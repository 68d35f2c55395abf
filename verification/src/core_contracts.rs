//! Core contracts of the DAO: reputation, NFTs and the variable repository.

pub mod dao_nft;
pub mod reputation;
pub mod variable_repository;
