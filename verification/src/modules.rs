//! Reusable modules: ownership, whitelisting, the variable repository,
//! references to other contracts and information about users.

pub mod access_control;
pub mod kyc_info;
pub mod onboarding_info;
pub mod owner;
pub mod refs;
pub mod repository;
pub mod whitelist;
