//! The bid escrow process: job offers, bids and jobs.

pub mod bid;
pub mod job;
pub mod job_offer;
pub mod storage;
