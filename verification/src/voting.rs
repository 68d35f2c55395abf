//! Voting: ballots, the voting engine's bookkeeping, the settlement of a
//! finished voting and the sharing out of CSPR.

pub mod ballot;
pub mod cspr_redistribution;
pub mod voting_engine;
pub mod voting_state;
