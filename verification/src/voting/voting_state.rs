//! The states, kinds and results of a voting.

use vstd::prelude::*;

use crate::types::Balance;

verus! {

/// The stage a voting is in.
#[derive(Clone, Copy, Debug, PartialEq, Eq, Structural)]
pub enum VotingState {
    /// Created, the informal voting has not started yet.
    Created,
    /// The informal voting is in progress.
    Informal,
    /// The informal voting ended, the formal one has not started yet.
    BetweenVotings,
    /// The formal voting is in progress.
    Formal,
    /// The voting is over.
    Finished,
    /// The voting was canceled.
    Canceled,
}

/// The kind of a voting.
#[derive(Clone, Copy, Debug, PartialEq, Eq, Structural, PartialOrd, Ord, Hash)]
pub enum VotingType {
    Informal,
    Formal,
}

/// The result of a finished voting.
#[derive(Clone, Copy, Debug, PartialEq, Eq, Structural)]
pub enum VotingResult {
    InFavor,
    Against,
    QuorumNotReached,
    Canceled,
}

/// The stakes and the numbers of votes of one phase of a voting.
#[derive(Clone, Copy, Debug)]
pub struct Stats {
    pub stake_in_favor: Balance,
    pub stake_against: Balance,
    pub unbound_stake_in_favor: Balance,
    pub unbound_stake_against: Balance,
    pub votes_in_favor: u32,
    pub votes_against: u32,
}

} // verus!
