//! A voter's ballot.

use vstd::prelude::*;
use vstd::std_specs::convert::FromSpecImpl;

use crate::types::{Address, Balance, VotingId};
use crate::voting::voting_state::VotingType;

verus! {

/// The option a voter selects.
#[derive(Clone, Copy, Debug, PartialEq, Eq, Structural)]
pub enum Choice {
    /// A `No` vote.
    Against,
    /// A `Yes` vote.
    InFavor,
}

impl Choice {
    /// Whether the vote is a `Yes`.
    pub fn is_in_favor(&self) -> (r: bool)
        ensures
            r == (*self == Choice::InFavor),
    {
        match self {
            Choice::InFavor => true,
            Choice::Against => false,
        }
    }

    /// Whether the vote is a `No`.
    pub fn is_against(&self) -> (r: bool)
        ensures
            r == (*self == Choice::Against),
    {
        !self.is_in_favor()
    }
}

/// A user's vote.
#[derive(Clone, Copy, Debug)]
pub struct Ballot {
    /// The voter's address.
    pub voter: Address,
    /// The voting the ballot was cast in.
    pub voting_id: VotingId,
    /// The kind of the voting.
    pub voting_type: VotingType,
    /// The selected option.
    pub choice: Choice,
    /// The vote power.
    pub stake: Balance,
    /// Whether the vote stays out of the voting's total stake.
    pub unbound: bool,
    /// Whether the ballot was withdrawn.
    pub canceled: bool,
}

impl Ballot {
    /// Creates a ballot.
    pub fn new(
        voter: Address,
        voting_id: VotingId,
        voting_type: VotingType,
        choice: Choice,
        stake: Balance,
        unbound: bool,
        canceled: bool,
    ) -> (r: Ballot)
        ensures
            r == (Ballot { voter, voting_id, voting_type, choice, stake, unbound, canceled }),
    {
        Ballot { voter, voting_id, voting_type, choice, stake, unbound, canceled }
    }
}

/// The part of a [`Ballot`] other contracts are told of: the voter and the
/// vote power.
#[derive(Clone, Copy, Debug)]
pub struct ShortenedBallot {
    /// The voter's address.
    pub voter: Address,
    /// The vote power.
    pub stake: Balance,
}

impl From<Ballot> for ShortenedBallot {
    fn from(value: Ballot) -> (r: ShortenedBallot) {
        ShortenedBallot { voter: value.voter, stake: value.stake }
    }
}

impl FromSpecImpl<Ballot> for ShortenedBallot {
    open spec fn obeys_from_spec() -> bool {
        true
    }

    open spec fn from_spec(v: Ballot) -> ShortenedBallot {
        ShortenedBallot { voter: v.voter, stake: v.stake }
    }
}

} // verus!
