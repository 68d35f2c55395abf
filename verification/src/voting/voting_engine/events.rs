//! The events a voting emits.

use vstd::prelude::*;

use crate::configuration::{quorum_result, Configuration};
use crate::errors::Error;
use crate::types::{Address, Balance, BlockTime, VotingId};
use crate::voting::ballot::{Ballot, Choice};
use crate::voting::voting_state::{Stats, VotingResult, VotingType};

verus! {

/// Why reputation was minted, burned or unstaked.
#[derive(Clone, Copy, Debug, PartialEq, Eq, Structural, PartialOrd, Ord, Hash)]
pub enum Reason {
    /// The informal voting finished.
    InformalFinished,
    /// The voting process finished.
    FormalFinished,
    /// The voting process finished and the voter was on the winning side.
    FormalWon,
    /// The voting process finished and the voter was on the losing side.
    FormalLost,
}

/// Emitted when a ballot is cast.
#[derive(Clone, Copy, Debug)]
pub struct BallotCast {
    pub voter: Address,
    pub voting_id: VotingId,
    pub voting_type: VotingType,
    pub choice: Choice,
    pub stake: Balance,
}

impl BallotCast {
    /// The event of a ballot.
    pub fn new(ballot: &Ballot) -> (r: BallotCast)
        ensures
            r == (BallotCast {
                voter: ballot.voter,
                voting_id: ballot.voting_id,
                voting_type: ballot.voting_type,
                choice: ballot.choice,
                stake: ballot.stake,
            }),
    {
        BallotCast {
            voter: ballot.voter,
            voting_id: ballot.voting_id,
            voting_type: ballot.voting_type,
            choice: ballot.choice,
            stake: ballot.stake,
        }
    }
}

/// Emitted when a ballot is canceled because its voter was slashed.
#[derive(Clone, Copy, Debug)]
pub struct BallotCanceled {
    pub voter: Address,
    pub voting_id: VotingId,
    pub voting_type: VotingType,
    pub choice: Choice,
    pub stake: Balance,
}

impl BallotCanceled {
    /// The event of a ballot.
    pub fn new(ballot: &Ballot) -> (r: BallotCanceled)
        ensures
            r == (BallotCanceled {
                voter: ballot.voter,
                voting_id: ballot.voting_id,
                voting_type: ballot.voting_type,
                choice: ballot.choice,
                stake: ballot.stake,
            }),
    {
        BallotCanceled {
            voter: ballot.voter,
            voting_id: ballot.voting_id,
            voting_type: ballot.voting_type,
            choice: ballot.choice,
            stake: ballot.stake,
        }
    }
}

/// Emitted when a voting is created: its creator, the creator's stake when
/// it was cast as the first ballot, and the configuration values the voting
/// will run with.
#[derive(Clone, Copy, Debug)]
pub struct VotingCreatedInfo {
    pub creator: Address,
    pub stake: Option<Balance>,
    pub voting_id: VotingId,
    pub config_informal_quorum: u32,
    pub config_informal_voting_time: u64,
    pub config_formal_quorum: u32,
    pub config_formal_voting_time: u64,
    pub config_total_onboarded: Balance,
    pub config_double_time_between_votings: bool,
    pub config_voting_clearness_delta: Balance,
    pub config_time_between_informal_and_formal_voting: BlockTime,
}

impl VotingCreatedInfo {
    /// The event tells of a voting of `creator` with id `voting_id`, the
    /// creator's first stake `stake`, and the values of `config` the voting
    /// runs with.
    pub open spec fn describes(
        &self,
        creator: Address,
        voting_id: VotingId,
        stake: Option<Balance>,
        config: Configuration,
    ) -> bool {
        let info = *self;
        &&& quorum_result(
            config.spec_informal_quorum_ratio().value(),
            config.total_onboarded.value(),
        ) == Ok::<u32, Error>(info.config_informal_quorum)
        &&& quorum_result(
            config.spec_formal_quorum_ratio().value(),
            config.total_onboarded.value(),
        ) == Ok::<u32, Error>(info.config_formal_quorum)
        &&& info.creator == creator
        &&& info.stake == stake
        &&& info.voting_id == voting_id
        &&& info.config_informal_voting_time == if config.voting_configuration.is_bid_escrow {
            config.dao_configuration.bid_escrow_informal_voting_time
        } else {
            config.dao_configuration.informal_voting_time
        }
        &&& info.config_formal_voting_time == if config.voting_configuration.is_bid_escrow {
            config.dao_configuration.bid_escrow_formal_voting_time
        } else {
            config.dao_configuration.formal_voting_time
        }
        &&& info.config_total_onboarded == config.total_onboarded
        &&& info.config_double_time_between_votings
            == config.voting_configuration.double_time_between_votings
        &&& info.config_voting_clearness_delta
            == config.dao_configuration.voting_clearness_delta
        &&& info.config_time_between_informal_and_formal_voting
            == config.spec_time_between_votings()
    }

    /// The event of a voting created with the given configuration; fails
    /// when a quorum does not fit.
    pub fn new(creator: Address, voting_id: VotingId, stake: Option<Balance>, config: &Configuration) -> (r:
        Result<VotingCreatedInfo, Error>)
        requires
            config.spec_time_between_votings() <= u64::MAX,
        ensures
            quorum_result(
                config.spec_informal_quorum_ratio().value(),
                config.total_onboarded.value(),
            ) is Err ==> r == Err::<VotingCreatedInfo, Error>(Error::ArithmeticOverflow),
            quorum_result(
                config.spec_informal_quorum_ratio().value(),
                config.total_onboarded.value(),
            ) is Ok && quorum_result(
                config.spec_formal_quorum_ratio().value(),
                config.total_onboarded.value(),
            ) is Err ==> r == Err::<VotingCreatedInfo, Error>(Error::ArithmeticOverflow),
            r is Ok <==> quorum_result(
                config.spec_informal_quorum_ratio().value(),
                config.total_onboarded.value(),
            ) is Ok && quorum_result(
                config.spec_formal_quorum_ratio().value(),
                config.total_onboarded.value(),
            ) is Ok,
            r matches Ok(info) ==> info.describes(creator, voting_id, stake, *config),
    {
        let informal_quorum = config.informal_voting_quorum()?;
        let formal_quorum = config.formal_voting_quorum()?;
        Ok(
            VotingCreatedInfo {
                creator,
                stake,
                voting_id,
                config_informal_quorum: informal_quorum,
                config_informal_voting_time: config.informal_voting_time(),
                config_formal_quorum: formal_quorum,
                config_formal_voting_time: config.formal_voting_time(),
                config_total_onboarded: config.total_onboarded(),
                config_voting_clearness_delta: config.voting_clearness_delta(),
                config_double_time_between_votings: config.should_double_time_between_votings(),
                config_time_between_informal_and_formal_voting: config.time_between_informal_and_formal_voting(),
            },
        )
    }
}

/// Emitted when a voting ends: its result, its statistics and what happened
/// to the voters' reputation, entry by entry.
#[derive(Debug)]
pub struct VotingEnded {
    pub voting_id: VotingId,
    pub voting_type: VotingType,
    pub voting_result: VotingResult,
    pub stake_in_favor: Balance,
    pub stake_against: Balance,
    pub unbound_stake_in_favor: Balance,
    pub unbound_stake_against: Balance,
    pub votes_in_favor: u32,
    pub votes_against: u32,
    pub unstakes: Vec<(Address, Reason, Balance)>,
    pub stakes: Vec<(Address, Reason, Balance)>,
    pub burns: Vec<(Address, Reason, Balance)>,
    pub mints: Vec<(Address, Reason, Balance)>,
}

impl VotingEnded {
    /// The event of a voting that ended with the given result and stats.
    pub fn new(
        voting_id: VotingId,
        voting_type: VotingType,
        voting_result: VotingResult,
        stats: &Stats,
        unstakes: Vec<(Address, Reason, Balance)>,
        stakes: Vec<(Address, Reason, Balance)>,
        burns: Vec<(Address, Reason, Balance)>,
        mints: Vec<(Address, Reason, Balance)>,
    ) -> (r: VotingEnded)
        ensures
            r.voting_id == voting_id,
            r.voting_type == voting_type,
            r.voting_result == voting_result,
            r.stake_in_favor == stats.stake_in_favor,
            r.stake_against == stats.stake_against,
            r.unbound_stake_in_favor == stats.unbound_stake_in_favor,
            r.unbound_stake_against == stats.unbound_stake_against,
            r.votes_in_favor == stats.votes_in_favor,
            r.votes_against == stats.votes_against,
            r.unstakes@ == unstakes@,
            r.stakes@ == stakes@,
            r.burns@ == burns@,
            r.mints@ == mints@,
    {
        VotingEnded {
            voting_id,
            voting_type,
            voting_result,
            stake_in_favor: stats.stake_in_favor,
            stake_against: stats.stake_against,
            unbound_stake_in_favor: stats.unbound_stake_in_favor,
            unbound_stake_against: stats.unbound_stake_against,
            votes_in_favor: stats.votes_in_favor,
            votes_against: stats.votes_against,
            unstakes,
            stakes,
            burns,
            mints,
        }
    }
}

/// Emitted when a voting is canceled because its creator was slashed, with
/// the stakes returned to the voters.
#[derive(Debug)]
pub struct VotingCanceled {
    pub voting_id: VotingId,
    pub voting_type: VotingType,
    pub unstakes: Vec<(Address, Balance)>,
}

impl VotingCanceled {
    /// The event of a canceled voting.
    pub fn new(voting_id: VotingId, voting_type: VotingType, unstakes: Vec<(Address, Balance)>) -> (r:
        VotingCanceled)
        ensures
            r.voting_id == voting_id,
            r.voting_type == voting_type,
            r.unstakes@ == unstakes@,
    {
        VotingCanceled { voting_id, voting_type, unstakes }
    }
}

} // verus!
