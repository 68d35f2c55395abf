use vstd::prelude::*;

use crate::configuration::Configuration;
use crate::errors::Error;
use crate::rules::validation::{GenericVotingValidation, VotingValidation};
use crate::types::BlockTime;
use crate::voting::voting_state::VotingState;

verus! {

/// Verifies a ballot is cast in the right time: during the informal or the
/// formal voting. May return [Error::InformalVotingNotStarted],
/// [Error::VotingDuringTimeBetweenVotingsNotAllowed] or [Error::VoteOnCompletedVotingNotAllowed].
#[derive(Debug)]
pub struct VoteInTime {
    pub block_time: BlockTime,
}

impl VoteInTime {
    /// Creates the rule.
    pub fn create(block_time: BlockTime) -> (r: GenericVotingValidation)
        ensures
            r == GenericVotingValidation::VoteInTime(VoteInTime { block_time }),
    {
        GenericVotingValidation::VoteInTime(VoteInTime { block_time })
    }
}

impl VotingValidation for VoteInTime {
    open spec fn moment_defined(&self, configuration: &Configuration) -> bool {
        true
    }

    open spec fn spec_moment(&self, configuration: &Configuration) -> Option<BlockTime> {
        Some(self.block_time)
    }

    fn moment(&self, configuration: &Configuration) -> (r: Option<BlockTime>) {
        Some(self.block_time)
    }

    open spec fn outcome(&self, state: VotingState) -> Result<(), Error> {
        match state {
            VotingState::Created => Err(Error::InformalVotingNotStarted),
            VotingState::BetweenVotings => Err(Error::VotingDuringTimeBetweenVotingsNotAllowed),
            VotingState::Finished => Err(Error::VoteOnCompletedVotingNotAllowed),
            _ => Ok(()),
        }
    }

    fn validate(&self, state: VotingState) -> (r: Result<(), Error>) {
        match state {
            VotingState::Created => Err(Error::InformalVotingNotStarted),
            VotingState::BetweenVotings => Err(Error::VotingDuringTimeBetweenVotingsNotAllowed),
            VotingState::Finished => Err(Error::VoteOnCompletedVotingNotAllowed),
            _ => Ok(()),
        }
    }
}

} // verus!
