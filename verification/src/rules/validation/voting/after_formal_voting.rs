use vstd::prelude::*;

use crate::configuration::Configuration;
use crate::errors::Error;
use crate::rules::validation::{GenericVotingValidation, VotingValidation};
use crate::types::BlockTime;
use crate::voting::voting_state::VotingState;

verus! {

/// Verifies the formal voting has ended: the voting is finished at the given
/// time. May return [Error::FormalVotingNotCompleted].
#[derive(Debug)]
pub struct AfterFormalVoting {
    pub block_time: BlockTime,
}

impl AfterFormalVoting {
    /// Creates the rule.
    pub fn create(block_time: BlockTime) -> (r: GenericVotingValidation)
        ensures
            r == GenericVotingValidation::AfterFormalVoting(AfterFormalVoting { block_time }),
    {
        GenericVotingValidation::AfterFormalVoting(AfterFormalVoting { block_time })
    }
}

impl VotingValidation for AfterFormalVoting {
    open spec fn moment_defined(&self, configuration: &Configuration) -> bool {
        true
    }

    open spec fn spec_moment(&self, configuration: &Configuration) -> Option<BlockTime> {
        Some(self.block_time)
    }

    fn moment(&self, configuration: &Configuration) -> (r: Option<BlockTime>) {
        Some(self.block_time)
    }

    open spec fn outcome(&self, state: VotingState) -> Result<(), Error> {
        if state == VotingState::Finished {
            Ok(())
        } else {
            Err(Error::FormalVotingNotCompleted)
        }
    }

    fn validate(&self, state: VotingState) -> (r: Result<(), Error>) {
        if state == VotingState::Finished {
            return Ok(());
        }
        Err(Error::FormalVotingNotCompleted)
    }
}

} // verus!
