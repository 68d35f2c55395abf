use vstd::prelude::*;

use crate::configuration::Configuration;
use crate::errors::Error;
use crate::rules::validation::{GenericVotingValidation, VotingValidation};
use crate::types::BlockTime;
use crate::voting::voting_state::VotingState;

verus! {

/// Verifies the voting can be cancelled: it was already finished the
/// cancellation timeout before the given time.
/// May return [Error::VotingCannotBeCancelledYet].
#[derive(Debug)]
pub struct FinishedVotingCanBeCancelled {
    pub block_time: BlockTime,
}

impl FinishedVotingCanBeCancelled {
    /// Creates the rule.
    pub fn create(block_time: BlockTime) -> (r: GenericVotingValidation)
        ensures
            r == GenericVotingValidation::FinishedVotingCanBeCancelled(FinishedVotingCanBeCancelled { block_time }),
    {
        GenericVotingValidation::FinishedVotingCanBeCancelled(FinishedVotingCanBeCancelled { block_time })
    }
}

impl VotingValidation for FinishedVotingCanBeCancelled {
    open spec fn moment_defined(&self, configuration: &Configuration) -> bool {
        self.block_time >= configuration.dao_configuration.cancel_finished_voting_timeout
    }

    open spec fn spec_moment(&self, configuration: &Configuration) -> Option<BlockTime> {
        Some((self.block_time - configuration.dao_configuration.cancel_finished_voting_timeout) as BlockTime)
    }

    fn moment(&self, configuration: &Configuration) -> (r: Option<BlockTime>) {
        Some(self.block_time - configuration.cancel_finished_voting_timeout())
    }

    open spec fn outcome(&self, state: VotingState) -> Result<(), Error> {
        if state == VotingState::Finished {
            Ok(())
        } else {
            Err(Error::VotingCannotBeCancelledYet)
        }
    }

    fn validate(&self, state: VotingState) -> (r: Result<(), Error>) {
        if state == VotingState::Finished {
            return Ok(());
        }
        Err(Error::VotingCannotBeCancelledYet)
    }
}

} // verus!
