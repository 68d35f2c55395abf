use vstd::prelude::*;

use crate::configuration::Configuration;
use crate::errors::Error;
use crate::rules::validation::{GenericVotingValidation, VotingValidation};
use crate::types::BlockTime;
use crate::voting::voting_state::VotingState;

verus! {

/// Verifies the voting is still in progress: it is not finished now.
/// May return [Error::VotingAlreadyFinished].
#[derive(Debug)]
pub struct VotingNotCompleted {

}

impl VotingNotCompleted {
    /// Creates the rule.
    pub fn create() -> (r: GenericVotingValidation)
        ensures
            r == GenericVotingValidation::VotingNotCompleted(VotingNotCompleted {  }),
    {
        GenericVotingValidation::VotingNotCompleted(VotingNotCompleted {  })
    }
}

impl VotingValidation for VotingNotCompleted {
    open spec fn moment_defined(&self, configuration: &Configuration) -> bool {
        true
    }

    open spec fn spec_moment(&self, configuration: &Configuration) -> Option<BlockTime> {
        None
    }

    fn moment(&self, configuration: &Configuration) -> (r: Option<BlockTime>) {
        None
    }

    open spec fn outcome(&self, state: VotingState) -> Result<(), Error> {
        if state == VotingState::Finished {
            Err(Error::VotingAlreadyFinished)
        } else {
            Ok(())
        }
    }

    fn validate(&self, state: VotingState) -> (r: Result<(), Error>) {
        if state == VotingState::Finished {
            return Err(Error::VotingAlreadyFinished);
        }
        Ok(())
    }
}

} // verus!
