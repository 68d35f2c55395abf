use vstd::prelude::*;

use crate::errors::Error;
use crate::rules::validation::{GenericValidation, Validation};
use crate::types::Balance;

verus! {

/// Verifies the worker's stake is correct: a VA stakes reputation only, any
/// other worker stakes CSPR only, attached to the call.
/// May return [Error::NotOnboardedWorkerMustStakeCSPR], [Error::ZeroStake],
/// [Error::OnboardedWorkerCannotStakeCSPR], [Error::CannotStakeBothCSPRAndReputation]
/// or [Error::AttachedValueMismatch].
#[derive(Debug)]
pub struct IsBidStakeCorrect {
    pub is_worker_va: bool,
    pub cspr_stake: Option<Balance>,
    pub reputation_stake: Balance,
    pub attached_value: Balance,
}

impl IsBidStakeCorrect {
    /// Creates the rule.
    pub fn create(is_worker_va: bool, cspr_stake: Option<Balance>, reputation_stake: Balance, attached_value: Balance) -> (r: GenericValidation)
        ensures
            r == GenericValidation::IsBidStakeCorrect(IsBidStakeCorrect { is_worker_va, cspr_stake, reputation_stake, attached_value }),
    {
        GenericValidation::IsBidStakeCorrect(IsBidStakeCorrect { is_worker_va, cspr_stake, reputation_stake, attached_value })
    }
}

impl Validation for IsBidStakeCorrect {
    open spec fn outcome(&self) -> Result<(), Error> {
        match self.cspr_stake {
            None => if !self.is_worker_va {
                Err(Error::NotOnboardedWorkerMustStakeCSPR)
            } else if self.reputation_stake.value() == 0 {
                Err(Error::ZeroStake)
            } else {
                Ok(())
            },
            Some(cspr_stake) => if self.is_worker_va {
                Err(Error::OnboardedWorkerCannotStakeCSPR)
            } else if self.reputation_stake.value() > 0 {
                Err(Error::CannotStakeBothCSPRAndReputation)
            } else if cspr_stake.value() == 0 {
                Err(Error::ZeroStake)
            } else if self.attached_value.value() != cspr_stake.value() {
                Err(Error::AttachedValueMismatch)
            } else {
                Ok(())
            },
        }
    }

    fn validate(&self) -> (r: Result<(), Error>) {
        match self.cspr_stake {
            None => {
                if !self.is_worker_va {
                    return Err(Error::NotOnboardedWorkerMustStakeCSPR);
                }
                if self.reputation_stake.is_zero() {
                    return Err(Error::ZeroStake);
                }
            },
            Some(cspr_stake) => {
                if self.is_worker_va {
                    return Err(Error::OnboardedWorkerCannotStakeCSPR);
                }
                if !self.reputation_stake.is_zero() {
                    return Err(Error::CannotStakeBothCSPRAndReputation);
                }
                if cspr_stake.is_zero() {
                    return Err(Error::ZeroStake);
                }
                if !self.attached_value.same(&cspr_stake) {
                    return Err(Error::AttachedValueMismatch);
                }
            },
        }
        Ok(())
    }
}

} // verus!
