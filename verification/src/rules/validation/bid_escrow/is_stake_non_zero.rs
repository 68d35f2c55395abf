use vstd::prelude::*;

use crate::errors::Error;
use crate::rules::validation::{GenericValidation, Validation};
use crate::types::Balance;

verus! {

/// Makes sure some stake is given. May return [Error::ZeroStake].
#[derive(Debug)]
pub struct IsStakeNonZero {
    pub reputation_stake: Balance,
    pub cspr_stake: Option<Balance>,
}

impl IsStakeNonZero {
    /// Creates the rule.
    pub fn create(reputation_stake: Balance, cspr_stake: Option<Balance>) -> (r: GenericValidation)
        ensures
            r == GenericValidation::IsStakeNonZero(IsStakeNonZero { reputation_stake, cspr_stake }),
    {
        GenericValidation::IsStakeNonZero(IsStakeNonZero { reputation_stake, cspr_stake })
    }
}

impl Validation for IsStakeNonZero {
    open spec fn outcome(&self) -> Result<(), Error> {
        if self.cspr_stake is None && self.reputation_stake.value() == 0 {
            Err(Error::ZeroStake)
        } else {
            Ok(())
        }
    }

    fn validate(&self) -> (r: Result<(), Error>) {
        if self.cspr_stake.is_none() && self.reputation_stake.is_zero() {
            return Err(Error::ZeroStake);
        }
        Ok(())
    }
}

} // verus!
