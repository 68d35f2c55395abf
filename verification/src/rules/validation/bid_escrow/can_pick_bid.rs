use vstd::prelude::*;

use crate::errors::Error;
use crate::rules::validation::{GenericValidation, Validation};
use crate::types::Address;

verus! {

/// Makes sure the job poster is the one who picks the bid.
/// May return [Error::OnlyJobPosterCanPickABid].
#[derive(Debug)]
pub struct CanPickBid {
    pub caller: Address,
    pub poster: Address,
}

impl CanPickBid {
    /// Creates the rule.
    pub fn create(caller: Address, poster: Address) -> (r: GenericValidation)
        ensures
            r == GenericValidation::CanPickBid(CanPickBid { caller, poster }),
    {
        GenericValidation::CanPickBid(CanPickBid { caller, poster })
    }
}

impl Validation for CanPickBid {
    open spec fn outcome(&self) -> Result<(), Error> {
        if self.caller != self.poster {
            Err(Error::OnlyJobPosterCanPickABid)
        } else {
            Ok(())
        }
    }

    fn validate(&self) -> (r: Result<(), Error>) {
        if self.caller != self.poster {
            return Err(Error::OnlyJobPosterCanPickABid);
        }
        Ok(())
    }
}

} // verus!
