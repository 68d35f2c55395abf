use vstd::prelude::*;

use crate::errors::Error;
use crate::rules::validation::{GenericValidation, Validation};
use crate::types::Address;

verus! {

/// Makes sure the job poster is the one who progresses the job offer.
/// May return [Error::OnlyJobPosterCanModifyJobOffer].
#[derive(Debug)]
pub struct CanProgressJobOffer {
    pub address: Address,
    pub job_poster: Address,
}

impl CanProgressJobOffer {
    /// Creates the rule.
    pub fn create(address: Address, job_poster: Address) -> (r: GenericValidation)
        ensures
            r == GenericValidation::CanProgressJobOffer(CanProgressJobOffer { address, job_poster }),
    {
        GenericValidation::CanProgressJobOffer(CanProgressJobOffer { address, job_poster })
    }
}

impl Validation for CanProgressJobOffer {
    open spec fn outcome(&self) -> Result<(), Error> {
        if self.job_poster != self.address {
            Err(Error::OnlyJobPosterCanModifyJobOffer)
        } else {
            Ok(())
        }
    }

    fn validate(&self) -> (r: Result<(), Error>) {
        if self.job_poster != self.address {
            return Err(Error::OnlyJobPosterCanModifyJobOffer);
        }
        Ok(())
    }
}

} // verus!
