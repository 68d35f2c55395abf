use vstd::prelude::*;

use crate::errors::Error;
use crate::rules::validation::{GenericValidation, Validation};
use crate::types::Address;

verus! {

/// Verifies the worker does not bid on his own job. May return [Error::CannotBidOnOwnJob].
#[derive(Debug)]
pub struct CanBidOnOwnJob {
    pub worker: Address,
    pub job_poster: Address,
}

impl CanBidOnOwnJob {
    /// Creates the rule.
    pub fn create(worker: Address, job_poster: Address) -> (r: GenericValidation)
        ensures
            r == GenericValidation::CanBidOnOwnJob(CanBidOnOwnJob { worker, job_poster }),
    {
        GenericValidation::CanBidOnOwnJob(CanBidOnOwnJob { worker, job_poster })
    }
}

impl Validation for CanBidOnOwnJob {
    open spec fn outcome(&self) -> Result<(), Error> {
        if self.worker == self.job_poster {
            Err(Error::CannotBidOnOwnJob)
        } else {
            Ok(())
        }
    }

    fn validate(&self) -> (r: Result<(), Error>) {
        if self.worker == self.job_poster {
            return Err(Error::CannotBidOnOwnJob);
        }
        Ok(())
    }
}

} // verus!
