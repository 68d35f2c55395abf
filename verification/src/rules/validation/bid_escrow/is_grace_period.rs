use vstd::prelude::*;

use crate::errors::Error;
use crate::rules::validation::{GenericValidation, Validation};
use crate::bid_escrow::job::JobStatus;
use crate::types::BlockTime;

verus! {

/// Makes sure the job is in its grace period: created and past its finish time.
/// May return [Error::CannotSubmitJobProof] or [Error::GracePeriodNotStarted].
#[derive(Debug)]
pub struct IsGracePeriod {
    pub job_status: JobStatus,
    pub job_finish_time: BlockTime,
    pub block_time: BlockTime,
}

impl IsGracePeriod {
    /// Creates the rule.
    pub fn create(job_status: JobStatus, job_finish_time: BlockTime, block_time: BlockTime) -> (r: GenericValidation)
        ensures
            r == GenericValidation::IsGracePeriod(IsGracePeriod { job_status, job_finish_time, block_time }),
    {
        GenericValidation::IsGracePeriod(IsGracePeriod { job_status, job_finish_time, block_time })
    }
}

impl Validation for IsGracePeriod {
    open spec fn outcome(&self) -> Result<(), Error> {
        if self.job_status != JobStatus::Created {
            Err(Error::CannotSubmitJobProof)
        } else if self.job_finish_time >= self.block_time {
            Err(Error::GracePeriodNotStarted)
        } else {
            Ok(())
        }
    }

    fn validate(&self) -> (r: Result<(), Error>) {
        if self.job_status != JobStatus::Created {
            return Err(Error::CannotSubmitJobProof);
        }
        if self.job_finish_time >= self.block_time {
            return Err(Error::GracePeriodNotStarted);
        }
        Ok(())
    }
}

} // verus!
