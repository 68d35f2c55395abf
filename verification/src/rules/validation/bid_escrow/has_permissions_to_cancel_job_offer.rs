use vstd::prelude::*;

use crate::errors::Error;
use crate::rules::validation::{GenericValidation, Validation};
use crate::types::Address;

verus! {

/// Makes sure the job poster is the one who cancels the job offer.
/// May return [Error::CannotCancelNotOwnedJobOffer].
#[derive(Debug)]
pub struct HasPermissionsToCancelJobOffer {
    pub canceller: Address,
    pub job_offer_poster: Address,
}

impl HasPermissionsToCancelJobOffer {
    /// Creates the rule.
    pub fn create(canceller: Address, job_offer_poster: Address) -> (r: GenericValidation)
        ensures
            r == GenericValidation::HasPermissionsToCancelJobOffer(HasPermissionsToCancelJobOffer { canceller, job_offer_poster }),
    {
        GenericValidation::HasPermissionsToCancelJobOffer(HasPermissionsToCancelJobOffer { canceller, job_offer_poster })
    }
}

impl Validation for HasPermissionsToCancelJobOffer {
    open spec fn outcome(&self) -> Result<(), Error> {
        if self.canceller != self.job_offer_poster {
            Err(Error::CannotCancelNotOwnedJobOffer)
        } else {
            Ok(())
        }
    }

    fn validate(&self) -> (r: Result<(), Error>) {
        if self.canceller != self.job_offer_poster {
            return Err(Error::CannotCancelNotOwnedJobOffer);
        }
        Ok(())
    }
}

} // verus!
