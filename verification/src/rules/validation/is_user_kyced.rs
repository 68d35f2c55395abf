use vstd::prelude::*;

use crate::errors::Error;
use crate::rules::validation::{GenericValidation, Validation};

verus! {

/// Verifies the user passed the KYC process. May return [Error::NotKyced].
#[derive(Debug)]
pub struct IsUserKyced {
    pub kyced: bool,
}

impl IsUserKyced {
    /// Creates the rule.
    pub fn create(kyced: bool) -> (r: GenericValidation)
        ensures
            r == GenericValidation::IsUserKyced(IsUserKyced { kyced }),
    {
        GenericValidation::IsUserKyced(IsUserKyced { kyced })
    }
}

impl Validation for IsUserKyced {
    open spec fn outcome(&self) -> Result<(), Error> {
        if !self.kyced {
            Err(Error::NotKyced)
        } else {
            Ok(())
        }
    }

    fn validate(&self) -> (r: Result<(), Error>) {
        if !self.kyced {
            return Err(Error::NotKyced);
        }
        Ok(())
    }
}

} // verus!
