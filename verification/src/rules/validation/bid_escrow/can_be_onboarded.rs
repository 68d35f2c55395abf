use vstd::prelude::*;

use crate::errors::Error;
use crate::rules::validation::{GenericValidation, Validation};

verus! {

/// Verifies if the user can be onboarded. May return [Error::VaOnboardedAlready].
#[derive(Debug)]
pub struct CanBeOnboarded {
    pub is_va: bool,
    pub onboard: bool,
}

impl CanBeOnboarded {
    /// Creates the rule.
    pub fn create(is_va: bool, onboard: bool) -> (r: GenericValidation)
        ensures
            r == GenericValidation::CanBeOnboarded(CanBeOnboarded { is_va, onboard }),
    {
        GenericValidation::CanBeOnboarded(CanBeOnboarded { is_va, onboard })
    }
}

impl Validation for CanBeOnboarded {
    open spec fn outcome(&self) -> Result<(), Error> {
        if self.is_va && self.onboard {
            Err(Error::VaOnboardedAlready)
        } else {
            Ok(())
        }
    }

    fn validate(&self) -> (r: Result<(), Error>) {
        if self.is_va && self.onboard {
            return Err(Error::VaOnboardedAlready);
        }
        Ok(())
    }
}

} // verus!
