use vstd::prelude::*;

use crate::errors::Error;
use crate::rules::validation::{GenericValidation, Validation};

verus! {

/// Verifies a voting can be created: by a VA, when only VAs may create one.
/// May return [Error::NotOnboarded].
#[derive(Debug)]
pub struct CanCreateVoting {
    pub is_va: bool,
    pub only_va_can_create: bool,
}

impl CanCreateVoting {
    /// Creates the rule.
    pub fn create(is_va: bool, only_va_can_create: bool) -> (r: GenericValidation)
        ensures
            r == GenericValidation::CanCreateVoting(CanCreateVoting { is_va, only_va_can_create }),
    {
        GenericValidation::CanCreateVoting(CanCreateVoting { is_va, only_va_can_create })
    }
}

impl Validation for CanCreateVoting {
    open spec fn outcome(&self) -> Result<(), Error> {
        if self.only_va_can_create && !self.is_va {
            Err(Error::NotOnboarded)
        } else {
            Ok(())
        }
    }

    fn validate(&self) -> (r: Result<(), Error>) {
        if self.only_va_can_create && !self.is_va {
            return Err(Error::NotOnboarded);
        }
        Ok(())
    }
}

} // verus!
