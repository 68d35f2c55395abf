use vstd::prelude::*;

use crate::errors::Error;
use crate::rules::validation::{GenericValidation, Validation};

verus! {

/// Verifies the user is a VA. May return [Error::NotOnboarded].
#[derive(Debug)]
pub struct IsVa {
    pub is_va: bool,
}

impl IsVa {
    /// Creates the rule.
    pub fn create(is_va: bool) -> (r: GenericValidation)
        ensures
            r == GenericValidation::IsVa(IsVa { is_va }),
    {
        GenericValidation::IsVa(IsVa { is_va })
    }
}

impl Validation for IsVa {
    open spec fn outcome(&self) -> Result<(), Error> {
        if !self.is_va {
            Err(Error::NotOnboarded)
        } else {
            Ok(())
        }
    }

    fn validate(&self) -> (r: Result<(), Error>) {
        if !self.is_va {
            return Err(Error::NotOnboarded);
        }
        Ok(())
    }
}

} // verus!
