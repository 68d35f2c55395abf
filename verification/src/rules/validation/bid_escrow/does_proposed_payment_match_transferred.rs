use vstd::prelude::*;

use crate::errors::Error;
use crate::rules::validation::{GenericValidation, Validation};
use crate::types::Balance;

verus! {

/// Verifies the transferred amount matches the proposed payment.
/// May return [Error::PurseBalanceMismatch].
#[derive(Debug)]
pub struct DoesProposedPaymentMatchTransferred {
    pub proposed_payment: Balance,
    pub transferred: Balance,
}

impl DoesProposedPaymentMatchTransferred {
    /// Creates the rule.
    pub fn create(proposed_payment: Balance, transferred: Balance) -> (r: GenericValidation)
        ensures
            r == GenericValidation::DoesProposedPaymentMatchTransferred(DoesProposedPaymentMatchTransferred { proposed_payment, transferred }),
    {
        GenericValidation::DoesProposedPaymentMatchTransferred(DoesProposedPaymentMatchTransferred { proposed_payment, transferred })
    }
}

impl Validation for DoesProposedPaymentMatchTransferred {
    open spec fn outcome(&self) -> Result<(), Error> {
        if self.proposed_payment.value() != self.transferred.value() {
            Err(Error::PurseBalanceMismatch)
        } else {
            Ok(())
        }
    }

    fn validate(&self) -> (r: Result<(), Error>) {
        if !self.proposed_payment.same(&self.transferred) {
            return Err(Error::PurseBalanceMismatch);
        }
        Ok(())
    }
}

} // verus!
