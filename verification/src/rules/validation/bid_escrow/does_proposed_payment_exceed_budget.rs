use vstd::prelude::*;

use crate::errors::Error;
use crate::rules::validation::{GenericValidation, Validation};
use crate::types::Balance;

verus! {

/// Verifies the proposed payment does not exceed the budget.
/// May return [Error::PaymentExceedsMaxBudget].
#[derive(Debug)]
pub struct DoesProposedPaymentExceedBudget {
    pub proposed_payment: Balance,
    pub max_budget: Balance,
}

impl DoesProposedPaymentExceedBudget {
    /// Creates the rule.
    pub fn create(proposed_payment: Balance, max_budget: Balance) -> (r: GenericValidation)
        ensures
            r == GenericValidation::DoesProposedPaymentExceedBudget(DoesProposedPaymentExceedBudget { proposed_payment, max_budget }),
    {
        GenericValidation::DoesProposedPaymentExceedBudget(DoesProposedPaymentExceedBudget { proposed_payment, max_budget })
    }
}

impl Validation for DoesProposedPaymentExceedBudget {
    open spec fn outcome(&self) -> Result<(), Error> {
        if self.proposed_payment.value() > self.max_budget.value() {
            Err(Error::PaymentExceedsMaxBudget)
        } else {
            Ok(())
        }
    }

    fn validate(&self) -> (r: Result<(), Error>) {
        if self.max_budget.lt(&self.proposed_payment) {
            return Err(Error::PaymentExceedsMaxBudget);
        }
        Ok(())
    }
}

} // verus!
