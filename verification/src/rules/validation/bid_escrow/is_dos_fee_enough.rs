use vstd::prelude::*;

use crate::configuration::Configuration;
use crate::errors::Error;
use crate::rules::validation::{GenericValidation, Validation};
use crate::types::Balance;

verus! {

/// Makes sure the job DOS fee is high enough: the attached value covers the
/// declared fee, and the fee's value in fiat currency is not below the
/// per-mil of the configured minimum. May return [Error::DosFeeTooLow], or
/// the error of the fiat conversion.
#[derive(Debug)]
pub struct IsDosFeeEnough {
    pub configuration: Configuration,
    pub dos_fee: Balance,
    pub attached_value: Balance,
}

impl IsDosFeeEnough {
    /// Creates the rule.
    pub fn create(configuration: Configuration, dos_fee: Balance, attached_value: Balance) -> (r:
        GenericValidation)
        ensures
            r == GenericValidation::IsDosFeeEnough(
                IsDosFeeEnough { configuration, dos_fee, attached_value },
            ),
    {
        GenericValidation::IsDosFeeEnough(IsDosFeeEnough { configuration, dos_fee, attached_value })
    }
}

impl Validation for IsDosFeeEnough {
    open spec fn outcome(&self) -> Result<(), Error> {
        if self.attached_value.value() < self.dos_fee.value() {
            Err(Error::DosFeeTooLow)
        } else {
            match self.configuration.spec_convert_to_fiat(self.dos_fee.value()) {
                Err(e) => Err(e),
                Ok(fiat_value) => if self.configuration.dao_configuration.post_job_dos_fee.value()
                    / 1000 > fiat_value {
                    Err(Error::DosFeeTooLow)
                } else {
                    Ok(())
                },
            }
        }
    }

    fn validate(&self) -> (r: Result<(), Error>) {
        if self.attached_value.lt(&self.dos_fee) {
            return Err(Error::DosFeeTooLow);
        }
        let fiat_value = match self.configuration.convert_to_fiat(self.dos_fee) {
            Ok(v) => v,
            Err(e) => {
                return Err(e);
            },
        };
        if self.configuration.is_post_job_dos_fee_too_low(fiat_value) {
            return Err(Error::DosFeeTooLow);
        }
        Ok(())
    }
}

} // verus!
