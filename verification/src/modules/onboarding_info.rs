//! What the library knows of a user's onboarding: whether the user holds a
//! VA token, and which one.

use vstd::prelude::*;

use crate::errors::Error;
use crate::modules::refs::ContractRefs;
use crate::types::{Balance, TokenId};

verus! {

/// Information about the onboarding process, read from the VA token whose
/// address the references hold.
#[derive(Clone, Copy, Debug)]
pub struct OnboardingInfo {
    pub refs: ContractRefs,
}

impl OnboardingInfo {
    /// Whether a user is onboarded, given the user's VA token balance: the
    /// balance is not zero.
    pub fn is_onboarded(&self, va_balance: Balance) -> (r: bool)
        ensures
            r == (va_balance.value() != 0),
    {
        !va_balance.is_zero()
    }

    /// The user's VA token, given what the VA token contract answers for the
    /// user; [`Error::InvalidTokenOwner`] when it has none.
    pub fn token_id_of(&self, token_id: Option<TokenId>) -> (r: Result<TokenId, Error>)
        ensures
            r == match token_id {
                Some(t) => Ok::<TokenId, Error>(t),
                None => Err(Error::InvalidTokenOwner),
            },
    {
        match token_id {
            Some(t) => Ok(t),
            None => Err(Error::InvalidTokenOwner),
        }
    }
}

} // verus!
