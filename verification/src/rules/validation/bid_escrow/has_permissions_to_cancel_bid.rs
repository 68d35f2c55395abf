use vstd::prelude::*;

use crate::errors::Error;
use crate::rules::validation::{GenericValidation, Validation};
use crate::types::Address;

verus! {

/// Makes sure the bidder is the one who cancels the bid.
/// May return [Error::CannotCancelNotOwnedBid].
#[derive(Debug)]
pub struct HasPermissionsToCancelBid {
    pub canceller: Address,
    pub bidder: Address,
}

impl HasPermissionsToCancelBid {
    /// Creates the rule.
    pub fn create(canceller: Address, bidder: Address) -> (r: GenericValidation)
        ensures
            r == GenericValidation::HasPermissionsToCancelBid(HasPermissionsToCancelBid { canceller, bidder }),
    {
        GenericValidation::HasPermissionsToCancelBid(HasPermissionsToCancelBid { canceller, bidder })
    }
}

impl Validation for HasPermissionsToCancelBid {
    open spec fn outcome(&self) -> Result<(), Error> {
        if self.canceller != self.bidder {
            Err(Error::CannotCancelNotOwnedBid)
        } else {
            Ok(())
        }
    }

    fn validate(&self) -> (r: Result<(), Error>) {
        if self.canceller != self.bidder {
            return Err(Error::CannotCancelNotOwnedBid);
        }
        Ok(())
    }
}

} // verus!
