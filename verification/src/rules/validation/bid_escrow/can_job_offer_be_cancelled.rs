use vstd::prelude::*;

use crate::errors::Error;
use crate::rules::validation::{GenericValidation, Validation};
use crate::bid_escrow::job_offer::AuctionState;

verus! {

/// Verifies a job offer can be cancelled: its auctions are over.
/// May return [Error::JobOfferCannotBeYetCanceled].
#[derive(Debug)]
pub struct CanJobOfferBeCancelled {
    pub auction_state: AuctionState,
}

impl CanJobOfferBeCancelled {
    /// Creates the rule.
    pub fn create(auction_state: AuctionState) -> (r: GenericValidation)
        ensures
            r == GenericValidation::CanJobOfferBeCancelled(CanJobOfferBeCancelled { auction_state }),
    {
        GenericValidation::CanJobOfferBeCancelled(CanJobOfferBeCancelled { auction_state })
    }
}

impl Validation for CanJobOfferBeCancelled {
    open spec fn outcome(&self) -> Result<(), Error> {
        if self.auction_state != AuctionState::NoAuction {
            Err(Error::JobOfferCannotBeYetCanceled)
        } else {
            Ok(())
        }
    }

    fn validate(&self) -> (r: Result<(), Error>) {
        if self.auction_state != AuctionState::NoAuction {
            return Err(Error::JobOfferCannotBeYetCanceled);
        }
        Ok(())
    }
}

} // verus!
