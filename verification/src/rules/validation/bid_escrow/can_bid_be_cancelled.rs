use vstd::prelude::*;

use crate::errors::Error;
use crate::rules::validation::{GenericValidation, Validation};
use crate::bid_escrow::job_offer::JobOfferStatus;
use crate::types::BlockTime;

verus! {

/// Verifies a bid can be cancelled: its job offer is still open and the
/// acceptance timeout has passed since the bid was placed.
/// May return [Error::CannotCancelBidOnCompletedJobOffer] or
/// [Error::CannotCancelBidBeforeAcceptanceTimeout].
#[derive(Debug)]
pub struct CanBidBeCancelled {
    pub job_offer_status: JobOfferStatus,
    pub block_time: BlockTime,
    pub bid_timestamp: BlockTime,
    pub va_bid_acceptance_timeout: BlockTime,
}

impl CanBidBeCancelled {
    /// Creates the rule.
    pub fn create(job_offer_status: JobOfferStatus, block_time: BlockTime, bid_timestamp: BlockTime, va_bid_acceptance_timeout: BlockTime) -> (r: GenericValidation)
        ensures
            r == GenericValidation::CanBidBeCancelled(CanBidBeCancelled { job_offer_status, block_time, bid_timestamp, va_bid_acceptance_timeout }),
    {
        GenericValidation::CanBidBeCancelled(CanBidBeCancelled { job_offer_status, block_time, bid_timestamp, va_bid_acceptance_timeout })
    }
}

impl Validation for CanBidBeCancelled {
    open spec fn outcome(&self) -> Result<(), Error> {
        if self.job_offer_status != JobOfferStatus::Created {
            Err(Error::CannotCancelBidOnCompletedJobOffer)
        } else if self.block_time < self.bid_timestamp + self.va_bid_acceptance_timeout {
            Err(Error::CannotCancelBidBeforeAcceptanceTimeout)
        } else {
            Ok(())
        }
    }

    fn validate(&self) -> (r: Result<(), Error>) {
        if self.job_offer_status != JobOfferStatus::Created {
            return Err(Error::CannotCancelBidOnCompletedJobOffer);
        }
        if self.block_time < self.bid_timestamp || self.block_time - self.bid_timestamp
            < self.va_bid_acceptance_timeout {
            return Err(Error::CannotCancelBidBeforeAcceptanceTimeout);
        }
        Ok(())
    }
}

} // verus!
