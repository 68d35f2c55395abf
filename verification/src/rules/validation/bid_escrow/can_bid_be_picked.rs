use vstd::prelude::*;

use crate::errors::Error;
use crate::rules::validation::{GenericValidation, Validation};
use crate::bid_escrow::bid::BidStatus;

verus! {

/// Verifies the bid is in a state in which it can be picked.
/// May return [Error::BidAlreadyPicked], [Error::BidCanceled] or [Error::BidRejected].
#[derive(Debug)]
pub struct CanBidBePicked {
    pub bid_status: BidStatus,
}

impl CanBidBePicked {
    /// Creates the rule.
    pub fn create(bid_status: BidStatus) -> (r: GenericValidation)
        ensures
            r == GenericValidation::CanBidBePicked(CanBidBePicked { bid_status }),
    {
        GenericValidation::CanBidBePicked(CanBidBePicked { bid_status })
    }
}

impl Validation for CanBidBePicked {
    open spec fn outcome(&self) -> Result<(), Error> {
        match self.bid_status {
            BidStatus::Created | BidStatus::Reclaimed => Ok(()),
            BidStatus::Picked => Err(Error::BidAlreadyPicked),
            BidStatus::Canceled => Err(Error::BidCanceled),
            BidStatus::Rejected => Err(Error::BidRejected),
        }
    }

    fn validate(&self) -> (r: Result<(), Error>) {
        match self.bid_status {
            BidStatus::Created | BidStatus::Reclaimed => Ok(()),
            BidStatus::Picked => Err(Error::BidAlreadyPicked),
            BidStatus::Canceled => Err(Error::BidCanceled),
            BidStatus::Rejected => Err(Error::BidRejected),
        }
    }
}

} // verus!
