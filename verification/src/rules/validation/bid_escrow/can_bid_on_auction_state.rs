use vstd::prelude::*;

use crate::errors::Error;
use crate::rules::validation::{GenericValidation, Validation};
use crate::bid_escrow::job_offer::AuctionState;

verus! {

/// Verifies if the worker can place a bid in the given auction state.
/// May return [Error::AuctionNotRunning], [Error::OnlyOnboardedWorkerCanBid]
/// or [Error::OnboardedWorkerCannotBid].
#[derive(Debug)]
pub struct CanBidOnAuctionState {
    pub auction_state: AuctionState,
    pub is_worker_va: bool,
    pub va_can_bid_on_public_auction: bool,
}

impl CanBidOnAuctionState {
    /// Creates the rule.
    pub fn create(auction_state: AuctionState, is_worker_va: bool, va_can_bid_on_public_auction: bool) -> (r: GenericValidation)
        ensures
            r == GenericValidation::CanBidOnAuctionState(CanBidOnAuctionState { auction_state, is_worker_va, va_can_bid_on_public_auction }),
    {
        GenericValidation::CanBidOnAuctionState(CanBidOnAuctionState { auction_state, is_worker_va, va_can_bid_on_public_auction })
    }
}

/// Without a running auction nobody bids; in the internal auction only VAs
/// bid; in the public auction everybody bids, but a VA only when VAs may bid
/// on public auctions.
pub proof fn law_who_bids_in_which_auction(rule: CanBidOnAuctionState)
    ensures
        rule.auction_state == AuctionState::NoAuction ==> rule.outcome() == Err::<(), Error>(
            Error::AuctionNotRunning,
        ),
        rule.auction_state == AuctionState::Internal ==> (rule.outcome() is Ok
            <==> rule.is_worker_va),
        rule.auction_state == AuctionState::Public ==> (rule.outcome() is Ok <==> (
        !rule.is_worker_va || rule.va_can_bid_on_public_auction)),
        rule.auction_state == AuctionState::Public && rule.is_worker_va
            && !rule.va_can_bid_on_public_auction ==> rule.outcome() == Err::<(), Error>(
            Error::OnboardedWorkerCannotBid,
        ),
{
}

impl Validation for CanBidOnAuctionState {
    open spec fn outcome(&self) -> Result<(), Error> {
        match self.auction_state {
            AuctionState::NoAuction => Err(Error::AuctionNotRunning),
            AuctionState::Internal => if !self.is_worker_va {
                Err(Error::OnlyOnboardedWorkerCanBid)
            } else {
                Ok(())
            },
            AuctionState::Public => if self.is_worker_va && !self.va_can_bid_on_public_auction {
                Err(Error::OnboardedWorkerCannotBid)
            } else {
                Ok(())
            },
        }
    }

    fn validate(&self) -> (r: Result<(), Error>)
        ensures
            self.auction_state == AuctionState::NoAuction ==> r == Err::<(), Error>(
                Error::AuctionNotRunning,
            ),
            self.auction_state == AuctionState::Internal ==> (r is Ok <==> self.is_worker_va) && (r
                is Err ==> r == Err::<(), Error>(Error::OnlyOnboardedWorkerCanBid)),
            self.auction_state == AuctionState::Public ==> (r is Ok <==> (!self.is_worker_va
                || self.va_can_bid_on_public_auction)) && (r is Err ==> r == Err::<(), Error>(
                Error::OnboardedWorkerCannotBid,
            )),
    {
        match self.auction_state {
            AuctionState::NoAuction => {
                return Err(Error::AuctionNotRunning);
            },
            AuctionState::Internal => {
                if !self.is_worker_va {
                    return Err(Error::OnlyOnboardedWorkerCanBid);
                }
            },
            AuctionState::Public => {
                if self.is_worker_va && !self.va_can_bid_on_public_auction {
                    return Err(Error::OnboardedWorkerCannotBid);
                }
            },
        }
        Ok(())
    }
}

} // verus!
