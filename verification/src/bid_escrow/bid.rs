//! Bids and their requests.

use vstd::prelude::*;

use crate::bid_escrow::job::{JobStatus, PickBidRequest};
use crate::bid_escrow::job_offer::{AuctionState, JobOfferStatus};
use crate::errors::Error;
use crate::rules::validation::bid_escrow::{
    CanBeOnboarded, CanBidBeCancelled, CanBidOnAuctionState, CanBidOnOwnJob, CanPickBid,
    DoesProposedPaymentExceedBudget, HasPermissionsToCancelBid, IsBidStakeCorrect, IsGracePeriod,
    IsStakeNonZero,
};
use crate::rules::validation::{IsUserKyced, Validation};
use crate::rules::{first_error, generic_outcomes, RulesBuilder};
use crate::types::{Address, Balance, BidId, BlockTime, JobOfferId};

verus! {

/// Bid status representation.
#[derive(Clone, Copy, Debug, PartialEq, Eq, Structural)]
pub enum BidStatus {
    /// Placed, awaiting to be picked.
    Created,
    /// Chosen by the job poster.
    Picked,
    /// The bid was not chosen by the job poster.
    Rejected,
    /// The bid was taken over during the grace period.
    Reclaimed,
    /// Canceled, e.g. because the job poster was slashed.
    Canceled,
}

/// Data required to create a bid.
#[derive(Clone, Copy, Debug)]
pub struct SubmitBidRequest {
    /// New bid id.
    pub bid_id: BidId,
    /// Submission creation time.
    pub timestamp: BlockTime,
    /// Id of the offer the new bid refers to.
    pub job_offer_id: JobOfferId,
    /// Time to complete the job.
    pub proposed_timeframe: BlockTime,
    /// Proposed payment for completing the job.
    pub proposed_payment: Balance,
    /// Bid reputation stake.
    pub reputation_stake: Balance,
    /// Bid CSPR stake of an external worker.
    pub cspr_stake: Option<Balance>,
    /// CSPR amount attached to the call.
    pub attached_value: Balance,
    /// Should be onboarded when the job is done.
    pub onboard: bool,
    /// Worker address.
    pub worker: Address,
    /// If the worker passed the KYC process.
    pub worker_kyced: bool,
    /// If the worker is a VA.
    pub worker_is_va: bool,
    /// Job poster address.
    pub job_poster: Address,
    /// The job's max budget.
    pub max_budget: Balance,
    /// Auction state.
    pub auction_state: AuctionState,
    /// If a VA may bid on a public auction.
    pub va_can_bid_on_public_auction: bool,
}

impl SubmitBidRequest {
    /// The outcomes of the rules a new bid must pass, in order.
    pub open spec fn checks(&self) -> Seq<Result<(), Error>> {
        seq![
            IsUserKyced { kyced: self.worker_kyced }.outcome(),
            CanBidOnOwnJob { worker: self.worker, job_poster: self.job_poster }.outcome(),
            CanBeOnboarded { is_va: self.worker_is_va, onboard: self.onboard }.outcome(),
            DoesProposedPaymentExceedBudget {
                proposed_payment: self.proposed_payment,
                max_budget: self.max_budget,
            }.outcome(),
            CanBidOnAuctionState {
                auction_state: self.auction_state,
                is_worker_va: self.worker_is_va,
                va_can_bid_on_public_auction: self.va_can_bid_on_public_auction,
            }.outcome(),
            IsBidStakeCorrect {
                is_worker_va: self.worker_is_va,
                cspr_stake: self.cspr_stake,
                reputation_stake: self.reputation_stake,
                attached_value: self.attached_value,
            }.outcome(),
        ]
    }
}

/// Data required to cancel a bid.
#[derive(Clone, Copy, Debug)]
pub struct CancelBidRequest {
    /// Address who tries to cancel the bid.
    pub caller: Address,
    /// The current job offer status.
    pub job_offer_status: JobOfferStatus,
    /// Block time.
    pub block_time: BlockTime,
    /// The time a bid waits for acceptance before it can be cancelled.
    pub va_bid_acceptance_timeout: BlockTime,
}

/// Data required to reclaim a bid during the grace period.
#[derive(Clone, Copy, Debug)]
pub struct ReclaimBidRequest {
    /// New bid id.
    pub new_bid_id: BidId,
    /// The address that reclaims the bid.
    pub caller: Address,
    /// Bid CSPR stake of an external worker.
    pub cspr_stake: Option<Balance>,
    /// Bid reputation stake.
    pub reputation_stake: Balance,
    /// New worker address.
    pub new_worker: Address,
    /// If the new worker is a VA.
    pub new_worker_va: bool,
    /// If the new worker passed the KYC process.
    pub new_worker_kyced: bool,
    /// The related job's creator.
    pub job_poster: Address,
    /// Should be onboarded when the job is done.
    pub onboard: bool,
    /// Reclaim creation time.
    pub block_time: BlockTime,
    /// The current status of the reclaimed job.
    pub job_status: JobStatus,
    /// The related job's finish time.
    pub job_finish_time: BlockTime,
}

impl ReclaimBidRequest {
    /// The outcomes of the rules a reclaim must pass, in order.
    pub open spec fn checks(&self) -> Seq<Result<(), Error>> {
        seq![
            IsUserKyced { kyced: self.new_worker_kyced }.outcome(),
            CanBidOnOwnJob { worker: self.new_worker, job_poster: self.job_poster }.outcome(),
            CanBeOnboarded { is_va: self.new_worker_va, onboard: self.onboard }.outcome(),
            IsStakeNonZero {
                reputation_stake: self.reputation_stake,
                cspr_stake: self.cspr_stake,
            }.outcome(),
            IsGracePeriod {
                job_status: self.job_status,
                job_finish_time: self.job_finish_time,
                block_time: self.block_time,
            }.outcome(),
        ]
    }
}

/// A bid.
#[derive(Clone, Copy, Debug)]
pub struct Bid {
    /// Bid id.
    pub bid_id: BidId,
    /// Bid status.
    pub status: BidStatus,
    /// Creation time.
    pub timestamp: BlockTime,
    /// Related job offer id.
    pub job_offer_id: JobOfferId,
    /// Proposed job completion time.
    pub proposed_timeframe: BlockTime,
    /// Proposed payment for the job.
    pub proposed_payment: Balance,
    /// Bid reputation stake.
    pub reputation_stake: Balance,
    /// Bid CSPR stake of an external worker.
    pub cspr_stake: Option<Balance>,
    /// Should be onboarded when the job is done.
    pub onboard: bool,
    /// Worker address.
    pub worker: Address,
}

impl Bid {
    /// Creates a bid when the worker passed the KYC process, does not bid on
    /// his own job, is not onboarded twice, stays within the budget, may bid
    /// in the current auction and stakes correctly; otherwise returns the
    /// error of the first failing rule.
    pub fn new(request: SubmitBidRequest) -> (r: Result<Bid, Error>)
        ensures
            match r {
                Ok(bid) => first_error(request.checks()) is Ok && bid == (Bid {
                    bid_id: request.bid_id,
                    status: BidStatus::Created,
                    timestamp: request.timestamp,
                    job_offer_id: request.job_offer_id,
                    proposed_timeframe: request.proposed_timeframe,
                    proposed_payment: request.proposed_payment,
                    reputation_stake: request.reputation_stake,
                    cspr_stake: request.cspr_stake,
                    onboard: request.onboard,
                    worker: request.worker,
                }),
                Err(e) => first_error(request.checks()) == Err::<(), Error>(e),
            },
    {
        let rules = RulesBuilder::new().add_validation(
            IsUserKyced::create(request.worker_kyced),
        ).add_validation(CanBidOnOwnJob::create(request.worker, request.job_poster)).add_validation(
            CanBeOnboarded::create(request.worker_is_va, request.onboard),
        ).add_validation(
            DoesProposedPaymentExceedBudget::create(request.proposed_payment, request.max_budget),
        ).add_validation(
            CanBidOnAuctionState::create(
                request.auction_state,
                request.worker_is_va,
                request.va_can_bid_on_public_auction,
            ),
        ).add_validation(
            IsBidStakeCorrect::create(
                request.worker_is_va,
                request.cspr_stake,
                request.reputation_stake,
                request.attached_value,
            ),
        ).build();
        proof {
            assert(generic_outcomes(rules.validations@) =~= request.checks());
        }
        if let Err(e) = rules.validate_generic_validations() {
            return Err(e);
        }
        Ok(
            Bid {
                bid_id: request.bid_id,
                status: BidStatus::Created,
                timestamp: request.timestamp,
                job_offer_id: request.job_offer_id,
                proposed_timeframe: request.proposed_timeframe,
                proposed_payment: request.proposed_payment,
                reputation_stake: request.reputation_stake,
                cspr_stake: request.cspr_stake,
                onboard: request.onboard,
                worker: request.worker,
            },
        )
    }

    /// Marks the bid reclaimed and creates the bid that takes it over: picked,
    /// with the new id, worker, time, stakes and onboarding wish; the new
    /// timeframe ends one more timeframe after the old one.
    pub fn reclaim(&mut self, request: &ReclaimBidRequest) -> (r: Result<Bid, Error>)
        requires
            first_error(request.checks()) is Ok ==> old(self).timestamp + old(self).proposed_timeframe + old(self).proposed_timeframe <= u64::MAX,
        ensures
            match r {
                Ok(new_bid) => {
                    &&& first_error(request.checks()) is Ok
                    &&& *final(self) == (Bid { status: BidStatus::Reclaimed, ..*old(self) })
                    &&& new_bid == (Bid {
                        bid_id: request.new_bid_id,
                        status: BidStatus::Picked,
                        worker: request.new_worker,
                        timestamp: request.block_time,
                        reputation_stake: request.reputation_stake,
                        proposed_timeframe: (old(self).timestamp + old(self).proposed_timeframe
                            + old(self).proposed_timeframe) as BlockTime,
                        cspr_stake: request.cspr_stake,
                        onboard: request.onboard,
                        ..*old(self)
                    })
                },
                Err(e) => {
                    &&& first_error(request.checks()) == Err::<(), Error>(e)
                    &&& *final(self) == *old(self)
                },
            },
    {
        let rules = RulesBuilder::new().add_validation(
            IsUserKyced::create(request.new_worker_kyced),
        ).add_validation(CanBidOnOwnJob::create(request.new_worker, request.job_poster)).add_validation(
            CanBeOnboarded::create(request.new_worker_va, request.onboard),
        ).add_validation(IsStakeNonZero::create(request.reputation_stake, request.cspr_stake)).add_validation(
            IsGracePeriod::create(request.job_status, request.job_finish_time, request.block_time),
        ).build();
        proof {
            assert(generic_outcomes(rules.validations@) =~= request.checks());
        }
        if let Err(e) = rules.validate_generic_validations() {
            return Err(e);
        }
        let mut new_bid = *self;
        self.status = BidStatus::Reclaimed;

        new_bid.bid_id = request.new_bid_id;
        new_bid.status = BidStatus::Picked;
        new_bid.worker = request.new_worker;
        new_bid.timestamp = request.block_time;
        new_bid.reputation_stake = request.reputation_stake;
        new_bid.proposed_timeframe = self.timestamp + self.proposed_timeframe
            + self.proposed_timeframe;
        new_bid.cspr_stake = request.cspr_stake;
        new_bid.onboard = request.onboard;

        Ok(new_bid)
    }

    /// Changes the status to picked, when the caller is the job poster.
    pub fn picked(&mut self, request: &PickBidRequest) -> (r: Result<(), Error>)
        ensures
            r == (CanPickBid { caller: request.caller, poster: request.poster }).outcome(),
            r is Ok ==> *final(self) == (Bid { status: BidStatus::Picked, ..*old(self) }),
            r is Err ==> *final(self) == *old(self),
    {
        let rules = RulesBuilder::new().add_validation(
            CanPickBid::create(request.caller, request.poster),
        ).build();
        proof {
            reveal_with_fuel(first_error, 2);
        }
        let result = rules.validate_generic_validations();
        if result.is_ok() {
            self.status = BidStatus::Picked;
        }
        result
    }

    /// Changes the status to rejected without any check.
    pub fn reject_without_validation(&mut self)
        ensures
            *final(self) == (Bid { status: BidStatus::Rejected, ..*old(self) }),
    {
        self.status = BidStatus::Rejected;
    }

    /// The outcomes of the rules a cancellation must pass, in order.
    pub open spec fn cancel_checks(&self, request: CancelBidRequest) -> Seq<Result<(), Error>> {
        seq![
            HasPermissionsToCancelBid { canceller: request.caller, bidder: self.worker }.outcome(),
            CanBidBeCancelled {
                job_offer_status: request.job_offer_status,
                block_time: request.block_time,
                bid_timestamp: self.timestamp,
                va_bid_acceptance_timeout: request.va_bid_acceptance_timeout,
            }.outcome(),
        ]
    }

    /// Cancels the bid, when the caller is the worker, the job offer is still
    /// open and the acceptance timeout has passed.
    pub fn cancel(&mut self, request: CancelBidRequest) -> (r: Result<(), Error>)
        ensures
            r == first_error(old(self).cancel_checks(request)),
            r is Ok ==> *final(self) == (Bid { status: BidStatus::Canceled, ..*old(self) }),
            r is Err ==> *final(self) == *old(self),
    {
        let rules = RulesBuilder::new().add_validation(
            HasPermissionsToCancelBid::create(request.caller, self.worker),
        ).add_validation(
            CanBidBeCancelled::create(
                request.job_offer_status,
                request.block_time,
                self.timestamp,
                request.va_bid_acceptance_timeout,
            ),
        ).build();
        proof {
            assert(generic_outcomes(rules.validations@) =~= self.cancel_checks(request));
        }
        let result = rules.validate_generic_validations();
        if result.is_ok() {
            self.status = BidStatus::Canceled;
        }
        result
    }

    /// Changes the status to canceled without any check.
    pub fn cancel_without_validation(&mut self)
        ensures
            *final(self) == (Bid { status: BidStatus::Canceled, ..*old(self) }),
    {
        self.status = BidStatus::Canceled;
    }

    /// Gets the bid id.
    pub fn bid_id(&self) -> (r: BidId)
        ensures
            r == self.bid_id,
    {
        self.bid_id
    }
}

} // verus!
