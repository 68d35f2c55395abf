//! Job offers and their requests.

use vstd::prelude::*;

use crate::bid_escrow::job::PickBidRequest;
use crate::configuration::Configuration;
use crate::errors::Error;
use crate::rules::validation::bid_escrow::{
    CanJobOfferBeCancelled, CanProgressJobOffer, HasPermissionsToCancelJobOffer, IsDosFeeEnough,
};
use crate::rules::validation::{IsUserKyced, Validation};
use crate::rules::{first_error, generic_outcomes, RulesBuilder};
use crate::types::{Address, Balance, BlockTime, JobOfferId};

verus! {

/// Job offer status.
#[derive(Clone, Copy, Debug, PartialEq, Eq, Structural)]
pub enum JobOfferStatus {
    /// Created, bidders can place bids.
    Created,
    /// Bid selected, a worker works on it.
    InProgress,
    /// Offer canceled, is no longer valid.
    Cancelled,
}

/// Auction state representation.
#[derive(Clone, Copy, Debug, PartialEq, Eq, Structural)]
pub enum AuctionState {
    /// No auction is running.
    NoAuction,
    /// Internal auction: only VAs can bid.
    Internal,
    /// Public auction: non-VAs can bid.
    Public,
}

/// Data required to post a job offer.
#[derive(Debug)]
pub struct PostJobOfferRequest {
    /// New offer id.
    pub job_offer_id: JobOfferId,
    /// The offer creator.
    pub job_poster: Address,
    /// Whether the creator passed the KYC process.
    pub job_poster_kyced: bool,
    /// Max amount the job poster can pay for the job.
    pub max_budget: Balance,
    /// The time the job should be completed in.
    pub expected_timeframe: BlockTime,
    /// CSPR amount declared as the DOS fee.
    pub dos_fee: Balance,
    /// CSPR amount attached to the call.
    pub attached_value: Balance,
    /// The time since the offer is available for bidders.
    pub start_time: BlockTime,
    /// Job configuration.
    pub configuration: Configuration,
}

impl PostJobOfferRequest {
    /// The outcomes of the rules a new job offer must pass, in order.
    pub open spec fn checks(&self) -> Seq<Result<(), Error>> {
        seq![
            IsUserKyced { kyced: self.job_poster_kyced }.outcome(),
            IsDosFeeEnough {
                configuration: self.configuration,
                dos_fee: self.dos_fee,
                attached_value: self.attached_value,
            }.outcome(),
        ]
    }
}

/// Data required to cancel a job offer.
#[derive(Clone, Copy, Debug)]
pub struct CancelJobOfferRequest {
    /// The request caller.
    pub caller: Address,
    /// The request creation time.
    pub block_time: BlockTime,
}

/// A job offer.
#[derive(Debug)]
pub struct JobOffer {
    /// Offer id.
    pub job_offer_id: JobOfferId,
    /// The offer creator.
    pub job_poster: Address,
    /// Max amount the job poster can pay for the job.
    pub max_budget: Balance,
    /// The time the job should be completed in.
    pub expected_timeframe: BlockTime,
    /// CSPR amount attached to the offer.
    pub dos_fee: Balance,
    /// The current job offer status.
    pub status: JobOfferStatus,
    /// The time since the offer is available for bidders.
    pub start_time: BlockTime,
    /// Job configuration.
    pub configuration: Configuration,
}

impl JobOffer {
    /// The auction state at a given time: the internal auction runs for the
    /// internal auction time from the start, then the public auction for the
    /// public auction time; before and after, no auction runs.
    pub open spec fn spec_auction_state(&self, block_time: BlockTime) -> AuctionState {
        let public_start = self.start_time + self.configuration.dao_configuration.internal_auction_time;
        let public_end = public_start + self.configuration.dao_configuration.public_auction_time;
        if block_time >= self.start_time && block_time < public_start {
            AuctionState::Internal
        } else if block_time >= public_start && block_time < public_end {
            AuctionState::Public
        } else {
            AuctionState::NoAuction
        }
    }

    /// The end of the public auction fits in a `u64`.
    pub open spec fn auction_times_fit(&self) -> bool {
        self.start_time + self.configuration.dao_configuration.internal_auction_time
            + self.configuration.dao_configuration.public_auction_time <= u64::MAX
    }

    /// Creates a job offer when the poster passed the KYC process and the
    /// DOS fee is enough; otherwise returns the error of the first failing
    /// rule.
    pub fn new(request: PostJobOfferRequest) -> (r: Result<JobOffer, Error>)
        ensures
            match r {
                Ok(offer) => {
                    &&& first_error(request.checks()) is Ok
                    &&& offer.job_offer_id == request.job_offer_id
                    &&& offer.job_poster == request.job_poster
                    &&& offer.max_budget == request.max_budget
                    &&& offer.expected_timeframe == request.expected_timeframe
                    &&& offer.dos_fee == request.dos_fee
                    &&& offer.status == JobOfferStatus::Created
                    &&& offer.start_time == request.start_time
                    &&& offer.configuration == request.configuration
                },
                Err(e) => first_error(request.checks()) == Err::<(), Error>(e),
            },
    {
        let rules = RulesBuilder::new().add_validation(
            IsUserKyced::create(request.job_poster_kyced),
        ).add_validation(
            IsDosFeeEnough::create(
                request.configuration.clone(),
                request.dos_fee,
                request.attached_value,
            ),
        ).build();
        proof {
            assert(generic_outcomes(rules.validations@) =~= request.checks());
        }
        match rules.validate_generic_validations() {
            Err(e) => Err(e),
            Ok(_) => Ok(
                JobOffer {
                    job_offer_id: request.job_offer_id,
                    job_poster: request.job_poster,
                    max_budget: request.max_budget,
                    expected_timeframe: request.expected_timeframe,
                    dos_fee: request.dos_fee,
                    status: JobOfferStatus::Created,
                    start_time: request.start_time,
                    configuration: request.configuration,
                },
            ),
        }
    }

    /// Changes the status to in-progress, when the caller is the job poster.
    pub fn in_progress(&mut self, request: &PickBidRequest) -> (r: Result<(), Error>)
        ensures
            r == (CanProgressJobOffer {
                address: request.caller,
                job_poster: old(self).job_poster,
            }).outcome(),
            r is Ok ==> *final(self) == (JobOffer { status: JobOfferStatus::InProgress, ..*old(self) }),
            r is Err ==> *final(self) == *old(self),
    {
        let rules = RulesBuilder::new().add_validation(
            CanProgressJobOffer::create(request.caller, self.job_poster),
        ).build();
        proof {
            reveal_with_fuel(first_error, 2);
        }
        let result = rules.validate_generic_validations();
        if result.is_ok() {
            self.status = JobOfferStatus::InProgress;
        }
        result
    }

    /// The outcomes of the rules a cancellation must pass, in order.
    pub open spec fn cancel_checks(&self, request: &CancelJobOfferRequest) -> Seq<
        Result<(), Error>,
    > {
        seq![
            HasPermissionsToCancelJobOffer {
                canceller: request.caller,
                job_offer_poster: self.job_poster,
            }.outcome(),
            CanJobOfferBeCancelled {
                auction_state: self.spec_auction_state(request.block_time),
            }.outcome(),
        ]
    }

    /// Cancels the offer, when the caller is the job poster and no auction
    /// is running.
    pub fn cancel(&mut self, request: &CancelJobOfferRequest) -> (r: Result<(), Error>)
        requires
            old(self).auction_times_fit(),
        ensures
            r == first_error(old(self).cancel_checks(request)),
            r is Ok ==> *final(self) == (JobOffer { status: JobOfferStatus::Cancelled, ..*old(self) }),
            r is Err ==> *final(self) == *old(self),
    {
        let rules = RulesBuilder::new().add_validation(
            HasPermissionsToCancelJobOffer::create(request.caller, self.job_poster),
        ).add_validation(CanJobOfferBeCancelled::create(self.auction_state(request.block_time))).build();
        proof {
            assert(generic_outcomes(rules.validations@) =~= self.cancel_checks(request));
        }
        let result = rules.validate_generic_validations();
        if result.is_ok() {
            self.status = JobOfferStatus::Cancelled;
        }
        result
    }

    /// Gets the auction state at a given time.
    pub fn auction_state(&self, block_time: BlockTime) -> (r: AuctionState)
        requires
            self.auction_times_fit(),
        ensures
            r == self.spec_auction_state(block_time),
    {
        let public_auction_start_time = self.start_time + self.configuration.internal_auction_time();
        let public_auction_end_time = public_auction_start_time
            + self.configuration.public_auction_time();
        if block_time >= self.start_time && block_time < public_auction_start_time {
            AuctionState::Internal
        } else if block_time >= public_auction_start_time && block_time < public_auction_end_time {
            AuctionState::Public
        } else {
            AuctionState::NoAuction
        }
    }

    /// Gets a reference to the job configuration.
    pub fn configuration(&self) -> (r: &Configuration)
        ensures
            r == &self.configuration,
    {
        &self.configuration
    }

    /// Cancels the offer without any check.
    pub fn slash(&mut self)
        ensures
            *final(self) == (JobOffer { status: JobOfferStatus::Cancelled, ..*old(self) }),
    {
        self.status = JobOfferStatus::Cancelled;
    }
}

} // verus!
