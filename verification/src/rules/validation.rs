//! Validation rules. Each rule checks one condition and names the error it
//! raises when the condition does not hold.

use vstd::prelude::*;

use crate::configuration::Configuration;
use crate::errors::Error;
use crate::types::BlockTime;
use crate::voting::voting_state::VotingState;

pub mod bid_escrow;
pub mod is_user_kyced;
pub mod is_va;
pub mod voting;

pub use is_user_kyced::IsUserKyced;
pub use is_va::IsVa;
use bid_escrow::{
    CanBeOnboarded, CanBidBeCancelled, CanBidBePicked, CanBidOnAuctionState, CanBidOnOwnJob,
    CanJobOfferBeCancelled, CanPickBid, CanProgressJobOffer, DoesProposedPaymentExceedBudget,
    DoesProposedPaymentMatchTransferred, HasPermissionsToCancelBid, HasPermissionsToCancelJobOffer,
    IsBidStakeCorrect, IsDosFeeEnough, IsGracePeriod, IsStakeNonZero,
};
use voting::{
    AfterFormalVoting, CanCreateVoting, FinishedVotingCanBeCancelled, VoteInTime,
    VotingNotCompleted,
};

verus! {

/// A rule that needs no voting state.
pub trait Validation {
    /// What the rule decides: `Ok` when its condition holds, its error otherwise.
    spec fn outcome(&self) -> Result<(), Error>;

    /// Checks the rule.
    fn validate(&self) -> (r: Result<(), Error>)
        ensures
            r == self.outcome(),
    ;
}

/// A rule on the state of a voting.
///
/// The rule names the moment it asks about, and decides on the state the
/// voting is in at that moment.
pub trait VotingValidation {
    /// Whether the rule can name its moment under the given configuration.
    spec fn moment_defined(&self, configuration: &Configuration) -> bool;

    /// The moment the rule asks about; `None` for the state the voting is in now.
    spec fn spec_moment(&self, configuration: &Configuration) -> Option<BlockTime>;

    /// Returns the moment the rule asks about.
    fn moment(&self, configuration: &Configuration) -> (r: Option<BlockTime>)
        requires
            self.moment_defined(configuration),
        ensures
            r == self.spec_moment(configuration),
    ;

    /// What the rule decides on the voting state found at its moment.
    spec fn outcome(&self, state: VotingState) -> Result<(), Error>;

    /// Checks the rule against the voting state found at its moment.
    fn validate(&self, state: VotingState) -> (r: Result<(), Error>)
        ensures
            r == self.outcome(state),
    ;
}

/// Any of the rules that need no voting state.
#[derive(Debug)]
pub enum GenericValidation {
    IsVa(IsVa),
    IsUserKyced(IsUserKyced),
    CanBeOnboarded(CanBeOnboarded),
    CanBidBePicked(CanBidBePicked),
    CanBidOnAuctionState(CanBidOnAuctionState),
    CanBidOnOwnJob(CanBidOnOwnJob),
    CanPickBid(CanPickBid),
    CanProgressJobOffer(CanProgressJobOffer),
    DoesProposedPaymentExceedBudget(DoesProposedPaymentExceedBudget),
    DoesProposedPaymentMatchTransferred(DoesProposedPaymentMatchTransferred),
    HasPermissionsToCancelBid(HasPermissionsToCancelBid),
    HasPermissionsToCancelJobOffer(HasPermissionsToCancelJobOffer),
    IsBidStakeCorrect(IsBidStakeCorrect),
    IsDosFeeEnough(IsDosFeeEnough),
    IsGracePeriod(IsGracePeriod),
    IsStakeNonZero(IsStakeNonZero),
    CanBidBeCancelled(CanBidBeCancelled),
    CanJobOfferBeCancelled(CanJobOfferBeCancelled),
    CanCreateVoting(CanCreateVoting),
}

impl Validation for GenericValidation {
    open spec fn outcome(&self) -> Result<(), Error> {
        match self {
            GenericValidation::IsVa(v) => v.outcome(),
            GenericValidation::IsUserKyced(v) => v.outcome(),
            GenericValidation::CanBeOnboarded(v) => v.outcome(),
            GenericValidation::CanBidBePicked(v) => v.outcome(),
            GenericValidation::CanBidOnAuctionState(v) => v.outcome(),
            GenericValidation::CanBidOnOwnJob(v) => v.outcome(),
            GenericValidation::CanPickBid(v) => v.outcome(),
            GenericValidation::CanProgressJobOffer(v) => v.outcome(),
            GenericValidation::DoesProposedPaymentExceedBudget(v) => v.outcome(),
            GenericValidation::DoesProposedPaymentMatchTransferred(v) => v.outcome(),
            GenericValidation::HasPermissionsToCancelBid(v) => v.outcome(),
            GenericValidation::HasPermissionsToCancelJobOffer(v) => v.outcome(),
            GenericValidation::IsBidStakeCorrect(v) => v.outcome(),
            GenericValidation::IsDosFeeEnough(v) => v.outcome(),
            GenericValidation::IsGracePeriod(v) => v.outcome(),
            GenericValidation::IsStakeNonZero(v) => v.outcome(),
            GenericValidation::CanBidBeCancelled(v) => v.outcome(),
            GenericValidation::CanJobOfferBeCancelled(v) => v.outcome(),
            GenericValidation::CanCreateVoting(v) => v.outcome(),
        }
    }

    fn validate(&self) -> (r: Result<(), Error>) {
        match self {
            GenericValidation::IsVa(v) => v.validate(),
            GenericValidation::IsUserKyced(v) => v.validate(),
            GenericValidation::CanBeOnboarded(v) => v.validate(),
            GenericValidation::CanBidBePicked(v) => v.validate(),
            GenericValidation::CanBidOnAuctionState(v) => v.validate(),
            GenericValidation::CanBidOnOwnJob(v) => v.validate(),
            GenericValidation::CanPickBid(v) => v.validate(),
            GenericValidation::CanProgressJobOffer(v) => v.validate(),
            GenericValidation::DoesProposedPaymentExceedBudget(v) => v.validate(),
            GenericValidation::DoesProposedPaymentMatchTransferred(v) => v.validate(),
            GenericValidation::HasPermissionsToCancelBid(v) => v.validate(),
            GenericValidation::HasPermissionsToCancelJobOffer(v) => v.validate(),
            GenericValidation::IsBidStakeCorrect(v) => v.validate(),
            GenericValidation::IsDosFeeEnough(v) => v.validate(),
            GenericValidation::IsGracePeriod(v) => v.validate(),
            GenericValidation::IsStakeNonZero(v) => v.validate(),
            GenericValidation::CanBidBeCancelled(v) => v.validate(),
            GenericValidation::CanJobOfferBeCancelled(v) => v.validate(),
            GenericValidation::CanCreateVoting(v) => v.validate(),
        }
    }
}

/// Any of the rules on the state of a voting.
#[derive(Debug)]
pub enum GenericVotingValidation {
    AfterFormalVoting(AfterFormalVoting),
    FinishedVotingCanBeCancelled(FinishedVotingCanBeCancelled),
    VoteInTime(VoteInTime),
    VotingNotCompleted(VotingNotCompleted),
}

impl VotingValidation for GenericVotingValidation {
    open spec fn moment_defined(&self, configuration: &Configuration) -> bool {
        match self {
            GenericVotingValidation::AfterFormalVoting(v) => v.moment_defined(configuration),
            GenericVotingValidation::FinishedVotingCanBeCancelled(v) => v.moment_defined(configuration),
            GenericVotingValidation::VoteInTime(v) => v.moment_defined(configuration),
            GenericVotingValidation::VotingNotCompleted(v) => v.moment_defined(configuration),
        }
    }

    open spec fn spec_moment(&self, configuration: &Configuration) -> Option<BlockTime> {
        match self {
            GenericVotingValidation::AfterFormalVoting(v) => v.spec_moment(configuration),
            GenericVotingValidation::FinishedVotingCanBeCancelled(v) => v.spec_moment(configuration),
            GenericVotingValidation::VoteInTime(v) => v.spec_moment(configuration),
            GenericVotingValidation::VotingNotCompleted(v) => v.spec_moment(configuration),
        }
    }

    fn moment(&self, configuration: &Configuration) -> (r: Option<BlockTime>) {
        match self {
            GenericVotingValidation::AfterFormalVoting(v) => v.moment(configuration),
            GenericVotingValidation::FinishedVotingCanBeCancelled(v) => v.moment(configuration),
            GenericVotingValidation::VoteInTime(v) => v.moment(configuration),
            GenericVotingValidation::VotingNotCompleted(v) => v.moment(configuration),
        }
    }

    open spec fn outcome(&self, state: VotingState) -> Result<(), Error> {
        match self {
            GenericVotingValidation::AfterFormalVoting(v) => v.outcome(state),
            GenericVotingValidation::FinishedVotingCanBeCancelled(v) => v.outcome(state),
            GenericVotingValidation::VoteInTime(v) => v.outcome(state),
            GenericVotingValidation::VotingNotCompleted(v) => v.outcome(state),
        }
    }

    fn validate(&self, state: VotingState) -> (r: Result<(), Error>) {
        match self {
            GenericVotingValidation::AfterFormalVoting(v) => v.validate(state),
            GenericVotingValidation::FinishedVotingCanBeCancelled(v) => v.validate(state),
            GenericVotingValidation::VoteInTime(v) => v.validate(state),
            GenericVotingValidation::VotingNotCompleted(v) => v.validate(state),
        }
    }
}

} // verus!
