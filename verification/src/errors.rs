//! Errors raised by the DAO logic. A contract that meets one stops and
//! reverts with it.

use vstd::prelude::*;

verus! {

/// All the errors the library reports.
#[derive(Clone, Copy, Debug, PartialEq, Eq, Structural)]
pub enum Error {
    NotAnOwner,
    OwnerIsNotInitialized,
    NotWhitelisted,
    InsufficientBalance,
    ArithmeticOverflow,
    TotalSupplyOverflow,
    CannotUnstakeMoreThanStaked,
    ZeroStake,
    VariableValueNotSet,
    ActivationTimeInPast,
    KeyValueStorageError,
    RepositoryError,
    FiatRateNotSet,
    TokenDoesNotExist,
    TokenAlreadyExists,
    UserAlreadyOwnsToken,
    InvalidTokenOwner,
    VotingAddressNotFound,
    NotKyced,
    NotOnboarded,
    VaOnboardedAlready,
    CannotBidOnOwnJob,
    PaymentExceedsMaxBudget,
    AuctionNotRunning,
    OnlyOnboardedWorkerCanBid,
    OnboardedWorkerCannotBid,
    NotOnboardedWorkerMustStakeCSPR,
    OnboardedWorkerCannotStakeCSPR,
    CannotStakeBothCSPRAndReputation,
    AttachedValueMismatch,
    BidAlreadyPicked,
    BidCanceled,
    BidRejected,
    OnlyJobPosterCanPickABid,
    OnlyJobPosterCanModifyJobOffer,
    PurseBalanceMismatch,
    CannotCancelNotOwnedBid,
    CannotCancelNotOwnedJobOffer,
    CannotCancelBidOnCompletedJobOffer,
    CannotCancelBidBeforeAcceptanceTimeout,
    JobOfferCannotBeYetCanceled,
    DosFeeTooLow,
    CannotSubmitJobProof,
    GracePeriodNotStarted,
    CannotCancelJob,
    JobCannotBeYetCanceled,
    JobAlreadySubmitted,
    OnlyWorkerCanSubmitProof,
    JobOfferNotFound,
    BidNotFound,
    JobNotFound,
    VotingIdNotFound,
    FormalVotingNotCompleted,
    VotingCannotBeCancelledYet,
    InformalVotingNotStarted,
    VotingDuringTimeBetweenVotingsNotAllowed,
    VoteOnCompletedVotingNotAllowed,
    VotingAlreadyFinished,
    VotingAlreadyCanceled,
    InformalVotingTimeNotReached,
    FormalVotingTimeNotReached,
    NotEnoughReputation,
    FinishingCompletedVotingNotAllowed,
    VotingDoesNotExist,
    VotingWithGivenTypeNotInProgress,
    CannotVoteTwice,
    VoterDoesNotExist,
    BallotDoesNotExist,
    ConfigurationNotFound,
    InvalidAddress,
    /// The token module's error for a token id that names no token.
    InvalidTokenId,
    /// The framework's error for a stored number that would exceed its
    /// largest value.
    AdditionOverflow,
    /// The framework's error for a stored number that would fall below zero.
    SubtractingOverflow,
}

} // verus!
