use dao::bid_escrow::bid::BidStatus;
use dao::bid_escrow::job::JobStatus;
use dao::bid_escrow::job_offer::{AuctionState, JobOfferStatus};
use dao::errors::Error;
use dao::rules::validation::bid_escrow::{
    CanBeOnboarded, CanBidBePicked, CanBidOnAuctionState, CanBidOnOwnJob, CanJobOfferBeCancelled,
    CanPickBid, CanProgressJobOffer, DoesProposedPaymentExceedBudget,
    DoesProposedPaymentMatchTransferred, HasPermissionsToCancelBid,
    HasPermissionsToCancelJobOffer, IsBidStakeCorrect, IsGracePeriod, IsStakeNonZero,
};
use dao::rules::validation::is_user_kyced::IsUserKyced;
use dao::rules::validation::is_va::IsVa;
use dao::rules::validation::voting::{CanCreateVoting, VoteInTime, VotingNotCompleted};
use dao::rules::validation::{Validation, VotingValidation};
use dao::rules::RulesBuilder;
use dao::types::Address;
use dao::u256::U256;
use dao::voting::voting_state::VotingState;

fn a(v: u64) -> Address {
    Address::new(v)
}

fn b(v: u64) -> U256 {
    U256::from_u64(v)
}

#[test]
fn the_first_failing_rule_decides() {
    let rules = RulesBuilder::new()
        .add_validation(IsUserKyced::create(true))
        .add_validation(IsVa::create(false))
        .add_validation(CanBidOnOwnJob::create(a(1), a(1)))
        .build();
    assert_eq!(rules.validate_generic_validations(), Err(Error::NotOnboarded));
    let rules = RulesBuilder::new().add_validation(IsUserKyced::create(true)).build();
    assert_eq!(rules.validate_generic_validations(), Ok(()));
}

#[test]
fn voting_rules_check_the_state_they_are_given() {
    let rules = RulesBuilder::new()
        .add_voting_validation(VotingNotCompleted::create())
        .add_voting_validation(VoteInTime::create(10))
        .build();
    assert_eq!(
        rules.validate_voting_validations(&vec![VotingState::Informal, VotingState::Created]),
        Err(Error::InformalVotingNotStarted)
    );
    assert_eq!(
        rules.validate_voting_validations(&vec![VotingState::Finished, VotingState::Formal]),
        Err(Error::VotingAlreadyFinished)
    );
    assert_eq!(
        rules.validate_voting_validations(&vec![VotingState::Formal, VotingState::Formal]),
        Ok(())
    );
    assert_eq!(
        VoteInTime::create(1).validate(VotingState::BetweenVotings),
        Err(Error::VotingDuringTimeBetweenVotingsNotAllowed)
    );
}

#[test]
fn each_rule_reports_its_error() {
    assert_eq!(IsUserKyced::create(false).validate(), Err(Error::NotKyced));
    assert_eq!(CanBeOnboarded::create(true, true).validate(), Err(Error::VaOnboardedAlready));
    assert_eq!(CanBeOnboarded::create(false, true).validate(), Ok(()));
    assert_eq!(CanBidBePicked::create(BidStatus::Picked).validate(), Err(Error::BidAlreadyPicked));
    assert_eq!(CanBidBePicked::create(BidStatus::Canceled).validate(), Err(Error::BidCanceled));
    assert_eq!(CanBidBePicked::create(BidStatus::Rejected).validate(), Err(Error::BidRejected));
    assert_eq!(CanBidBePicked::create(BidStatus::Created).validate(), Ok(()));
    assert_eq!(
        CanBidOnAuctionState::create(AuctionState::NoAuction, true, true).validate(),
        Err(Error::AuctionNotRunning)
    );
    assert_eq!(
        CanBidOnAuctionState::create(AuctionState::Internal, false, true).validate(),
        Err(Error::OnlyOnboardedWorkerCanBid)
    );
    assert_eq!(
        CanBidOnAuctionState::create(AuctionState::Public, true, false).validate(),
        Err(Error::OnboardedWorkerCannotBid)
    );
    assert_eq!(
        CanBidOnAuctionState::create(AuctionState::Public, false, false).validate(),
        Ok(())
    );
    assert_eq!(CanBidOnOwnJob::create(a(1), a(1)).validate(), Err(Error::CannotBidOnOwnJob));
    assert_eq!(
        CanJobOfferBeCancelled::create(AuctionState::Internal).validate(),
        Err(Error::JobOfferCannotBeYetCanceled)
    );
    assert_eq!(CanPickBid::create(a(1), a(2)).validate(), Err(Error::OnlyJobPosterCanPickABid));
    assert_eq!(
        CanProgressJobOffer::create(a(1), a(2)).validate(),
        Err(Error::OnlyJobPosterCanModifyJobOffer)
    );
    assert_eq!(
        DoesProposedPaymentExceedBudget::create(b(11), b(10)).validate(),
        Err(Error::PaymentExceedsMaxBudget)
    );
    assert_eq!(DoesProposedPaymentExceedBudget::create(b(10), b(10)).validate(), Ok(()));
    assert_eq!(
        DoesProposedPaymentMatchTransferred::create(b(10), b(9)).validate(),
        Err(Error::PurseBalanceMismatch)
    );
    assert_eq!(
        HasPermissionsToCancelBid::create(a(1), a(2)).validate(),
        Err(Error::CannotCancelNotOwnedBid)
    );
    assert_eq!(
        HasPermissionsToCancelJobOffer::create(a(1), a(2)).validate(),
        Err(Error::CannotCancelNotOwnedJobOffer)
    );
    assert_eq!(IsStakeNonZero::create(b(0), None).validate(), Err(Error::ZeroStake));
    assert_eq!(IsStakeNonZero::create(b(0), Some(b(1))).validate(), Ok(()));
    assert_eq!(
        IsGracePeriod::create(JobStatus::Created, 10, 5).validate(),
        Err(Error::GracePeriodNotStarted)
    );
    assert_eq!(
        IsGracePeriod::create(JobStatus::Completed, 10, 50).validate(),
        Err(Error::CannotSubmitJobProof)
    );
    assert_eq!(IsVa::create(false).validate(), Err(Error::NotOnboarded));
    assert_eq!(CanCreateVoting::create(false, true).validate(), Err(Error::NotOnboarded));
    assert_eq!(CanCreateVoting::create(false, false).validate(), Ok(()));
    let _ = JobOfferStatus::Created;
}

#[test]
fn bid_stakes_depend_on_the_worker() {
    assert_eq!(
        IsBidStakeCorrect::create(false, None, b(0), b(0)).validate(),
        Err(Error::NotOnboardedWorkerMustStakeCSPR)
    );
    assert_eq!(
        IsBidStakeCorrect::create(true, Some(b(1)), b(1), b(1)).validate(),
        Err(Error::OnboardedWorkerCannotStakeCSPR)
    );
    assert_eq!(IsBidStakeCorrect::create(true, None, b(0), b(0)).validate(), Err(Error::ZeroStake));
    assert_eq!(IsBidStakeCorrect::create(true, None, b(5), b(0)).validate(), Ok(()));
    assert_eq!(
        IsBidStakeCorrect::create(false, Some(b(5)), b(0), b(4)).validate(),
        Err(Error::AttachedValueMismatch)
    );
    assert_eq!(IsBidStakeCorrect::create(false, Some(b(5)), b(0), b(5)).validate(), Ok(()));
}
