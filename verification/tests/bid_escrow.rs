use dao::bid_escrow::storage::{BidStorage, JobStorage};
use dao::bid_escrow::bid::{Bid, BidStatus, CancelBidRequest, SubmitBidRequest};
use dao::bid_escrow::job::{Job, JobStatus, PickBidRequest, SubmitJobProofRequest, WorkerType};
use dao::bid_escrow::job_offer::{
    AuctionState, CancelJobOfferRequest, JobOffer, JobOfferStatus, PostJobOfferRequest,
};
use dao::configuration::builder::ConfigurationBuilder;
use dao::configuration::dao_configuration::DaoConfiguration;
use dao::configuration::Configuration;
use dao::errors::Error;
use dao::types::Address;
use dao::u256::U256;

fn a(v: u64) -> Address {
    Address::new(v)
}

fn b(v: u64) -> U256 {
    U256::from_u64(v)
}

fn dao_configuration() -> DaoConfiguration {
    DaoConfiguration {
        post_job_dos_fee: b(10000),
        internal_auction_time: 100,
        public_auction_time: 200,
        default_policing_rate: b(300),
        reputation_conversion_rate: b(100),
        fiat_conversion_rate_address: a(100),
        forum_kyc_required: true,
        bid_escrow_informal_quorum_ratio: b(500),
        bid_escrow_formal_quorum_ratio: b(500),
        informal_quorum_ratio: b(500),
        formal_quorum_ratio: b(500),
        bid_escrow_informal_voting_time: 10,
        bid_escrow_formal_voting_time: 10,
        informal_voting_time: 10,
        formal_voting_time: 10,
        informal_stake_reputation: true,
        time_between_informal_and_formal_voting: 10,
        va_bid_acceptance_timeout: 50,
        va_can_bid_on_public_auction: false,
        distribute_payment_to_non_voters: true,
        bid_escrow_wallet_address: a(101),
        default_reputation_slash: b(100),
        voting_clearness_delta: b(8),
        voting_start_after_job_worker_submission: 10,
        bid_escrow_payment_ratio: b(100),
        voting_ids_address: a(102),
        cancel_finished_voting_timeout: 0,
    }
}

fn configuration(fiat_rate: u64) -> Configuration {
    ConfigurationBuilder::with_dao_configuration(b(10), dao_configuration())
        .set_is_bid_escrow(true, b(fiat_rate))
        .build()
}

fn offer_request(dos_fee: u64, attached: u64) -> PostJobOfferRequest {
    PostJobOfferRequest {
        job_offer_id: 0,
        job_poster: a(1),
        job_poster_kyced: true,
        max_budget: b(1000),
        expected_timeframe: 100,
        dos_fee: b(dos_fee),
        attached_value: b(attached),
        start_time: 1000,
        configuration: configuration(2),
    }
}

fn bid_request(worker: u64, is_va: bool) -> SubmitBidRequest {
    SubmitBidRequest {
        bid_id: 0,
        timestamp: 1010,
        job_offer_id: 0,
        proposed_timeframe: 50,
        proposed_payment: b(500),
        reputation_stake: b(if is_va { 10 } else { 0 }),
        cspr_stake: if is_va { None } else { Some(b(20)) },
        attached_value: b(if is_va { 0 } else { 20 }),
        onboard: false,
        worker: a(worker),
        worker_kyced: true,
        worker_is_va: is_va,
        job_poster: a(1),
        max_budget: b(1000),
        auction_state: AuctionState::Internal,
        va_can_bid_on_public_auction: false,
    }
}

#[test]
fn a_job_offer_needs_a_sufficient_dos_fee() {
    // 10000 / 1000 = 10 fiat needed; 20 CSPR at rate 2 is 10 fiat.
    let offer = JobOffer::new(offer_request(20, 20)).unwrap();
    assert_eq!(offer.status, JobOfferStatus::Created);
    assert_eq!(JobOffer::new(offer_request(18, 18)).err(), Some(Error::DosFeeTooLow));
    assert_eq!(JobOffer::new(offer_request(20, 19)).err(), Some(Error::DosFeeTooLow));
    let mut r = offer_request(20, 20);
    r.job_poster_kyced = false;
    assert_eq!(JobOffer::new(r).err(), Some(Error::NotKyced));
}

#[test]
fn the_auction_is_internal_then_public() {
    let offer = JobOffer::new(offer_request(20, 20)).unwrap();
    assert_eq!(offer.auction_state(999), AuctionState::NoAuction);
    assert_eq!(offer.auction_state(1000), AuctionState::Internal);
    assert_eq!(offer.auction_state(1099), AuctionState::Internal);
    assert_eq!(offer.auction_state(1100), AuctionState::Public);
    assert_eq!(offer.auction_state(1299), AuctionState::Public);
    assert_eq!(offer.auction_state(1300), AuctionState::NoAuction);
}

#[test]
fn a_job_offer_is_canceled_by_its_poster_after_the_auction() {
    let mut offer = JobOffer::new(offer_request(20, 20)).unwrap();
    assert_eq!(
        offer.cancel(&CancelJobOfferRequest { caller: a(2), block_time: 2000 }).err(),
        Some(Error::CannotCancelNotOwnedJobOffer)
    );
    assert_eq!(
        offer.cancel(&CancelJobOfferRequest { caller: a(1), block_time: 1050 }).err(),
        Some(Error::JobOfferCannotBeYetCanceled)
    );
    assert!(offer.cancel(&CancelJobOfferRequest { caller: a(1), block_time: 2000 }).is_ok());
    assert_eq!(offer.status, JobOfferStatus::Cancelled);
}

#[test]
fn bids_follow_the_rules() {
    let bid = Bid::new(bid_request(2, true)).unwrap();
    assert_eq!(bid.status, BidStatus::Created);
    assert_eq!(bid.worker, a(2));
    assert_eq!(Bid::new(bid_request(1, true)).err(), Some(Error::CannotBidOnOwnJob));
    // an external worker cannot bid on the internal auction
    assert_eq!(Bid::new(bid_request(3, false)).err(), Some(Error::OnlyOnboardedWorkerCanBid));
    let mut r = bid_request(3, false);
    r.auction_state = AuctionState::Public;
    assert!(Bid::new(r).is_ok());
    let mut r = bid_request(2, true);
    r.proposed_payment = b(1001);
    assert_eq!(Bid::new(r).err(), Some(Error::PaymentExceedsMaxBudget));
}

#[test]
fn a_bid_is_canceled_by_its_worker_after_the_timeout() {
    let mut bid = Bid::new(bid_request(2, true)).unwrap();
    let request = CancelBidRequest {
        caller: a(3),
        job_offer_status: JobOfferStatus::Created,
        block_time: 2000,
        va_bid_acceptance_timeout: 50,
    };
    assert_eq!(bid.cancel(request).err(), Some(Error::CannotCancelNotOwnedBid));
    let early = CancelBidRequest { caller: a(2), block_time: 1020, ..request };
    assert_eq!(bid.cancel(early).err(), Some(Error::CannotCancelBidBeforeAcceptanceTimeout));
    let ok = CancelBidRequest { caller: a(2), ..request };
    assert!(bid.cancel(ok).is_ok());
    assert_eq!(bid.status, BidStatus::Canceled);
}

fn pick_request(caller: u64, transferred: u64) -> PickBidRequest {
    PickBidRequest {
        job_id: 0,
        job_offer_id: 0,
        bid_id: 0,
        caller: a(caller),
        poster: a(1),
        worker: a(2),
        is_worker_va: false,
        onboard: true,
        block_time: 1200,
        timeframe: 50,
        payment: b(500),
        transferred_cspr: b(transferred),
        stake: b(0),
        external_worker_cspr_stake: b(20),
    }
}

#[test]
fn picking_a_bid_creates_a_job() {
    let job = Job::new(&pick_request(1, 500)).unwrap();
    assert_eq!(job.status, JobStatus::Created);
    assert_eq!(job.worker_type, WorkerType::ExternalToVA);
    assert_eq!(Job::new(&pick_request(2, 500)).err(), Some(Error::OnlyJobPosterCanPickABid));
    assert_eq!(Job::new(&pick_request(1, 499)).err(), Some(Error::PurseBalanceMismatch));
    let mut bid = Bid::new(bid_request(2, true)).unwrap();
    assert_eq!(bid.picked(&pick_request(3, 500)).err(), Some(Error::OnlyJobPosterCanPickABid));
    assert!(bid.picked(&pick_request(1, 500)).is_ok());
    assert_eq!(bid.status, BidStatus::Picked);
}

#[test]
fn only_the_worker_submits_a_proof_once() {
    let mut job = Job::new(&pick_request(1, 500)).unwrap();
    assert_eq!(
        job.submit_proof(SubmitJobProofRequest { proof: vec![1], caller: a(3) }).err(),
        Some(Error::OnlyWorkerCanSubmitProof)
    );
    assert!(job.submit_proof(SubmitJobProofRequest { proof: vec![1], caller: a(2) }).is_ok());
    assert_eq!(job.status(), JobStatus::Submitted);
    assert_eq!(
        job.submit_proof(SubmitJobProofRequest { proof: vec![2], caller: a(2) }).err(),
        Some(Error::JobAlreadySubmitted)
    );
}

#[test]
fn the_storage_gives_back_offers_bids_and_jobs() {
    let mut st = BidStorage::new();
    let offer = JobOffer::new(offer_request(20, 20)).unwrap();
    let offer_id = offer.job_offer_id;
    st.store_job_offer(offer);
    assert_eq!(st.get_job_offer(offer_id).unwrap().dos_fee, b(20));
    assert_eq!(st.get_job_offer_or_revert(offer_id + 1).err(), Some(Error::JobOfferNotFound));
    let bid = Bid::new(bid_request(2, true)).unwrap();
    let bid_id = bid.bid_id;
    st.store_bid(bid);
    st.store_bid_id(offer_id, bid_id);
    assert_eq!(st.get_bid(bid_id).unwrap().worker, a(2));
    assert_eq!(st.get_nth_bid(offer_id, 0).unwrap().worker, a(2));
    assert_eq!(st.get_nth_bid(offer_id, 1).err(), Some(Error::BidNotFound));
    assert_eq!(st.get_bid_or_revert(bid_id + 1).err(), Some(Error::BidNotFound));

    let job = Job::new(&pick_request(1, 500)).unwrap();
    let job_id = job.job_id;
    let job_offer_id = job.job_offer_id;
    assert_eq!(
        st.get_job_offer_configuration(&job).is_ok(),
        st.get_job_offer(job_offer_id).is_some()
    );
    let mut jobs = JobStorage::new();
    jobs.store_job(job);
    jobs.store_job_for_voting(4, job_id);
    assert_eq!(jobs.get_job(job_id).unwrap().worker, a(2));
    assert_eq!(jobs.get_job_by_voting_id(4).unwrap().job_id, job_id);
    assert_eq!(jobs.get_job_by_voting_id(5).err(), Some(Error::VotingIdNotFound));
    jobs.store_job_for_voting(6, job_id + 1);
    assert_eq!(jobs.get_job_by_voting_id(6).err(), Some(Error::JobNotFound));
}
