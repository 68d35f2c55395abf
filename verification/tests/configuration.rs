use dao::configuration::builder::ConfigurationBuilder;
use dao::configuration::dao_configuration::DaoConfiguration;
use dao::errors::Error;
use dao::types::Address;
use dao::u256::U256;

fn a(v: u64) -> Address {
    Address::new(v)
}

fn b(v: u64) -> U256 {
    U256::from_u64(v)
}

fn dao_configuration() -> DaoConfiguration {
    DaoConfiguration {
        post_job_dos_fee: b(10000),
        internal_auction_time: 7,
        public_auction_time: 8,
        default_policing_rate: b(300),
        reputation_conversion_rate: b(100),
        fiat_conversion_rate_address: a(100),
        forum_kyc_required: true,
        bid_escrow_informal_quorum_ratio: b(300),
        bid_escrow_formal_quorum_ratio: b(400),
        informal_quorum_ratio: b(500),
        formal_quorum_ratio: b(600),
        bid_escrow_informal_voting_time: 11,
        bid_escrow_formal_voting_time: 12,
        informal_voting_time: 13,
        formal_voting_time: 14,
        informal_stake_reputation: true,
        time_between_informal_and_formal_voting: 86400000,
        va_bid_acceptance_timeout: 5,
        va_can_bid_on_public_auction: false,
        distribute_payment_to_non_voters: true,
        bid_escrow_wallet_address: a(101),
        default_reputation_slash: b(100),
        voting_clearness_delta: b(8),
        voting_start_after_job_worker_submission: 99,
        bid_escrow_payment_ratio: b(100),
        voting_ids_address: a(102),
        cancel_finished_voting_timeout: 3,
    }
}

#[test]
fn quorums_and_times_depend_on_the_kind_of_voting() {
    let regular = ConfigurationBuilder::with_dao_configuration(b(10), dao_configuration()).build();
    assert_eq!(regular.informal_voting_quorum(), Ok(5));
    assert_eq!(regular.formal_voting_quorum(), Ok(6));
    assert_eq!(regular.informal_voting_time(), 13);
    assert_eq!(regular.formal_voting_time(), 14);
    assert_eq!(regular.voting_delay(), 0);
    assert!(regular.should_cast_first_vote());
    assert!(regular.only_va_can_create());
    let escrow = ConfigurationBuilder::with_dao_configuration(b(10), dao_configuration())
        .set_is_bid_escrow(true, b(2))
        .build();
    assert_eq!(escrow.informal_voting_quorum(), Ok(3));
    assert_eq!(escrow.formal_voting_quorum(), Ok(4));
    assert_eq!(escrow.informal_voting_time(), 11);
    assert_eq!(escrow.formal_voting_time(), 12);
    assert_eq!(escrow.voting_delay(), 99);
    assert!(!escrow.should_cast_first_vote());
    assert_eq!(escrow.fiat_rate(), Some(b(2)));
}

#[test]
fn the_time_between_votings_can_be_doubled() {
    let mut c = ConfigurationBuilder::with_dao_configuration(b(10), dao_configuration()).build();
    assert_eq!(c.time_between_informal_and_formal_voting(), 86400000);
    assert!(!c.should_double_time_between_votings());
    c.double_time_between_votings();
    assert_eq!(c.time_between_informal_and_formal_voting(), 172800000);
}

#[test]
fn ratios_are_applied_in_per_mils() {
    let c = ConfigurationBuilder::with_dao_configuration(b(10), dao_configuration()).build();
    assert_eq!(c.apply_default_policing_rate_to(b(1000)), Ok(b(300)));
    assert_eq!(c.apply_bid_escrow_payment_ratio_to(b(1000)), Ok(b(100)));
    assert_eq!(c.apply_reputation_conversion_rate_to(b(1000)), Ok(b(100)));
    assert_eq!(c.apply_default_reputation_slash_to(b(50)), Ok(b(5)));
}

#[test]
fn fiat_conversion_needs_a_rate() {
    let c = ConfigurationBuilder::with_dao_configuration(b(10), dao_configuration()).build();
    assert_eq!(c.convert_to_fiat(b(10)), Err(Error::FiatRateNotSet));
    let c = ConfigurationBuilder::with_dao_configuration(b(10), dao_configuration())
        .set_is_bid_escrow(true, b(4))
        .build();
    assert_eq!(c.convert_to_fiat(b(10)), Ok(b(2)));
    assert!(c.is_post_job_dos_fee_too_low(b(9)));
    assert!(!c.is_post_job_dos_fee_too_low(b(10)));
    let zero = ConfigurationBuilder::with_dao_configuration(b(10), dao_configuration())
        .set_is_bid_escrow(true, b(0))
        .build();
    assert_eq!(zero.convert_to_fiat(b(10)), Err(Error::ArithmeticOverflow));
}

#[test]
fn a_passed_voting_can_bind_a_ballot() {
    let c = ConfigurationBuilder::with_dao_configuration(b(10), dao_configuration())
        .bind_ballot_for_successful_voting(a(7))
        .only_va_can_create(false)
        .build();
    assert!(c.should_bind_ballot_for_successful_voting());
    assert_eq!(c.get_unbound_ballot_address(), Some(a(7)));
    assert!(!c.only_va_can_create());
    assert_eq!(c.cancel_finished_voting_timeout(), 3);
    assert_eq!(c.bid_escrow_wallet_address(), a(101));
    assert_eq!(c.voting_ids_address(), a(102));
    assert_eq!(c.total_onboarded(), b(10));
}
