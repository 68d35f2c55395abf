use dao::configuration::builder::ConfigurationBuilder;
use dao::configuration::dao_configuration::DaoConfiguration;
use dao::configuration::Configuration;
use dao::errors::Error;
use dao::types::Address;
use dao::u256::U256;
use dao::voting::ballot::{Ballot, Choice, ShortenedBallot};
use dao::voting::cspr_redistribution::{redistribute_cspr_to_all_vas, redistribute_to_governance};
use dao::voting::voting_engine::events::Reason;
use dao::voting::voting_engine::{
    add_to_map, BallotBook, SlashEffect, VotingEngine, VotingRecord,
};
use dao::voting::voting_state::{VotingResult, VotingState, VotingType};

fn b(v: u64) -> U256 {
    U256::from_u64(v)
}

fn a(v: u64) -> Address {
    Address::new(v)
}

fn dao_configuration() -> DaoConfiguration {
    DaoConfiguration {
        post_job_dos_fee: b(10000),
        internal_auction_time: 604800000,
        public_auction_time: 864000000,
        default_policing_rate: b(300),
        reputation_conversion_rate: b(100),
        fiat_conversion_rate_address: a(100),
        forum_kyc_required: true,
        bid_escrow_informal_quorum_ratio: b(500),
        bid_escrow_formal_quorum_ratio: b(500),
        informal_quorum_ratio: b(500),
        formal_quorum_ratio: b(500),
        bid_escrow_informal_voting_time: 432000000,
        bid_escrow_formal_voting_time: 432000000,
        informal_voting_time: 432000000,
        formal_voting_time: 432000000,
        informal_stake_reputation: true,
        time_between_informal_and_formal_voting: 86400000,
        va_bid_acceptance_timeout: 172800000,
        va_can_bid_on_public_auction: false,
        distribute_payment_to_non_voters: true,
        bid_escrow_wallet_address: a(101),
        default_reputation_slash: b(100),
        voting_clearness_delta: b(8),
        voting_start_after_job_worker_submission: 259200000,
        bid_escrow_payment_ratio: b(100),
        voting_ids_address: a(102),
        cancel_finished_voting_timeout: 0,
    }
}

fn configuration() -> Configuration {
    ConfigurationBuilder::with_dao_configuration(b(10), dao_configuration()).build()
}

fn ballot(voter: u64, choice: Choice, stake: u64) -> Ballot {
    Ballot::new(a(voter), 1, VotingType::Formal, choice, b(stake), false, false)
}

#[test]
fn choice_is_in_favor_or_against() {
    assert!(Choice::InFavor.is_in_favor());
    assert!(!Choice::InFavor.is_against());
    assert!(Choice::Against.is_against());
    assert!(!Choice::Against.is_in_favor());
}

#[test]
fn shortened_ballot_keeps_voter_and_stake() {
    let s = ShortenedBallot::from(ballot(3, Choice::Against, 7));
    assert_eq!(s.voter, a(3));
    assert_eq!(s.stake, b(7));
}

#[test]
fn a_voter_cannot_vote_twice() {
    let mut engine = VotingEngine::new();
    let _ = created(&mut engine, &configuration());
    let mut book = BallotBook::new();
    let (first, stakes) = engine
        .vote(1, a(2), VotingType::Informal, Choice::InFavor, b(5), 10, VotingState::Informal, &mut book)
        .unwrap();
    assert!(stakes);
    assert_eq!(first.stake, b(5));
    assert_eq!(book.voters_count(), 1);
    assert_eq!(
        engine.vote(1, a(2), VotingType::Informal, Choice::Against, b(5), 10, VotingState::Informal, &mut book).err(),
        Some(Error::CannotVoteTwice)
    );
    assert_eq!(
        engine.vote(1, a(3), VotingType::Formal, Choice::Against, b(5), 10, VotingState::Informal, &mut book).err(),
        Some(Error::VotingWithGivenTypeNotInProgress)
    );
    assert_eq!(
        engine.vote(2, a(3), VotingType::Informal, Choice::Against, b(5), 10, VotingState::Informal, &mut book).err(),
        Some(Error::VotingDoesNotExist)
    );
    assert_eq!(
        engine
            .vote(1, a(3), VotingType::Informal, Choice::InFavor, b(5), 10, VotingState::BetweenVotings, &mut book)
            .err(),
        Some(Error::VotingDuringTimeBetweenVotingsNotAllowed)
    );
    assert_eq!(
        engine
            .vote(1, a(3), VotingType::Informal, Choice::InFavor, b(5), 0, VotingState::Created, &mut book)
            .err(),
        Some(Error::InformalVotingNotStarted)
    );
    assert!(engine.voting_exists(1, VotingType::Informal));
    assert!(!engine.voting_exists(1, VotingType::Formal));
    assert!(!engine.voting_exists(2, VotingType::Informal));
    assert_eq!(book.voters_count(), 1);
    assert_eq!(book.get_voter(0), Some(a(2)));
    assert_eq!(book.get_voter(1), None);
    assert_eq!(book.get_ballot_at(1).err(), Some(Error::VoterDoesNotExist));
    assert_eq!(book.all_voters(), vec![a(2)]);
}

#[test]
fn a_completed_voting_takes_no_votes() {
    let mut engine = VotingEngine::new();
    let _ = created(&mut engine, &configuration());
    engine.finish_voting_without_token_redistribution(1, VotingResult::QuorumNotReached, 10, 5).unwrap();
    let mut book = BallotBook::new();
    assert_eq!(
        engine.vote(1, a(3), VotingType::Informal, Choice::InFavor, b(5), 10, VotingState::Informal, &mut book).err(),
        Some(Error::VoteOnCompletedVotingNotAllowed)
    );
}

#[test]
fn losers_stakes_go_to_winners_in_proportion() {
    let mut book = BallotBook::new();
    book.record_ballot(ballot(1, Choice::InFavor, 30));
    book.record_ballot(ballot(2, Choice::InFavor, 10));
    book.record_ballot(ballot(3, Choice::Against, 20));
    let (mints, burns) = book.redistribute_reputation_of_no_voters(b(40), b(20)).unwrap();
    // 20 * 30 / 40 = 15 and 20 * 10 / 40 = 5: all 20 burned are minted.
    assert_eq!(mints, vec![(a(1), b(15)), (a(2), b(5))]);
    assert_eq!(burns, vec![(a(3), b(20))]);
    let (mints, burns) = book.redistribute_reputation_of_yes_voters(b(40), b(20)).unwrap();
    assert_eq!(mints, vec![(a(3), b(40))]);
    assert_eq!(burns, vec![(a(1), b(30)), (a(2), b(10))]);
}

#[test]
fn redistribution_rounds_down_and_never_mints_more_than_burned() {
    let mut book = BallotBook::new();
    book.record_ballot(ballot(1, Choice::InFavor, 1));
    book.record_ballot(ballot(2, Choice::InFavor, 1));
    book.record_ballot(ballot(3, Choice::InFavor, 1));
    book.record_ballot(ballot(4, Choice::Against, 10));
    let (mints, _) = book.redistribute_reputation_of_no_voters(b(3), b(10)).unwrap();
    assert_eq!(mints, vec![(a(1), b(3)), (a(2), b(3)), (a(3), b(3))]);
}

#[test]
fn redistribution_reports_overflow() {
    let mut book = BallotBook::new();
    let max = U256::from_words([u64::MAX; 4]);
    book.record_ballot(Ballot::new(a(1), 1, VotingType::Formal, Choice::InFavor, max, false, false));
    book.record_ballot(ballot(2, Choice::Against, 2));
    assert_eq!(
        book.redistribute_reputation_of_no_voters(max, b(2)).err(),
        Some(Error::ArithmeticOverflow)
    );
}

#[test]
fn canceled_and_unbound_ballots_do_not_count() {
    let mut book = BallotBook::new();
    book.record_ballot(ballot(1, Choice::InFavor, 5));
    book.record_ballot(Ballot::new(a(2), 1, VotingType::Formal, Choice::InFavor, b(7), true, false));
    book.record_ballot(ballot(3, Choice::Against, 4));
    let canceled = book.cancel_ballot(a(3)).unwrap();
    assert!(!canceled.canceled);
    assert_eq!(book.cancel_ballot(a(9)).map(|b| b.voter), None);
    assert_eq!(book.return_yes_voters_rep(), vec![(a(1), b(5))]);
    assert_eq!(book.return_no_voters_rep(), vec![]);
    assert_eq!(book.unstake_all_reputation(), vec![(a(1), b(5))]);
    assert_eq!(book.total_stake(Choice::InFavor), b(5));
    let bound = book.bound_ballot(a(2)).unwrap();
    assert!(bound.unbound);
    assert_eq!(book.total_stake(Choice::InFavor), b(12));
    assert_eq!(book.bound_ballot(a(9)).err(), Some(Error::BallotDoesNotExist));
}

/// Creates voting 1 of creator 1, whose first ballot stakes 10.
fn created(engine: &mut VotingEngine, config: &Configuration) -> BallotBook {
    engine.create_voting(a(1), b(10), config, true, 1, b(100)).unwrap().informal
}

/// Creates voting 1 and finishes its informal phase in favor: the formal
/// book holds the creator's ballot, in favor, with a stake of 10.
fn in_formal_phase(engine: &mut VotingEngine, config: &Configuration) -> BallotBook {
    let informal = created(engine, config);
    let mut formal = BallotBook::new();
    engine
        .finish_voting(1, VotingType::Informal, VotingResult::InFavor, 10, 5, false, &informal, &mut formal)
        .unwrap();
    formal
}

#[test]
fn finishing_the_informal_phase_returns_stakes_and_recasts_the_creator() {
    let mut engine = VotingEngine::new();
    let mut informal = created(&mut engine, &configuration());
    informal.record_ballot(Ballot::new(a(2), 1, VotingType::Informal, Choice::Against, b(4), false, false));
    let mut formal = BallotBook::new();
    let s = engine
        .finish_voting(1, VotingType::Informal, VotingResult::InFavor, 10, 5, false, &informal, &mut formal)
        .unwrap();
    // the creator's stake stays staked for the formal phase
    assert_eq!(s.unstakes, vec![(a(2), Reason::InformalFinished, b(4))]);
    assert!(s.burns.is_empty());
    let recast = s.recast_ballot.unwrap();
    assert_eq!(recast.voter, a(1));
    assert_eq!(recast.voting_type, VotingType::Formal);
    assert_eq!(recast.stake, b(10));
    assert_eq!(formal.voters_count(), 1);
    assert_eq!(engine.active_votings, vec![1]);
    assert!(!s.perform_action);
    let record = engine.get_voting(1).unwrap();
    assert_eq!(record.voting_type, VotingType::Formal);
    assert!(!record.completed);
    assert_eq!(s.voting, record);
}

#[test]
fn informal_phase_without_quorum_burns_the_creators_stake_and_stops_the_voting() {
    let mut engine = VotingEngine::new();
    let mut informal = created(&mut engine, &configuration());
    informal.record_ballot(Ballot::new(a(2), 1, VotingType::Informal, Choice::Against, b(4), false, false));
    engine.add_to_active_list(2);
    let mut formal = BallotBook::new();
    let s = engine
        .finish_voting(1, VotingType::Informal, VotingResult::QuorumNotReached, 10, 5, false, &informal, &mut formal)
        .unwrap();
    assert!(s.recast_ballot.is_none());
    assert_eq!(s.unstakes, vec![(a(2), Reason::InformalFinished, b(4))]);
    assert_eq!(s.burns, vec![(a(1), Reason::InformalFinished, b(10))]);
    assert_eq!(engine.active_votings, vec![2]);
    assert!(engine.get_voting(1).unwrap().completed);
}

#[test]
fn finishing_refuses_missing_early_wrong_phase_completed_and_canceled_votings() {
    let mut engine = VotingEngine::new();
    let config = configuration();
    let informal = BallotBook::new();
    let mut formal = BallotBook::new();
    assert_eq!(
        engine
            .finish_voting(1, VotingType::Informal, VotingResult::InFavor, 10, 5, false, &informal, &mut formal)
            .err(),
        Some(Error::VotingDoesNotExist)
    );
    engine.votings.push(VotingRecord {
        voting_id: 1,
        creator: a(1),
        voting_type: VotingType::Informal,
        completed: false,
        informal_without_stake: false,
        canceled: false,
    });
    assert_eq!(
        engine
            .finish_voting(1, VotingType::Informal, VotingResult::InFavor, 10, 5, false, &informal, &mut formal)
            .err(),
        Some(Error::ConfigurationNotFound)
    );
    let mut engine = VotingEngine::new();
    let _ = created(&mut engine, &config);
    assert_eq!(
        engine
            .finish_voting(1, VotingType::Formal, VotingResult::InFavor, 10, 5, false, &informal, &mut formal)
            .err(),
        Some(Error::VotingWithGivenTypeNotInProgress)
    );
    assert_eq!(
        engine
            .finish_voting(1, VotingType::Informal, VotingResult::InFavor, 4, 5, false, &informal, &mut formal)
            .err(),
        Some(Error::InformalVotingTimeNotReached)
    );
    assert_eq!(
        engine
            .finish_voting(1, VotingType::Informal, VotingResult::Canceled, 10, 5, false, &informal, &mut formal)
            .err(),
        Some(Error::VotingAlreadyCanceled)
    );
    // the creator has no informal ballot to carry on
    assert_eq!(
        engine
            .finish_voting(1, VotingType::Informal, VotingResult::InFavor, 10, 5, false, &informal, &mut formal)
            .err(),
        Some(Error::BallotDoesNotExist)
    );
    let mut engine = VotingEngine::new();
    let mut formal = in_formal_phase(&mut engine, &config);
    assert_eq!(
        engine
            .finish_voting(1, VotingType::Formal, VotingResult::InFavor, 6, 7, false, &informal, &mut formal)
            .err(),
        Some(Error::FormalVotingTimeNotReached)
    );
    engine
        .finish_voting(1, VotingType::Formal, VotingResult::Against, 7, 7, false, &informal, &mut formal)
        .unwrap();
    assert_eq!(
        engine
            .finish_voting(1, VotingType::Formal, VotingResult::Against, 8, 7, false, &informal, &mut formal)
            .err(),
        Some(Error::FinishingCompletedVotingNotAllowed)
    );
}

#[test]
fn a_passed_formal_voting_rewards_the_voters_in_favor() {
    let mut engine = VotingEngine::new();
    let informal = BallotBook::new();
    let mut formal = in_formal_phase(&mut engine, &configuration());
    formal.record_ballot(ballot(2, Choice::Against, 15));
    formal.record_ballot(ballot(3, Choice::InFavor, 30));
    let s = engine
        .finish_voting(1, VotingType::Formal, VotingResult::InFavor, 10, 5, false, &informal, &mut formal)
        .unwrap();
    assert!(s.perform_action);
    assert_eq!(
        s.unstakes,
        vec![(a(1), Reason::FormalFinished, b(10)), (a(3), Reason::FormalFinished, b(30))]
    );
    assert_eq!(s.burns, vec![(a(2), Reason::FormalLost, b(15))]);
    // 15 * 10 / 40 = 3, 15 * 30 / 40 = 11
    assert_eq!(
        s.mints,
        vec![(a(1), Reason::FormalWon, b(3)), (a(3), Reason::FormalWon, b(11))]
    );
    assert!(engine.active_votings.is_empty());
    assert!(engine.get_voting(1).unwrap().completed);
}

#[test]
fn a_failed_formal_voting_rewards_the_voters_against() {
    let mut engine = VotingEngine::new();
    let informal = BallotBook::new();
    let mut formal = in_formal_phase(&mut engine, &configuration());
    formal.record_ballot(ballot(2, Choice::Against, 15));
    let s = engine
        .finish_voting(1, VotingType::Formal, VotingResult::Against, 10, 5, false, &informal, &mut formal)
        .unwrap();
    assert!(!s.perform_action);
    assert_eq!(s.unstakes, vec![(a(2), Reason::FormalFinished, b(15))]);
    assert_eq!(s.burns, vec![(a(1), Reason::FormalLost, b(10))]);
    assert_eq!(s.mints, vec![(a(2), Reason::FormalWon, b(10))]);
    assert!(engine.get_voting(1).unwrap().completed);
}

#[test]
fn a_formal_voting_without_quorum_returns_the_stakes_and_burns_the_creators() {
    let mut engine = VotingEngine::new();
    let informal = BallotBook::new();
    let mut formal = in_formal_phase(&mut engine, &configuration());
    formal.record_ballot(ballot(2, Choice::Against, 15));
    formal.record_ballot(ballot(3, Choice::InFavor, 30));
    let s = engine
        .finish_voting(1, VotingType::Formal, VotingResult::QuorumNotReached, 10, 5, false, &informal, &mut formal)
        .unwrap();
    assert_eq!(
        s.unstakes,
        vec![(a(3), Reason::FormalFinished, b(30)), (a(2), Reason::FormalFinished, b(15))]
    );
    assert_eq!(s.burns, vec![(a(1), Reason::FormalFinished, b(10))]);
    assert!(s.mints.is_empty());
    assert!(engine.get_voting(1).unwrap().completed);
}

#[test]
fn a_passed_voting_binds_the_configured_ballot() {
    let mut engine = VotingEngine::new();
    let informal = BallotBook::new();
    let config = ConfigurationBuilder::with_dao_configuration(b(10), dao_configuration())
        .bind_ballot_for_successful_voting(a(5))
        .build();
    let mut formal = in_formal_phase(&mut engine, &config);
    formal.record_ballot(Ballot::new(a(5), 1, VotingType::Formal, Choice::InFavor, b(20), true, false));
    formal.record_ballot(ballot(2, Choice::Against, 10));
    let s = engine
        .finish_voting(1, VotingType::Formal, VotingResult::InFavor, 10, 5, false, &informal, &mut formal)
        .unwrap();
    assert!(s.bound_ballot.unwrap().unbound);
    assert_eq!(
        s.unstakes,
        vec![(a(1), Reason::FormalFinished, b(10)), (a(5), Reason::FormalFinished, b(20))]
    );
    // 10 * 10 / 30 = 3, 10 * 20 / 30 = 6
    assert_eq!(
        s.mints,
        vec![(a(1), Reason::FormalWon, b(3)), (a(5), Reason::FormalWon, b(6))]
    );
    assert!(!formal.get_ballot(a(5)).unwrap().unbound);

    let config = ConfigurationBuilder::with_dao_configuration(b(10), dao_configuration())
        .bind_ballot_for_successful_voting(a(9))
        .build();
    let mut engine = VotingEngine::new();
    let mut formal2 = in_formal_phase(&mut engine, &config);
    formal2.record_ballot(ballot(2, Choice::InFavor, 10));
    assert_eq!(
        engine
            .finish_voting(1, VotingType::Formal, VotingResult::InFavor, 10, 5, false, &informal, &mut formal2)
            .err(),
        Some(Error::BallotDoesNotExist)
    );
}

#[test]
fn a_clear_informal_result_can_double_the_time_between_votings() {
    let mut engine = VotingEngine::new();
    let config = configuration();
    let informal = created(&mut engine, &config);
    let mut formal = BallotBook::new();
    engine
        .finish_voting(1, VotingType::Informal, VotingResult::InFavor, 10, 5, true, &informal, &mut formal)
        .unwrap();
    let stored = engine.get_configuration(1).unwrap();
    assert!(stored.should_double_time_between_votings());
    assert_eq!(stored.time_between_informal_and_formal_voting(), 2 * 86400000);
    assert_eq!(engine.get_configuration_or_revert(2).err(), Some(Error::ConfigurationNotFound));
}

#[test]
fn creating_a_voting_casts_the_first_ballot() {
    let mut engine = VotingEngine::new();
    let config = configuration();
    let c = engine.create_voting(a(1), b(10), &config, true, 7, b(10)).unwrap();
    assert_eq!(c.info.voting_id, 7);
    assert_eq!(c.info.stake, Some(b(10)));
    // 500 per-mil of 10 onboarded users
    assert_eq!(c.info.config_informal_quorum, 5);
    assert_eq!(c.info.config_formal_quorum, 5);
    assert_eq!(c.info.config_time_between_informal_and_formal_voting, 86400000);
    assert_eq!(c.first_ballot.unwrap().voter, a(1));
    assert_eq!(c.informal.voters_count(), 1);
    assert_eq!(engine.active_votings, vec![7]);
    let record = engine.get_voting(7).unwrap();
    assert_eq!(record.creator, a(1));
    assert_eq!(record.voting_type, VotingType::Informal);
    assert!(!record.completed);
    assert!(engine.get_configuration(7).is_some());
    assert_eq!(engine.get_voting_or_revert(8).err(), Some(Error::VotingDoesNotExist));
    assert_eq!(
        engine.create_voting(a(2), b(10), &config, false, 8, b(10)).err(),
        Some(Error::NotOnboarded)
    );
    assert_eq!(
        engine.create_voting(a(2), b(10), &config, true, 8, b(9)).err(),
        Some(Error::NotEnoughReputation)
    );
    assert_eq!(engine.active_votings, vec![7]);
    assert!(engine.get_voting(8).is_none());
}

#[test]
fn a_voting_without_informal_stake_needs_no_reputation() {
    let mut engine = VotingEngine::new();
    let mut dao = dao_configuration();
    dao.informal_stake_reputation = false;
    let config = ConfigurationBuilder::with_dao_configuration(b(10), dao).build();
    let c = engine.create_voting(a(1), b(10), &config, true, 3, b(0)).unwrap();
    assert!(!c.stake_first_ballot);
    assert!(engine.get_voting(3).unwrap().informal_without_stake);
}

#[test]
fn slashing_cancels_own_votings_and_withdraws_ballots() {
    let mut engine = VotingEngine::new();
    let config = configuration();
    engine.create_voting(a(9), b(4), &config, true, 1, b(10)).unwrap();
    engine.create_voting(a(1), b(1), &config, true, 2, b(10)).unwrap();
    engine.create_voting(a(1), b(1), &config, true, 3, b(10)).unwrap();
    let mut own = BallotBook::new();
    own.record_ballot(ballot(9, Choice::InFavor, 4));
    own.record_ballot(ballot(2, Choice::Against, 6));
    let mut voted = BallotBook::new();
    voted.record_ballot(ballot(9, Choice::Against, 3));
    let untouched = BallotBook::new();
    let r = engine.slash_voter(a(9), vec![own, voted, untouched]).unwrap();
    assert_eq!(r.canceled, vec![1]);
    assert_eq!(r.affected, vec![2]);
    assert!(matches!(&r.effects[0], SlashEffect::VotingCanceled(u) if u == &vec![(a(9), b(4)), (a(2), b(6))]));
    assert!(matches!(&r.effects[1], SlashEffect::BallotCanceled(x) if x.voter == a(9)));
    assert!(matches!(&r.effects[2], SlashEffect::Untouched));
    assert!(r.books[1].get_ballot(a(9)).unwrap().canceled);
    assert_eq!(engine.active_votings, vec![2, 3]);
    // the voting of the slashed creator is recorded as canceled
    assert!(engine.get_voting(1).unwrap().canceled);
    assert!(!engine.get_voting(2).unwrap().canceled);
    let informal = BallotBook::new();
    let mut formal = BallotBook::new();
    assert_eq!(
        engine
            .finish_voting(1, VotingType::Informal, VotingResult::InFavor, 10, 5, false, &informal, &mut formal)
            .err(),
        Some(Error::VotingAlreadyCanceled)
    );
    // a voting in progress without a record stops the slashing
    engine.add_to_active_list(4);
    let books = vec![BallotBook::new(), BallotBook::new(), BallotBook::new()];
    assert_eq!(engine.slash_voter(a(1), books).err(), Some(Error::VotingDoesNotExist));
    assert_eq!(engine.active_votings, vec![2, 3, 4]);
}

#[test]
fn entries_keep_their_reason() {
    let mut target = Vec::new();
    add_to_map(&mut target, Reason::FormalWon, &vec![(a(1), b(2))]);
    assert_eq!(target, vec![(a(1), Reason::FormalWon, b(2))]);
}

#[test]
fn cspr_is_shared_in_proportion_to_reputation() {
    let balances = vec![(a(1), b(1)), (a(2), b(2)), (a(3), b(3))];
    let r = redistribute_cspr_to_all_vas(b(100), &balances, b(6));
    // 100/6 = 16, 200/6 = 33, 300/6 = 50: 99 of 100 paid out
    assert_eq!(r, vec![(a(1), b(16)), (a(2), b(33)), (a(3), b(50))]);
}

#[test]
fn governance_takes_its_ratio() {
    let s = redistribute_to_governance(b(1000), &configuration()).unwrap();
    assert_eq!(s.wallet, a(101));
    assert_eq!(s.payment, b(100));
    assert_eq!(s.remaining, b(900));
}

#[test]
fn finishing_without_redistribution_only_stops_the_voting() {
    let mut engine = VotingEngine::new();
    let _ = created(&mut engine, &configuration());
    assert_eq!(
        engine.finish_voting_without_token_redistribution(2, VotingResult::InFavor, 10, 5).err(),
        Some(Error::VotingDoesNotExist)
    );
    assert_eq!(
        engine.finish_voting_without_token_redistribution(1, VotingResult::InFavor, 4, 5).err(),
        Some(Error::InformalVotingTimeNotReached)
    );
    let s = engine.finish_voting_without_token_redistribution(1, VotingResult::InFavor, 10, 5).unwrap();
    assert!(!s.perform_action);
    assert_eq!(s.voting_type, VotingType::Informal);
    assert_eq!(engine.active_votings, vec![1]);
    assert_eq!(engine.get_voting(1).unwrap().voting_type, VotingType::Formal);
    let s = engine.finish_voting_without_token_redistribution(1, VotingResult::InFavor, 10, 5).unwrap();
    assert!(s.perform_action);
    assert!(engine.active_votings.is_empty());
    assert!(engine.get_voting(1).unwrap().completed);
    assert_eq!(
        engine.finish_voting_without_token_redistribution(1, VotingResult::InFavor, 10, 5).err(),
        Some(Error::FinishingCompletedVotingNotAllowed)
    );
}

#[test]
fn every_active_stake_is_on_one_side() {
    let mut book = BallotBook::new();
    book.record_ballot(ballot(1, Choice::InFavor, 3));
    book.record_ballot(ballot(2, Choice::Against, 4));
    book.record_ballot(Ballot::new(a(3), 1, VotingType::Formal, Choice::Against, b(9), true, false));
    let sum = |l: Vec<(Address, U256)>| l.iter().fold(0u64, |acc, (_, s)| acc + s.words()[0]);
    assert_eq!(
        sum(book.return_yes_voters_rep()) + sum(book.return_no_voters_rep()),
        sum(book.unstake_all_reputation())
    );
}

#[test]
fn an_unbound_ballot_is_not_staked() {
    let mut engine = VotingEngine::new();
    let mut formal = in_formal_phase(&mut engine, &configuration());
    let record = engine.get_voting(1).unwrap();
    let (ballot, stakes) = engine.cast_ballot(&record, a(4), Choice::InFavor, b(8), true, &mut formal);
    assert!(ballot.unbound);
    assert_eq!(ballot.voting_type, VotingType::Formal);
    assert!(!stakes);
    // only the creator's recast ballot is staked
    assert_eq!(formal.total_stake(Choice::InFavor), b(10));
}

#[test]
fn each_voting_reads_back_its_own_record_and_configuration() {
    let mut engine = VotingEngine::new();
    let config = configuration();
    engine.create_voting(a(1), b(10), &config, true, 1, b(10)).unwrap();
    let binding = ConfigurationBuilder::with_dao_configuration(b(20), dao_configuration())
        .bind_ballot_for_successful_voting(a(5))
        .build();
    engine.create_voting(a(2), b(3), &binding, true, 2, b(3)).unwrap();
    assert_eq!(engine.get_voting(1).unwrap().creator, a(1));
    assert_eq!(engine.get_voting(2).unwrap().creator, a(2));
    assert_eq!(engine.get_configuration(1).unwrap().total_onboarded, b(10));
    let second = engine.get_configuration(2).unwrap();
    assert_eq!(second.total_onboarded, b(20));
    assert_eq!(second.get_unbound_ballot_address(), Some(a(5)));
    assert_eq!(engine.active_votings, vec![1, 2]);
}
