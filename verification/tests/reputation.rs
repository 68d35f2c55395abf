use dao::core_contracts::reputation::agg::BalanceAggregates;
use dao::core_contracts::reputation::token::{Burn, Mint, ReputationContract};
use dao::errors::Error;
use dao::modules::access_control::AccessControl;
use dao::types::Address;
use dao::u256::U256;

fn a(v: u64) -> Address {
    Address::new(v)
}

fn b(v: u64) -> U256 {
    U256::from_u64(v)
}

fn contract() -> ReputationContract {
    let mut c = ReputationContract::new();
    c.init(a(1));
    c
}

#[test]
fn minting_and_burning_keep_the_total_supply() {
    let mut c = contract();
    let ac = &c.access_control;
    c.reputation_storage.mint(ac, a(1), a(5), b(100)).unwrap();
    c.reputation_storage.mint(ac, a(1), a(6), b(50)).unwrap();
    assert_eq!(c.reputation_storage.total_supply(), b(150));
    c.reputation_storage.burn(ac, a(1), a(5), b(30)).unwrap();
    assert_eq!(c.reputation_storage.balance_of(a(5)), b(70));
    assert_eq!(c.reputation_storage.total_supply(), b(120));
    assert_eq!(
        c.reputation_storage.burn(ac, a(1), a(5), b(71)),
        Err(Error::InsufficientBalance)
    );
    assert_eq!(c.reputation_storage.mint(ac, a(9), a(5), b(1)), Err(Error::NotWhitelisted));
    c.reputation_storage.burn_all(ac, a(1), a(6)).unwrap();
    assert_eq!(c.reputation_storage.total_supply(), b(70));
    assert_eq!(c.reputation_storage.holders(), &vec![a(5), a(6)]);
}

#[test]
fn bulk_mint_burn_applies_both_lists() {
    let mut c = contract();
    let ac = &c.access_control;
    c.reputation_storage.mint(ac, a(1), a(5), b(100)).unwrap();
    c.reputation_storage
        .bulk_mint_burn(ac, a(1), &vec![(a(6), b(10))], &vec![(a(5), b(10))])
        .unwrap();
    assert_eq!(c.reputation_storage.balance_of(a(5)), b(90));
    assert_eq!(c.reputation_storage.balance_of(a(6)), b(10));
    assert_eq!(c.reputation_storage.total_supply(), b(100));
}

#[test]
fn a_stake_cannot_exceed_the_free_reputation_and_unstaking_undoes_it() {
    let mut c = contract();
    let ac = &c.access_control;
    c.reputation_storage.mint(ac, a(1), a(5), b(100)).unwrap();
    assert_eq!(
        c.stakes_storage.stake(ac, &c.reputation_storage, a(1), a(5), b(0)),
        Err(Error::ZeroStake)
    );
    c.stakes_storage.stake(ac, &c.reputation_storage, a(1), a(5), b(60)).unwrap();
    assert_eq!(
        c.stakes_storage.stake(ac, &c.reputation_storage, a(1), a(5), b(41)),
        Err(Error::InsufficientBalance)
    );
    assert_eq!(c.stakes_storage.get_stake(a(5)), b(60));
    c.stakes_storage.unstake(ac, a(1), a(5), b(60)).unwrap();
    assert_eq!(c.stakes_storage.get_stake(a(5)), b(0));
    assert_eq!(
        c.stakes_storage.unstake(ac, a(1), a(5), b(1)),
        Err(Error::CannotUnstakeMoreThanStaked)
    );
}

#[test]
fn passive_reputation_is_separate() {
    let mut c = contract();
    c.mint_passive(a(1), a(5), b(7)).unwrap();
    assert_eq!(c.passive_balance_of(a(5)), b(7));
    assert_eq!(c.reputation_storage.balance_of(a(5)), b(0));
    assert_eq!(c.burn_passive(a(1), a(5), b(8)), Err(Error::InsufficientBalance));
    assert_eq!(c.burn_passive(a(2), a(5), b(1)), Err(Error::NotWhitelisted));
}

#[test]
fn aggregates_sum_the_balances() {
    let mut c = contract();
    let ac = &c.access_control;
    c.reputation_storage.mint(ac, a(1), a(5), b(100)).unwrap();
    c.reputation_storage.mint(ac, a(1), a(6), b(50)).unwrap();
    let all = BalanceAggregates::all_balances(&c.reputation_storage);
    assert_eq!(all.total_supply(), b(150));
    let part = BalanceAggregates::partial_balances(&c.reputation_storage, &vec![a(6), a(6)]);
    assert_eq!(part.total_supply(), b(100));
}

#[test]
fn only_the_owner_changes_the_whitelist() {
    let mut ac = AccessControl::new();
    ac.init(a(1));
    assert!(ac.is_whitelisted(a(1)));
    assert_eq!(ac.get_owner(), Some(a(1)));
    assert_eq!(ac.add_to_whitelist(a(2), a(3)), Err(Error::NotAnOwner));
    ac.add_to_whitelist(a(1), a(3)).unwrap();
    assert!(ac.is_whitelisted(a(3)));
    assert_eq!(ac.ensure_whitelisted(a(3)), Ok(()));
    ac.remove_from_whitelist(a(1), a(3)).unwrap();
    assert_eq!(ac.ensure_whitelisted(a(3)), Err(Error::NotWhitelisted));
    ac.change_ownership(a(1), a(4)).unwrap();
    assert_eq!(ac.get_owner(), Some(a(4)));
    assert!(ac.is_whitelisted(a(4)));
}

#[test]
fn mint_and_burn_tell_what_they_did() {
    let mut c = contract();
    let ac = &c.access_control;
    let m = c.reputation_storage.mint(ac, a(1), a(5), b(100)).unwrap();
    assert_eq!(m, Mint { address: a(5), amount: b(100) });
    let e = c.reputation_storage.burn(ac, a(1), a(5), b(40)).unwrap();
    assert_eq!(e, Burn { address: a(5), amount: b(40) });
    let all = c.reputation_storage.burn_all(ac, a(1), a(5)).unwrap();
    assert_eq!(all, Burn { address: a(5), amount: b(60) });
    let p = c.mint_passive(a(1), a(7), b(3)).unwrap();
    assert_eq!(p, Mint { address: a(7), amount: b(3) });
    assert_eq!(c.burn_passive(a(1), a(7), b(3)), Ok(Burn { address: a(7), amount: b(3) }));
}

#[test]
fn a_mint_past_the_largest_number_fails() {
    let mut c = contract();
    let ac = &c.access_control;
    let max = U256::from_words([u64::MAX; 4]);
    c.reputation_storage.mint(ac, a(1), a(5), max).unwrap();
    assert_eq!(c.reputation_storage.mint(ac, a(1), a(5), b(1)), Err(Error::ArithmeticOverflow));
    assert_eq!(c.reputation_storage.mint(ac, a(1), a(6), b(1)), Err(Error::TotalSupplyOverflow));
    assert_eq!(c.reputation_storage.balance_of(a(6)), b(0));
    assert_eq!(c.mint_passive(a(1), a(6), max), Ok(Mint { address: a(6), amount: max }));
    assert_eq!(c.mint_passive(a(1), a(6), b(1)), Err(Error::ArithmeticOverflow));
}

#[test]
fn bulk_mint_burn_fails_on_an_uncovered_burn_and_changes_nothing() {
    let mut c = contract();
    let ac = &c.access_control;
    c.reputation_storage.mint(ac, a(1), a(5), b(10)).unwrap();
    // the mint to 5 covers the burn of 15
    c.reputation_storage
        .bulk_mint_burn(ac, a(1), &vec![(a(5), b(5))], &vec![(a(5), b(15))])
        .unwrap();
    assert_eq!(c.reputation_storage.balance_of(a(5)), b(0));
    assert_eq!(
        c.reputation_storage.bulk_mint_burn(ac, a(1), &vec![(a(6), b(5))], &vec![(a(5), b(1))]),
        Err(Error::InsufficientBalance)
    );
    assert_eq!(c.reputation_storage.balance_of(a(6)), b(0));
    assert_eq!(c.reputation_storage.total_supply(), b(0));
    assert_eq!(
        c.reputation_storage.bulk_mint_burn(ac, a(9), &vec![], &vec![]),
        Err(Error::NotWhitelisted)
    );
}
