//! Reputation staked in votings and bids.

use vstd::prelude::*;

use crate::address_map::{amount_of, amounts, get0, AddressMap};
use crate::core_contracts::reputation::balances::BalanceStorage;
use crate::errors::Error;
use crate::modules::access_control::AccessControl;
use crate::types::{Address, Balance};
use crate::u256::U256;

verus! {

/// The stakes of the voters.
#[derive(Debug)]
pub struct StakesStorage {
    pub stake: AddressMap<Balance>,
}

/// Unstakes in order; the first zero unstake or unstake of more than is
/// staked is an error.
pub open spec fn apply_unstakes(m: Map<Address, nat>, stakes: Seq<(Address, Balance)>) -> Result<
    Map<Address, nat>,
    Error,
>
    decreases stakes.len(),
{
    if stakes.len() == 0 {
        Ok(m)
    } else if stakes[0].1.value() == 0 {
        Err(Error::ZeroStake)
    } else if get0(m, stakes[0].0) < stakes[0].1.value() {
        Err(Error::CannotUnstakeMoreThanStaked)
    } else {
        apply_unstakes(
            m.insert(stakes[0].0, (get0(m, stakes[0].0) - stakes[0].1.value()) as nat),
            stakes.drop_first(),
        )
    }
}

impl StakesStorage {
    /// The stake of an address.
    pub open spec fn spec_stake_of(&self, a: Address) -> nat {
        amount_of(self.stake.view(), a)
    }

    /// No stakes.
    pub fn new() -> (r: StakesStorage)
        ensures
            r.stake.wf(),
            r.stake.view() == Map::<Address, Balance>::empty(),
    {
        StakesStorage { stake: AddressMap::new() }
    }

    /// Increases the voter's stake. Only a whitelisted caller may stake; the
    /// stake must not be zero and must not exceed the part of the voter's
    /// reputation that is not staked yet.
    pub fn stake(
        &mut self,
        access_control: &AccessControl,
        reputation: &BalanceStorage,
        caller: Address,
        voter: Address,
        stake: Balance,
    ) -> (r: Result<(), Error>)
        requires
            old(self).stake.wf(),
            access_control.wf(),
            reputation.balances.wf(),
        ensures
            final(self).stake.wf(),
            r == if !access_control.spec_is_whitelisted(caller) {
                Err(Error::NotWhitelisted)
            } else if stake.value() == 0 {
                Err(Error::ZeroStake)
            } else if reputation.spec_balance_of(voter) < old(self).spec_stake_of(voter)
                + stake.value() {
                Err(Error::InsufficientBalance)
            } else {
                Ok::<(), Error>(())
            },
            r is Ok ==> amounts(final(self).stake.view()) == amounts(old(self).stake.view()).insert(
                voter,
                old(self).spec_stake_of(voter) + stake.value(),
            ),
            r is Err ==> final(self).stake.view() == old(self).stake.view(),
    {
        access_control.ensure_whitelisted(caller)?;
        Self::assert_stake(stake)?;
        self.assert_balance(reputation, voter, stake)?;
        self.inc_stake(reputation, voter, stake);
        Ok(())
    }

    /// Decreases the voter's stake. See [`Self::bulk_unstake`].
    pub fn unstake(
        &mut self,
        access_control: &AccessControl,
        caller: Address,
        voter: Address,
        stake: Balance,
    ) -> (r: Result<(), Error>)
        requires
            old(self).stake.wf(),
            access_control.wf(),
        ensures
            final(self).stake.wf(),
            !access_control.spec_is_whitelisted(caller) ==> r == Err::<(), Error>(
                Error::NotWhitelisted,
            ),
            access_control.spec_is_whitelisted(caller) ==> match apply_unstakes(
                amounts(old(self).stake.view()),
                seq![(voter, stake)],
            ) {
                Ok(m) => r is Ok && amounts(final(self).stake.view()) == m,
                Err(e) => r == Err::<(), Error>(e),
            },
            r is Err ==> final(self).stake.view() == old(self).stake.view(),
    {
        let mut stakes: Vec<(Address, Balance)> = Vec::new();
        stakes.push((voter, stake));
        proof {
            assert(stakes@ =~= seq![(voter, stake)]);
        }
        self.bulk_unstake(access_control, caller, &stakes)
    }

    /// Decreases the stakes of many voters, in order. Only a whitelisted
    /// caller may unstake; an unstake must not be zero and must not exceed
    /// the stake.
    pub fn bulk_unstake(
        &mut self,
        access_control: &AccessControl,
        caller: Address,
        stakes: &Vec<(Address, Balance)>,
    ) -> (r: Result<(), Error>)
        requires
            old(self).stake.wf(),
            access_control.wf(),
        ensures
            final(self).stake.wf(),
            !access_control.spec_is_whitelisted(caller) ==> r == Err::<(), Error>(
                Error::NotWhitelisted,
            ),
            access_control.spec_is_whitelisted(caller) ==> match apply_unstakes(
                amounts(old(self).stake.view()),
                stakes@,
            ) {
                Ok(m) => r is Ok && amounts(final(self).stake.view()) == m,
                Err(e) => r == Err::<(), Error>(e),
            },
            r is Err ==> final(self).stake.view() == old(self).stake.view(),
    {
        access_control.ensure_whitelisted(caller)?;
        let work = StakesStorage { stake: self.stake.duplicate() };
        assert(work.stake.view() =~= self.stake.view());
        match Self::apply_unstakes_to(work, stakes) {
            Ok(done) => {
                self.stake = done.stake;
                Ok(())
            },
            Err(e) => Err(e),
        }
    }

    /// Applies unstakes to a copy of the storage.
    fn apply_unstakes_to(start: StakesStorage, stakes: &Vec<(Address, Balance)>) -> (r: Result<
        StakesStorage,
        Error,
    >)
        requires
            start.stake.wf(),
        ensures
            match apply_unstakes(amounts(start.stake.view()), stakes@) {
                Ok(m) => r matches Ok(done) && done.stake.wf() && amounts(done.stake.view()) == m,
                Err(e) => r == Err::<StakesStorage, Error>(e),
            },
    {
        let mut work = start;
        assert(stakes@.subrange(0, stakes@.len() as int) =~= stakes@);
        let mut i: usize = 0;
        while i < stakes.len()
            invariant
                i <= stakes@.len(),
                work.stake.wf(),
                apply_unstakes(amounts(start.stake.view()), stakes@) == apply_unstakes(
                    amounts(work.stake.view()),
                    stakes@.subrange(i as int, stakes@.len() as int),
                ),
            decreases stakes@.len() - i,
        {
            let (voter, stake) = stakes[i];
            let ghost rest = stakes@.subrange(i as int, stakes@.len() as int);
            proof {
                assert(rest[0] == (voter, stake));
                assert(rest.drop_first() =~= stakes@.subrange(i + 1, stakes@.len() as int));
            }
            if stake.is_zero() {
                return Err(Error::ZeroStake);
            }
            let current = work.get_stake(voter);
            let new_value = match current.checked_sub(&stake) {
                Some(v) => v,
                None => {
                    return Err(Error::CannotUnstakeMoreThanStaked);
                },
            };
            let ghost before = amounts(work.stake.view());
            work.stake.set(voter, new_value);
            proof {
                assert(amounts(work.stake.view()) =~= before.insert(
                    voter,
                    (get0(before, voter) - stake.value()) as nat,
                ));
            }
            i += 1;
        }
        proof {
            assert(stakes@.subrange(i as int, stakes@.len() as int) =~= Seq::<(Address, Balance)>::empty());
        }
        Ok(work)
    }

    /// Returns the stake of an address; zero when it never staked.
    pub fn get_stake(&self, address: Address) -> (r: Balance)
        requires
            self.stake.wf(),
        ensures
            r.value() == self.spec_stake_of(address),
    {
        match self.stake.get(address) {
            Some(b) => b,
            None => U256::zero(),
        }
    }

    /// Fails when the part of the reputation that is not staked yet is
    /// smaller than the stake.
    fn assert_balance(&self, reputation: &BalanceStorage, address: Address, stake: Balance) -> (r:
        Result<(), Error>)
        requires
            self.stake.wf(),
            reputation.balances.wf(),
            stake.value() > 0,
        ensures
            r == if reputation.spec_balance_of(address) < self.spec_stake_of(address)
                + stake.value() {
                Err(Error::InsufficientBalance)
            } else {
                Ok::<(), Error>(())
            },
    {
        let user_stake = self.get_stake(address);
        let available_balance = reputation.balance_of(address).saturating_sub(&user_stake);
        if available_balance.lt(&stake) {
            return Err(Error::InsufficientBalance);
        }
        Ok(())
    }

    /// Fails on a zero stake.
    fn assert_stake(stake: Balance) -> (r: Result<(), Error>)
        ensures
            r == if stake.value() == 0 {
                Err(Error::ZeroStake)
            } else {
                Ok::<(), Error>(())
            },
    {
        if stake.is_zero() {
            return Err(Error::ZeroStake);
        }
        Ok(())
    }

    fn inc_stake(&mut self, reputation: &BalanceStorage, account: Address, amount: Balance)
        requires
            old(self).stake.wf(),
            reputation.balances.wf(),
            old(self).spec_stake_of(account) + amount.value() <= reputation.spec_balance_of(
                account,
            ),
        ensures
            final(self).stake.wf(),
            amounts(final(self).stake.view()) == amounts(old(self).stake.view()).insert(
                account,
                old(self).spec_stake_of(account) + amount.value(),
            ),
    {
        proof {
            if reputation.balances.view().contains_key(account) {
                reputation.balances.view()[account].lemma_value_bound();
            }
        }
        let current = self.get_stake(account);
        let new_value = current.checked_add(&amount).unwrap();
        let ghost before = amounts(self.stake.view());
        self.stake.set(account, new_value);
        proof {
            assert(amounts(self.stake.view()) =~= before.insert(
                account,
                old(self).spec_stake_of(account) + amount.value(),
            ));
        }
    }
}

/// Unstaking what was just staked gives every voter back the stake it had.
pub proof fn law_unstake_undoes_stake(m: Map<Address, nat>, voter: Address, stake: Balance)
    requires
        stake.value() > 0,
    ensures
        apply_unstakes(m.insert(voter, get0(m, voter) + stake.value()), seq![(voter, stake)])
            == Ok::<Map<Address, nat>, Error>(m.insert(voter, get0(m, voter))),
{
    reveal_with_fuel(apply_unstakes, 2);
    let staked = m.insert(voter, get0(m, voter) + stake.value());
    let s = seq![(voter, stake)];
    assert(s.drop_first() =~= Seq::<(Address, Balance)>::empty());
    assert(staked.insert(voter, (get0(staked, voter) - stake.value()) as nat) =~= m.insert(
        voter,
        get0(m, voter),
    ));
}

} // verus!
