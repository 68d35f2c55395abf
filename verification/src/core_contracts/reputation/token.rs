//! The reputation token contract's state and entry points.

use vstd::prelude::*;

use crate::address_map::amounts;
use crate::core_contracts::reputation::balances::{minted, BalanceStorage};
use crate::u256::u256_max;
use crate::core_contracts::reputation::stakes::StakesStorage;
use crate::errors::Error;
use crate::modules::access_control::AccessControl;
use crate::types::{Address, Balance, BidId};

verus! {

/// The state of the reputation token: real and passive balances, stakes,
/// and the access control they share.
#[derive(Debug)]
pub struct ReputationContract {
    pub reputation_storage: BalanceStorage,
    pub passive_reputation_storage: BalanceStorage,
    pub stakes_storage: StakesStorage,
    pub access_control: AccessControl,
}

impl ReputationContract {
    /// Well-formedness of every part.
    pub open spec fn wf(&self) -> bool {
        &&& self.reputation_storage.wf()
        &&& self.passive_reputation_storage.wf()
        &&& self.stakes_storage.stake.wf()
        &&& self.access_control.wf()
    }

    /// A contract with no tokens, no stakes and no owner.
    pub fn new() -> (r: ReputationContract)
        ensures
            r.wf(),
            r.access_control.owner.owner is None,
            r.access_control.whitelist.members.view() == Map::<Address, bool>::empty(),
            r.reputation_storage.balances.view() == Map::<Address, Balance>::empty(),
            r.reputation_storage.holders@.len() == 0,
            r.reputation_storage.total_supply.total_supply is None,
            r.passive_reputation_storage.balances.view() == Map::<Address, Balance>::empty(),
            r.passive_reputation_storage.holders@.len() == 0,
            r.passive_reputation_storage.total_supply.total_supply is None,
            r.stakes_storage.stake.view() == Map::<Address, Balance>::empty(),
    {
        ReputationContract {
            reputation_storage: BalanceStorage::new(),
            passive_reputation_storage: BalanceStorage::new(),
            stakes_storage: StakesStorage::new(),
            access_control: AccessControl::new(),
        }
    }

    /// Constructor: the deployer owns the contract and is whitelisted.
    pub fn init(&mut self, deployer: Address)
        requires
            old(self).wf(),
        ensures
            final(self).wf(),
            final(self).access_control.owner.owner == Some(deployer),
            final(self).access_control.spec_is_whitelisted(deployer),
            final(self).reputation_storage == old(self).reputation_storage,
            final(self).passive_reputation_storage == old(self).passive_reputation_storage,
            final(self).stakes_storage == old(self).stakes_storage,
    {
        self.access_control.init(deployer);
    }

    /// Increases the passive reputation of `recipient`. Only a whitelisted
    /// caller may call it; a mint that overflows the passive balance or the
    /// passive supply fails. Returns the [Mint] event.
    pub fn mint_passive(&mut self, caller: Address, recipient: Address, amount: Balance) -> (r:
        Result<Mint, Error>)
        requires
            old(self).wf(),
        ensures
            final(self).wf(),
            final(self).reputation_storage == old(self).reputation_storage,
            final(self).stakes_storage == old(self).stakes_storage,
            final(self).access_control == old(self).access_control,
            ({
                let passive = old(self).passive_reputation_storage;
                let whitelisted = old(self).access_control.spec_is_whitelisted(caller);
                let balance_fits = passive.spec_balance_of(recipient) + amount.value()
                    <= u256_max();
                let supply_fits = passive.total_supply.spec_value() + amount.value()
                    <= u256_max();
                &&& !whitelisted ==> r == Err::<Mint, Error>(Error::NotWhitelisted)
                &&& whitelisted && !balance_fits ==> r == Err::<Mint, Error>(
                    Error::ArithmeticOverflow,
                )
                &&& whitelisted && balance_fits && !supply_fits ==> r == Err::<Mint, Error>(
                    Error::TotalSupplyOverflow,
                )
                &&& whitelisted && balance_fits && supply_fits ==> r == Ok::<Mint, Error>(
                    Mint { address: recipient, amount },
                )
            }),
            r is Ok ==> final(self).passive_reputation_storage.spec_balance_of(recipient)
                == old(self).passive_reputation_storage.spec_balance_of(recipient) + amount.value()
                && final(self).passive_reputation_storage.total_supply.spec_value() == old(
                self,
            ).passive_reputation_storage.total_supply.spec_value() + amount.value()
                && amounts(final(self).passive_reputation_storage.balances.view()) == minted(
                amounts(old(self).passive_reputation_storage.balances.view()),
                recipient,
                amount.value(),
            ),
            r is Err ==> final(self).passive_reputation_storage.balances.view() == old(
                self).passive_reputation_storage.balances.view()
                && final(self).passive_reputation_storage.total_supply == old(
                self).passive_reputation_storage.total_supply,
    {
        self.passive_reputation_storage.mint(&self.access_control, caller, recipient, amount)
    }

    /// Decreases the passive reputation of `owner`. Only a whitelisted
    /// caller may call it; fails when the passive balance is smaller.
    /// Returns the [Burn] event.
    pub fn burn_passive(&mut self, caller: Address, owner: Address, amount: Balance) -> (r: Result<
        Burn,
        Error,
    >)
        requires
            old(self).wf(),
        ensures
            final(self).wf(),
            final(self).reputation_storage == old(self).reputation_storage,
            final(self).stakes_storage == old(self).stakes_storage,
            final(self).access_control == old(self).access_control,
            !old(self).access_control.spec_is_whitelisted(caller) ==> r == Err::<Burn, Error>(
                Error::NotWhitelisted,
            ),
            old(self).access_control.spec_is_whitelisted(caller)
                && old(self).passive_reputation_storage.spec_balance_of(owner) < amount.value()
                ==> r == Err::<Burn, Error>(Error::InsufficientBalance),
            old(self).access_control.spec_is_whitelisted(caller)
                && old(self).passive_reputation_storage.spec_balance_of(owner) >= amount.value()
                ==> r == Ok::<Burn, Error>(Burn { address: owner, amount }),
            r is Ok ==> final(self).passive_reputation_storage.spec_balance_of(owner) == old(
                self).passive_reputation_storage.spec_balance_of(owner) - amount.value()
                && final(self).passive_reputation_storage.total_supply.spec_value() == old(
                self,
            ).passive_reputation_storage.total_supply.spec_value() - amount.value()
                && amounts(final(self).passive_reputation_storage.balances.view()) == amounts(
                old(self).passive_reputation_storage.balances.view(),
            ).insert(
                owner,
                (old(self).passive_reputation_storage.spec_balance_of(owner) - amount.value()) as nat,
            ),
            r is Err ==> final(self).passive_reputation_storage.balances.view() == old(
                self).passive_reputation_storage.balances.view()
                && final(self).passive_reputation_storage.total_supply == old(
                self).passive_reputation_storage.total_supply,
    {
        self.passive_reputation_storage.burn(&self.access_control, caller, owner, amount)
    }

    /// Returns the passive balance of an address.
    pub fn passive_balance_of(&self, address: Address) -> (r: Balance)
        requires
            self.wf(),
        ensures
            r.value() == self.passive_reputation_storage.spec_balance_of(address),
    {
        self.passive_reputation_storage.balance_of(address)
    }
}

/// Informs tokens have been burnt.
#[derive(Clone, Copy, Debug, PartialEq, Eq)]
pub struct Burn {
    pub address: Address,
    pub amount: Balance,
}

/// Informs tokens have been minted.
#[derive(Clone, Copy, Debug, PartialEq, Eq)]
pub struct Mint {
    pub address: Address,
    pub amount: Balance,
}

/// Informs tokens have been staked.
#[derive(Clone, Copy, Debug)]
pub struct Stake {
    pub worker: Address,
    pub amount: Balance,
    pub bid_id: BidId,
}

/// Informs tokens have been unstaked.
#[derive(Clone, Copy, Debug)]
pub struct Unstake {
    pub worker: Address,
    pub amount: Balance,
    pub bid_id: BidId,
}

} // verus!
