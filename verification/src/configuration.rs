//! System configuration.
//!
//! A configuration is a mix of governance variables and voting settings.
//! Once a voting is created, it relies on the configuration taken at that
//! moment until it ends.

pub mod builder;
pub mod dao_configuration;
pub mod voting_configuration;

use vstd::prelude::*;

use crate::errors::Error;
use crate::math::{per_mil_of, per_mil_of_as_u32, spec_per_mil_of, to_per_mils};
use crate::types::{Address, Balance, BlockTime};
use dao_configuration::DaoConfiguration;
use voting_configuration::{ContractCall, VotingConfiguration};

verus! {

/// The outcome of applying a per-mil ratio: the value, or an arithmetic
/// overflow.
pub open spec fn per_mil_result(number: nat, ratio: nat) -> Result<nat, Error> {
    match spec_per_mil_of(number, ratio) {
        Some(v) => Ok(v),
        None => Err(Error::ArithmeticOverflow),
    }
}

/// The outcome of a quorum computation: a `u32`, or an arithmetic overflow.
pub open spec fn quorum_result(ratio: nat, total_onboarded: nat) -> Result<u32, Error> {
    match spec_per_mil_of(ratio, total_onboarded) {
        Some(v) => if v <= u32::MAX {
            Ok(v as u32)
        } else {
            Err(Error::ArithmeticOverflow)
        },
        None => Err(Error::ArithmeticOverflow),
    }
}

/// Represents the current system configuration.
#[derive(Debug)]
pub struct Configuration {
    pub dao_configuration: DaoConfiguration,
    pub voting_configuration: VotingConfiguration,
    pub total_onboarded: Balance,
    pub fiat_rate: Option<Balance>,
}

impl Clone for Configuration {
    fn clone(&self) -> (r: Configuration)
        ensures
            r.same_as(self),
    {
        Configuration {
            dao_configuration: self.dao_configuration,
            voting_configuration: self.voting_configuration.clone(),
            total_onboarded: self.total_onboarded,
            fiat_rate: self.fiat_rate,
        }
    }
}

impl Configuration {
    /// Both configurations hold the same values.
    pub open spec fn same_as(&self, other: &Configuration) -> bool {
        &&& self.dao_configuration == other.dao_configuration
        &&& self.voting_configuration.same_as(&other.voting_configuration)
        &&& self.total_onboarded == other.total_onboarded
        &&& self.fiat_rate == other.fiat_rate
    }

    /// The time between the informal and the formal voting.
    pub open spec fn spec_time_between_votings(&self) -> nat {
        if self.voting_configuration.double_time_between_votings {
            (self.dao_configuration.time_between_informal_and_formal_voting * 2) as nat
        } else {
            self.dao_configuration.time_between_informal_and_formal_voting as nat
        }
    }

    pub fn set_bind_ballot_for_successful_voting(&mut self, value: bool)
        ensures
            final(self).voting_configuration == (VotingConfiguration {
                bind_ballot_for_successful_voting: value,
                ..old(self).voting_configuration
            }),
            final(self).dao_configuration == old(self).dao_configuration,
            final(self).total_onboarded == old(self).total_onboarded,
            final(self).fiat_rate == old(self).fiat_rate,
    {
        self.voting_configuration.set_bind_ballot_for_successful_voting(value);
    }

    pub fn set_unbound_ballot_address(&mut self, value: Option<Address>)
        ensures
            final(self).voting_configuration == (VotingConfiguration {
                unbound_ballot_address: value,
                ..old(self).voting_configuration
            }),
            final(self).dao_configuration == old(self).dao_configuration,
            final(self).total_onboarded == old(self).total_onboarded,
            final(self).fiat_rate == old(self).fiat_rate,
    {
        self.voting_configuration.set_unbound_ballot_address(value);
    }

    pub fn set_is_bid_escrow(&mut self, value: bool)
        ensures
            final(self).voting_configuration == (VotingConfiguration {
                is_bid_escrow: value,
                ..old(self).voting_configuration
            }),
            final(self).dao_configuration == old(self).dao_configuration,
            final(self).total_onboarded == old(self).total_onboarded,
            final(self).fiat_rate == old(self).fiat_rate,
    {
        self.voting_configuration.set_is_bid_escrow(value);
    }

    pub fn set_only_va_can_create(&mut self, value: bool)
        ensures
            final(self).voting_configuration == (VotingConfiguration {
                only_va_can_create: value,
                ..old(self).voting_configuration
            }),
            final(self).dao_configuration == old(self).dao_configuration,
            final(self).total_onboarded == old(self).total_onboarded,
            final(self).fiat_rate == old(self).fiat_rate,
    {
        self.voting_configuration.set_only_va_can_create(value);
    }

    pub fn set_contract_calls(&mut self, value: Vec<ContractCall>)
        ensures
            final(self).voting_configuration == (VotingConfiguration {
                contract_calls: value,
                ..old(self).voting_configuration
            }),
            final(self).dao_configuration == old(self).dao_configuration,
            final(self).total_onboarded == old(self).total_onboarded,
            final(self).fiat_rate == old(self).fiat_rate,
    {
        self.voting_configuration.set_contract_calls(value);
    }

    /// Indicates if the creator's ballot should be bound when the voting ends.
    pub fn should_bind_ballot_for_successful_voting(&self) -> (r: bool)
        ensures
            r == self.voting_configuration.bind_ballot_for_successful_voting,
    {
        self.voting_configuration.should_bind_ballot_for_successful_voting()
    }

    /// Gets the address of the user who cast an unbound ballot.
    pub fn get_unbound_ballot_address(&self) -> (r: Option<Address>)
        ensures
            r == self.voting_configuration.unbound_ballot_address,
    {
        self.voting_configuration.get_unbound_ballot_address()
    }

    pub fn new(
        dao_configuration: DaoConfiguration,
        voting_configuration: VotingConfiguration,
        total_onboarded: Balance,
    ) -> (r: Configuration)
        ensures
            r == (Configuration {
                dao_configuration,
                voting_configuration,
                total_onboarded,
                fiat_rate: None,
            }),
    {
        Configuration { dao_configuration, voting_configuration, total_onboarded, fiat_rate: None }
    }

    pub fn set_fiat_rate(&mut self, fiat_rate: Option<Balance>)
        ensures
            *final(self) == (Configuration { fiat_rate, ..*old(self) }),
    {
        self.fiat_rate = fiat_rate;
    }

    /// Sets the flag `bind_ballot_for_successful_voting` and the address of the voter.
    pub fn bind_ballot_for_successful_voting(&mut self, address: Address)
        ensures
            final(self).voting_configuration == (VotingConfiguration {
                bind_ballot_for_successful_voting: true,
                unbound_ballot_address: Some(address),
                ..old(self).voting_configuration
            }),
            final(self).dao_configuration == old(self).dao_configuration,
            final(self).total_onboarded == old(self).total_onboarded,
            final(self).fiat_rate == old(self).fiat_rate,
    {
        self.voting_configuration.bind_ballot_for_successful_voting = true;
        self.voting_configuration.unbound_ballot_address = Some(address);
    }

    /// Sets the flag `double_time_between_votings`.
    pub fn double_time_between_votings(&mut self)
        ensures
            final(self).voting_configuration == (VotingConfiguration {
                double_time_between_votings: true,
                ..old(self).voting_configuration
            }),
            final(self).dao_configuration == old(self).dao_configuration,
            final(self).total_onboarded == old(self).total_onboarded,
            final(self).fiat_rate == old(self).fiat_rate,
    {
        self.voting_configuration.double_time_between_votings = true;
    }

    /// Indicates if the time between informal and formal voting should be doubled.
    pub fn should_double_time_between_votings(&self) -> (r: bool)
        ensures
            r == self.voting_configuration.double_time_between_votings,
    {
        self.voting_configuration.double_time_between_votings
    }

    /// Gets the address of the contract holding the current fiat conversion rate.
    pub fn fiat_conversion_rate_address(&self) -> (r: Address)
        ensures
            r == self.dao_configuration.fiat_conversion_rate_address,
    {
        self.dao_configuration.fiat_conversion_rate_address
    }

    /// The quorum ratio of a formal voting of this kind.
    pub open spec fn spec_formal_quorum_ratio(&self) -> Balance {
        if self.voting_configuration.is_bid_escrow {
            self.dao_configuration.bid_escrow_formal_quorum_ratio
        } else {
            self.dao_configuration.formal_quorum_ratio
        }
    }

    /// The quorum ratio of an informal voting of this kind.
    pub open spec fn spec_informal_quorum_ratio(&self) -> Balance {
        if self.voting_configuration.is_bid_escrow {
            self.dao_configuration.bid_escrow_informal_quorum_ratio
        } else {
            self.dao_configuration.informal_quorum_ratio
        }
    }

    /// Gets the formal voting quorum: the per-mil of the number of onboarded
    /// users given by the formal quorum ratio.
    pub fn formal_voting_quorum(&self) -> (r: Result<u32, Error>)
        ensures
            r == quorum_result(
                self.spec_formal_quorum_ratio().value(),
                self.total_onboarded.value(),
            ),
    {
        let ratio = if self.voting_configuration.is_bid_escrow {
            self.dao_configuration.bid_escrow_formal_quorum_ratio
        } else {
            self.dao_configuration.formal_quorum_ratio
        };
        per_mil_of_as_u32(ratio, self.total_onboarded)
    }

    /// Gets the informal voting quorum: the per-mil of the number of onboarded
    /// users given by the informal quorum ratio.
    pub fn informal_voting_quorum(&self) -> (r: Result<u32, Error>)
        ensures
            r == quorum_result(
                self.spec_informal_quorum_ratio().value(),
                self.total_onboarded.value(),
            ),
    {
        let ratio = if self.voting_configuration.is_bid_escrow {
            self.dao_configuration.bid_escrow_informal_quorum_ratio
        } else {
            self.dao_configuration.informal_quorum_ratio
        };
        per_mil_of_as_u32(ratio, self.total_onboarded)
    }

    /// Gets the informal voting time.
    pub fn informal_voting_time(&self) -> (r: BlockTime)
        ensures
            r == if self.voting_configuration.is_bid_escrow {
                self.dao_configuration.bid_escrow_informal_voting_time
            } else {
                self.dao_configuration.informal_voting_time
            },
    {
        if self.voting_configuration.is_bid_escrow {
            self.dao_configuration.bid_escrow_informal_voting_time
        } else {
            self.dao_configuration.informal_voting_time
        }
    }

    /// Gets the formal voting time.
    pub fn formal_voting_time(&self) -> (r: BlockTime)
        ensures
            r == if self.voting_configuration.is_bid_escrow {
                self.dao_configuration.bid_escrow_formal_voting_time
            } else {
                self.dao_configuration.formal_voting_time
            },
    {
        if self.voting_configuration.is_bid_escrow {
            self.dao_configuration.bid_escrow_formal_voting_time
        } else {
            self.dao_configuration.formal_voting_time
        }
    }

    /// Indicates if the informal voting stakes reputation.
    pub fn informal_stake_reputation(&self) -> (r: bool)
        ensures
            r == self.dao_configuration.informal_stake_reputation,
    {
        self.dao_configuration.informal_stake_reputation
    }

    /// Gets the time between informal and formal voting: the configured time,
    /// doubled when the doubling flag is set.
    pub fn time_between_informal_and_formal_voting(&self) -> (r: BlockTime)
        requires
            self.spec_time_between_votings() <= u64::MAX,
        ensures
            r == self.spec_time_between_votings(),
    {
        if self.voting_configuration.double_time_between_votings {
            self.dao_configuration.time_between_informal_and_formal_voting * 2
        } else {
            self.dao_configuration.time_between_informal_and_formal_voting
        }
    }

    /// Gets the address of the multisig wallet of the DAO.
    pub fn bid_escrow_wallet_address(&self) -> (r: Address)
        ensures
            r == self.dao_configuration.bid_escrow_wallet_address,
    {
        self.dao_configuration.bid_escrow_wallet_address
    }

    /// Gets the default reputation slash ratio.
    pub fn default_reputation_slash(&self) -> (r: Balance)
        ensures
            r == self.dao_configuration.default_reputation_slash,
    {
        self.dao_configuration.default_reputation_slash
    }

    /// Gets the voting clearness delta.
    pub fn voting_clearness_delta(&self) -> (r: Balance)
        ensures
            r == self.dao_configuration.voting_clearness_delta,
    {
        self.dao_configuration.voting_clearness_delta
    }

    /// Gets the time between voting creation and the actual voting start:
    /// a bid escrow voting waits for the configured delay, any other voting
    /// starts at once.
    pub fn voting_delay(&self) -> (r: BlockTime)
        ensures
            r == if self.voting_configuration.is_bid_escrow {
                self.dao_configuration.voting_start_after_job_worker_submission
            } else {
                0
            },
    {
        if self.voting_configuration.is_bid_escrow {
            self.dao_configuration.voting_start_after_job_worker_submission
        } else {
            0
        }
    }

    /// Gets the time after which a finished voting can be cancelled.
    pub fn cancel_finished_voting_timeout(&self) -> (r: BlockTime)
        ensures
            r == self.dao_configuration.cancel_finished_voting_timeout,
    {
        self.dao_configuration.cancel_finished_voting_timeout
    }

    /// Indicates if the attached DOS fee is too low: the per-mil of the
    /// configured fee exceeds the given fiat value.
    pub fn is_post_job_dos_fee_too_low(&self, fiat_value: Balance) -> (r: bool)
        ensures
            r == (self.dao_configuration.post_job_dos_fee.value() / 1000 > fiat_value.value()),
    {
        fiat_value.lt(&to_per_mils(self.dao_configuration.post_job_dos_fee))
    }

    /// Gets the time of an internal auction.
    pub fn internal_auction_time(&self) -> (r: BlockTime)
        ensures
            r == self.dao_configuration.internal_auction_time,
    {
        self.dao_configuration.internal_auction_time
    }

    /// Gets the time of a public auction.
    pub fn public_auction_time(&self) -> (r: BlockTime)
        ensures
            r == self.dao_configuration.public_auction_time,
    {
        self.dao_configuration.public_auction_time
    }

    /// Gets the bid acceptance timeout.
    pub fn va_bid_acceptance_timeout(&self) -> (r: BlockTime)
        ensures
            r == self.dao_configuration.va_bid_acceptance_timeout,
    {
        self.dao_configuration.va_bid_acceptance_timeout
    }

    /// Indicates if a VA can bid on a public auction.
    pub fn va_can_bid_on_public_auction(&self) -> (r: bool)
        ensures
            r == self.dao_configuration.va_can_bid_on_public_auction,
    {
        self.dao_configuration.va_can_bid_on_public_auction
    }

    /// Indicates if the payment for a job goes to all VAs or only to the voters.
    pub fn distribute_payment_to_non_voters(&self) -> (r: bool)
        ensures
            r == self.dao_configuration.distribute_payment_to_non_voters,
    {
        self.dao_configuration.distribute_payment_to_non_voters
    }

    /// Returns the number of onboarded users (VAs).
    pub fn total_onboarded(&self) -> (r: Balance)
        ensures
            r == self.total_onboarded,
    {
        self.total_onboarded
    }

    /// Returns the calls to be performed once the voting passes.
    pub fn contract_calls(&self) -> (r: &Vec<ContractCall>)
        ensures
            r == &self.voting_configuration.contract_calls,
    {
        &self.voting_configuration.contract_calls
    }

    /// Indicates only a VA can create a voting.
    pub fn only_va_can_create(&self) -> (r: bool)
        ensures
            r == self.voting_configuration.only_va_can_create,
    {
        self.voting_configuration.only_va_can_create
    }

    /// Indicates if the voting is a bid escrow voting.
    pub fn is_bid_escrow(&self) -> (r: bool)
        ensures
            r == self.voting_configuration.is_bid_escrow,
    {
        self.voting_configuration.is_bid_escrow
    }

    /// Returns the address of the voting id generator contract.
    pub fn voting_ids_address(&self) -> (r: Address)
        ensures
            r == self.dao_configuration.voting_ids_address,
    {
        self.dao_configuration.voting_ids_address
    }

    /// Indicates if the stake of the voting creator becomes its first ballot:
    /// for every voting but a bid escrow one.
    pub fn should_cast_first_vote(&self) -> (r: bool)
        ensures
            r == !self.voting_configuration.is_bid_escrow,
    {
        !self.is_bid_escrow()
    }

    /// Applies the `DefaultPolicingRate` variable to a given amount.
    pub fn apply_default_policing_rate_to(&self, amount: Balance) -> (r: Result<Balance, Error>)
        ensures
            match r {
                Ok(v) => per_mil_result(amount.value(), self.dao_configuration.default_policing_rate.value()) == Ok::<nat, Error>(v.value()),
                Err(e) => per_mil_result(amount.value(), self.dao_configuration.default_policing_rate.value()) == Err::<nat, Error>(e),
            },
    {
        per_mil_of(amount, self.dao_configuration.default_policing_rate)
    }

    /// Applies the `BidEscrowPaymentRatio` variable to a given amount.
    pub fn apply_bid_escrow_payment_ratio_to(&self, amount: Balance) -> (r: Result<Balance, Error>)
        ensures
            match r {
                Ok(v) => per_mil_result(amount.value(), self.dao_configuration.bid_escrow_payment_ratio.value()) == Ok::<nat, Error>(v.value()),
                Err(e) => per_mil_result(amount.value(), self.dao_configuration.bid_escrow_payment_ratio.value()) == Err::<nat, Error>(e),
            },
    {
        per_mil_of(amount, self.dao_configuration.bid_escrow_payment_ratio)
    }

    /// Applies the `ReputationConversionRate` variable to a given amount.
    pub fn apply_reputation_conversion_rate_to(&self, amount: Balance) -> (r: Result<Balance, Error>)
        ensures
            match r {
                Ok(v) => per_mil_result(amount.value(), self.dao_configuration.reputation_conversion_rate.value()) == Ok::<nat, Error>(v.value()),
                Err(e) => per_mil_result(amount.value(), self.dao_configuration.reputation_conversion_rate.value()) == Err::<nat, Error>(e),
            },
    {
        per_mil_of(amount, self.dao_configuration.reputation_conversion_rate)
    }

    /// Applies the `DefaultReputationSlash` variable to a given amount.
    pub fn apply_default_reputation_slash_to(&self, amount: Balance) -> (r: Result<Balance, Error>)
        ensures
            match r {
                Ok(v) => per_mil_result(amount.value(), self.dao_configuration.default_reputation_slash.value()) == Ok::<nat, Error>(v.value()),
                Err(e) => per_mil_result(amount.value(), self.dao_configuration.default_reputation_slash.value()) == Err::<nat, Error>(e),
            },
    {
        per_mil_of(amount, self.dao_configuration.default_reputation_slash)
    }

    /// Gets the current CSPR:Fiat rate.
    pub fn fiat_rate(&self) -> (r: Option<Balance>)
        ensures
            r == self.fiat_rate,
    {
        self.fiat_rate
    }

    /// The value of an amount of CSPR in fiat currency: the amount divided
    /// by the rate; an error when no rate is set, or when the rate is zero.
    pub open spec fn spec_convert_to_fiat(&self, cspr_amount: nat) -> Result<nat, Error> {
        match self.fiat_rate {
            None => Err(Error::FiatRateNotSet),
            Some(rate) => if rate.value() == 0 {
                Err(Error::ArithmeticOverflow)
            } else {
                Ok(cspr_amount / rate.value())
            },
        }
    }

    /// Calculates the value of CSPRs in fiat currency: the amount divided by
    /// the rate. Fails when no rate is set, or when the rate is zero.
    pub fn convert_to_fiat(&self, cspr_amount: Balance) -> (r: Result<Balance, Error>)
        ensures
            match r {
                Ok(v) => self.spec_convert_to_fiat(cspr_amount.value()) == Ok::<nat, Error>(v.value()),
                Err(e) => self.spec_convert_to_fiat(cspr_amount.value()) == Err::<nat, Error>(e),
            },
    {
        match self.fiat_rate {
            Some(fiat_rate) => match cspr_amount.checked_div(&fiat_rate) {
                Some(fiat_amount) => Ok(fiat_amount),
                None => Err(Error::ArithmeticOverflow),
            },
            None => Err(Error::FiatRateNotSet),
        }
    }
}

} // verus!
