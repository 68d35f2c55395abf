//! A utility to create a [Configuration] instance.

use vstd::prelude::*;

use super::dao_configuration::DaoConfiguration;
use super::voting_configuration::{ContractCall, VotingConfiguration};
use super::Configuration;
use crate::errors::Error;
use crate::modules::repository::{address_bytes, balance_bytes, bool_bytes, le_bytes};
use crate::types::{Address, Balance};
use crate::u256::U256;

verus! {

/// The bytes stored under a key in a list of variables: those of the first
/// entry with that key.
pub open spec fn variable_of(variables: Seq<(String, Vec<u8>)>, key: Seq<char>) -> Option<Seq<u8>>
    decreases variables.len(),
{
    if variables.len() == 0 {
        None
    } else if variables[0].0@ == key {
        Some(variables[0].1@)
    } else {
        variable_of(variables.drop_first(), key)
    }
}

/// A number is stored under the key: eight bytes.
pub open spec fn readable_u64(variables: Seq<(String, Vec<u8>)>, key: Seq<char>) -> bool {
    variable_of(variables, key) matches Some(b) && b.len() == 8
}

/// A flag is stored under the key: one byte, 0 or 1.
pub open spec fn readable_bool(variables: Seq<(String, Vec<u8>)>, key: Seq<char>) -> bool {
    variable_of(variables, key) matches Some(b) && b.len() == 1 && b[0] <= 1
}

/// A balance is stored under the key: thirty-two bytes.
pub open spec fn readable_balance(variables: Seq<(String, Vec<u8>)>, key: Seq<char>) -> bool {
    variable_of(variables, key) matches Some(b) && b.len() == 32
}

/// An address is stored under the key: eight bytes.
pub open spec fn readable_address(variables: Seq<(String, Vec<u8>)>, key: Seq<char>) -> bool {
    variable_of(variables, key) matches Some(b) && b.len() == 8
}

/// Every governance variable a configuration needs is stored, in the form
/// of its type.
pub open spec fn all_readable(variables: Seq<(String, Vec<u8>)>) -> bool {
    &&& readable_balance(variables, "PostJobDOSFee"@)
    &&& readable_u64(variables, "InternalAuctionTime"@)
    &&& readable_u64(variables, "PublicAuctionTime"@)
    &&& readable_balance(variables, "DefaultPolicingRate"@)
    &&& readable_balance(variables, "ReputationConversionRate"@)
    &&& readable_address(variables, "FiatConversionRateAddress"@)
    &&& readable_bool(variables, "ForumKYCRequired"@)
    &&& readable_balance(variables, "BidEscrowInformalQuorumRatio"@)
    &&& readable_balance(variables, "BidEscrowFormalQuorumRatio"@)
    &&& readable_u64(variables, "BidEscrowInformalVotingTime"@)
    &&& readable_u64(variables, "BidEscrowFormalVotingTime"@)
    &&& readable_u64(variables, "InformalVotingTime"@)
    &&& readable_u64(variables, "FormalVotingTime"@)
    &&& readable_bool(variables, "InformalStakeReputation"@)
    &&& readable_u64(variables, "TimeBetweenInformalAndFormalVoting"@)
    &&& readable_u64(variables, "VABidAcceptanceTimeout"@)
    &&& readable_bool(variables, "VACanBidOnPublicAuction"@)
    &&& readable_bool(variables, "DistributePaymentToNonVoters"@)
    &&& readable_address(variables, "BidEscrowWalletAddress"@)
    &&& readable_balance(variables, "DefaultReputationSlash"@)
    &&& readable_balance(variables, "VotingClearnessDelta"@)
    &&& readable_u64(variables, "VotingStartAfterJobWorkerSubmission"@)
    &&& readable_balance(variables, "InformalQuorumRatio"@)
    &&& readable_balance(variables, "FormalQuorumRatio"@)
    &&& readable_balance(variables, "BidEscrowPaymentRatio"@)
    &&& readable_address(variables, "VotingIdsAddress"@)
    &&& readable_u64(variables, "CancelFinishedVotingTimeout"@)
}

/// Each governance variable of the configuration is the one stored under
/// its key.
pub open spec fn decoded_from(c: DaoConfiguration, variables: Seq<(String, Vec<u8>)>) -> bool {
    &&& variable_of(variables, "PostJobDOSFee"@) == Some(balance_bytes(c.post_job_dos_fee))
    &&& variable_of(variables, "InternalAuctionTime"@) == Some(le_bytes(c.internal_auction_time as nat, 8))
    &&& variable_of(variables, "PublicAuctionTime"@) == Some(le_bytes(c.public_auction_time as nat, 8))
    &&& variable_of(variables, "DefaultPolicingRate"@) == Some(balance_bytes(c.default_policing_rate))
    &&& variable_of(variables, "ReputationConversionRate"@) == Some(balance_bytes(c.reputation_conversion_rate))
    &&& variable_of(variables, "FiatConversionRateAddress"@) == Some(address_bytes(c.fiat_conversion_rate_address))
    &&& variable_of(variables, "ForumKYCRequired"@) == Some(bool_bytes(c.forum_kyc_required))
    &&& variable_of(variables, "BidEscrowInformalQuorumRatio"@) == Some(balance_bytes(c.bid_escrow_informal_quorum_ratio))
    &&& variable_of(variables, "BidEscrowFormalQuorumRatio"@) == Some(balance_bytes(c.bid_escrow_formal_quorum_ratio))
    &&& variable_of(variables, "BidEscrowInformalVotingTime"@) == Some(le_bytes(c.bid_escrow_informal_voting_time as nat, 8))
    &&& variable_of(variables, "BidEscrowFormalVotingTime"@) == Some(le_bytes(c.bid_escrow_formal_voting_time as nat, 8))
    &&& variable_of(variables, "InformalVotingTime"@) == Some(le_bytes(c.informal_voting_time as nat, 8))
    &&& variable_of(variables, "FormalVotingTime"@) == Some(le_bytes(c.formal_voting_time as nat, 8))
    &&& variable_of(variables, "InformalStakeReputation"@) == Some(bool_bytes(c.informal_stake_reputation))
    &&& variable_of(variables, "TimeBetweenInformalAndFormalVoting"@) == Some(le_bytes(c.time_between_informal_and_formal_voting as nat, 8))
    &&& variable_of(variables, "VABidAcceptanceTimeout"@) == Some(le_bytes(c.va_bid_acceptance_timeout as nat, 8))
    &&& variable_of(variables, "VACanBidOnPublicAuction"@) == Some(bool_bytes(c.va_can_bid_on_public_auction))
    &&& variable_of(variables, "DistributePaymentToNonVoters"@) == Some(bool_bytes(c.distribute_payment_to_non_voters))
    &&& variable_of(variables, "BidEscrowWalletAddress"@) == Some(address_bytes(c.bid_escrow_wallet_address))
    &&& variable_of(variables, "DefaultReputationSlash"@) == Some(balance_bytes(c.default_reputation_slash))
    &&& variable_of(variables, "VotingClearnessDelta"@) == Some(balance_bytes(c.voting_clearness_delta))
    &&& variable_of(variables, "VotingStartAfterJobWorkerSubmission"@) == Some(le_bytes(c.voting_start_after_job_worker_submission as nat, 8))
    &&& variable_of(variables, "InformalQuorumRatio"@) == Some(balance_bytes(c.informal_quorum_ratio))
    &&& variable_of(variables, "FormalQuorumRatio"@) == Some(balance_bytes(c.formal_quorum_ratio))
    &&& variable_of(variables, "BidEscrowPaymentRatio"@) == Some(balance_bytes(c.bid_escrow_payment_ratio))
    &&& variable_of(variables, "VotingIdsAddress"@) == Some(address_bytes(c.voting_ids_address))
    &&& variable_of(variables, "CancelFinishedVotingTimeout"@) == Some(le_bytes(c.cancel_finished_voting_timeout as nat, 8))
}

/// Deserializes a number with the framework's `OdraType::deserialize`,
/// which reads it with borsh; trusted to succeed exactly on eight bytes and
/// to read them least significant first.
#[verifier::external_body]
fn decode_u64(bytes: &Vec<u8>) -> (r: Option<u64>)
    ensures
        r is Some <==> bytes@.len() == 8,
        r matches Some(v) ==> le_bytes(v as nat, 8) == bytes@,
{
    <u64 as odra::types::OdraType>::deserialize(bytes.as_slice())
}

/// Deserializes a flag with the framework's `OdraType::deserialize`
/// (borsh); trusted to succeed exactly on one byte that is 0 or 1.
#[verifier::external_body]
fn decode_bool(bytes: &Vec<u8>) -> (r: Option<bool>)
    ensures
        r is Some <==> (bytes@.len() == 1 && bytes@[0] <= 1),
        r matches Some(v) ==> bool_bytes(v) == bytes@,
{
    <bool as odra::types::OdraType>::deserialize(bytes.as_slice())
}

/// Deserializes a balance with the framework's `OdraType::deserialize`,
/// which reads the four words of its `U256` with borsh; trusted to succeed
/// exactly on thirty-two bytes and to read the words in order, each least
/// significant byte first.
#[verifier::external_body]
fn decode_balance(bytes: &Vec<u8>) -> (r: Option<Balance>)
    ensures
        r is Some <==> bytes@.len() == 32,
        r matches Some(v) ==> balance_bytes(v) == bytes@,
{
    match <odra::types::U256 as odra::types::OdraType>::deserialize(bytes.as_slice()) {
        Some(v) => Some(U256::from_words(v.0)),
        None => None,
    }
}

/// Deserializes an address with the framework's `OdraType::deserialize`,
/// which reads its eight bytes with borsh; trusted to succeed exactly on
/// eight bytes and to keep them as they are.
#[verifier::external_body]
fn decode_address(bytes: &Vec<u8>) -> (r: Option<Address>)
    ensures
        r is Some <==> bytes@.len() == 8,
        r matches Some(a) ==> address_bytes(a) == bytes@,
{
    match <odra::types::Address as odra::types::OdraType>::deserialize(bytes.as_slice()) {
        Some(a) => Some(Address { id: u64::from_be_bytes(a.inner_bytes().try_into().unwrap()) }),
        None => None,
    }
}

/// The bytes stored under a key.
fn find_variable<'a>(variables: &'a Vec<(String, Vec<u8>)>, key: &str) -> (r: Option<&'a Vec<u8>>)
    ensures
        match r {
            Some(b) => variable_of(variables@, key@) == Some(b@),
            None => variable_of(variables@, key@) is None,
        },
{
    let k: String = key.to_owned();
    let mut i: usize = 0;
    assert(variables@.subrange(0, variables@.len() as int) =~= variables@);
    while i < variables.len()
        invariant
            i <= variables@.len(),
            k@ == key@,
            variable_of(variables@, key@) == variable_of(
                variables@.subrange(i as int, variables@.len() as int),
                key@,
            ),
        decreases variables@.len() - i,
    {
        let ghost rest = variables@.subrange(i as int, variables@.len() as int);
        assert(rest[0] == variables@[i as int]);
        if variables[i].0 == k {
            return Some(&variables[i].1);
        }
        assert(rest.drop_first() =~= variables@.subrange(i + 1, variables@.len() as int));
        i += 1;
    }
    None
}

/// The number stored under a key.
fn u64_variable(variables: &Vec<(String, Vec<u8>)>, key: &str) -> (r: Result<u64, Error>)
    ensures
        r is Ok <==> readable_u64(variables@, key@),
        r matches Ok(v) ==> variable_of(variables@, key@) == Some(le_bytes(v as nat, 8)),
        r matches Err(e) ==> e == Error::VariableValueNotSet,
{
    match find_variable(variables, key) {
        Some(b) => match decode_u64(b) {
            Some(v) => Ok(v),
            None => Err(Error::VariableValueNotSet),
        },
        None => Err(Error::VariableValueNotSet),
    }
}

/// The flag stored under a key.
fn bool_variable(variables: &Vec<(String, Vec<u8>)>, key: &str) -> (r: Result<bool, Error>)
    ensures
        r is Ok <==> readable_bool(variables@, key@),
        r matches Ok(v) ==> variable_of(variables@, key@) == Some(bool_bytes(v)),
        r matches Err(e) ==> e == Error::VariableValueNotSet,
{
    match find_variable(variables, key) {
        Some(b) => match decode_bool(b) {
            Some(v) => Ok(v),
            None => Err(Error::VariableValueNotSet),
        },
        None => Err(Error::VariableValueNotSet),
    }
}

/// The balance stored under a key.
fn balance_variable(variables: &Vec<(String, Vec<u8>)>, key: &str) -> (r: Result<Balance, Error>)
    ensures
        r is Ok <==> readable_balance(variables@, key@),
        r matches Ok(v) ==> variable_of(variables@, key@) == Some(balance_bytes(v)),
        r matches Err(e) ==> e == Error::VariableValueNotSet,
{
    match find_variable(variables, key) {
        Some(b) => match decode_balance(b) {
            Some(v) => Ok(v),
            None => Err(Error::VariableValueNotSet),
        },
        None => Err(Error::VariableValueNotSet),
    }
}

/// The address stored under a key.
fn address_variable(variables: &Vec<(String, Vec<u8>)>, key: &str) -> (r: Result<Address, Error>)
    ensures
        r is Ok <==> readable_address(variables@, key@),
        r matches Ok(v) ==> variable_of(variables@, key@) == Some(address_bytes(v)),
        r matches Err(e) ==> e == Error::VariableValueNotSet,
{
    match find_variable(variables, key) {
        Some(b) => match decode_address(b) {
            Some(v) => Ok(v),
            None => Err(Error::VariableValueNotSet),
        },
        None => Err(Error::VariableValueNotSet),
    }
}

/// Builds a [Configuration].
pub struct ConfigurationBuilder {
    pub configuration: Configuration,
}

impl ConfigurationBuilder {
    /// Creates a builder from the governance variables stored in the
    /// variable repository, each read from the bytes under its key, and the
    /// number of onboarded users.
    ///
    /// Fails with [`Error::VariableValueNotSet`] when a variable is missing
    /// or its bytes do not hold a value of its type. The voting starts as a
    /// regular (not bid escrow) voting that only a VA can create, with no
    /// calls, no bound ballot and no doubled time between votings.
    pub fn new(total_onboarded: Balance, variables: &Vec<(String, Vec<u8>)>) -> (r: Result<
        Self,
        Error,
    >)
        ensures
            r is Ok <==> all_readable(variables@),
            r matches Err(e) ==> e == Error::VariableValueNotSet,
            r matches Ok(builder) ==> {
                let c = builder.configuration;
                &&& decoded_from(c.dao_configuration, variables@)
                &&& c.total_onboarded == total_onboarded
                &&& c.fiat_rate is None
                &&& !c.voting_configuration.is_bid_escrow
                &&& !c.voting_configuration.bind_ballot_for_successful_voting
                &&& c.voting_configuration.unbound_ballot_address is None
                &&& c.voting_configuration.contract_calls@.len() == 0
                &&& c.voting_configuration.only_va_can_create
                &&& !c.voting_configuration.double_time_between_votings
            },
    {
        let post_job_dos_fee = balance_variable(variables, "PostJobDOSFee")?;
        let internal_auction_time = u64_variable(variables, "InternalAuctionTime")?;
        let public_auction_time = u64_variable(variables, "PublicAuctionTime")?;
        let default_policing_rate = balance_variable(variables, "DefaultPolicingRate")?;
        let reputation_conversion_rate = balance_variable(variables, "ReputationConversionRate")?;
        let fiat_conversion_rate_address = address_variable(variables, "FiatConversionRateAddress")?;
        let forum_kyc_required = bool_variable(variables, "ForumKYCRequired")?;
        let bid_escrow_informal_quorum_ratio = balance_variable(variables, "BidEscrowInformalQuorumRatio")?;
        let bid_escrow_formal_quorum_ratio = balance_variable(variables, "BidEscrowFormalQuorumRatio")?;
        let bid_escrow_informal_voting_time = u64_variable(variables, "BidEscrowInformalVotingTime")?;
        let bid_escrow_formal_voting_time = u64_variable(variables, "BidEscrowFormalVotingTime")?;
        let informal_voting_time = u64_variable(variables, "InformalVotingTime")?;
        let formal_voting_time = u64_variable(variables, "FormalVotingTime")?;
        let informal_stake_reputation = bool_variable(variables, "InformalStakeReputation")?;
        let time_between_informal_and_formal_voting = u64_variable(variables, "TimeBetweenInformalAndFormalVoting")?;
        let va_bid_acceptance_timeout = u64_variable(variables, "VABidAcceptanceTimeout")?;
        let va_can_bid_on_public_auction = bool_variable(variables, "VACanBidOnPublicAuction")?;
        let distribute_payment_to_non_voters = bool_variable(variables, "DistributePaymentToNonVoters")?;
        let bid_escrow_wallet_address = address_variable(variables, "BidEscrowWalletAddress")?;
        let default_reputation_slash = balance_variable(variables, "DefaultReputationSlash")?;
        let voting_clearness_delta = balance_variable(variables, "VotingClearnessDelta")?;
        let voting_start_after_job_worker_submission = u64_variable(variables, "VotingStartAfterJobWorkerSubmission")?;
        let informal_quorum_ratio = balance_variable(variables, "InformalQuorumRatio")?;
        let formal_quorum_ratio = balance_variable(variables, "FormalQuorumRatio")?;
        let bid_escrow_payment_ratio = balance_variable(variables, "BidEscrowPaymentRatio")?;
        let voting_ids_address = address_variable(variables, "VotingIdsAddress")?;
        let cancel_finished_voting_timeout = u64_variable(variables, "CancelFinishedVotingTimeout")?;
        Ok(
            Self::with_dao_configuration(
                total_onboarded,
                DaoConfiguration {
                    post_job_dos_fee,
                    internal_auction_time,
                    public_auction_time,
                    default_policing_rate,
                    reputation_conversion_rate,
                    fiat_conversion_rate_address,
                    forum_kyc_required,
                    bid_escrow_informal_quorum_ratio,
                    bid_escrow_formal_quorum_ratio,
                    bid_escrow_informal_voting_time,
                    bid_escrow_formal_voting_time,
                    informal_voting_time,
                    formal_voting_time,
                    informal_stake_reputation,
                    time_between_informal_and_formal_voting,
                    va_bid_acceptance_timeout,
                    va_can_bid_on_public_auction,
                    distribute_payment_to_non_voters,
                    bid_escrow_wallet_address,
                    default_reputation_slash,
                    voting_clearness_delta,
                    voting_start_after_job_worker_submission,
                    informal_quorum_ratio,
                    formal_quorum_ratio,
                    bid_escrow_payment_ratio,
                    voting_ids_address,
                    cancel_finished_voting_timeout,
                },
            ),
        )
    }

    /// Creates a builder from governance variables already read and the
    /// number of onboarded users.
    ///
    /// The voting starts as a regular (not bid escrow) voting that only a VA
    /// can create, with no calls, no bound ballot and no doubled time between
    /// votings.
    pub fn with_dao_configuration(total_onboarded: Balance, dao_configuration: DaoConfiguration) -> (r: Self)
        ensures
            r.configuration.dao_configuration == dao_configuration,
            r.configuration.total_onboarded == total_onboarded,
            r.configuration.fiat_rate is None,
            r.configuration.voting_configuration.is_bid_escrow == false,
            r.configuration.voting_configuration.bind_ballot_for_successful_voting == false,
            r.configuration.voting_configuration.unbound_ballot_address is None,
            r.configuration.voting_configuration.contract_calls@.len() == 0,
            r.configuration.voting_configuration.only_va_can_create == true,
            r.configuration.voting_configuration.double_time_between_votings == false,
    {
        ConfigurationBuilder {
            configuration: Configuration::new(
                dao_configuration,
                VotingConfiguration {
                    is_bid_escrow: false,
                    bind_ballot_for_successful_voting: false,
                    unbound_ballot_address: None,
                    contract_calls: Vec::new(),
                    only_va_can_create: true,
                    double_time_between_votings: false,
                },
                total_onboarded,
            ),
        }
    }

    /// Sets the `contract_calls` field to a single call.
    pub fn contract_call(self, contract_call: ContractCall) -> (r: Self)
        ensures
            r.configuration.voting_configuration.contract_calls@ == seq![contract_call],
            r.configuration.voting_configuration == (VotingConfiguration {
                contract_calls: r.configuration.voting_configuration.contract_calls,
                ..self.configuration.voting_configuration
            }),
            r.configuration.dao_configuration == self.configuration.dao_configuration,
            r.configuration.total_onboarded == self.configuration.total_onboarded,
            r.configuration.fiat_rate == self.configuration.fiat_rate,
    {
        let mut calls: Vec<ContractCall> = Vec::new();
        calls.push(contract_call);
        self.contract_calls(calls)
    }

    /// Sets the `contract_calls` field.
    pub fn contract_calls(self, contract_calls: Vec<ContractCall>) -> (r: Self)
        ensures
            r.configuration.voting_configuration == (VotingConfiguration {
                contract_calls,
                ..self.configuration.voting_configuration
            }),
            r.configuration.dao_configuration == self.configuration.dao_configuration,
            r.configuration.total_onboarded == self.configuration.total_onboarded,
            r.configuration.fiat_rate == self.configuration.fiat_rate,
    {
        let mut s = self;
        s.configuration.set_contract_calls(contract_calls);
        s
    }

    /// Sets the `only_va_can_create` field.
    pub fn only_va_can_create(self, only_va_can_create: bool) -> (r: Self)
        ensures
            r.configuration.voting_configuration == (VotingConfiguration {
                only_va_can_create,
                ..self.configuration.voting_configuration
            }),
            r.configuration.dao_configuration == self.configuration.dao_configuration,
            r.configuration.total_onboarded == self.configuration.total_onboarded,
            r.configuration.fiat_rate == self.configuration.fiat_rate,
    {
        let mut s = self;
        s.configuration.set_only_va_can_create(only_va_can_create);
        s
    }

    /// Sets the `is_bid_escrow` field and the fiat rate, read from the
    /// contract at the fiat conversion rate address.
    pub fn set_is_bid_escrow(self, is_bid_escrow: bool, fiat_rate: Balance) -> (r: Self)
        ensures
            r.configuration.voting_configuration == (VotingConfiguration {
                is_bid_escrow,
                ..self.configuration.voting_configuration
            }),
            r.configuration.dao_configuration == self.configuration.dao_configuration,
            r.configuration.total_onboarded == self.configuration.total_onboarded,
            r.configuration.fiat_rate == Some(fiat_rate),
    {
        let mut s = self;
        s.configuration.set_fiat_rate(Some(fiat_rate));
        s.configuration.set_is_bid_escrow(is_bid_escrow);
        s
    }

    /// Binds the ballot of the given address when the voting passes.
    pub fn bind_ballot_for_successful_voting(self, address: Address) -> (r: Self)
        ensures
            r.configuration.voting_configuration == (VotingConfiguration {
                bind_ballot_for_successful_voting: true,
                unbound_ballot_address: Some(address),
                ..self.configuration.voting_configuration
            }),
            r.configuration.dao_configuration == self.configuration.dao_configuration,
            r.configuration.total_onboarded == self.configuration.total_onboarded,
            r.configuration.fiat_rate == self.configuration.fiat_rate,
    {
        let mut s = self;
        s.configuration.set_bind_ballot_for_successful_voting(true);
        s.configuration.set_unbound_ballot_address(Some(address));
        s
    }

    /// Builds the final [Configuration].
    pub fn build(self) -> (r: Configuration)
        ensures
            r == self.configuration,
    {
        self.configuration
    }
}

} // verus!
