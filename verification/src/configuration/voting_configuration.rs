//! The part of a configuration that depends on the kind of voting.

use vstd::prelude::*;

use crate::types::{Address, Balance};

verus! {

/// A call of a contract's entry point, performed once a formal voting passes.
#[derive(Debug)]
pub struct ContractCall {
    /// The contract to call.
    pub address: Address,
    /// The name of the entry point.
    pub entry_point: String,
    /// The serialized arguments.
    pub call_args: Vec<u8>,
    /// CSPR attached to the call.
    pub amount: Option<Balance>,
}

impl ContractCall {
    /// Both calls name the same entry point of the same contract, with the
    /// same arguments and amount.
    pub open spec fn same_as(&self, other: &ContractCall) -> bool {
        &&& self.address == other.address
        &&& self.entry_point@ == other.entry_point@
        &&& self.call_args@ == other.call_args@
        &&& self.amount == other.amount
    }
}

/// Both lists hold the same calls in the same order.
pub open spec fn same_calls(a: Seq<ContractCall>, b: Seq<ContractCall>) -> bool {
    &&& a.len() == b.len()
    &&& forall|i: int| 0 <= i < a.len() ==> (#[trigger] a[i]).same_as(&b[i])
}

impl Clone for ContractCall {
    fn clone(&self) -> (r: ContractCall)
        ensures
            r.same_as(self),
    {
        let mut call_args: Vec<u8> = Vec::new();
        let mut i: usize = 0;
        while i < self.call_args.len()
            invariant
                i <= self.call_args@.len(),
                call_args@ == self.call_args@.subrange(0, i as int),
            decreases self.call_args@.len() - i,
        {
            call_args.push(self.call_args[i]);
            i += 1;
            assert(call_args@ =~= self.call_args@.subrange(0, i as int));
        }
        assert(call_args@ =~= self.call_args@);
        ContractCall {
            address: self.address,
            entry_point: self.entry_point.clone(),
            call_args,
            amount: self.amount,
        }
    }
}

/// Clones a list of contract calls.
pub fn clone_calls(calls: &Vec<ContractCall>) -> (r: Vec<ContractCall>)
    ensures
        same_calls(r@, calls@),
{
    let mut r: Vec<ContractCall> = Vec::new();
    let mut i: usize = 0;
    while i < calls.len()
        invariant
            i <= calls@.len(),
            r@.len() == i,
            forall|j: int| 0 <= j < i ==> (#[trigger] r@[j]).same_as(&calls@[j]),
        decreases calls@.len() - i,
    {
        r.push(calls[i].clone());
        i += 1;
    }
    r
}

/// Settings of a voting that do not come from the governance variables.
#[derive(Debug)]
pub struct VotingConfiguration {
    pub is_bid_escrow: bool,
    pub bind_ballot_for_successful_voting: bool,
    pub unbound_ballot_address: Option<Address>,
    pub contract_calls: Vec<ContractCall>,
    pub only_va_can_create: bool,
    pub double_time_between_votings: bool,
}

impl VotingConfiguration {
    /// Both configurations hold the same settings and the same calls.
    pub open spec fn same_as(&self, other: &VotingConfiguration) -> bool {
        &&& self.is_bid_escrow == other.is_bid_escrow
        &&& self.bind_ballot_for_successful_voting == other.bind_ballot_for_successful_voting
        &&& self.unbound_ballot_address == other.unbound_ballot_address
        &&& same_calls(self.contract_calls@, other.contract_calls@)
        &&& self.only_va_can_create == other.only_va_can_create
        &&& self.double_time_between_votings == other.double_time_between_votings
    }
}

impl Clone for VotingConfiguration {
    fn clone(&self) -> (r: VotingConfiguration)
        ensures
            r.same_as(self),
    {
        VotingConfiguration {
            is_bid_escrow: self.is_bid_escrow,
            bind_ballot_for_successful_voting: self.bind_ballot_for_successful_voting,
            unbound_ballot_address: self.unbound_ballot_address,
            contract_calls: clone_calls(&self.contract_calls),
            only_va_can_create: self.only_va_can_create,
            double_time_between_votings: self.double_time_between_votings,
        }
    }
}

impl VotingConfiguration {
    pub fn set_bind_ballot_for_successful_voting(&mut self, value: bool)
        ensures
            *final(self) == (VotingConfiguration { bind_ballot_for_successful_voting: value, ..*old(self) }),
    {
        self.bind_ballot_for_successful_voting = value;
    }

    pub fn set_unbound_ballot_address(&mut self, value: Option<Address>)
        ensures
            *final(self) == (VotingConfiguration { unbound_ballot_address: value, ..*old(self) }),
    {
        self.unbound_ballot_address = value;
    }

    pub fn set_is_bid_escrow(&mut self, value: bool)
        ensures
            *final(self) == (VotingConfiguration { is_bid_escrow: value, ..*old(self) }),
    {
        self.is_bid_escrow = value;
    }

    pub fn set_only_va_can_create(&mut self, value: bool)
        ensures
            *final(self) == (VotingConfiguration { only_va_can_create: value, ..*old(self) }),
    {
        self.only_va_can_create = value;
    }

    pub fn set_contract_calls(&mut self, value: Vec<ContractCall>)
        ensures
            *final(self) == (VotingConfiguration { contract_calls: value, ..*old(self) }),
    {
        self.contract_calls = value;
    }

    pub fn should_bind_ballot_for_successful_voting(&self) -> (r: bool)
        ensures
            r == self.bind_ballot_for_successful_voting,
    {
        self.bind_ballot_for_successful_voting
    }

    pub fn get_unbound_ballot_address(&self) -> (r: Option<Address>)
        ensures
            r == self.unbound_ballot_address,
    {
        self.unbound_ballot_address
    }
}

} // verus!
