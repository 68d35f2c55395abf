//! The variable repository contract: governance variables that can be
//! changed by whitelisted callers, possibly from a future time on.

use vstd::prelude::*;

use crate::errors::Error;
use crate::modules::access_control::AccessControl;
use crate::modules::repository::{
    address_bytes, default_items, updated_record, value_at, written_record, Record, Repository, ValueUpdated,
};
use crate::types::Address;

verus! {

/// The state of the variable repository contract.
#[derive(Debug)]
pub struct VariableRepositoryContract {
    pub access_control: AccessControl,
    pub repository: Repository,
}

impl VariableRepositoryContract {
    /// Well-formedness of both parts.
    pub open spec fn wf(&self) -> bool {
        &&& self.access_control.wf()
        &&& self.repository.wf()
    }

    /// A contract with no owner and no variables.
    pub fn new() -> (r: VariableRepositoryContract)
        ensures
            r.wf(),
            forall|k: Seq<char>| r.repository.record_of(k) is None,
            r.repository.storage@.len() == 0,
            r.repository.keys2@.len() == 0,
            r.access_control.owner.owner is None,
            r.access_control.whitelist.members.view() == Map::<Address, bool>::empty(),
    {
        VariableRepositoryContract {
            access_control: AccessControl::new(),
            repository: Repository::new(),
        }
    }

    /// Constructor: the deployer owns the contract and is whitelisted, and
    /// the repository holds the initial values of the variables and the
    /// three given addresses.
    pub fn init(
        &mut self,
        deployer: Address,
        fiat_conversion: Address,
        bid_escrow_wallet: Address,
        voting_ids: Address,
    ) -> (r: Vec<ValueUpdated>)
        requires
            old(self).wf(),
            forall|k: Seq<char>| old(self).repository.record_of(k) is None,
            fiat_conversion.id != 0,
            bid_escrow_wallet.id != 0,
            voting_ids.id != 0,
        ensures
            final(self).wf(),
            final(self).access_control.owner.owner == Some(deployer),
            final(self).access_control.spec_is_whitelisted(deployer),
            forall|k: Seq<char>|
                final(self).repository.record_of(k) == written_record(
                    default_items() + seq![
                        ("FiatConversionRateAddress"@, address_bytes(fiat_conversion)),
                        ("BidEscrowWalletAddress"@, address_bytes(bid_escrow_wallet)),
                        ("VotingIdsAddress"@, address_bytes(voting_ids)),
                    ],
                    k,
                ),
            r@.len() == default_items().len() + 3,
    {
        self.access_control.init(deployer);
        self.repository.init(fiat_conversion, bid_escrow_wallet, voting_ids)
    }

    /// Updates a variable at time `now`. Only a whitelisted caller may call
    /// it; otherwise as [`Repository::update_at`].
    pub fn update_at(
        &mut self,
        caller: Address,
        key: String,
        value: Vec<u8>,
        activation_time: Option<u64>,
        now: u64,
    ) -> (r: Result<ValueUpdated, Error>)
        requires
            old(self).wf(),
        ensures
            final(self).wf(),
            final(self).access_control == old(self).access_control,
            !old(self).access_control.spec_is_whitelisted(caller) ==> r == Err::<
                ValueUpdated,
                Error,
            >(Error::NotWhitelisted) && final(self).repository == old(self).repository,
            old(self).access_control.spec_is_whitelisted(caller) ==> match updated_record(
                old(self).repository.record_of(key@),
                value@,
                activation_time,
                now,
            ) {
                Ok(rec) => {
                    &&& r matches Ok(e) && e.key@ == key@ && e.value@ == value@ && e.activation_time
                        == activation_time
                    &&& final(self).repository.record_of(key@) == Some(rec)
                    &&& forall|k: Seq<char>|
                        k != key@ ==> final(self).repository.record_of(k)
                            == old(self).repository.record_of(k)
                    &&& old(self).repository.record_of(key@) is Some ==> final(self).repository.keys2@ == old(self).repository.keys2@
                    &&& old(self).repository.record_of(key@) is None ==> final(self).repository.keys2@ == old(self).repository.keys2@.push(
                        final(self).repository.keys2@.last(),
                    ) && final(self).repository.keys2@.last()@ == key@
                },
                Err(e) => {
                    &&& r == Err::<ValueUpdated, Error>(e)
                    &&& forall|k: Seq<char>|
                        final(self).repository.record_of(k) == old(self).repository.record_of(k)
                    &&& final(self).repository.keys2@ == old(self).repository.keys2@
                },
            },
    {
        self.access_control.ensure_whitelisted(caller)?;
        self.repository.update_at(key, value, activation_time, now)
    }

    /// The value of a variable at time `now`, when it is stored.
    pub fn get(&self, key: String, now: u64) -> (r: Option<Vec<u8>>)
        requires
            self.wf(),
        ensures
            match self.repository.record_of(key@) {
                Some(rec) => r matches Some(v) && v@ == value_at(rec, now),
                None => r is None,
            },
    {
        self.repository.get(key, now)
    }

    /// The whole record of a variable, when it is stored.
    pub fn get_full_value(&self, key: String) -> (r: Option<Record>)
        requires
            self.wf(),
        ensures
            match self.repository.record_of(key@) {
                Some(rec) => r matches Some(v) && v.view() == rec,
                None => r is None,
            },
    {
        self.repository.get_full_value(key)
    }

    /// The key stored at the given position: keys are numbered in the order
    /// they were first stored.
    pub fn get_key_at(&self, index: u32) -> (r: Option<String>)
        ensures
            r == if index < self.repository.keys2@.len() {
                Some(self.repository.keys2@[index as int])
            } else {
                None::<String>
            },
    {
        if (index as usize) < self.repository.keys2.len() {
            Some(self.repository.keys2[index as usize].clone())
        } else {
            None
        }
    }

    /// The number of stored keys.
    pub fn keys_count(&self) -> (r: u32)
        requires
            self.repository.keys2@.len() <= u32::MAX,
        ensures
            r == self.repository.keys2@.len(),
    {
        self.repository.keys2.len() as u32
    }

    /// Every stored key with its value at time `now`, in the order the keys
    /// were first stored. Each listed key holds a record, so the
    /// [`Error::RepositoryError`] of a missing one does not arise.
    pub fn all_variables(&self, now: u64) -> (r: Result<Vec<(String, Vec<u8>)>, Error>)
        requires
            self.wf(),
        ensures
            r is Ok,
            r matches Ok(list) ==> {
                &&& list@.len() == self.repository.keys2@.len()
                &&& forall|i: int|
                    0 <= i < list@.len() ==> {
                        &&& (#[trigger] list@[i]).0 == self.repository.keys2@[i]
                        &&& list@[i].1@ == value_at(
                            self.repository.record_of(self.repository.keys2@[i]@)->0,
                            now,
                        )
                    }
            },
    {
        let mut result: Vec<(String, Vec<u8>)> = Vec::new();
        let mut i: usize = 0;
        while i < self.repository.keys2.len()
            invariant
                self.wf(),
                i <= self.repository.keys2@.len(),
                result@.len() == i,
                forall|j: int|
                    0 <= j < i ==> self.repository.record_of(
                        #[trigger] self.repository.keys2@[j]@,
                    ) is Some,
                forall|j: int|
                    0 <= j < i ==> {
                        &&& (#[trigger] result@[j]).0 == self.repository.keys2@[j]
                        &&& result@[j].1@ == value_at(
                            self.repository.record_of(self.repository.keys2@[j]@)->0,
                            now,
                        )
                    },
            decreases self.repository.keys2@.len() - i,
        {
            let repo_key = self.repository.keys2[i].clone();
            let value = match self.repository.get(repo_key.clone(), now) {
                Some(v) => v,
                None => {
                    return Err(Error::RepositoryError);
                },
            };
            result.push((repo_key, value));
            i += 1;
        }
        Ok(result)
    }
}

} // verus!
