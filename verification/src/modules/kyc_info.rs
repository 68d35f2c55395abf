//! What the library knows of a user's KYC process: whether the user holds a
//! KYC token, and the KYC voting about the user.

use vstd::prelude::*;

use crate::address_map::AddressMap;
use crate::errors::Error;
use crate::modules::refs::ContractRefs;
use crate::types::{Address, Balance, VotingId};

verus! {

/// The KYC votings: the voting recorded for each address (`None` once
/// cleared) and the subject of each voting.
#[derive(Debug)]
pub struct KycInfo {
    pub refs: ContractRefs,
    pub votings: AddressMap<Option<VotingId>>,
    pub addresses: Vec<(VotingId, Address)>,
}

/// The subject recorded for a voting, when there is one: the last one set.
pub open spec fn subject_of(addresses: Seq<(VotingId, Address)>, voting_id: VotingId) -> Option<
    Address,
>
    decreases addresses.len(),
{
    if addresses.len() == 0 {
        None
    } else if addresses.last().0 == voting_id {
        Some(addresses.last().1)
    } else {
        subject_of(addresses.drop_last(), voting_id)
    }
}

impl KycInfo {
    /// No votings recorded.
    pub fn new(refs: ContractRefs) -> (r: KycInfo)
        ensures
            r.refs == refs,
            r.votings.wf(),
            r.votings.view() == Map::<Address, Option<VotingId>>::empty(),
            r.addresses@.len() == 0,
    {
        KycInfo { refs, votings: AddressMap::new(), addresses: Vec::new() }
    }

    /// Whether a user passed KYC, given the user's KYC token balance: the
    /// balance is not zero.
    pub fn is_kycd(&self, kyc_balance: Balance) -> (r: bool)
        ensures
            r == (kyc_balance.value() != 0),
    {
        !kyc_balance.is_zero()
    }

    /// Records an ongoing KYC voting about `address`.
    pub fn set_voting(&mut self, address: Address, voting_id: VotingId)
        requires
            old(self).votings.wf(),
        ensures
            final(self).votings.wf(),
            final(self).votings.view() == old(self).votings.view().insert(address, Some(voting_id)),
            final(self).addresses@ == old(self).addresses@.push((voting_id, address)),
            final(self).refs == old(self).refs,
    {
        self.votings.set(address, Some(voting_id));
        self.addresses.push((voting_id, address));
    }

    /// Clears the voting recorded for `address`; the address stays known,
    /// with no voting.
    pub fn clear_voting(&mut self, address: Address)
        requires
            old(self).votings.wf(),
        ensures
            final(self).votings.wf(),
            final(self).votings.view() == old(self).votings.view().insert(address, None),
            final(self).addresses@ == old(self).addresses@,
            final(self).refs == old(self).refs,
    {
        self.votings.set(address, None);
    }

    /// Whether a voting was ever recorded for `address`: an address whose
    /// voting was cleared still counts, as the record stays.
    pub fn exists_ongoing_voting(&self, address: Address) -> (r: bool)
        requires
            self.votings.wf(),
        ensures
            r == self.votings.view().contains_key(address),
    {
        self.votings.get(address).is_some()
    }

    /// The subject of a KYC voting; [`Error::VotingAddressNotFound`] when
    /// none was recorded.
    pub fn get_voting_subject(&self, voting_id: VotingId) -> (r: Result<Address, Error>)
        ensures
            r == match subject_of(self.addresses@, voting_id) {
                Some(a) => Ok::<Address, Error>(a),
                None => Err(Error::VotingAddressNotFound),
            },
    {
        let mut i: usize = self.addresses.len();
        assert(self.addresses@.subrange(0, i as int) =~= self.addresses@);
        while i > 0
            invariant
                i <= self.addresses@.len(),
                subject_of(self.addresses@, voting_id) == subject_of(
                    self.addresses@.subrange(0, i as int),
                    voting_id,
                ),
            decreases i,
        {
            let (id, address) = self.addresses[i - 1];
            proof {
                assert(self.addresses@.subrange(0, i as int).drop_last() =~= self.addresses@.subrange(
                    0,
                    i - 1,
                ));
            }
            if id == voting_id {
                return Ok(address);
            }
            i -= 1;
        }
        Err(Error::VotingAddressNotFound)
    }
}

} // verus!
