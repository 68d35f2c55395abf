//! The whitelist of a contract.

use vstd::prelude::*;

use crate::address_map::AddressMap;
use crate::errors::Error;
use crate::types::Address;

verus! {

/// The addresses permitted to call the restricted entry points.
#[derive(Debug)]
pub struct Whitelist {
    pub members: AddressMap<bool>,
}

/// Whether an address is on the list: it was added and not removed since.
pub open spec fn listed(members: Map<Address, bool>, address: Address) -> bool {
    members.contains_key(address) && members[address]
}

impl Whitelist {
    /// An empty whitelist.
    pub fn new() -> (r: Whitelist)
        ensures
            r.members.wf(),
            r.members.view() == Map::<Address, bool>::empty(),
    {
        Whitelist { members: AddressMap::new() }
    }

    /// Adds an address to the whitelist.
    pub fn add_to_whitelist(&mut self, address: Address)
        requires
            old(self).members.wf(),
        ensures
            final(self).members.wf(),
            final(self).members.view() == old(self).members.view().insert(address, true),
    {
        self.members.set(address, true);
    }

    /// Removes an address from the whitelist.
    pub fn remove_from_whitelist(&mut self, address: Address)
        requires
            old(self).members.wf(),
        ensures
            final(self).members.wf(),
            final(self).members.view() == old(self).members.view().insert(address, false),
    {
        self.members.set(address, false);
    }

    /// Verifies the caller is on the list.
    pub fn ensure_whitelisted(&self, caller: Address) -> (r: Result<(), Error>)
        requires
            self.members.wf(),
        ensures
            r == if listed(self.members.view(), caller) {
                Ok::<(), Error>(())
            } else {
                Err(Error::NotWhitelisted)
            },
    {
        if !self.is_whitelisted(caller) {
            return Err(Error::NotWhitelisted);
        }
        Ok(())
    }

    /// Returns true if the address is on the list.
    pub fn is_whitelisted(&self, address: Address) -> (r: bool)
        requires
            self.members.wf(),
        ensures
            r == listed(self.members.view(), address),
    {
        match self.members.get(address) {
            Some(v) => v,
            None => false,
        }
    }
}

/// An address added to a whitelist is on it, whatever the list held before;
/// an address removed from it is not on it.
pub proof fn law_whitelist_add_remove(members: Map<Address, bool>, address: Address)
    ensures
        listed(members.insert(address, true), address),
        !listed(members.insert(address, false), address),
{
}

/// Adding or removing one address leaves every other address as it was.
pub proof fn law_whitelist_other_addresses(
    members: Map<Address, bool>,
    address: Address,
    other: Address,
    value: bool,
)
    requires
        other != address,
    ensures
        listed(members.insert(address, value), other) == listed(members, other),
{
}

} // verus!
