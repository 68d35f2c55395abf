//! Access control: an owner and a whitelist.

use vstd::prelude::*;

use crate::errors::Error;
use crate::modules::owner::Owner;
use crate::modules::whitelist::{listed, Whitelist};
use crate::types::Address;

verus! {

/// An owner and a whitelist.
#[derive(Debug)]
pub struct AccessControl {
    pub owner: Owner,
    pub whitelist: Whitelist,
}

impl AccessControl {
    /// Well-formedness of the whitelist.
    pub open spec fn wf(&self) -> bool {
        self.whitelist.members.wf()
    }

    /// Whether an address is whitelisted.
    pub open spec fn spec_is_whitelisted(&self, address: Address) -> bool {
        listed(self.whitelist.members.view(), address)
    }

    /// Access control with no owner and an empty whitelist.
    pub fn new() -> (r: AccessControl)
        ensures
            r.wf(),
            r.owner.owner is None,
            r.whitelist.members.view() == Map::<Address, bool>::empty(),
    {
        AccessControl { owner: Owner::new(), whitelist: Whitelist::new() }
    }

    /// Makes `address` the owner and adds it to the whitelist.
    pub fn init(&mut self, address: Address)
        requires
            old(self).wf(),
        ensures
            final(self).wf(),
            final(self).owner.owner == Some(address),
            final(self).whitelist.members.view() == old(self).whitelist.members.view().insert(
                address,
                true,
            ),
    {
        self.owner.init(address);
        self.whitelist.add_to_whitelist(address);
    }

    /// Transfers the ownership to `owner`, who is also whitelisted. Only the
    /// current owner may call it.
    pub fn change_ownership(&mut self, caller: Address, owner: Address) -> (r: Result<(), Error>)
        requires
            old(self).wf(),
        ensures
            final(self).wf(),
            r == old(self).owner.spec_ensure_owner(caller),
            r is Ok ==> final(self).owner.owner == Some(owner)
                && final(self).whitelist.members.view() == old(self).whitelist.members.view().insert(owner, true),
            r is Err ==> final(self).owner == old(self).owner && final(self).whitelist.members.view() == old(self).whitelist.members.view(),
    {
        self.owner.ensure_owner(caller)?;
        self.owner.change_ownership(owner);
        self.whitelist.add_to_whitelist(owner);
        Ok(())
    }

    /// Adds an address to the whitelist. Only the owner may call it.
    pub fn add_to_whitelist(&mut self, caller: Address, address: Address) -> (r: Result<(), Error>)
        requires
            old(self).wf(),
        ensures
            final(self).wf(),
            final(self).owner == old(self).owner,
            r == old(self).owner.spec_ensure_owner(caller),
            r is Ok ==> final(self).whitelist.members.view() == old(self).whitelist.members.view().insert(address, true),
            r is Err ==> final(self).whitelist.members.view() == old(self).whitelist.members.view(),
    {
        self.owner.ensure_owner(caller)?;
        self.whitelist.add_to_whitelist(address);
        Ok(())
    }

    /// Removes an address from the whitelist. Only the owner may call it.
    pub fn remove_from_whitelist(&mut self, caller: Address, address: Address) -> (r: Result<
        (),
        Error,
    >)
        requires
            old(self).wf(),
        ensures
            final(self).wf(),
            final(self).owner == old(self).owner,
            r == old(self).owner.spec_ensure_owner(caller),
            r is Ok ==> final(self).whitelist.members.view() == old(self).whitelist.members.view().insert(address, false),
            r is Err ==> final(self).whitelist.members.view() == old(self).whitelist.members.view(),
    {
        self.owner.ensure_owner(caller)?;
        self.whitelist.remove_from_whitelist(address);
        Ok(())
    }

    /// Checks whether the given address is whitelisted.
    pub fn is_whitelisted(&self, address: Address) -> (r: bool)
        requires
            self.wf(),
        ensures
            r == self.spec_is_whitelisted(address),
    {
        self.whitelist.is_whitelisted(address)
    }

    /// Verifies the caller is whitelisted.
    pub fn ensure_whitelisted(&self, caller: Address) -> (r: Result<(), Error>)
        requires
            self.wf(),
        ensures
            r == if self.spec_is_whitelisted(caller) {
                Ok::<(), Error>(())
            } else {
                Err(Error::NotWhitelisted)
            },
    {
        self.whitelist.ensure_whitelisted(caller)
    }

    /// Returns the current owner.
    pub fn get_owner(&self) -> (r: Option<Address>)
        ensures
            r == self.owner.owner,
    {
        self.owner.get_owner()
    }
}

/// After `init(a)`, `a` owns the contract and is whitelisted; after a
/// successful `change_ownership` to `b`, `b` owns it and is whitelisted.
pub proof fn law_owner_is_whitelisted(members: Map<Address, bool>, a: Address)
    ensures
        listed(members.insert(a, true), a),
{
}

} // verus!
