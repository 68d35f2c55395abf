//! The owner of a contract.

use vstd::prelude::*;

use crate::errors::Error;
use crate::types::Address;

verus! {

/// Holds the owner of a contract.
#[derive(Clone, Copy, Debug)]
pub struct Owner {
    pub owner: Option<Address>,
}

impl Owner {
    /// A contract without an owner.
    pub fn new() -> (r: Owner)
        ensures
            r.owner is None,
    {
        Owner { owner: None }
    }

    /// Initializes the module with its owner.
    pub fn init(&mut self, owner: Address)
        ensures
            final(self).owner == Some(owner),
    {
        self.change_ownership(owner);
    }

    /// Sets the owner to the new address.
    pub fn change_ownership(&mut self, owner: Address)
        ensures
            final(self).owner == Some(owner),
    {
        self.owner = Some(owner);
    }

    /// What checking the caller against the owner gives: `Ok` for the owner.
    pub open spec fn spec_ensure_owner(&self, caller: Address) -> Result<(), Error> {
        match self.owner {
            Some(owner) => if owner != caller {
                Err(Error::NotAnOwner)
            } else {
                Ok(())
            },
            None => Err(Error::OwnerIsNotInitialized),
        }
    }

    /// Verifies the caller is the owner.
    pub fn ensure_owner(&self, caller: Address) -> (r: Result<(), Error>)
        ensures
            r == self.spec_ensure_owner(caller),
    {
        match self.owner {
            Some(owner) => if owner != caller {
                Err(Error::NotAnOwner)
            } else {
                Ok(())
            },
            None => Err(Error::OwnerIsNotInitialized),
        }
    }

    /// Returns the current owner.
    pub fn get_owner(&self) -> (r: Option<Address>)
        ensures
            r == self.owner,
    {
        self.owner
    }
}

} // verus!
