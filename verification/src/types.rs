//! Identifiers and plain types shared by the whole library.

use vstd::prelude::*;

use crate::u256::U256;

verus! {

/// An amount of tokens (CSPR or reputation).
pub type Balance = U256;

/// A point in time or a duration.
pub type BlockTime = u64;

/// A unique voting id.
pub type VotingId = u32;

/// A unique bid id.
pub type BidId = u32;

/// A unique job id.
pub type JobId = u32;

/// A unique job offer id.
pub type JobOfferId = u32;

/// A unique NFT id.
pub type TokenId = U256;

/// The hash of a document that proves a job has been done.
pub type DocumentHash = Vec<u8>;

/// An account or a contract, identified by the eight bytes of its address
/// read as a big-endian number.
#[derive(Clone, Copy, Debug, PartialEq, Eq, Structural, PartialOrd, Ord, Hash)]
pub struct Address {
    pub id: u64,
}

impl Address {
    /// Creates an address from its eight bytes read as a big-endian number.
    pub fn new(id: u64) -> (r: Address)
        ensures
            r.id == id,
    {
        Address { id }
    }
}

} // verus!
