//! A 256-bit unsigned integer used for balances and token ids.
//!
//! The value is held as four 64-bit words, least significant first, which is
//! the layout of the `U256` type the contract framework computes with. Every
//! arithmetic operation is carried out by that framework type.

use vstd::prelude::*;
use vstd::std_specs::cmp::PartialEqSpecImpl;

verus! {

/// 2^64.
pub open spec fn word_base() -> nat {
    0x1_0000_0000_0000_0000nat
}

/// The largest value a `U256` can hold, 2^256 - 1.
pub open spec fn u256_max() -> nat {
    0xffff_ffff_ffff_ffff_ffff_ffff_ffff_ffff_ffff_ffff_ffff_ffff_ffff_ffff_ffff_ffffnat
}

/// An unsigned 256-bit integer.
#[derive(Clone, Copy, Debug)]
pub struct U256 {
    pub w0: u64,
    pub w1: u64,
    pub w2: u64,
    pub w3: u64,
}

impl U256 {
    /// The number this value stands for.
    pub open spec fn value(&self) -> nat {
        (self.w0 + self.w1 * 0x1_0000_0000_0000_0000nat
            + self.w2 * 0x1_0000_0000_0000_0000_0000_0000_0000_0000nat
            + self.w3 * 0x1_0000_0000_0000_0000_0000_0000_0000_0000_0000_0000_0000_0000nat) as nat
    }

    pub proof fn lemma_value_bound(&self)
        ensures
            self.value() <= u256_max(),
    {
    }

    /// Zero.
    pub fn zero() -> (r: U256)
        ensures
            r.value() == 0,
    {
        U256 { w0: 0, w1: 0, w2: 0, w3: 0 }
    }

    /// The value of a `u64`.
    pub fn from_u64(v: u64) -> (r: U256)
        ensures
            r.value() == v,
    {
        U256 { w0: v, w1: 0, w2: 0, w3: 0 }
    }

    /// Builds a value from its four words, least significant first.
    pub fn from_words(words: [u64; 4]) -> (r: U256)
        ensures
            r.w0 == words[0],
            r.w1 == words[1],
            r.w2 == words[2],
            r.w3 == words[3],
    {
        U256 { w0: words[0], w1: words[1], w2: words[2], w3: words[3] }
    }

    /// The four words of the value, least significant first.
    pub fn words(&self) -> (r: [u64; 4])
        ensures
            r[0] == self.w0,
            r[1] == self.w1,
            r[2] == self.w2,
            r[3] == self.w3,
    {
        [self.w0, self.w1, self.w2, self.w3]
    }

    /// Checked addition: `None` when the sum exceeds 2^256 - 1.
    ///
    /// Calls `U256::checked_add` of the framework's integer type (`uint`);
    /// trusted to return the sum exactly when it fits and `None` otherwise.
    #[verifier::external_body]
    pub(crate) fn checked_add(&self, other: &U256) -> (r: Option<U256>)
        ensures
            r is Some <==> self.value() + other.value() <= u256_max(),
            r matches Some(s) ==> s.value() == self.value() + other.value(),
    {
        let a = odra::types::U256(self.words());
        a.checked_add(odra::types::U256(other.words())).map(|s| U256::from_words(s.0))
    }

    /// Checked subtraction: `None` when `other` is greater than `self`.
    ///
    /// Calls `U256::checked_sub` of the framework's integer type; trusted to
    /// return the difference exactly when it is not negative.
    #[verifier::external_body]
    pub(crate) fn checked_sub(&self, other: &U256) -> (r: Option<U256>)
        ensures
            r is Some <==> other.value() <= self.value(),
            r matches Some(s) ==> s.value() == self.value() - other.value(),
    {
        let a = odra::types::U256(self.words());
        a.checked_sub(odra::types::U256(other.words())).map(|s| U256::from_words(s.0))
    }

    /// Checked multiplication: `None` when the product exceeds 2^256 - 1.
    ///
    /// Calls `U256::checked_mul` of the framework's integer type; trusted to
    /// return the product exactly when it fits and `None` otherwise.
    #[verifier::external_body]
    pub(crate) fn checked_mul(&self, other: &U256) -> (r: Option<U256>)
        ensures
            r is Some <==> self.value() * other.value() <= u256_max(),
            r matches Some(s) ==> s.value() == self.value() * other.value(),
    {
        let a = odra::types::U256(self.words());
        a.checked_mul(odra::types::U256(other.words())).map(|s| U256::from_words(s.0))
    }

    /// Checked division, rounding down: `None` when `other` is zero.
    ///
    /// Calls `U256::checked_div` of the framework's integer type; trusted to
    /// return the quotient rounded down exactly when the divisor is not zero.
    #[verifier::external_body]
    pub(crate) fn checked_div(&self, other: &U256) -> (r: Option<U256>)
        ensures
            r is Some <==> other.value() != 0,
            r matches Some(s) ==> s.value() == self.value() / other.value(),
    {
        let a = odra::types::U256(self.words());
        a.checked_div(odra::types::U256(other.words())).map(|s| U256::from_words(s.0))
    }

    /// Subtraction that stops at zero.
    ///
    /// Calls `U256::saturating_sub` of the framework's integer type; trusted
    /// to return the difference, or zero when `other` is greater.
    #[verifier::external_body]
    pub(crate) fn saturating_sub(&self, other: &U256) -> (r: U256)
        ensures
            r.value() == if other.value() <= self.value() {
                self.value() - other.value()
            } else {
                0
            },
    {
        let a = odra::types::U256(self.words());
        U256::from_words(a.saturating_sub(odra::types::U256(other.words())).0)
    }

    /// `self < other`.
    ///
    /// Calls the `<` of the framework's integer type; trusted to compare the
    /// numbers.
    #[verifier::external_body]
    pub(crate) fn lt(&self, other: &U256) -> (r: bool)
        ensures
            r == (self.value() < other.value()),
    {
        odra::types::U256(self.words()) < odra::types::U256(other.words())
    }

    /// `self == other`.
    ///
    /// Calls the `==` of the framework's integer type; trusted to compare the
    /// numbers.
    #[verifier::external_body]
    pub(crate) fn same(&self, other: &U256) -> (r: bool)
        ensures
            r == (self.value() == other.value()),
    {
        odra::types::U256(self.words()) == odra::types::U256(other.words())
    }

    /// Converts to `u32`, failing when the value exceeds `u32::MAX`.
    ///
    /// Calls `u32::try_from` on the framework's integer type; trusted to
    /// succeed exactly when the value fits and then to keep it.
    #[verifier::external_body]
    pub(crate) fn try_into_u32(&self) -> (r: Option<u32>)
        ensures
            r is Some <==> self.value() <= u32::MAX,
            r matches Some(v) ==> v == self.value(),
    {
        u32::try_from(odra::types::U256(self.words())).ok()
    }

    /// Whether the value is zero.
    pub fn is_zero(&self) -> (r: bool)
        ensures
            r == (self.value() == 0),
    {
        self.w0 == 0 && self.w1 == 0 && self.w2 == 0 && self.w3 == 0
    }

    /// `self <= other`.
    pub fn le(&self, other: &U256) -> (r: bool)
        ensures
            r == (self.value() <= other.value()),
    {
        !other.lt(self)
    }
}

impl PartialEq for U256 {
    fn eq(&self, other: &U256) -> (r: bool) {
        self.same(other)
    }
}

impl PartialEqSpecImpl for U256 {
    open spec fn obeys_eq_spec() -> bool {
        true
    }

    open spec fn eq_spec(&self, other: &U256) -> bool {
        self.value() == other.value()
    }
}

impl Eq for U256 {
}

} // verus!
