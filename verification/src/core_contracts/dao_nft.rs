//! A non-transferable NFT: each address owns at most one token, minted and
//! burned by whitelisted callers. The VA and KYC tokens are such NFTs.

use vstd::prelude::*;

use crate::address_map::{amount_of, AddressMap};
use crate::errors::Error;
use crate::modules::access_control::AccessControl;
use crate::types::{Address, Balance, TokenId};
use crate::u256::{u256_max, U256};

verus! {

/// The decimal digits of a number, most significant first, without leading
/// zeros.
pub open spec fn decimal(n: nat) -> Seq<char>
    decreases n,
{
    if n < 10 {
        seq![((n + 48) as u8) as char]
    } else {
        decimal(n / 10).push((((n % 10) + 48) as u8) as char)
    }
}

/// Writes the base URI followed by the token id in decimal, with `format!`;
/// the token id goes through the `Display` of the framework's `U256`
/// (`uint`), trusted to write its decimal digits without leading zeros.
#[verifier::external_body]
fn format_token_uri(base_uri: &String, token_id: TokenId) -> (r: String)
    ensures
        r@ == base_uri@ + decimal(token_id.value()),
{
    format!("{}{}", base_uri, odra::types::U256(token_id.words()))
}

/// Whether a list of owner entries has one for a token id.
pub open spec fn has_entry_in(owners: Seq<(TokenId, Option<Address>)>, id: nat) -> bool {
    exists|i: int| 0 <= i < owners.len() && owners[i].0.value() == id
}

/// The owner entry of a token id in a list of entries, when there is one.
pub open spec fn entry_in(owners: Seq<(TokenId, Option<Address>)>, id: nat) -> Option<
    Option<Address>,
> {
    if has_entry_in(owners, id) {
        Some(owners[choose|i: int| 0 <= i < owners.len() && owners[i].0.value() == id].1)
    } else {
        None
    }
}

/// Emitted when a token is minted (`from` is `None`) or burned (`to` is
/// `None`).
#[derive(Clone, Copy, Debug)]
pub struct Transfer {
    pub from: Option<Address>,
    pub to: Option<Address>,
    pub token_id: TokenId,
}

/// The state of an NFT contract: access control, metadata, owners and
/// balances of the tokens, each address's token, the last token id given
/// out and the number of tokens.
#[derive(Debug)]
pub struct DaoNft {
    pub access_control: AccessControl,
    pub name: String,
    pub symbol: String,
    pub base_uri: String,
    pub balances: AddressMap<Balance>,
    /// The owner recorded for each token id ever minted; `None` once burned.
    pub owners: Vec<(TokenId, Option<Address>)>,
    /// The token recorded for each address that was ever given one.
    pub tokens: AddressMap<Option<TokenId>>,
    /// The last token id given out.
    pub id_gen: Option<TokenId>,
    pub total_supply: Option<Balance>,
}

impl DaoNft {
    /// Each map holds a key once, and each address owns at most one token:
    /// one exactly when a token is recorded for it.
    pub open spec fn wf(&self) -> bool {
        &&& self.access_control.wf()
        &&& self.balances.wf()
        &&& self.tokens.wf()
        &&& forall|i: int, j: int|
            0 <= i < j < self.owners@.len() ==> self.owners@[i].0.value()
                != self.owners@[j].0.value()
        &&& self.one_token_each()
    }

    /// The balance of every address is one when a token is recorded for it
    /// and zero otherwise.
    pub open spec fn one_token_each(&self) -> bool {
        forall|a: Address|
            #[trigger] amount_of(self.balances.view(), a) == if self.spec_token_id(a) is Some {
                1nat
            } else {
                0nat
            }
    }

    /// Whether an owner entry exists for a token id.
    pub open spec fn has_owner_entry(&self, id: nat) -> bool {
        has_entry_in(self.owners@, id)
    }

    /// The owner entry of a token id, when there is one.
    pub open spec fn owner_entry(&self, id: nat) -> Option<Option<Address>> {
        entry_in(self.owners@, id)
    }

    /// The id the next minted token gets.
    pub open spec fn next_id(&self) -> nat {
        match self.id_gen {
            None => 0,
            Some(v) => v.value() + 1,
        }
    }

    /// The number of tokens.
    pub open spec fn spec_total_supply(&self) -> nat {
        match self.total_supply {
            None => 0,
            Some(v) => v.value(),
        }
    }

    /// The token of an address: `None` when it never had one or it was
    /// burned.
    pub open spec fn spec_token_id(&self, address: Address) -> Option<TokenId> {
        if self.tokens.view().contains_key(address) {
            self.tokens.view()[address]
        } else {
            None
        }
    }

    /// A contract with no owner, empty metadata and no tokens.
    pub fn new() -> (r: DaoNft)
        ensures
            r.wf(),
            r.owners@.len() == 0,
            r.balances.view() == Map::<Address, Balance>::empty(),
            r.tokens.view() == Map::<Address, Option<TokenId>>::empty(),
            r.id_gen is None,
            r.total_supply is None,
            r.name@.len() == 0,
            r.symbol@.len() == 0,
            r.base_uri@.len() == 0,
            r.access_control.owner.owner is None,
            r.access_control.whitelist.members.view() == Map::<Address, bool>::empty(),
    {
        DaoNft {
            access_control: AccessControl::new(),
            name: String::new(),
            symbol: String::new(),
            base_uri: String::new(),
            balances: AddressMap::new(),
            owners: Vec::new(),
            tokens: AddressMap::new(),
            id_gen: None,
            total_supply: None,
        }
    }

    /// Constructor: sets the metadata; the deployer owns the contract and is
    /// whitelisted.
    pub fn init(&mut self, deployer: Address, name: String, symbol: String, base_uri: String)
        requires
            old(self).wf(),
        ensures
            final(self).wf(),
            final(self).name@ == name@,
            final(self).symbol@ == symbol@,
            final(self).base_uri@ == base_uri@,
            final(self).access_control.owner.owner == Some(deployer),
            final(self).access_control.spec_is_whitelisted(deployer),
            final(self).owners@ == old(self).owners@,
            final(self).balances.view() == old(self).balances.view(),
            final(self).tokens.view() == old(self).tokens.view(),
            final(self).id_gen == old(self).id_gen,
            final(self).total_supply == old(self).total_supply,
    {
        self.name = name;
        self.symbol = symbol;
        self.base_uri = base_uri;
        self.access_control.init(deployer);
    }

    /// The name of the token.
    pub fn name(&self) -> (r: String)
        ensures
            r@ == self.name@,
    {
        self.name.clone()
    }

    /// The symbol of the token.
    pub fn symbol(&self) -> (r: String)
        ensures
            r@ == self.symbol@,
    {
        self.symbol.clone()
    }

    /// The base of the tokens' URIs.
    pub fn base_uri(&self) -> (r: String)
        ensures
            r@ == self.base_uri@,
    {
        self.base_uri.clone()
    }

    /// The number of tokens; zero before any mint.
    pub fn total_supply(&self) -> (r: Balance)
        ensures
            r.value() == self.spec_total_supply(),
    {
        match self.total_supply {
            Some(v) => v,
            None => U256::zero(),
        }
    }

    /// The number of tokens of an address.
    pub fn balance_of(&self, owner: Address) -> (r: Balance)
        requires
            self.wf(),
        ensures
            r.value() == amount_of(self.balances.view(), owner),
    {
        match self.balances.get(owner) {
            Some(v) => v,
            None => U256::zero(),
        }
    }

    /// The token of an address, when it has one.
    pub fn token_id(&self, address: Address) -> (r: Option<TokenId>)
        requires
            self.wf(),
        ensures
            r == self.spec_token_id(address),
    {
        match self.tokens.get(address) {
            Some(t) => t,
            None => None,
        }
    }

    /// The position of a token id among the owner entries.
    fn owner_position(&self, token_id: TokenId) -> (r: Option<usize>)
        requires
            self.wf(),
        ensures
            match r {
                Some(i) => i < self.owners@.len() && self.owners@[i as int].0.value()
                    == token_id.value() && self.owner_entry(token_id.value()) == Some(
                    self.owners@[i as int].1,
                ),
                None => !self.has_owner_entry(token_id.value()),
            },
    {
        let mut i: usize = 0;
        while i < self.owners.len()
            invariant
                self.wf(),
                i <= self.owners@.len(),
                forall|j: int| 0 <= j < i ==> self.owners@[j].0.value() != token_id.value(),
            decreases self.owners@.len() - i,
        {
            if self.owners[i].0.same(&token_id) {
                proof {
                    let c = choose|j: int|
                        0 <= j < self.owners@.len() && self.owners@[j].0.value()
                            == token_id.value();
                    assert(c == i);
                }
                return Some(i);
            }
            i += 1;
        }
        None
    }

    /// Whether a token id was ever minted.
    pub fn token_exists(&self, token_id: TokenId) -> (r: bool)
        requires
            self.wf(),
        ensures
            r == self.has_owner_entry(token_id.value()),
    {
        self.owner_position(token_id).is_some()
    }

    /// The owner of a token; fails with [`Error::InvalidTokenId`] when the
    /// token was never minted or was burned.
    pub fn owner_of(&self, token_id: TokenId) -> (r: Result<Address, Error>)
        requires
            self.wf(),
        ensures
            r == match self.owner_entry(token_id.value()) {
                Some(Some(a)) => Ok::<Address, Error>(a),
                _ => Err(Error::InvalidTokenId),
            },
    {
        match self.owner_position(token_id) {
            Some(i) => match self.owners[i].1 {
                Some(a) => Ok(a),
                None => Err(Error::InvalidTokenId),
            },
            None => Err(Error::InvalidTokenId),
        }
    }

    /// The URI of a token: the base URI followed by the token id in decimal.
    /// Fails with [`Error::TokenDoesNotExist`] when the token was never
    /// minted.
    pub fn token_uri(&self, token_id: TokenId) -> (r: Result<String, Error>)
        requires
            self.wf(),
        ensures
            !self.has_owner_entry(token_id.value()) ==> r == Err::<String, Error>(
                Error::TokenDoesNotExist,
            ),
            self.has_owner_entry(token_id.value()) ==> (r matches Ok(s) && s@ == self.base_uri@
                + decimal(token_id.value())),
    {
        if !self.token_exists(token_id) {
            return Err(Error::TokenDoesNotExist);
        }
        Ok(format_token_uri(&self.base_uri, token_id))
    }

    /// Records the owner of a token.
    fn set_owner(&mut self, token_id: TokenId, owner: Option<Address>)
        requires
            old(self).wf(),
        ensures
            final(self).wf(),
            final(self).owner_entry(token_id.value()) == Some(owner),
            forall|id: nat|
                id != token_id.value() ==> final(self).owner_entry(id) == old(self).owner_entry(
                    id,
                ),
            final(self).access_control == old(self).access_control,
            final(self).balances == old(self).balances,
            final(self).tokens == old(self).tokens,
            final(self).id_gen == old(self).id_gen,
            final(self).total_supply == old(self).total_supply,
            final(self).base_uri == old(self).base_uri,
    {
        let ghost before = *self;
        match self.owner_position(token_id) {
            Some(i) => {
                let k = self.owners[i].0;
                self.owners.set(i, (k, owner));
                proof {
                    assert forall|id: nat| id != token_id.value() implies self.owner_entry(id)
                        == before.owner_entry(id) by {
                        if before.has_owner_entry(id) {
                            let c = choose|j: int|
                                0 <= j < before.owners@.len() && before.owners@[j].0.value() == id;
                            assert(self.owners@[c].0.value() == id);
                        }
                        if self.has_owner_entry(id) {
                            let c = choose|j: int|
                                0 <= j < self.owners@.len() && self.owners@[j].0.value() == id;
                            assert(before.owners@[c].0.value() == id);
                        }
                    }
                    let c = choose|j: int|
                        0 <= j < self.owners@.len() && self.owners@[j].0.value()
                            == token_id.value();
                    assert(self.owners@[i as int].0.value() == token_id.value());
                    assert(c == i);
                }
            },
            None => {
                self.owners.push((token_id, owner));
                proof {
                    let n = before.owners@.len() as int;
                    assert(self.owners@[n].0.value() == token_id.value());
                    assert forall|id: nat| id != token_id.value() implies self.owner_entry(id)
                        == before.owner_entry(id) by {
                        if before.has_owner_entry(id) {
                            let c = choose|j: int|
                                0 <= j < before.owners@.len() && before.owners@[j].0.value() == id;
                            assert(self.owners@[c].0.value() == id);
                        }
                        if self.has_owner_entry(id) {
                            let c = choose|j: int|
                                0 <= j < self.owners@.len() && self.owners@[j].0.value() == id;
                            assert(before.owners@[c].0.value() == id);
                        }
                    }
                    let c = choose|j: int|
                        0 <= j < self.owners@.len() && self.owners@[j].0.value()
                            == token_id.value();
                    assert(c == n);
                }
            },
        }
    }

    /// Mints a token for `to`, who must not own one. Only
    /// a whitelisted caller may mint; ids are given out in order from zero.
    pub fn mint(&mut self, caller: Address, to: Address) -> (r: Result<Transfer, Error>)
        requires
            old(self).wf(),
            old(self).next_id() <= u256_max(),
        ensures
            final(self).wf(),
            r is Err ==> *final(self) == *old(self),
            !old(self).access_control.spec_is_whitelisted(caller) ==> r == Err::<Transfer, Error>(
                Error::NotWhitelisted,
            ),
            old(self).access_control.spec_is_whitelisted(caller) && old(
                self,
            ).spec_token_id(to) is Some ==> r == Err::<Transfer, Error>(
                Error::UserAlreadyOwnsToken,
            ),
            old(self).access_control.spec_is_whitelisted(caller) && old(self).spec_token_id(to) is None && old(self).has_owner_entry(old(self).next_id())
                ==> r == Err::<Transfer, Error>(Error::TokenAlreadyExists),
            old(self).access_control.spec_is_whitelisted(caller) && old(self).spec_token_id(to) is None && !old(self).has_owner_entry(old(self).next_id())
                && (amount_of(old(self).balances.view(), to) + 1 > u256_max() || old(
                self,
            ).spec_total_supply() + 1 > u256_max()) ==> r == Err::<Transfer, Error>(
                Error::AdditionOverflow,
            ),
            old(self).access_control.spec_is_whitelisted(caller) && old(self).spec_token_id(to) is None && !old(self).has_owner_entry(old(self).next_id())
                && amount_of(old(self).balances.view(), to) + 1 <= u256_max() && old(
                self,
            ).spec_total_supply() + 1 <= u256_max() ==> r is Ok,
            r matches Ok(t) ==> {
                &&& t.from is None
                &&& t.to == Some(to)
                &&& t.token_id.value() == old(self).next_id()
                &&& final(self).id_gen == Some(t.token_id)
                &&& final(self).spec_total_supply() == old(self).spec_total_supply() + 1
                &&& amount_of(final(self).balances.view(), to) == amount_of(
                    old(self).balances.view(),
                    to,
                ) + 1
                &&& forall|a: Address|
                    a != to ==> amount_of(final(self).balances.view(), a) == amount_of(
                        old(self).balances.view(),
                        a,
                    )
                &&& final(self).owner_entry(t.token_id.value()) == Some(Some(to))
                &&& forall|id: nat|
                    id != t.token_id.value() ==> final(self).owner_entry(id) == old(
                        self,
                    ).owner_entry(id)
                &&& final(self).tokens.view() == old(self).tokens.view().insert(
                    to,
                    Some(t.token_id),
                )
                &&& final(self).access_control == old(self).access_control
            },
    {
        self.access_control.ensure_whitelisted(caller)?;
        if self.token_id(to).is_some() {
            return Err(Error::UserAlreadyOwnsToken);
        }
        let token_id = match self.id_gen {
            None => U256::zero(),
            Some(v) => v.checked_add(&U256::from_u64(1)).unwrap(),
        };
        if self.token_exists(token_id) {
            return Err(Error::TokenAlreadyExists);
        }
        let balance = self.balance_of(to);
        let new_balance = match balance.checked_add(&U256::from_u64(1)) {
            Some(b) => b,
            None => {
                return Err(Error::AdditionOverflow);
            },
        };
        let new_supply = match self.total_supply().checked_add(&U256::from_u64(1)) {
            Some(s) => s,
            None => {
                return Err(Error::AdditionOverflow);
            },
        };
        self.id_gen = Some(token_id);
        self.balances.set(to, new_balance);
        self.total_supply = Some(new_supply);
        self.tokens.set(to, Some(token_id));
        proof {
            assert(old(self).spec_token_id(to) is None);
            assert(amount_of(old(self).balances.view(), to) == 0);
            assert forall|x: Address| #[trigger]
                amount_of(self.balances.view(), x) == if self.spec_token_id(x) is Some {
                    1nat
                } else {
                    0nat
                } by {
                if x != to {
                    assert(amount_of(self.balances.view(), x) == amount_of(
                        old(self).balances.view(),
                        x,
                    ));
                    assert(self.spec_token_id(x) == old(self).spec_token_id(x));
                }
            }
        }
        self.set_owner(token_id, Some(to));
        Ok(Transfer { from: None, to: Some(to), token_id })
    }

    /// Burns the token of `owner`, if it has one. Only a whitelisted caller
    /// may burn. Returns the transfer event, or `None` when there was
    /// nothing to burn.
    pub fn burn(&mut self, caller: Address, owner: Address) -> (r: Result<Option<Transfer>, Error>)
        requires
            old(self).wf(),
        ensures
            final(self).wf(),
            r is Err ==> *final(self) == *old(self),
            !old(self).access_control.spec_is_whitelisted(caller) ==> r == Err::<
                Option<Transfer>,
                Error,
            >(Error::NotWhitelisted),
            old(self).access_control.spec_is_whitelisted(caller) && old(self).spec_token_id(owner)
                is None ==> r == Ok::<Option<Transfer>, Error>(None) && *final(self) == *old(self),
            old(self).access_control.spec_is_whitelisted(caller) && old(self).spec_token_id(owner)
                is Some && (amount_of(old(self).balances.view(), owner) < 1 || old(
                self,
            ).spec_total_supply() < 1) ==> r == Err::<Option<Transfer>, Error>(
                Error::SubtractingOverflow,
            ),
            old(self).access_control.spec_is_whitelisted(caller) && old(self).spec_token_id(owner)
                is Some && amount_of(old(self).balances.view(), owner) >= 1 && old(
                self,
            ).spec_total_supply() >= 1 ==> r is Ok,
            r matches Ok(Some(t)) ==> {
                &&& t.from == Some(owner)
                &&& t.to is None
                &&& Some(t.token_id) == old(self).spec_token_id(owner)
                &&& amount_of(final(self).balances.view(), owner) == amount_of(
                    old(self).balances.view(),
                    owner,
                ) - 1
                &&& forall|a: Address|
                    a != owner ==> amount_of(final(self).balances.view(), a) == amount_of(
                        old(self).balances.view(),
                        a,
                    )
                &&& final(self).spec_total_supply() == old(self).spec_total_supply() - 1
                &&& final(self).owner_entry(t.token_id.value()) == Some(None::<Address>)
                &&& forall|id: nat|
                    id != t.token_id.value() ==> final(self).owner_entry(id) == old(
                        self,
                    ).owner_entry(id)
                &&& final(self).tokens.view() == old(self).tokens.view().insert(owner, None)
                &&& final(self).id_gen == old(self).id_gen
                &&& final(self).access_control == old(self).access_control
            },
    {
        self.access_control.ensure_whitelisted(caller)?;
        let token_id = match self.token_id(owner) {
            Some(t) => t,
            None => {
                return Ok(None);
            },
        };
        let new_balance = match self.balance_of(owner).checked_sub(&U256::from_u64(1)) {
            Some(b) => b,
            None => {
                return Err(Error::SubtractingOverflow);
            },
        };
        let new_supply = match self.total_supply().checked_sub(&U256::from_u64(1)) {
            Some(s) => s,
            None => {
                return Err(Error::SubtractingOverflow);
            },
        };
        self.balances.set(owner, new_balance);
        self.total_supply = Some(new_supply);
        self.tokens.set(owner, None);
        proof {
            assert forall|x: Address| #[trigger]
                amount_of(self.balances.view(), x) == if self.spec_token_id(x) is Some {
                    1nat
                } else {
                    0nat
                } by {
                if x != owner {
                    assert(amount_of(self.balances.view(), x) == amount_of(
                        old(self).balances.view(),
                        x,
                    ));
                    assert(self.spec_token_id(x) == old(self).spec_token_id(x));
                }
            }
        }
        self.set_owner(token_id, None);
        Ok(Some(Transfer { from: Some(owner), to: None, token_id }))
    }
}


/// The VA token contract: a [`DaoNft`] whose holders are the DAO's voting
/// associates.
#[derive(Debug)]
pub struct VaNftContract {
    pub token: DaoNft,
}

/// The KYC token contract: a [`DaoNft`] whose holders passed the KYC
/// process; each address can own only one.
#[derive(Debug)]
pub struct KycNftContract {
    pub token: DaoNft,
}

impl VaNftContract {
    /// Constructor: the deployer owns the contract; the token gets its
    /// metadata.
    pub fn init(deployer: Address, name: String, symbol: String, base_uri: String) -> (r:
        VaNftContract)
        ensures
            r.token.wf(),
            r.token.name@ == name@,
            r.token.symbol@ == symbol@,
            r.token.base_uri@ == base_uri@,
            r.token.access_control.owner.owner == Some(deployer),
            r.token.access_control.spec_is_whitelisted(deployer),
            r.token.owners@.len() == 0,
            r.token.id_gen is None,
            r.token.total_supply is None,
    {
        let mut token = DaoNft::new();
        token.init(deployer, name, symbol, base_uri);
        VaNftContract { token }
    }
}

impl KycNftContract {
    /// Constructor: the deployer owns the contract; the token gets its
    /// metadata.
    pub fn init(deployer: Address, name: String, symbol: String, base_uri: String) -> (r:
        KycNftContract)
        ensures
            r.token.wf(),
            r.token.name@ == name@,
            r.token.symbol@ == symbol@,
            r.token.base_uri@ == base_uri@,
            r.token.access_control.owner.owner == Some(deployer),
            r.token.access_control.spec_is_whitelisted(deployer),
            r.token.owners@.len() == 0,
            r.token.id_gen is None,
            r.token.total_supply is None,
    {
        let mut token = DaoNft::new();
        token.init(deployer, name, symbol, base_uri);
        KycNftContract { token }
    }
}

} // verus!
