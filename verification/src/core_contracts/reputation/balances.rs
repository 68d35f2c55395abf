//! Token balances and the total supply.

use vstd::prelude::*;

use crate::address_map::{
    amount_of, amounts, get0, lemma_sum_push, lemma_sum_update, lemma_value_le_sum, sum_values,
    AddressMap,
};
use crate::errors::Error;
use crate::core_contracts::reputation::token::{Burn, Mint};
use crate::modules::access_control::AccessControl;
use crate::types::{Address, Balance};
use crate::u256::{u256_max, U256};

verus! {

/// The total token supply.
#[derive(Clone, Copy, Debug)]
pub struct TotalSupply {
    pub total_supply: Option<Balance>,
}

impl TotalSupply {
    /// The supply: zero until first set.
    pub open spec fn spec_value(&self) -> nat {
        match self.total_supply {
            Some(v) => v.value(),
            None => 0,
        }
    }

    /// Returns the supply; zero until first set.
    pub fn value(&self) -> (r: Balance)
        ensures
            r.value() == self.spec_value(),
    {
        match self.total_supply {
            Some(v) => v,
            None => U256::zero(),
        }
    }

    /// Sets the supply.
    pub fn set(&mut self, total_supply: Balance)
        ensures
            final(self).total_supply == Some(total_supply),
    {
        self.total_supply = Some(total_supply);
    }

    /// Adds to the supply; fails when the sum exceeds 2^256 - 1.
    pub fn add_assign(&mut self, rhs: Balance) -> (r: Result<(), Error>)
        ensures
            old(self).spec_value() + rhs.value() <= u256_max() ==> r is Ok
                && final(self).spec_value() == old(self).spec_value() + rhs.value(),
            old(self).spec_value() + rhs.value() > u256_max() ==> r == Err::<(), Error>(
                Error::TotalSupplyOverflow,
            ) && *final(self) == *old(self),
    {
        match self.value().checked_add(&rhs) {
            Some(v) => {
                self.set(v);
                Ok(())
            },
            None => Err(Error::TotalSupplyOverflow),
        }
    }

    /// Subtracts from the supply; fails when the supply is smaller.
    pub fn sub_assign(&mut self, rhs: Balance) -> (r: Result<(), Error>)
        ensures
            rhs.value() <= old(self).spec_value() ==> r is Ok && final(self).spec_value() == old(self).spec_value() - rhs.value(),
            rhs.value() > old(self).spec_value() ==> r == Err::<(), Error>(Error::TotalSupplyOverflow)
                && *final(self) == *old(self),
    {
        match self.value().checked_sub(&rhs) {
            Some(v) => {
                self.set(v);
                Ok(())
            },
            None => Err(Error::TotalSupplyOverflow),
        }
    }
}

/// The balances of one kind of token ("real" or "passive" reputation) and
/// their total supply.
///
/// A real balance is a token a user holds; a passive balance is a potential
/// one, kept for a user not eligible to hold real tokens, so that the total
/// value of the system stays known.
#[derive(Debug)]
pub struct BalanceStorage {
    pub balances: AddressMap<Balance>,
    pub holders: Vec<Address>,
    pub total_supply: TotalSupply,
}

/// In a well-formed storage, which every operation keeps, the total supply
/// is the sum of the balances, so no balance exceeds it.
pub proof fn law_balance_at_most_supply(storage: BalanceStorage, a: Address)
    requires
        storage.wf(),
    ensures
        storage.total_supply.spec_value() == sum_values(storage.balances.entries@),
        storage.spec_balance_of(a) <= storage.total_supply.spec_value(),
{
    storage.lemma_balance_le_supply(a);
}

/// Minting `amount` for `a`.
pub open spec fn minted(m: Map<Address, nat>, a: Address, amount: nat) -> Map<Address, nat> {
    m.insert(a, get0(m, a) + amount)
}

/// Applies mints in order.
pub open spec fn apply_mints(m: Map<Address, nat>, mints: Seq<(Address, Balance)>) -> Map<
    Address,
    nat,
>
    decreases mints.len(),
{
    if mints.len() == 0 {
        m
    } else {
        apply_mints(minted(m, mints[0].0, mints[0].1.value()), mints.drop_first())
    }
}

/// Applies burns in order; nothing when a burn exceeds the balance it
/// burns from.
pub open spec fn apply_burns(m: Map<Address, nat>, burns: Seq<(Address, Balance)>) -> Option<
    Map<Address, nat>,
>
    decreases burns.len(),
{
    if burns.len() == 0 {
        Some(m)
    } else if get0(m, burns[0].0) < burns[0].1.value() {
        None
    } else {
        apply_burns(
            m.insert(burns[0].0, (get0(m, burns[0].0) - burns[0].1.value()) as nat),
            burns.drop_first(),
        )
    }
}

/// The sum of the amounts of a list.
pub open spec fn sum_amounts(list: Seq<(Address, Balance)>) -> nat
    decreases list.len(),
{
    if list.len() == 0 {
        0
    } else {
        list[0].1.value() + sum_amounts(list.drop_first())
    }
}

/// The keys of a list strictly increase, as those of an ordered map do.
pub open spec fn strictly_ordered(list: Seq<(Address, Balance)>) -> bool {
    forall|i: int, j: int| 0 <= i < j < list.len() ==> list[i].0.id < list[j].0.id
}

/// Minting from a list with each address once adds to each listed address
/// exactly its amount and leaves every other balance as it is.
pub proof fn law_mints_add_their_amounts(
    m: Map<Address, nat>,
    mints: Seq<(Address, Balance)>,
    a: Address,
)
    requires
        strictly_ordered(mints),
    ensures
        forall|i: int|
            0 <= i < mints.len() && (#[trigger] mints[i]).0 == a ==> get0(apply_mints(m, mints), a)
                == get0(m, a) + mints[i].1.value(),
        (forall|i: int| 0 <= i < mints.len() ==> (#[trigger] mints[i]).0 != a) ==> get0(
            apply_mints(m, mints),
            a,
        ) == get0(m, a),
    decreases mints.len(),
{
    if mints.len() > 0 {
        let rest = mints.drop_first();
        let m1 = minted(m, mints[0].0, mints[0].1.value());
        assert(strictly_ordered(rest)) by {
            assert forall|i: int, j: int| 0 <= i < j < rest.len() implies rest[i].0.id
                < rest[j].0.id by {
                assert(rest[i] == mints[i + 1] && rest[j] == mints[j + 1]);
            }
        }
        law_mints_add_their_amounts(m1, rest, a);
        assert forall|i: int|
            0 <= i < mints.len() && (#[trigger] mints[i]).0 == a implies get0(
            apply_mints(m, mints),
            a,
        ) == get0(m, a) + mints[i].1.value() by {
            if i == 0 {
                assert forall|k: int| 0 <= k < rest.len() implies (#[trigger] rest[k]).0 != a by {
                    assert(rest[k] == mints[k + 1]);
                }
            } else {
                assert(rest[i - 1] == mints[i]);
                assert(mints[0].0.id < mints[i].0.id);
            }
        }
        if forall|i: int| 0 <= i < mints.len() ==> (#[trigger] mints[i]).0 != a {
            assert(mints[0].0 != a);
            assert forall|k: int| 0 <= k < rest.len() implies (#[trigger] rest[k]).0 != a by {
                assert(rest[k] == mints[k + 1]);
            }
        }
    }
}

/// Burning from a list with each address once succeeds exactly when every
/// burn is covered by the balance it burns from; it then takes from each
/// listed address exactly its amount and leaves every other balance as it
/// is.
pub proof fn law_burns_take_their_amounts(
    m: Map<Address, nat>,
    burns: Seq<(Address, Balance)>,
    a: Address,
)
    requires
        strictly_ordered(burns),
    ensures
        apply_burns(m, burns) is Some <==> forall|i: int|
            0 <= i < burns.len() ==> get0(m, (#[trigger] burns[i]).0) >= burns[i].1.value(),
        apply_burns(m, burns) is Some ==> forall|i: int|
            0 <= i < burns.len() && (#[trigger] burns[i]).0 == a ==> get0(
                apply_burns(m, burns)->0,
                a,
            ) == get0(m, a) - burns[i].1.value(),
        apply_burns(m, burns) is Some && (forall|i: int|
            0 <= i < burns.len() ==> (#[trigger] burns[i]).0 != a) ==> get0(
            apply_burns(m, burns)->0,
            a,
        ) == get0(m, a),
    decreases burns.len(),
{
    if burns.len() > 0 {
        let rest = burns.drop_first();
        let b0 = burns[0];
        let m1 = m.insert(b0.0, (get0(m, b0.0) - b0.1.value()) as nat);
        assert(strictly_ordered(rest)) by {
            assert forall|i: int, j: int| 0 <= i < j < rest.len() implies rest[i].0.id
                < rest[j].0.id by {
                assert(rest[i] == burns[i + 1] && rest[j] == burns[j + 1]);
            }
        }
        law_burns_take_their_amounts(m1, rest, a);
        law_burns_take_their_amounts(m1, rest, b0.0);
        // the later burns see the balances the first one did not touch
        assert forall|k: int| 0 <= k < rest.len() implies get0(m1, (#[trigger] rest[k]).0) == get0(
            m,
            rest[k].0,
        ) by {
            assert(rest[k] == burns[k + 1]);
            assert(burns[0].0.id < burns[k + 1].0.id);
        }
        if apply_burns(m, burns) is Some {
            assert(get0(m, b0.0) >= b0.1.value());
            assert forall|i: int| 0 <= i < burns.len() implies get0(m, (#[trigger] burns[i]).0)
                >= burns[i].1.value() by {
                if i > 0 {
                    assert(rest[i - 1] == burns[i]);
                }
            }
            assert forall|i: int|
                0 <= i < burns.len() && (#[trigger] burns[i]).0 == a implies get0(
                apply_burns(m, burns)->0,
                a,
            ) == get0(m, a) - burns[i].1.value() by {
                if i == 0 {
                    assert forall|k: int| 0 <= k < rest.len() implies (#[trigger] rest[k]).0
                        != a by {
                        assert(rest[k] == burns[k + 1]);
                    }
                } else {
                    assert(rest[i - 1] == burns[i]);
                    assert(burns[0].0.id < burns[i].0.id);
                }
            }
            if forall|i: int| 0 <= i < burns.len() ==> (#[trigger] burns[i]).0 != a {
                assert(burns[0].0 != a);
                assert forall|k: int| 0 <= k < rest.len() implies (#[trigger] rest[k]).0 != a by {
                    assert(rest[k] == burns[k + 1]);
                }
            }
        } else {
            if get0(m, b0.0) >= b0.1.value() {
                assert(apply_burns(m1, rest) is None);
                let k = choose|k: int|
                    0 <= k < rest.len() && get0(m1, (#[trigger] rest[k]).0) < rest[k].1.value();
                assert(rest[k] == burns[k + 1]);
            }
        }
    }
}

impl BalanceStorage {
    /// The entries are unique and the total supply is the sum of the balances.
    pub open spec fn wf(&self) -> bool {
        &&& self.balances.wf()
        &&& self.total_supply.spec_value() == sum_values(self.balances.entries@)
    }

    /// The balance of an address.
    pub open spec fn spec_balance_of(&self, a: Address) -> nat {
        amount_of(self.balances.view(), a)
    }

    /// No balances, no holders, no supply.
    pub fn new() -> (r: BalanceStorage)
        ensures
            r.wf(),
            r.balances.view() == Map::<Address, Balance>::empty(),
            r.holders@.len() == 0,
            r.total_supply.total_supply is None,
    {
        BalanceStorage {
            balances: AddressMap::new(),
            holders: Vec::new(),
            total_supply: TotalSupply { total_supply: None },
        }
    }

    /// Stores a new balance and keeps the sum of balances in step.
    fn store(&mut self, owner: Address, new_balance: Balance)
        requires
            old(self).balances.wf(),
        ensures
            final(self).balances.wf(),
            final(self).balances.view() == old(self).balances.view().insert(owner, new_balance),
            sum_values(final(self).balances.entries@) + amount_of(old(self).balances.view(), owner)
                == sum_values(old(self).balances.entries@) + new_balance.value(),
            final(self).holders == old(self).holders,
            final(self).total_supply == old(self).total_supply,
    {
        let ghost old_entries = self.balances.entries@;
        let ghost present = self.balances.view().contains_key(owner);
        let ghost idx = crate::address_map::key_index(old_entries, owner);
        proof {
            if present {
                let c = choose|i: int| 0 <= i < old_entries.len() && old_entries[i].0 == owner;
                self.balances.lemma_index(c);
                self.balances.lemma_index_of_key(c);
            }
        }
        self.balances.set(owner, new_balance);
        proof {
            if present {
                lemma_sum_update(old_entries, idx, (owner, new_balance));
            } else {
                lemma_sum_push(old_entries, (owner, new_balance));
            }
        }
    }

    /// Proves a balance is not greater than the total supply.
    proof fn lemma_balance_le_supply(&self, a: Address)
        requires
            self.wf(),
        ensures
            self.spec_balance_of(a) <= self.total_supply.spec_value(),
    {
        if self.balances.view().contains_key(a) {
            let c = choose|i: int|
                0 <= i < self.balances.entries@.len() && self.balances.entries@[i].0 == a;
            self.balances.lemma_index(c);
            lemma_value_le_sum(self.balances.entries@, c);
        }
    }

    /// Increases the balance of `recipient` and the total supply by `amount`,
    /// and records `recipient` as a holder. Only a whitelisted caller may
    /// mint; a mint that overflows the balance or the supply fails. Returns
    /// the [Mint] event.
    pub fn mint(
        &mut self,
        access_control: &AccessControl,
        caller: Address,
        recipient: Address,
        amount: Balance,
    ) -> (r: Result<Mint, Error>)
        requires
            old(self).wf(),
            access_control.wf(),
        ensures
            final(self).wf(),
            !access_control.spec_is_whitelisted(caller) ==> r == Err::<Mint, Error>(
                Error::NotWhitelisted,
            ),
            access_control.spec_is_whitelisted(caller) && old(self).spec_balance_of(recipient)
                + amount.value() > u256_max() ==> r == Err::<Mint, Error>(Error::ArithmeticOverflow),
            access_control.spec_is_whitelisted(caller) && old(self).spec_balance_of(recipient)
                + amount.value() <= u256_max() && old(self).total_supply.spec_value()
                + amount.value() > u256_max() ==> r == Err::<Mint, Error>(Error::TotalSupplyOverflow),
            access_control.spec_is_whitelisted(caller) && old(self).spec_balance_of(recipient)
                + amount.value() <= u256_max() && old(self).total_supply.spec_value()
                + amount.value() <= u256_max() ==> r == Ok::<Mint, Error>(
                Mint { address: recipient, amount },
            ),
            r is Err ==> final(self).balances.view() == old(self).balances.view() && final(self).holders@ == old(self).holders@ && final(self).total_supply == old(self).total_supply,
            r is Ok ==> {
                &&& access_control.spec_is_whitelisted(caller)
                &&& amounts(final(self).balances.view()) == minted(
                    amounts(old(self).balances.view()),
                    recipient,
                    amount.value(),
                )
                &&& final(self).total_supply.spec_value() == old(self).total_supply.spec_value()
                    + amount.value()
                &&& final(self).holders@ == old(self).holders@.push(recipient)
                &&& final(self).spec_balance_of(recipient) == old(self).spec_balance_of(recipient)
                    + amount.value()
            },
    {
        access_control.ensure_whitelisted(caller)?;
        let balance = self.balance_of(recipient);
        let new_balance = match balance.checked_add(&amount) {
            Some(v) => v,
            None => {
                return Err(Error::ArithmeticOverflow);
            },
        };
        let new_supply = match self.total_supply.value().checked_add(&amount) {
            Some(v) => v,
            None => {
                return Err(Error::TotalSupplyOverflow);
            },
        };
        self.store(recipient, new_balance);
        self.total_supply.set(new_supply);
        self.holders.push(recipient);
        proof {
            assert(amounts(self.balances.view()) =~= minted(
                amounts(old(self).balances.view()),
                recipient,
                amount.value(),
            ));
        }
        Ok(Mint { address: recipient, amount })
    }

    /// Decreases the balance of `owner` and the total supply by `amount`.
    /// Only a whitelisted caller may burn; a burn of more than the balance
    /// fails. Returns the [Burn] event.
    pub fn burn(
        &mut self,
        access_control: &AccessControl,
        caller: Address,
        owner: Address,
        amount: Balance,
    ) -> (r: Result<Burn, Error>)
        requires
            old(self).wf(),
            access_control.wf(),
        ensures
            final(self).wf(),
            final(self).holders == old(self).holders,
            !access_control.spec_is_whitelisted(caller) ==> r == Err::<Burn, Error>(
                Error::NotWhitelisted,
            ),
            access_control.spec_is_whitelisted(caller) && old(self).spec_balance_of(owner)
                < amount.value() ==> r == Err::<Burn, Error>(Error::InsufficientBalance),
            access_control.spec_is_whitelisted(caller) && old(self).spec_balance_of(owner)
                >= amount.value() ==> r == Ok::<Burn, Error>(Burn { address: owner, amount }),
            r is Err ==> final(self).balances.view() == old(self).balances.view()
                && final(self).total_supply == old(self).total_supply,
            r is Ok ==> {
                &&& amounts(final(self).balances.view()) == amounts(old(self).balances.view()).insert(
                    owner,
                    (old(self).spec_balance_of(owner) - amount.value()) as nat,
                )
                &&& final(self).total_supply.spec_value() == old(self).total_supply.spec_value()
                    - amount.value()
                &&& final(self).spec_balance_of(owner) == old(self).spec_balance_of(owner)
                    - amount.value()
            },
    {
        access_control.ensure_whitelisted(caller)?;
        let balance = self.balance_of(owner);
        let new_balance = match balance.checked_sub(&amount) {
            Some(v) => v,
            None => {
                return Err(Error::InsufficientBalance);
            },
        };
        proof {
            self.lemma_balance_le_supply(owner);
        }
        let new_supply = match self.total_supply.value().checked_sub(&amount) {
            Some(v) => v,
            None => {
                return Err(Error::TotalSupplyOverflow);
            },
        };
        self.store(owner, new_balance);
        self.total_supply.set(new_supply);
        proof {
            assert(amounts(self.balances.view()) =~= amounts(old(self).balances.view()).insert(
                owner,
                (old(self).spec_balance_of(owner) - amount.value()) as nat,
            ));
        }
        Ok(Burn { address: owner, amount })
    }

    /// Burns all the tokens of `owner`. Only a whitelisted caller may burn.
    /// Returns the [Burn] event, with the whole balance.
    pub fn burn_all(&mut self, access_control: &AccessControl, caller: Address, owner: Address) -> (r:
        Result<Burn, Error>)
        requires
            old(self).wf(),
            access_control.wf(),
        ensures
            final(self).wf(),
            final(self).holders == old(self).holders,
            r is Err <==> !access_control.spec_is_whitelisted(caller),
            r is Err ==> r == Err::<Burn, Error>(Error::NotWhitelisted) && final(self).balances.view() == old(self).balances.view() && final(self).total_supply == old(self).total_supply,
            r matches Ok(e) ==> e.address == owner && e.amount.value() == old(self).spec_balance_of(owner),
            r is Ok ==> {
                &&& amounts(final(self).balances.view()) == amounts(old(self).balances.view()).insert(
                    owner,
                    0,
                )
                &&& final(self).total_supply.spec_value() == old(self).total_supply.spec_value()
                    - old(self).spec_balance_of(owner)
            },
    {
        access_control.ensure_whitelisted(caller)?;
        let balance = self.balance_of(owner);
        self.burn(access_control, caller, owner, balance)
    }

    /// Performs mints and then burns for multiple accounts at once. Each
    /// list is ordered by address with no address twice, as an ordered map
    /// is. Only a whitelisted caller may call it; it fails when a burn
    /// exceeds the balance it burns from at that point.
    pub fn bulk_mint_burn(
        &mut self,
        access_control: &AccessControl,
        caller: Address,
        mints: &Vec<(Address, Balance)>,
        burns: &Vec<(Address, Balance)>,
    ) -> (r: Result<(), Error>)
        requires
            old(self).wf(),
            access_control.wf(),
            strictly_ordered(mints@),
            strictly_ordered(burns@),
            old(self).total_supply.spec_value() + sum_amounts(mints@) <= u256_max(),
        ensures
            final(self).wf(),
            final(self).holders == old(self).holders,
            !access_control.spec_is_whitelisted(caller) ==> r == Err::<(), Error>(
                Error::NotWhitelisted,
            ),
            access_control.spec_is_whitelisted(caller) && apply_burns(
                apply_mints(amounts(old(self).balances.view()), mints@),
                burns@,
            ) is None ==> r == Err::<(), Error>(Error::InsufficientBalance),
            access_control.spec_is_whitelisted(caller) && apply_burns(
                apply_mints(amounts(old(self).balances.view()), mints@),
                burns@,
            ) is Some ==> r is Ok,
            r is Err ==> final(self).balances.view() == old(self).balances.view()
                && final(self).total_supply == old(self).total_supply,
            r is Ok ==> {
                &&& access_control.spec_is_whitelisted(caller)
                &&& apply_burns(apply_mints(amounts(old(self).balances.view()), mints@), burns@)
                    == Some(amounts(final(self).balances.view()))
            },
    {
        access_control.ensure_whitelisted(caller)?;
        let work = BalanceStorage {
            balances: self.balances.duplicate(),
            holders: Vec::new(),
            total_supply: self.total_supply,
        };
        assert(work.balances.view() =~= self.balances.view());
        match Self::apply_mints_and_burns(work, mints, burns) {
            Ok(done) => {
                self.balances = done.balances;
                self.total_supply = done.total_supply;
                Ok(())
            },
            Err(e) => Err(e),
        }
    }

    /// Applies mints and then burns to a copy of the storage.
    fn apply_mints_and_burns(
        start: BalanceStorage,
        mints: &Vec<(Address, Balance)>,
        burns: &Vec<(Address, Balance)>,
    ) -> (r: Result<BalanceStorage, Error>)
        requires
            start.wf(),
            start.total_supply.spec_value() + sum_amounts(mints@) <= u256_max(),
        ensures
            match r {
                Ok(done) => {
                    &&& done.wf()
                    &&& apply_burns(apply_mints(amounts(start.balances.view()), mints@), burns@)
                        == Some(amounts(done.balances.view()))
                },
                Err(e) => {
                    &&& e == Error::InsufficientBalance
                    &&& apply_burns(apply_mints(amounts(start.balances.view()), mints@), burns@) is None
                },
            },
    {
        let mut work = start;
        let ghost m0 = amounts(work.balances.view());
        assert(mints@.subrange(0, mints@.len() as int) =~= mints@);
        let mut i: usize = 0;
        while i < mints.len()
            invariant
                i <= mints@.len(),
                m0 == amounts(start.balances.view()),
                work.wf(),
                apply_mints(m0, mints@) == apply_mints(
                    amounts(work.balances.view()),
                    mints@.subrange(i as int, mints@.len() as int),
                ),
                work.total_supply.spec_value() + sum_amounts(
                    mints@.subrange(i as int, mints@.len() as int),
                ) <= u256_max(),
            decreases mints@.len() - i,
        {
            let (address, amount) = mints[i];
            let ghost rest = mints@.subrange(i as int, mints@.len() as int);
            proof {
                work.lemma_balance_le_supply(address);
                assert(rest.drop_first() =~= mints@.subrange(i + 1, mints@.len() as int));
            }
            let balance = work.balance_of(address);
            let new_balance = balance.checked_add(&amount).unwrap();
            let new_supply = work.total_supply.value().checked_add(&amount).unwrap();
            let ghost before = amounts(work.balances.view());
            work.store(address, new_balance);
            work.total_supply.set(new_supply);
            proof {
                assert(amounts(work.balances.view()) =~= minted(before, address, amount.value()));
            }
            i += 1;
        }
        proof {
            assert(mints@.subrange(i as int, mints@.len() as int) =~= Seq::<(Address, Balance)>::empty());
        }
        let ghost m1 = amounts(work.balances.view());
        assert(m1 == apply_mints(m0, mints@));
        assert(burns@.subrange(0, burns@.len() as int) =~= burns@);
        let mut j: usize = 0;
        while j < burns.len()
            invariant
                j <= burns@.len(),
                m0 == amounts(start.balances.view()),
                m1 == apply_mints(m0, mints@),
                work.wf(),
                apply_burns(m1, burns@) == apply_burns(
                    amounts(work.balances.view()),
                    burns@.subrange(j as int, burns@.len() as int),
                ),
            decreases burns@.len() - j,
        {
            let (address, amount) = burns[j];
            let ghost rest = burns@.subrange(j as int, burns@.len() as int);
            proof {
                work.lemma_balance_le_supply(address);
                assert(rest.drop_first() =~= burns@.subrange(j + 1, burns@.len() as int));
            }
            let balance = work.balance_of(address);
            let new_balance = match balance.checked_sub(&amount) {
                Some(v) => v,
                None => {
                    proof {
                        assert(get0(amounts(work.balances.view()), address) == balance.value());
                        assert(rest[0] == (address, amount));
                    }
                    return Err(Error::InsufficientBalance);
                },
            };
            let new_supply = work.total_supply.value().checked_sub(&amount).unwrap();
            let ghost before = amounts(work.balances.view());
            work.store(address, new_balance);
            work.total_supply.set(new_supply);
            proof {
                assert(amounts(work.balances.view()) =~= before.insert(
                    address,
                    (get0(before, address) - amount.value()) as nat,
                ));
            }
            j += 1;
        }
        proof {
            assert(burns@.subrange(j as int, burns@.len() as int) =~= Seq::<(Address, Balance)>::empty());
        }
        Ok(work)
    }

    /// Returns the addresses tokens were minted for, in order, with repeats.
    pub fn holders(&self) -> (r: &Vec<Address>)
        ensures
            r == &self.holders,
    {
        &self.holders
    }

    /// Returns the current balance of an address; zero when it never held
    /// tokens.
    pub fn balance_of(&self, address: Address) -> (r: Balance)
        requires
            self.balances.wf(),
        ensures
            r.value() == self.spec_balance_of(address),
    {
        match self.balances.get(address) {
            Some(b) => b,
            None => U256::zero(),
        }
    }

    /// Returns the total token supply.
    pub fn total_supply(&self) -> (r: Balance)
        ensures
            r.value() == self.total_supply.spec_value(),
    {
        self.total_supply.value()
    }
}

} // verus!
