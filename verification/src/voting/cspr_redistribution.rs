//! How CSPR is shared out: between the DAO's wallet and the rest, and among
//! the VAs in proportion to their reputation.

use vstd::prelude::*;

use crate::address_map::{lemma_sum_push, sum_values};
use crate::configuration::{per_mil_result, Configuration};
use crate::errors::Error;
use crate::types::{Address, Balance};
use crate::u256::u256_max;
use crate::voting::voting_engine::{entry_values, sum_nat};

verus! {

/// The share of each holder: the amount times the holder's balance divided
/// by the total supply, rounded down.
pub open spec fn va_shares(balances: Seq<(Address, Balance)>, amount: nat, total_supply: nat) -> Seq<
    (Address, nat),
>
    decreases balances.len(),
{
    if balances.len() == 0 {
        Seq::empty()
    } else {
        va_shares(balances.drop_last(), amount, total_supply).push(
            (balances.last().0, amount * balances.last().1.value() / total_supply),
        )
    }
}

/// The transfers that share out CSPR among the VAs, in the order of the
/// given balances: each gets `to_redistribute * balance / total_supply`.
pub fn redistribute_cspr_to_all_vas(
    to_redistribute: Balance,
    balances: &Vec<(Address, Balance)>,
    total_supply: Balance,
) -> (r: Vec<(Address, Balance)>)
    requires
        total_supply.value() > 0 || balances@.len() == 0,
        forall|i: int|
            0 <= i < balances@.len() ==> to_redistribute.value() * (#[trigger] balances@[i]).1.value()
                <= u256_max(),
    ensures
        entry_values(r@) == va_shares(balances@, to_redistribute.value(), total_supply.value()),
        r@.len() == balances@.len(),
        forall|i: int|
            0 <= i < balances@.len() ==> (#[trigger] r@[i]).0 == balances@[i].0 && r@[i].1.value()
                == to_redistribute.value() * balances@[i].1.value() / total_supply.value(),
{
    proof {
        if total_supply.value() > 0 {
            law_share_of_each_va(balances@, to_redistribute.value(), total_supply.value());
        }
    }
    let mut r: Vec<(Address, Balance)> = Vec::new();
    let mut i: usize = 0;
    while i < balances.len()
        invariant
            i <= balances@.len(),
            total_supply.value() > 0 || balances@.len() == 0,
            forall|j: int|
                0 <= j < balances@.len() ==> to_redistribute.value() * (#[trigger] balances@[j]).1.value()
                    <= u256_max(),
            entry_values(r@) == va_shares(
                balances@.subrange(0, i as int),
                to_redistribute.value(),
                total_supply.value(),
            ),
        decreases balances@.len() - i,
    {
        let (address, balance) = balances[i];
        let product = to_redistribute.checked_mul(&balance).unwrap();
        let amount = product.checked_div(&total_supply).unwrap();
        proof {
            assert(balances@[i as int] == (address, balance));
            assert(balances@.subrange(0, i + 1).drop_last() =~= balances@.subrange(0, i as int));
            assert(entry_values(r@.push((address, amount))) =~= entry_values(r@).push(
                (address, amount.value()),
            ));
        }
        r.push((address, amount));
        i += 1;
    }
    assert(balances@.subrange(0, i as int) =~= balances@);
    proof {
        assert forall|i: int| 0 <= i < balances@.len() implies (#[trigger] r@[i]).0
            == balances@[i].0 && r@[i].1.value() == to_redistribute.value()
            * balances@[i].1.value() / total_supply.value() by {
            assert(entry_values(r@)[i] == (r@[i].0, r@[i].1.value()));
        }
    }
    r
}

/// Each VA gets its own share, nothing capped or withheld: for a positive
/// total supply, the amount times the VA's balance divided by the total
/// supply, rounded down, in the order of the balances.
pub proof fn law_share_of_each_va(balances: Seq<(Address, Balance)>, amount: nat, total_supply: nat)
    requires
        total_supply > 0,
    ensures
        va_shares(balances, amount, total_supply).len() == balances.len(),
        forall|i: int|
            0 <= i < balances.len() ==> #[trigger] va_shares(balances, amount, total_supply)[i] == (
                balances[i].0,
                amount * balances[i].1.value() / total_supply,
            ),
    decreases balances.len(),
{
    if balances.len() > 0 {
        let prev = balances.drop_last();
        law_share_of_each_va(prev, amount, total_supply);
        let sh = va_shares(balances, amount, total_supply);
        let last = balances.last();
        let q = amount * last.1.value() / total_supply;
        assert(sh == va_shares(prev, amount, total_supply).push((last.0, q)));
        assert forall|i: int| 0 <= i < balances.len() implies #[trigger] va_shares(
            balances,
            amount,
            total_supply,
        )[i] == (balances[i].0, amount * balances[i].1.value() / total_supply) by {
            if i < prev.len() {
                assert(prev[i] == balances[i]);
            }
        }
    }
}

/// The part of an amount that goes to the DAO's wallet and what remains.
#[derive(Clone, Copy, Debug)]
pub struct GovernanceShare {
    /// The DAO's wallet.
    pub wallet: Address,
    /// The payment to the wallet: the amount times the bid escrow payment
    /// ratio, in per-mils.
    pub payment: Balance,
    /// The rest of the amount.
    pub remaining: Balance,
}

/// Splits an amount between the DAO's wallet and the rest. Fails with
/// [`Error::ArithmeticOverflow`] when the payment cannot be computed.
pub fn redistribute_to_governance(amount: Balance, configuration: &Configuration) -> (r: Result<
    GovernanceShare,
    Error,
>)
    requires
        per_mil_result(
            amount.value(),
            configuration.dao_configuration.bid_escrow_payment_ratio.value(),
        ) matches Ok(p) ==> p <= amount.value(),
    ensures
        match per_mil_result(
            amount.value(),
            configuration.dao_configuration.bid_escrow_payment_ratio.value(),
        ) {
            Ok(p) => r matches Ok(s) && s.wallet
                == configuration.dao_configuration.bid_escrow_wallet_address && s.payment.value()
                == p && s.remaining.value() == amount.value() - p,
            Err(e) => r == Err::<GovernanceShare, Error>(e),
        },
{
    let wallet = configuration.bid_escrow_wallet_address();
    let payment = configuration.apply_bid_escrow_payment_ratio_to(amount)?;
    let remaining = amount.checked_sub(&payment).unwrap();
    Ok(GovernanceShare { wallet, payment, remaining })
}

/// The shares times the total supply never exceed the amount times the
/// balances counted so far.
proof fn lemma_shares_bound(balances: Seq<(Address, Balance)>, amount: nat, total_supply: nat)
    requires
        total_supply > 0,
    ensures
        sum_nat(va_shares(balances, amount, total_supply)) * total_supply <= amount * sum_values(
            balances,
        ),
    decreases balances.len(),
{
    if balances.len() == 0 {
        assert(sum_nat(va_shares(balances, amount, total_supply)) == 0);
        assert(0 * total_supply == 0) by (nonlinear_arith);
    } else {
        let prev = balances.drop_last();
        lemma_shares_bound(prev, amount, total_supply);
        let e = balances.last();
        let sh = va_shares(balances, amount, total_supply);
        let sp = va_shares(prev, amount, total_supply);
        assert(sh == sp.push((e.0, amount * e.1.value() / total_supply)));
        assert(sh.drop_last() =~= sp);
        let s = sum_nat(sp);
        let b = sum_values(prev);
        let v = e.1.value();
        let q = amount * v / total_supply;
        assert(sum_nat(sh) == s + q);
        assert(prev.push(e) =~= balances);
        lemma_sum_push(prev, e);
        assert((s + q) * total_supply <= amount * (b + v)) by (nonlinear_arith)
            requires
                s * total_supply <= amount * b,
                q == amount * v / total_supply,
                total_supply > 0,
        ;
    }
}

/// Sharing out CSPR among the VAs never pays out more than the amount
/// shared: when the total supply is the sum of the balances, the shares add
/// up to at most the amount.
pub proof fn law_shares_at_most_amount(balances: Seq<(Address, Balance)>, amount: nat)
    requires
        sum_values(balances) > 0,
    ensures
        sum_nat(va_shares(balances, amount, sum_values(balances))) <= amount,
{
    let t = sum_values(balances);
    lemma_shares_bound(balances, amount, t);
    let s = sum_nat(va_shares(balances, amount, t));
    assert(s <= amount) by (nonlinear_arith)
        requires
            s * t <= amount * t,
            t > 0,
    ;
}

} // verus!
