//! Aggregated data about reputation balances.

use vstd::prelude::*;

use crate::address_map::{amounts, AddressMap};
use crate::core_contracts::reputation::balances::BalanceStorage;
use crate::types::{Address, Balance};
use crate::u256::{u256_max, U256};

verus! {

/// Balances of a set of addresses and a supply.
#[derive(Debug)]
pub struct AggregatedBalance {
    pub balances: AddressMap<Balance>,
    pub total_supply: Balance,
}

impl AggregatedBalance {
    pub fn new(balances: AddressMap<Balance>, total_supply: Balance) -> (r: Self)
        ensures
            r.balances == balances,
            r.total_supply == total_supply,
    {
        AggregatedBalance { balances, total_supply }
    }

    pub fn balances(&self) -> (r: &AddressMap<Balance>)
        ensures
            r == &self.balances,
    {
        &self.balances
    }

    pub fn total_supply(&self) -> (r: Balance)
        ensures
            r == self.total_supply,
    {
        self.total_supply
    }
}

/// The sum of the balances of a list of addresses, repeats counted each time.
pub open spec fn sum_balances_of(storage: &BalanceStorage, addresses: Seq<Address>) -> nat
    decreases addresses.len(),
{
    if addresses.len() == 0 {
        0
    } else {
        sum_balances_of(storage, addresses.drop_last()) + storage.spec_balance_of(
            addresses.last(),
        )
    }
}

/// The balances of the addresses of a list.
pub open spec fn balances_of(storage: &BalanceStorage, addresses: Seq<Address>) -> Map<
    Address,
    nat,
> {
    Map::new(|a: Address| addresses.contains(a), |a: Address| storage.spec_balance_of(a))
}

/// Aggregated data about the balances of a reputation storage.
pub struct BalanceAggregates;

impl BalanceAggregates {
    /// Gets the balances of all the token holders and the total supply.
    pub fn all_balances(storage: &BalanceStorage) -> (r: AggregatedBalance)
        requires
            storage.balances.wf(),
        ensures
            r.balances.wf(),
            amounts(r.balances.view()) == balances_of(storage, storage.holders@),
            r.total_supply.value() == storage.total_supply.spec_value(),
    {
        let mut balances: AddressMap<Balance> = AddressMap::new();
        let mut i: usize = 0;
        while i < storage.holders.len()
            invariant
                i <= storage.holders@.len(),
                storage.balances.wf(),
                balances.wf(),
                amounts(balances.view()) == balances_of(
                    storage,
                    storage.holders@.subrange(0, i as int),
                ),
            decreases storage.holders@.len() - i,
        {
            let address = storage.holders[i];
            let ghost before = amounts(balances.view());
            let balance = storage.balance_of(address);
            balances.set(address, balance);
            proof {
                assert(amounts(balances.view()) =~= before.insert(address, balance.value()));
                let prefix = storage.holders@.subrange(0, i + 1);
                assert forall|a: Address| prefix.contains(a) <==> (
                storage.holders@.subrange(0, i as int).contains(a) || a == address) by {
                    if prefix.contains(a) {
                        let k = choose|k: int| 0 <= k < prefix.len() && prefix[k] == a;
                        if k < i {
                            assert(storage.holders@.subrange(0, i as int)[k] == a);
                        }
                    }
                    if storage.holders@.subrange(0, i as int).contains(a) {
                        let k = choose|k: int|
                            0 <= k < i && storage.holders@.subrange(0, i as int)[k] == a;
                        assert(prefix[k] == a);
                    }
                    if a == address {
                        assert(prefix[i as int] == a);
                    }
                }
                assert(amounts(balances.view()) =~= balances_of(storage, prefix));
            }
            i += 1;
        }
        assert(storage.holders@.subrange(0, i as int) =~= storage.holders@);
        AggregatedBalance::new(balances, storage.total_supply())
    }

    /// Gets the balances of the given addresses and the sum of them, an
    /// address given twice counted twice.
    pub fn partial_balances(storage: &BalanceStorage, addresses: &Vec<Address>) -> (r:
        AggregatedBalance)
        requires
            storage.balances.wf(),
            sum_balances_of(storage, addresses@) <= u256_max(),
        ensures
            r.balances.wf(),
            amounts(r.balances.view()) == balances_of(storage, addresses@),
            r.total_supply.value() == sum_balances_of(storage, addresses@),
    {
        let mut balances: AddressMap<Balance> = AddressMap::new();
        let mut partial_supply = U256::zero();
        let mut i: usize = 0;
        while i < addresses.len()
            invariant
                i <= addresses@.len(),
                storage.balances.wf(),
                balances.wf(),
                amounts(balances.view()) == balances_of(storage, addresses@.subrange(0, i as int)),
                partial_supply.value() == sum_balances_of(storage, addresses@.subrange(0, i as int)),
                sum_balances_of(storage, addresses@) <= u256_max(),
            decreases addresses@.len() - i,
        {
            let address = addresses[i];
            let balance = storage.balance_of(address);
            let ghost prefix = addresses@.subrange(0, i + 1);
            proof {
                assert(prefix.drop_last() =~= addresses@.subrange(0, i as int));
                lemma_sum_balances_prefix(storage, addresses@, i + 1);
            }
            let ghost before = amounts(balances.view());
            balances.set(address, balance);
            assert(amounts(balances.view()) =~= before.insert(address, balance.value()));
            partial_supply = partial_supply.checked_add(&balance).unwrap();
            proof {
                assert forall|a: Address| prefix.contains(a) <==> (addresses@.subrange(
                    0,
                    i as int,
                ).contains(a) || a == address) by {
                    if prefix.contains(a) {
                        let k = choose|k: int| 0 <= k < prefix.len() && prefix[k] == a;
                        if k < i {
                            assert(addresses@.subrange(0, i as int)[k] == a);
                        }
                    }
                    if addresses@.subrange(0, i as int).contains(a) {
                        let k = choose|k: int|
                            0 <= k < i && addresses@.subrange(0, i as int)[k] == a;
                        assert(prefix[k] == a);
                    }
                    if a == address {
                        assert(prefix[i as int] == a);
                    }
                }
                assert(amounts(balances.view()) =~= balances_of(storage, prefix));
            }
            i += 1;
        }
        assert(addresses@.subrange(0, i as int) =~= addresses@);
        AggregatedBalance { balances, total_supply: partial_supply }
    }
}

/// The sum over a prefix is not greater than the sum over the whole list.
pub proof fn lemma_sum_balances_prefix(storage: &BalanceStorage, addresses: Seq<Address>, n: int)
    requires
        0 <= n <= addresses.len(),
    ensures
        sum_balances_of(storage, addresses.subrange(0, n)) <= sum_balances_of(storage, addresses),
    decreases addresses.len(),
{
    if n < addresses.len() {
        lemma_sum_balances_prefix(storage, addresses.drop_last(), n);
        assert(addresses.drop_last().subrange(0, n) =~= addresses.subrange(0, n));
    } else {
        assert(addresses.subrange(0, n) =~= addresses);
    }
}

} // verus!
