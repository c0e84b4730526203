//! The change in storage that one call frame made, and what it costs.

use crate::contract_info::{recorded, ContractInfo};
use crate::deposit::Deposit;
use crate::primitives::{price_of, spec_price_of, Balance};
use crate::pro_rata::{
    lemma_full_refund, lemma_nothing_freed, lemma_partial_refund, lemma_refund_is_capped,
    pro_rata, spec_pro_rata, FIXED_ONE,
};
use vstd::prelude::*;
use vstd::seq_lib::{commutative_foldl, lemma_fold_left_permutation};

verus! {

/// What one stored byte and one stored item cost.
#[derive(Clone, Copy, PartialEq, Eq, Debug, Structural)]
pub struct Prices {
    /// The deposit for one byte of storage.
    pub per_byte: Balance,
    /// The deposit for one item of storage.
    pub per_item: Balance,
}

/// A change in storage: how much was added and how much was removed.
#[derive(Clone, Copy, PartialEq, Eq, Debug, Structural)]
pub struct Diff {
    /// How many bytes were added to storage.
    pub bytes_added: u32,
    /// How many bytes were removed from storage.
    pub bytes_removed: u32,
    /// How many storage items were added to storage.
    pub items_added: u32,
    /// How many storage items were removed from storage.
    pub items_removed: u32,
}

/// `a - b`, or zero where `b` is the larger.
pub open spec fn excess(a: u32, b: u32) -> u32 {
    if a > b {
        (a - b) as u32
    } else {
        0
    }
}

/// `a + b`, held at the largest 32-bit number.
pub open spec fn capped_sum(a: u32, b: u32) -> u32 {
    if a + b > u32::MAX {
        u32::MAX
    } else {
        (a + b) as u32
    }
}

/// The deposit on record after `effect` was applied to it: a charge is added
/// and a refund is taken off, held between zero and the largest balance.
pub open spec fn settled_deposit(recorded: Balance, effect: Deposit) -> Balance {
    let settled = recorded + effect.net();
    if settled < 0 {
        0
    } else if settled > Balance::MAX {
        Balance::MAX
    } else {
        settled as Balance
    }
}

/// The deposit for a change of one counter: `added` units were added and
/// `removed` units removed, a unit costs `price`, and `stored` units are on
/// record with `recorded` paid for them. Growth is charged at the price;
/// shrinkage gives back its share of what is on record. Without a record
/// nothing can be given back.
pub open spec fn counter_deposit(
    price: Balance,
    added: u32,
    removed: u32,
    record: Option<(u32, Balance)>,
) -> Deposit {
    let charge = spec_price_of(price, excess(added, removed));
    let refund = match record {
        Some((stored, recorded)) => spec_pro_rata(excess(removed, added), stored, recorded),
        None => 0,
    };
    Deposit::from_net(charge - refund)
}

/// The number of units on record after `added` units were added and `removed`
/// units removed.
pub open spec fn counter_stored(stored: u32, added: u32, removed: u32) -> u32 {
    excess(capped_sum(stored, excess(added, removed)), excess(removed, added))
}

impl Diff {
    /// The change that changes nothing.
    pub open spec fn zero() -> Diff {
        Diff { bytes_added: 0, bytes_removed: 0, items_added: 0, items_removed: 0 }
    }

    /// The sum of two changes, each counter held at the largest 32-bit number.
    pub open spec fn spec_saturating_add(self, rhs: Diff) -> Diff {
        Diff {
            bytes_added: capped_sum(self.bytes_added, rhs.bytes_added),
            bytes_removed: capped_sum(self.bytes_removed, rhs.bytes_removed),
            items_added: capped_sum(self.items_added, rhs.items_added),
            items_removed: capped_sum(self.items_removed, rhs.items_removed),
        }
    }

    /// The function that adds one more change to a sum of changes.
    pub open spec fn adder() -> spec_fn(Diff, Diff) -> Diff {
        |sum: Diff, diff: Diff| sum.spec_saturating_add(diff)
    }

    /// The sum of a sequence of changes.
    pub open spec fn sum(diffs: Seq<Diff>) -> Diff {
        diffs.fold_left(Diff::zero(), Diff::adder())
    }

    /// Whether the change only adds storage.
    pub open spec fn only_adds(self) -> bool {
        self.bytes_removed == 0 && self.items_removed == 0
    }

    /// The deposit for the change in bytes.
    pub open spec fn spec_bytes_deposit(self, prices: Prices, info: Option<ContractInfo>) -> Deposit {
        counter_deposit(
            prices.per_byte,
            self.bytes_added,
            self.bytes_removed,
            match info {
                Some(info) => Some((info.storage_bytes, info.storage_byte_deposit)),
                None => None,
            },
        )
    }

    /// The deposit for the change in items.
    pub open spec fn spec_items_deposit(self, prices: Prices, info: Option<ContractInfo>) -> Deposit {
        counter_deposit(
            prices.per_item,
            self.items_added,
            self.items_removed,
            match info {
                Some(info) => Some((info.storage_items, info.storage_item_deposit)),
                None => None,
            },
        )
    }

    /// The deposit for the whole change: what bytes and items cost, netted.
    pub open spec fn spec_deposit(self, prices: Prices, info: Option<ContractInfo>) -> Deposit {
        self.spec_bytes_deposit(prices, info).spec_saturating_add(
            self.spec_items_deposit(prices, info),
        )
    }

    /// The record after the change was applied to it. The base deposit stays.
    pub open spec fn spec_updated(self, prices: Prices, info: ContractInfo) -> ContractInfo {
        ContractInfo {
            storage_bytes: counter_stored(info.storage_bytes, self.bytes_added, self.bytes_removed),
            storage_items: counter_stored(info.storage_items, self.items_added, self.items_removed),
            storage_byte_deposit: settled_deposit(
                info.storage_byte_deposit,
                self.spec_bytes_deposit(prices, Some(info)),
            ),
            storage_item_deposit: settled_deposit(
                info.storage_item_deposit,
                self.spec_items_deposit(prices, Some(info)),
            ),
            storage_base_deposit: info.storage_base_deposit,
        }
    }

    /// Calculates how much of a charge or refund results from applying the diff
    /// and stores it in the passed `info`, if any.
    ///
    /// Without an `info` only charges are calculated: refunds are a share of the
    /// storage that a contract holds, which only its record knows. Such a diff
    /// must not remove anything.
    ///
    /// A counter that shrinks by all that is on record, or by more, gives
    /// back the whole deposit on record for it; that holds of a record that
    /// holds nothing, too.
    pub fn update_contract(&self, prices: &Prices, info: Option<&mut ContractInfo>) -> (deposit:
        Deposit)
        requires
            recorded(info) is None ==> self.only_adds(),
        ensures
            match info {
                Some(info) => deposit == self.spec_deposit(*prices, Some(*info)) && *final(info)
                    == self.spec_updated(*prices, *info),
                None => deposit == self.spec_deposit(*prices, None),
            },
    {
        let bytes_added: u32 = self.bytes_added.saturating_sub(self.bytes_removed);
        let items_added: u32 = self.items_added.saturating_sub(self.items_removed);
        let mut bytes_deposit = Deposit::Charge(price_of(prices.per_byte, bytes_added));
        let mut items_deposit = Deposit::Charge(price_of(prices.per_item, items_added));

        // Without any contract info we can only calculate diffs which add storage
        let info = match info {
            Some(info) => info,
            None => {
                return bytes_deposit.saturating_add(&items_deposit);
            },
        };

        // Refunds are calculated pro rata based on the accumulated storage within the contract
        let bytes_removed: u32 = self.bytes_removed.saturating_sub(self.bytes_added);
        let items_removed: u32 = self.items_removed.saturating_sub(self.items_added);
        bytes_deposit = bytes_deposit.saturating_add(
            &Deposit::Refund(pro_rata(bytes_removed, info.storage_bytes, info.storage_byte_deposit)),
        );
        items_deposit = items_deposit.saturating_add(
            &Deposit::Refund(pro_rata(items_removed, info.storage_items, info.storage_item_deposit)),
        );

        // We need to update the contract info structure with the new deposits
        info.storage_bytes = info.storage_bytes.saturating_add(bytes_added).saturating_sub(
            bytes_removed,
        );
        info.storage_items = info.storage_items.saturating_add(items_added).saturating_sub(
            items_removed,
        );
        match bytes_deposit {
            Deposit::Charge(amount) => {
                info.storage_byte_deposit = info.storage_byte_deposit.saturating_add(amount);
            },
            Deposit::Refund(amount) => {
                info.storage_byte_deposit = info.storage_byte_deposit.saturating_sub(amount);
            },
        }
        match items_deposit {
            Deposit::Charge(amount) => {
                info.storage_item_deposit = info.storage_item_deposit.saturating_add(amount);
            },
            Deposit::Refund(amount) => {
                info.storage_item_deposit = info.storage_item_deposit.saturating_sub(amount);
            },
        }

        bytes_deposit.saturating_add(&items_deposit)
    }

    /// Adds two diffs counter by counter without overflow.
    pub fn saturating_add(&self, rhs: &Self) -> (sum: Self)
        ensures
            sum == self.spec_saturating_add(*rhs),
    {
        Diff {
            bytes_added: self.bytes_added.saturating_add(rhs.bytes_added),
            bytes_removed: self.bytes_removed.saturating_add(rhs.bytes_removed),
            items_added: self.items_added.saturating_add(rhs.items_added),
            items_removed: self.items_removed.saturating_add(rhs.items_removed),
        }
    }
}

impl Default for Diff {
    /// The change that changes nothing.
    fn default() -> (diff: Self)
        ensures
            diff == Diff::zero(),
    {
        Diff { bytes_added: 0, bytes_removed: 0, items_added: 0, items_removed: 0 }
    }
}

/// Adding changes is commutative and associative.
pub proof fn lemma_saturating_add_is_associative(a: Diff, b: Diff, c: Diff)
    ensures
        a.spec_saturating_add(b) == b.spec_saturating_add(a),
        a.spec_saturating_add(b).spec_saturating_add(c) == a.spec_saturating_add(
            b.spec_saturating_add(c),
        ),
        a.spec_saturating_add(Diff::zero()) == a,
{
}

/// The sum of a sequence of changes does not depend on their order.
pub proof fn lemma_sum_any_order(diffs: Seq<Diff>, reordered: Seq<Diff>)
    requires
        diffs.to_multiset() == reordered.to_multiset(),
    ensures
        Diff::sum(diffs) == Diff::sum(reordered),
{
    assert(commutative_foldl(Diff::adder()));
    lemma_fold_left_permutation(diffs, reordered, Diff::adder(), Diff::zero());
}

/// A counter to which as much was added as was removed costs nothing and
/// leaves its record as it is.
pub proof fn lemma_no_net_change(price: Balance, units: u32, stored: u32, recorded: Balance)
    ensures
        counter_deposit(price, units, units, Some((stored, recorded))) == Deposit::Charge(0),
        counter_deposit(price, units, units, None) == Deposit::Charge(0),
        counter_stored(stored, units, units) == stored,
        settled_deposit(recorded, Deposit::Charge(0)) == recorded,
{
    lemma_nothing_freed(stored, recorded);
    assert(price * 0 == 0);
}

/// A counter that shrinks, and by at least as many units as are on record,
/// gives back exactly the deposit on record for it, and leaves none on
/// record. Whatever a counter shrinks by, it never gives back more than that
/// deposit.
pub proof fn lemma_refund_cap(
    price: Balance,
    added: u32,
    removed: u32,
    stored: u32,
    recorded: Balance,
)
    ensures
        counter_deposit(price, added, removed, Some((stored, recorded))).net() >= -recorded,
        removed > added && removed - added >= stored ==> {
            let refund = counter_deposit(price, added, removed, Some((stored, recorded)));
            &&& refund == Deposit::from_net(-recorded)
            &&& settled_deposit(recorded, refund) == 0
            &&& counter_stored(stored, added, removed) == 0
        },
{
    lemma_refund_is_capped(excess(removed, added), stored, recorded);
    if removed > added && removed - added >= stored {
        lemma_full_refund(excess(removed, added), stored, recorded);
    }
}

/// A counter that shrinks by `freed` units, fewer than the `stored` units on
/// record, gives back the share `recorded * freed / stored` of the deposit on
/// record: never more than that share, and less than one unit plus
/// `recorded / 10^18` below it.
pub proof fn lemma_refund_share(
    price: Balance,
    added: u32,
    removed: u32,
    stored: u32,
    recorded: Balance,
)
    requires
        added <= removed,
        removed - added < stored,
    ensures
        ({
            let freed = removed - added;
            let refund = -counter_deposit(price, added, removed, Some((stored, recorded))).net();
            &&& 0 <= refund
            &&& refund * stored <= recorded * freed
            &&& recorded * freed * FIXED_ONE < (refund + 1) * stored * FIXED_ONE + recorded
                * stored
        }),
{
    lemma_refund_is_capped(excess(removed, added), stored, recorded);
    lemma_partial_refund(excess(removed, added), stored, recorded);
}

} // verus!
