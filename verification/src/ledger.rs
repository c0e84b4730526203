//! The ledger of deposits that are settled when a call stack ends.

use crate::backend::Settlement;
use crate::deposit::Deposit;
use crate::primitives::AccountId;
use vstd::prelude::*;
use vstd::seq_lib::{lemma_multiset_commutative, to_multiset_build};

verus! {

/// A deposit that is to be settled with a contract when the call stack ends.
///
/// Settling is put off to the end so that every refund can be paid out before
/// any charge is collected. An origin can then spend more than its free
/// balance as long as refunds cover it, and the order in which storage was
/// changed does not matter.
#[derive(Clone, Copy, PartialEq, Eq, Debug)]
pub struct Charge {
    /// The contract that took or freed storage.
    pub contract: AccountId,
    /// What changes hands, and in which direction.
    pub amount: Deposit,
    /// Whether the contract was removed.
    pub terminated: bool,
}

impl Charge {
    /// What holds of every entry of a ledger: something changes hands, and a
    /// contract that was removed is never charged.
    pub open spec fn wf(self) -> bool {
        &&& !self.amount.spec_is_zero()
        &&& self.terminated ==> self.amount is Refund
    }
}

/// Whether every entry of `ledger` is as an entry has to be.
pub open spec fn ledger_wf(ledger: Seq<Charge>) -> bool {
    forall|i: int| 0 <= i < ledger.len() ==> (#[trigger] ledger[i]).wf()
}

/// The entries of `ledger` that give balance back (`refund`) or that collect
/// it (`!refund`), in the order of the ledger.
pub open spec fn entries(ledger: Seq<Charge>, refund: bool) -> Seq<Charge> {
    ledger.filter(|charge: Charge| (charge.amount is Refund) == refund)
}

/// The order in which a ledger is settled: every refund, then every charge,
/// each group in the order of the ledger.
pub open spec fn settlement_order(ledger: Seq<Charge>) -> Seq<Charge> {
    entries(ledger, true) + entries(ledger, false)
}

/// The requests that settle `charges` for `origin`, one for each entry and in
/// the same order.
pub open spec fn requests(origin: AccountId, charges: Seq<Charge>) -> Seq<Settlement> {
    Seq::new(
        charges.len(),
        |i: int|
            Settlement {
                origin,
                contract: charges[i].contract,
                amount: charges[i].amount,
                terminated: charges[i].terminated,
            },
    )
}

/// In the order of settlement every entry of the ledger stands exactly once,
/// and no refund stands behind a charge.
pub proof fn lemma_refunds_settle_first(ledger: Seq<Charge>)
    ensures
        settlement_order(ledger).to_multiset() == ledger.to_multiset(),
        forall|i: int, j: int|
            0 <= i < j < settlement_order(ledger).len() && settlement_order(ledger)[j].amount
                is Refund ==> settlement_order(ledger)[i].amount is Refund,
{
    lemma_entries_partition(ledger);
    let refunds = entries(ledger, true);
    let charges = entries(ledger, false);
    lemma_multiset_commutative(refunds, charges);
    assert forall|i: int, j: int|
        0 <= i < j < settlement_order(ledger).len() && settlement_order(ledger)[j].amount
            is Refund implies settlement_order(ledger)[i].amount is Refund by {
        if j >= refunds.len() {
            ledger.lemma_filter_pred(
                |charge: Charge| (charge.amount is Refund) == false,
                j - refunds.len(),
            );
        }
        ledger.lemma_filter_pred(|charge: Charge| (charge.amount is Refund) == true, i);
    }
}

/// The refunds and the charges of a ledger make up the ledger.
proof fn lemma_entries_partition(ledger: Seq<Charge>)
    ensures
        entries(ledger, true).to_multiset().add(entries(ledger, false).to_multiset())
            =~= ledger.to_multiset(),
    decreases ledger.len(),
{
    broadcast use vstd::multiset::group_multiset_axioms;

    if ledger.len() == 0 {
        assert(entries(ledger, true) =~= ledger) by {
            reveal(Seq::filter);
        }
        assert(entries(ledger, false) =~= ledger) by {
            reveal(Seq::filter);
        }
        ledger.to_multiset_ensures();
    } else {
        let earlier = ledger.drop_last();
        let last = ledger.last();
        let refunds = entries(earlier, true);
        let charges = entries(earlier, false);
        lemma_entries_partition(earlier);
        assert(ledger =~= earlier.push(last));
        earlier.lemma_filter_push(last, |charge: Charge| (charge.amount is Refund) == true);
        earlier.lemma_filter_push(last, |charge: Charge| (charge.amount is Refund) == false);
        to_multiset_build(earlier, last);
        if last.amount is Refund {
            to_multiset_build(refunds, last);
        } else {
            to_multiset_build(charges, last);
        }
    }
}

} // verus!
