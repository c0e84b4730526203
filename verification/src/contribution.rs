//! What one call frame recorded for its own contract.

use crate::contract_info::{recorded, ContractInfo};
use crate::deposit::Deposit;
use crate::diff::{Diff, Prices};
use vstd::prelude::*;

verus! {

/// What a meter recorded for its own call frame.
#[derive(Clone, Copy, PartialEq, Eq, Debug, Structural)]
pub enum Contribution {
    /// The contract is alive and the frame still gathers changes.
    Alive(Diff),
    /// The frame was held to its limit: its changes were turned into a deposit.
    Checked(Deposit),
    /// The contract was removed: everything on its record is given back.
    Terminated(Deposit),
}

impl Contribution {
    /// The deposit that the frame itself owes or is owed.
    pub open spec fn spec_deposit(self, prices: Prices, info: Option<ContractInfo>) -> Deposit {
        match self {
            Contribution::Alive(diff) => diff.spec_deposit(prices, info),
            Contribution::Checked(deposit) => deposit,
            Contribution::Terminated(deposit) => deposit,
        }
    }

    /// The record after the frame's changes were applied to it. Only a frame
    /// that still gathers changes has any to apply.
    pub open spec fn spec_updated(self, prices: Prices, info: ContractInfo) -> ContractInfo {
        match self {
            Contribution::Alive(diff) => diff.spec_updated(prices, info),
            Contribution::Checked(_) => info,
            Contribution::Terminated(_) => info,
        }
    }

    /// Whether the frame still gathers changes.
    pub open spec fn is_alive(self) -> bool {
        self is Alive
    }

    /// What holds of every contribution: a contract that was removed is never
    /// charged.
    pub open spec fn wf(self) -> bool {
        self matches Contribution::Terminated(deposit) ==> deposit is Refund
    }

    /// Whether the contribution can be settled against `info`: changes that
    /// remove storage need a record to take the refund from.
    pub open spec fn settles_against(self, info: Option<ContractInfo>) -> bool {
        match self {
            Contribution::Alive(diff) => info is None ==> diff.only_adds(),
            Contribution::Checked(_) => true,
            Contribution::Terminated(_) => true,
        }
    }

    /// Turns the contribution into a deposit, and applies changes that were
    /// not applied yet to `info`. See [`Diff::update_contract`].
    pub fn update_contract(&self, prices: &Prices, info: Option<&mut ContractInfo>) -> (deposit:
        Deposit)
        requires
            self.settles_against(recorded(info)),
        ensures
            match info {
                Some(info) => deposit == self.spec_deposit(*prices, Some(*info)) && *final(info)
                    == self.spec_updated(*prices, *info),
                None => deposit == self.spec_deposit(*prices, None),
            },
    {
        match self {
            Contribution::Alive(diff) => diff.update_contract(prices, info),
            Contribution::Checked(deposit) => *deposit,
            Contribution::Terminated(deposit) => *deposit,
        }
    }
}

impl Default for Contribution {
    /// A frame that has not changed anything yet.
    fn default() -> (contribution: Self)
        ensures
            contribution == Contribution::Alive(Diff::zero()),
    {
        Contribution::Alive(Diff::default())
    }
}

} // verus!
