//! The storage record of one contract account.

use crate::primitives::Balance;
use vstd::prelude::*;

verus! {

/// How much storage a contract holds and which deposits were paid for it.
///
/// The deposits belong to the counters beside them: whoever changes
/// `storage_bytes` or `storage_items` changes the deposit of that counter in
/// the same step.
#[derive(Clone, Copy, PartialEq, Eq, Debug, Structural)]
pub struct ContractInfo {
    /// The number of bytes that the contract holds in storage.
    pub storage_bytes: u32,
    /// The number of items that the contract holds in storage.
    pub storage_items: u32,
    /// The deposit that was paid for `storage_bytes`.
    pub storage_byte_deposit: Balance,
    /// The deposit that was paid for `storage_items`.
    pub storage_item_deposit: Balance,
    /// The deposit that was paid when the contract was instantiated.
    pub storage_base_deposit: Balance,
}

impl ContractInfo {
    /// The deposit paid for bytes and items together, held at the largest
    /// balance.
    pub open spec fn spec_extra_deposit(&self) -> Balance {
        if self.storage_byte_deposit + self.storage_item_deposit > Balance::MAX {
            Balance::MAX
        } else {
            (self.storage_byte_deposit + self.storage_item_deposit) as Balance
        }
    }

    /// Every deposit on record: for bytes, for items and for the instantiation,
    /// held at the largest balance.
    pub open spec fn spec_total_deposit(&self) -> Balance {
        if self.storage_byte_deposit + self.storage_item_deposit + self.storage_base_deposit
            > Balance::MAX {
            Balance::MAX
        } else {
            (self.storage_byte_deposit + self.storage_item_deposit
                + self.storage_base_deposit) as Balance
        }
    }

    /// Returns the deposit paid for bytes and items together.
    pub fn extra_deposit(&self) -> (deposit: Balance)
        ensures
            deposit == self.spec_extra_deposit(),
    {
        self.storage_byte_deposit.saturating_add(self.storage_item_deposit)
    }

    /// Returns every deposit on record.
    pub fn total_deposit(&self) -> (deposit: Balance)
        ensures
            deposit == self.spec_total_deposit(),
    {
        self.extra_deposit().saturating_add(self.storage_base_deposit)
    }
}

/// What a record holds, where there is one.
pub open spec fn recorded(info: Option<&mut ContractInfo>) -> Option<ContractInfo> {
    match info {
        Some(info) => Some(*info),
        None => None,
    }
}

} // verus!
