//! The plain values that the meter computes with.

use vstd::prelude::*;

verus! {

/// An amount of the native currency.
pub type Balance = u128;

/// The 32 bytes that identify an account.
pub type AccountId = [u8; 32];

/// Why a metered call has to fail.
#[derive(Clone, Copy, PartialEq, Eq, Debug, Structural)]
pub enum Error {
    /// The origin cannot afford the deposit limit that the call stack asks for.
    StorageDepositNotEnoughFunds,
    /// More storage was created than the deposit limit pays for.
    StorageDepositLimitExhausted,
}

/// The price of `units` units at `price` each, held at the largest balance.
pub open spec fn spec_price_of(price: Balance, units: u32) -> Balance {
    if price * units > Balance::MAX {
        Balance::MAX
    } else {
        (price * units) as Balance
    }
}

/// Computes the price of `units` units at `price` each without overflow.
pub fn price_of(price: Balance, units: u32) -> (total: Balance)
    ensures
        total == spec_price_of(price, units),
{
    let units: Balance = units as Balance;
    match price.checked_mul(units) {
        Some(total) => total,
        None => Balance::MAX,
    }
}

} // verus!
