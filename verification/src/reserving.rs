//! The rules of a backend that charges deposits by reserving balance.
//!
//! Such a backend transfers a charge from the origin to the contract and
//! reserves it there, and moves a refund from the reserve of the contract back
//! to the origin. Reading and moving balance is the business of whoever owns
//! the accounts; what is decided in between is decided here, one step for each
//! balance that has to be read.

use crate::deposit::Deposit;
use crate::primitives::{Balance, Error};
use vstd::prelude::*;

verus! {

/// The backend that is used when balance really has to change hands.
#[derive(Debug)]
pub struct ReservingExt;

/// What a reserving backend does with the accounts for one deposit.
#[derive(Clone, Copy, PartialEq, Eq, Debug, Structural)]
pub enum Movement {
    /// Transfer the amount from the origin to the contract, keeping the
    /// origin alive, and reserve it in the account of the contract.
    Collect(Balance),
    /// Move the amount from the reserve of the contract to the free balance
    /// of the origin. The contract was removed and gives back everything.
    Repatriate(Balance),
    /// Move the amount from the reserve of the contract to the free balance
    /// of the origin, as far as the reserve can spare it: the contract stays
    /// alive. How much that is says [`ReservingExt::spared`], once the reserve
    /// was read.
    RepatriateSpare(Balance),
}

impl ReservingExt {
    /// The most that an origin can put down as deposit: what it can spend
    /// without the account being removed, less what has to stay free.
    pub open spec fn spec_max_limit(reducible: Balance, min_leftover: Balance) -> Balance {
        if reducible > min_leftover {
            (reducible - min_leftover) as Balance
        } else {
            0
        }
    }

    /// The limit that a call stack runs under: the one it asks for, or else
    /// the most that the origin can put down.
    pub open spec fn spec_requested_limit(
        reducible: Balance,
        limit: Option<Balance>,
        min_leftover: Balance,
    ) -> Balance {
        match limit {
            Some(limit) => limit,
            None => Self::spec_max_limit(reducible, min_leftover),
        }
    }

    /// How much is taken out of the reserve of a contract that stays alive
    /// for a refund of `amount`: the contract keeps `min_balance` in its
    /// reserve, whatever the refund says.
    pub open spec fn spec_spared(amount: Balance, reserved: Balance, min_balance: Balance) -> Balance {
        let spare = if reserved > min_balance {
            (reserved - min_balance) as Balance
        } else {
            0
        };
        if amount <= spare {
            amount
        } else {
            spare
        }
    }

    /// The limit that a call stack runs under, if the origin can put that
    /// much down. `reducible` is what the origin can spend without its account
    /// being removed. Whether the limit can be withdrawn is still to be asked:
    /// see [`Self::check_limit`].
    pub fn requested_limit(reducible: Balance, limit: Option<Balance>, min_leftover: Balance) -> (requested:
        Result<Balance, Error>)
        ensures
            ({
                let wanted = Self::spec_requested_limit(reducible, limit, min_leftover);
                requested == if wanted <= Self::spec_max_limit(reducible, min_leftover) {
                    Ok::<Balance, Error>(wanted)
                } else {
                    Err::<Balance, Error>(Error::StorageDepositNotEnoughFunds)
                }
            }),
    {
        let max: Balance = reducible.saturating_sub(min_leftover);
        let wanted: Balance = match limit {
            Some(limit) => limit,
            None => max,
        };
        if wanted <= max {
            Ok(wanted)
        } else {
            Err(Error::StorageDepositNotEnoughFunds)
        }
    }

    /// Decides whether the origin can afford the limit `requested` that
    /// [`Self::requested_limit`] found within its reach. `withdrawable` says
    /// whether that much could be withdrawn from its account.
    pub fn check_limit(requested: Balance, withdrawable: bool) -> (checked: Result<Balance, Error>)
        ensures
            checked == if withdrawable {
                Ok::<Balance, Error>(requested)
            } else {
                Err::<Balance, Error>(Error::StorageDepositNotEnoughFunds)
            },
    {
        if withdrawable {
            Ok(requested)
        } else {
            Err(Error::StorageDepositNotEnoughFunds)
        }
    }

    /// Decides what is done with the accounts for `amount`.
    pub fn charge(amount: &Deposit, terminated: bool) -> (movement: Movement)
        ensures
            movement == match *amount {
                Deposit::Charge(amount) => Movement::Collect(amount),
                Deposit::Refund(amount) => if terminated {
                    Movement::Repatriate(amount)
                } else {
                    Movement::RepatriateSpare(amount)
                },
            },
    {
        match amount {
            Deposit::Charge(amount) => Movement::Collect(*amount),
            Deposit::Refund(amount) => if terminated {
                Movement::Repatriate(*amount)
            } else {
                Movement::RepatriateSpare(*amount)
            },
        }
    }

    /// Decides how much of a refund of `amount` is taken out of the reserve of
    /// a contract that stays alive. `reserved` is the reserved balance of the
    /// contract and `min_balance` the least that an account must hold to
    /// exist.
    ///
    /// The deposit on record can be out of step with the reserve, after a
    /// slash. A refund must never leave the account of a living contract with
    /// less than it needs to exist.
    pub fn spared(amount: Balance, reserved: Balance, min_balance: Balance) -> (spared: Balance)
        ensures
            spared == Self::spec_spared(amount, reserved, min_balance),
    {
        let spare: Balance = reserved.saturating_sub(min_balance);
        if amount <= spare {
            amount
        } else {
            spare
        }
    }

    /// Decides whether a refund went wrong. `outcome` is what could not be
    /// taken out of the reserve, or none if the accounts refused altogether.
    pub fn refund_failed(outcome: Option<Balance>) -> (failed: bool)
        ensures
            failed == !(outcome == Some(0u128)),
    {
        match outcome {
            Some(missing) => missing != 0,
            None => true,
        }
    }
}

/// A refund to a contract that stays alive leaves at least `min_balance` in
/// its reserve, or all of the reserve where that is less.
pub proof fn lemma_refund_keeps_alive(amount: Balance, reserved: Balance, min_balance: Balance)
    ensures
        ReservingExt::spec_spared(amount, reserved, min_balance) <= amount,
        ReservingExt::spec_spared(amount, reserved, min_balance) <= reserved,
        reserved - ReservingExt::spec_spared(amount, reserved, min_balance) >= (if reserved
            < min_balance {
            reserved
        } else {
            min_balance
        }),
{
}

} // verus!
