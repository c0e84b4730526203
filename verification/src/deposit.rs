//! A deposit is an amount of balance that either has to be paid or is given back.

use crate::primitives::Balance;
use vstd::prelude::*;

verus! {

/// The amount of balance that changes hands for storage, and in which direction.
#[derive(Clone, Copy, PartialEq, Eq, Debug, Structural)]
pub enum Deposit {
    /// Storage was freed: the amount goes back to the payer.
    Refund(Balance),
    /// Storage was taken: the amount is owed by the payer.
    Charge(Balance),
}

impl Deposit {
    /// The amount, whichever way it flows.
    pub open spec fn amount(self) -> Balance {
        match self {
            Deposit::Refund(amount) => amount,
            Deposit::Charge(amount) => amount,
        }
    }

    /// The deposit as one signed number: a charge counts up, a refund counts down.
    pub open spec fn net(self) -> int {
        match self {
            Deposit::Refund(amount) => -(amount as int),
            Deposit::Charge(amount) => amount as int,
        }
    }

    /// The deposit that stands for the signed number `net`, held at the largest
    /// balance in either direction. Zero is a charge.
    pub open spec fn from_net(net: int) -> Deposit {
        if net >= 0 {
            Deposit::Charge(
                if net > Balance::MAX {
                    Balance::MAX
                } else {
                    net as Balance
                },
            )
        } else {
            Deposit::Refund(
                if -net > Balance::MAX {
                    Balance::MAX
                } else {
                    (-net) as Balance
                },
            )
        }
    }

    /// Whether nothing changes hands.
    pub open spec fn spec_is_zero(self) -> bool {
        self.amount() == 0
    }

    /// The amount owed, or zero for a refund.
    pub open spec fn spec_charge_or_zero(self) -> Balance {
        match self {
            Deposit::Refund(_) => 0,
            Deposit::Charge(amount) => amount,
        }
    }

    /// What is left of `limit` once this deposit is taken off it: `limit - net`,
    /// held between zero and the largest balance.
    pub open spec fn spec_available(self, limit: Balance) -> Balance {
        let left = limit - self.net();
        if left < 0 {
            0
        } else if left > Balance::MAX {
            Balance::MAX
        } else {
            left as Balance
        }
    }

    /// The sum of two deposits. Deposits of opposite direction are netted, and
    /// the larger one gives the direction; two refunds stay a refund even when
    /// both are zero.
    pub open spec fn spec_saturating_add(self, rhs: Deposit) -> Deposit {
        if self is Refund && rhs is Refund {
            Deposit::Refund(
                if self.amount() + rhs.amount() > Balance::MAX {
                    Balance::MAX
                } else {
                    (self.amount() + rhs.amount()) as Balance
                },
            )
        } else {
            Deposit::from_net(self.net() + rhs.net())
        }
    }

    /// Returns whether nothing changes hands.
    pub fn is_zero(&self) -> (zero: bool)
        ensures
            zero == self.spec_is_zero(),
    {
        match self {
            Deposit::Refund(amount) => *amount == 0,
            Deposit::Charge(amount) => *amount == 0,
        }
    }

    /// Returns the amount owed, or zero for a refund.
    pub fn charge_or_zero(&self) -> (amount: Balance)
        ensures
            amount == self.spec_charge_or_zero(),
    {
        match self {
            Deposit::Refund(_) => 0,
            Deposit::Charge(amount) => *amount,
        }
    }

    /// Returns what is left of `limit` once this deposit is taken off it.
    pub fn available(&self, limit: &Balance) -> (left: Balance)
        ensures
            left == self.spec_available(*limit),
    {
        match self {
            Deposit::Refund(amount) => limit.saturating_add(*amount),
            Deposit::Charge(amount) => limit.saturating_sub(*amount),
        }
    }

    /// Adds two deposits without overflow.
    pub fn saturating_add(&self, rhs: &Self) -> (sum: Self)
        ensures
            sum == self.spec_saturating_add(*rhs),
    {
        match (*self, *rhs) {
            (Deposit::Charge(lhs), Deposit::Charge(rhs)) => Deposit::Charge(lhs.saturating_add(rhs)),
            (Deposit::Refund(lhs), Deposit::Refund(rhs)) => Deposit::Refund(lhs.saturating_add(rhs)),
            (Deposit::Charge(lhs), Deposit::Refund(rhs)) => if lhs >= rhs {
                Deposit::Charge(lhs - rhs)
            } else {
                Deposit::Refund(rhs - lhs)
            },
            (Deposit::Refund(lhs), Deposit::Charge(rhs)) => if lhs > rhs {
                Deposit::Refund(lhs - rhs)
            } else {
                Deposit::Charge(rhs - lhs)
            },
        }
    }
}

impl Default for Deposit {
    /// A charge of nothing.
    fn default() -> (deposit: Self)
        ensures
            deposit == Deposit::Charge(0),
    {
        Deposit::Charge(0)
    }
}

} // verus!
