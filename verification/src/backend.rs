//! The charging backend: whoever checks what an origin can afford and moves
//! balance between the origin and the contracts it called.
//!
//! The meter does not know how balance is moved. It talks to an [`Ext`]
//! through a [`Backend`], which keeps a record of every request that was made
//! and of the answer that came back. The record exists in proofs only.

use crate::deposit::Deposit;
use crate::primitives::{AccountId, Balance, Error};
use vstd::prelude::*;

verus! {

/// Decouples the metering from the charging of balance.
///
/// Nothing is assumed of an implementation: what the meter proves holds for
/// whatever these two functions do and return.
pub trait Ext {
    /// Checks whether `origin` is able to afford the storage deposit limit.
    ///
    /// `limit` is the limit that the call stack asks for, none for as much as
    /// `origin` can spend. `min_leftover` is how much must stay free in the
    /// account of `origin` beyond what keeps the account alive.
    ///
    /// Returns the limit that the meter is to use, or an error if `origin`
    /// cannot afford it.
    fn check_limit(
        &mut self,
        origin: &AccountId,
        limit: Option<Balance>,
        min_leftover: Balance,
    ) -> Result<Balance, Error>;

    /// Moves `amount` between `origin` and `contract`: a charge flows from
    /// `origin` to `contract`, a refund the other way. `terminated` says
    /// whether `contract` was removed.
    fn charge(
        &mut self,
        origin: &AccountId,
        contract: &AccountId,
        amount: &Deposit,
        terminated: bool,
    );
}

/// One request to check a limit, with the answer to it.
pub struct LimitCheck {
    /// The account that pays for the call stack.
    pub origin: AccountId,
    /// The limit that was asked for.
    pub limit: Option<Balance>,
    /// What has to stay free in the account of `origin`.
    pub min_leftover: Balance,
    /// What the backend answered.
    pub outcome: Result<Balance, Error>,
}

/// One request to move balance between an origin and a contract.
pub struct Settlement {
    /// The account that pays for the call stack.
    pub origin: AccountId,
    /// The contract that took or freed storage.
    pub contract: AccountId,
    /// What changes hands, and in which direction.
    pub amount: Deposit,
    /// Whether the contract was removed.
    pub terminated: bool,
}

/// An [`Ext`] together with the record of what it was asked to do.
pub struct Backend<E: Ext> {
    ext: E,
    limit_checks: Ghost<Seq<LimitCheck>>,
    charges: Ghost<Seq<Settlement>>,
}

impl<E: Ext> Backend<E> {
    /// Every limit check that went through this backend, oldest first.
    pub closed spec fn limit_checks(&self) -> Seq<LimitCheck> {
        self.limit_checks@
    }

    /// Every movement of balance that was requested through this backend,
    /// oldest first.
    pub closed spec fn charges(&self) -> Seq<Settlement> {
        self.charges@
    }

    /// The [`Ext`] that the requests go to.
    pub closed spec fn ext(&self) -> E {
        self.ext
    }

    /// Wraps `ext`. Nothing has been asked of it yet.
    pub fn new(ext: E) -> (backend: Self)
        ensures
            backend.ext() == ext,
            backend.limit_checks() == Seq::<LimitCheck>::empty(),
            backend.charges() == Seq::<Settlement>::empty(),
    {
        Backend { ext, limit_checks: Ghost(Seq::empty()), charges: Ghost(Seq::empty()) }
    }

    /// Gives the wrapped [`Ext`] back.
    pub fn into_inner(self) -> (ext: E)
        ensures
            ext == self.ext(),
    {
        self.ext
    }

    /// Asks the backend whether `origin` can afford `limit`, and records the
    /// request with its answer.
    pub fn check_limit(
        &mut self,
        origin: &AccountId,
        limit: Option<Balance>,
        min_leftover: Balance,
    ) -> (outcome: Result<Balance, Error>)
        ensures
            final(self).limit_checks() == old(self).limit_checks().push(
                LimitCheck { origin: *origin, limit, min_leftover, outcome },
            ),
            final(self).charges() == old(self).charges(),
    {
        let outcome = self.ext.check_limit(origin, limit, min_leftover);
        proof {
            self.limit_checks@ = self.limit_checks@.push(
                LimitCheck { origin: *origin, limit, min_leftover, outcome },
            );
        }
        outcome
    }

    /// Asks the backend to move `amount` between `origin` and `contract`, and
    /// records the request.
    pub fn charge(
        &mut self,
        origin: &AccountId,
        contract: &AccountId,
        amount: &Deposit,
        terminated: bool,
    )
        ensures
            final(self).charges() == old(self).charges().push(
                Settlement { origin: *origin, contract: *contract, amount: *amount, terminated },
            ),
            final(self).limit_checks() == old(self).limit_checks(),
    {
        self.ext.charge(origin, contract, amount, terminated);
        proof {
            self.charges@ = self.charges@.push(
                Settlement { origin: *origin, contract: *contract, amount: *amount, terminated },
            );
        }
    }
}

} // verus!
