//! The meter of one call frame.

use crate::backend::{Backend, Ext, LimitCheck, Settlement};
use crate::contract_info::{recorded, ContractInfo};
use crate::contribution::Contribution;
use crate::deposit::Deposit;
use crate::diff::{lemma_sum_any_order, Diff, Prices};
use crate::ledger::{entries, ledger_wf, requests, settlement_order, Charge};
use crate::primitives::{AccountId, Balance, Error};
use crate::private::Sealed;
use core::marker::PhantomData;
use vstd::prelude::*;

verus! {

/// The state of a meter: at the root of a call stack, or nested in it.
///
/// It is sealed and cannot be implemented outside of this crate.
pub trait State: Sealed {

}

/// The state of the meter of the outermost call. Only such a meter is created
/// from a limit and settled at the end.
#[derive(Debug)]
pub struct Root;

/// The state of the meter of a nested call. Only such a meter is charged,
/// terminated and held to its limit.
#[derive(Debug)]
pub struct Nested;

impl State for Root {

}

impl State for Nested {

}

/// Meters the storage that one call frame and the frames below it take or
/// free.
#[derive(Debug)]
pub struct RawMeter<S: State> {
    /// The limit of how much balance this meter is allowed to consume.
    limit: Balance,
    /// The amount of balance that was used in this meter and all of its already absorbed children.
    total_deposit: Deposit,
    /// The amount of storage changes that were recorded in this meter alone.
    own_contribution: Contribution,
    /// List of charges that should be applied at the end of a contract stack execution.
    charges: Vec<Charge>,
    /// The state only restricts which functions can be called.
    _phantom: PhantomData<S>,
}

/// The meter of the outermost call.
pub type Meter = RawMeter<Root>;

/// The meter of a nested call.
pub type NestedMeter = RawMeter<Nested>;

/// What a meter holds.
pub struct MeterView {
    /// The limit of how much balance the meter is allowed to consume.
    pub limit: Balance,
    /// What the absorbed frames below this one owe or are owed in all.
    pub total_deposit: Deposit,
    /// What the frame itself recorded.
    pub own_contribution: Contribution,
    /// The deposits to settle when the call stack ends, in the order in which
    /// their frames were absorbed.
    pub charges: Seq<Charge>,
}

impl MeterView {
    /// A meter with the given limit that has recorded nothing.
    pub open spec fn fresh(limit: Balance) -> MeterView {
        MeterView {
            limit,
            total_deposit: Deposit::Charge(0),
            own_contribution: Contribution::Alive(Diff::zero()),
            charges: Seq::empty(),
        }
    }

    /// What holds of every meter: a contract that was removed is never
    /// charged, and every entry of the ledger moves balance.
    pub open spec fn wf(self) -> bool {
        &&& self.own_contribution.wf()
        &&& ledger_wf(self.charges)
    }

    /// Whether the frame still gathers changes.
    pub open spec fn is_alive(self) -> bool {
        self.own_contribution.is_alive()
    }

    /// The meter after `diff` was charged to it.
    pub open spec fn charged(self, diff: Diff) -> MeterView {
        MeterView {
            own_contribution: Contribution::Alive(
                self.own_contribution->Alive_0.spec_saturating_add(diff),
            ),
            ..self
        }
    }

    /// The meter after every change in `diffs` was charged to it, first to
    /// last.
    pub open spec fn charged_all(self, diffs: Seq<Diff>) -> MeterView
        decreases diffs.len(),
    {
        if diffs.len() == 0 {
            self
        } else {
            self.charged_all(diffs.drop_last()).charged(diffs.last())
        }
    }

    /// How much of the limit is left.
    pub open spec fn available(self) -> Balance {
        self.total_deposit.spec_available(self.limit)
    }
}

impl<S: State> View for RawMeter<S> {
    type V = MeterView;

    closed spec fn view(&self) -> MeterView {
        MeterView {
            limit: self.limit,
            total_deposit: self.total_deposit,
            own_contribution: self.own_contribution,
            charges: self.charges@,
        }
    }
}

impl<S: State> Default for RawMeter<S> {
    /// A meter without any limit to spend that has recorded nothing.
    fn default() -> (meter: Self)
        ensures
            meter@ == MeterView::fresh(0),
            meter@.wf(),
    {
        RawMeter {
            limit: 0,
            total_deposit: Deposit::default(),
            own_contribution: Contribution::default(),
            charges: Vec::new(),
            _phantom: PhantomData,
        }
    }
}

/// Functions that apply to all states.
impl<S: State> RawMeter<S> {
    #[verifier::type_invariant]
    spec fn well_formed(&self) -> bool {
        self@.wf()
    }

    /// Create a new child that has its `limit` set to whatever is remaining of it.
    ///
    /// This is called whenever a new subcall is initiated in order to track the storage
    /// usage for this sub call separately.
    pub fn nested(&self) -> (child: RawMeter<Nested>)
        requires
            self@.is_alive(),
        ensures
            child@ == MeterView::fresh(self@.available()),
            child@.wf(),
    {
        RawMeter {
            limit: self.available(),
            total_deposit: Deposit::default(),
            own_contribution: Contribution::default(),
            charges: Vec::new(),
            _phantom: PhantomData,
        }
    }

    /// The amount of balance that is still available from the `limit`.
    pub fn available(&self) -> (left: Balance)
        ensures
            left == self@.available(),
    {
        self.total_deposit.available(&self.limit)
    }

    /// What the meter recorded for its own call frame.
    pub fn own_contribution(&self) -> (own: Contribution)
        ensures
            own == self@.own_contribution,
            own.wf(),
    {
        proof {
            use_type_invariant(self);
        }
        self.own_contribution
    }

    /// True if the contract is alive.
    pub fn is_alive(&self) -> (alive: bool)
        ensures
            alive == self@.is_alive(),
    {
        match self.own_contribution {
            Contribution::Alive(_) => true,
            _ => false,
        }
    }

    /// True if the contract is terminated.
    pub fn is_terminated(&self) -> (terminated: bool)
        ensures
            terminated == (self@.own_contribution is Terminated),
    {
        match self.own_contribution {
            Contribution::Terminated(_) => true,
            _ => false,
        }
    }
}

/// Whether a total deposit is more than `limit` pays for. A refund never is.
pub open spec fn exceeds(total: Deposit, limit: Balance) -> bool {
    total.spec_charge_or_zero() > limit
}

/// The deposit for bringing a contract into existence whose record takes
/// `encoded_size` bytes: the price of those bytes and of one item, and at
/// least `min_balance`, without which no account exists.
pub open spec fn instantiation_deposit(
    prices: Prices,
    min_balance: Balance,
    encoded_size: u32,
) -> Deposit {
    let footprint = Diff {
        bytes_added: encoded_size,
        bytes_removed: 0,
        items_added: 1,
        items_removed: 0,
    };
    let cost = footprint.spec_deposit(prices, None).spec_charge_or_zero();
    Deposit::Charge(
        if cost < min_balance {
            min_balance
        } else {
            cost
        },
    )
}

/// Functions that apply to all states.
impl<S: State> RawMeter<S> {
    /// Absorb a child that was spawned to handle a sub call.
    ///
    /// This should be called whenever a sub call comes to its end and it is **not** reverted.
    /// It adds what the child recorded to this meter and updates the supplied contract info.
    /// Balance is not moved before the whole call stack ends.
    ///
    /// In case a contract reverted the child meter should just be dropped in order to revert
    /// any changes it recorded.
    ///
    /// # Parameters
    ///
    /// - `prices`: What storage costs.
    /// - `absorbed`: The child storage meter that should be absorbed.
    /// - `contract`: The contract that this sub call belongs to.
    /// - `info`: The info of the contract in question. `None` if the contract was terminated.
    pub fn absorb(
        &mut self,
        prices: &Prices,
        absorbed: RawMeter<Nested>,
        contract: &AccountId,
        info: Option<&mut ContractInfo>,
    )
        requires
            absorbed@.own_contribution.settles_against(recorded(info)),
        ensures
            ({
                let own = absorbed@.own_contribution.spec_deposit(*prices, recorded(info));
                final(self)@ == (MeterView {
                    total_deposit: old(self)@.total_deposit.spec_saturating_add(
                        absorbed@.total_deposit,
                    ).spec_saturating_add(own),
                    charges: if own.spec_is_zero() {
                        old(self)@.charges
                    } else {
                        old(self)@.charges + absorbed@.charges.push(
                            Charge {
                                contract: *contract,
                                amount: own,
                                terminated: absorbed@.own_contribution is Terminated,
                            },
                        )
                    },
                    ..old(self)@
                })
            }),
            match info {
                Some(info) => *final(info) == absorbed@.own_contribution.spec_updated(
                    *prices,
                    *info,
                ),
                None => true,
            },
            final(self)@.wf(),
    {
        proof {
            use_type_invariant(&*self);
            use_type_invariant(&absorbed);
        }
        let terminated = absorbed.is_terminated();
        let RawMeter { total_deposit, own_contribution, charges: mut absorbed_charges, .. } =
            absorbed;
        let own_deposit = own_contribution.update_contract(prices, info);
        self.total_deposit = self.total_deposit.saturating_add(&total_deposit).saturating_add(
            &own_deposit,
        );
        if !own_deposit.is_zero() {
            let mut charges: Vec<Charge> = Vec::new();
            core::mem::swap(&mut self.charges, &mut charges);
            charges.append(&mut absorbed_charges);
            charges.push(Charge { contract: *contract, amount: own_deposit, terminated });
            self.charges = charges;
        }
    }

    /// Requests the settlement of every refund or of every charge in the
    /// ledger, in the order of the ledger.
    fn settle<E: Ext>(&self, backend: &mut Backend<E>, origin: &AccountId, refund: bool)
        ensures
            final(backend).charges() == old(backend).charges() + requests(
                *origin,
                entries(self@.charges, refund),
            ),
            final(backend).limit_checks() == old(backend).limit_checks(),
    {
        let ghost before = backend.charges();
        let ghost checks = backend.limit_checks();
        let mut i: usize = 0;
        while i < self.charges.len()
            invariant
                i <= self.charges@.len(),
                backend.charges() == before + requests(
                    *origin,
                    entries(self.charges@.take(i as int), refund),
                ),
                backend.limit_checks() == checks,
            decreases self.charges@.len() - i,
        {
            let charge = &self.charges[i];
            let is_refund = match charge.amount {
                Deposit::Refund(_) => true,
                Deposit::Charge(_) => false,
            };
            proof {
                let seen = self.charges@.take(i as int);
                assert(self.charges@.take(i + 1) =~= seen.push(*charge));
                seen.lemma_filter_push(*charge, |charge: Charge| (charge.amount is Refund) == refund);
                assert(requests(*origin, entries(seen, refund).push(*charge)) =~= requests(
                    *origin,
                    entries(seen, refund),
                ).push(
                    Settlement {
                        origin: *origin,
                        contract: charge.contract,
                        amount: charge.amount,
                        terminated: charge.terminated,
                    },
                ));
            }
            if is_refund == refund {
                backend.charge(origin, &charge.contract, &charge.amount, charge.terminated);
            }
            i += 1;
        }
        assert(self.charges@.take(i as int) =~= self.charges@);
    }
}

/// Functions that only apply to the root state.
impl RawMeter<Root> {
    /// Create new storage meter for the specified `origin` and `limit`.
    ///
    /// This asks the backend to check the limit for `origin` and fails if the
    /// backend refuses it. The meter takes the limit that the backend answers.
    pub fn new<E: Ext>(
        backend: &mut Backend<E>,
        origin: &AccountId,
        limit: Option<Balance>,
        min_leftover: Balance,
    ) -> (meter: Result<Self, Error>)
        ensures
            final(backend).limit_checks() == old(backend).limit_checks().push(
                LimitCheck {
                    origin: *origin,
                    limit,
                    min_leftover,
                    outcome: match meter {
                        Ok(meter) => Ok(meter@.limit),
                        Err(error) => Err(error),
                    },
                },
            ),
            final(backend).charges() == old(backend).charges(),
            meter matches Ok(meter) ==> meter@ == MeterView::fresh(meter@.limit) && meter@.wf(),
    {
        match backend.check_limit(origin, limit, min_leftover) {
            Ok(limit) => Ok(
                RawMeter {
                    limit,
                    total_deposit: Deposit::default(),
                    own_contribution: Contribution::default(),
                    charges: Vec::new(),
                    _phantom: PhantomData,
                },
            ),
            Err(error) => Err(error),
        }
    }

    /// The total amount of deposit that should change hands as result of the execution
    /// that this meter was passed into. This will also perform all the charges accumulated
    /// in the whole contract stack: every refund first, then every charge.
    ///
    /// This drops the root meter in order to make sure it is only called when the whole
    /// execution did finish.
    pub fn into_deposit<E: Ext>(self, backend: &mut Backend<E>, origin: &AccountId) -> (deposit:
        Deposit)
        ensures
            deposit == self@.total_deposit,
            final(backend).charges() == old(backend).charges() + requests(
                *origin,
                settlement_order(self@.charges),
            ),
            final(backend).limit_checks() == old(backend).limit_checks(),
            self@.wf(),
    {
        proof {
            use_type_invariant(&self);
        }
        self.settle(backend, origin, true);
        self.settle(backend, origin, false);
        assert(requests(*origin, settlement_order(self@.charges)) =~= requests(
            *origin,
            entries(self@.charges, true),
        ) + requests(*origin, entries(self@.charges, false)));
        self.total_deposit
    }
}

/// Functions that only apply to the nested state.
impl RawMeter<Nested> {
    /// Record the `diff` in the meter. The limit is not looked at here: see
    /// [`Self::enforce_limit`].
    pub fn charge(&mut self, diff: &Diff)
        requires
            old(self)@.is_alive(),
        ensures
            final(self)@ == old(self)@.charged(*diff),
            final(self)@.wf(),
    {
        proof {
            use_type_invariant(&*self);
        }
        if let Contribution::Alive(own) = self.own_contribution {
            self.own_contribution = Contribution::Alive(own.saturating_add(diff));
        }
    }

    /// Charge from `origin` a storage deposit for contract instantiation.
    ///
    /// `encoded_size` is the number of bytes that the record of the new
    /// contract takes in storage. The deposit is requested from the backend
    /// at once and not put off to the end of the call stack: the account of
    /// the contract has to exist before any value can be sent to it. Fails,
    /// and changes nothing, if the deposit is more than the limit.
    pub fn charge_instantiate<E: Ext>(
        &mut self,
        backend: &mut Backend<E>,
        prices: &Prices,
        min_balance: Balance,
        origin: &AccountId,
        contract: &AccountId,
        info: &mut ContractInfo,
        encoded_size: u32,
    ) -> (charged: Result<Deposit, Error>)
        requires
            old(self)@.is_alive(),
        ensures
            ({
                let deposit = instantiation_deposit(*prices, min_balance, encoded_size);
                if exceeds(deposit, old(self)@.limit) {
                    &&& charged == Err::<Deposit, Error>(Error::StorageDepositLimitExhausted)
                    &&& final(self)@ == old(self)@
                    &&& *final(info) == *old(info)
                    &&& final(backend).charges() == old(backend).charges()
                } else {
                    &&& charged == Ok::<Deposit, Error>(deposit)
                    &&& final(self)@ == (MeterView { total_deposit: deposit, ..old(self)@ })
                    &&& *final(info) == (ContractInfo {
                        storage_base_deposit: deposit.amount(),
                        ..*old(info)
                    })
                    &&& final(backend).charges() == if deposit.spec_is_zero() {
                        old(backend).charges()
                    } else {
                        old(backend).charges().push(
                            Settlement {
                                origin: *origin,
                                contract: *contract,
                                amount: deposit,
                                terminated: false,
                            },
                        )
                    }
                }
            }),
            final(backend).limit_checks() == old(backend).limit_checks(),
            final(self)@.wf(),
    {
        proof {
            use_type_invariant(&*self);
        }
        let footprint = Diff {
            bytes_added: encoded_size,
            bytes_removed: 0,
            items_added: 1,
            items_removed: 0,
        };
        let cost: Balance = footprint.update_contract(prices, None).charge_or_zero();

        // Instantiate needs to transfer the minimum balance at least in order to pull the
        // contract's account into existence.
        let deposit = Deposit::Charge(
            if cost < min_balance {
                min_balance
            } else {
                cost
            },
        );
        if deposit.charge_or_zero() > self.limit {
            return Err(Error::StorageDepositLimitExhausted);
        }
        // We do not increase `own_contribution` because this will be charged later when the
        // contract execution does conclude and hence would lead to a double charge.
        self.total_deposit = deposit;
        info.storage_base_deposit = deposit.charge_or_zero();
        if !deposit.is_zero() {
            // We need to charge immediately so that the account is created before the `value`
            // is transferred from the caller to the contract.
            backend.charge(origin, contract, &deposit, false);
        }
        Ok(deposit)
    }

    /// Call to tell the meter that the currently executing contract was removed.
    ///
    /// This will manipulate the meter so that all storage deposit accumulated in
    /// `info` will be refunded to the `origin` of the meter.
    pub fn terminate(&mut self, info: &ContractInfo)
        requires
            old(self)@.is_alive(),
        ensures
            final(self)@ == (MeterView {
                own_contribution: Contribution::Terminated(
                    Deposit::Refund(info.spec_total_deposit()),
                ),
                ..old(self)@
            }),
            final(self)@.wf(),
    {
        proof {
            use_type_invariant(&*self);
        }
        self.own_contribution = Contribution::Terminated(Deposit::Refund(info.total_deposit()));
    }

    /// [`Self::charge`] does not enforce the storage limit since we want to do this check as late
    /// as possible to allow later refunds to offset earlier charges.
    ///
    /// Fails if what the absorbed frames and this frame owe together is more
    /// than the limit. The frame's changes are settled against `info` before
    /// the limit is looked at. A frame that passes is done gathering changes:
    /// its contribution becomes the deposit that was settled. A frame that
    /// fails, or whose contract was removed, keeps its contribution.
    pub fn enforce_limit(&mut self, prices: &Prices, info: Option<&mut ContractInfo>) -> (checked:
        Result<(), Error>)
        requires
            old(self)@.own_contribution.settles_against(recorded(info)),
        ensures
            ({
                let deposit = old(self)@.own_contribution.spec_deposit(*prices, recorded(info));
                let exceeded = exceeds(
                    old(self)@.total_deposit.spec_saturating_add(deposit),
                    old(self)@.limit,
                );
                &&& final(self)@ == (MeterView {
                    own_contribution: if old(self)@.is_alive() && !exceeded {
                        Contribution::Checked(deposit)
                    } else {
                        old(self)@.own_contribution
                    },
                    ..old(self)@
                })
                &&& checked is Err <==> exceeded
            }),
            checked matches Err(error) ==> error == Error::StorageDepositLimitExhausted,
            match info {
                Some(info) => *final(info) == old(self)@.own_contribution.spec_updated(
                    *prices,
                    *info,
                ),
                None => true,
            },
            final(self)@.wf(),
    {
        proof {
            use_type_invariant(&*self);
        }
        let deposit = self.own_contribution.update_contract(prices, info);
        let total_deposit = self.total_deposit.saturating_add(&deposit);
        if let Deposit::Charge(amount) = total_deposit {
            if amount > self.limit {
                return Err(Error::StorageDepositLimitExhausted);
            }
        }
        // We don't want to override a `Terminated` with a `Checked`.
        if self.is_alive() {
            self.own_contribution = Contribution::Checked(deposit);
        }
        Ok(())
    }
}

/// Charging a meter with a sequence of changes, in whatever order, leaves it
/// as a single charge with their sum does.
pub proof fn lemma_charges_add_up(meter: MeterView, diffs: Seq<Diff>, reordered: Seq<Diff>)
    requires
        meter.is_alive(),
        diffs.to_multiset() == reordered.to_multiset(),
    ensures
        meter.charged_all(reordered) == meter.charged(Diff::sum(diffs)),
{
    lemma_sum_any_order(diffs, reordered);
    lemma_charged_all_is_sum(meter, reordered);
}

/// Charging a meter with a sequence of changes leaves it as a single charge
/// with their sum does.
proof fn lemma_charged_all_is_sum(meter: MeterView, diffs: Seq<Diff>)
    requires
        meter.is_alive(),
    ensures
        meter.charged_all(diffs) == meter.charged(Diff::sum(diffs)),
    decreases diffs.len(),
{
    if diffs.len() > 0 {
        lemma_charged_all_is_sum(meter, diffs.drop_last());
    }
}

} // verus!
