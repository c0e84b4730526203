//! Storage deposit metering for a stack of nested contract calls.
//!
//! Every call frame owns a meter that records how much storage the frame added
//! or freed. When a frame returns, its meter is absorbed by the meter of the
//! calling frame; when the outermost call returns, the root meter settles every
//! recorded deposit with the charging backend, refunds first.
//!
//! - [`deposit`]: an amount that is charged or refunded, and how two of them add up.
//! - [`diff`]: a change in storage, and the deposit that it costs against the
//!   record of a contract ([`contract_info`]).
//! - [`pro_rata`]: the share of a recorded deposit that freed storage gives back.
//! - [`contribution`], [`ledger`], [`meter`]: the meter of a call frame, what it
//!   recorded for itself and what it took over from the frames below.
//! - [`backend`]: whoever moves the balance, and the record of what it was
//!   asked to do.
//! - [`reserving`]: the rules of a backend that reserves balance.
//!
//! Every function states what it computes, and Verus proves that it does. The
//! laws that relate several functions are proof functions next to them: the
//! order of charges does not matter, refunds are settled before charges, and a
//! refund never exceeds what was paid.

pub mod primitives;
pub mod backend;
pub mod contract_info;
pub mod contribution;
pub mod deposit;
pub mod diff;
pub mod ledger;
pub mod meter;
pub mod pro_rata;
pub mod reserving;
mod private;

pub use backend::{Backend, Ext, LimitCheck, Settlement};
pub use contract_info::ContractInfo;
pub use contribution::Contribution;
pub use deposit::Deposit;
pub use diff::{Diff, Prices};
pub use ledger::Charge;
pub use meter::{Meter, MeterView, Nested, NestedMeter, RawMeter, Root, State};
pub use primitives::{AccountId, Balance, Error};
pub use reserving::{Movement, ReservingExt};
