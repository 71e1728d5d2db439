//! Accounting core of a time-bounded crowdfunding campaign.
//!
//! Contributors pledge native currency until the campaign's deadline and hold
//! a receipt token for what they pledged. A pledge can be reversed for as long
//! as the ledger has not been settled. From the deadline on the creator can
//! settle: the custodied balance is split between the treasury and the
//! creator and the ledger is cleared.
//!
//! The core keeps no hidden state. A [`contract::KickstarterContract`] holds
//! the configuration, the campaign record and the contribution ledger; every
//! operation takes what the host knows about the call (who called, when, with
//! which funds) and returns, next to its result, the instructions the host has
//! to carry out.
//!
//! - [`contract`]: the lifecycle of a campaign and its operations.
//! - [`ledger`]: the contribution ledger, its model and its laws.
//! - [`fee`]: the settlement split.
//! - [`storage`]: the campaign record.
//! - [`msg`]: funds, answers and instructions.
//! - [`token`]: the orders for the receipt-token service.
//! - [`identity`]: the order in which contributors are listed.
//! - [`error`]: why a call is rejected.

pub mod contract;
pub mod error;
pub mod fee;
pub mod identity;
pub mod ledger;
pub mod msg;
pub mod storage;
pub mod token;
