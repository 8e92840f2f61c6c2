//! Pushing a price observation to an oracle account.
//!
//! The crate holds the decisions of one push: how the command's fields become
//! the record that is pushed, what is asked of the ledger and in which order,
//! how a failure of either step becomes an error, and what the command
//! reports. The calls on the ledger themselves are made by the caller.

pub mod command;
pub mod data;
pub mod laws;
pub mod ledger;
pub mod push;
