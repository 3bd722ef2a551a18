//! Verified lifecycle core of a recurring-task scheduler plugin.
//!
//! The plugin lets a self-custody account delegate periodic triggering to an
//! external automation service while keeping exclusive authority over what is
//! executed and how the execution funding is replenished. This crate holds
//! the task/action lifecycle state machine: issuing locally-unique action
//! ids, correlating asynchronous creation and removal acknowledgements back
//! to those ids, authenticating every trigger callback, and tracking the
//! refill accounting. The host shell around the crate performs storage,
//! queries and message dispatch, and hands the queried values in as plain
//! arguments.

pub mod ack;
pub mod contract;
pub mod error;
pub mod execute;
pub mod laws;
pub mod msg;
pub mod reply;
pub mod types;
