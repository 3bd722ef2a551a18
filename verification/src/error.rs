//! Error taxonomy of the plugin.
//!
//! Every entry point returns one of these errors; the host environment rolls
//! back all state changes of the current call when an error is returned, so
//! the verified functions promise to leave the state untouched on `Err`.

use vstd::prelude::*;

verus! {

/// The logical names of the two automation-service contracts that the
/// plugin resolves through the discovery factory.
#[derive(Clone, Copy, Debug, PartialEq, Eq, Structural)]
pub enum CronCatService {
    /// The task-registration contract ("tasks").
    Tasks,
    /// The task-funding contract ("manager").
    Manager,
}

/// All the ways a call into the plugin can fail.
#[derive(Clone, Copy, Debug, PartialEq, Eq, Structural)]
pub enum ContractError {
    /// The caller is not allowed to perform the operation.
    Unauthorized,
    /// Funds were required but none were attached.
    EmptyFunds,
    /// Exactly one funding coin must be attached to a task creation.
    OneCoinExpectedForGas,
    /// The attached funding does not reach the requested refill trigger.
    NotEnoughFundsForGas,
    /// An addition overflowed (gas budget or refill accounting).
    Overflow,
    /// An acknowledgement arrived that matches no pending operation.
    InvalidReplyId,
    /// The action exists but its external task handle is not (or no longer) set.
    TaskHashNotFound,
    /// No action is stored under the given id.
    TaskNotFound,
    /// The discovery factory has no record of an address for the service.
    NoCronCatContract(CronCatService),
    /// The discovery factory has no latest version for the service.
    NoCronCatVersion(CronCatService),
    /// The creation acknowledgement payload was malformed or incomplete.
    UnexpectedCroncatTaskReply,
    /// The funding service reported a task handle other than the stored one.
    UnexpectedCroncatTaskHash,
    /// The funding service has no balance entry for the stored task handle.
    UnexpectedCroncatTaskBalance,
    /// Refill accounting was requested on an action without a refill policy.
    NotRefillable,
}

} // verus!
