//! Inbound and outbound message model.
//!
//! Inbound: [`ExecuteMsg`] and [`QueryMsg`] mirror the wire messages the host
//! dispatches on. Outbound: [`CronKittyMsg`] is the exact description of
//! every message the plugin asks the host to emit; the host serializes each
//! variant one-to-one into the corresponding chain message.

use vstd::prelude::*;

use crate::types::{
    coins_view, payloads_view, AutoRefill, Coin, CoinSpec, PayloadMsg, TaskRequestData,
};

verus! {

/// The correlation id reserved for failure acknowledgements of forwarded
/// executions. Creation and removal acknowledgements carry the action id
/// instead.
pub const ACTION_ERROR_REPLY_ID: u64 = u64::MAX;

/// The executable wire messages of the plugin.
#[derive(Debug)]
pub enum ExecuteMsg {
    /// The trigger entry point, callable only by the funding service pinned
    /// to the action.
    Execute { action_id: u64 },
    /// Register a new task with the automation service (owner only).
    CreateTask { task: TaskRequestData, auto_refill: Option<AutoRefill> },
    /// Deregister a finalized task (owner only).
    RemoveTask { task_id: u64 },
    /// Forward funding to the task's balance on the funding service
    /// (owner only).
    RefillTask { task_id: u64 },
    /// Sweep the plugin's residual balance back to the owner (owner only).
    WithdrawFunds {},
}

/// The query wire messages of the plugin.
#[derive(Debug)]
pub enum QueryMsg {
    /// The next action id to be issued.
    ActionId {},
    /// The stored record of one action, with its resolved addresses.
    Action { action_id: u64 },
}

/// The answer to a [`QueryMsg`].
#[derive(Debug)]
pub enum QueryAnswer {
    /// Answer to `ActionId`.
    ActionId(u64),
    /// Answer to `Action`.
    Action(crate::types::CronKittyActionResp),
}

/// A message the plugin asks the host to emit.
#[derive(Debug)]
pub enum CronKittyMsg {
    /// Sub-call to the task-registration contract creating the task, tagged
    /// with `reply_id` and acknowledged on success only. The registered task
    /// consists of a single synthetic action that calls this plugin's
    /// `Execute { action_id }` with the aggregated `gas_limit`; `task_rest`
    /// carries the caller's remaining task parameters verbatim.
    RegisterTask {
        task_addr: String,
        reply_id: u64,
        action_id: u64,
        gas_limit: Option<u64>,
        funds: Vec<Coin>,
        task_rest: Vec<u8>,
    },
    /// Sub-call to the task-registration contract removing the task, tagged
    /// with `reply_id` and acknowledged on success only.
    DeregisterTask { task_addr: String, reply_id: u64, task_hash: String },
    /// Direct (fire-and-forget) funding transfer to the funding service.
    RefillBalance { manager_addr: String, task_hash: String, funds: Vec<Coin> },
    /// Direct bank transfer of the plugin's own funds.
    BankSend { to_addr: String, amount: Vec<Coin> },
    /// Ask the owning account to top up the task's funding by calling this
    /// plugin's `RefillTask { task_id }` with exactly `refill` attached, so
    /// the account's funds pay for the refill.
    ProxyRefill { owner: String, task_id: u64, refill: Coin },
    /// Ask the owning account to execute the forward payload; tagged with
    /// `reply_id` and acknowledged on failure only.
    ProxyForward { owner: String, msgs: Vec<PayloadMsg>, reply_id: u64 },
}

/// Mathematical view of a [`CronKittyMsg`].
#[verifier::ext_equal]
pub enum MsgSpec {
    RegisterTask {
        task_addr: Seq<char>,
        reply_id: u64,
        action_id: u64,
        gas_limit: Option<u64>,
        funds: Seq<CoinSpec>,
        task_rest: Seq<u8>,
    },
    DeregisterTask { task_addr: Seq<char>, reply_id: u64, task_hash: Seq<char> },
    RefillBalance { manager_addr: Seq<char>, task_hash: Seq<char>, funds: Seq<CoinSpec> },
    BankSend { to_addr: Seq<char>, amount: Seq<CoinSpec> },
    ProxyRefill { owner: Seq<char>, task_id: u64, refill: CoinSpec },
    ProxyForward { owner: Seq<char>, msgs: Seq<Seq<u8>>, reply_id: u64 },
}

impl View for CronKittyMsg {
    type V = MsgSpec;

    open spec fn view(&self) -> MsgSpec {
        match self {
            CronKittyMsg::RegisterTask { task_addr, reply_id, action_id, gas_limit, funds, task_rest } => (MsgSpec::RegisterTask {
                task_addr: task_addr@,
                reply_id: *reply_id,
                action_id: *action_id,
                gas_limit: *gas_limit,
                funds: coins_view(funds@),
                task_rest: task_rest@,
            }),
            CronKittyMsg::DeregisterTask { task_addr, reply_id, task_hash } => (MsgSpec::DeregisterTask {
                task_addr: task_addr@,
                reply_id: *reply_id,
                task_hash: task_hash@,
            }),
            CronKittyMsg::RefillBalance { manager_addr, task_hash, funds } => (MsgSpec::RefillBalance {
                manager_addr: manager_addr@,
                task_hash: task_hash@,
                funds: coins_view(funds@),
            }),
            CronKittyMsg::BankSend { to_addr, amount } => (MsgSpec::BankSend {
                to_addr: to_addr@,
                amount: coins_view(amount@),
            }),
            CronKittyMsg::ProxyRefill { owner, task_id, refill } => (MsgSpec::ProxyRefill {
                owner: owner@,
                task_id: *task_id,
                refill: refill@,
            }),
            CronKittyMsg::ProxyForward { owner, msgs, reply_id } => (MsgSpec::ProxyForward {
                owner: owner@,
                msgs: payloads_view(msgs@),
                reply_id: *reply_id,
            }),
        }
    }
}

/// View of the emitted message list.
pub open spec fn out_msgs_view(s: Seq<CronKittyMsg>) -> Seq<MsgSpec> {
    s.map_values(|m: CronKittyMsg| m@)
}

} // verus!
