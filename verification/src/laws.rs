//! Laws of the lifecycle state machine, proved over the spec transitions
//! that the entry points' contracts are stated with.

use vstd::prelude::*;

use crate::contract::PluginView;
use crate::error::ContractError;
use crate::msg::{MsgSpec, ACTION_ERROR_REPLY_ID};
use crate::types::{AutoRefill, CoinSpec, TaskRequestSpec};

verus! {

/// Well-formedness is established at instantiation.
pub proof fn lemma_initial_state_wf(
    croncat_factory: Seq<char>,
    owner: Seq<char>,
    native_denom: Seq<char>,
)
    ensures
        PluginView::initial(croncat_factory, owner, native_denom).wf(),
{
}

/// A successful creation preserves well-formedness: the fresh record sits at
/// the current counter value with no handle, carries accounting exactly when
/// it carries a policy, and every stored policy has a concrete trigger.
pub proof fn lemma_create_task_preserves_wf(
    s: PluginView,
    sender: Seq<char>,
    funds: Seq<CoinSpec>,
    latest_version: Option<(u8, u8)>,
    task_addr: Option<Seq<char>>,
    task: TaskRequestSpec,
    auto_refill: Option<AutoRefill>,
)
    requires
        s.wf(),
        s.spec_create_task(sender, funds, latest_version, task_addr, task, auto_refill) is Ok,
    ensures
        s.spec_create_task(
            sender,
            funds,
            latest_version,
            task_addr,
            task,
            auto_refill,
        )->Ok_0.0.wf(),
{
}

/// A successful trigger preserves well-formedness: only the refill
/// accounting of the triggered action can change.
pub proof fn lemma_execute_preserves_wf(
    s: PluginView,
    action_id: u64,
    sender: Seq<char>,
    manager_addr: Option<Seq<char>>,
    last_task_hash: Seq<char>,
    task_balance: Option<u128>,
)
    requires
        s.wf(),
        s.spec_execute(action_id, sender, manager_addr, last_task_hash, task_balance) is Ok,
    ensures
        s.spec_execute(
            action_id,
            sender,
            manager_addr,
            last_task_hash,
            task_balance,
        )->Ok_0.0.wf(),
{
}

/// A successful acknowledgement preserves well-formedness: a failure
/// acknowledgement only bumps accounting, a removal only deletes, and a
/// creation acknowledgement binds the handle of the one pending action and
/// advances the counter past it.
pub proof fn lemma_reply_preserves_wf(
    s: PluginView,
    reply_id: u64,
    data: Option<Seq<u8>>,
    balances: Seq<CoinSpec>,
)
    requires
        s.wf(),
        s.spec_reply(reply_id, data, balances) is Ok,
    ensures
        s.spec_reply(reply_id, data, balances)->Ok_0.0.wf(),
{
}

/// Uniqueness and monotonicity of issued ids, first half: a successful
/// creation stores its action under the current counter value, tags the
/// registration sub-call with that same id, and does not advance the
/// counter; every other stored action is untouched. A failed creation
/// leaves the state unchanged altogether (the `Err` branch of the entry
/// point's contract), so it consumes no id.
pub proof fn lemma_create_task_issues_current_id(
    s: PluginView,
    sender: Seq<char>,
    funds: Seq<CoinSpec>,
    latest_version: Option<(u8, u8)>,
    task_addr: Option<Seq<char>>,
    task: TaskRequestSpec,
    auto_refill: Option<AutoRefill>,
)
    requires
        s.spec_create_task(sender, funds, latest_version, task_addr, task, auto_refill) is Ok,
    ensures
        ({
            let (s2, msgs) = s.spec_create_task(
                sender,
                funds,
                latest_version,
                task_addr,
                task,
                auto_refill,
            )->Ok_0;
            &&& s2.next_action_id == s.next_action_id
            &&& s2.actions.contains_key(s.next_action_id)
            &&& s2.actions[s.next_action_id].task_hash is None
            &&& msgs.len() == 1
            &&& msgs[0] matches MsgSpec::RegisterTask { action_id, reply_id, .. }
                && action_id == s.next_action_id && reply_id == s.next_action_id
            &&& forall|id: u64| #[trigger]
                s.actions.contains_key(id) && id != s.next_action_id ==> s2.actions.contains_key(id)
                    && s2.actions[id] == s.actions[id]
        }),
{
}

/// Uniqueness and monotonicity of issued ids, second half: a successful
/// creation acknowledgement can only resolve the one pending action — which
/// by well-formedness sits exactly at the counter — and advances the counter
/// by exactly one, so the ids of successive successful creations are
/// strictly increasing with no gaps.
pub proof fn lemma_creation_ack_advances_counter(
    s: PluginView,
    reply_id: u64,
    data: Option<Seq<u8>>,
    balances: Seq<CoinSpec>,
)
    requires
        s.wf(),
        reply_id != ACTION_ERROR_REPLY_ID,
        s.actions.contains_key(reply_id),
        s.actions[reply_id].task_hash is None,
        s.spec_reply(reply_id, data, balances) is Ok,
    ensures
        reply_id == s.next_action_id,
        ({
            let (s2, msgs) = s.spec_reply(reply_id, data, balances)->Ok_0;
            &&& s2.next_action_id == s.next_action_id + 1
            &&& s2.actions.contains_key(reply_id)
            &&& s2.actions[reply_id].task_hash is Some
            &&& msgs.len() == 0
        }),
{
}

/// Authentication: a trigger for an existing action whose caller is not the
/// funding-service address resolved for that action's pinned version always
/// fails `Unauthorized`, regardless of everything else.
pub proof fn lemma_execute_authentication(
    s: PluginView,
    action_id: u64,
    sender: Seq<char>,
    manager_addr: Seq<char>,
    last_task_hash: Seq<char>,
    task_balance: Option<u128>,
)
    requires
        s.actions.contains_key(action_id),
        sender != manager_addr,
    ensures
        s.spec_execute(action_id, sender, Some(manager_addr), last_task_hash, task_balance)
            == Err::<(PluginView, Seq<MsgSpec>), ContractError>(ContractError::Unauthorized),
{
}

/// The owner gate: every owner-only entry point refuses any other caller
/// with `Unauthorized`, without revealing whether the target id exists.
pub proof fn lemma_owner_only(
    s: PluginView,
    sender: Seq<char>,
    funds: Seq<CoinSpec>,
    latest_version: Option<(u8, u8)>,
    addr: Option<Seq<char>>,
    task: TaskRequestSpec,
    auto_refill: Option<AutoRefill>,
    task_id: u64,
    balances: Seq<CoinSpec>,
)
    requires
        sender != s.owner,
    ensures
        funds.len() == 1 ==> s.spec_create_task(sender, funds, latest_version, addr, task, auto_refill)
            == Err::<(PluginView, Seq<MsgSpec>), ContractError>(ContractError::Unauthorized),
        s.spec_remove_task(sender, task_id, addr) == Err::<Seq<MsgSpec>, ContractError>(
            ContractError::Unauthorized,
        ),
        funds.len() > 0 ==> s.spec_refill_task(sender, funds, task_id, addr) == Err::<
            Seq<MsgSpec>,
            ContractError,
        >(ContractError::Unauthorized),
        s.spec_withdraw_funds(sender, balances) == Err::<Seq<MsgSpec>, ContractError>(
            ContractError::Unauthorized,
        ),
{
}

/// Handle binding: a stored handle is never overwritten by an
/// acknowledgement for any other id. A creation acknowledgement can only
/// bind the handle of an action that has none, so cross-id correlation is
/// impossible; a failure acknowledgement touches only accounting.
pub proof fn lemma_handle_binding(
    s: PluginView,
    reply_id: u64,
    data: Option<Seq<u8>>,
    balances: Seq<CoinSpec>,
    other_id: u64,
    handle: Seq<char>,
)
    requires
        s.wf(),
        s.actions.contains_key(other_id),
        s.actions[other_id].task_hash == Some(handle),
        reply_id != other_id,
        s.spec_reply(reply_id, data, balances) is Ok,
    ensures
        ({
            let s2 = s.spec_reply(reply_id, data, balances)->Ok_0.0;
            s2.actions.contains_key(other_id) && s2.actions[other_id].task_hash == Some(handle)
        }),
{
}

/// Refill idempotence under no shortfall: when the queried balance already
/// reaches the trigger balance, a successful trigger forwards the payload
/// and nothing else — no refill message, and the action store (and with it
/// the refill accounting) is unchanged.
pub proof fn lemma_refill_idempotent_without_shortfall(
    s: PluginView,
    action_id: u64,
    sender: Seq<char>,
    manager_addr: Option<Seq<char>>,
    last_task_hash: Seq<char>,
    balance: u128,
)
    requires
        s.actions.contains_key(action_id),
        s.actions[action_id].spec_watermark() matches Some(wm) && balance >= wm,
        s.spec_execute(action_id, sender, manager_addr, last_task_hash, Some(balance)) is Ok,
    ensures
        ({
            let (s2, msgs) = s.spec_execute(
                action_id,
                sender,
                manager_addr,
                last_task_hash,
                Some(balance),
            )->Ok_0;
            &&& s2.actions == s.actions
            &&& msgs.len() == 1
            &&& msgs[0] matches MsgSpec::ProxyForward { owner, msgs: fwd, reply_id }
                && owner == s.owner && fwd == s.actions[action_id].msgs && reply_id
                == ACTION_ERROR_REPLY_ID
        }),
{
}

/// Refill correctness: when the queried balance falls short of the trigger
/// balance by Δ, a successful trigger emits exactly one refill, routed
/// through the owning account (whose funds therefore pay for it) and
/// carrying exactly Δ of the native denomination, followed by the payload
/// forward; the accounting gains Δ on its total and one refill, while the
/// failure count is untouched.
pub proof fn lemma_refill_exact_shortfall(
    s: PluginView,
    action_id: u64,
    sender: Seq<char>,
    manager_addr: Option<Seq<char>>,
    last_task_hash: Seq<char>,
    balance: u128,
)
    requires
        s.actions.contains_key(action_id),
        s.actions[action_id].spec_refillable(),
        s.actions[action_id].spec_watermark() matches Some(wm) && balance < wm,
        s.spec_execute(action_id, sender, manager_addr, last_task_hash, Some(balance)) is Ok,
    ensures
        ({
            let (s2, msgs) = s.spec_execute(
                action_id,
                sender,
                manager_addr,
                last_task_hash,
                Some(balance),
            )->Ok_0;
            let delta = (s.actions[action_id].spec_watermark()->Some_0 - balance) as u128;
            let old_acct = s.actions[action_id].refill_accounting->Some_0;
            let new_acct = s2.actions[action_id].refill_accounting->Some_0;
            &&& msgs.len() == 2
            &&& msgs[0] == (MsgSpec::ProxyRefill {
                owner: s.owner,
                task_id: action_id,
                refill: CoinSpec { denom: s.native_denom, amount: delta },
            })
            &&& msgs[1] matches MsgSpec::ProxyForward { owner, msgs: fwd, reply_id }
                && owner == s.owner && fwd == s.actions[action_id].msgs && reply_id
                == ACTION_ERROR_REPLY_ID
            &&& s.actions[action_id].refill_accounting is Some
            &&& s2.actions.contains_key(action_id)
            &&& new_acct.total_refill_amount == old_acct.total_refill_amount + delta
            &&& new_acct.total_refills == old_acct.total_refills + 1
            &&& new_acct.last_refill_amount == delta
            &&& new_acct.total_action_failed == old_acct.total_action_failed
        }),
{
}

/// Stop conditions, first half: a trigger on an action whose refill policy
/// is no longer active — in particular one whose failure count or refilled
/// total has reached its `stop_after` limit — performs forward-only
/// behavior: no refill message is emitted and the store is unchanged, even
/// under shortfall.
pub proof fn lemma_stopped_trigger_forwards_only(
    s: PluginView,
    action_id: u64,
    sender: Seq<char>,
    manager_addr: Option<Seq<char>>,
    last_task_hash: Seq<char>,
    task_balance: Option<u128>,
)
    requires
        s.actions.contains_key(action_id),
        !s.actions[action_id].spec_refillable(),
        s.spec_execute(action_id, sender, manager_addr, last_task_hash, task_balance) is Ok,
    ensures
        ({
            let (s2, msgs) = s.spec_execute(
                action_id,
                sender,
                manager_addr,
                last_task_hash,
                task_balance,
            )->Ok_0;
            &&& s2.actions == s.actions
            &&& msgs.len() == 1
            &&& msgs[0] matches MsgSpec::ProxyForward { .. }
        }),
{
}

/// Stop conditions, second half: once a finalized action's refill policy is
/// inactive it stays inactive across every successful trigger, because the
/// accounting counters only ever grow and the policy itself never changes.
pub proof fn lemma_stop_condition_permanent_execute(
    s: PluginView,
    action_id: u64,
    sender: Seq<char>,
    manager_addr: Option<Seq<char>>,
    last_task_hash: Seq<char>,
    task_balance: Option<u128>,
    other_id: u64,
)
    requires
        s.actions.contains_key(other_id),
        !s.actions[other_id].spec_refillable(),
        s.spec_execute(action_id, sender, manager_addr, last_task_hash, task_balance) is Ok,
    ensures
        ({
            let s2 = s.spec_execute(
                action_id,
                sender,
                manager_addr,
                last_task_hash,
                task_balance,
            )->Ok_0.0;
            s2.actions.contains_key(other_id) && !s2.actions[other_id].spec_refillable()
        }),
{
}

/// Stop conditions, across acknowledgements: a finalized action's inactive
/// refill policy stays inactive through every successful acknowledgement —
/// a failure acknowledgement only raises the failure count, which can only
/// move the accounting further past a `FailedAttempts` limit.
pub proof fn lemma_stop_condition_permanent_reply(
    s: PluginView,
    reply_id: u64,
    data: Option<Seq<u8>>,
    balances: Seq<CoinSpec>,
    other_id: u64,
)
    requires
        s.actions.contains_key(other_id),
        !s.actions[other_id].spec_refillable(),
        s.spec_reply(reply_id, data, balances) is Ok,
    ensures
        ({
            let s2 = s.spec_reply(reply_id, data, balances)->Ok_0.0;
            s2.actions.contains_key(other_id) ==> !s2.actions[other_id].spec_refillable()
        }),
{
}

/// Removal finality: after a successful removal acknowledgement the action
/// is gone — an `action` query for its id answers `TaskNotFound` whatever
/// addresses are supplied — and the refunded balance is swept to the owner,
/// not kept by the plugin.
pub proof fn lemma_removal_finality(
    s: PluginView,
    reply_id: u64,
    data: Option<Seq<u8>>,
    balances: Seq<CoinSpec>,
)
    requires
        s.wf(),
        reply_id != ACTION_ERROR_REPLY_ID,
        s.actions.contains_key(reply_id),
        s.actions[reply_id].task_hash is Some,
        s.spec_reply(reply_id, data, balances) is Ok,
    ensures
        ({
            let (s2, msgs) = s.spec_reply(reply_id, data, balances)->Ok_0;
            &&& !s2.actions.contains_key(reply_id)
            &&& forall|t: Option<Seq<char>>, m: Option<Seq<char>>|
                s2.spec_action(reply_id, t, m) == Err::<
                    crate::types::ActionRespSpec,
                    ContractError,
                >(ContractError::TaskNotFound)
            &&& balances.len() > 0 ==> msgs == seq![
                MsgSpec::BankSend { to_addr: s.owner, amount: balances },
            ]
            &&& balances.len() == 0 ==> msgs.len() == 0
        }),
{
}

} // verus!
