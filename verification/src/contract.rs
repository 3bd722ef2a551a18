//! The plugin state and the task lifecycle controller.
//!
//! [`CronKittyPlugin`] holds the durable state: the fixed owner, the pinned
//! discovery factory, the funding denomination, the action store, the
//! next-id counter and the pending-execution marker. Every entry point is a
//! pure transition: the host performs the discovery and balance queries and
//! hands their results in as plain arguments, and each function's contract
//! equates it with the corresponding `spec_` transition on the state views.

use std::collections::HashMap;

use vstd::prelude::*;

use crate::error::{ContractError, CronCatService};
use crate::msg::{out_msgs_view, CronKittyMsg, MsgSpec, QueryAnswer, QueryMsg};
use crate::types::{
    clone_opt_string, clone_payloads, coins_view, opt_str_view, payloads_view, task_actions_view,
    ActionRef, ActionRespSpec, ActionSpec, AutoRefill, Coin, CoinSpec, CronKittyActionResp,
    PayloadMsg, TaskAction, TaskActionSpec, TaskRequestData, TaskRequestSpec,
};

verus! {

broadcast use vstd::std_specs::hash::group_hash_axioms;

/// The durable state of the plugin.
pub struct CronKittyPlugin {
    /// The owning account; fixed at instantiation, the only authority for
    /// create / remove / refill / withdraw.
    pub owner: String,
    /// The discovery factory address pinned at instantiation.
    pub croncat_factory: String,
    /// The native funding denomination, resolved at instantiation.
    pub native_denom: String,
    /// The next action id to issue; advanced only by a successful creation
    /// acknowledgement, so at most one creation is outstanding.
    pub next_action_id: u64,
    /// The action a trigger was last forwarded for, so a late failure
    /// acknowledgement can be attributed to it.
    pub exec_action_id: Option<u64>,
    /// The action store, keyed by locally-issued id.
    pub actions: HashMap<u64, ActionRef>,
}

/// Mathematical view of the plugin state.
#[verifier::ext_equal]
pub struct PluginView {
    pub owner: Seq<char>,
    pub croncat_factory: Seq<char>,
    pub native_denom: Seq<char>,
    pub next_action_id: u64,
    pub exec_action_id: Option<u64>,
    pub actions: Map<u64, ActionSpec>,
}

/// View of the action store.
pub open spec fn actions_map_view(m: Map<u64, ActionRef>) -> Map<u64, ActionSpec> {
    m.map_values(|a: ActionRef| a@)
}

impl View for CronKittyPlugin {
    type V = PluginView;

    open spec fn view(&self) -> PluginView {
        PluginView {
            owner: self.owner@,
            croncat_factory: self.croncat_factory@,
            native_denom: self.native_denom@,
            next_action_id: self.next_action_id,
            exec_action_id: self.exec_action_id,
            actions: actions_map_view(self.actions@),
        }
    }
}

impl PluginView {
    /// The state established at instantiation.
    pub open spec fn initial(
        croncat_factory: Seq<char>,
        owner: Seq<char>,
        native_denom: Seq<char>,
    ) -> PluginView {
        PluginView {
            owner,
            croncat_factory,
            native_denom,
            next_action_id: 0,
            exec_action_id: None,
            actions: Map::empty(),
        }
    }

    /// Well-formedness of the state, established at instantiation and
    /// preserved by every transition:
    /// ids are issued in order and never exceed the counter; exactly the
    /// finalized actions (those below the counter) carry a handle, so at
    /// most one action awaits acknowledgement; refill accounting exists if
    /// and only if a refill policy does; and every stored policy carries a
    /// concrete trigger balance.
    pub open spec fn wf(self) -> bool {
        &&& forall|id: u64| #[trigger] self.actions.contains_key(id) ==> id <= self.next_action_id
        &&& forall|id: u64| #[trigger]
            self.actions.contains_key(id) ==> (id < self.next_action_id <==> self.actions[id].task_hash is Some)
        &&& forall|id: u64| #[trigger]
            self.actions.contains_key(id) ==> (self.actions[id].refill_opt is Some <==> self.actions[id].refill_accounting is Some)
        &&& forall|id: u64| #[trigger] self.actions.contains_key(id) ==> match self.actions[id].refill_opt {
            Some(opt) => opt.trigger_balance is Some,
            None => true,
        }
    }

    /// Transition of `create_task`.
    ///
    /// Exactly one funding coin must be attached and only the owner may
    /// create. The latest version of the registration service is pinned, a
    /// fresh record is stored under the current counter value (the counter
    /// itself is advanced only by the acknowledgement), and the emitted
    /// registration sub-call carries a single synthetic action that points
    /// back at this plugin with the aggregated gas budget.
    pub open spec fn spec_create_task(
        self,
        sender: Seq<char>,
        funds: Seq<CoinSpec>,
        latest_version: Option<(u8, u8)>,
        task_addr: Option<Seq<char>>,
        task: TaskRequestSpec,
        auto_refill: Option<AutoRefill>,
    ) -> Result<(PluginView, Seq<MsgSpec>), ContractError> {
        if funds.len() != 1 {
            Err(ContractError::OneCoinExpectedForGas)
        } else if sender != self.owner {
            Err(ContractError::Unauthorized)
        } else {
            match spec_resolve_version(latest_version, CronCatService::Tasks) {
                Err(e) => Err(e),
                Ok(version) => match spec_resolve_addr(task_addr, CronCatService::Tasks) {
                    Err(e) => Err(e),
                    Ok(addr) => {
                        let funding = funds[0];
                        if (match auto_refill {
                            Some(ar) => match ar.trigger_balance {
                                Some(tb) => funding.amount < tb,
                                None => false,
                            },
                            None => false,
                        }) {
                            Err(ContractError::NotEnoughFundsForGas)
                        } else if spec_gas_sum(task.actions) > u64::MAX {
                            Err(ContractError::Overflow)
                        } else {
                            let policy = spec_defaulted_policy(auto_refill, funding.amount);
                            let id = self.next_action_id;
                            let action = ActionSpec::initial(
                                version,
                                crate::types::task_actions_payloads(task.actions),
                                policy,
                            );
                            let gas = spec_gas_sum(task.actions);
                            let gas_limit: Option<u64> = if gas == 0 {
                                None
                            } else {
                                Some(gas as u64)
                            };
                            Ok(
                                (
                                    PluginView { actions: self.actions.insert(id, action), ..self },
                                    seq![
                                        MsgSpec::RegisterTask {
                                            task_addr: addr,
                                            reply_id: id,
                                            action_id: id,
                                            gas_limit,
                                            funds,
                                            task_rest: task.rest,
                                        },
                                    ],
                                ),
                            )
                        }
                    },
                },
            }
        }
    }

    /// Transition of `remove_task`: owner-only; the action must exist and
    /// already carry a handle. The state is untouched here — the action is
    /// deleted only by the removal acknowledgement.
    pub open spec fn spec_remove_task(
        self,
        sender: Seq<char>,
        task_id: u64,
        task_addr: Option<Seq<char>>,
    ) -> Result<Seq<MsgSpec>, ContractError> {
        if sender != self.owner {
            Err(ContractError::Unauthorized)
        } else if !self.actions.contains_key(task_id) {
            Err(ContractError::TaskHashNotFound)
        } else {
            match self.actions[task_id].task_hash {
                None => Err(ContractError::TaskHashNotFound),
                Some(task_hash) => match spec_resolve_addr(task_addr, CronCatService::Tasks) {
                    Err(e) => Err(e),
                    Ok(addr) => Ok(
                        seq![
                            MsgSpec::DeregisterTask {
                                task_addr: addr,
                                reply_id: task_id,
                                task_hash,
                            },
                        ],
                    ),
                },
            }
        }
    }

    /// Transition of `refill_task`: owner-only, funds must be attached, the
    /// action must carry a handle; the funding is passed straight through to
    /// the funding service (fire-and-forget, no correlation).
    pub open spec fn spec_refill_task(
        self,
        sender: Seq<char>,
        funds: Seq<CoinSpec>,
        task_id: u64,
        manager_addr: Option<Seq<char>>,
    ) -> Result<Seq<MsgSpec>, ContractError> {
        if funds.len() == 0 {
            Err(ContractError::EmptyFunds)
        } else if sender != self.owner {
            Err(ContractError::Unauthorized)
        } else if !self.actions.contains_key(task_id) {
            Err(ContractError::TaskHashNotFound)
        } else {
            match self.actions[task_id].task_hash {
                None => Err(ContractError::TaskHashNotFound),
                Some(task_hash) => match spec_resolve_addr(manager_addr, CronCatService::Manager) {
                    Err(e) => Err(e),
                    Ok(addr) => Ok(
                        seq![MsgSpec::RefillBalance { manager_addr: addr, task_hash, funds }],
                    ),
                },
            }
        }
    }

    /// Transition of `withdraw_funds`: owner-only; sweeps the plugin's own
    /// balance back to the caller, and does nothing on a zero balance.
    pub open spec fn spec_withdraw_funds(
        self,
        sender: Seq<char>,
        balances: Seq<CoinSpec>,
    ) -> Result<Seq<MsgSpec>, ContractError> {
        if sender != self.owner {
            Err(ContractError::Unauthorized)
        } else if balances.len() == 0 {
            Ok(Seq::empty())
        } else {
            Ok(seq![MsgSpec::BankSend { to_addr: sender, amount: balances }])
        }
    }

    /// Answer of the `action` query: the stored record together with the
    /// addresses resolved for its pinned version. A removed or never-stored
    /// id answers not-found, never a stale value.
    pub open spec fn spec_action(
        self,
        action_id: u64,
        task_addr: Option<Seq<char>>,
        manager_addr: Option<Seq<char>>,
    ) -> Result<ActionRespSpec, ContractError> {
        if !self.actions.contains_key(action_id) {
            Err(ContractError::TaskNotFound)
        } else {
            match spec_resolve_addr(task_addr, CronCatService::Tasks) {
                Err(e) => Err(e),
                Ok(t) => match spec_resolve_addr(manager_addr, CronCatService::Manager) {
                    Err(e) => Err(e),
                    Ok(m) => {
                        let a = self.actions[action_id];
                        Ok(ActionRespSpec {
                            msgs: a.msgs,
                            task_hash: a.task_hash,
                            task_addr: t,
                            manager_addr: m,
                            auto_refill: a.refill_opt,
                            refill_accounting: a.refill_accounting,
                        })
                    },
                },
            }
        }
    }
}

/// The stored refill policy: an unset trigger balance is defaulted to the
/// first funding amount at creation time — the only time it may be defaulted.
pub open spec fn spec_defaulted_policy(
    auto_refill: Option<AutoRefill>,
    funding_amount: u128,
) -> Option<AutoRefill> {
    match auto_refill {
        None => None,
        Some(ar) => Some(
            AutoRefill {
                stop_after: ar.stop_after,
                trigger_balance: Some(
                    match ar.trigger_balance {
                        Some(tb) => tb,
                        None => funding_amount,
                    },
                ),
            },
        ),
    }
}

/// Resolution of the latest registered version of a service: the discovery
/// record either exists or the lookup fails for the caller to see — never a
/// silent default.
pub open spec fn spec_resolve_version(
    found: Option<(u8, u8)>,
    service: CronCatService,
) -> Result<(u8, u8), ContractError> {
    match found {
        Some(v) => Ok(v),
        None => Err(ContractError::NoCronCatVersion(service)),
    }
}

/// Resolution of the address pinned to a (service, version) pair.
pub open spec fn spec_resolve_addr(
    found: Option<Seq<char>>,
    service: CronCatService,
) -> Result<Seq<char>, ContractError> {
    match found {
        Some(a) => Ok(a),
        None => Err(ContractError::NoCronCatContract(service)),
    }
}

/// Maps the discovery answer for the latest version of a service onto the
/// caller-visible result. The host performs the actual factory query.
pub fn query_latest_version_croncat_contract(
    found: &Option<(u8, u8)>,
    service: CronCatService,
) -> (r: Result<(u8, u8), ContractError>)
    ensures
        r == spec_resolve_version(*found, service),
{
    match found {
        Some(v) => Ok(*v),
        None => Err(ContractError::NoCronCatVersion(service)),
    }
}

/// Maps the discovery answer for a (service, version) address onto the
/// caller-visible result. The host performs the actual factory query.
pub fn query_contract_addr(found: &Option<String>, service: CronCatService) -> (r: Result<
    String,
    ContractError,
>)
    ensures
        match r {
            Ok(a) => spec_resolve_addr(opt_str_view(*found), service) == Ok::<
                Seq<char>,
                ContractError,
            >(a@),
            Err(e) => spec_resolve_addr(opt_str_view(*found), service) == Err::<
                Seq<char>,
                ContractError,
            >(e),
        },
{
    match found {
        Some(a) => Ok(a.clone()),
        None => Err(ContractError::NoCronCatContract(service)),
    }
}

/// The gas budget declared by one requested action (absent means zero).
pub open spec fn gas_of(a: TaskActionSpec) -> int {
    match a.gas_limit {
        Some(g) => g as int,
        None => 0,
    }
}

/// The aggregate gas budget of a task request: the sum of all declared
/// limits.
pub open spec fn spec_gas_sum(s: Seq<TaskActionSpec>) -> int
    decreases s.len(),
{
    if s.len() == 0 {
        0
    } else {
        spec_gas_sum(s.drop_last()) + gas_of(s.last())
    }
}

proof fn lemma_gas_sum_nonneg(s: Seq<TaskActionSpec>)
    ensures
        spec_gas_sum(s) >= 0,
    decreases s.len(),
{
    if s.len() > 0 {
        lemma_gas_sum_nonneg(s.drop_last());
    }
}

proof fn lemma_gas_sum_prefix(s: Seq<TaskActionSpec>, i: int)
    requires
        0 <= i <= s.len(),
    ensures
        spec_gas_sum(s.subrange(0, i)) <= spec_gas_sum(s),
    decreases s.len() - i,
{
    if i == s.len() {
        assert(s.subrange(0, i) =~= s);
    } else {
        lemma_gas_sum_prefix(s, i + 1);
        assert(s.subrange(0, i + 1).drop_last() =~= s.subrange(0, i));
        assert(s.subrange(0, i + 1).last() == s[i]);
    }
}

/// The aggregate gas budget of the requested actions; a sum that does not
/// fit in `u64` is a hard `Overflow` error, not a silent clamp.
fn total_gas_limit(actions: &Vec<TaskAction>) -> (r: Result<u64, ContractError>)
    ensures
        match r {
            Ok(g) => g == spec_gas_sum(task_actions_view(actions@)),
            Err(e) => e == ContractError::Overflow && spec_gas_sum(task_actions_view(actions@))
                > u64::MAX,
        },
{
    let ghost s = task_actions_view(actions@);
    let mut acc: u64 = 0;
    let mut i: usize = 0;
    while i < actions.len()
        invariant
            i <= actions.len(),
            s == task_actions_view(actions@),
            s.len() == actions@.len(),
            acc == spec_gas_sum(s.subrange(0, i as int)),
        decreases actions.len() - i,
    {
        let g: u64 = match actions[i].gas_limit {
            Some(g) => g,
            None => 0,
        };
        proof {
            assert(s.subrange(0, i + 1).drop_last() =~= s.subrange(0, i as int));
            assert(s.subrange(0, i + 1).last() == s[i as int]);
            assert(gas_of(s[i as int]) == g as int);
        }
        acc = match acc.checked_add(g) {
            Some(a) => a,
            None => {
                proof {
                    lemma_gas_sum_prefix(s, i + 1);
                }
                return Err(ContractError::Overflow);
            },
        };
        i = i + 1;
    }
    proof {
        assert(s.subrange(0, s.len() as int) =~= s);
    }
    Ok(acc)
}

/// The payload captured from the requested actions, with gas budgets
/// dropped: exactly what is forwarded to the owning account on a trigger.
fn payload_of_actions(actions: &Vec<TaskAction>) -> (r: Vec<PayloadMsg>)
    ensures
        payloads_view(r@) == crate::types::task_actions_payloads(task_actions_view(actions@)),
{
    let mut r: Vec<PayloadMsg> = Vec::new();
    let mut i: usize = 0;
    while i < actions.len()
        invariant
            i <= actions.len(),
            r@.len() == i,
            forall|j: int| 0 <= j < i ==> r@[j]@ == actions@[j].msg@,
        decreases actions.len() - i,
    {
        let m = PayloadMsg { bytes: crate::types::clone_bytes(&actions[i].msg.bytes) };
        r.push(m);
        i = i + 1;
    }
    proof {
        assert(payloads_view(r@) =~= crate::types::task_actions_payloads(
            task_actions_view(actions@),
        ));
    }
    r
}

impl CronKittyPlugin {
    /// A fresh plugin state: the owner and the discovery factory are pinned
    /// here and never change; no action exists and the counter starts at 0.
    pub fn new(croncat_factory: String, owner: String, native_denom: String) -> (r: CronKittyPlugin)
        ensures
            r@ == PluginView::initial(croncat_factory@, owner@, native_denom@),
            r@.wf(),
    {
        let r = CronKittyPlugin {
            owner,
            croncat_factory,
            native_denom,
            next_action_id: 0,
            exec_action_id: None,
            actions: HashMap::new(),
        };
        proof {
            assert(r@.actions =~= Map::<u64, ActionSpec>::empty());
            assert(r@ =~= PluginView::initial(r.croncat_factory@, r.owner@, r.native_denom@));
        }
        r
    }

    /// The instantiation entry point. The host validates the addresses and
    /// queries the funding service's configuration for the native
    /// denomination before calling; nothing here can fail.
    pub fn instantiate(
        croncat_factory_addr: String,
        vectis_account_addr: String,
        native_denom: String,
    ) -> (r: Result<CronKittyPlugin, ContractError>)
        ensures
            match r {
                Ok(p) => p@ == PluginView::initial(
                    croncat_factory_addr@,
                    vectis_account_addr@,
                    native_denom@,
                ) && p@.wf(),
                Err(_) => false,
            },
    {
        Ok(CronKittyPlugin::new(croncat_factory_addr, vectis_account_addr, native_denom))
    }

    /// The next action id to be issued.
    pub fn action_id(&self) -> (r: u64)
        ensures
            r == self@.next_action_id,
    {
        self.next_action_id
    }

    /// Registers a new task: stores the action record under a fresh id and
    /// emits the correlated creation sub-call. The id counter is advanced
    /// only by the creation acknowledgement, so a failed creation never
    /// consumes an id.
    pub fn create_task(
        &mut self,
        sender: &String,
        funds: Vec<Coin>,
        latest_version: &Option<(u8, u8)>,
        task_addr: &Option<String>,
        task: TaskRequestData,
        auto_refill: Option<AutoRefill>,
    ) -> (r: Result<Vec<CronKittyMsg>, ContractError>)
        ensures
            match r {
                Ok(msgs) => old(self)@.spec_create_task(
                    sender@,
                    coins_view(funds@),
                    *latest_version,
                    opt_str_view(*task_addr),
                    task@,
                    auto_refill,
                ) == Ok::<(PluginView, Seq<MsgSpec>), ContractError>(
                    (final(self)@, out_msgs_view(msgs@)),
                ),
                Err(e) => old(self)@.spec_create_task(
                    sender@,
                    coins_view(funds@),
                    *latest_version,
                    opt_str_view(*task_addr),
                    task@,
                    auto_refill,
                ) == Err::<(PluginView, Seq<MsgSpec>), ContractError>(e) && final(self)@ == old(
                    self,
                )@,
            },
    {
        if funds.len() != 1 {
            return Err(ContractError::OneCoinExpectedForGas);
        }
        if !(*sender == self.owner) {
            return Err(ContractError::Unauthorized);
        }
        let version: (u8, u8) = match query_latest_version_croncat_contract(
            latest_version,
            CronCatService::Tasks,
        ) {
            Ok(v) => v,
            Err(e) => {
                return Err(e);
            },
        };
        let task_contract_addr: String = match query_contract_addr(
            task_addr,
            CronCatService::Tasks,
        ) {
            Ok(a) => a,
            Err(e) => {
                return Err(e);
            },
        };
        let funding_amount: u128 = funds[0].amount;
        if let Some(ar) = &auto_refill {
            if let Some(tb) = &ar.trigger_balance {
                if funding_amount < *tb {
                    return Err(ContractError::NotEnoughFundsForGas);
                }
            }
        }
        let gas_sum: u64 = match total_gas_limit(&task.actions) {
            Ok(g) => g,
            Err(e) => {
                return Err(e);
            },
        };
        let gas_limit: Option<u64> = if gas_sum == 0 {
            None
        } else {
            Some(gas_sum)
        };
        let policy: Option<AutoRefill> = match auto_refill {
            Some(ar) => Some(
                AutoRefill {
                    stop_after: ar.stop_after,
                    trigger_balance: Some(
                        match ar.trigger_balance {
                            Some(tb) => tb,
                            None => funding_amount,
                        },
                    ),
                },
            ),
            None => None,
        };
        let payload = payload_of_actions(&task.actions);
        let id = self.next_action_id;
        let action = ActionRef::new(version, payload, policy);
        self.actions.insert(id, action);
        let mut out: Vec<CronKittyMsg> = Vec::new();
        out.push(CronKittyMsg::RegisterTask {
            task_addr: task_contract_addr,
            reply_id: id,
            action_id: id,
            gas_limit,
            funds,
            task_rest: task.rest,
        });
        proof {
            let expected = old(self)@.spec_create_task(
                sender@,
                coins_view(funds@),
                *latest_version,
                opt_str_view(*task_addr),
                task@,
                auto_refill,
            );
            assert(self@.actions =~= expected->Ok_0.0.actions);
            assert(self@ =~= expected->Ok_0.0);
            assert(out_msgs_view(out@) =~= expected->Ok_0.1);
        }
        Ok(out)
    }

    /// Emits the correlated removal sub-call for a finalized action. The
    /// store is untouched: the action is deleted only when the removal
    /// acknowledgement arrives.
    pub fn remove_task(&self, sender: &String, task_id: u64, task_addr: &Option<String>) -> (r:
        Result<Vec<CronKittyMsg>, ContractError>)
        ensures
            match r {
                Ok(msgs) => self@.spec_remove_task(sender@, task_id, opt_str_view(*task_addr))
                    == Ok::<Seq<MsgSpec>, ContractError>(out_msgs_view(msgs@)),
                Err(e) => self@.spec_remove_task(sender@, task_id, opt_str_view(*task_addr))
                    == Err::<Seq<MsgSpec>, ContractError>(e),
            },
    {
        if !(*sender == self.owner) {
            return Err(ContractError::Unauthorized);
        }
        let action = match self.actions.get(&task_id) {
            Some(a) => a,
            None => {
                return Err(ContractError::TaskHashNotFound);
            },
        };
        let task_hash: String = match &action.task_hash {
            Some(h) => h.clone(),
            None => {
                return Err(ContractError::TaskHashNotFound);
            },
        };
        let addr: String = match query_contract_addr(task_addr, CronCatService::Tasks) {
            Ok(a) => a,
            Err(e) => {
                return Err(e);
            },
        };
        let mut out: Vec<CronKittyMsg> = Vec::new();
        out.push(CronKittyMsg::DeregisterTask { task_addr: addr, reply_id: task_id, task_hash });
        proof {
            assert(out_msgs_view(out@) =~= self@.spec_remove_task(
                sender@,
                task_id,
                opt_str_view(*task_addr),
            )->Ok_0);
        }
        Ok(out)
    }

    /// Forwards attached funding straight to the funding service for a
    /// finalized action (owner-initiated manual refill; fire-and-forget).
    pub fn refill_task(
        &self,
        sender: &String,
        funds: Vec<Coin>,
        task_id: u64,
        manager_addr: &Option<String>,
    ) -> (r: Result<Vec<CronKittyMsg>, ContractError>)
        ensures
            match r {
                Ok(msgs) => self@.spec_refill_task(
                    sender@,
                    coins_view(funds@),
                    task_id,
                    opt_str_view(*manager_addr),
                ) == Ok::<Seq<MsgSpec>, ContractError>(out_msgs_view(msgs@)),
                Err(e) => self@.spec_refill_task(
                    sender@,
                    coins_view(funds@),
                    task_id,
                    opt_str_view(*manager_addr),
                ) == Err::<Seq<MsgSpec>, ContractError>(e),
            },
    {
        if funds.len() == 0 {
            return Err(ContractError::EmptyFunds);
        }
        if !(*sender == self.owner) {
            return Err(ContractError::Unauthorized);
        }
        let action = match self.actions.get(&task_id) {
            Some(a) => a,
            None => {
                return Err(ContractError::TaskHashNotFound);
            },
        };
        let task_hash: String = match &action.task_hash {
            Some(h) => h.clone(),
            None => {
                return Err(ContractError::TaskHashNotFound);
            },
        };
        let addr: String = match query_contract_addr(manager_addr, CronCatService::Manager) {
            Ok(a) => a,
            Err(e) => {
                return Err(e);
            },
        };
        let mut out: Vec<CronKittyMsg> = Vec::new();
        out.push(CronKittyMsg::RefillBalance { manager_addr: addr, task_hash, funds });
        proof {
            assert(out_msgs_view(out@) =~= self@.spec_refill_task(
                sender@,
                coins_view(out@[0]->RefillBalance_funds@),
                task_id,
                opt_str_view(*manager_addr),
            )->Ok_0);
        }
        Ok(out)
    }

    /// Sweeps the plugin's residual balance (as queried by the host) back to
    /// the owner; a no-op on a zero balance.
    pub fn withdraw_funds(&self, sender: &String, balances: Vec<Coin>) -> (r: Result<
        Vec<CronKittyMsg>,
        ContractError,
    >)
        ensures
            match r {
                Ok(msgs) => self@.spec_withdraw_funds(sender@, coins_view(balances@)) == Ok::<
                    Seq<MsgSpec>,
                    ContractError,
                >(out_msgs_view(msgs@)),
                Err(e) => self@.spec_withdraw_funds(sender@, coins_view(balances@)) == Err::<
                    Seq<MsgSpec>,
                    ContractError,
                >(e),
            },
    {
        if !(*sender == self.owner) {
            return Err(ContractError::Unauthorized);
        }
        let mut out: Vec<CronKittyMsg> = Vec::new();
        if balances.len() == 0 {
            proof {
                assert(out_msgs_view(out@) =~= Seq::<MsgSpec>::empty());
            }
            return Ok(out);
        }
        out.push(CronKittyMsg::BankSend { to_addr: sender.clone(), amount: balances });
        proof {
            assert(out_msgs_view(out@) =~= self@.spec_withdraw_funds(
                sender@,
                coins_view(out@[0]->BankSend_amount@),
            )->Ok_0);
        }
        Ok(out)
    }

    /// The query entry point, dispatching on the wire message. The resolved
    /// addresses are only consulted for the `Action` query.
    pub fn query(
        &self,
        msg: &QueryMsg,
        task_addr: &Option<String>,
        manager_addr: &Option<String>,
    ) -> (r: Result<QueryAnswer, ContractError>)
        ensures
            match msg {
                QueryMsg::ActionId {  } => (r matches Ok(QueryAnswer::ActionId(n)) && n
                    == self@.next_action_id),
                QueryMsg::Action { action_id } => match r {
                    Ok(QueryAnswer::Action(resp)) => self@.spec_action(
                        *action_id,
                        opt_str_view(*task_addr),
                        opt_str_view(*manager_addr),
                    ) == Ok::<ActionRespSpec, ContractError>(resp@),
                    Ok(QueryAnswer::ActionId(_)) => false,
                    Err(e) => self@.spec_action(
                        *action_id,
                        opt_str_view(*task_addr),
                        opt_str_view(*manager_addr),
                    ) == Err::<ActionRespSpec, ContractError>(e),
                },
            },
    {
        match msg {
            QueryMsg::ActionId {  } => Ok(QueryAnswer::ActionId(self.action_id())),
            QueryMsg::Action { action_id } => match self.action(
                *action_id,
                task_addr,
                manager_addr,
            ) {
                Ok(resp) => Ok(QueryAnswer::Action(resp)),
                Err(e) => Err(e),
            },
        }
    }

    /// The stored record of one action, together with the task and funding
    /// addresses resolved for its pinned version.
    pub fn action(
        &self,
        action_id: u64,
        task_addr: &Option<String>,
        manager_addr: &Option<String>,
    ) -> (r: Result<CronKittyActionResp, ContractError>)
        ensures
            match r {
                Ok(resp) => self@.spec_action(
                    action_id,
                    opt_str_view(*task_addr),
                    opt_str_view(*manager_addr),
                ) == Ok::<ActionRespSpec, ContractError>(resp@),
                Err(e) => self@.spec_action(
                    action_id,
                    opt_str_view(*task_addr),
                    opt_str_view(*manager_addr),
                ) == Err::<ActionRespSpec, ContractError>(e),
            },
    {
        let action = match self.actions.get(&action_id) {
            Some(a) => a,
            None => {
                return Err(ContractError::TaskNotFound);
            },
        };
        let t: String = match query_contract_addr(task_addr, CronCatService::Tasks) {
            Ok(a) => a,
            Err(e) => {
                return Err(e);
            },
        };
        let m: String = match query_contract_addr(manager_addr, CronCatService::Manager) {
            Ok(a) => a,
            Err(e) => {
                return Err(e);
            },
        };
        let resp = CronKittyActionResp {
            msgs: clone_payloads(&action.msgs),
            task_hash: clone_opt_string(&action.task_hash),
            task_addr: t,
            manager_addr: m,
            auto_refill: action.refill_opt,
            refill_accounting: action.refill_accounting,
        };
        proof {
            assert(resp@ =~= self@.spec_action(
                action_id,
                opt_str_view(*task_addr),
                opt_str_view(*manager_addr),
            )->Ok_0);
        }
        Ok(resp)
    }
}

} // verus!
