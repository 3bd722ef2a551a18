//! The trigger entry point: authentication, optional refill, and the
//! forward of the stored payload to the owning account.
//!
//! A trigger is authenticated twice: the caller must be the funding-service
//! address resolved for the action's pinned version, and the funding
//! service's latest execution handle must equal the action's stored handle.
//! Only then is the payload forwarded; if the action's refill policy is
//! still active and the queried task balance is below the trigger balance,
//! the shortfall is topped up through the owning account first.

use vstd::prelude::*;

use crate::contract::{spec_resolve_addr, CronKittyPlugin, PluginView};
use crate::error::{ContractError, CronCatService};
use crate::msg::{out_msgs_view, CronKittyMsg, MsgSpec, ACTION_ERROR_REPLY_ID};
use crate::types::{clone_payloads, opt_str_view, Coin, CoinSpec};

verus! {

broadcast use vstd::std_specs::hash::group_hash_axioms;

impl PluginView {
    /// Transition of `execute`, the sole trigger entry point.
    ///
    /// `manager_addr` is the funding-service address resolved for the
    /// action's pinned version, `last_task_hash` the handle of whatever the
    /// funding service reports it most recently executed, and `task_balance`
    /// the funding balance it holds for the action's handle. On success the
    /// pending-execution marker is set to the action, the payload forward is
    /// always emitted last (acknowledged on failure only), and exactly when
    /// the policy is active and the balance falls short of the trigger, one
    /// refill of exactly the shortfall precedes it and is recorded in the
    /// accounting.
    pub open spec fn spec_execute(
        self,
        action_id: u64,
        sender: Seq<char>,
        manager_addr: Option<Seq<char>>,
        last_task_hash: Seq<char>,
        task_balance: Option<u128>,
    ) -> Result<(PluginView, Seq<MsgSpec>), ContractError> {
        if !self.actions.contains_key(action_id) {
            Err(ContractError::TaskNotFound)
        } else {
            let a = self.actions[action_id];
            match spec_resolve_addr(manager_addr, CronCatService::Manager) {
                Err(e) => Err(e),
                Ok(mgr) => if sender != mgr {
                    Err(ContractError::Unauthorized)
                } else {
                    match a.task_hash {
                        None => Err(ContractError::TaskHashNotFound),
                        Some(h) => if last_task_hash != h {
                            Err(ContractError::UnexpectedCroncatTaskHash)
                        } else {
                            let fwd = MsgSpec::ProxyForward {
                                owner: self.owner,
                                msgs: a.msgs,
                                reply_id: ACTION_ERROR_REPLY_ID,
                            };
                            if a.spec_refillable() {
                                match task_balance {
                                    None => Err(ContractError::UnexpectedCroncatTaskBalance),
                                    Some(bal) => match a.spec_watermark() {
                                        None => Err(ContractError::NotRefillable),
                                        Some(wm) => if bal < wm {
                                            let delta = (wm - bal) as u128;
                                            match a.spec_refill(delta) {
                                                Err(e) => Err(e),
                                                Ok(a2) => Ok(
                                                    (
                                                        PluginView {
                                                            actions: self.actions.insert(
                                                                action_id,
                                                                a2,
                                                            ),
                                                            exec_action_id: Some(action_id),
                                                            ..self
                                                        },
                                                        seq![
                                                            MsgSpec::ProxyRefill {
                                                                owner: self.owner,
                                                                task_id: action_id,
                                                                refill: CoinSpec {
                                                                    denom: self.native_denom,
                                                                    amount: delta,
                                                                },
                                                            },
                                                            fwd,
                                                        ],
                                                    ),
                                                ),
                                            }
                                        } else {
                                            Ok(
                                                (
                                                    PluginView {
                                                        exec_action_id: Some(action_id),
                                                        ..self
                                                    },
                                                    seq![fwd],
                                                ),
                                            )
                                        },
                                    },
                                }
                            } else {
                                Ok(
                                    (
                                        PluginView { exec_action_id: Some(action_id), ..self },
                                        seq![fwd],
                                    ),
                                )
                            }
                        },
                    }
                },
            }
        }
    }
}

impl CronKittyPlugin {
    /// Handles one trigger callback for `action_id`.
    ///
    /// The host resolves the funding-service address for the action's pinned
    /// version and queries that service for its last execution handle and,
    /// when the action carries a handle, for the task balance, then passes
    /// the results in. Any error leaves the state unchanged (the host rolls
    /// the call back); on success the state and emitted messages are exactly
    /// those of [`PluginView::spec_execute`].
    pub fn execute(
        &mut self,
        action_id: u64,
        sender: &String,
        manager_addr: &Option<String>,
        last_task_hash: &String,
        task_balance: &Option<u128>,
    ) -> (r: Result<Vec<CronKittyMsg>, ContractError>)
        ensures
            match r {
                Ok(msgs) => old(self)@.spec_execute(
                    action_id,
                    sender@,
                    opt_str_view(*manager_addr),
                    last_task_hash@,
                    *task_balance,
                ) == Ok::<(PluginView, Seq<MsgSpec>), ContractError>(
                    (final(self)@, out_msgs_view(msgs@)),
                ),
                Err(e) => old(self)@.spec_execute(
                    action_id,
                    sender@,
                    opt_str_view(*manager_addr),
                    last_task_hash@,
                    *task_balance,
                ) == Err::<(PluginView, Seq<MsgSpec>), ContractError>(e) && final(self)@ == old(
                    self,
                )@,
            },
    {
        let a = match self.actions.get(&action_id) {
            Some(a) => a,
            None => {
                return Err(ContractError::TaskNotFound);
            },
        };
        let mgr: &String = match manager_addr {
            Some(m) => m,
            None => {
                return Err(ContractError::NoCronCatContract(CronCatService::Manager));
            },
        };
        if !(*sender == *mgr) {
            return Err(ContractError::Unauthorized);
        }
        let stored_hash: &String = match &a.task_hash {
            Some(h) => h,
            None => {
                return Err(ContractError::TaskHashNotFound);
            },
        };
        if !(*last_task_hash == *stored_hash) {
            return Err(ContractError::UnexpectedCroncatTaskHash);
        }
        let mut do_refill = false;
        let mut delta: u128 = 0;
        if a.refillable() {
            let bal: u128 = match task_balance {
                Some(b) => *b,
                None => {
                    return Err(ContractError::UnexpectedCroncatTaskBalance);
                },
            };
            let wm: u128 = match a.get_watermark() {
                Some(w) => w,
                None => {
                    return Err(ContractError::NotRefillable);
                },
            };
            if bal < wm {
                do_refill = true;
                delta = wm - bal;
            }
        }
        let owner = self.owner.clone();
        let mut out: Vec<CronKittyMsg> = Vec::new();
        if do_refill {
            let mut owned = match self.actions.remove(&action_id) {
                Some(x) => x,
                None => {
                    return Err(ContractError::TaskNotFound);
                },
            };
            match owned.refill(delta) {
                Ok(()) => {
                    let fwd_msgs = clone_payloads(&owned.msgs);
                    self.actions.insert(action_id, owned);
                    out.push(CronKittyMsg::ProxyRefill {
                        owner: owner.clone(),
                        task_id: action_id,
                        refill: Coin { denom: self.native_denom.clone(), amount: delta },
                    });
                    out.push(CronKittyMsg::ProxyForward {
                        owner,
                        msgs: fwd_msgs,
                        reply_id: ACTION_ERROR_REPLY_ID,
                    });
                },
                Err(e) => {
                    self.actions.insert(action_id, owned);
                    proof {
                        assert(self@.actions =~= old(self)@.actions);
                        assert(self@ =~= old(self)@);
                    }
                    return Err(e);
                },
            }
        } else {
            let fwd_msgs = clone_payloads(&a.msgs);
            out.push(CronKittyMsg::ProxyForward {
                owner,
                msgs: fwd_msgs,
                reply_id: ACTION_ERROR_REPLY_ID,
            });
        }
        self.exec_action_id = Some(action_id);
        proof {
            let expected = old(self)@.spec_execute(
                action_id,
                sender@,
                opt_str_view(*manager_addr),
                last_task_hash@,
                *task_balance,
            );
            assert(self@.actions =~= expected->Ok_0.0.actions);
            assert(self@ =~= expected->Ok_0.0);
            assert(out_msgs_view(out@) =~= expected->Ok_0.1);
        }
        Ok(out)
    }
}

} // verus!
