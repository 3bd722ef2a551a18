//! The reply correlator: the handler of every asynchronous acknowledgement.
//!
//! Acknowledgements are dispatched on the correlation id attached when the
//! sub-call was emitted. The reserved id marks a failure acknowledgement of
//! a forwarded execution, which only updates the failure accounting of the
//! action recorded in the pending-execution marker. Any other id names an
//! action: one that already carries a handle is being removed (delete it and
//! sweep the refunded balance to the owner); one still awaiting its handle
//! is being created (parse the handle out of the payload, bind it, and only
//! then advance the id counter). Everything else is an invalid reply.

use vstd::prelude::*;

use crate::ack::{
    execute_response_payload, opt_payload_view, parse_execute_response_payload,
    parse_task_execution_hash, task_info_hash,
};
use crate::contract::{CronKittyPlugin, PluginView};
use crate::error::ContractError;
use crate::msg::{out_msgs_view, CronKittyMsg, MsgSpec, ACTION_ERROR_REPLY_ID};
use crate::types::{coins_view, opt_bytes_view, ActionSpec, Coin, CoinSpec};

verus! {

broadcast use vstd::std_specs::hash::group_hash_axioms;

impl PluginView {
    /// Transition of `reply`.
    ///
    /// `data` is the acknowledgement's optional payload and `balances` the
    /// plugin's own bank balance at acknowledgement time (the removal refund
    /// has already landed there when a removal is acknowledged).
    pub open spec fn spec_reply(
        self,
        reply_id: u64,
        data: Option<Seq<u8>>,
        balances: Seq<CoinSpec>,
    ) -> Result<(PluginView, Seq<MsgSpec>), ContractError> {
        if reply_id == ACTION_ERROR_REPLY_ID {
            match self.exec_action_id {
                None => Err(ContractError::TaskNotFound),
                Some(aid) => if !self.actions.contains_key(aid) {
                    Err(ContractError::TaskNotFound)
                } else {
                    match self.actions[aid].spec_failed_action() {
                        Err(e) => Err(e),
                        Ok(a2) => Ok(
                            (
                                PluginView { actions: self.actions.insert(aid, a2), ..self },
                                Seq::empty(),
                            ),
                        ),
                    }
                },
            }
        } else if self.actions.contains_key(reply_id) {
            let a = self.actions[reply_id];
            match a.task_hash {
                Some(_) => {
                    let s2 = PluginView { actions: self.actions.remove(reply_id), ..self };
                    if balances.len() == 0 {
                        Ok((s2, Seq::empty()))
                    } else {
                        Ok((s2, seq![MsgSpec::BankSend { to_addr: self.owner, amount: balances }]))
                    }
                },
                None => if reply_id != self.next_action_id {
                    Err(ContractError::InvalidReplyId)
                } else {
                    match data {
                        None => Err(ContractError::UnexpectedCroncatTaskReply),
                        Some(d) => match execute_response_payload(d) {
                            None => Err(ContractError::UnexpectedCroncatTaskReply),
                            Some(None) => Err(ContractError::UnexpectedCroncatTaskReply),
                            Some(Some(p)) => match task_info_hash(p) {
                                None => Err(ContractError::UnexpectedCroncatTaskReply),
                                Some(h) => if self.next_action_id + 1 > u64::MAX {
                                    Err(ContractError::Overflow)
                                } else {
                                    Ok(
                                        (
                                            PluginView {
                                                actions: self.actions.insert(
                                                    reply_id,
                                                    ActionSpec { task_hash: Some(h), ..a },
                                                ),
                                                next_action_id: (self.next_action_id + 1) as u64,
                                                ..self
                                            },
                                            Seq::empty(),
                                        ),
                                    )
                                },
                            },
                        },
                    }
                },
            }
        } else {
            Err(ContractError::InvalidReplyId)
        }
    }
}

impl CronKittyPlugin {
    /// Handles one acknowledgement.
    ///
    /// The host passes the correlation id, the raw payload bytes of a
    /// success acknowledgement (absent for a failure acknowledgement), and
    /// the plugin's current bank balance. Any error leaves the state
    /// unchanged; on success the state and emitted messages are exactly
    /// those of [`PluginView::spec_reply`].
    pub fn reply(&mut self, reply_id: u64, data: &Option<Vec<u8>>, balances: Vec<Coin>) -> (r:
        Result<Vec<CronKittyMsg>, ContractError>)
        ensures
            match r {
                Ok(msgs) => old(self)@.spec_reply(
                    reply_id,
                    opt_bytes_view(*data),
                    coins_view(balances@),
                ) == Ok::<(PluginView, Seq<MsgSpec>), ContractError>(
                    (final(self)@, out_msgs_view(msgs@)),
                ),
                Err(e) => old(self)@.spec_reply(
                    reply_id,
                    opt_bytes_view(*data),
                    coins_view(balances@),
                ) == Err::<(PluginView, Seq<MsgSpec>), ContractError>(e) && final(self)@ == old(
                    self,
                )@,
            },
    {
        if reply_id == ACTION_ERROR_REPLY_ID {
            let aid: u64 = match self.exec_action_id {
                Some(a) => a,
                None => {
                    return Err(ContractError::TaskNotFound);
                },
            };
            {
                let a = match self.actions.get(&aid) {
                    Some(a) => a,
                    None => {
                        return Err(ContractError::TaskNotFound);
                    },
                };
                if let Some(acct) = &a.refill_accounting {
                    if acct.total_action_failed == u64::MAX {
                        return Err(ContractError::Overflow);
                    }
                }
            }
            let owned = match self.actions.remove(&aid) {
                Some(x) => x,
                None => {
                    return Err(ContractError::TaskNotFound);
                },
            };
            match owned.failed_action() {
                Ok(updated) => {
                    self.actions.insert(aid, updated);
                    proof {
                        let expected = old(self)@.spec_reply(
                            reply_id,
                            opt_bytes_view(*data),
                            coins_view(balances@),
                        );
                        assert(self@.actions =~= expected->Ok_0.0.actions);
                        assert(self@ =~= expected->Ok_0.0);
                        assert(out_msgs_view(Seq::empty()) =~= Seq::<MsgSpec>::empty());
                    }
                    Ok(Vec::new())
                },
                Err(e) => Err(e),
            }
        } else {
            let has_hash: bool = match self.actions.get(&reply_id) {
                Some(a) => a.task_hash.is_some(),
                None => {
                    return Err(ContractError::InvalidReplyId);
                },
            };
            if has_hash {
                match self.actions.remove(&reply_id) {
                    Some(_) => (),
                    None => {
                        return Err(ContractError::InvalidReplyId);
                    },
                };
                let mut out: Vec<CronKittyMsg> = Vec::new();
                if balances.len() > 0 {
                    out.push(CronKittyMsg::BankSend {
                        to_addr: self.owner.clone(),
                        amount: balances,
                    });
                }
                proof {
                    let expected = old(self)@.spec_reply(
                        reply_id,
                        opt_bytes_view(*data),
                        coins_view(balances@),
                    );
                    assert(self@.actions =~= expected->Ok_0.0.actions);
                    assert(self@ =~= expected->Ok_0.0);
                    assert(out_msgs_view(out@) =~= expected->Ok_0.1);
                }
                Ok(out)
            } else {
                if reply_id != self.next_action_id {
                    return Err(ContractError::InvalidReplyId);
                }
                let d: &Vec<u8> = match data {
                    Some(d) => d,
                    None => {
                        return Err(ContractError::UnexpectedCroncatTaskReply);
                    },
                };
                let payload: Vec<u8> = match parse_execute_response_payload(d) {
                    Ok(Some(p)) => p,
                    Ok(None) => {
                        return Err(ContractError::UnexpectedCroncatTaskReply);
                    },
                    Err(_) => {
                        return Err(ContractError::UnexpectedCroncatTaskReply);
                    },
                };
                let task_hash: String = match parse_task_execution_hash(&payload) {
                    Ok(h) => h,
                    Err(_) => {
                        return Err(ContractError::UnexpectedCroncatTaskReply);
                    },
                };
                let next: u64 = match self.next_action_id.checked_add(1) {
                    Some(n) => n,
                    None => {
                        return Err(ContractError::Overflow);
                    },
                };
                let mut owned = match self.actions.remove(&reply_id) {
                    Some(x) => x,
                    None => {
                        return Err(ContractError::InvalidReplyId);
                    },
                };
                owned.task_hash = Some(task_hash);
                self.actions.insert(reply_id, owned);
                self.next_action_id = next;
                proof {
                    let expected = old(self)@.spec_reply(
                        reply_id,
                        opt_bytes_view(*data),
                        coins_view(balances@),
                    );
                    assert(self@.actions =~= expected->Ok_0.0.actions);
                    assert(self@ =~= expected->Ok_0.0);
                    assert(out_msgs_view(Seq::empty()) =~= Seq::<MsgSpec>::empty());
                }
                Ok(Vec::new())
            }
        }
    }
}

} // verus!
