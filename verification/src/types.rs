//! Data model of the plugin: coins, opaque payload messages, task requests,
//! refill policies and the stored `ActionRef` record.
//!
//! Each executable type has a mathematical view used by the contracts:
//! strings become `Seq<char>`, byte payloads become `Seq<u8>` and the stored
//! record becomes an `ActionSpec`.

use vstd::prelude::*;

use crate::error::ContractError;

verus! {

/// A single native coin: a denomination and an amount.
#[derive(Debug)]
pub struct Coin {
    pub denom: String,
    pub amount: u128,
}

/// Mathematical view of a [`Coin`].
#[verifier::ext_equal]
pub struct CoinSpec {
    pub denom: Seq<char>,
    pub amount: u128,
}

impl View for Coin {
    type V = CoinSpec;

    open spec fn view(&self) -> CoinSpec {
        CoinSpec { denom: self.denom@, amount: self.amount }
    }
}

impl Coin {
    pub fn new(denom: String, amount: u128) -> (r: Coin)
        ensures
            r@ == (CoinSpec { denom: denom@, amount }),
    {
        Coin { denom, amount }
    }
}

impl Clone for Coin {
    fn clone(&self) -> (r: Self)
        ensures
            r@ == self@,
    {
        Coin { denom: self.denom.clone(), amount: self.amount }
    }
}

/// One message of an action's forward payload.
///
/// The plugin never looks inside these messages: they are captured verbatim
/// at creation time and handed back verbatim on every trigger, so they are
/// carried as opaque bytes (their serialized form).
#[derive(Debug)]
pub struct PayloadMsg {
    pub bytes: Vec<u8>,
}

impl View for PayloadMsg {
    type V = Seq<u8>;

    open spec fn view(&self) -> Seq<u8> {
        self.bytes@
    }
}

impl PayloadMsg {
    pub fn new(bytes: Vec<u8>) -> (r: PayloadMsg)
        ensures
            r@ == bytes@,
    {
        PayloadMsg { bytes }
    }
}

impl Clone for PayloadMsg {
    fn clone(&self) -> (r: Self)
        ensures
            r@ == self@,
    {
        PayloadMsg { bytes: clone_bytes(&self.bytes) }
    }
}

/// View of a sequence of payload messages as a sequence of byte strings.
pub open spec fn payloads_view(s: Seq<PayloadMsg>) -> Seq<Seq<u8>> {
    s.map_values(|m: PayloadMsg| m@)
}

/// View of a sequence of coins.
pub open spec fn coins_view(s: Seq<Coin>) -> Seq<CoinSpec> {
    s.map_values(|c: Coin| c@)
}

/// View of an optional string.
pub open spec fn opt_str_view(o: Option<String>) -> Option<Seq<char>> {
    match o {
        Some(s) => Some(s@),
        None => None,
    }
}

/// View of optional bytes.
pub open spec fn opt_bytes_view(o: Option<Vec<u8>>) -> Option<Seq<u8>> {
    match o {
        Some(b) => Some(b@),
        None => None,
    }
}

/// Byte-for-byte copy of a byte vector.
pub fn clone_bytes(v: &Vec<u8>) -> (r: Vec<u8>)
    ensures
        r@ == v@,
{
    let mut r: Vec<u8> = Vec::new();
    let mut i: usize = 0;
    while i < v.len()
        invariant
            i <= v.len(),
            r@ == v@.subrange(0, i as int),
        decreases v.len() - i,
    {
        r.push(v[i]);
        i = i + 1;
    }
    assert(v@.subrange(0, v@.len() as int) =~= v@);
    r
}

/// Element-wise copy of a payload, preserving every message's bytes.
pub fn clone_payloads(v: &Vec<PayloadMsg>) -> (r: Vec<PayloadMsg>)
    ensures
        payloads_view(r@) == payloads_view(v@),
{
    let mut r: Vec<PayloadMsg> = Vec::new();
    let mut i: usize = 0;
    while i < v.len()
        invariant
            i <= v.len(),
            r@.len() == i,
            forall|j: int| 0 <= j < i ==> r@[j]@ == v@[j]@,
        decreases v.len() - i,
    {
        let m = PayloadMsg { bytes: clone_bytes(&v[i].bytes) };
        r.push(m);
        i = i + 1;
    }
    assert(payloads_view(r@) =~= payloads_view(v@));
    r
}

/// Copy of an optional string.
pub fn clone_opt_string(o: &Option<String>) -> (r: Option<String>)
    ensures
        opt_str_view(r) == opt_str_view(*o),
{
    match o {
        Some(s) => Some(s.clone()),
        None => None,
    }
}

/// A limit after which automatic refilling stops.
#[derive(Clone, Copy, Debug, PartialEq, Eq, Structural)]
pub enum RefillLimit {
    /// Stop once the forwarded payload has failed this many times.
    FailedAttempts(u64),
    /// Stop once this total amount has been refilled.
    TotalRefilledAmount(u128),
}

/// An automatic refill policy, chosen at task creation.
#[derive(Clone, Copy, Debug, PartialEq, Eq, Structural)]
pub struct AutoRefill {
    /// If unset, refilling continues for as long as the action lives.
    pub stop_after: Option<RefillLimit>,
    /// Balance under which a refill is triggered. If unset at creation it is
    /// filled in from the first funding coin, so stored actions always carry
    /// a concrete trigger balance.
    pub trigger_balance: Option<u128>,
}

/// Running totals of the refill machinery; all fields start at zero and are
/// only ever incremented.
#[derive(Clone, Copy, Debug, PartialEq, Eq, Structural)]
pub struct RefillAccounting {
    pub last_refill_amount: u128,
    pub total_action_failed: u64,
    pub total_refills: u64,
    pub total_refill_amount: u128,
}

impl RefillAccounting {
    /// The all-zero accounting state created alongside a refill policy.
    pub open spec fn spec_zero() -> RefillAccounting {
        RefillAccounting {
            last_refill_amount: 0,
            total_action_failed: 0,
            total_refills: 0,
            total_refill_amount: 0,
        }
    }
}

impl Default for RefillAccounting {
    fn default() -> (r: Self)
        ensures
            r == RefillAccounting::spec_zero(),
    {
        RefillAccounting {
            last_refill_amount: 0,
            total_action_failed: 0,
            total_refills: 0,
            total_refill_amount: 0,
        }
    }
}

/// The stored record of one scheduled task.
#[derive(Debug)]
pub struct ActionRef {
    /// The automation-service version pinned at creation time.
    pub version: (u8, u8),
    /// The operations forwarded to the owning account on every trigger.
    pub msgs: Vec<PayloadMsg>,
    /// Unset between creation request and creation acknowledgement; set for
    /// the action's entire executable lifetime.
    pub task_hash: Option<String>,
    /// Present only if automatic refilling was requested.
    pub refill_opt: Option<AutoRefill>,
    /// Present if and only if `refill_opt` is present.
    pub refill_accounting: Option<RefillAccounting>,
}

/// Mathematical view of an [`ActionRef`].
#[verifier::ext_equal]
pub struct ActionSpec {
    pub version: (u8, u8),
    pub msgs: Seq<Seq<u8>>,
    pub task_hash: Option<Seq<char>>,
    pub refill_opt: Option<AutoRefill>,
    pub refill_accounting: Option<RefillAccounting>,
}

impl View for ActionRef {
    type V = ActionSpec;

    open spec fn view(&self) -> ActionSpec {
        ActionSpec {
            version: self.version,
            msgs: payloads_view(self.msgs@),
            task_hash: opt_str_view(self.task_hash),
            refill_opt: self.refill_opt,
            refill_accounting: self.refill_accounting,
        }
    }
}

impl ActionSpec {
    /// The record stored for a fresh creation request: no handle yet, and a
    /// zeroed accounting block exactly when a refill policy is present.
    pub open spec fn initial(
        version: (u8, u8),
        msgs: Seq<Seq<u8>>,
        refill_opt: Option<AutoRefill>,
    ) -> ActionSpec {
        ActionSpec {
            version,
            msgs,
            task_hash: None,
            refill_opt,
            refill_accounting: if refill_opt is Some {
                Some(RefillAccounting::spec_zero())
            } else {
                None
            },
        }
    }

    /// Whether a trigger on this action should still attempt a refill.
    pub open spec fn spec_refillable(self) -> bool {
        match self.refill_opt {
            None => false,
            Some(opt) => match opt.stop_after {
                None => true,
                Some(RefillLimit::FailedAttempts(limit)) => match self.refill_accounting {
                    Some(acct) => acct.total_action_failed < limit,
                    None => false,
                },
                Some(RefillLimit::TotalRefilledAmount(limit)) => match self.refill_accounting {
                    Some(acct) => acct.total_refill_amount < limit,
                    None => false,
                },
            },
        }
    }

    /// The balance under which a refill is triggered, if a policy carries one.
    pub open spec fn spec_watermark(self) -> Option<u128> {
        match self.refill_opt {
            Some(opt) => opt.trigger_balance,
            None => None,
        }
    }

    /// Accounting update for one refill of `amount`.
    pub open spec fn spec_refill(self, amount: u128) -> Result<ActionSpec, ContractError> {
        match self.refill_accounting {
            None => Err(ContractError::NotRefillable),
            Some(acct) => if acct.total_refill_amount + amount > u128::MAX {
                Err(ContractError::Overflow)
            } else if acct.total_refills + 1 > u64::MAX {
                Err(ContractError::Overflow)
            } else {
                Ok(ActionSpec {
                    refill_accounting: Some(RefillAccounting {
                        last_refill_amount: amount,
                        total_action_failed: acct.total_action_failed,
                        total_refills: (acct.total_refills + 1) as u64,
                        total_refill_amount: (acct.total_refill_amount + amount) as u128,
                    }),
                    ..self
                })
            },
        }
    }

    /// Accounting update for one failed forwarded execution. An action
    /// without accounting is left unchanged, as failures are only tracked
    /// where a refill policy watches them.
    pub open spec fn spec_failed_action(self) -> Result<ActionSpec, ContractError> {
        match self.refill_accounting {
            None => Ok(self),
            Some(acct) => if acct.total_action_failed + 1 > u64::MAX {
                Err(ContractError::Overflow)
            } else {
                Ok(ActionSpec {
                    refill_accounting: Some(RefillAccounting {
                        total_action_failed: (acct.total_action_failed + 1) as u64,
                        ..acct
                    }),
                    ..self
                })
            },
        }
    }
}

impl ActionRef {
    /// A fresh record for a creation request: the handle is unset and the
    /// accounting block exists exactly when a refill policy was given.
    pub fn new(version: (u8, u8), msgs: Vec<PayloadMsg>, refill_opt: Option<AutoRefill>) -> (r:
        ActionRef)
        ensures
            r@ == ActionSpec::initial(version, payloads_view(msgs@), refill_opt),
    {
        let refill_accounting = if refill_opt.is_some() {
            Some(RefillAccounting::default())
        } else {
            None
        };
        ActionRef { version, msgs, task_hash: None, refill_opt, refill_accounting }
    }

    /// Whether a trigger should still attempt a refill for this action.
    pub fn refillable(&self) -> (r: bool)
        ensures
            r == self@.spec_refillable(),
    {
        if let Some(refill_opt) = self.refill_opt.as_ref() {
            if let Some(refill_limit) = refill_opt.stop_after.as_ref() {
                match refill_limit {
                    RefillLimit::FailedAttempts(attempts_limit) => match self
                        .refill_accounting
                        .as_ref() {
                        Some(acct) => acct.total_action_failed < *attempts_limit,
                        None => false,
                    },
                    RefillLimit::TotalRefilledAmount(amounts_limit) => match self
                        .refill_accounting
                        .as_ref() {
                        Some(acct) => acct.total_refill_amount < *amounts_limit,
                        None => false,
                    },
                }
            } else {
                true
            }
        } else {
            false
        }
    }

    /// The refill trigger balance, if one is set.
    pub fn get_watermark(&self) -> (r: Option<u128>)
        ensures
            r == self@.spec_watermark(),
    {
        match self.refill_opt.as_ref() {
            Some(opt) => opt.trigger_balance,
            None => None,
        }
    }

    /// Record one refill of `refill_amount` in the accounting block.
    pub fn refill(&mut self, refill_amount: u128) -> (r: Result<(), ContractError>)
        ensures
            match r {
                Ok(()) => old(self)@.spec_refill(refill_amount) == Ok::<ActionSpec, ContractError>(
                    final(self)@,
                ),
                Err(e) => old(self)@.spec_refill(refill_amount) == Err::<ActionSpec, ContractError>(
                    e,
                ) && final(self)@ == old(self)@,
            },
    {
        match self.refill_accounting.as_mut() {
            Some(acct) => {
                let total_amount = match acct.total_refill_amount.checked_add(refill_amount) {
                    Some(t) => t,
                    None => {
                        return Err(ContractError::Overflow);
                    },
                };
                let total_refills = match acct.total_refills.checked_add(1) {
                    Some(t) => t,
                    None => {
                        return Err(ContractError::Overflow);
                    },
                };
                acct.last_refill_amount = refill_amount;
                acct.total_refill_amount = total_amount;
                acct.total_refills = total_refills;
                Ok(())
            },
            None => Err(ContractError::NotRefillable),
        }
    }

    /// Record one failed forwarded execution.
    pub fn failed_action(self) -> (r: Result<ActionRef, ContractError>)
        ensures
            match r {
                Ok(a) => self@.spec_failed_action() == Ok::<ActionSpec, ContractError>(a@),
                Err(e) => self@.spec_failed_action() == Err::<ActionSpec, ContractError>(e),
            },
    {
        let mut action = self;
        match action.refill_accounting.as_mut() {
            Some(acct) => {
                let failed = match acct.total_action_failed.checked_add(1) {
                    Some(t) => t,
                    None => {
                        return Err(ContractError::Overflow);
                    },
                };
                acct.total_action_failed = failed;
                Ok(action)
            },
            None => Ok(action),
        }
    }
}

/// One requested sub-operation of a task: an opaque message and the gas
/// budget declared for it.
#[derive(Debug)]
pub struct TaskAction {
    pub msg: PayloadMsg,
    pub gas_limit: Option<u64>,
}

/// Mathematical view of a [`TaskAction`].
#[verifier::ext_equal]
pub struct TaskActionSpec {
    pub msg: Seq<u8>,
    pub gas_limit: Option<u64>,
}

impl View for TaskAction {
    type V = TaskActionSpec;

    open spec fn view(&self) -> TaskActionSpec {
        TaskActionSpec { msg: self.msg@, gas_limit: self.gas_limit }
    }
}

/// View of a sequence of task actions.
pub open spec fn task_actions_view(s: Seq<TaskAction>) -> Seq<TaskActionSpec> {
    s.map_values(|a: TaskAction| a@)
}

/// The payloads of a sequence of task actions, with the gas budgets dropped.
pub open spec fn task_actions_payloads(s: Seq<TaskActionSpec>) -> Seq<Seq<u8>> {
    s.map_values(|a: TaskActionSpec| a.msg)
}

/// A task-registration request: the requested sub-operations, plus the
/// remaining scheduling parameters (interval, boundary, and so on), which
/// the plugin forwards verbatim and never interprets.
#[derive(Debug)]
pub struct TaskRequestData {
    pub actions: Vec<TaskAction>,
    pub rest: Vec<u8>,
}

/// Mathematical view of a [`TaskRequestData`].
#[verifier::ext_equal]
pub struct TaskRequestSpec {
    pub actions: Seq<TaskActionSpec>,
    pub rest: Seq<u8>,
}

impl View for TaskRequestData {
    type V = TaskRequestSpec;

    open spec fn view(&self) -> TaskRequestSpec {
        TaskRequestSpec { actions: task_actions_view(self.actions@), rest: self.rest@ }
    }
}

/// The answer to an `action` query: the stored record together with the
/// task and funding addresses resolved for its pinned version.
#[derive(Debug)]
pub struct CronKittyActionResp {
    pub msgs: Vec<PayloadMsg>,
    pub task_hash: Option<String>,
    pub task_addr: String,
    pub manager_addr: String,
    pub auto_refill: Option<AutoRefill>,
    pub refill_accounting: Option<RefillAccounting>,
}

/// Mathematical view of a [`CronKittyActionResp`].
#[verifier::ext_equal]
pub struct ActionRespSpec {
    pub msgs: Seq<Seq<u8>>,
    pub task_hash: Option<Seq<char>>,
    pub task_addr: Seq<char>,
    pub manager_addr: Seq<char>,
    pub auto_refill: Option<AutoRefill>,
    pub refill_accounting: Option<RefillAccounting>,
}

impl View for CronKittyActionResp {
    type V = ActionRespSpec;

    open spec fn view(&self) -> ActionRespSpec {
        ActionRespSpec {
            msgs: payloads_view(self.msgs@),
            task_hash: opt_str_view(self.task_hash),
            task_addr: self.task_addr@,
            manager_addr: self.manager_addr@,
            auto_refill: self.auto_refill,
            refill_accounting: self.refill_accounting,
        }
    }
}

} // verus!
