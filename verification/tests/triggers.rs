use cosmwasm_std::to_json_vec;
use croncat_sdk_tasks::types::TaskExecutionInfo;
use cronkitty::contract::CronKittyPlugin;
use cronkitty::error::{ContractError, CronCatService};
use cronkitty::msg::{CronKittyMsg, ACTION_ERROR_REPLY_ID};
use cronkitty::types::{AutoRefill, Coin, PayloadMsg, RefillLimit, TaskAction, TaskRequestData};

const OWNER: &str = "vectis_proxy";
const MANAGER: &str = "manager_addr";
const TASKS: &str = "tasks_addr";
const HASH: &str = "task-hash-0";

fn creation_ack(task_hash: &str) -> Vec<u8> {
    let info = TaskExecutionInfo { task_hash: task_hash.to_string(), ..Default::default() };
    let json = to_json_vec(&info).unwrap();
    // protobuf field 1, length-delimited, with a varint length
    let mut data = vec![0x0au8];
    let mut len = json.len();
    loop {
        let mut b = (len & 0x7f) as u8;
        len >>= 7;
        if len > 0 {
            b |= 0x80;
        }
        data.push(b);
        if len == 0 {
            break;
        }
    }
    data.extend(json);
    data
}

/// A plugin with one finalized action (id 0) carrying payload `[9]` and the
/// given refill policy, funded with 10_000 at creation.
fn plugin_with_action(auto_refill: Option<AutoRefill>) -> CronKittyPlugin {
    let mut plugin = CronKittyPlugin::instantiate(
        "croncat_factory".to_string(),
        OWNER.to_string(),
        "uatom".to_string(),
    )
    .unwrap();
    plugin
        .create_task(
            &OWNER.to_string(),
            vec![Coin::new("uatom".to_string(), 10_000)],
            &Some((1, 0)),
            &Some(TASKS.to_string()),
            TaskRequestData {
                actions: vec![TaskAction { msg: PayloadMsg::new(vec![9]), gas_limit: Some(150_000) }],
                rest: vec![],
            },
            auto_refill,
        )
        .unwrap();
    plugin.reply(0, &Some(creation_ack(HASH)), vec![]).unwrap();
    plugin
}

fn assert_forward(msg: &CronKittyMsg) {
    match msg {
        CronKittyMsg::ProxyForward { owner, msgs, reply_id } => {
            assert_eq!(owner.as_str(), OWNER);
            assert_eq!(msgs.len(), 1);
            assert_eq!(msgs[0].bytes, vec![9]);
            assert_eq!(*reply_id, ACTION_ERROR_REPLY_ID);
        },
        other => panic!("expected a payload forward, got {other:?}"),
    }
}

#[test]
fn legit_task_on_cronkitty_can_be_executed() {
    let mut plugin = plugin_with_action(None);
    let msgs = plugin
        .execute(0, &MANAGER.to_string(), &Some(MANAGER.to_string()), &HASH.to_string(), &None)
        .unwrap();
    // no refill policy: the payload is forwarded to the owning account, once
    assert_eq!(msgs.len(), 1);
    assert_forward(&msgs[0]);
}

#[test]
fn cronkitty_actions_cannot_execute_by_other_tasks() {
    // a task registered directly with the automation service targets this
    // plugin's action 0, but its trigger does not come from the funding
    // service pinned to action 0
    let mut plugin = plugin_with_action(None);
    let err = plugin
        .execute(
            0,
            &"controller".to_string(),
            &Some(MANAGER.to_string()),
            &HASH.to_string(),
            &None,
        )
        .unwrap_err();
    assert_eq!(err, ContractError::Unauthorized);
}

#[test]
fn execute_rejects_a_foreign_task_hash() {
    let mut plugin = plugin_with_action(None);
    let err = plugin
        .execute(
            0,
            &MANAGER.to_string(),
            &Some(MANAGER.to_string()),
            &"someone-elses-hash".to_string(),
            &None,
        )
        .unwrap_err();
    assert_eq!(err, ContractError::UnexpectedCroncatTaskHash);
}

#[test]
fn execute_surfaces_missing_records() {
    let mut plugin = plugin_with_action(None);
    let err = plugin
        .execute(3, &MANAGER.to_string(), &Some(MANAGER.to_string()), &HASH.to_string(), &None)
        .unwrap_err();
    assert_eq!(err, ContractError::TaskNotFound);
    let err = plugin
        .execute(0, &MANAGER.to_string(), &None, &HASH.to_string(), &None)
        .unwrap_err();
    assert_eq!(err, ContractError::NoCronCatContract(CronCatService::Manager));
}

#[test]
fn refillable_task_on_cronkitty_refills() {
    let watermark = 10_000u128;
    let mut plugin = plugin_with_action(Some(AutoRefill {
        stop_after: None,
        trigger_balance: Some(watermark),
    }));

    // the balance fell short of the watermark by 1_500: exactly one refill
    // of exactly the shortfall is routed through the owning account, then
    // the payload forward
    let msgs = plugin
        .execute(
            0,
            &MANAGER.to_string(),
            &Some(MANAGER.to_string()),
            &HASH.to_string(),
            &Some(8_500),
        )
        .unwrap();
    assert_eq!(msgs.len(), 2);
    match &msgs[0] {
        CronKittyMsg::ProxyRefill { owner, task_id, refill } => {
            assert_eq!(owner.as_str(), OWNER);
            assert_eq!(*task_id, 0);
            assert_eq!(refill.denom.as_str(), "uatom");
            assert_eq!(refill.amount, 1_500);
        },
        other => panic!("expected a refill, got {other:?}"),
    }
    assert_forward(&msgs[1]);

    let resp = plugin
        .action(0, &Some(TASKS.to_string()), &Some(MANAGER.to_string()))
        .unwrap();
    let acct = resp.refill_accounting.unwrap();
    assert_eq!(acct.last_refill_amount, 1_500);
    assert_eq!(acct.total_refills, 1);
    assert_eq!(acct.total_refill_amount, 1_500);
    assert_eq!(acct.total_action_failed, 0);
}

#[test]
fn no_refill_when_balance_reaches_the_watermark() {
    let mut plugin = plugin_with_action(Some(AutoRefill {
        stop_after: None,
        trigger_balance: Some(10_000),
    }));
    let msgs = plugin
        .execute(
            0,
            &MANAGER.to_string(),
            &Some(MANAGER.to_string()),
            &HASH.to_string(),
            &Some(10_000),
        )
        .unwrap();
    // the forward still happens, but no refill, and the accounting is untouched
    assert_eq!(msgs.len(), 1);
    assert_forward(&msgs[0]);
    let resp = plugin
        .action(0, &Some(TASKS.to_string()), &Some(MANAGER.to_string()))
        .unwrap();
    let acct = resp.refill_accounting.unwrap();
    assert_eq!(acct.total_refills, 0);
    assert_eq!(acct.total_refill_amount, 0);
}

#[test]
fn refillable_execute_needs_a_balance_record() {
    let mut plugin = plugin_with_action(Some(AutoRefill {
        stop_after: None,
        trigger_balance: Some(10_000),
    }));
    let err = plugin
        .execute(0, &MANAGER.to_string(), &Some(MANAGER.to_string()), &HASH.to_string(), &None)
        .unwrap_err();
    assert_eq!(err, ContractError::UnexpectedCroncatTaskBalance);
}

#[test]
fn stop_condition_on_total_refilled_amount_halts_refills() {
    let mut plugin = plugin_with_action(Some(AutoRefill {
        stop_after: Some(RefillLimit::TotalRefilledAmount(2_000)),
        trigger_balance: Some(10_000),
    }));
    // first shortfall: refilled (1_500 < 2_000 only after the fact)
    let msgs = plugin
        .execute(
            0,
            &MANAGER.to_string(),
            &Some(MANAGER.to_string()),
            &HASH.to_string(),
            &Some(8_500),
        )
        .unwrap();
    assert_eq!(msgs.len(), 2);
    // second shortfall: another 1_500 would be needed, but the first refill
    // already counted 1_500 toward the 2_000 limit... still below, refills
    let msgs = plugin
        .execute(
            0,
            &MANAGER.to_string(),
            &Some(MANAGER.to_string()),
            &HASH.to_string(),
            &Some(8_500),
        )
        .unwrap();
    assert_eq!(msgs.len(), 2);
    // the total refilled is now 3_000 >= 2_000: forward-only from here on,
    // even under shortfall
    let msgs = plugin
        .execute(
            0,
            &MANAGER.to_string(),
            &Some(MANAGER.to_string()),
            &HASH.to_string(),
            &Some(8_500),
        )
        .unwrap();
    assert_eq!(msgs.len(), 1);
    assert_forward(&msgs[0]);
    let resp = plugin
        .action(0, &Some(TASKS.to_string()), &Some(MANAGER.to_string()))
        .unwrap();
    assert_eq!(resp.refill_accounting.unwrap().total_refill_amount, 3_000);
}

#[test]
fn stop_condition_on_failed_attempts_halts_refills() {
    let mut plugin = plugin_with_action(Some(AutoRefill {
        stop_after: Some(RefillLimit::FailedAttempts(1)),
        trigger_balance: Some(10_000),
    }));
    // a trigger is forwarded, then its failure acknowledgement arrives
    plugin
        .execute(
            0,
            &MANAGER.to_string(),
            &Some(MANAGER.to_string()),
            &HASH.to_string(),
            &Some(10_000),
        )
        .unwrap();
    plugin.reply(ACTION_ERROR_REPLY_ID, &None, vec![]).unwrap();
    let resp = plugin
        .action(0, &Some(TASKS.to_string()), &Some(MANAGER.to_string()))
        .unwrap();
    assert_eq!(resp.refill_accounting.unwrap().total_action_failed, 1);
    // the failure limit is reached: under shortfall, forward-only
    let msgs = plugin
        .execute(
            0,
            &MANAGER.to_string(),
            &Some(MANAGER.to_string()),
            &HASH.to_string(),
            &Some(100),
        )
        .unwrap();
    assert_eq!(msgs.len(), 1);
    assert_forward(&msgs[0]);
}

#[test]
fn failure_acknowledgement_without_pending_execution_is_rejected() {
    let mut plugin = plugin_with_action(None);
    let err = plugin.reply(ACTION_ERROR_REPLY_ID, &None, vec![]).unwrap_err();
    assert_eq!(err, ContractError::TaskNotFound);
}
