use cosmwasm_std::to_json_vec;
use croncat_sdk_tasks::types::TaskExecutionInfo;
use cronkitty::contract::CronKittyPlugin;
use cronkitty::error::ContractError;
use cronkitty::msg::CronKittyMsg;
use cronkitty::types::{Coin, PayloadMsg, TaskAction, TaskRequestData};

const OWNER: &str = "vectis_proxy";
const MANAGER: &str = "manager_addr";
const TASKS: &str = "tasks_addr";
const HASH: &str = "task-hash-0";

fn creation_ack(task_hash: &str) -> Vec<u8> {
    let info = TaskExecutionInfo { task_hash: task_hash.to_string(), ..Default::default() };
    let json = to_json_vec(&info).unwrap();
    // protobuf field 1, length-delimited, with a varint length
    let mut data = vec![0x0au8];
    let mut len = json.len();
    loop {
        let mut b = (len & 0x7f) as u8;
        len >>= 7;
        if len > 0 {
            b |= 0x80;
        }
        data.push(b);
        if len == 0 {
            break;
        }
    }
    data.extend(json);
    data
}

fn plugin_with_action() -> CronKittyPlugin {
    let mut plugin = CronKittyPlugin::instantiate(
        "croncat_factory".to_string(),
        OWNER.to_string(),
        "uatom".to_string(),
    )
    .unwrap();
    plugin
        .create_task(
            &OWNER.to_string(),
            vec![Coin::new("uatom".to_string(), 10_000)],
            &Some((1, 0)),
            &Some(TASKS.to_string()),
            TaskRequestData {
                actions: vec![TaskAction { msg: PayloadMsg::new(vec![9]), gas_limit: None }],
                rest: vec![],
            },
            None,
        )
        .unwrap();
    plugin.reply(0, &Some(creation_ack(HASH)), vec![]).unwrap();
    plugin
}

#[test]
fn remove_task_works() {
    let mut plugin = plugin_with_action();

    // the action is queryable before removal
    plugin
        .action(0, &Some(TASKS.to_string()), &Some(MANAGER.to_string()))
        .unwrap();

    // the removal sub-call targets the registration service with the stored
    // handle, correlated with the action id
    let msgs = plugin
        .remove_task(&OWNER.to_string(), 0, &Some(TASKS.to_string()))
        .unwrap();
    assert_eq!(msgs.len(), 1);
    match &msgs[0] {
        CronKittyMsg::DeregisterTask { task_addr, reply_id, task_hash } => {
            assert_eq!(task_addr.as_str(), TASKS);
            assert_eq!(*reply_id, 0);
            assert_eq!(task_hash.as_str(), HASH);
        },
        other => panic!("expected a removal sub-call, got {other:?}"),
    }

    // the acknowledgement deletes the action and sweeps the refunded balance
    // (10_000, already returned to the plugin's bank balance) to the owner
    let msgs = plugin
        .reply(0, &None, vec![Coin::new("uatom".to_string(), 10_000)])
        .unwrap();
    assert_eq!(msgs.len(), 1);
    match &msgs[0] {
        CronKittyMsg::BankSend { to_addr, amount } => {
            assert_eq!(to_addr.as_str(), OWNER);
            assert_eq!(amount.len(), 1);
            assert_eq!(amount[0].amount, 10_000);
        },
        other => panic!("expected a sweep to the owner, got {other:?}"),
    }

    // removal finality: the action is gone for good
    let err = plugin
        .action(0, &Some(TASKS.to_string()), &Some(MANAGER.to_string()))
        .unwrap_err();
    assert_eq!(err, ContractError::TaskNotFound);
}

#[test]
fn remove_task_cannot_be_done_by_others() {
    let plugin = plugin_with_action();
    let err = plugin
        .remove_task(&"deployer".to_string(), 0, &Some(TASKS.to_string()))
        .unwrap_err();
    assert_eq!(err, ContractError::Unauthorized);
}

#[test]
fn remove_task_needs_a_finalized_action() {
    let mut plugin = CronKittyPlugin::instantiate(
        "croncat_factory".to_string(),
        OWNER.to_string(),
        "uatom".to_string(),
    )
    .unwrap();
    // no action at all
    let err = plugin
        .remove_task(&OWNER.to_string(), 0, &Some(TASKS.to_string()))
        .unwrap_err();
    assert_eq!(err, ContractError::TaskHashNotFound);
    // a pending action (no handle yet) cannot be removed either
    plugin
        .create_task(
            &OWNER.to_string(),
            vec![Coin::new("uatom".to_string(), 1)],
            &Some((1, 0)),
            &Some(TASKS.to_string()),
            TaskRequestData { actions: vec![], rest: vec![] },
            None,
        )
        .unwrap();
    let err = plugin
        .remove_task(&OWNER.to_string(), 0, &Some(TASKS.to_string()))
        .unwrap_err();
    assert_eq!(err, ContractError::TaskHashNotFound);
}

#[test]
fn removal_acknowledgement_with_no_refund_sends_nothing() {
    let mut plugin = plugin_with_action();
    plugin
        .remove_task(&OWNER.to_string(), 0, &Some(TASKS.to_string()))
        .unwrap();
    let msgs = plugin.reply(0, &None, vec![]).unwrap();
    assert!(msgs.is_empty());
    let err = plugin
        .action(0, &Some(TASKS.to_string()), &Some(MANAGER.to_string()))
        .unwrap_err();
    assert_eq!(err, ContractError::TaskNotFound);
}

#[test]
fn refill_works() {
    let plugin = plugin_with_action();
    let refill_amount = 150_000u128;
    let msgs = plugin
        .refill_task(
            &OWNER.to_string(),
            vec![Coin::new("uatom".to_string(), refill_amount)],
            0,
            &Some(MANAGER.to_string()),
        )
        .unwrap();
    // the funding is passed through to the funding service, keyed by the
    // stored handle: the task balance there grows by exactly the amount sent
    assert_eq!(msgs.len(), 1);
    match &msgs[0] {
        CronKittyMsg::RefillBalance { manager_addr, task_hash, funds } => {
            assert_eq!(manager_addr.as_str(), MANAGER);
            assert_eq!(task_hash.as_str(), HASH);
            assert_eq!(funds.len(), 1);
            assert_eq!(funds[0].amount, refill_amount);
            assert_eq!(funds[0].denom.as_str(), "uatom");
        },
        other => panic!("expected a funding pass-through, got {other:?}"),
    }
}

#[test]
fn refill_task_requires_funds_and_the_owner() {
    let plugin = plugin_with_action();
    let err = plugin
        .refill_task(&OWNER.to_string(), vec![], 0, &Some(MANAGER.to_string()))
        .unwrap_err();
    assert_eq!(err, ContractError::EmptyFunds);
    let err = plugin
        .refill_task(
            &"mallory".to_string(),
            vec![Coin::new("uatom".to_string(), 1)],
            0,
            &Some(MANAGER.to_string()),
        )
        .unwrap_err();
    assert_eq!(err, ContractError::Unauthorized);
}

#[test]
fn withdraw_funds_sweeps_to_the_owner() {
    let plugin = plugin_with_action();
    let msgs = plugin.withdraw_funds(&OWNER.to_string(), vec![]).unwrap();
    assert!(msgs.is_empty());
    let msgs = plugin
        .withdraw_funds(&OWNER.to_string(), vec![Coin::new("uatom".to_string(), 42)])
        .unwrap();
    assert_eq!(msgs.len(), 1);
    match &msgs[0] {
        CronKittyMsg::BankSend { to_addr, amount } => {
            assert_eq!(to_addr.as_str(), OWNER);
            assert_eq!(amount[0].amount, 42);
        },
        other => panic!("expected a sweep, got {other:?}"),
    }
    let err = plugin
        .withdraw_funds(&"mallory".to_string(), vec![Coin::new("uatom".to_string(), 1)])
        .unwrap_err();
    assert_eq!(err, ContractError::Unauthorized);
}
