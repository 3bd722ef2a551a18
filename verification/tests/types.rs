use cronkitty::error::ContractError;
use cronkitty::types::{ActionRef, AutoRefill, PayloadMsg, RefillAccounting, RefillLimit};

fn refillable_action(stop_after: Option<RefillLimit>) -> ActionRef {
    ActionRef::new(
        (1, 1),
        vec![PayloadMsg::new(vec![1, 2, 3])],
        Some(AutoRefill { stop_after, trigger_balance: Some(100) }),
    )
}

#[test]
pub fn non_refillable_works() {
    let action_ref = ActionRef::new((1, 1), vec![], None);
    assert!(!action_ref.refillable())
}

#[test]
fn new_action_has_zeroed_accounting_iff_policy() {
    let without = ActionRef::new((1, 1), vec![], None);
    assert!(without.refill_accounting.is_none());
    assert!(without.task_hash.is_none());

    let with = refillable_action(None);
    assert_eq!(with.refill_accounting, Some(RefillAccounting::default()));
    assert!(with.task_hash.is_none());
    let acct = with.refill_accounting.unwrap();
    assert_eq!(acct.last_refill_amount, 0);
    assert_eq!(acct.total_action_failed, 0);
    assert_eq!(acct.total_refills, 0);
    assert_eq!(acct.total_refill_amount, 0);
}

#[test]
fn refillable_without_stop_limit_is_always_active() {
    let action = refillable_action(None);
    assert!(action.refillable());
}

#[test]
fn refillable_stops_at_failed_attempts_limit() {
    let mut action = refillable_action(Some(RefillLimit::FailedAttempts(2)));
    assert!(action.refillable());
    action = action.failed_action().unwrap();
    assert!(action.refillable());
    action = action.failed_action().unwrap();
    assert_eq!(action.refill_accounting.unwrap().total_action_failed, 2);
    assert!(!action.refillable());
}

#[test]
fn refillable_stops_at_total_refilled_limit() {
    let mut action = refillable_action(Some(RefillLimit::TotalRefilledAmount(50)));
    assert!(action.refillable());
    action.refill(49).unwrap();
    assert!(action.refillable());
    action.refill(1).unwrap();
    assert_eq!(action.refill_accounting.unwrap().total_refill_amount, 50);
    assert!(!action.refillable());
}

#[test]
fn refill_updates_accounting_exactly() {
    let mut action = refillable_action(None);
    action.refill(30).unwrap();
    action.refill(12).unwrap();
    let acct = action.refill_accounting.unwrap();
    assert_eq!(acct.last_refill_amount, 12);
    assert_eq!(acct.total_refills, 2);
    assert_eq!(acct.total_refill_amount, 42);
    assert_eq!(acct.total_action_failed, 0);
}

#[test]
fn refill_without_policy_is_not_refillable() {
    let mut action = ActionRef::new((1, 1), vec![], None);
    assert_eq!(action.refill(10), Err(ContractError::NotRefillable));
}

#[test]
fn refill_overflow_is_reported() {
    let mut action = refillable_action(None);
    action.refill(u128::MAX).unwrap();
    assert_eq!(action.refill(1), Err(ContractError::Overflow));
    // the failed refill left the accounting untouched
    let acct = action.refill_accounting.unwrap();
    assert_eq!(acct.total_refill_amount, u128::MAX);
    assert_eq!(acct.total_refills, 1);
}

#[test]
fn failed_action_counts_only_with_accounting() {
    let action = ActionRef::new((1, 1), vec![], None);
    let action = action.failed_action().unwrap();
    assert!(action.refill_accounting.is_none());

    let action = refillable_action(None);
    let action = action.failed_action().unwrap();
    assert_eq!(action.refill_accounting.unwrap().total_action_failed, 1);
}

#[test]
fn get_watermark_reads_the_trigger_balance() {
    let action = refillable_action(None);
    assert_eq!(action.get_watermark(), Some(100));
    let bare = ActionRef::new((1, 1), vec![], None);
    assert_eq!(bare.get_watermark(), None);
}
