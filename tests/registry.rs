use distrotron::distrotron::{Distrotron, PendingResult, LIST_MINTERS_GAS, SOMEGAS};
use distrotron::error::PayoutError;

fn to_ynear(near: u128) -> u128 {
    near * 10u128.pow(24)
}

#[test]
fn pay_minters_1() {
    let contract = Distrotron::default();
    // invalid; minimum length is 2
    let r = contract.pay_minters("i".to_string(), to_ynear(10), 10u64.pow(18), 0);
    assert_eq!(r.unwrap_err(), PayoutError::InvalidRegistryId);
}

#[test]
fn pay_minters_rejects_bad_syntax() {
    let contract = Distrotron::default();
    for id in ["Bob.near", "a..b", "-ab", "ab-", "a b", ""] {
        let r = contract.pay_minters(id.to_string(), 1, 10u64.pow(18), 0);
        assert_eq!(r.unwrap_err(), PayoutError::InvalidRegistryId, "{}", id);
    }
}

#[test]
fn pay_minters_budgets_callback() {
    let contract = Distrotron::default();
    let q = contract
        .pay_minters("store.mintbase1.near".to_string(), 77, 10u64.pow(18), 5_000)
        .unwrap();
    assert_eq!(q.registry, "store.mintbase1.near");
    assert_eq!(q.registry_gas, LIST_MINTERS_GAS);
    assert_eq!(q.callback_deposit, 77);
    assert_eq!(q.callback_gas, 10u64.pow(18) - 5_000 - LIST_MINTERS_GAS - SOMEGAS);
}

#[test]
fn pay_minters_budget_exceeded() {
    let contract = Distrotron::default();
    let exact = LIST_MINTERS_GAS + SOMEGAS + 10;
    let q = contract.pay_minters("aa".to_string(), 1, exact, 10).unwrap();
    assert_eq!(q.callback_gas, 0);
    let r = contract.pay_minters("aa".to_string(), 1, exact - 1, 10);
    assert_eq!(r.unwrap_err(), PayoutError::BudgetExceeded);
    let r = contract.pay_minters("aa".to_string(), 1, u64::MAX, u64::MAX);
    assert_eq!(r.unwrap_err(), PayoutError::BudgetExceeded);
}

#[test]
fn plan_registry_query_follows_validity() {
    let contract = Distrotron::default();
    let r = contract.plan_registry_query("whatever".to_string(), false, 1, u64::MAX, 0);
    assert_eq!(r.unwrap_err(), PayoutError::InvalidRegistryId);
    let q = contract.plan_registry_query("x".to_string(), true, 1, u64::MAX, 0).unwrap();
    assert_eq!(q.callback_gas, u64::MAX - LIST_MINTERS_GAS - SOMEGAS);
}

#[test]
fn callback_needs_exactly_one_result() {
    let contract = Distrotron::default();
    let r = contract.list_minters_cb(&vec![], 10);
    assert_eq!(r.unwrap_err(), PayoutError::ProtocolViolation);
    let two = vec![PendingResult::Failed, PendingResult::Successful(b"[\"a.near\"]".to_vec())];
    let r = contract.list_minters_cb(&two, 10);
    assert_eq!(r.unwrap_err(), PayoutError::ProtocolViolation);
    let r = contract.list_minters_cb(&vec![PendingResult::NotReady], 10);
    assert_eq!(r.unwrap_err(), PayoutError::ProtocolViolation);
}

#[test]
fn callback_registry_failure() {
    let r = Distrotron::default().list_minters_cb(&vec![PendingResult::Failed], 10);
    assert_eq!(r.unwrap_err(), PayoutError::RegistryUnavailable);
}

#[test]
fn callback_empty_list() {
    let r = Distrotron::default().list_minters_cb(&vec![PendingResult::Successful(b"[]".to_vec())], 10);
    assert_eq!(r.unwrap_err(), PayoutError::EmptyList);
}

#[test]
fn callback_malformed_response() {
    for body in [&b"not json"[..], b"{\"a\":1}", b"[1,2]", b""] {
        let r = Distrotron::default().list_minters_cb(&vec![PendingResult::Successful(body.to_vec())], 10);
        assert_eq!(r.unwrap_err(), PayoutError::MalformedRegistryResponse);
    }
}

#[test]
fn callback_distributes_gross() {
    let body = b"[\"bob.testnet\",\"carol.testnet\",\"dick.testnet\"]".to_vec();
    let plan = Distrotron::default()
        .list_minters_cb(&vec![PendingResult::Successful(body)], 1001)
        .unwrap();
    assert_eq!(plan.slice, 333);
    assert_eq!(plan.retained, 2);
    assert_eq!(plan.refund, None);
    let receivers: Vec<&str> = plan.transfers.iter().map(|t| t.receiver.as_str()).collect();
    assert_eq!(receivers, vec!["bob.testnet", "carol.testnet", "dick.testnet"]);
}

#[test]
fn callback_without_deposit() {
    let body = b"[\"bob.testnet\"]".to_vec();
    let r = Distrotron::default().list_minters_cb(&vec![PendingResult::Successful(body)], 0);
    assert_eq!(r.unwrap_err(), PayoutError::NoPayment);
}

#[test]
fn pay_registry_list_cases() {
    let contract = Distrotron::default();
    assert_eq!(
        contract.pay_registry_list(None, 5).unwrap_err(),
        PayoutError::MalformedRegistryResponse
    );
    assert_eq!(contract.pay_registry_list(Some(vec![]), 5).unwrap_err(), PayoutError::EmptyList);
    let plan = contract.pay_registry_list(Some(vec!["a.near".to_string()]), 5).unwrap();
    assert_eq!(plan.slice, 5);
}
