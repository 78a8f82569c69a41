use example_applet::error::{EventKind, HtlcError};
use example_applet::service::{claim_reward, get_value, invoke_service, log_event, result_code, set_value};
use example_applet::storage::Storage;

#[test]
fn reward_is_claimed_once() {
    let mut store = Storage::new();
    assert_eq!(set_value(&mut store, b"rewards_alice", &[1]), 0);
    let ev = claim_reward(&mut store, "alice").unwrap();
    assert_eq!(ev.kind, EventKind::RewardClaimed);
    assert_eq!(ev.subject, b"alice".to_vec());
    let again = claim_reward(&mut store, "alice");
    assert_eq!(result_code(&again), -2);
    assert_eq!(again.unwrap_err(), HtlcError::NoRewardAvailable);
    assert_eq!(get_value(&store, b"rewards_alice"), -1);
}

#[test]
fn reward_of_other_user_is_untouched() {
    let mut store = Storage::new();
    set_value(&mut store, b"rewards_bob", &[1]);
    assert_eq!(claim_reward(&mut store, "alice").unwrap_err(), HtlcError::NoRewardAvailable);
    assert_eq!(get_value(&store, b"rewards_bob"), 1);
}

#[test]
fn set_then_get_reports_length() {
    let mut store = Storage::new();
    assert_eq!(set_value(&mut store, b"k", b"hello"), 0);
    assert_eq!(get_value(&store, b"k"), 5);
    assert_eq!(set_value(&mut store, b"k", b""), 0);
    assert_eq!(get_value(&store, b"k"), 0);
    assert_eq!(set_value(&mut store, b"", b"xyz"), 0);
    assert_eq!(get_value(&store, b""), 3);
    assert_eq!(get_value(&store, b"k"), 0);
}

#[test]
fn missing_key_reports_minus_one() {
    let store = Storage::new();
    assert_eq!(get_value(&store, b"absent"), -1);
}

#[test]
fn storage_set_get_delete() {
    let mut store = Storage::new();
    store.set(b"a".to_vec(), b"1".to_vec());
    store.set(b"b".to_vec(), b"22".to_vec());
    store.set(b"a".to_vec(), b"333".to_vec());
    assert_eq!(store.get(b"a"), Some(&b"333".to_vec()));
    assert!(store.contains_key(b"b"));
    assert!(store.delete(b"b"));
    assert!(!store.delete(b"b"));
    assert_eq!(store.get(b"b"), None);
    assert_eq!(store.get(b"a"), Some(&b"333".to_vec()));
}

#[test]
fn invocation_is_recorded() {
    let mut store = Storage::new();
    assert_eq!(invoke_service(&mut store, b"payload"), 0);
    assert_eq!(get_value(&store, b"last_invocation"), 7);
    assert_eq!(invoke_service(&mut store, b"xy"), 0);
    assert_eq!(get_value(&store, b"last_invocation"), 2);
}

#[test]
fn event_line_format() {
    assert_eq!(log_event("FundsLocked", "amount=100,timeout=1000"), b"[EVENT] FundsLocked: amount=100,timeout=1000".to_vec());
    assert_eq!(log_event("", ""), b"[EVENT] : ".to_vec());
}
