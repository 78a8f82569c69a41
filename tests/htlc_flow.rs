use example_applet::error::{EventKind, HtlcError};
use example_applet::htlc::{claim_funds, claim_htlc, lock_funds, lookup, refund_funds};
use example_applet::record::{HtlcRecord, Status};
use example_applet::service::{get_value, result_code, set_value};
use example_applet::storage::Storage;
use sha2::{Digest, Sha256};

fn digest_of(data: &[u8]) -> [u8; 32] {
    let mut hasher = Sha256::new();
    hasher.update(data);
    hasher.finalize().into()
}

fn locked_store(hash_lock: &[u8]) -> Storage {
    let mut store = Storage::new();
    let r = lock_funds(&mut store, b"sender_address", hash_lock, 1000, b"receiver_address", 100);
    assert!(r.is_ok());
    store
}

#[test]
fn test_htlc_flow() {
    let preimage = b"secret123";
    let hash_lock = digest_of(preimage);
    let mut store = Storage::new();

    let result = lock_funds(&mut store, b"sender_address", &hash_lock, 1000, b"receiver_address", 100);
    assert_eq!(result_code(&result), 0);

    let claim_result = claim_funds(&mut store, preimage, 500);
    assert_eq!(result_code(&claim_result), 0);
}

#[test]
fn lock_then_lookup_gives_open_record() {
    let hash_lock = digest_of(b"secret123");
    let mut store = Storage::new();
    let ev = lock_funds(&mut store, b"alice", &hash_lock, 77, b"bob", 5).unwrap();
    assert_eq!(ev.kind, EventKind::FundsLocked);
    assert_eq!(ev.subject, hash_lock.to_vec());
    let rec = lookup(&store, &hash_lock).unwrap().unwrap();
    assert_eq!(rec.sender, b"alice".to_vec());
    assert_eq!(rec.receiver, b"bob".to_vec());
    assert_eq!(rec.amount, 5);
    assert_eq!(rec.hash_lock, hash_lock.to_vec());
    assert_eq!(rec.timeout_height, 77);
    assert_eq!(rec.status, Status::Open);
}

#[test]
fn lookup_of_unknown_lock_is_none() {
    let store = Storage::new();
    assert!(lookup(&store, &[7u8; 32]).unwrap().is_none());
}

#[test]
fn second_lock_is_refused_and_first_kept() {
    let hash_lock = digest_of(b"secret123");
    let mut store = locked_store(&hash_lock);
    let again = lock_funds(&mut store, b"mallory", &hash_lock, 5, b"mallory", 1);
    assert_eq!(result_code(&again), -3);
    assert_eq!(again.unwrap_err(), HtlcError::AlreadyExists);
    let rec = lookup(&store, &hash_lock).unwrap().unwrap();
    assert_eq!(rec.receiver, b"receiver_address".to_vec());
    assert_eq!(rec.amount, 100);
    assert_eq!(rec.timeout_height, 1000);
}

#[test]
fn claim_pays_receiver_once() {
    let hash_lock = digest_of(b"secret123");
    let mut store = locked_store(&hash_lock);
    let paid = claim_funds(&mut store, b"secret123", 500).unwrap();
    assert_eq!(paid.recipient, b"receiver_address".to_vec());
    assert_eq!(paid.amount, 100);
    assert_eq!(paid.event.kind, EventKind::FundsClaimed);
    assert_eq!(paid.event.subject, hash_lock.to_vec());
    let again = claim_funds(&mut store, b"secret123", 500);
    assert_eq!(result_code(&again), -1);
    assert_eq!(again.unwrap_err(), HtlcError::NotFound);
}

#[test]
fn refund_at_timeout_pays_sender() {
    let hash_lock = digest_of(b"secret123");
    let mut store = locked_store(&hash_lock);
    let back = refund_funds(&mut store, &hash_lock, 1000).unwrap();
    assert_eq!(back.recipient, b"sender_address".to_vec());
    assert_eq!(back.amount, 100);
    assert_eq!(back.event.kind, EventKind::FundsRefunded);
    assert!(lookup(&store, &hash_lock).unwrap().is_none());
    assert_eq!(refund_funds(&mut store, &hash_lock, 1000).unwrap_err(), HtlcError::NotFound);
}

#[test]
fn wrong_preimage_is_refused_and_record_stays_open() {
    let hash_lock = digest_of(b"secret123");
    let mut store = locked_store(&hash_lock);
    let r = claim_htlc(&mut store, &hash_lock, b"secret124", 500);
    assert_eq!(r.unwrap_err(), HtlcError::InvalidPreimage);
    let rec = lookup(&store, &hash_lock).unwrap().unwrap();
    assert_eq!(rec.status, Status::Open);
    let ok = claim_htlc(&mut store, &hash_lock, b"secret123", 500).unwrap();
    assert_eq!(ok.amount, 100);
}

#[test]
fn claim_with_unknown_preimage_finds_nothing() {
    let hash_lock = digest_of(b"secret123");
    let mut store = locked_store(&hash_lock);
    assert_eq!(claim_funds(&mut store, b"other", 500).unwrap_err(), HtlcError::NotFound);
    assert!(lookup(&store, &hash_lock).unwrap().is_some());
}

#[test]
fn claim_at_timeout_expires_and_refund_succeeds() {
    let hash_lock = digest_of(b"secret123");
    let mut store = locked_store(&hash_lock);
    let r = claim_funds(&mut store, b"secret123", 1000);
    assert_eq!(result_code(&r), -6);
    assert_eq!(r.unwrap_err(), HtlcError::Expired);
    assert!(refund_funds(&mut store, &hash_lock, 1000).is_ok());
}

#[test]
fn claim_just_before_timeout_succeeds() {
    let hash_lock = digest_of(b"secret123");
    let mut store = locked_store(&hash_lock);
    assert!(claim_funds(&mut store, b"secret123", 999).is_ok());
}

#[test]
fn refund_before_timeout_is_refused() {
    let hash_lock = digest_of(b"secret123");
    let mut store = locked_store(&hash_lock);
    let r = refund_funds(&mut store, &hash_lock, 999);
    assert_eq!(result_code(&r), -7);
    assert_eq!(r.unwrap_err(), HtlcError::NotYetExpired);
    assert!(lookup(&store, &hash_lock).unwrap().is_some());
}

#[test]
fn short_hash_lock_is_invalid_input() {
    let mut store = Storage::new();
    let r = lock_funds(&mut store, b"s", &[1u8; 31], 10, b"r", 1);
    assert_eq!(result_code(&r), -8);
    assert_eq!(r.unwrap_err(), HtlcError::InvalidInput);
    assert_eq!(refund_funds(&mut store, &[1u8; 33], 10).unwrap_err(), HtlcError::InvalidInput);
    assert_eq!(lookup(&store, &[]).unwrap_err(), HtlcError::InvalidInput);
}

#[test]
fn record_key_uses_lowercase_hex() {
    let hash_lock = digest_of(b"secret123");
    let store = locked_store(&hash_lock);
    let key = b"htlc_fcf730b6d95236ecd3c9fc2d92d7b6b2bb061514961aec041d6c7a7192f592e4";
    let expected = HtlcRecord {
        sender: b"sender_address".to_vec(),
        receiver: b"receiver_address".to_vec(),
        amount: 100,
        hash_lock: hash_lock.to_vec(),
        timeout_height: 1000,
        status: Status::Open,
    }
    .encode();
    assert_eq!(get_value(&store, key), expected.len() as i32);
}

#[test]
fn malformed_stored_record_is_storage_failure() {
    let hash_lock = digest_of(b"secret123");
    let mut store = Storage::new();
    let key = b"htlc_fcf730b6d95236ecd3c9fc2d92d7b6b2bb061514961aec041d6c7a7192f592e4";
    assert_eq!(set_value(&mut store, key, &[1, 2, 3]), 0);
    let r = claim_funds(&mut store, b"secret123", 1);
    assert_eq!(result_code(&r), -9);
    assert_eq!(r.unwrap_err(), HtlcError::StorageFailure);
    assert_eq!(lock_funds(&mut store, b"s", &hash_lock, 5, b"r", 1).unwrap_err(), HtlcError::AlreadyExists);
}

#[test]
fn settled_stored_record_is_already_finalized() {
    let hash_lock = digest_of(b"secret123");
    let mut store = Storage::new();
    let key = b"htlc_fcf730b6d95236ecd3c9fc2d92d7b6b2bb061514961aec041d6c7a7192f592e4";
    let settled = HtlcRecord {
        sender: b"s".to_vec(),
        receiver: b"r".to_vec(),
        amount: 9,
        hash_lock: hash_lock.to_vec(),
        timeout_height: 10,
        status: Status::Claimed,
    }
    .encode();
    assert_eq!(set_value(&mut store, key, &settled), 0);
    let r = refund_funds(&mut store, &hash_lock, 20);
    assert_eq!(result_code(&r), -4);
    assert_eq!(r.unwrap_err(), HtlcError::AlreadyFinalized);
    assert_eq!(claim_funds(&mut store, b"secret123", 1).unwrap_err(), HtlcError::AlreadyFinalized);
}
