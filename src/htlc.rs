use vstd::prelude::*;
use vstd::slice::slice_to_vec;
use crate::bytes::bytes_equal;
use crate::digest::{htlc_key, htlc_key_of, sha256, sha256_of, verify_preimage};
use crate::error::{Event, EventKind, HtlcError, Settlement};
use crate::record::{decode_record, encode_record, HtlcRecord, RecordView, Status};
use crate::storage::Storage;

verus! {

/// The store's contents as a mapping from keys to values.
pub type StoreMap = Map<Seq<u8>, Seq<u8>>;

/// The open contract that locking with these arguments stores.
pub open spec fn open_record(
    sender: Seq<u8>,
    hash_lock: Seq<u8>,
    timeout_height: u64,
    receiver: Seq<u8>,
    amount: u64,
) -> RecordView {
    RecordView { sender, receiver, amount, hash_lock, timeout_height, status: Status::Open }
}

/// What looking up `hash_lock` finds in `m`.
pub open spec fn lookup_spec(m: StoreMap, hash_lock: Seq<u8>) -> Result<Option<RecordView>, HtlcError> {
    let key = htlc_key_of(hash_lock);
    if hash_lock.len() != 32 {
        Err(HtlcError::InvalidInput)
    } else if !m.contains_key(key) {
        Ok(None)
    } else {
        match decode_record(m[key]) {
            Some(rec) => if rec.hash_lock == hash_lock {
                Ok(Some(rec))
            } else {
                Err(HtlcError::StorageFailure)
            },
            None => Err(HtlcError::StorageFailure),
        }
    }
}

/// The result of locking, and the store afterwards.
pub open spec fn lock_spec(
    m: StoreMap,
    sender: Seq<u8>,
    hash_lock: Seq<u8>,
    timeout_height: u64,
    receiver: Seq<u8>,
    amount: u64,
) -> (Result<(), HtlcError>, StoreMap) {
    let key = htlc_key_of(hash_lock);
    if hash_lock.len() != 32 {
        (Err(HtlcError::InvalidInput), m)
    } else if m.contains_key(key) {
        (Err(HtlcError::AlreadyExists), m)
    } else {
        (
            Ok(()),
            m.insert(key, encode_record(open_record(sender, hash_lock, timeout_height, receiver, amount))),
        )
    }
}

/// The result of settling the open contract under `hash_lock`, and the store afterwards.
pub open spec fn finalize_spec(m: StoreMap, hash_lock: Seq<u8>) -> (Result<(), HtlcError>, StoreMap) {
    match lookup_spec(m, hash_lock) {
        Err(e) => (Err(e), m),
        Ok(None) => (Err(HtlcError::NotFound), m),
        Ok(Some(rec)) => if rec.status != Status::Open {
            (Err(HtlcError::AlreadyFinalized), m)
        } else {
            (Ok(()), m.remove(htlc_key_of(hash_lock)))
        },
    }
}

/// The result of claiming at `height` (the receiver and the amount it gets), and
/// the store afterwards; `preimage_ok` tells whether the preimage hashes to the lock.
pub open spec fn claim_spec(m: StoreMap, hash_lock: Seq<u8>, preimage_ok: bool, height: u64) -> (
    Result<(Seq<u8>, u64), HtlcError>,
    StoreMap,
) {
    match lookup_spec(m, hash_lock) {
        Err(e) => (Err(e), m),
        Ok(None) => (Err(HtlcError::NotFound), m),
        Ok(Some(rec)) => if rec.status != Status::Open {
            (Err(HtlcError::AlreadyFinalized), m)
        } else if !preimage_ok {
            (Err(HtlcError::InvalidPreimage), m)
        } else if height >= rec.timeout_height {
            (Err(HtlcError::Expired), m)
        } else {
            (Ok((rec.receiver, rec.amount)), m.remove(htlc_key_of(hash_lock)))
        },
    }
}

/// The result of refunding at `height` (the sender and the amount it gets back),
/// and the store afterwards.
pub open spec fn refund_spec(m: StoreMap, hash_lock: Seq<u8>, height: u64) -> (
    Result<(Seq<u8>, u64), HtlcError>,
    StoreMap,
) {
    match lookup_spec(m, hash_lock) {
        Err(e) => (Err(e), m),
        Ok(None) => (Err(HtlcError::NotFound), m),
        Ok(Some(rec)) => if rec.status != Status::Open {
            (Err(HtlcError::AlreadyFinalized), m)
        } else if height < rec.timeout_height {
            (Err(HtlcError::NotYetExpired), m)
        } else {
            (Ok((rec.sender, rec.amount)), m.remove(htlc_key_of(hash_lock)))
        },
    }
}

pub open spec fn lookup_view(r: Result<Option<HtlcRecord>, HtlcError>) -> Result<Option<RecordView>, HtlcError> {
    match r {
        Ok(Some(rec)) => Ok(Some(rec@)),
        Ok(None) => Ok(None),
        Err(e) => Err(e),
    }
}

/// `r` is the event of `kind` about `subject` where `s` is `Ok`, and the same error otherwise.
pub open spec fn event_matches(
    r: Result<Event, HtlcError>,
    s: Result<(), HtlcError>,
    kind: EventKind,
    subject: Seq<u8>,
) -> bool {
    match (r, s) {
        (Ok(ev), Ok(_)) => ev.kind == kind && ev.subject@ == subject,
        (Err(e1), Err(e2)) => e1 == e2,
        _ => false,
    }
}

/// `r` pays what `s` names, with an event of `kind` about `hash_lock`, where `s` is
/// `Ok`, and is the same error otherwise.
pub open spec fn settlement_matches(
    r: Result<Settlement, HtlcError>,
    s: Result<(Seq<u8>, u64), HtlcError>,
    kind: EventKind,
    hash_lock: Seq<u8>,
) -> bool {
    match (r, s) {
        (Ok(x), Ok(pay)) => x.recipient@ == pay.0 && x.amount == pay.1 && x.event.kind == kind
            && x.event.subject@ == hash_lock,
        (Err(e1), Err(e2)) => e1 == e2,
        _ => false,
    }
}

/// Finds the contract stored under `hash_lock`.
pub fn lookup(store: &Storage, hash_lock: &[u8]) -> (r: Result<Option<HtlcRecord>, HtlcError>)
    requires
        store.wf(),
    ensures
        lookup_view(r) == lookup_spec(store@, hash_lock@),
{
    if hash_lock.len() != 32 {
        return Err(HtlcError::InvalidInput);
    }
    let key = htlc_key(hash_lock);
    match store.get(key.as_slice()) {
        None => Ok(None),
        Some(bytes) => match HtlcRecord::decode(bytes.as_slice()) {
            None => Err(HtlcError::StorageFailure),
            Some(rec) => {
                if bytes_equal(rec.hash_lock.as_slice(), hash_lock) {
                    Ok(Some(rec))
                } else {
                    Err(HtlcError::StorageFailure)
                }
            },
        },
    }
}

/// Settles the open contract under `hash_lock` by removing it from the store.
pub fn finalize(store: &mut Storage, hash_lock: &[u8]) -> (r: Result<(), HtlcError>)
    requires
        old(store).wf(),
    ensures
        final(store).wf(),
        (r, final(store)@) == finalize_spec(old(store)@, hash_lock@),
{
    match lookup(store, hash_lock) {
        Err(e) => Err(e),
        Ok(None) => Err(HtlcError::NotFound),
        Ok(Some(rec)) => {
            if rec.status != Status::Open {
                return Err(HtlcError::AlreadyFinalized);
            }
            let key = htlc_key(hash_lock);
            store.delete(key.as_slice());
            Ok(())
        },
    }
}

/// Locks `amount` from `sender` for `receiver` under `hash_lock` until `timeout`.
pub fn lock_funds(
    store: &mut Storage,
    sender: &[u8],
    hash_lock: &[u8],
    timeout: u64,
    receiver: &[u8],
    amount: u64,
) -> (r: Result<Event, HtlcError>)
    requires
        old(store).wf(),
    ensures
        final(store).wf(),
        final(store)@ == lock_spec(old(store)@, sender@, hash_lock@, timeout, receiver@, amount).1,
        event_matches(
            r,
            lock_spec(old(store)@, sender@, hash_lock@, timeout, receiver@, amount).0,
            EventKind::FundsLocked,
            hash_lock@,
        ),
{
    if hash_lock.len() != 32 {
        return Err(HtlcError::InvalidInput);
    }
    let key = htlc_key(hash_lock);
    if store.contains_key(key.as_slice()) {
        return Err(HtlcError::AlreadyExists);
    }
    let rec = HtlcRecord {
        sender: slice_to_vec(sender),
        receiver: slice_to_vec(receiver),
        amount,
        hash_lock: slice_to_vec(hash_lock),
        timeout_height: timeout,
        status: Status::Open,
    };
    let bytes = rec.encode();
    store.set(key, bytes);
    Ok(Event { kind: EventKind::FundsLocked, subject: slice_to_vec(hash_lock) })
}

/// Claims the contract under `hash_lock` at `height`, given whether the offered
/// preimage hashes to the lock.
pub fn claim_checked(store: &mut Storage, hash_lock: &[u8], preimage_ok: bool, height: u64) -> (r:
    Result<Settlement, HtlcError>)
    requires
        old(store).wf(),
    ensures
        final(store).wf(),
        final(store)@ == claim_spec(old(store)@, hash_lock@, preimage_ok, height).1,
        settlement_matches(
            r,
            claim_spec(old(store)@, hash_lock@, preimage_ok, height).0,
            EventKind::FundsClaimed,
            hash_lock@,
        ),
{
    let rec = match lookup(store, hash_lock) {
        Err(e) => return Err(e),
        Ok(None) => return Err(HtlcError::NotFound),
        Ok(Some(rec)) => rec,
    };
    if rec.status != Status::Open {
        return Err(HtlcError::AlreadyFinalized);
    }
    if !preimage_ok {
        return Err(HtlcError::InvalidPreimage);
    }
    if height >= rec.timeout_height {
        return Err(HtlcError::Expired);
    }
    let done = finalize(store, hash_lock);
    assert(done.is_ok());
    Ok(
        Settlement {
            recipient: rec.receiver,
            amount: rec.amount,
            event: Event { kind: EventKind::FundsClaimed, subject: slice_to_vec(hash_lock) },
        },
    )
}

/// Claims the contract under `hash_lock` at `height` with `preimage`.
pub fn claim_htlc(store: &mut Storage, hash_lock: &[u8], preimage: &[u8], height: u64) -> (r:
    Result<Settlement, HtlcError>)
    requires
        old(store).wf(),
    ensures
        final(store).wf(),
        final(store)@ == claim_spec(
            old(store)@,
            hash_lock@,
            sha256_of(preimage@) == hash_lock@,
            height,
        ).1,
        settlement_matches(
            r,
            claim_spec(old(store)@, hash_lock@, sha256_of(preimage@) == hash_lock@, height).0,
            EventKind::FundsClaimed,
            hash_lock@,
        ),
{
    let ok = verify_preimage(preimage, hash_lock);
    claim_checked(store, hash_lock, ok, height)
}

/// Claims, at `height`, the contract whose hash lock is the SHA-256 digest of `preimage`.
pub fn claim_funds(store: &mut Storage, preimage: &[u8], height: u64) -> (r: Result<
    Settlement,
    HtlcError,
>)
    requires
        old(store).wf(),
    ensures
        final(store).wf(),
        final(store)@ == claim_spec(old(store)@, sha256_of(preimage@), true, height).1,
        settlement_matches(
            r,
            claim_spec(old(store)@, sha256_of(preimage@), true, height).0,
            EventKind::FundsClaimed,
            sha256_of(preimage@),
        ),
{
    let digest = sha256(preimage);
    claim_checked(store, digest.as_slice(), true, height)
}

/// Returns the funds of the contract under `hash_lock` to its sender, once `height`
/// has reached the timeout.
pub fn refund_funds(store: &mut Storage, hash_lock: &[u8], height: u64) -> (r: Result<
    Settlement,
    HtlcError,
>)
    requires
        old(store).wf(),
    ensures
        final(store).wf(),
        final(store)@ == refund_spec(old(store)@, hash_lock@, height).1,
        settlement_matches(
            r,
            refund_spec(old(store)@, hash_lock@, height).0,
            EventKind::FundsRefunded,
            hash_lock@,
        ),
{
    let rec = match lookup(store, hash_lock) {
        Err(e) => return Err(e),
        Ok(None) => return Err(HtlcError::NotFound),
        Ok(Some(rec)) => rec,
    };
    if rec.status != Status::Open {
        return Err(HtlcError::AlreadyFinalized);
    }
    if height < rec.timeout_height {
        return Err(HtlcError::NotYetExpired);
    }
    let done = finalize(store, hash_lock);
    assert(done.is_ok());
    Ok(
        Settlement {
            recipient: rec.sender,
            amount: rec.amount,
            event: Event { kind: EventKind::FundsRefunded, subject: slice_to_vec(hash_lock) },
        },
    )
}

} // verus!
