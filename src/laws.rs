use vstd::prelude::*;
use crate::digest::{htlc_key_of, sha256_of};
use crate::error::HtlcError;
use crate::htlc::{claim_spec, lock_spec, lookup_spec, open_record, refund_spec, StoreMap};
use crate::record::{lemma_record_round_trip, RecordView, Status};
use crate::service::{get_value_spec, reward_spec, set_value_spec, MAX_REPORTED_LEN};

verus! {

/// Locking at a hash lock under which nothing is stored succeeds, and looking the
/// lock up right after finds an open contract with exactly the given fields.
pub proof fn lemma_lock_then_lookup(
    m: StoreMap,
    sender: Seq<u8>,
    hash_lock: Seq<u8>,
    timeout: u64,
    receiver: Seq<u8>,
    amount: u64,
)
    requires
        hash_lock.len() == 32,
        sender.len() <= u64::MAX,
        !m.contains_key(htlc_key_of(hash_lock)),
    ensures
        lock_spec(m, sender, hash_lock, timeout, receiver, amount).0 == Ok::<(), HtlcError>(()),
        lookup_spec(lock_spec(m, sender, hash_lock, timeout, receiver, amount).1, hash_lock)
            == Ok::<Option<RecordView>, HtlcError>(
            Some(open_record(sender, hash_lock, timeout, receiver, amount)),
        ),
{
    lemma_record_round_trip(open_record(sender, hash_lock, timeout, receiver, amount));
}

/// Once a lock has succeeded, locking again under the same hash lock fails with
/// `AlreadyExists` and leaves the store, and so the first contract, unchanged.
pub proof fn lemma_relock_refused(
    m: StoreMap,
    sender: Seq<u8>,
    hash_lock: Seq<u8>,
    timeout: u64,
    receiver: Seq<u8>,
    amount: u64,
    sender2: Seq<u8>,
    timeout2: u64,
    receiver2: Seq<u8>,
    amount2: u64,
)
    requires
        lock_spec(m, sender, hash_lock, timeout, receiver, amount).0 is Ok,
    ensures
        ({
            let m1 = lock_spec(m, sender, hash_lock, timeout, receiver, amount).1;
            lock_spec(m1, sender2, hash_lock, timeout2, receiver2, amount2) == (Err::<(), HtlcError>(
                HtlcError::AlreadyExists,
            ), m1)
        }),
{
}

/// A claim with a preimage that hashes to the lock, before the timeout, of an open
/// contract pays the receiver its amount; any later claim of the same lock finds
/// nothing.
pub proof fn lemma_claim_once(
    m: StoreMap,
    hash_lock: Seq<u8>,
    preimage: Seq<u8>,
    height: u64,
    rec: RecordView,
    later_preimage_ok: bool,
    later_height: u64,
)
    requires
        lookup_spec(m, hash_lock) == Ok::<Option<RecordView>, HtlcError>(Some(rec)),
        rec.status == Status::Open,
        sha256_of(preimage) == hash_lock,
        height < rec.timeout_height,
    ensures
        claim_spec(m, hash_lock, sha256_of(preimage) == hash_lock, height).0 == Ok::<
            (Seq<u8>, u64),
            HtlcError,
        >((rec.receiver, rec.amount)),
        claim_spec(
            claim_spec(m, hash_lock, sha256_of(preimage) == hash_lock, height).1,
            hash_lock,
            later_preimage_ok,
            later_height,
        ).0 == Err::<(Seq<u8>, u64), HtlcError>(HtlcError::NotFound),
{
}

/// A claim with a preimage that does not hash to the lock of an open contract fails
/// with `InvalidPreimage` and leaves the contract open.
pub proof fn lemma_wrong_preimage(
    m: StoreMap,
    hash_lock: Seq<u8>,
    preimage: Seq<u8>,
    height: u64,
    rec: RecordView,
)
    requires
        lookup_spec(m, hash_lock) == Ok::<Option<RecordView>, HtlcError>(Some(rec)),
        rec.status == Status::Open,
        sha256_of(preimage) != hash_lock,
    ensures
        claim_spec(m, hash_lock, sha256_of(preimage) == hash_lock, height) == (Err::<
            (Seq<u8>, u64),
            HtlcError,
        >(HtlcError::InvalidPreimage), m),
{
}

/// From the timeout height on, a claim of an open contract with the right preimage
/// fails with `Expired`, and a refund in that same state pays the sender back.
pub proof fn lemma_expired_claim_refunds(
    m: StoreMap,
    hash_lock: Seq<u8>,
    preimage: Seq<u8>,
    height: u64,
    rec: RecordView,
)
    requires
        lookup_spec(m, hash_lock) == Ok::<Option<RecordView>, HtlcError>(Some(rec)),
        rec.status == Status::Open,
        sha256_of(preimage) == hash_lock,
        height >= rec.timeout_height,
    ensures
        claim_spec(m, hash_lock, sha256_of(preimage) == hash_lock, height) == (Err::<
            (Seq<u8>, u64),
            HtlcError,
        >(HtlcError::Expired), m),
        refund_spec(m, hash_lock, height).0 == Ok::<(Seq<u8>, u64), HtlcError>(
            (rec.sender, rec.amount),
        ),
{
}

/// Before the timeout height, a refund of an open contract fails with
/// `NotYetExpired` and changes nothing.
pub proof fn lemma_early_refund_refused(m: StoreMap, hash_lock: Seq<u8>, height: u64, rec: RecordView)
    requires
        lookup_spec(m, hash_lock) == Ok::<Option<RecordView>, HtlcError>(Some(rec)),
        rec.status == Status::Open,
        height < rec.timeout_height,
    ensures
        refund_spec(m, hash_lock, height) == (Err::<(Seq<u8>, u64), HtlcError>(
            HtlcError::NotYetExpired,
        ), m),
{
}

/// At every height exactly one of a rightful claim and a refund of an open contract
/// succeeds.
pub proof fn lemma_claim_or_refund(m: StoreMap, hash_lock: Seq<u8>, height: u64, rec: RecordView)
    requires
        lookup_spec(m, hash_lock) == Ok::<Option<RecordView>, HtlcError>(Some(rec)),
        rec.status == Status::Open,
    ensures
        claim_spec(m, hash_lock, true, height).0 is Ok != refund_spec(m, hash_lock, height).0 is Ok,
{
}

/// A reward can be claimed once: after a successful claim, claiming again for the
/// same user fails with `NoRewardAvailable`.
pub proof fn lemma_reward_claimed_once(m: StoreMap, user: Seq<u8>)
    requires
        reward_spec(m, user).0 is Ok,
    ensures
        reward_spec(reward_spec(m, user).1, user) == (Err::<(), HtlcError>(
            HtlcError::NoRewardAvailable,
        ), reward_spec(m, user).1),
{
}

/// After a value is written at a key, reading the key reports the value's length.
pub proof fn lemma_set_then_get(m: StoreMap, key: Seq<u8>, value: Seq<u8>)
    requires
        value.len() <= MAX_REPORTED_LEN,
    ensures
        set_value_spec(m, key, value).0 == 0,
        get_value_spec(set_value_spec(m, key, value).1, key) == value.len(),
{
}

} // verus!
