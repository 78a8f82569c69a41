use vstd::prelude::*;
use sha2::{Digest, Sha256};

verus! {

/// The SHA-256 digest of a byte string.
pub uninterp spec fn sha256_of(data: Seq<u8>) -> Seq<u8>;

/// Relies on sha2's `Sha256` (`new`, `update`, `finalize`): the result is the
/// 32-byte SHA-256 digest of `data`, which depends on `data` alone.
#[verifier::external_body]
pub(crate) fn sha256(data: &[u8]) -> (r: Vec<u8>)
    ensures
        r@ == sha256_of(data@),
        r@.len() == 32,
{
    let mut hasher = Sha256::new();
    hasher.update(data);
    hasher.finalize().to_vec()
}

/// The lower-case hexadecimal digit for a value below sixteen.
pub open spec fn hex_digit(n: u8) -> u8 {
    if n < 10 {
        (48 + n) as u8
    } else {
        (87 + n) as u8
    }
}

/// Lower-case hexadecimal text of a byte string, two digits per byte, high half first.
pub open spec fn hex_lower(b: Seq<u8>) -> Seq<u8>
    decreases b.len(),
{
    if b.len() == 0 {
        Seq::empty()
    } else {
        hex_lower(b.drop_last()) + seq![hex_digit(b.last() / 16), hex_digit(b.last() % 16)]
    }
}

/// Relies on hex::encode: lower-case digits, two per byte, high half first.
#[verifier::external_body]
fn hex_encode(data: &[u8]) -> (r: Vec<u8>)
    ensures
        r@ == hex_lower(data@),
{
    hex::encode(data).into_bytes()
}

/// Appends `tail` to `v`.
pub fn append_bytes(v: &mut Vec<u8>, tail: &[u8])
    ensures
        final(v)@ == old(v)@ + tail@,
{
    let mut i: usize = 0;
    while i < tail.len()
        invariant
            i <= tail@.len(),
            v@ == old(v)@ + tail@.subrange(0, i as int),
        decreases tail@.len() - i,
    {
        v.push(tail[i]);
        assert(tail@.subrange(0, i + 1) == tail@.subrange(0, i as int).push(tail@[i as int]));
        i = i + 1;
    }
    assert(tail@.subrange(0, tail@.len() as int) == tail@);
}

/// The store key of the contract locked under `hash_lock`: `htlc_` and the lock in hexadecimal.
pub open spec fn htlc_key_of(hash_lock: Seq<u8>) -> Seq<u8> {
    seq![104u8, 116u8, 108u8, 99u8, 95u8] + hex_lower(hash_lock)
}

/// The store key that marks `user` as eligible for a reward: `rewards_` and the user.
pub open spec fn reward_key_of(user: Seq<u8>) -> Seq<u8> {
    seq![114u8, 101u8, 119u8, 97u8, 114u8, 100u8, 115u8, 95u8] + user
}

/// Builds the store key of the contract locked under `hash_lock`.
pub fn htlc_key(hash_lock: &[u8]) -> (r: Vec<u8>)
    ensures
        r@ == htlc_key_of(hash_lock@),
{
    let mut key: Vec<u8> = Vec::new();
    key.push(104u8);
    key.push(116u8);
    key.push(108u8);
    key.push(99u8);
    key.push(95u8);
    let digits = hex_encode(hash_lock);
    append_bytes(&mut key, digits.as_slice());
    assert(key@ =~= htlc_key_of(hash_lock@));
    key
}

/// Builds the store key that marks `user` as eligible for a reward.
pub fn reward_key(user: &[u8]) -> (r: Vec<u8>)
    ensures
        r@ == reward_key_of(user@),
{
    let mut key: Vec<u8> = Vec::new();
    key.push(114u8);
    key.push(101u8);
    key.push(119u8);
    key.push(97u8);
    key.push(114u8);
    key.push(100u8);
    key.push(115u8);
    key.push(95u8);
    append_bytes(&mut key, user);
    assert(key@ =~= reward_key_of(user@));
    key
}

/// Compares a digest with a hash lock, reading every byte whatever the outcome.
pub fn digests_match(digest: &[u8], hash_lock: &[u8]) -> (r: bool)
    ensures
        r == (digest@ == hash_lock@),
{
    if digest.len() != hash_lock.len() {
        return false;
    }
    let mut diff: u8 = 0;
    let mut i: usize = 0;
    assert(digest@.subrange(0, 0) =~= hash_lock@.subrange(0, 0));
    while i < digest.len()
        invariant
            digest@.len() == hash_lock@.len(),
            i <= digest@.len(),
            (diff == 0) == (digest@.subrange(0, i as int) == hash_lock@.subrange(0, i as int)),
        decreases digest@.len() - i,
    {
        let a = digest[i];
        let b = hash_lock[i];
        let d = diff;
        let nd = d | (a ^ b);
        assert(nd == 0 <==> (d == 0 && a == b)) by (bit_vector)
            requires
                nd == d | (a ^ b),
        ;
        assert(digest@.subrange(0, i + 1) == digest@.subrange(0, i as int).push(a));
        assert(hash_lock@.subrange(0, i + 1) == hash_lock@.subrange(0, i as int).push(b));
        proof {
            if digest@.subrange(0, i + 1) == hash_lock@.subrange(0, i + 1) {
                assert(digest@.subrange(0, i + 1)[i as int] == hash_lock@.subrange(0, i + 1)[i as int]);
                assert(digest@.subrange(0, i as int) =~= digest@.subrange(0, i + 1).drop_last());
                assert(hash_lock@.subrange(0, i as int) =~= hash_lock@.subrange(0, i + 1).drop_last());
            }
        }
        diff = nd;
        i = i + 1;
    }
    assert(digest@.subrange(0, digest@.len() as int) == digest@);
    assert(hash_lock@.subrange(0, hash_lock@.len() as int) == hash_lock@);
    diff == 0
}

/// Whether `preimage` opens `hash_lock`: its SHA-256 digest equals the lock.
pub fn verify_preimage(preimage: &[u8], hash_lock: &[u8]) -> (r: bool)
    ensures
        r == (sha256_of(preimage@) == hash_lock@),
{
    let digest = sha256(preimage);
    digests_match(digest.as_slice(), hash_lock)
}

} // verus!
