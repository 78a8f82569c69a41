use vstd::prelude::*;
use crate::digest::append_bytes;

verus! {

/// Where a contract stands: open, or settled one way or the other.
#[derive(Clone, Copy, Debug, PartialEq, Eq, Structural)]
pub enum Status {
    Open,
    Claimed,
    Refunded,
}

/// What a stored contract holds, as plain values.
pub struct RecordView {
    pub sender: Seq<u8>,
    pub receiver: Seq<u8>,
    pub amount: u64,
    pub hash_lock: Seq<u8>,
    pub timeout_height: u64,
    pub status: Status,
}

/// A hash time-locked contract.
#[derive(Clone, Debug)]
pub struct HtlcRecord {
    /// Who locked the funds, and gets them back on refund.
    pub sender: Vec<u8>,
    /// Who may claim the funds with the preimage.
    pub receiver: Vec<u8>,
    pub amount: u64,
    /// The SHA-256 digest of the secret, 32 bytes.
    pub hash_lock: Vec<u8>,
    /// The first height at which the contract can be refunded and no longer claimed.
    pub timeout_height: u64,
    pub status: Status,
}

impl View for HtlcRecord {
    type V = RecordView;

    open spec fn view(&self) -> RecordView {
        RecordView {
            sender: self.sender@,
            receiver: self.receiver@,
            amount: self.amount,
            hash_lock: self.hash_lock@,
            timeout_height: self.timeout_height,
            status: self.status,
        }
    }
}

/// The length of the fixed part of an encoded record: status, lock, amount,
/// timeout and sender length.
pub const HEADER_LEN: usize = 57;

pub open spec fn status_byte(s: Status) -> u8 {
    match s {
        Status::Open => 0,
        Status::Claimed => 1,
        Status::Refunded => 2,
    }
}

pub open spec fn status_of_byte(b: u8) -> Option<Status> {
    if b == 0 {
        Some(Status::Open)
    } else if b == 1 {
        Some(Status::Claimed)
    } else if b == 2 {
        Some(Status::Refunded)
    } else {
        None
    }
}

/// Eight bytes, most significant first.
pub open spec fn u64_be(x: u64) -> Seq<u8> {
    seq![
        (x >> 56u64) as u8,
        (x >> 48u64) as u8,
        (x >> 40u64) as u8,
        (x >> 32u64) as u8,
        (x >> 24u64) as u8,
        (x >> 16u64) as u8,
        (x >> 8u64) as u8,
        x as u8,
    ]
}

/// The number whose eight bytes, most significant first, are `s`.
pub open spec fn be_u64(s: Seq<u8>) -> u64 {
    (s[0] as u64) << 56u64 | (s[1] as u64) << 48u64 | (s[2] as u64) << 40u64 | (s[3] as u64)
        << 32u64 | (s[4] as u64) << 24u64 | (s[5] as u64) << 16u64 | (s[6] as u64) << 8u64 | (
    s[7] as u64)
}

/// The bytes stored for a contract: status, lock, amount, timeout, the sender's
/// length, the sender, then the receiver up to the end.
pub open spec fn encode_record(r: RecordView) -> Seq<u8> {
    seq![status_byte(r.status)] + r.hash_lock + u64_be(r.amount) + u64_be(r.timeout_height)
        + u64_be(r.sender.len() as u64) + r.sender + r.receiver
}

/// The contract that `b` encodes, if it is well formed.
pub open spec fn decode_record(b: Seq<u8>) -> Option<RecordView> {
    if b.len() < HEADER_LEN {
        None
    } else {
        let sender_len = be_u64(b.subrange(49, 57));
        if status_of_byte(b[0]).is_none() || sender_len > b.len() - HEADER_LEN {
            None
        } else {
            let sender_end = HEADER_LEN + sender_len;
            Some(
                RecordView {
                    status: status_of_byte(b[0]).unwrap(),
                    hash_lock: b.subrange(1, 33),
                    amount: be_u64(b.subrange(33, 41)),
                    timeout_height: be_u64(b.subrange(41, 49)),
                    sender: b.subrange(HEADER_LEN as int, sender_end),
                    receiver: b.subrange(sender_end, b.len() as int),
                },
            )
        }
    }
}

pub proof fn lemma_be_round_trip(x: u64)
    ensures
        be_u64(u64_be(x)) == x,
{
    assert(((x >> 56u64) as u8 as u64) << 56u64 | ((x >> 48u64) as u8 as u64) << 48u64 | ((x
        >> 40u64) as u8 as u64) << 40u64 | ((x >> 32u64) as u8 as u64) << 32u64 | ((x >> 24u64)
        as u8 as u64) << 24u64 | ((x >> 16u64) as u8 as u64) << 16u64 | ((x >> 8u64) as u8 as u64)
        << 8u64 | (x as u8 as u64) == x) by (bit_vector);
}

/// Decoding the bytes stored for a contract gives the contract back.
pub proof fn lemma_record_round_trip(r: RecordView)
    requires
        r.hash_lock.len() == 32,
        r.sender.len() <= u64::MAX,
    ensures
        decode_record(encode_record(r)) == Some(r),
{
    let b = encode_record(r);
    let sl = r.sender.len() as int;
    lemma_be_round_trip(r.amount);
    lemma_be_round_trip(r.timeout_height);
    lemma_be_round_trip(sl as u64);
    assert(b.subrange(1, 33) =~= r.hash_lock);
    assert(b.subrange(33, 41) =~= u64_be(r.amount));
    assert(b.subrange(41, 49) =~= u64_be(r.timeout_height));
    assert(b.subrange(49, 57) =~= u64_be(sl as u64));
    assert(b.subrange(57, 57 + sl) =~= r.sender);
    assert(b.subrange(57 + sl, b.len() as int) =~= r.receiver);
    assert(status_of_byte(status_byte(r.status)) == Some(r.status));
}

fn push_u64_be(v: &mut Vec<u8>, x: u64)
    ensures
        final(v)@ == old(v)@ + u64_be(x),
{
    v.push((x >> 56u64) as u8);
    v.push((x >> 48u64) as u8);
    v.push((x >> 40u64) as u8);
    v.push((x >> 32u64) as u8);
    v.push((x >> 24u64) as u8);
    v.push((x >> 16u64) as u8);
    v.push((x >> 8u64) as u8);
    v.push(x as u8);
    assert(v@ =~= old(v)@ + u64_be(x));
}

fn read_u64_be(b: &[u8], at: usize) -> (r: u64)
    requires
        at + 8 <= b@.len(),
    ensures
        r == be_u64(b@.subrange(at as int, at + 8)),
{
    (b[at] as u64) << 56u64 | (b[at + 1] as u64) << 48u64 | (b[at + 2] as u64) << 40u64 | (b[at
        + 3] as u64) << 32u64 | (b[at + 4] as u64) << 24u64 | (b[at + 5] as u64) << 16u64 | (b[at
        + 6] as u64) << 8u64 | (b[at + 7] as u64)
}

fn copy_range(b: &[u8], start: usize, end: usize) -> (r: Vec<u8>)
    requires
        start <= end <= b@.len(),
    ensures
        r@ == b@.subrange(start as int, end as int),
{
    let mut out: Vec<u8> = Vec::new();
    let mut i: usize = start;
    while i < end
        invariant
            start <= i <= end <= b@.len(),
            out@ == b@.subrange(start as int, i as int),
        decreases end - i,
    {
        out.push(b[i]);
        assert(b@.subrange(start as int, i + 1) == b@.subrange(start as int, i as int).push(
            b@[i as int],
        ));
        i = i + 1;
    }
    out
}

impl HtlcRecord {
    /// The bytes under which this contract is stored.
    pub fn encode(&self) -> (r: Vec<u8>)
        ensures
            r@ == encode_record(self@),
    {
        let mut out: Vec<u8> = Vec::new();
        let tag: u8 = match self.status {
            Status::Open => 0,
            Status::Claimed => 1,
            Status::Refunded => 2,
        };
        out.push(tag);
        append_bytes(&mut out, self.hash_lock.as_slice());
        push_u64_be(&mut out, self.amount);
        push_u64_be(&mut out, self.timeout_height);
        push_u64_be(&mut out, self.sender.len() as u64);
        append_bytes(&mut out, self.sender.as_slice());
        append_bytes(&mut out, self.receiver.as_slice());
        assert(out@ =~= encode_record(self@));
        out
    }

    /// Reads a contract back from its stored bytes; `None` where they are malformed.
    pub fn decode(b: &[u8]) -> (r: Option<HtlcRecord>)
        ensures
            match r {
                Some(rec) => decode_record(b@) == Some(rec@),
                None => decode_record(b@).is_none(),
            },
    {
        if b.len() < HEADER_LEN {
            return None;
        }
        let status = if b[0] == 0 {
            Status::Open
        } else if b[0] == 1 {
            Status::Claimed
        } else if b[0] == 2 {
            Status::Refunded
        } else {
            return None;
        };
        let sender_len = read_u64_be(b, 49);
        if sender_len > (b.len() - HEADER_LEN) as u64 {
            return None;
        }
        let sender_end = HEADER_LEN + sender_len as usize;
        let rec = HtlcRecord {
            status,
            hash_lock: copy_range(b, 1, 33),
            amount: read_u64_be(b, 33),
            timeout_height: read_u64_be(b, 41),
            sender: copy_range(b, HEADER_LEN, sender_end),
            receiver: copy_range(b, sender_end, b.len()),
        };
        assert(rec@ == decode_record(b@).unwrap());
        Some(rec)
    }
}

} // verus!
