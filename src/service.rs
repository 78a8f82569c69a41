use vstd::prelude::*;
use vstd::slice::slice_to_vec;
use vstd::string::StringSliceAdditionalSpecFns;
use crate::digest::{append_bytes, reward_key, reward_key_of};
use crate::error::{Event, EventKind, HtlcError};
use crate::htlc::{event_matches, StoreMap};
use crate::storage::Storage;

verus! {

/// The key under which the last raw invocation is kept: `last_invocation`.
pub open spec fn last_invocation_key() -> Seq<u8> {
    seq![108u8, 97u8, 115u8, 116u8, 95u8, 105u8, 110u8, 118u8, 111u8, 99u8, 97u8, 116u8, 105u8, 111u8, 110u8]
}

/// The largest value length that a result code can report.
pub const MAX_REPORTED_LEN: usize = 2147483647;

/// The result of claiming the reward of `user`, and the store afterwards.
pub open spec fn reward_spec(m: StoreMap, user: Seq<u8>) -> (Result<(), HtlcError>, StoreMap) {
    let key = reward_key_of(user);
    if m.contains_key(key) {
        (Ok(()), m.remove(key))
    } else {
        (Err(HtlcError::NoRewardAvailable), m)
    }
}

/// The code that reading `key` reports: the value's length, or a negative code
/// where the key is absent or the length does not fit.
pub open spec fn get_value_spec(m: StoreMap, key: Seq<u8>) -> int {
    if !m.contains_key(key) {
        -1
    } else if m[key].len() <= MAX_REPORTED_LEN {
        m[key].len() as int
    } else {
        HtlcError::InvalidInput.spec_code()
    }
}

/// The result of writing `value` at `key`, and the store afterwards.
pub open spec fn set_value_spec(m: StoreMap, key: Seq<u8>, value: Seq<u8>) -> (int, StoreMap) {
    if value.len() > MAX_REPORTED_LEN {
        (HtlcError::InvalidInput.spec_code(), m)
    } else {
        (0, m.insert(key, value))
    }
}

/// The line that reports an event of `event_type` with `data`: `[EVENT] <type>: <data>`.
pub open spec fn event_line(event_type: Seq<u8>, data: Seq<u8>) -> Seq<u8> {
    seq![91u8, 69u8, 86u8, 69u8, 78u8, 84u8, 93u8, 32u8] + event_type + seq![58u8, 32u8] + data
}

/// Formats the line that the host emits for an event of `event_type` with `data`.
pub fn log_event(event_type: &str, data: &str) -> (r: Vec<u8>)
    ensures
        r@ == event_line(event_type.spec_bytes(), data.spec_bytes()),
{
    let mut line: Vec<u8> = vec![91u8, 69u8, 86u8, 69u8, 78u8, 84u8, 93u8, 32u8];
    append_bytes(&mut line, event_type.as_bytes());
    line.push(58u8);
    line.push(32u8);
    append_bytes(&mut line, data.as_bytes());
    assert(line@ =~= event_line(event_type.spec_bytes(), data.spec_bytes()));
    line
}

/// The code that reports an outcome: zero for success, the error's code otherwise.
pub fn result_code<T>(r: &Result<T, HtlcError>) -> (c: i32)
    ensures
        c == match r {
            Ok(_) => 0,
            Err(e) => e.spec_code(),
        },
{
    match r {
        Ok(_) => 0,
        Err(e) => e.code(),
    }
}

/// Records a raw invocation's data under `last_invocation`.
pub fn invoke_service(store: &mut Storage, data: &[u8]) -> (r: i32)
    requires
        old(store).wf(),
    ensures
        final(store).wf(),
        r == 0,
        final(store)@ == old(store)@.insert(last_invocation_key(), data@),
{
    let key: Vec<u8> = vec![108u8, 97u8, 115u8, 116u8, 95u8, 105u8, 110u8, 118u8, 111u8, 99u8, 97u8, 116u8, 105u8, 111u8, 110u8];
    assert(key@ =~= last_invocation_key());
    store.set(key, slice_to_vec(data));
    0
}

/// Claims the reward of `user`, which removes the user's eligibility.
pub fn claim_reward(store: &mut Storage, user: &str) -> (r: Result<Event, HtlcError>)
    requires
        old(store).wf(),
    ensures
        final(store).wf(),
        final(store)@ == reward_spec(old(store)@, user.spec_bytes()).1,
        event_matches(
            r,
            reward_spec(old(store)@, user.spec_bytes()).0,
            EventKind::RewardClaimed,
            user.spec_bytes(),
        ),
{
    let name = user.as_bytes();
    let key = reward_key(name);
    if store.delete(key.as_slice()) {
        Ok(Event { kind: EventKind::RewardClaimed, subject: slice_to_vec(name) })
    } else {
        Err(HtlcError::NoRewardAvailable)
    }
}

/// Reports the length of the value stored at `key`, or -1 where there is none.
pub fn get_value(store: &Storage, key: &[u8]) -> (r: i32)
    requires
        store.wf(),
    ensures
        r == get_value_spec(store@, key@),
{
    match store.get(key) {
        None => -1,
        Some(value) => {
            if value.len() <= MAX_REPORTED_LEN {
                value.len() as i32
            } else {
                HtlcError::InvalidInput.code()
            }
        },
    }
}

/// Stores `value` at `key`; refuses a value too long for its length to be reported.
pub fn set_value(store: &mut Storage, key: &[u8], value: &[u8]) -> (r: i32)
    requires
        old(store).wf(),
    ensures
        final(store).wf(),
        (r as int, final(store)@) == set_value_spec(old(store)@, key@, value@),
{
    if value.len() > MAX_REPORTED_LEN {
        return HtlcError::InvalidInput.code();
    }
    store.set(slice_to_vec(key), slice_to_vec(value));
    0
}

} // verus!
