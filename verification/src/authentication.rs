//! Signed requests: how long they are valid and what is signed.

use crate::pubkey::Pubkey;
use vstd::bytes::u64_to_le_bytes;
use vstd::prelude::*;

verus! {

use vstd::bytes::spec_u64_to_le_bytes;

/// For how many seconds a signed message is valid.
pub const MESSAGE_SECONDS: u64 = 30;

/// Whether a message of the time `timestamp` is valid at `now`: it is less than thirty seconds
/// old, and not from the future.
pub open spec fn valid_at(timestamp: u64, now: u64) -> bool {
    timestamp <= now < timestamp + MESSAGE_SECONDS
}

/// Whether a message of the time `timestamp` is valid at `now`.
pub fn is_valid_at(timestamp: u64, now: u64) -> (res: bool)
    ensures
        res == valid_at(timestamp, now),
{
    timestamp <= now && now - timestamp < MESSAGE_SECONDS
}

/// What a client signs to log in: the time.
pub open spec fn login_message(timestamp: u64) -> Seq<u8> {
    spec_u64_to_le_bytes(timestamp)
}

/// What a client signs to claim: the time, the receiver and the amount.
pub open spec fn claim_message(timestamp: u64, receiver: Seq<u8>, amount: u64) -> Seq<u8> {
    spec_u64_to_le_bytes(timestamp) + receiver + spec_u64_to_le_bytes(amount)
}

/// The bytes that a client signs to log in.
pub fn login_bytes(timestamp: u64) -> (res: Vec<u8>)
    ensures
        res@ == login_message(timestamp),
{
    u64_to_le_bytes(timestamp)
}

/// The bytes that a client signs to claim.
pub fn claim_bytes(timestamp: u64, receiver: &Pubkey, amount: u64) -> (res: Vec<u8>)
    ensures
        res@ == claim_message(timestamp, receiver@, amount),
{
    let mut res = u64_to_le_bytes(timestamp);
    res.extend_from_slice(receiver.bytes.as_slice());
    let mut last = u64_to_le_bytes(amount);
    res.append(&mut last);
    assert(res@ =~= claim_message(timestamp, receiver@, amount));
    res
}

/// A signed claim says one time, one receiver and one amount only.
pub proof fn lemma_claim_message_says_one_claim(
    timestamp: u64,
    receiver: Seq<u8>,
    amount: u64,
    other_timestamp: u64,
    other_receiver: Seq<u8>,
    other_amount: u64,
)
    requires
        receiver.len() == other_receiver.len(),
        claim_message(timestamp, receiver, amount) == claim_message(
            other_timestamp,
            other_receiver,
            other_amount,
        ),
    ensures
        timestamp == other_timestamp,
        receiver == other_receiver,
        amount == other_amount,
{
    vstd::bytes::lemma_auto_spec_u64_to_from_le_bytes();
    let message = claim_message(timestamp, receiver, amount);
    let n = receiver.len() as int;
    assert(message.subrange(0, 8) =~= spec_u64_to_le_bytes(timestamp));
    assert(message.subrange(0, 8) =~= spec_u64_to_le_bytes(other_timestamp));
    assert(message.subrange(8, 8 + n) =~= receiver);
    assert(message.subrange(8, 8 + n) =~= other_receiver);
    assert(message.subrange(8 + n, 16 + n) =~= spec_u64_to_le_bytes(amount));
    assert(message.subrange(8 + n, 16 + n) =~= spec_u64_to_le_bytes(other_amount));
}

/// What is signed to log in is never what is signed to claim.
pub proof fn lemma_login_is_no_claim(
    login_time: u64,
    timestamp: u64,
    receiver: Seq<u8>,
    amount: u64,
)
    ensures
        login_message(login_time) != claim_message(timestamp, receiver, amount),
{
    vstd::bytes::lemma_auto_spec_u64_to_from_le_bytes();
    assert(login_message(login_time).len() == 8);
    assert(claim_message(timestamp, receiver, amount).len() == 16 + receiver.len());
}

/// A message is valid at a time exactly if it was made no more than 29 seconds before that time,
/// and not after it.
pub proof fn lemma_valid_for_thirty_seconds(timestamp: u64, now: u64)
    ensures
        valid_at(timestamp, now) <==> 0 <= now - timestamp <= 29,
{
}

/// The time reads back from what is signed to log in.
pub proof fn lemma_login_reads_back(timestamp: u64)
    ensures
        login_message(timestamp).len() == 8,
        vstd::bytes::spec_u64_from_le_bytes(login_message(timestamp)) == timestamp,
{
    vstd::bytes::lemma_auto_spec_u64_to_from_le_bytes();
}

/// The time, the receiver and the amount read back from what is signed to claim: the time from the
/// first eight bytes, the amount from the last eight, and the receiver is what stands between.
pub proof fn lemma_claim_reads_back(timestamp: u64, receiver: Seq<u8>, amount: u64)
    ensures
        ({
            let message = claim_message(timestamp, receiver, amount);
            let n = message.len() as int;
            &&& n == 16 + receiver.len()
            &&& vstd::bytes::spec_u64_from_le_bytes(message.subrange(0, 8)) == timestamp
            &&& message.subrange(8, n - 8) == receiver
            &&& vstd::bytes::spec_u64_from_le_bytes(message.subrange(n - 8, n)) == amount
        }),
{
    vstd::bytes::lemma_auto_spec_u64_to_from_le_bytes();
    let message = claim_message(timestamp, receiver, amount);
    let n = message.len() as int;
    assert(message.subrange(0, 8) =~= spec_u64_to_le_bytes(timestamp));
    assert(message.subrange(8, n - 8) =~= receiver);
    assert(message.subrange(n - 8, n) =~= spec_u64_to_le_bytes(amount));
}

} // verus!
