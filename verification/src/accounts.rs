//! The on-chain accounts of the mining program, read from their bytes.

use crate::pubkey::Pubkey;
use steel::AccountDeserialize;
use vstd::bytes::spec_u64_from_le_bytes;
use vstd::prelude::*;

verus! {

/// Number of bytes that stand before the contents of an account: its kind, and padding.
pub const HEADER_BYTES: usize = 8;

/// Number of bytes of the contents of a proof account.
pub const PROOF_BYTES: usize = 168;

/// Number of bytes of the contents of a config account.
pub const CONFIG_BYTES: usize = 32;

/// Number of bytes of the contents of a bus account.
pub const BUS_BYTES: usize = 32;

/// The kind that the first byte of a proof account says.
pub const PROOF_KIND: u8 = 102;

/// A miner's current challenge, claimable rewards and lifetime totals.
#[derive(Clone, Copy, Debug, PartialEq, Eq)]
pub struct Proof {
    /// The signer that may use this proof.
    pub authority: Pubkey,
    /// The tokens that the miner has earned and not claimed.
    pub balance: u64,
    /// The current challenge.
    pub challenge: [u8; 32],
    /// The last hash that the miner handed in.
    pub last_hash: [u8; 32],
    /// When the last hash was handed in.
    pub last_hash_at: i64,
    /// When the last claim was made.
    pub last_claim_at: i64,
    /// The key that may hand in hashes.
    pub miner: Pubkey,
    /// How many hashes were handed in.
    pub total_hashes: u64,
    /// How much was earned.
    pub total_rewards: u64,
}

/// The global variables of the mining program.
#[derive(Clone, Copy, Debug, PartialEq, Eq, Structural)]
pub struct TreasuryConfig {
    /// What a hash of the lowest difficulty earns.
    pub base_reward_rate: u64,
    /// When the last epoch started.
    pub last_reset_at: i64,
    /// The lowest difficulty that the program accepts.
    pub min_difficulty: u64,
    /// How many tokens a minute are to be paid out.
    pub target_emmissions_rate: u64,
}

/// One of the accounts that rewards are paid out from.
#[derive(Clone, Copy, Debug, PartialEq, Eq, Structural)]
pub struct Bus {
    /// Which bus this is.
    pub id: u64,
    /// What is left to pay out in this epoch.
    pub rewards: u64,
    /// What would have been paid out in this epoch if there were no limit.
    pub theoretical_rewards: u64,
    /// The largest stake seen in this epoch.
    pub top_balance: u64,
}

/// The unsigned integer that stands at byte `at`, lowest byte first.
pub open spec fn unsigned_at(bytes: Seq<u8>, at: int) -> u64 {
    spec_u64_from_le_bytes(bytes.subrange(at, at + 8))
}

/// The signed integer that stands at byte `at`, lowest byte first.
pub open spec fn signed_at(bytes: Seq<u8>, at: int) -> i64 {
    unsigned_at(bytes, at) as i64
}

/// Whether the bytes are the contents of a proof account that say `proof`.
pub open spec fn says_proof(bytes: Seq<u8>, proof: Proof) -> bool {
    &&& bytes.len() == PROOF_BYTES
    &&& proof.authority@ == bytes.subrange(0, 32)
    &&& proof.balance == unsigned_at(bytes, 32)
    &&& proof.challenge@ == bytes.subrange(40, 72)
    &&& proof.last_hash@ == bytes.subrange(72, 104)
    &&& proof.last_hash_at == signed_at(bytes, 104)
    &&& proof.last_claim_at == signed_at(bytes, 112)
    &&& proof.miner@ == bytes.subrange(120, 152)
    &&& proof.total_hashes == unsigned_at(bytes, 152)
    &&& proof.total_rewards == unsigned_at(bytes, 160)
}

/// Whether the bytes are the contents of a config account that say `config`.
pub open spec fn says_config(bytes: Seq<u8>, config: TreasuryConfig) -> bool {
    &&& bytes.len() == CONFIG_BYTES
    &&& config.base_reward_rate == unsigned_at(bytes, 0)
    &&& config.last_reset_at == signed_at(bytes, 8)
    &&& config.min_difficulty == unsigned_at(bytes, 16)
    &&& config.target_emmissions_rate == unsigned_at(bytes, 24)
}

/// Whether the bytes are the contents of a bus account that say `bus`.
pub open spec fn says_bus(bytes: Seq<u8>, bus: Bus) -> bool {
    &&& bytes.len() == BUS_BYTES
    &&& bus.id == unsigned_at(bytes, 0)
    &&& bus.rewards == unsigned_at(bytes, 8)
    &&& bus.theoretical_rewards == unsigned_at(bytes, 16)
    &&& bus.top_balance == unsigned_at(bytes, 24)
}

/// Whether the bytes of an account, header and contents, are those of a proof account.
pub open spec fn is_proof_account(account: Seq<u8>) -> bool {
    account.len() == HEADER_BYTES + PROOF_BYTES && account[0] == PROOF_KIND
}

/// Calls `bytemuck::try_from_bytes` for `eore_api::state::Proof`, on a copy of the bytes that is
/// aligned for it. The cast succeeds where the number of bytes is right, and each field is then
/// the bytes at its place in the struct; integers are taken lowest byte first.
#[verifier::external_body]
pub(crate) fn read_proof(bytes: &[u8]) -> (res: Option<Proof>)
    ensures
        res is Some <==> bytes@.len() == PROOF_BYTES,
        res matches Some(proof) ==> says_proof(bytes@, proof),
{
    let words: Vec<u64> = bytemuck::pod_collect_to_vec(bytes);
    let aligned: &[u8] = &bytemuck::cast_slice(&words)[..bytes.len()];
    bytemuck::try_from_bytes::<eore_api::state::Proof>(aligned).ok().map(|p| Proof {
        authority: Pubkey { bytes: p.authority.to_bytes() },
        balance: u64::from_le(p.balance),
        challenge: p.challenge,
        last_hash: p.last_hash,
        last_hash_at: i64::from_le(p.last_hash_at),
        last_claim_at: i64::from_le(p.last_claim_at),
        miner: Pubkey { bytes: p.miner.to_bytes() },
        total_hashes: u64::from_le(p.total_hashes),
        total_rewards: u64::from_le(p.total_rewards),
    })
}

/// Calls `bytemuck::try_from_bytes` for `eore_api::state::Config`, on a copy of the bytes that is
/// aligned for it. The cast succeeds where the number of bytes is right, and each field is then
/// the bytes at its place in the struct, taken lowest byte first.
#[verifier::external_body]
pub(crate) fn read_config(bytes: &[u8]) -> (res: Option<TreasuryConfig>)
    ensures
        res is Some <==> bytes@.len() == CONFIG_BYTES,
        res matches Some(config) ==> says_config(bytes@, config),
{
    let words: Vec<u64> = bytemuck::pod_collect_to_vec(bytes);
    let aligned: &[u8] = &bytemuck::cast_slice(&words)[..bytes.len()];
    bytemuck::try_from_bytes::<eore_api::state::Config>(aligned).ok().map(|c| TreasuryConfig {
        base_reward_rate: u64::from_le(c.base_reward_rate),
        last_reset_at: i64::from_le(c.last_reset_at),
        min_difficulty: u64::from_le(c.min_difficulty),
        target_emmissions_rate: u64::from_le(c.target_emmissions_rate),
    })
}

/// Calls `bytemuck::try_from_bytes` for `eore_api::state::Bus`, on a copy of the bytes that is
/// aligned for it. The cast succeeds where the number of bytes is right, and each field is then
/// the bytes at its place in the struct, taken lowest byte first.
#[verifier::external_body]
#[allow(deprecated)]
pub(crate) fn read_bus(bytes: &[u8]) -> (res: Option<Bus>)
    ensures
        res is Some <==> bytes@.len() == BUS_BYTES,
        res matches Some(bus) ==> says_bus(bytes@, bus),
{
    let words: Vec<u64> = bytemuck::pod_collect_to_vec(bytes);
    let aligned: &[u8] = &bytemuck::cast_slice(&words)[..bytes.len()];
    bytemuck::try_from_bytes::<eore_api::state::Bus>(aligned).ok().map(|b| Bus {
        id: u64::from_le(b.id),
        rewards: u64::from_le(b.rewards),
        theoretical_rewards: u64::from_le(b.theoretical_rewards),
        top_balance: u64::from_le(b.top_balance),
    })
}

/// Calls `steel::AccountDeserialize::try_from_bytes` for `eore_api::state::Proof`, on a copy of
/// the account that is aligned for it. It succeeds where the first byte says a proof account and
/// what follows the header has the right number of bytes; the rest of the header is not looked at.
/// It panics on an account of no bytes, and on one that says a proof account and is shorter than
/// its header.
#[verifier::external_body]
pub(crate) fn proof_try_from_bytes(account: &[u8]) -> (res: Option<Proof>)
    requires
        account@.len() > 0,
        account@[0] == PROOF_KIND ==> account@.len() >= HEADER_BYTES,
    ensures
        (res is Some) == is_proof_account(account@),
        res matches Some(proof) ==> says_proof(account@.skip(HEADER_BYTES as int), proof),
{
    let words: Vec<u64> = bytemuck::pod_collect_to_vec(account);
    let aligned: &[u8] = &bytemuck::cast_slice(&words)[..account.len()];
    eore_api::state::Proof::try_from_bytes(aligned).ok().map(|p| Proof {
        authority: Pubkey { bytes: p.authority.to_bytes() },
        balance: u64::from_le(p.balance),
        challenge: p.challenge,
        last_hash: p.last_hash,
        last_hash_at: i64::from_le(p.last_hash_at),
        last_claim_at: i64::from_le(p.last_claim_at),
        miner: Pubkey { bytes: p.miner.to_bytes() },
        total_hashes: u64::from_le(p.total_hashes),
        total_rewards: u64::from_le(p.total_rewards),
    })
}

/// Where the fields of a proof stand in the bytes of its account, counted from the first byte of
/// the account.
pub proof fn lemma_proof_in_account(account: Seq<u8>, proof: Proof)
    requires
        account.len() == 176,
        says_proof(account.skip(HEADER_BYTES as int), proof),
    ensures
        proof.authority@ == account.subrange(8, 40),
        proof.balance == spec_u64_from_le_bytes(account.subrange(40, 48)),
        proof.challenge@ == account.subrange(48, 80),
        proof.last_hash@ == account.subrange(80, 112),
        proof.last_hash_at == spec_u64_from_le_bytes(account.subrange(112, 120)) as i64,
        proof.last_claim_at == spec_u64_from_le_bytes(account.subrange(120, 128)) as i64,
        proof.miner@ == account.subrange(128, 160),
        proof.total_hashes == spec_u64_from_le_bytes(account.subrange(160, 168)),
        proof.total_rewards == spec_u64_from_le_bytes(account.subrange(168, 176)),
{
    let contents = account.skip(HEADER_BYTES as int);
    assert(contents.subrange(0, 32) =~= account.subrange(8, 40));
    assert(contents.subrange(32, 40) =~= account.subrange(40, 48));
    assert(contents.subrange(40, 72) =~= account.subrange(48, 80));
    assert(contents.subrange(72, 104) =~= account.subrange(80, 112));
    assert(contents.subrange(104, 112) =~= account.subrange(112, 120));
    assert(contents.subrange(112, 120) =~= account.subrange(120, 128));
    assert(contents.subrange(120, 152) =~= account.subrange(128, 160));
    assert(contents.subrange(152, 160) =~= account.subrange(160, 168));
    assert(contents.subrange(160, 168) =~= account.subrange(168, 176));
}

/// Where the fields of a config stand in the bytes of its account.
pub proof fn lemma_config_in_account(account: Seq<u8>, config: TreasuryConfig)
    requires
        account.len() == 40,
        says_config(account.skip(HEADER_BYTES as int), config),
    ensures
        config.base_reward_rate == spec_u64_from_le_bytes(account.subrange(8, 16)),
        config.last_reset_at == spec_u64_from_le_bytes(account.subrange(16, 24)) as i64,
        config.min_difficulty == spec_u64_from_le_bytes(account.subrange(24, 32)),
        config.target_emmissions_rate == spec_u64_from_le_bytes(account.subrange(32, 40)),
{
    let contents = account.skip(HEADER_BYTES as int);
    assert(contents.subrange(0, 8) =~= account.subrange(8, 16));
    assert(contents.subrange(8, 16) =~= account.subrange(16, 24));
    assert(contents.subrange(16, 24) =~= account.subrange(24, 32));
    assert(contents.subrange(24, 32) =~= account.subrange(32, 40));
}

/// Where the fields of a bus stand in the bytes of its account.
pub proof fn lemma_bus_in_account(account: Seq<u8>, bus: Bus)
    requires
        account.len() == 40,
        says_bus(account.skip(HEADER_BYTES as int), bus),
    ensures
        bus.id == spec_u64_from_le_bytes(account.subrange(8, 16)),
        bus.rewards == spec_u64_from_le_bytes(account.subrange(16, 24)),
        bus.theoretical_rewards == spec_u64_from_le_bytes(account.subrange(24, 32)),
        bus.top_balance == spec_u64_from_le_bytes(account.subrange(32, 40)),
{
    let contents = account.skip(HEADER_BYTES as int);
    assert(contents.subrange(0, 8) =~= account.subrange(8, 16));
    assert(contents.subrange(8, 16) =~= account.subrange(16, 24));
    assert(contents.subrange(16, 24) =~= account.subrange(24, 32));
    assert(contents.subrange(24, 32) =~= account.subrange(32, 40));
}

/// An account is a proof account exactly if it says so in its first byte and has 176 bytes.
pub proof fn lemma_which_accounts_are_proofs(account: Seq<u8>)
    ensures
        is_proof_account(account) <==> account.len() == 176 && account[0] == 102,
{
}

} // verus!
