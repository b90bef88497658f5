//! The accounts and instructions of the mining program that the pool works with.

use crate::accounts::{
    proof_try_from_bytes, read_bus, read_config, read_proof, Bus, Proof, TreasuryConfig,
    BUS_BYTES, CONFIG_BYTES, HEADER_BYTES, PROOF_BYTES, PROOF_KIND,
};
use crate::epoch::Solution;
use crate::instruction::Instruction;
use crate::onchain::{
    associated_token_program_id, bus_address, config_address, eore_auth, eore_claim, eore_mine,
    eore_program_id, eore_reset, get_associated_token_address, mint_address, proof_pda,
    token_program_id,
};
use crate::pubkey::{find_program_address, try_find_program_address, Pubkey};
use vstd::prelude::*;
use vstd::slice::slice_subrange;

verus! {

use crate::accounts::{is_proof_account, says_bus, says_config, says_proof, unsigned_at};
use crate::onchain::{
    at, auth_instruction, bus_account, claim_instruction, config_account, config_seed, eore_id,
    found_at, mine_instruction, mint_account, proof_account, proof_seed, reset_instruction,
    token_account,
};
use crate::pubkey::{program_address, pubkey_of_text};

/// Number of decimals of the token.
pub const BITZ_TOKEN_DECIMALS: u8 = 11;

/// The seed of the config account of the boost program: `config`.
pub const CONFIG: [u8; 6] = [99, 111, 110, 102, 105, 103];

/// Number of bus accounts.
pub const BUS_COUNT: usize = 8;

/// The program that pays boosts out.
pub open spec fn boost_id() -> Option<Seq<u8>> {
    pubkey_of_text("eBoFjsXMceooxywb8MeCqRCkQ2JEEsd5AUELXbaQfh8"@)
}

/// The config account of the boost program, with its bump seed.
pub open spec fn boost_config() -> Option<(Seq<u8>, u8)> {
    program_address(seq![config_seed()], boost_id()->0)
}

/// Whether the boost program and its config account have addresses.
pub open spec fn boost_config_exists() -> bool {
    boost_id() is Some && boost_config() is Some
}

/// The seed `proof`, followed by an authority, under the mining program.
fn proof_seeds_address(authority: &Pubkey, program: &Pubkey) -> (res: Option<(Pubkey, u8)>)
    requires
        program@ == eore_id(),
    ensures
        res is Some <==> proof_account(authority@) is Some,
        res matches Some((key, bump)) ==> proof_account(authority@) == Some((key@, bump)),
{
    let seed: [u8; 5] = [112, 114, 111, 111, 102];
    let seeds: [&[u8]; 2] = [seed.as_slice(), authority.bytes.as_slice()];
    assert(seeds@.map_values(|s: &[u8]| s@) =~= seq![proof_seed(), authority@]) by {
        assert(seeds@[0]@ =~= proof_seed());
    }
    try_find_program_address(seeds.as_slice(), program)
}

/// The address of the proof account of an authority.
pub fn proof_pubkey(authority: Pubkey) -> (res: Pubkey)
    requires
        proof_account(authority@) is Some,
    ensures
        found_at(proof_account(authority@), res@),
{
    let seed: [u8; 5] = [112, 114, 111, 111, 102];
    let seeds: [&[u8]; 2] = [seed.as_slice(), authority.bytes.as_slice()];
    let program = eore_program_id();
    assert(seeds@.map_values(|s: &[u8]| s@) =~= seq![proof_seed(), authority@]) by {
        assert(seeds@[0]@ =~= proof_seed());
    }
    find_program_address(seeds.as_slice(), &program).0
}

/// The address of the proof account of an authority, if it has one.
pub fn try_proof_pubkey(authority: Pubkey) -> (res: Option<Pubkey>)
    ensures
        res is Some <==> proof_account(authority@) is Some,
        res matches Some(key) ==> found_at(
            proof_account(authority@),
            key@,
        ),
{
    let program = eore_program_id();
    match proof_seeds_address(&authority, &program) {
        Some(_) => Some(proof_pubkey(authority)),
        None => None,
    }
}

/// The address of the account that `get_proof` reads for an authority.
pub fn get_proof_address(address: Pubkey) -> (res: Pubkey)
    requires
        proof_account(address@) is Some,
    ensures
        found_at(proof_account(address@), res@),
{
    proof_pda(&address).0
}

/// The address of the account that `get_proof` reads for an authority, if it has one.
pub fn try_get_proof_address(address: Pubkey) -> (res: Option<Pubkey>)
    ensures
        res is Some <==> proof_account(address@) is Some,
        res matches Some(key) ==> found_at(
            proof_account(address@),
            key@,
        ),
{
    let program = eore_program_id();
    match proof_seeds_address(&address, &program) {
        Some(_) => Some(get_proof_address(address)),
        None => None,
    }
}

/// The account that is read for an authority is the proof account of that authority: the two ways
/// to its address agree.
pub proof fn lemma_one_proof_account(authority: Seq<u8>, read: Seq<u8>, derived: Seq<u8>)
    requires
        found_at(proof_account(authority), read),
        found_at(proof_account(authority), derived),
    ensures
        read == derived,
{
}

/// The proof that the bytes of a proof account say. An error where they are not those of a proof
/// account.
pub fn get_proof(account: &[u8]) -> (res: Result<Proof, ()>)
    requires
        account@.len() > 0,
        account@[0] == PROOF_KIND ==> account@.len() >= HEADER_BYTES,
    ensures
        res is Ok <==> is_proof_account(account@),
        res matches Ok(proof) ==> says_proof(
            account@.skip(HEADER_BYTES as int),
            proof,
        ),
{
    match proof_try_from_bytes(account) {
        Some(proof) => Ok(proof),
        None => Err(()),
    }
}

/// The mint of the token.
pub fn get_bitz_mint() -> (res: Pubkey)
    ensures
        found_at(mint_account(), res@),
{
    mint_address()
}

/// The token account of a wallet for the mint of the token, with its bump seed.
pub open spec fn receiver_account(wallet: Seq<u8>) -> Option<(Seq<u8>, u8)> {
    token_account(wallet, at(mint_account()))
}

/// The address of the token account of a wallet.
pub fn receiver_token_account(wallet: &Pubkey) -> (res: Pubkey)
    requires
        receiver_account(wallet@) is Some,
    ensures
        found_at(receiver_account(wallet@), res@),
{
    let mint = get_bitz_mint();
    get_associated_token_address(wallet, &mint)
}

/// The address of the token account of a wallet, if it has one.
pub fn try_receiver_token_account(wallet: &Pubkey) -> (res: Option<Pubkey>)
    ensures
        res is Some <==> receiver_account(wallet@) is Some,
        res matches Some(key) ==> found_at(receiver_account(wallet@), key@),
{
    let mint = get_bitz_mint();
    let token = token_program_id();
    let program = associated_token_program_id();
    let seeds: [&[u8]; 3] = [
        wallet.bytes.as_slice(),
        token.bytes.as_slice(),
        mint.bytes.as_slice(),
    ];
    assert(seeds@.map_values(|s: &[u8]| s@) =~= seq![wallet@, token@, mint@]);
    match try_find_program_address(seeds.as_slice(), &program) {
        Some(_) => Some(receiver_token_account(wallet)),
        None => None,
    }
}

/// The instruction that claims `claim_amount` for `beneficiary`.
pub fn get_claim_ix(signer: Pubkey, beneficiary: Pubkey, claim_amount: u64) -> (res: Instruction)
    requires
        proof_account(signer@) is Some,
    ensures
        res@ == claim_instruction(signer@, beneficiary@, claim_amount),
{
    eore_claim(&signer, &beneficiary, claim_amount)
}

/// The instruction that claims `claim_amount` for `beneficiary`, if the signer has a proof
/// account.
pub fn try_get_claim_ix(
    signer: Pubkey,
    beneficiary: Pubkey,
    claim_amount: u64,
) -> (res: Option<Instruction>)
    ensures
        res is Some <==> proof_account(signer@) is Some,
        res matches Some(ix) ==> ix@ == claim_instruction(
            signer@,
            beneficiary@,
            claim_amount,
        ),
{
    match try_proof_pubkey(signer) {
        Some(_) => Some(get_claim_ix(signer, beneficiary, claim_amount)),
        None => None,
    }
}

/// The nearest 64-bit signed integer.
pub open spec fn clamped(n: int) -> int {
    if n < i64::MIN {
        i64::MIN as int
    } else if n > i64::MAX {
        i64::MAX as int
    } else {
        n
    }
}

fn clamp(n: i128) -> (res: i64)
    ensures
        res == clamped(n as int),
{
    if n < i64::MIN as i128 {
        i64::MIN
    } else if n > i64::MAX as i128 {
        i64::MAX
    } else {
        n as i64
    }
}

/// How many seconds are left at `now` until the hash after the one at `last_hash_at` is due, less
/// a buffer: each step is held to what 64 bits can say.
pub open spec fn seconds_left(last_hash_at: i64, buffer_time: u64, now: u64) -> int {
    clamped(clamped(clamped(last_hash_at + 60) - (buffer_time as i64)) - (now as i64))
}

/// The seconds left at `now` until the next hash of the proof is due.
pub fn cutoff_at(proof: &Proof, buffer_time: u64, now: u64) -> (res: i64)
    ensures
        res == seconds_left(proof.last_hash_at, buffer_time, now),
{
    let due: i64 = clamp(proof.last_hash_at as i128 + 60);
    let buffered: i64 = clamp(due as i128 - (buffer_time as i64) as i128);
    clamp(buffered as i128 - (now as i64) as i128)
}

/// The seconds left until the next hash of the proof is due, by what the clock reads: none are
/// told exactly where it reads nothing.
pub fn cutoff_by(proof: &Proof, buffer_time: u64, clock: Option<u64>) -> (res: Option<i64>)
    ensures
        match clock {
            Some(now) => res matches Some(left) && left == seconds_left(
                proof.last_hash_at,
                buffer_time,
                now,
            ),
            None => res is None,
        },
{
    match clock {
        Some(now) => Some(cutoff_at(proof, buffer_time, now)),
        None => None,
    }
}

/// Where nothing has to be held to 64 bits, the seconds left are those from now to a minute after
/// the last hash, less the buffer.
pub proof fn lemma_seconds_left(last_hash_at: i64, buffer_time: u64, now: u64)
    requires
        buffer_time <= i64::MAX,
        now <= i64::MAX,
        last_hash_at + 60 <= i64::MAX,
        last_hash_at + 60 - buffer_time - now >= i64::MIN,
    ensures
        seconds_left(last_hash_at, buffer_time, now) == last_hash_at + 60 - buffer_time - now,
{
}

/// What an unsigned integer says when its bits are read as a signed one.
pub open spec fn as_signed(n: u64) -> int {
    if n <= 0x7fff_ffff_ffff_ffff {
        n as int
    } else {
        n - 0x1_0000_0000_0000_0000
    }
}

/// The seconds left, whatever is given: the minute, the buffer and the time are counted one after
/// the other, and each result is the nearest that 64 bits can say.
pub proof fn lemma_seconds_left_in_general(last_hash_at: i64, buffer_time: u64, now: u64)
    ensures
        ({
            let due = if last_hash_at > 0x7fff_ffff_ffff_ffff - 60 {
                0x7fff_ffff_ffff_ffffint
            } else {
                last_hash_at + 60
            };
            let buffered = due - as_signed(buffer_time);
            let held = if buffered > 0x7fff_ffff_ffff_ffff {
                0x7fff_ffff_ffff_ffffint
            } else if buffered < -0x8000_0000_0000_0000 {
                -0x8000_0000_0000_0000int
            } else {
                buffered
            };
            let left = held - as_signed(now);
            let said = seconds_left(last_hash_at, buffer_time, now);
            &&& -0x8000_0000_0000_0000 <= left <= 0x7fff_ffff_ffff_ffff ==> said == left
            &&& left > 0x7fff_ffff_ffff_ffff ==> said == 0x7fff_ffff_ffff_ffff
            &&& left < -0x8000_0000_0000_0000 ==> said == -0x8000_0000_0000_0000
        }),
{
    lemma_as_signed(buffer_time);
    lemma_as_signed(now);
}

proof fn lemma_as_signed(n: u64)
    ensures
        (n as i64) == as_signed(n),
{
    assert(n <= 0x7fff_ffff_ffff_ffff ==> (n as i64) == n) by (bit_vector);
    assert(n > 0x7fff_ffff_ffff_ffff ==> (n as i64) == n - 0x1_0000_0000_0000_0000) by (bit_vector);
}

/// As time goes on, no more seconds are left.
pub proof fn lemma_seconds_run_out(last_hash_at: i64, buffer_time: u64, now: u64, later: u64)
    requires
        now <= later <= i64::MAX,
    ensures
        seconds_left(last_hash_at, buffer_time, later) <= seconds_left(
            last_hash_at,
            buffer_time,
            now,
        ),
{
}

/// Calls `std::time::SystemTime::now` and takes the whole seconds since the start of 1970. Nothing
/// is promised of the time. `None` where the clock reads earlier than that.
#[verifier::external_body]
fn unix_time() -> (res: Option<u64>) {
    std::time::SystemTime::now().duration_since(std::time::UNIX_EPOCH).ok().map(|d| d.as_secs())
}

/// The seconds left until the next hash of the proof is due, by the clock. `None` where the clock
/// reads earlier than 1970.
pub fn get_cutoff(proof: &Proof, buffer_time: u64) -> (res: Option<i64>)
    ensures
        res matches Some(left) ==> exists|now: u64|
            left == #[trigger] seconds_left(proof.last_hash_at, buffer_time, now),
{
    let clock = unix_time();
    cutoff_by(proof, buffer_time, clock)
}

/// The instruction that names the proof account of the signer.
pub fn get_auth_ix(signer: Pubkey) -> (res: Instruction)
    requires
        proof_account(signer@) is Some,
    ensures
        res@ == auth_instruction(
            at(proof_account(signer@)),
        ),
{
    let proof = proof_pubkey(signer);
    eore_auth(&proof)
}

/// The instruction that names the proof account of the signer, if it has one.
pub fn try_get_auth_ix(signer: Pubkey) -> (res: Option<Instruction>)
    ensures
        res is Some <==> proof_account(signer@) is Some,
        res matches Some(ix) ==> ix@ == auth_instruction(
            at(proof_account(signer@)),
        ),
{
    match try_proof_pubkey(signer) {
        Some(_) => Some(get_auth_ix(signer)),
        None => None,
    }
}

/// The instruction that starts a new epoch.
pub fn get_reset_ix(signer: Pubkey) -> (res: Instruction)
    ensures
        res@ == reset_instruction(signer@),
{
    eore_reset(&signer)
}

/// The address of the boost program.
pub fn boost_program_id() -> (res: Pubkey)
    requires
        boost_id() is Some,
    ensures
        boost_id() == Some(res@),
{
    match try_boost_program_id() {
        Some(key) => key,
        None => vstd::pervasive::unreached(),
    }
}

/// The address of the boost program, if its text denotes one.
pub fn try_boost_program_id() -> (res: Option<Pubkey>)
    ensures
        res is Some <==> boost_id() is Some,
        res matches Some(key) ==> boost_id() == Some(key@),
{
    Pubkey::parse("eBoFjsXMceooxywb8MeCqRCkQ2JEEsd5AUELXbaQfh8")
}

/// The config account of the boost program, with its bump seed.
pub fn config_pda() -> (res: (Pubkey, u8))
    requires
        boost_config_exists(),
    ensures
        boost_config() == Some((res.0@, res.1)),
{
    let seed: [u8; 6] = CONFIG;
    let seeds: [&[u8]; 1] = [seed.as_slice()];
    let program = boost_program_id();
    assert(seeds@.map_values(|s: &[u8]| s@) =~= seq![config_seed()]) by {
        assert(seeds@[0]@ =~= config_seed());
    }
    find_program_address(seeds.as_slice(), &program)
}

/// The config account of the boost program, with its bump seed, if it has one.
pub fn try_config_pda() -> (res: Option<(Pubkey, u8)>)
    ensures
        res is Some <==> boost_config_exists(),
        res matches Some((key, bump)) ==> boost_config() == Some((key@, bump)),
{
    let seed: [u8; 6] = CONFIG;
    let seeds: [&[u8]; 1] = [seed.as_slice()];
    assert(seeds@.map_values(|s: &[u8]| s@) =~= seq![config_seed()]) by {
        assert(seeds@[0]@ =~= config_seed());
    }
    match try_boost_program_id() {
        Some(program) => {
            match try_find_program_address(seeds.as_slice(), &program) {
                Some(_) => Some(config_pda()),
                None => None,
            }
        },
        None => None,
    }
}

/// The instruction that hands in a solution by the signer, paid from bus `bus`, with the global
/// boosts.
pub fn get_mine_with_global_boost_ix(
    signer: Pubkey,
    solution: Solution,
    bus: usize,
) -> (res: Instruction)
    requires
        bus < BUS_COUNT,
        boost_config_exists(),
        proof_account(signer@) is Some,
        proof_account(at(boost_config())) is Some,
    ensures
        res@ == mine_instruction(
            signer@,
            signer@,
            at(bus_account(bus as int)),
            solution.d@,
            solution.n@,
            at(boost_config()),
        ),
{
    let address = bus_address(bus);
    let config = config_pda().0;
    eore_mine(&signer, &signer, &address, &solution, &config)
}

/// The instruction that hands in a solution by the signer, if there is a bus `bus` and the
/// accounts that it names have addresses.
pub fn try_get_mine_with_global_boost_ix(
    signer: Pubkey,
    solution: Solution,
    bus: usize,
) -> (res: Option<Instruction>)
    ensures
        res is Some <==> bus < BUS_COUNT && boost_config_exists()
            && proof_account(signer@) is Some && proof_account(
            at(boost_config()),
        ) is Some,
        res matches Some(ix) ==> ix@ == mine_instruction(
            signer@,
            signer@,
            at(bus_account(bus as int)),
            solution.d@,
            solution.n@,
            at(boost_config()),
        ),
{
    if bus >= BUS_COUNT {
        return None;
    }
    match try_config_pda() {
        Some((config, _)) => {
            match (try_proof_pubkey(signer), try_proof_pubkey(config)) {
                (Some(_), Some(_)) => Some(get_mine_with_global_boost_ix(signer, solution, bus)),
                _ => None,
            }
        },
        None => None,
    }
}

/// The addresses of the accounts that `get_proof_and_config_with_busses` reads: the proof account
/// of the authority, the config account and the eight bus accounts, in this order.
pub open spec fn tracked_accounts(authority: Seq<u8>) -> Seq<Seq<u8>> {
    seq![
        at(proof_account(authority)),
        at(config_account()),
    ] + Seq::new(
        BUS_COUNT as nat,
        |i: int| at(bus_account(i)),
    )
}

/// The accounts that `get_proof_and_config_with_busses` reads for an authority.
pub fn get_tracked_accounts(authority: Pubkey) -> (res: Vec<Pubkey>)
    requires
        proof_account(authority@) is Some,
    ensures
        res@.map_values(|key: Pubkey| key@) == tracked_accounts(authority@),
{
    let mut res: Vec<Pubkey> = Vec::new();
    res.push(proof_pubkey(authority));
    res.push(config_address());
    let mut i: usize = 0;
    while i < BUS_COUNT
        invariant
            i <= BUS_COUNT,
            res@.len() == 2 + i,
            forall|j: int|
                0 <= j < res@.len() ==> (#[trigger] res@[j])@ == tracked_accounts(authority@)[j],
        decreases BUS_COUNT - i,
    {
        res.push(bus_address(i));
        i = i + 1;
    }
    assert(res@.map_values(|key: Pubkey| key@) =~= tracked_accounts(authority@));
    res
}

/// The accounts that `get_proof_and_config_with_busses` reads for an authority, if it has a proof
/// account.
pub fn try_get_tracked_accounts(authority: Pubkey) -> (res: Option<Vec<Pubkey>>)
    ensures
        res is Some <==> proof_account(authority@) is Some,
        res matches Some(keys) ==> keys@.map_values(|key: Pubkey| key@) == tracked_accounts(
            authority@,
        ),
{
    match try_proof_pubkey(authority) {
        Some(_) => Some(get_tracked_accounts(authority)),
        None => None,
    }
}

/// Number of bytes of the contents of the tracked account at position `i`.
pub open spec fn tracked_bytes(i: int) -> int {
    if i == 0 {
        PROOF_BYTES as int
    } else if i == 1 {
        CONFIG_BYTES as int
    } else {
        BUS_BYTES as int
    }
}

/// Whether each of the ten tracked accounts that is there has as many bytes as its kind has.
pub open spec fn readable(accounts: Seq<Option<Vec<u8>>>) -> bool {
    &&& accounts.len() >= 2 + BUS_COUNT
    &&& forall|i: int|
        0 <= i < 2 + BUS_COUNT ==> ((#[trigger] accounts[i]) matches Some(account)
            ==> account@.len() == HEADER_BYTES + tracked_bytes(i))
}

/// The contents of an account, without its header.
pub open spec fn contents(account: Vec<u8>) -> Seq<u8> {
    account@.skip(HEADER_BYTES as int)
}

/// Whether `read` is what the proof account says: an error where the account is not there.
pub open spec fn reads_proof(account: Option<Vec<u8>>, read: Result<Proof, ()>) -> bool {
    match account {
        Some(bytes) => read matches Ok(proof) && says_proof(
            contents(bytes),
            proof,
        ),
        None => read is Err,
    }
}

/// Whether `read` is what the config account says: an error where the account is not there.
pub open spec fn reads_config(
    account: Option<Vec<u8>>,
    read: Result<TreasuryConfig, ()>,
) -> bool {
    match account {
        Some(bytes) => read matches Ok(config) && says_config(
            contents(bytes),
            config,
        ),
        None => read is Err,
    }
}

/// Whether `read` is what a bus account says: an error where the account is not there.
pub open spec fn reads_bus(account: Option<Vec<u8>>, read: Result<Bus, ()>) -> bool {
    match account {
        Some(bytes) => read matches Ok(bus) && says_bus(contents(bytes), bus),
        None => read is Err,
    }
}

fn bus_of(account: &Option<Vec<u8>>) -> (res: Result<Bus, ()>)
    requires
        account matches Some(bytes) ==> bytes@.len() == HEADER_BYTES + BUS_BYTES,
    ensures
        reads_bus(*account, res),
{
    match account {
        Some(bytes) => {
            let body = slice_subrange(bytes.as_slice(), HEADER_BYTES, bytes.len());
            assert(body@ =~= contents(*bytes));
            match read_bus(body) {
                Some(bus) => Ok(bus),
                None => Err(()),
            }
        },
        None => Err(()),
    }
}

/// The proof, the config and the busses that the tracked accounts say. Each is an error where its
/// account is not there, and all three are where the accounts could not be fetched. The first
/// byte of an account is not looked at.
pub fn get_proof_and_config_with_busses(accounts: Option<&Vec<Option<Vec<u8>>>>) -> (res: (
    Result<Proof, ()>,
    Result<TreasuryConfig, ()>,
    Result<Vec<Result<Bus, ()>>, ()>,
))
    requires
        accounts matches Some(fetched) ==> readable(fetched@),
    ensures
        accounts is None ==> res.0 is Err && res.1 is Err && res.2 is Err,
        accounts matches Some(fetched) ==> {
            &&& res.0 is Ok <==> fetched@[0] is Some
            &&& res.1 is Ok <==> fetched@[1] is Some
            &&& res.2 matches Ok(busses) && busses@.len() == 8 && forall|i: int|
                0 <= i < 8 ==> ((#[trigger] busses@[i]) is Ok <==> fetched@[2 + i] is Some)
        },
        accounts matches Some(fetched) ==> {
            &&& reads_proof(fetched@[0], res.0)
            &&& reads_config(fetched@[1], res.1)
            &&& res.2 matches Ok(busses) && busses@.len() == BUS_COUNT && forall|i: int|
                0 <= i < BUS_COUNT ==> reads_bus(fetched@[2 + i], #[trigger] busses@[i])
        },
{
    match accounts {
        Some(fetched) => {
            assert(fetched@[0] matches Some(a) ==> a@.len() == HEADER_BYTES + PROOF_BYTES);
            assert(fetched@[1] matches Some(a) ==> a@.len() == HEADER_BYTES + CONFIG_BYTES);
            let proof: Result<Proof, ()> = match &fetched[0] {
                Some(bytes) => {
                    let body = slice_subrange(bytes.as_slice(), HEADER_BYTES, bytes.len());
                    assert(body@ =~= contents(*bytes));
                    match read_proof(body) {
                        Some(proof) => Ok(proof),
                        None => Err(()),
                    }
                },
                None => Err(()),
            };
            let config: Result<TreasuryConfig, ()> = match &fetched[1] {
                Some(bytes) => {
                    let body = slice_subrange(bytes.as_slice(), HEADER_BYTES, bytes.len());
                    assert(body@ =~= contents(*bytes));
                    match read_config(body) {
                        Some(config) => Ok(config),
                        None => Err(()),
                    }
                },
                None => Err(()),
            };
            let mut busses: Vec<Result<Bus, ()>> = Vec::new();
            let mut i: usize = 0;
            while i < BUS_COUNT
                invariant
                    i <= BUS_COUNT,
                    readable(fetched@),
                    busses@.len() == i,
                    forall|j: int| 0 <= j < i ==> reads_bus(fetched@[2 + j], #[trigger] busses@[j]),
                decreases BUS_COUNT - i,
            {
                assert(fetched@[2 + i] matches Some(a) ==> a@.len() == HEADER_BYTES + BUS_BYTES);
                busses.push(bus_of(&fetched[2 + i]));
                i = i + 1;
            }
            (proof, config, Ok(busses))
        },
        None => (Err(()), Err(()), Err(())),
    }
}

/// The event that the mining program logged for a hash while boosts were paid separately.
#[derive(Clone, Copy, Debug, PartialEq, Eq, Structural)]
pub struct MineEventWithBoosts {
    pub balance: u64,
    pub difficulty: u64,
    pub last_hash_at: i64,
    pub timing: i64,
    pub reward: u64,
    pub boost_1: u64,
    pub boost_2: u64,
    pub boost_3: u64,
}

/// The event that the mining program logs for a hash with global boosts.
#[derive(Clone, Copy, Debug, PartialEq, Eq, Structural)]
pub struct MineEventWithGlobalBoosts {
    pub balance: u64,
    pub difficulty: u64,
    pub last_hash_at: i64,
    pub timing: i64,
    pub net_reward: u64,
    pub net_base_reward: u64,
    pub net_miner_boost_reward: u64,
    pub net_staker_boost_reward: u64,
}

/// Number of bytes of a logged event.
pub const EVENT_BYTES: usize = 64;

impl MineEventWithGlobalBoosts {
    /// The fields in order, as unsigned integers.
    pub open spec fn words(self) -> Seq<u64> {
        seq![
            self.balance,
            self.difficulty,
            self.last_hash_at as u64,
            self.timing as u64,
            self.net_reward,
            self.net_base_reward,
            self.net_miner_boost_reward,
            self.net_staker_boost_reward,
        ]
    }

    /// Whether the bytes are the fields in order, each in eight bytes, lowest byte first.
    pub open spec fn said_by(self, bytes: Seq<u8>) -> bool {
        &&& bytes.len() == EVENT_BYTES
        &&& forall|i: int|
            0 <= i < 8 ==> #[trigger] self.words()[i] == unsigned_at(
                bytes,
                8 * i,
            )
    }

    /// The bytes of the event as they are logged.
    pub fn to_bytes(&self) -> (res: Vec<u8>)
        ensures
            self.said_by(res@),
    {
        let words: [u64; 8] = [
            self.balance,
            self.difficulty,
            self.last_hash_at as u64,
            self.timing as u64,
            self.net_reward,
            self.net_base_reward,
            self.net_miner_boost_reward,
            self.net_staker_boost_reward,
        ];
        assert(words@ =~= self.words());
        let mut res: Vec<u8> = Vec::new();
        let mut i: usize = 0;
        while i < 8
            invariant
                i <= 8,
                res@.len() == 8 * i,
                words@ == self.words(),
                forall|j: int|
                    0 <= j < i ==> #[trigger] self.words()[j] == unsigned_at(
                        res@,
                        8 * j,
                    ),
            decreases 8 - i,
        {
            let ghost before = res@;
            let mut word = vstd::bytes::u64_to_le_bytes(words[i]);
            proof {
                vstd::bytes::lemma_auto_spec_u64_to_from_le_bytes();
            }
            let ghost piece = word@;
            res.append(&mut word);
            proof {
                assert forall|j: int| 0 <= j < i + 1 implies #[trigger] self.words()[j]
                    == unsigned_at(res@, 8 * j) by {
                    if j < i {
                        assert(res@.subrange(8 * j, 8 * j + 8) =~= before.subrange(
                            8 * j,
                            8 * j + 8,
                        ));
                    } else {
                        assert(res@.subrange(8 * j, 8 * j + 8) =~= piece);
                    }
                }
            }
            i = i + 1;
        }
        res
    }

    /// The event that logged bytes say.
    pub fn from_bytes(data: &[u8]) -> (res: MineEventWithGlobalBoosts)
        requires
            data@.len() == EVENT_BYTES,
        ensures
            res.said_by(data@),
    {
        let res = MineEventWithGlobalBoosts {
            balance: word_at(data, 0),
            difficulty: word_at(data, 8),
            last_hash_at: word_at(data, 16) as i64,
            timing: word_at(data, 24) as i64,
            net_reward: word_at(data, 32),
            net_base_reward: word_at(data, 40),
            net_miner_boost_reward: word_at(data, 48),
            net_staker_boost_reward: word_at(data, 56),
        };
        proof {
            let a = unsigned_at(data@, 16);
            let b = unsigned_at(data@, 24);
            assert((a as i64) as u64 == a) by (bit_vector);
            assert((b as i64) as u64 == b) by (bit_vector);
        }
        res
    }

    /// Bytes say one event only: an event that is read back from its bytes is the same event.
    pub proof fn lemma_said_once(self, other: Self, bytes: Seq<u8>)
        requires
            self.said_by(bytes),
            other.said_by(bytes),
        ensures
            self == other,
    {
        assert(self.words() =~= other.words());
        assert(self.words()[0] == other.words()[0]);
        assert(self.words()[1] == other.words()[1]);
        assert(self.words()[2] == other.words()[2]);
        assert(self.words()[3] == other.words()[3]);
        assert(self.words()[4] == other.words()[4]);
        assert(self.words()[5] == other.words()[5]);
        assert(self.words()[6] == other.words()[6]);
        assert(self.words()[7] == other.words()[7]);
        let a = self.last_hash_at;
        let b = other.last_hash_at;
        assert(a as u64 == b as u64 ==> a == b) by (bit_vector);
        let a = self.timing;
        let b = other.timing;
        assert(a as u64 == b as u64 ==> a == b) by (bit_vector);
    }

    /// An event is said by one sequence of bytes only: bytes that are read and written again are
    /// the same bytes.
    pub proof fn lemma_said_by_one(self, bytes: Seq<u8>, others: Seq<u8>)
        requires
            self.said_by(bytes),
            self.said_by(others),
        ensures
            bytes == others,
    {
        vstd::bytes::lemma_auto_spec_u64_to_from_le_bytes();
        assert forall|k: int| 0 <= k < EVENT_BYTES implies bytes[k] == others[k] by {
            let i = k / 8;
            let a = bytes.subrange(8 * i, 8 * i + 8);
            let b = others.subrange(8 * i, 8 * i + 8);
            assert(self.words()[i] == unsigned_at(bytes, 8 * i));
            assert(vstd::bytes::spec_u64_to_le_bytes(vstd::bytes::spec_u64_from_le_bytes(a)) == a);
            assert(vstd::bytes::spec_u64_to_le_bytes(vstd::bytes::spec_u64_from_le_bytes(b)) == b);
            assert(bytes[k] == a[k - 8 * i]);
            assert(others[k] == b[k - 8 * i]);
        }
        assert(bytes =~= others);
    }
}

fn word_at(data: &[u8], start: usize) -> (res: u64)
    requires
        data@.len() == EVENT_BYTES,
        start + 8 <= EVENT_BYTES,
    ensures
        res == unsigned_at(data@, start as int),
{
    vstd::bytes::u64_from_le_bytes(slice_subrange(data, start, start + 8))
}

/// The token account of a wallet is the one that the program for such accounts derives from the
/// wallet, the token program and the mint.
pub proof fn lemma_receiver_account(wallet: Seq<u8>)
    ensures
        receiver_account(wallet) == program_address(
            seq![
                wallet,
                pubkey_of_text("TokenkegQfeZyiNwAJbNbGKPFXCWuBvf9Ss623VQ5DA"@)->0,
                at(mint_account()),
            ],
            pubkey_of_text("ATokenGPvbdGVxr1b2hvZbsiqW5xWH25efTNsLJA8knL"@)->0,
        ),
{
}

/// The ten accounts that are read: the proof account of the authority first, the config account
/// second, and the bus accounts in the order of their numbers.
pub proof fn lemma_tracked_accounts(authority: Seq<u8>, bus: int)
    requires
        0 <= bus < 8,
    ensures
        tracked_accounts(authority).len() == 10,
        tracked_accounts(authority)[0] == at(proof_account(authority)),
        tracked_accounts(authority)[1] == at(config_account()),
        tracked_accounts(authority)[2 + bus] == at(bus_account(bus)),
{
}

/// Accounts can be read exactly if there are ten of them and each that is there has the size of its
/// kind, header and contents.
pub proof fn lemma_readable(accounts: Seq<Option<Vec<u8>>>)
    ensures
        readable(accounts) <==> accounts.len() >= 10 && (accounts[0] matches Some(account)
            ==> account@.len() == 176) && (forall|i: int|
            1 <= i < 10 ==> ((#[trigger] accounts[i]) matches Some(account) ==> account@.len()
                == 40)),
{
    if accounts.len() >= 10 {
        if readable(accounts) {
            assert(accounts[0] matches Some(account) ==> account@.len() == 176);
            assert forall|i: int| 1 <= i < 10 implies ((#[trigger] accounts[i]) matches Some(
                account,
            ) ==> account@.len() == 40) by {}
        }
    }
}

/// What is read from an account is what its bytes say behind the header, and nothing is read where
/// there is no account.
pub proof fn lemma_read_from_accounts(
    account: Option<Vec<u8>>,
    proof: Result<Proof, ()>,
    config: Result<TreasuryConfig, ()>,
    bus: Result<Bus, ()>,
)
    ensures
        reads_proof(account, proof) ==> (proof is Ok <==> account is Some),
        reads_config(account, config) ==> (config is Ok <==> account is Some),
        reads_bus(account, bus) ==> (bus is Ok <==> account is Some),
        account matches Some(bytes) ==> {
            let body = bytes@.skip(8);
            &&& reads_proof(account, proof) <==> (proof matches Ok(said) && says_proof(body, said))
            &&& reads_config(account, config) <==> (config matches Ok(said) && says_config(
                body,
                said,
            ))
            &&& reads_bus(account, bus) <==> (bus matches Ok(said) && says_bus(body, said))
        },
{
}

/// Where the fields of an event stand in its bytes.
pub proof fn lemma_event_fields(event: MineEventWithGlobalBoosts, bytes: Seq<u8>)
    requires
        event.said_by(bytes),
    ensures
        bytes.len() == 64,
        event.balance == unsigned_at(bytes, 0),
        event.difficulty == unsigned_at(bytes, 8),
        event.last_hash_at == unsigned_at(bytes, 16) as i64,
        event.timing == unsigned_at(bytes, 24) as i64,
        event.net_reward == unsigned_at(bytes, 32),
        event.net_base_reward == unsigned_at(bytes, 40),
        event.net_miner_boost_reward == unsigned_at(bytes, 48),
        event.net_staker_boost_reward == unsigned_at(bytes, 56),
{
    assert(event.words()[0] == unsigned_at(bytes, 0));
    assert(event.words()[1] == unsigned_at(bytes, 8));
    assert(event.words()[2] == unsigned_at(bytes, 16));
    assert(event.words()[3] == unsigned_at(bytes, 24));
    assert(event.words()[4] == unsigned_at(bytes, 32));
    assert(event.words()[5] == unsigned_at(bytes, 40));
    assert(event.words()[6] == unsigned_at(bytes, 48));
    assert(event.words()[7] == unsigned_at(bytes, 56));
    let a = event.last_hash_at;
    assert((a as u64) as i64 == a) by (bit_vector);
    let b = event.timing;
    assert((b as u64) as i64 == b) by (bit_vector);
}

/// The config account of the boost program is derived from the seed `config` alone, under the
/// program that its text denotes.
pub proof fn lemma_boost_config()
    ensures
        boost_config() == program_address(
            seq![seq![99u8, 111u8, 110u8, 102u8, 105u8, 103u8]],
            pubkey_of_text("eBoFjsXMceooxywb8MeCqRCkQ2JEEsd5AUELXbaQfh8"@)->0,
        ),
        boost_config_exists() <==> pubkey_of_text(
            "eBoFjsXMceooxywb8MeCqRCkQ2JEEsd5AUELXbaQfh8"@,
        ) is Some && boost_config() is Some,
{
}

} // verus!
