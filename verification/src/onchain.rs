//! What the pool asks of the on-chain programs: their addresses, the layout of their accounts and
//! the instructions they take.

use crate::epoch::Solution;
use crate::instruction::{AccountMeta, Instruction};
use crate::pubkey::Pubkey;
use vstd::bytes::spec_u64_to_le_bytes;
use vstd::prelude::*;

verus! {

use crate::instruction::{readonly, signing, writable, InstructionView};
use crate::pubkey::{program_address, pubkey_of_text};

/// The address that a text is known to denote.
pub open spec fn known(text: Seq<char>) -> Seq<u8> {
    pubkey_of_text(text)->0
}

/// The address of a program-derived address that was found with its bump seed.
pub open spec fn at(found: Option<(Seq<u8>, u8)>) -> Seq<u8> {
    found.unwrap().0
}

/// Whether a program-derived address was found, at `address`.
pub open spec fn found_at(found: Option<(Seq<u8>, u8)>, address: Seq<u8>) -> bool {
    found matches Some(pair) && pair.0 == address
}

/// The mining program.
pub open spec fn eore_id() -> Seq<u8> {
    known("EorefDWqzJK31vLxaqkDGsx3CRKqPVpWfuJL7qBQMZYd"@)
}

/// The token program.
pub open spec fn token_id() -> Seq<u8> {
    known("TokenkegQfeZyiNwAJbNbGKPFXCWuBvf9Ss623VQ5DA"@)
}

/// The program that makes associated token accounts.
pub open spec fn associated_token_id() -> Seq<u8> {
    known("ATokenGPvbdGVxr1b2hvZbsiqW5xWH25efTNsLJA8knL"@)
}

/// The seed `proof`.
pub open spec fn proof_seed() -> Seq<u8> {
    seq![112, 114, 111, 111, 102]
}

/// The seed `bus`.
pub open spec fn bus_seed() -> Seq<u8> {
    seq![98, 117, 115]
}

/// The seed `config`.
pub open spec fn config_seed() -> Seq<u8> {
    seq![99, 111, 110, 102, 105, 103]
}

/// The seed `mint`.
pub open spec fn mint_seed() -> Seq<u8> {
    seq![109, 105, 110, 116]
}

/// The second seed of the mint.
pub open spec fn mint_noise() -> Seq<u8> {
    seq![89, 157, 88, 232, 243, 249, 197, 132, 199, 49, 19, 234, 91, 94, 150, 41]
}

/// The seed `treasury`.
pub open spec fn treasury_seed() -> Seq<u8> {
    seq![116, 114, 101, 97, 115, 117, 114, 121]
}

/// The proof account of an authority, with its bump seed.
pub open spec fn proof_account(authority: Seq<u8>) -> Option<(Seq<u8>, u8)> {
    program_address(seq![proof_seed(), authority], eore_id())
}

/// The config account of the mining program, with its bump seed.
pub open spec fn config_account() -> Option<(Seq<u8>, u8)> {
    program_address(seq![config_seed()], eore_id())
}

/// A bus account, with its bump seed.
pub open spec fn bus_account(i: int) -> Option<(Seq<u8>, u8)> {
    program_address(seq![bus_seed(), seq![i as u8]], eore_id())
}

/// The account of the token's mint, with its bump seed.
pub open spec fn mint_account() -> Option<(Seq<u8>, u8)> {
    program_address(seq![mint_seed(), mint_noise()], eore_id())
}

/// The treasury.
pub open spec fn treasury() -> Seq<u8> {
    at(program_address(seq![treasury_seed()], eore_id()))
}

/// The token account of a wallet for a mint, with its bump seed.
pub open spec fn token_account(wallet: Seq<u8>, mint: Seq<u8>) -> Option<(Seq<u8>, u8)> {
    program_address(seq![wallet, token_id(), mint], associated_token_id())
}

/// The instruction that claims `amount` from the proof account of `signer` for `beneficiary`.
pub open spec fn claim_instruction(
    signer: Seq<u8>,
    beneficiary: Seq<u8>,
    amount: u64,
) -> InstructionView {
    InstructionView {
        program_id: eore_id(),
        accounts: seq![
            signing(signer),
            writable(beneficiary),
            writable(at(proof_account(signer))),
            readonly(treasury()),
            writable(at(token_account(treasury(), at(mint_account())))),
            readonly(token_id()),
        ],
        data: seq![0u8] + spec_u64_to_le_bytes(amount),
    }
}

/// The instruction that hands in a solution by `authority`, signed by `signer`.
pub open spec fn mine_instruction(
    signer: Seq<u8>,
    authority: Seq<u8>,
    bus: Seq<u8>,
    digest: Seq<u8>,
    nonce: Seq<u8>,
    boost_config: Seq<u8>,
) -> InstructionView {
    InstructionView {
        program_id: eore_id(),
        accounts: seq![
            signing(signer),
            writable(bus),
            readonly(at(config_account())),
            writable(at(proof_account(authority))),
            readonly(known("Sysvar1nstructions1111111111111111111111111"@)),
            readonly(known("SysvarS1otHashes111111111111111111111111111"@)),
            readonly(boost_config),
            writable(at(proof_account(boost_config))),
        ],
        data: seq![2u8] + digest + nonce,
    }
}

/// The instruction that names the proof account a transaction is about.
pub open spec fn auth_instruction(proof: Seq<u8>) -> InstructionView {
    InstructionView {
        program_id: known("F1ULBrY2Tjsmb1L4Wt4vX6UtiWRikLoRFWooSpxMM6nR"@),
        accounts: Seq::empty(),
        data: proof,
    }
}

/// The instruction that starts a new epoch of the mining program.
pub open spec fn reset_instruction(signer: Seq<u8>) -> InstructionView {
    InstructionView {
        program_id: eore_id(),
        accounts: seq![
            signing(signer),
            writable(at(bus_account(0))),
            writable(at(bus_account(1))),
            writable(at(bus_account(2))),
            writable(at(bus_account(3))),
            writable(at(bus_account(4))),
            writable(at(bus_account(5))),
            writable(at(bus_account(6))),
            writable(at(bus_account(7))),
            writable(at(config_account())),
            writable(at(mint_account())),
            writable(treasury()),
            writable(at(token_account(treasury(), at(mint_account())))),
            readonly(token_id()),
        ],
        data: seq![4u8],
    }
}

/// The instruction by which `funding` pays for the token account of `wallet` for `mint`.
pub open spec fn create_account_instruction(
    funding: Seq<u8>,
    wallet: Seq<u8>,
    mint: Seq<u8>,
) -> InstructionView {
    InstructionView {
        program_id: associated_token_id(),
        accounts: seq![
            signing(funding),
            writable(at(token_account(wallet, mint))),
            readonly(wallet),
            readonly(mint),
            readonly(known("11111111111111111111111111111111"@)),
            readonly(token_id()),
        ],
        data: seq![0u8],
    }
}

/// The instruction that sets the price of a compute unit in millionths of a lamport.
pub open spec fn compute_unit_price_instruction(micro_lamports: u64) -> InstructionView {
    InstructionView {
        program_id: known("ComputeBudget111111111111111111111111111111"@),
        accounts: Seq::empty(),
        data: seq![3u8] + spec_u64_to_le_bytes(micro_lamports),
    }
}

/// The bytes that are signed for a transaction of some instructions, paid by `payer`, under a
/// blockhash: the message that `solana_sdk::transaction::Transaction::new_with_payer` makes and
/// `solana_sdk::transaction::Transaction::message_data` serializes.
pub uninterp spec fn transaction_message(
    instructions: Seq<InstructionView>,
    payer: Seq<u8>,
    blockhash: Seq<u8>,
) -> Seq<u8>;

/// Whether instructions are few and short: a message has room for them.
pub open spec fn fits_message(instructions: Seq<InstructionView>) -> bool {
    &&& instructions.len() <= 8
    &&& forall|i: int|
        0 <= i < instructions.len() ==> (#[trigger] instructions[i]).accounts.len() <= 16
            && instructions[i].data.len() <= 1_024
}

/// Reads the constant `eore_api::ID`, the address that the crate declares for its program.
#[verifier::external_body]
pub(crate) fn eore_program_id() -> (res: Pubkey)
    ensures
        pubkey_of_text("EorefDWqzJK31vLxaqkDGsx3CRKqPVpWfuJL7qBQMZYd"@) == Some(res@),
{
    Pubkey { bytes: eore_api::ID.to_bytes() }
}

/// Calls `spl_token::id`, the address that the crate declares for its program.
#[verifier::external_body]
pub(crate) fn token_program_id() -> (res: Pubkey)
    ensures
        pubkey_of_text("TokenkegQfeZyiNwAJbNbGKPFXCWuBvf9Ss623VQ5DA"@) == Some(res@),
{
    Pubkey { bytes: spl_token::id().to_bytes() }
}

/// Calls `spl_associated_token_account::id`, the address that the crate declares for its program.
#[verifier::external_body]
pub(crate) fn associated_token_program_id() -> (res: Pubkey)
    ensures
        pubkey_of_text("ATokenGPvbdGVxr1b2hvZbsiqW5xWH25efTNsLJA8knL"@) == Some(res@),
{
    Pubkey { bytes: spl_associated_token_account::id().to_bytes() }
}

/// Reads the constant `eore_api::consts::MINT_ADDRESS`, which the crate derives from the seeds
/// `mint` and sixteen bytes of noise under its program.
#[verifier::external_body]
pub(crate) fn mint_address() -> (res: Pubkey)
    ensures
        found_at(mint_account(), res@),
{
    Pubkey { bytes: eore_api::consts::MINT_ADDRESS.to_bytes() }
}

/// Reads the constant `eore_api::consts::CONFIG_ADDRESS`, which the crate derives from the seed
/// `config` under its program.
#[verifier::external_body]
pub(crate) fn config_address() -> (res: Pubkey)
    ensures
        found_at(config_account(), res@),
{
    Pubkey { bytes: eore_api::consts::CONFIG_ADDRESS.to_bytes() }
}

/// Reads the constant `eore_api::consts::BUS_ADDRESSES` at an index below eight. The crate derives
/// the address from the seeds `bus` and the index under its program.
#[verifier::external_body]
pub(crate) fn bus_address(i: usize) -> (res: Pubkey)
    requires
        i < 8,
    ensures
        found_at(bus_account(i as int), res@),
{
    Pubkey { bytes: eore_api::consts::BUS_ADDRESSES[i].to_bytes() }
}

/// Calls `eore_api::state::proof_pda`, which derives the proof account of an authority from the
/// seeds `proof` and the authority, and panics where no bump seed gives an address.
#[verifier::external_body]
pub(crate) fn proof_pda(authority: &Pubkey) -> (res: (Pubkey, u8))
    requires
        proof_account(authority@) is Some,
    ensures
        proof_account(authority@) == Some((res.0@, res.1)),
{
    let found = eore_api::state::proof_pda(
        solana_sdk::pubkey::Pubkey::new_from_array(authority.bytes),
    );
    (Pubkey { bytes: found.0.to_bytes() }, found.1)
}

/// Calls `spl_associated_token_account::get_associated_token_address`, which derives the token
/// account of a wallet for a mint from the wallet, the token program and the mint, and panics
/// where no bump seed gives an address.
#[verifier::external_body]
#[allow(deprecated)]
pub(crate) fn get_associated_token_address(wallet: &Pubkey, mint: &Pubkey) -> (res: Pubkey)
    requires
        token_account(wallet@, mint@) is Some,
    ensures
        found_at(token_account(wallet@, mint@), res@),
{
    let address = spl_associated_token_account::get_associated_token_address(
        &solana_sdk::pubkey::Pubkey::new_from_array(wallet.bytes),
        &solana_sdk::pubkey::Pubkey::new_from_array(mint.bytes),
    );
    Pubkey { bytes: address.to_bytes() }
}

/// Calls `spl_associated_token_account::instruction::create_associated_token_account` with the
/// token program's address. It builds the instruction that `funding` pays for the token account
/// of `wallet` with, and panics where no bump seed gives the account an address.
#[verifier::external_body]
pub(crate) fn create_associated_token_account(
    funding: &Pubkey,
    wallet: &Pubkey,
    mint: &Pubkey,
    token_program: &Pubkey,
) -> (res: Instruction)
    requires
        token_account(wallet@, mint@) is Some,
        token_program@ == token_id(),
    ensures
        res@ == create_account_instruction(funding@, wallet@, mint@),
{
    let ix = spl_associated_token_account::instruction::create_associated_token_account(
        &solana_sdk::pubkey::Pubkey::new_from_array(funding.bytes),
        &solana_sdk::pubkey::Pubkey::new_from_array(wallet.bytes),
        &solana_sdk::pubkey::Pubkey::new_from_array(mint.bytes),
        &solana_sdk::pubkey::Pubkey::new_from_array(token_program.bytes),
    );
    let accounts = ix.accounts.iter().map(|meta| AccountMeta {
        pubkey: Pubkey { bytes: meta.pubkey.to_bytes() },
        is_signer: meta.is_signer,
        is_writable: meta.is_writable,
    }).collect();
    Instruction { program_id: Pubkey { bytes: ix.program_id.to_bytes() }, accounts, data: ix.data }
}

/// Calls `solana_sdk::compute_budget::ComputeBudgetInstruction::set_compute_unit_price`, which
/// builds an instruction of no accounts whose data is the tag 3 and the price.
#[verifier::external_body]
pub(crate) fn set_compute_unit_price(micro_lamports: u64) -> (res: Instruction)
    ensures
        res@ == compute_unit_price_instruction(micro_lamports),
{
    let ix = solana_sdk::compute_budget::ComputeBudgetInstruction::set_compute_unit_price(
        micro_lamports,
    );
    let accounts = ix.accounts.iter().map(|meta| AccountMeta {
        pubkey: Pubkey { bytes: meta.pubkey.to_bytes() },
        is_signer: meta.is_signer,
        is_writable: meta.is_writable,
    }).collect();
    Instruction { program_id: Pubkey { bytes: ix.program_id.to_bytes() }, accounts, data: ix.data }
}

/// Calls `eore_api::sdk::claim`, which builds the instruction that claims an amount. It derives
/// the proof account of the signer, and panics where no bump seed gives it an address.
#[verifier::external_body]
pub(crate) fn eore_claim(signer: &Pubkey, beneficiary: &Pubkey, amount: u64) -> (res: Instruction)
    requires
        proof_account(signer@) is Some,
    ensures
        res@ == claim_instruction(signer@, beneficiary@, amount),
{
    let ix = eore_api::sdk::claim(
        solana_sdk::pubkey::Pubkey::new_from_array(signer.bytes),
        solana_sdk::pubkey::Pubkey::new_from_array(beneficiary.bytes),
        amount,
    );
    let accounts = ix.accounts.iter().map(|meta| AccountMeta {
        pubkey: Pubkey { bytes: meta.pubkey.to_bytes() },
        is_signer: meta.is_signer,
        is_writable: meta.is_writable,
    }).collect();
    Instruction { program_id: Pubkey { bytes: ix.program_id.to_bytes() }, accounts, data: ix.data }
}

/// Calls `eore_api::sdk::mine` with a `drillx::Solution` of the given digest and nonce. It builds
/// the instruction that hands the solution in. It derives the proof accounts of the authority and
/// of the boost config, and panics where no bump seed gives one of them an address.
#[verifier::external_body]
pub(crate) fn eore_mine(
    signer: &Pubkey,
    authority: &Pubkey,
    bus: &Pubkey,
    solution: &Solution,
    boost_config: &Pubkey,
) -> (res: Instruction)
    requires
        proof_account(authority@) is Some,
        proof_account(boost_config@) is Some,
    ensures
        res@ == mine_instruction(
            signer@,
            authority@,
            bus@,
            solution.d@,
            solution.n@,
            boost_config@,
        ),
{
    let ix = eore_api::sdk::mine(
        solana_sdk::pubkey::Pubkey::new_from_array(signer.bytes),
        solana_sdk::pubkey::Pubkey::new_from_array(authority.bytes),
        solana_sdk::pubkey::Pubkey::new_from_array(bus.bytes),
        drillx::Solution::new(solution.d, solution.n),
        solana_sdk::pubkey::Pubkey::new_from_array(boost_config.bytes),
    );
    let accounts = ix.accounts.iter().map(|meta| AccountMeta {
        pubkey: Pubkey { bytes: meta.pubkey.to_bytes() },
        is_signer: meta.is_signer,
        is_writable: meta.is_writable,
    }).collect();
    Instruction { program_id: Pubkey { bytes: ix.program_id.to_bytes() }, accounts, data: ix.data }
}

/// Calls `eore_api::sdk::auth`, which builds an instruction of no accounts whose data is the
/// address of the proof account.
#[verifier::external_body]
pub(crate) fn eore_auth(proof: &Pubkey) -> (res: Instruction)
    ensures
        res@ == auth_instruction(proof@),
{
    let ix = eore_api::sdk::auth(solana_sdk::pubkey::Pubkey::new_from_array(proof.bytes));
    let accounts = ix.accounts.iter().map(|meta| AccountMeta {
        pubkey: Pubkey { bytes: meta.pubkey.to_bytes() },
        is_signer: meta.is_signer,
        is_writable: meta.is_writable,
    }).collect();
    Instruction { program_id: Pubkey { bytes: ix.program_id.to_bytes() }, accounts, data: ix.data }
}

/// Calls `eore_api::sdk::reset`, which builds the instruction that starts a new epoch.
#[verifier::external_body]
pub(crate) fn eore_reset(signer: &Pubkey) -> (res: Instruction)
    ensures
        res@ == reset_instruction(signer@),
{
    let ix = eore_api::sdk::reset(solana_sdk::pubkey::Pubkey::new_from_array(signer.bytes));
    let accounts = ix.accounts.iter().map(|meta| AccountMeta {
        pubkey: Pubkey { bytes: meta.pubkey.to_bytes() },
        is_signer: meta.is_signer,
        is_writable: meta.is_writable,
    }).collect();
    Instruction { program_id: Pubkey { bytes: ix.program_id.to_bytes() }, accounts, data: ix.data }
}

/// Calls `solana_sdk::transaction::Transaction::new_with_payer`, puts the blockhash into the message
/// as `Transaction::sign` does before it signs, and calls `Transaction::message_data`. The message
/// is made of the instructions, the payer and the blockhash alone. The outside code panics where
/// it has more than 255 accounts or a list in it more than 65535 entries.
#[verifier::external_body]
pub(crate) fn new_with_payer(
    instructions: &Vec<Instruction>,
    payer: &Pubkey,
    blockhash: &[u8; 32],
) -> (res: Vec<u8>)
    requires
        fits_message(instructions@.map_values(|ix: Instruction| ix@)),
    ensures
        res@ == transaction_message(
            instructions@.map_values(|ix: Instruction| ix@),
            payer@,
            blockhash@,
        ),
{
    let ixs: Vec<_> = instructions.iter().map(|ix| solana_sdk::instruction::Instruction {
        program_id: ix.program_id.bytes.into(),
        accounts: ix.accounts.iter().map(|meta| solana_sdk::instruction::AccountMeta {
            pubkey: meta.pubkey.bytes.into(),
            is_signer: meta.is_signer,
            is_writable: meta.is_writable,
        }).collect(),
        data: ix.data.clone(),
    }).collect();
    let payer = solana_sdk::pubkey::Pubkey::new_from_array(payer.bytes);
    let mut tx = solana_sdk::transaction::Transaction::new_with_payer(&ixs, Some(&payer));
    tx.message.recent_blockhash = solana_sdk::hash::Hash::new_from_array(*blockhash);
    tx.message_data()
}

/// An address was found only where there is one, and it is that one.
pub proof fn lemma_found_at(found: Option<(Seq<u8>, u8)>, address: Seq<u8>)
    ensures
        found_at(found, address) <==> found is Some && found.unwrap().0 == address,
        found_at(found, address) ==> at(found) == address,
{
}

/// What a solution is handed in with: its digest and its nonce stand in the data whole, behind the
/// byte 2; it is signed by the signer, paid from the bus and counted for the authority.
pub proof fn lemma_solution_is_handed_in(
    signer: Seq<u8>,
    authority: Seq<u8>,
    bus: Seq<u8>,
    digest: Seq<u8>,
    nonce: Seq<u8>,
    boost_config: Seq<u8>,
)
    requires
        digest.len() == 16,
        nonce.len() == 8,
    ensures
        ({
            let ix = mine_instruction(signer, authority, bus, digest, nonce, boost_config);
            &&& ix.data.len() == 25
            &&& ix.data[0] == 2
            &&& ix.data.subrange(1, 17) == digest
            &&& ix.data.subrange(17, 25) == nonce
            &&& ix.accounts[0] == signing(signer)
            &&& ix.accounts[1] == writable(bus)
            &&& ix.accounts[3] == writable(at(proof_account(authority)))
            &&& ix.accounts[6] == readonly(boost_config)
            &&& ix.accounts[7] == writable(at(proof_account(boost_config)))
        }),
{
    let data = mine_instruction(signer, authority, bus, digest, nonce, boost_config).data;
    assert(data.subrange(1, 17) =~= digest);
    assert(data.subrange(17, 25) =~= nonce);
}

/// A new epoch is started over all eight busses, in the order of their numbers.
pub proof fn lemma_reset_names_each_bus(signer: Seq<u8>, bus: int)
    requires
        0 <= bus < 8,
    ensures
        reset_instruction(signer).accounts[0] == signing(signer),
        reset_instruction(signer).accounts[1 + bus] == writable(at(bus_account(bus))),
        reset_instruction(signer).data == seq![4u8],
{
}

} // verus!
