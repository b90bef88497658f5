use bitz_pool::accounts::{Bus, Proof, TreasuryConfig};
use bitz_pool::bitz_utils::{
    boost_program_id, config_pda, cutoff_at, cutoff_by, get_auth_ix, get_bitz_mint, get_claim_ix, get_cutoff,
    get_mine_with_global_boost_ix, get_proof, get_proof_address, get_proof_and_config_with_busses,
    get_reset_ix, get_tracked_accounts, proof_pubkey, receiver_token_account, try_boost_program_id,
    try_config_pda, try_get_auth_ix, try_get_claim_ix, try_get_mine_with_global_boost_ix,
    try_get_proof_address, try_get_tracked_accounts, try_proof_pubkey, try_receiver_token_account,
    MineEventWithBoosts, MineEventWithGlobalBoosts, BITZ_TOKEN_DECIMALS, BUS_COUNT,
};
use bitz_pool::epoch::{
    BestHash, EpochHashes, Solution, MAX_CALCULATED_HASHPOWER, MIN_DIFF, MIN_HASHPOWER,
};
use bitz_pool::instruction::Instruction;
use bitz_pool::pubkey::Pubkey;
use bitz_pool::signature::Signature;
use solana_sdk::signer::Signer;

fn key(n: u8) -> Pubkey {
    Pubkey { bytes: [n; 32] }
}

fn outside(key: Pubkey) -> solana_sdk::pubkey::Pubkey {
    solana_sdk::pubkey::Pubkey::new_from_array(key.bytes)
}

fn same(ours: &Instruction, theirs: &solana_sdk::instruction::Instruction) -> bool {
    ours.program_id.bytes == theirs.program_id.to_bytes()
        && ours.data == theirs.data
        && ours.accounts.len() == theirs.accounts.len()
        && ours.accounts.iter().zip(theirs.accounts.iter()).all(|(a, b)| {
            a.pubkey.bytes == b.pubkey.to_bytes()
                && a.is_signer == b.is_signer
                && a.is_writable == b.is_writable
        })
}

fn proof_contents() -> Vec<u8> {
    let mut bytes: Vec<u8> = Vec::new();
    bytes.extend([7u8; 32]);
    bytes.extend(5_000u64.to_le_bytes());
    bytes.extend([8u8; 32]);
    bytes.extend([9u8; 32]);
    bytes.extend((-3i64).to_le_bytes());
    bytes.extend(1_700_000_000i64.to_le_bytes());
    bytes.extend([10u8; 32]);
    bytes.extend(11u64.to_le_bytes());
    bytes.extend(12u64.to_le_bytes());
    bytes
}

fn account(kind: u8, contents: &[u8]) -> Vec<u8> {
    let mut bytes: Vec<u8> = vec![kind, 0, 0, 0, 0, 0, 0, 0];
    bytes.extend(contents);
    bytes
}

fn words(values: [u64; 4]) -> Vec<u8> {
    values.iter().flat_map(|v| v.to_le_bytes()).collect()
}

fn sample_proof() -> Proof {
    Proof {
        authority: key(7),
        balance: 5_000,
        challenge: [8; 32],
        last_hash: [9; 32],
        last_hash_at: -3,
        last_claim_at: 1_700_000_000,
        miner: key(10),
        total_hashes: 11,
        total_rewards: 12,
    }
}

#[test]
fn pubkey_text_reads_back() {
    let system = Pubkey::parse("11111111111111111111111111111111").unwrap();
    assert_eq!(system.bytes, [0; 32]);
    assert_eq!(system.text(), "11111111111111111111111111111111");
    assert_eq!(Pubkey::parse(&key(42).text()), Some(key(42)));
    assert_ne!(key(42).text(), key(43).text());
    assert_eq!(Pubkey::parse("not a key"), None);
    assert_eq!(Pubkey::parse(""), None);
    assert_eq!(Pubkey::parse("1111"), None);
    assert!(key(1).same(&key(1)));
    assert!(!key(1).same(&key(2)));
}

#[test]
fn signature_covers_what_was_signed() {
    let pair = solana_sdk::signer::keypair::keypair_from_seed(&[3; 32]).unwrap();
    let signer = Pubkey { bytes: pair.pubkey().to_bytes() };
    let text = pair.sign_message(b"message").to_string();
    let signature = Signature::parse(&text).unwrap();
    assert_eq!(signature.text(), text);
    assert!(signature.verify(&signer, b"message"));
    assert!(!signature.verify(&signer, b"another"));
    assert!(!signature.verify(&key(1), b"message"));
    assert_eq!(Signature::parse("0"), None);
    assert_eq!(Signature::parse(&signer.text()), None);
}

#[test]
fn constants_are_those_of_the_program() {
    assert_eq!(BITZ_TOKEN_DECIMALS, eore_api::consts::TOKEN_DECIMALS);
    assert_eq!(BITZ_TOKEN_DECIMALS, 11);
    assert_eq!(BUS_COUNT, eore_api::consts::BUS_ADDRESSES.len());
    assert_eq!(eore_api::consts::PROOF, b"proof");
    assert_eq!(MIN_HASHPOWER << (24 - MIN_DIFF), MAX_CALCULATED_HASHPOWER);
}

#[test]
fn addresses_are_derived_from_their_seeds() {
    let derived = |seeds: &[&[u8]]| {
        solana_sdk::pubkey::Pubkey::find_program_address(seeds, &eore_api::ID).0.to_bytes()
    };
    let reset = get_reset_ix(key(1));
    let at = |i: usize| reset.accounts[i].pubkey.bytes;
    for i in 0..8u8 {
        assert_eq!(at(1 + i as usize), derived(&[b"bus", &[i]]));
    }
    assert_eq!(at(9), derived(&[b"config"]));
    let noise = [89, 157, 88, 232, 243, 249, 197, 132, 199, 49, 19, 234, 91, 94, 150, 41];
    assert_eq!(at(10), derived(&[b"mint", &noise]));
    assert_eq!(at(10), get_bitz_mint().bytes);
    assert_eq!(at(11), derived(&[b"treasury"]));
    assert_eq!(at(12), receiver_token_account(&Pubkey { bytes: at(11) }).bytes);
    assert_eq!(
        Pubkey { bytes: at(13) }.text(),
        "TokenkegQfeZyiNwAJbNbGKPFXCWuBvf9Ss623VQ5DA"
    );
    assert_eq!(
        reset.program_id.text(),
        "EorefDWqzJK31vLxaqkDGsx3CRKqPVpWfuJL7qBQMZYd"
    );
    assert_eq!(
        get_auth_ix(key(1)).program_id.text(),
        "F1ULBrY2Tjsmb1L4Wt4vX6UtiWRikLoRFWooSpxMM6nR"
    );
    let mine = get_mine_with_global_boost_ix(key(1), Solution::new([0; 16], [0; 8]), 0);
    let at = |i: usize| mine.accounts[i].pubkey;
    assert_eq!(at(0), key(1));
    assert_eq!(at(1).bytes, derived(&[b"bus", &[0]]));
    assert_eq!(at(2).bytes, derived(&[b"config"]));
    assert_eq!(at(3), proof_pubkey(key(1)));
    assert_eq!(at(4).text(), "Sysvar1nstructions1111111111111111111111111");
    assert_eq!(at(5).text(), "SysvarS1otHashes111111111111111111111111111");
    assert_eq!(at(6), config_pda().0);
    assert_eq!(at(7), proof_pubkey(config_pda().0));
    assert_eq!(mine.accounts.len(), 8);
    let claim = get_claim_ix(key(1), key(2), 1);
    assert_eq!(claim.accounts.len(), 6);
    assert_eq!(claim.accounts[3].pubkey.bytes, derived(&[b"treasury"]));
}

#[test]
fn proof_account_is_found_both_ways() {
    let expected = solana_sdk::pubkey::Pubkey::find_program_address(
        &[b"proof", &[5u8; 32]],
        &eore_api::ID,
    ).0;
    assert_eq!(proof_pubkey(key(5)).bytes, expected.to_bytes());
    assert_eq!(try_proof_pubkey(key(5)), Some(proof_pubkey(key(5))));
    assert_eq!(get_proof_address(key(5)), proof_pubkey(key(5)));
    assert_eq!(try_get_proof_address(key(5)), Some(proof_pubkey(key(5))));
    assert_ne!(proof_pubkey(key(5)), proof_pubkey(key(6)));
}

#[test]
fn mint_and_token_accounts() {
    assert_eq!(get_bitz_mint().bytes, eore_api::consts::MINT_ADDRESS.to_bytes());
    let expected = spl_associated_token_account::get_associated_token_address(
        &outside(key(5)),
        &eore_api::consts::MINT_ADDRESS,
    );
    assert_eq!(receiver_token_account(&key(5)).bytes, expected.to_bytes());
    assert_eq!(try_receiver_token_account(&key(5)), Some(receiver_token_account(&key(5))));
    assert_ne!(receiver_token_account(&key(5)), receiver_token_account(&key(6)));
}

#[test]
fn boost_config_is_derived() {
    let program = boost_program_id();
    assert_eq!(program.text(), "eBoFjsXMceooxywb8MeCqRCkQ2JEEsd5AUELXbaQfh8");
    assert_eq!(try_boost_program_id(), Some(program));
    let expected = solana_sdk::pubkey::Pubkey::find_program_address(
        &[b"config"],
        &outside(program),
    );
    let (address, bump) = config_pda();
    assert_eq!(address.bytes, expected.0.to_bytes());
    assert_eq!(bump, expected.1);
    assert_eq!(try_config_pda(), Some((address, bump)));
}

#[test]
fn claim_instruction_is_that_of_the_program() {
    let ix = get_claim_ix(key(1), key(2), 77);
    assert!(same(&ix, &eore_api::sdk::claim(outside(key(1)), outside(key(2)), 77)));
    assert_eq!(ix.data, [0, 77, 0, 0, 0, 0, 0, 0, 0]);
    assert_eq!(ix.accounts[0].pubkey, key(1));
    assert!(ix.accounts[0].is_signer);
    assert_eq!(ix.accounts[1].pubkey, key(2));
    assert_eq!(ix.accounts[2].pubkey, proof_pubkey(key(1)));
    assert_eq!(try_get_claim_ix(key(1), key(2), 77), Some(ix));
}

#[test]
fn auth_and_reset_instructions() {
    let auth = get_auth_ix(key(1));
    assert_eq!(auth.data, proof_pubkey(key(1)).bytes);
    assert!(auth.accounts.is_empty());
    assert_eq!(try_get_auth_ix(key(1)), Some(auth));
    let reset = get_reset_ix(key(1));
    assert!(same(&reset, &eore_api::sdk::reset(outside(key(1)))));
    assert_eq!(reset.data, [4]);
    assert_eq!(reset.accounts.len(), 14);
    assert_eq!(reset.accounts[0].pubkey, key(1));
}

#[test]
fn mine_instruction_hands_the_solution_in() {
    let solution = Solution::new([6; 16], [7; 8]);
    let ix = get_mine_with_global_boost_ix(key(1), solution, 3);
    let expected = eore_api::sdk::mine(
        outside(key(1)),
        outside(key(1)),
        eore_api::consts::BUS_ADDRESSES[3],
        drillx::Solution::new([6; 16], [7; 8]),
        outside(config_pda().0),
    );
    assert!(same(&ix, &expected));
    assert_eq!(ix.data[0], 2);
    assert_eq!(ix.data[1..17], [6; 16]);
    assert_eq!(ix.data[17..25], [7; 8]);
    assert_eq!(ix.accounts[1].pubkey.bytes, eore_api::consts::BUS_ADDRESSES[3].to_bytes());
    assert_eq!(try_get_mine_with_global_boost_ix(key(1), solution, 3), Some(ix));
    assert_eq!(try_get_mine_with_global_boost_ix(key(1), solution, 8), None);
}

#[test]
fn proof_is_read_from_its_account() {
    let bytes = account(102, &proof_contents());
    assert_eq!(get_proof(&bytes), Ok(sample_proof()));
    assert_eq!(get_proof(&bytes[..bytes.len() - 1]), Err(()));
    assert_eq!(get_proof(&account(101, &proof_contents())), Err(()));
    assert_eq!(get_proof(&[101]), Err(()));
}

#[test]
fn tracked_accounts_are_read() {
    let keys = get_tracked_accounts(key(4));
    assert_eq!(keys.len(), 10);
    assert_eq!(keys[0], proof_pubkey(key(4)));
    assert_eq!(keys[1].bytes, eore_api::consts::CONFIG_ADDRESS.to_bytes());
    assert_eq!(keys[2].bytes, eore_api::consts::BUS_ADDRESSES[0].to_bytes());
    assert_eq!(keys[9].bytes, eore_api::consts::BUS_ADDRESSES[7].to_bytes());
    assert_eq!(try_get_tracked_accounts(key(4)), Some(keys));

    let mut fetched: Vec<Option<Vec<u8>>> = vec![
        Some(account(0, &proof_contents())),
        Some(account(101, &words([1, 2, 3, 4]))),
    ];
    for i in 0..8u64 {
        fetched.push(Some(account(100, &words([i, 10 + i, 20 + i, 30 + i]))));
    }
    fetched[5] = None;
    let (proof, config, busses) = get_proof_and_config_with_busses(Some(&fetched));
    assert_eq!(proof, Ok(sample_proof()));
    assert_eq!(
        config,
        Ok(TreasuryConfig {
            base_reward_rate: 1,
            last_reset_at: 2,
            min_difficulty: 3,
            target_emmissions_rate: 4,
        })
    );
    let busses = busses.unwrap();
    assert_eq!(busses.len(), 8);
    assert_eq!(
        busses[1],
        Ok(Bus { id: 1, rewards: 11, theoretical_rewards: 21, top_balance: 31 })
    );
    assert_eq!(busses[3], Err(()));
    assert_eq!(
        busses[7],
        Ok(Bus { id: 7, rewards: 17, theoretical_rewards: 27, top_balance: 37 })
    );

    fetched[0] = None;
    fetched[1] = None;
    let (proof, config, busses) = get_proof_and_config_with_busses(Some(&fetched));
    assert_eq!(proof, Err(()));
    assert_eq!(config, Err(()));
    assert!(busses.is_ok());

    let (proof, config, busses) = get_proof_and_config_with_busses(None);
    assert_eq!(proof, Err(()));
    assert_eq!(config, Err(()));
    assert!(busses.is_err());
}

#[test]
fn cutoff_counts_down_to_the_next_hash() {
    let mut proof = sample_proof();
    proof.last_hash_at = 1_000;
    assert_eq!(cutoff_at(&proof, 5, 1_020), 35);
    assert_eq!(cutoff_at(&proof, 0, 1_060), 0);
    assert_eq!(cutoff_at(&proof, 5, 2_000), -945);
    proof.last_hash_at = i64::MAX;
    assert_eq!(cutoff_at(&proof, 0, 0), i64::MAX);
    assert_eq!(cutoff_at(&proof, 7, 0), i64::MAX - 7);
    proof.last_hash_at = i64::MIN;
    assert_eq!(cutoff_at(&proof, 100, 5), i64::MIN);
    proof.last_hash_at = 0;
    assert_eq!(cutoff_at(&proof, u64::MAX, 1), 60);
    proof.last_hash_at = 0;
    assert_eq!(cutoff_by(&proof, 5, Some(20)), Some(35));
    assert_eq!(cutoff_by(&proof, 5, None), None);
    let left = get_cutoff(&proof, 0).unwrap();
    assert!(left < -1_700_000_000);
}

#[test]
fn event_reads_back_from_its_bytes() {
    let event = MineEventWithGlobalBoosts {
        balance: 1,
        difficulty: 2,
        last_hash_at: -3,
        timing: i64::MIN,
        net_reward: 5,
        net_base_reward: u64::MAX,
        net_miner_boost_reward: 7,
        net_staker_boost_reward: 8,
    };
    let bytes = event.to_bytes();
    assert_eq!(bytes.len(), 64);
    assert_eq!(bytes[..8], 1u64.to_le_bytes());
    assert_eq!(bytes[16..24], (-3i64).to_le_bytes());
    assert_eq!(bytes[56..], 8u64.to_le_bytes());
    assert_eq!(MineEventWithGlobalBoosts::from_bytes(&bytes), event);
    let others: Vec<u8> = (0..64).collect();
    assert_eq!(MineEventWithGlobalBoosts::from_bytes(&others).to_bytes(), others);
    let older = MineEventWithBoosts {
        balance: 1,
        difficulty: 2,
        last_hash_at: 3,
        timing: 4,
        reward: 5,
        boost_1: 6,
        boost_2: 7,
        boost_3: 8,
    };
    assert_eq!(older, older.clone());
}

#[test]
fn nothing_is_submitted_for_a_new_challenge() {
    let hashes = EpochHashes::new([4; 32]);
    assert_eq!(hashes.challenge, [4; 32]);
    let BestHash { solution, difficulty } = hashes.best_hash;
    assert_eq!(solution, None);
    assert_eq!(difficulty, 0);
    assert_eq!(hashes.submissions.len(), 0);
}
