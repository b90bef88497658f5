use bitz_pool::bitz_utils::{get_bitz_mint, get_claim_ix, receiver_token_account};
use bitz_pool::pubkey::Pubkey;
use bitz_pool::queue::{Claim, ClaimsQueue, ClaimsQueueItem};
use bitz_pool::signature::Signature;
use bitz_pool::instruction::Instruction;
use bitz_pool::systems::claim_system::{
    claim_system, ClaimSystem, Event, InsertClaim, Order, Payment, Stage, TokenBalance,
    TransactionStatus, UpdateReward,
};

fn key(n: u8) -> Pubkey {
    Pubkey { bytes: [n; 32] }
}

fn claim(amount: u64) -> Claim {
    Claim { miner: key(1), item: ClaimsQueueItem { receiver_pubkey: key(2), amount } }
}

fn outside(ix: Instruction) -> solana_sdk::instruction::Instruction {
    solana_sdk::instruction::Instruction {
        program_id: ix.program_id.bytes.into(),
        accounts: ix
            .accounts
            .iter()
            .map(|meta| solana_sdk::instruction::AccountMeta {
                pubkey: meta.pubkey.bytes.into(),
                is_signer: meta.is_signer,
                is_writable: meta.is_writable,
            })
            .collect(),
        data: ix.data,
    }
}

fn signature() -> Signature {
    Signature { bytes: [9; 64] }
}

fn sending(amount: u64, creating: bool) -> ClaimSystem {
    let balance = if creating { TokenBalance::Failed } else { TokenBalance::Amount };
    claim_system()
        .step(Event::Picked(Some(claim(amount))))
        .step(Event::Account(balance))
        .step(Event::Blockhash(true))
}

#[test]
fn empty_queue_rests() {
    let queue = ClaimsQueue::new();
    assert_eq!(queue.next_claim(), None);
    let state = claim_system().pick(&queue);
    assert_eq!(state, ClaimSystem { wait_millis: 10_000, stage: Stage::Idle });
    assert_eq!(state, claim_system().step(Event::Picked(None)));
}

#[test]
fn claim_is_picked_and_taken_out() {
    let mut queue = ClaimsQueue::new();
    queue.insert(key(1), claim(5).item);
    let state = claim_system().pick(&queue);
    assert_eq!(state.stage, Stage::Probe { claim: claim(5) });
    assert_eq!(state.dequeue(&mut queue), state);
    assert!(queue.contains_key(&key(1)));
    let state = state.step(Event::Account(TokenBalance::Failed)).dequeue(&mut queue);
    assert_eq!(state, claim_system());
    assert!(!queue.contains_key(&key(1)));
}

#[test]
fn queue_holds_one_claim_of_each_miner() {
    let mut queue = ClaimsQueue::new();
    queue.insert(key(1), claim(5).item);
    queue.insert(key(1), claim(6).item);
    assert!(queue.contains_key(&key(1)));
    assert!(!queue.contains_key(&key(2)));
    assert_eq!(queue.get(&key(1)), Some(claim(6).item));
    assert_eq!(queue.next_claim(), Some(claim(6)));
    queue.insert(key(3), claim(7).item);
    queue.remove(&key(1));
    assert_eq!(queue.get(&key(1)), None);
    assert_eq!(queue.next_claim().unwrap().miner, key(3));
    queue.remove(&key(3));
    assert_eq!(queue.next_claim(), None);
}

#[test]
fn claim_is_paid_and_booked() {
    let state = claim_system().step(Event::Picked(Some(claim(3_000_000_000))));
    assert_eq!(state.probed_account(), Some(receiver_token_account(&key(2))));
    let state = state.step(Event::Account(TokenBalance::NoAmount));
    assert_eq!(state.probed_account(), None);
    let order = Order { claim: claim(3_000_000_000), creating: true };
    assert_eq!(state.stage, Stage::Blockhash { order });
    assert_eq!(order.paid_amount(), 1_000_000_000);
    let state = state
        .step(Event::Blockhash(true))
        .step(Event::Sent(Some(signature())))
        .step(Event::Elapsed(119))
        .step(Event::Status(TransactionStatus::Pending));
    assert_eq!(state.wait_millis, 500);
    let state = state
        .step(Event::Elapsed(119))
        .step(Event::Status(TransactionStatus::Succeeded))
        .step(Event::Miner(Some(31)))
        .step(Event::Pool(Some(41)));
    let payment = Payment { order, signature: signature(), miner_id: 31, pool_id: 41 };
    assert_eq!(state.stage, Stage::DecreaseReward { payment });
    assert_eq!(payment.update_reward(), UpdateReward { miner_id: 31, balance: 3_000_000_000 });
    assert_eq!(payment.claimed_amount(), 3_000_000_000);
    let txn = payment.insert_txn();
    assert_eq!(txn.txn_type, "claim");
    assert_eq!(txn.signature, signature().text());
    assert_eq!(txn.priority_fee, 0);
    assert_eq!(
        payment.insert_claim(51),
        InsertClaim { miner_id: 31, pool_id: 41, txn_id: 51, amount: 3_000_000_000 }
    );
    let again = state.step(Event::Stored(false));
    assert_eq!(again, ClaimSystem { wait_millis: 2_000, stage: state.stage });
    let state = again.step(Event::Stored(true)).step(Event::Stored(true)).step(Event::Stored(true));
    assert_eq!(state.stage, Stage::FindTxn { payment });
    assert_eq!(state.step(Event::Txn(None)).wait_millis, 2_000);
    let state = state.step(Event::Txn(Some(51)));
    assert_eq!(state.stage, Stage::AddClaim { payment, txn_id: 51 });
    let state = state.step(Event::Stored(true));
    assert_eq!(state.stage, Stage::Dequeue { miner: key(1), rest: true });
    let state = state.step(Event::Dequeued);
    assert_eq!(state, ClaimSystem { wait_millis: 10_000, stage: Stage::Idle });
}

#[test]
fn claim_that_does_not_cover_its_account_is_dropped() {
    let state = claim_system()
        .step(Event::Picked(Some(claim(1_999_999_999))))
        .step(Event::Account(TokenBalance::Failed));
    assert_eq!(state.stage, Stage::Dequeue { miner: key(1), rest: false });
    let state = state.step(Event::Dequeued);
    assert_eq!(state, ClaimSystem { wait_millis: 0, stage: Stage::Idle });
    let state = claim_system()
        .step(Event::Picked(Some(claim(1_999_999_999))))
        .step(Event::Account(TokenBalance::Amount));
    assert_eq!(
        state.stage,
        Stage::Blockhash { order: Order { claim: claim(1_999_999_999), creating: false } }
    );
}

#[test]
fn claim_without_a_blockhash_is_dropped() {
    let state = claim_system()
        .step(Event::Picked(Some(claim(5))))
        .step(Event::Account(TokenBalance::Amount))
        .step(Event::Blockhash(false));
    assert_eq!(state.stage, Stage::Dequeue { miner: key(1), rest: false });
}

#[test]
fn transaction_is_sent_five_times() {
    let mut state = sending(5, false);
    for attempts in 1..5u32 {
        state = state.step(Event::Sent(None));
        assert_eq!(state.wait_millis, 2_000);
        let order = Order { claim: claim(5), creating: false };
        assert_eq!(state.stage, Stage::Send { order, attempts });
    }
    state = state.step(Event::Sent(None));
    assert_eq!(state, ClaimSystem { wait_millis: 12_000, stage: Stage::Idle });
}

#[test]
fn expired_and_failed_transactions_leave_the_claim() {
    let sent = sending(5, false).step(Event::Sent(Some(signature())));
    let expired = sent.step(Event::Elapsed(120));
    assert_eq!(expired, ClaimSystem { wait_millis: 10_000, stage: Stage::Idle });
    let failed = sent.step(Event::Elapsed(0)).step(Event::Status(TransactionStatus::Failed));
    assert_eq!(failed, ClaimSystem { wait_millis: 10_000, stage: Stage::Idle });
}

#[test]
fn failed_lookup_stops_the_system() {
    let confirmed = sending(5, false)
        .step(Event::Sent(Some(signature())))
        .step(Event::Elapsed(0))
        .step(Event::Status(TransactionStatus::Succeeded));
    assert_eq!(confirmed.step(Event::Miner(None)).stage, Stage::Stopped);
    let found = confirmed.step(Event::Miner(Some(1)));
    assert_eq!(found.step(Event::Pool(None)).stage, Stage::Stopped);
    assert_eq!(found.step(Event::Pool(None)).step(Event::Picked(None)).stage, Stage::Stopped);
}

#[test]
fn event_out_of_place_changes_nothing() {
    let state = sending(5, false);
    assert_eq!(state.step(Event::Dequeued), state);
    assert_eq!(state.step(Event::Stored(true)), state);
    assert_eq!(claim_system().step(Event::Stored(true)), claim_system());
}

#[test]
fn instructions_pay_the_claim() {
    let wallet = key(7);
    let account = receiver_token_account(&key(2));

    let plain = Order { claim: claim(500), creating: false }.instructions(&wallet).unwrap();
    assert_eq!(plain.len(), 2);
    assert_eq!(plain[0].data, [3, 0, 0, 0, 0, 0, 0, 0, 0]);
    assert_eq!(
        plain[0].program_id.text(),
        "ComputeBudget111111111111111111111111111111"
    );
    assert_eq!(plain[1], get_claim_ix(wallet, account, 500));

    let making = Order { claim: claim(2_000_000_500), creating: true }
        .instructions(&wallet)
        .unwrap();
    assert_eq!(making.len(), 3);
    assert_eq!(making[1].accounts[0].pubkey, wallet);
    assert_eq!(making[1].accounts[1].pubkey, account);
    assert_eq!(making[1].accounts[2].pubkey, key(2));
    assert_eq!(making[1].accounts[3].pubkey, get_bitz_mint());
    assert_eq!(making[1].data, [0]);
    assert_eq!(making[2], get_claim_ix(wallet, account, 500));

    let only_making = Order { claim: claim(2_000_000_000), creating: true }
        .instructions(&wallet)
        .unwrap();
    assert_eq!(only_making.len(), 2);
}

#[test]
fn books_agree_after_each_claim() {
    let mut queue = ClaimsQueue::new();
    queue.insert(key(1), claim(5_000).item);
    queue.insert(key(3), claim(70_000).item);
    let (mut confirmed, mut decreased, mut pooled, mut claimed) = (0u64, 0u64, 0u64, 0u64);
    let mut state = claim_system();
    let mut expired = false;
    while queue.next_claim().is_some() {
        let event = match state.stage {
            Stage::Idle => {
                assert_eq!((decreased, pooled, claimed), (confirmed, confirmed, confirmed));
                state = state.pick(&queue);
                continue;
            }
            Stage::Probe { .. } => Event::Account(TokenBalance::Amount),
            Stage::Blockhash { .. } => Event::Blockhash(true),
            Stage::Send { .. } => Event::Sent(Some(signature())),
            Stage::CheckTimer { .. } => {
                let seconds = if expired { 0 } else { 500 };
                expired = true;
                Event::Elapsed(seconds)
            }
            Stage::PollStatus { order, .. } => {
                confirmed += order.claim.item.amount;
                Event::Status(TransactionStatus::Succeeded)
            }
            Stage::FindMiner { .. } => Event::Miner(Some(1)),
            Stage::FindPool { .. } => Event::Pool(Some(2)),
            Stage::DecreaseReward { payment } => {
                decreased += payment.update_reward().balance;
                Event::Stored(true)
            }
            Stage::UpdatePool { payment } => {
                pooled += payment.claimed_amount();
                Event::Stored(true)
            }
            Stage::AddTxn { .. } => Event::Stored(true),
            Stage::FindTxn { .. } => Event::Txn(Some(3)),
            Stage::AddClaim { payment, txn_id } => {
                claimed += payment.insert_claim(txn_id).amount;
                Event::Stored(true)
            }
            Stage::Dequeue { .. } => {
                state = state.dequeue(&mut queue);
                continue;
            }
            Stage::Stopped => panic!(),
        };
        state = state.step(event);
    }
    assert_eq!((confirmed, decreased, pooled, claimed), (75_000, 75_000, 75_000, 75_000));
}

#[test]
fn wallet_signs_the_message() {
    let pair = solana_sdk::signer::keypair::keypair_from_seed(&[3; 32]).unwrap();
    let signer = solana_sdk::signer::Signer::pubkey(&pair);
    let wallet = Pubkey { bytes: signer.to_bytes() };
    let order = Order { claim: claim(2_000_000_500), creating: true };
    let ixs: Vec<_> = order.instructions(&wallet).unwrap().into_iter().map(outside).collect();
    let mut tx = solana_sdk::transaction::Transaction::new_with_payer(&ixs, Some(&signer));
    tx.sign(&[&pair], solana_sdk::hash::Hash::new_from_array([6; 32]));

    let message = order.message(&wallet, &[6; 32]).unwrap();
    assert_eq!(message, tx.message_data());
    let given = Signature { bytes: tx.signatures[0].into() };
    assert!(given.verify(&wallet, &message));
    assert_ne!(message, order.message(&wallet, &[7; 32]).unwrap());
    let other = Order { claim: claim(2_000_000_501), creating: true };
    assert_ne!(message, other.message(&wallet, &[6; 32]).unwrap());
}
