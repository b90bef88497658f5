use bitz_pool::authentication::{claim_bytes, is_valid_at, login_bytes};
use bitz_pool::bitz_utils::receiver_token_account;
use bitz_pool::claims::{
    claim_direct, confirmation_claim, post_claim_v2, ClaimDirect, ClaimEvent, ClaimParamsV2,
    ConfirmationClaim, ConfirmationReply, DirectReply, PostClaim, PostClaimReply, Reward,
};
use bitz_pool::database_error::AppDatabaseError;
use bitz_pool::decimal::{signed_text, unsigned_text};
use bitz_pool::pubkey::Pubkey;
use bitz_pool::queue::{Claim, ClaimsQueue, ClaimsQueueItem};
use bitz_pool::reply::{ContentType, Status};
use bitz_pool::systems::claim_system::{
    claim_system, Event, Order, Stage, TokenBalance, ACCOUNT_FEE,
};
use solana_sdk::signer::Signer;

const NOW: u64 = 1_700_000_000;

fn pair() -> solana_sdk::signature::Keypair {
    solana_sdk::signer::keypair::keypair_from_seed(&[3; 32]).unwrap()
}

fn miner() -> Pubkey {
    Pubkey { bytes: pair().pubkey().to_bytes() }
}

fn receiver() -> Pubkey {
    Pubkey { bytes: [2; 32] }
}

fn params(amount: u64) -> ClaimParamsV2 {
    ClaimParamsV2 { timestamp: NOW - 10, receiver_pubkey: receiver().text(), amount }
}

fn signed(params: &ClaimParamsV2) -> String {
    let message = claim_bytes(params.timestamp, &receiver(), params.amount);
    pair().sign_message(&message).to_string()
}

fn post(params: &ClaimParamsV2, password: &str, queue: &ClaimsQueue) -> PostClaim {
    post_claim_v2(&miner().text(), password, params, NOW, queue)
}

fn admitted(amount: u64) -> PostClaim {
    let params = params(amount);
    post(&params, &signed(&params), &ClaimsQueue::new())
}

fn expected(amount: u64) -> Claim {
    Claim { miner: miner(), item: ClaimsQueueItem { receiver_pubkey: receiver(), amount } }
}

fn reward(balance: u64) -> ClaimEvent {
    ClaimEvent::Rewards(Ok(Reward { miner_id: 21, balance }))
}

fn no_claim() -> ClaimEvent {
    ClaimEvent::LastClaim { created_at: Err(AppDatabaseError::QueryFailed), now: NOW as i64 }
}

fn refused(state: PostClaim, status: u16, body: &str) -> bool {
    match state {
        PostClaim::Answered(answer) => {
            let reply = answer.reply();
            reply.status.code() == status
                && reply.body == body
                && reply.content_type == ContentType::Plain
        }
        _ => false,
    }
}

#[test]
fn messages_are_valid_for_thirty_seconds() {
    assert!(is_valid_at(NOW, NOW));
    assert!(is_valid_at(NOW - 29, NOW));
    assert!(!is_valid_at(NOW - 30, NOW));
    assert!(!is_valid_at(NOW + 1, NOW));
    assert!(!is_valid_at(u64::MAX, 0));
}

#[test]
fn signed_bytes() {
    assert_eq!(login_bytes(258), [2, 1, 0, 0, 0, 0, 0, 0]);
    let message = claim_bytes(1, &receiver(), 3);
    assert_eq!(message.len(), 48);
    assert_eq!(message[..8], [1, 0, 0, 0, 0, 0, 0, 0]);
    assert_eq!(message[8..40], [2; 32]);
    assert_eq!(message[40..], [3, 0, 0, 0, 0, 0, 0, 0]);
    assert_ne!(claim_bytes(1, &receiver(), 3), claim_bytes(1, &receiver(), 4));
    assert_ne!(claim_bytes(1, &receiver(), 3), claim_bytes(2, &receiver(), 3));
    assert_ne!(claim_bytes(1, &receiver(), 3), claim_bytes(1, &miner(), 3));
    assert_ne!(claim_bytes(1, &receiver(), 3), login_bytes(1));
}

#[test]
fn decimals() {
    assert_eq!(unsigned_text(0), "0");
    assert_eq!(unsigned_text(10), "10");
    assert_eq!(unsigned_text(u64::MAX), "18446744073709551615");
    assert_eq!(signed_text(-1), "-1");
    assert_eq!(signed_text(i64::MIN as i128 - i64::MAX as i128), "-18446744073709551615");
    assert_eq!(signed_text(1_800), "1800");
}

#[test]
fn signed_claim_is_queued() {
    let state = admitted(2_000_000_000);
    assert_eq!(state, PostClaim::AskRewards { claim: expected(2_000_000_000) });
    assert_eq!(state.asked_miner(), Some(miner().text()));
    assert_eq!(state.asked_account(), None);
    let state = state.step(reward(2_000_000_000));
    assert_eq!(
        state,
        PostClaim::AskLastClaim { claim: expected(2_000_000_000), miner_id: 21 }
    );
    let state = state.step(no_claim());
    assert_eq!(state.asked_miner(), None);
    assert_eq!(state.asked_account(), Some(receiver_token_account(&receiver())));
    let state = state.step(ClaimEvent::Account(TokenBalance::Failed));
    assert_eq!(state, PostClaim::Enqueue { claim: expected(2_000_000_000) });
    let mut queue = ClaimsQueue::new();
    let done = state.enqueue(&mut queue);
    assert_eq!(queue.next_claim(), Some(expected(2_000_000_000)));
    assert_eq!(done, state.step(ClaimEvent::Enqueued));
    assert!(refused(done, 200, "SUCCESS"));
    let mut other = ClaimsQueue::new();
    assert_eq!(admitted(2_000_000_000).enqueue(&mut other), admitted(2_000_000_000));
    assert_eq!(other.next_claim(), None);

    let params = params(2_000_000_000);
    assert!(refused(post(&params, &signed(&params), &queue), 429, "QUEUED"));
    queue.remove(&miner());
    assert_eq!(
        post(&params, &signed(&params), &queue),
        PostClaim::AskRewards { claim: expected(2_000_000_000) }
    );
}

#[test]
fn signed_claim_is_refused_at_once() {
    let queue = ClaimsQueue::new();
    let good = params(2_000_000_000);
    let password = signed(&good);

    let mut old = params(2_000_000_000);
    old.timestamp = NOW - 30;
    assert!(refused(post(&old, &signed(&old), &queue), 401, "Timestamp too old."));

    let mut nobody = params(2_000_000_000);
    nobody.receiver_pubkey = "nobody".to_string();
    assert!(refused(
        post(&nobody, &password, &queue),
        400,
        "Invalid receiver_pubkey provided."
    ));

    assert!(refused(
        post_claim_v2("nobody", &password, &good, NOW, &queue),
        400,
        "Invalid Pubkey"
    ));
    assert!(refused(post(&good, "scribble", &queue), 401, "Invalid signature"));
    assert!(refused(
        post(&params(2_000_000_001), &password, &queue),
        401,
        "Sig verification failed"
    ));
    let small = params(1_999_999_999);
    assert!(refused(
        post(&small, &signed(&small), &queue),
        400,
        "claim minimum is 0.05 BITZ"
    ));
}

#[test]
fn signed_claim_is_refused_by_the_books() {
    let state = admitted(3_000_000_000);
    let failed = ClaimEvent::Rewards(Err(AppDatabaseError::QueryFailed));
    assert!(refused(
        state.step(failed),
        500,
        "failed to get miner account from database"
    ));
    assert!(refused(
        state.step(reward(2_999_999_999)),
        400,
        "claim amount for BITZ exceeds miner rewards balance."
    ));
    let asked = state.step(reward(3_000_000_000));
    let recent = ClaimEvent::LastClaim { created_at: Ok(NOW as i64 - 1_800), now: NOW as i64 };
    assert!(refused(asked.step(recent), 429, "1800"));
    let future = ClaimEvent::LastClaim { created_at: Ok(NOW as i64 + 7), now: NOW as i64 };
    assert!(refused(asked.step(future), 429, "-7"));
    let rested = ClaimEvent::LastClaim { created_at: Ok(NOW as i64 - 1_801), now: NOW as i64 };
    let probing = asked.step(rested);
    assert_eq!(probing, PostClaim::AskAccount { claim: expected(3_000_000_000) });
    for balance in [TokenBalance::Failed, TokenBalance::NoAmount, TokenBalance::Amount] {
        assert_eq!(
            probing.step(ClaimEvent::Account(balance)),
            PostClaim::Enqueue { claim: expected(3_000_000_000) }
        );
    }
    assert_eq!(probing.step(reward(1)), probing);
    let short = PostClaim::AskAccount { claim: expected(1) };
    assert!(refused(
        short.step(ClaimEvent::Account(TokenBalance::NoAmount)),
        400,
        "Not enough BITZ to cover for token account generation. Each new token account requires 0.02 BITZ"
    ));
    assert_eq!(
        short.step(ClaimEvent::Account(TokenBalance::NoAmount)),
        PostClaim::Answered(PostClaimReply::CannotCover)
    );
}

#[test]
fn direct_claim_is_queued() {
    let state = claim_direct(&receiver().text());
    assert_eq!(state, ClaimDirect::AskRewards { pubkey: receiver() });
    assert_eq!(state.asked_miner(), Some(receiver().text()));
    let state = state.step(reward(5_000_000_000)).step(no_claim());
    assert_eq!(state.asked_account(), Some(receiver_token_account(&receiver())));
    let whole = Claim {
        miner: receiver(),
        item: ClaimsQueueItem { receiver_pubkey: receiver(), amount: 5_000_000_000 },
    };
    assert_eq!(
        state.step(ClaimEvent::Account(TokenBalance::Amount)),
        ClaimDirect::Enqueue { claim: whole }
    );
    assert_eq!(
        state.step(ClaimEvent::Account(TokenBalance::NoAmount)),
        ClaimDirect::Enqueue { claim: whole }
    );
    let lessened = state.step(ClaimEvent::Account(TokenBalance::Failed));
    let less = Claim {
        miner: receiver(),
        item: ClaimsQueueItem { receiver_pubkey: receiver(), amount: 3_000_000_000 },
    };
    assert_eq!(lessened, ClaimDirect::Enqueue { claim: less });
    let mut queue = ClaimsQueue::new();
    queue.insert(receiver(), whole.item);
    let done = lessened.enqueue(&mut queue);
    assert_eq!(done, ClaimDirect::Answered(DirectReply::Submitted));
    assert_eq!(queue.get(&receiver()), Some(less.item));
    assert_eq!(DirectReply::Submitted.reply().body, "Claim submitted");
    assert_eq!(DirectReply::Submitted.reply().status, Status::Success);

    assert_eq!(Order { claim: less, creating: true }.paid_amount(), 1_000_000_000);
}

#[test]
fn direct_claim_below_two_fees_is_dropped() {
    let balance: u64 = 2 * ACCOUNT_FEE - 1;
    let state = claim_direct(&receiver().text())
        .step(reward(balance))
        .step(no_claim())
        .step(ClaimEvent::Account(TokenBalance::Failed));
    match state {
        ClaimDirect::Enqueue { claim } => {
            let dropped = claim_system()
                .step(Event::Picked(Some(claim)))
                .step(Event::Account(TokenBalance::Failed));
            assert_eq!(dropped.stage, Stage::Dequeue { miner: receiver(), rest: false });
        }
        _ => panic!(),
    }
}

#[test]
fn direct_claim_is_refused() {
    assert_eq!(claim_direct("nobody"), ClaimDirect::Answered(DirectReply::InvalidPubkey));
    let asked = claim_direct(&receiver().text());
    let failed = ClaimEvent::Rewards(Err(AppDatabaseError::Other));
    assert_eq!(asked.step(failed), ClaimDirect::Answered(DirectReply::MinerNotFound));
    assert_eq!(
        asked.step(reward(1_999_999_999)),
        ClaimDirect::Answered(DirectReply::BelowMinimum)
    );
    let recent = ClaimEvent::LastClaim { created_at: Ok(NOW as i64 - 1_800), now: NOW as i64 };
    assert_eq!(
        asked.step(reward(2_000_000_000)).step(recent),
        ClaimDirect::Answered(DirectReply::CoolingDown)
    );
    let short = ClaimDirect::AskAccount { pubkey: receiver(), balance: 1 };
    assert_eq!(
        short.step(ClaimEvent::Account(TokenBalance::Failed)),
        ClaimDirect::Answered(DirectReply::CannotCover)
    );
    let replies = [
        (DirectReply::InvalidPubkey, 400, "Invalid pubkey"),
        (DirectReply::MinerNotFound, 404, "Miner not found"),
        (DirectReply::BelowMinimum, 400, "Minimum claim is 0.05 BITZ"),
        (DirectReply::CoolingDown, 429, "Cooldown not finished"),
        (DirectReply::CannotCover, 400, "Not enough BITZ to cover ATA creation"),
    ];
    for (reply, code, body) in replies {
        assert_eq!(reply.reply().status.code(), code);
        assert_eq!(reply.reply().body, body);
    }
}

#[test]
fn confirmation_says_what_can_be_claimed() {
    let asked = confirmation_claim(&receiver().text());
    assert_eq!(asked.asked_miner(), Some(receiver().text()));
    let probing = asked.step(reward(9));
    assert_eq!(probing.asked_account(), Some(receiver_token_account(&receiver())));
    assert_eq!(
        probing.step(ClaimEvent::Account(TokenBalance::Failed)),
        ConfirmationClaim::Answered(ConfirmationReply::Confirmation {
            balance: 9,
            requires_ata_creation: true,
        })
    );
    assert_eq!(
        probing.step(ClaimEvent::Account(TokenBalance::NoAmount)),
        ConfirmationClaim::Answered(ConfirmationReply::Confirmation {
            balance: 9,
            requires_ata_creation: false,
        })
    );
    assert_eq!(
        asked.step(ClaimEvent::Rewards(Err(AppDatabaseError::QueryFailed))),
        ConfirmationClaim::Answered(ConfirmationReply::NoRewards)
    );
    assert_eq!(
        confirmation_claim(""),
        ConfirmationClaim::Answered(ConfirmationReply::InvalidPubkey)
    );
    let reply = ConfirmationReply::NoRewards.refused().unwrap();
    assert_eq!((reply.status.code(), reply.body.as_str()), (500, "Failed to get rewards"));
    let reply = ConfirmationReply::InvalidPubkey.refused().unwrap();
    assert_eq!((reply.status.code(), reply.body.as_str()), (400, "Invalid pubkey"));
    let told = ConfirmationReply::Confirmation { balance: 9, requires_ata_creation: true };
    assert_eq!(told.refused(), None);
}
