//! The requests by which miners claim what they have earned.
//!
//! Each request is answered in steps: a state says what has to be asked before the request can be
//! answered, an event says what came of that.

use crate::authentication::{claim_bytes, is_valid_at};
use crate::bitz_utils::try_receiver_token_account;
use crate::database_error::AppDatabaseError;
use crate::decimal::signed_text;
use crate::pubkey::Pubkey;
use crate::queue::{Claim, ClaimsQueue, ClaimsQueueItem};
use crate::reply::{reply, ContentType, Reply, Status};
use crate::signature::Signature;
use crate::systems::claim_system::{Order, TokenBalance, ACCOUNT_FEE};
use vstd::prelude::*;

verus! {

use crate::authentication::{claim_message, valid_at};
use crate::bitz_utils::receiver_account;
use crate::decimal::decimal;
use crate::onchain::found_at;
use crate::pubkey::{pubkey_of_text, text_of_pubkey};
use crate::reply::{plain, ReplyView};
use crate::signature::{signature_covers, signature_of_text};

/// The least amount that can be claimed.
pub const MIN_CLAIM: u64 = 2_000_000_000;

/// How many seconds have to pass between two claims of a miner.
pub const COOLDOWN_SECONDS: i64 = 1_800;

/// What the database knows of a miner's rewards.
#[derive(Clone, Copy, Debug, PartialEq, Eq, Structural)]
pub struct Reward {
    pub miner_id: i32,
    pub balance: u64,
}

/// Whether a claim at `created_at` is too recent at `now` for another one.
pub open spec fn cooling(created_at: i64, now: i64) -> bool {
    now - created_at <= COOLDOWN_SECONDS
}

fn is_cooling(created_at: i64, now: i64) -> (res: bool)
    ensures
        res == cooling(created_at, now),
{
    now as i128 - created_at as i128 <= COOLDOWN_SECONDS as i128
}

/// What came of what had to be asked.
#[derive(Clone, Copy, Debug, PartialEq, Eq)]
pub enum ClaimEvent {
    /// The miner's rewards.
    Rewards(Result<Reward, AppDatabaseError>),
    /// When the miner last claimed, in seconds since 1970, and what time it is now.
    LastClaim { created_at: Result<i64, AppDatabaseError>, now: i64 },
    /// What the balance of the token account was said to be.
    Account(TokenBalance),
    /// The claim is in the queue.
    Enqueued,
}

/// What a claim that names no amount is answered.
#[derive(Clone, Copy, Debug, PartialEq, Eq, Structural)]
pub enum DirectReply {
    InvalidPubkey,
    MinerNotFound,
    BelowMinimum,
    CoolingDown,
    CannotCover,
    Submitted,
}

impl DirectReply {
    /// The answer that is sent.
    pub open spec fn said(self) -> ReplyView {
        match self {
            DirectReply::InvalidPubkey => plain(Status::BadRequest, "Invalid pubkey"@),
            DirectReply::MinerNotFound => plain(Status::NotFound, "Miner not found"@),
            DirectReply::BelowMinimum => plain(Status::BadRequest, "Minimum claim is 0.05 BITZ"@),
            DirectReply::CoolingDown => plain(Status::TooManyRequests, "Cooldown not finished"@),
            DirectReply::CannotCover => plain(
                Status::BadRequest,
                "Not enough BITZ to cover ATA creation"@,
            ),
            DirectReply::Submitted => plain(Status::Success, "Claim submitted"@),
        }
    }

    /// The answer that is sent.
    pub fn reply(self) -> (res: Reply)
        ensures
            res@ == self.said(),
    {
        let (status, body) = match self {
            DirectReply::InvalidPubkey => (Status::BadRequest, "Invalid pubkey"),
            DirectReply::MinerNotFound => (Status::NotFound, "Miner not found"),
            DirectReply::BelowMinimum => (Status::BadRequest, "Minimum claim is 0.05 BITZ"),
            DirectReply::CoolingDown => (Status::TooManyRequests, "Cooldown not finished"),
            DirectReply::CannotCover => (
                Status::BadRequest,
                "Not enough BITZ to cover ATA creation",
            ),
            DirectReply::Submitted => (Status::Success, "Claim submitted"),
        };
        reply(status, ContentType::Plain, body)
    }
}

/// How far a claim that names no amount has come.
#[derive(Clone, Copy, Debug, PartialEq, Eq)]
pub enum ClaimDirect {
    /// Ask for the rewards of the miner.
    AskRewards { pubkey: Pubkey },
    /// Ask for the last claim of the miner.
    AskLastClaim { pubkey: Pubkey, reward: Reward },
    /// Ask for the balance of the miner's token account.
    AskAccount { pubkey: Pubkey, balance: u64 },
    /// Put the claim into the queue.
    Enqueue { claim: Claim },
    /// Answer.
    Answered(DirectReply),
}

/// The claim of a miner over its whole balance, less the fee for a token account where the
/// balance of that account could not be fetched.
pub open spec fn direct_claim(pubkey: Pubkey, balance: u64, account: TokenBalance) -> Claim {
    Claim {
        miner: pubkey,
        item: ClaimsQueueItem {
            receiver_pubkey: pubkey,
            amount: if account == TokenBalance::Failed {
                (balance - ACCOUNT_FEE) as u64
            } else {
                balance
            },
        },
    }
}

/// A request to claim the whole balance of the miner whose key the text denotes.
pub fn claim_direct(pubkey: &str) -> (res: ClaimDirect)
    ensures
        match pubkey_of_text(pubkey@) {
            Some(key) => res matches ClaimDirect::AskRewards { pubkey: parsed } && parsed@ == key,
            None => res == ClaimDirect::Answered(DirectReply::InvalidPubkey),
        },
{
    match Pubkey::parse(pubkey) {
        Some(pubkey) => ClaimDirect::AskRewards { pubkey },
        None => ClaimDirect::Answered(DirectReply::InvalidPubkey),
    }
}

impl ClaimDirect {
    /// How far the request is after an event. An event that does not answer what was asked changes
    /// nothing.
    pub open spec fn next(self, event: ClaimEvent) -> ClaimDirect {
        match (self, event) {
            (ClaimDirect::AskRewards { pubkey }, ClaimEvent::Rewards(Ok(reward))) => {
                if reward.balance < MIN_CLAIM {
                    ClaimDirect::Answered(DirectReply::BelowMinimum)
                } else {
                    ClaimDirect::AskLastClaim { pubkey, reward }
                }
            },
            (ClaimDirect::AskRewards { pubkey }, ClaimEvent::Rewards(Err(_))) => {
                ClaimDirect::Answered(DirectReply::MinerNotFound)
            },
            (
                ClaimDirect::AskLastClaim { pubkey, reward },
                ClaimEvent::LastClaim { created_at, now },
            ) => if created_at matches Ok(at) && cooling(at, now) {
                ClaimDirect::Answered(DirectReply::CoolingDown)
            } else {
                ClaimDirect::AskAccount { pubkey, balance: reward.balance }
            },
            (ClaimDirect::AskAccount { pubkey, balance }, ClaimEvent::Account(account)) => {
                if account == TokenBalance::Failed && balance < ACCOUNT_FEE {
                    ClaimDirect::Answered(DirectReply::CannotCover)
                } else {
                    ClaimDirect::Enqueue { claim: direct_claim(pubkey, balance, account) }
                }
            },
            (ClaimDirect::Enqueue { claim }, ClaimEvent::Enqueued) => ClaimDirect::Answered(
                DirectReply::Submitted,
            ),
            _ => self,
        }
    }

    /// How far the request is after an event.
    pub fn step(self, event: ClaimEvent) -> (res: ClaimDirect)
        ensures
            res == self.next(event),
    {
        match (self, event) {
            (ClaimDirect::AskRewards { pubkey }, ClaimEvent::Rewards(rewards)) => match rewards {
                Ok(reward) => if reward.balance < MIN_CLAIM {
                    ClaimDirect::Answered(DirectReply::BelowMinimum)
                } else {
                    ClaimDirect::AskLastClaim { pubkey, reward }
                },
                Err(_) => ClaimDirect::Answered(DirectReply::MinerNotFound),
            },
            (
                ClaimDirect::AskLastClaim { pubkey, reward },
                ClaimEvent::LastClaim { created_at, now },
            ) => {
                if let Ok(at) = created_at {
                    if is_cooling(at, now) {
                        return ClaimDirect::Answered(DirectReply::CoolingDown);
                    }
                }
                ClaimDirect::AskAccount { pubkey, balance: reward.balance }
            },
            (ClaimDirect::AskAccount { pubkey, balance }, ClaimEvent::Account(account)) => {
                let mut amount: u64 = balance;
                if account == TokenBalance::Failed {
                    if amount >= ACCOUNT_FEE {
                        amount = amount - ACCOUNT_FEE;
                    } else {
                        return ClaimDirect::Answered(DirectReply::CannotCover);
                    }
                }
                ClaimDirect::Enqueue {
                    claim: Claim {
                        miner: pubkey,
                        item: ClaimsQueueItem { receiver_pubkey: pubkey, amount },
                    },
                }
            },
            (ClaimDirect::Enqueue { claim: _ }, ClaimEvent::Enqueued) => ClaimDirect::Answered(
                DirectReply::Submitted,
            ),
            _ => self,
        }
    }

    /// Puts the claim into the queue, in place of any claim of the miner that waits there. Where
    /// none is to be put there, nothing changes.
    pub fn enqueue(self, queue: &mut ClaimsQueue) -> (res: ClaimDirect)
        requires
            old(queue).wf(),
        ensures
            final(queue).wf(),
            res == self.next(ClaimEvent::Enqueued),
            final(queue)@ == (match self {
                ClaimDirect::Enqueue { claim } => old(queue)@.insert(claim.miner@, claim.item),
                _ => old(queue)@,
            }),
    {
        if let ClaimDirect::Enqueue { claim } = self {
            queue.insert(claim.miner, claim.item);
        }
        self.step(ClaimEvent::Enqueued)
    }

    /// The key under which the rewards are to be asked for, if they are.
    pub fn asked_miner(&self) -> (res: Option<String>)
        ensures
            match (*self, res) {
                (ClaimDirect::AskRewards { pubkey }, Some(text)) => text@ == text_of_pubkey(
                    pubkey@,
                ),
                (ClaimDirect::AskRewards { .. }, None) => false,
                (_, found) => found is None,
            },
    {
        match self {
            ClaimDirect::AskRewards { pubkey } => Some(pubkey.text()),
            _ => None,
        }
    }

    /// The token account whose balance is to be asked for, if it is and the account has an
    /// address.
    pub fn asked_account(&self) -> (res: Option<Pubkey>)
        ensures
            res is Some <==> (self matches ClaimDirect::AskAccount { pubkey, .. }
                && receiver_account(pubkey@) is Some),
            res matches Some(account) ==> (self matches ClaimDirect::AskAccount { pubkey, .. }
                && found_at(receiver_account(pubkey@), account@)),
    {
        match self {
            ClaimDirect::AskAccount { pubkey, balance: _ } => try_receiver_token_account(pubkey),
            _ => None,
        }
    }

    /// How far the request is after a run of events.
    pub open spec fn run(self, events: Seq<ClaimEvent>) -> ClaimDirect
        decreases events.len(),
    {
        if events.len() == 0 {
            self
        } else {
            self.run(events.drop_last()).next(events.last())
        }
    }
}

/// What a signed claim asks for, beside who signed it.
#[derive(Debug, PartialEq, Eq)]
pub struct ClaimParamsV2 {
    pub timestamp: u64,
    pub receiver_pubkey: String,
    pub amount: u64,
}

/// What a signed claim is answered.
#[derive(Clone, Copy, Debug, PartialEq, Eq, Structural)]
pub enum PostClaimReply {
    TimestampTooOld,
    InvalidReceiver,
    InvalidPubkey,
    InvalidSignature,
    NotSigned,
    Queued,
    BelowMinimum,
    NoRewards,
    ExceedsBalance,
    CoolingDown { created_at: i64, now: i64 },
    CannotCover,
    Submitted,
}

impl PostClaimReply {
    /// The answer that is sent.
    pub open spec fn said(self) -> ReplyView {
        match self {
            PostClaimReply::TimestampTooOld => plain(Status::Unauthorized, "Timestamp too old."@),
            PostClaimReply::InvalidReceiver => plain(
                Status::BadRequest,
                "Invalid receiver_pubkey provided."@,
            ),
            PostClaimReply::InvalidPubkey => plain(Status::BadRequest, "Invalid Pubkey"@),
            PostClaimReply::InvalidSignature => plain(Status::Unauthorized, "Invalid signature"@),
            PostClaimReply::NotSigned => plain(Status::Unauthorized, "Sig verification failed"@),
            PostClaimReply::Queued => plain(Status::TooManyRequests, "QUEUED"@),
            PostClaimReply::BelowMinimum => plain(
                Status::BadRequest,
                "claim minimum is 0.05 BITZ"@,
            ),
            PostClaimReply::NoRewards => plain(
                Status::InternalServerError,
                "failed to get miner account from database"@,
            ),
            PostClaimReply::ExceedsBalance => plain(
                Status::BadRequest,
                "claim amount for BITZ exceeds miner rewards balance."@,
            ),
            PostClaimReply::CoolingDown { created_at, now } => plain(
                Status::TooManyRequests,
                decimal(now - created_at),
            ),
            PostClaimReply::CannotCover => plain(
                Status::BadRequest,
                "Not enough BITZ to cover for token account generation. Each new token account requires 0.02 BITZ"@,
            ),
            PostClaimReply::Submitted => plain(Status::Success, "SUCCESS"@),
        }
    }

    /// The answer that is sent.
    pub fn reply(self) -> (res: Reply)
        ensures
            res@ == self.said(),
    {
        let (status, body) = match self {
            PostClaimReply::TimestampTooOld => (Status::Unauthorized, "Timestamp too old."),
            PostClaimReply::InvalidReceiver => (
                Status::BadRequest,
                "Invalid receiver_pubkey provided.",
            ),
            PostClaimReply::InvalidPubkey => (Status::BadRequest, "Invalid Pubkey"),
            PostClaimReply::InvalidSignature => (Status::Unauthorized, "Invalid signature"),
            PostClaimReply::NotSigned => (Status::Unauthorized, "Sig verification failed"),
            PostClaimReply::Queued => (Status::TooManyRequests, "QUEUED"),
            PostClaimReply::BelowMinimum => (Status::BadRequest, "claim minimum is 0.05 BITZ"),
            PostClaimReply::NoRewards => (
                Status::InternalServerError,
                "failed to get miner account from database",
            ),
            PostClaimReply::ExceedsBalance => (
                Status::BadRequest,
                "claim amount for BITZ exceeds miner rewards balance.",
            ),
            PostClaimReply::CoolingDown { created_at, now } => {
                let body = signed_text(now as i128 - created_at as i128);
                return Reply {
                    status: Status::TooManyRequests,
                    content_type: ContentType::Plain,
                    body,
                };
            },
            PostClaimReply::CannotCover => (
                Status::BadRequest,
                "Not enough BITZ to cover for token account generation. Each new token account requires 0.02 BITZ",
            ),
            PostClaimReply::Submitted => (Status::Success, "SUCCESS"),
        };
        reply(status, ContentType::Plain, body)
    }
}

/// How far a signed claim has come.
#[derive(Clone, Copy, Debug, PartialEq, Eq)]
pub enum PostClaim {
    /// Ask for the rewards of the miner.
    AskRewards { claim: Claim },
    /// Ask for the last claim of the miner.
    AskLastClaim { claim: Claim, miner_id: i32 },
    /// Ask for the balance of the receiver's token account.
    AskAccount { claim: Claim },
    /// Put the claim into the queue.
    Enqueue { claim: Claim },
    /// Answer.
    Answered(PostClaimReply),
}

/// Whether the text `password` is a signature by the key `username` over a claim.
pub open spec fn signed_by(
    username: Seq<char>,
    password: Seq<char>,
    timestamp: u64,
    receiver: Seq<char>,
    amount: u64,
) -> bool {
    signature_covers(
        signature_of_text(password)->0,
        pubkey_of_text(username)->0,
        claim_message(timestamp, pubkey_of_text(receiver)->0, amount),
    )
}

/// What a signed claim is refused with before anything has to be asked: the first of these that
/// holds. `None` where none does.
pub open spec fn refused_at_once(
    username: Seq<char>,
    password: Seq<char>,
    timestamp: u64,
    receiver: Seq<char>,
    amount: u64,
    now: u64,
    queue: Map<Seq<u8>, ClaimsQueueItem>,
) -> Option<PostClaimReply> {
    if !valid_at(timestamp, now) {
        Some(PostClaimReply::TimestampTooOld)
    } else if pubkey_of_text(receiver) is None {
        Some(PostClaimReply::InvalidReceiver)
    } else if pubkey_of_text(username) is None {
        Some(PostClaimReply::InvalidPubkey)
    } else if signature_of_text(password) is None {
        Some(PostClaimReply::InvalidSignature)
    } else if !signed_by(username, password, timestamp, receiver, amount) {
        Some(PostClaimReply::NotSigned)
    } else if queue.dom().contains(pubkey_of_text(username)->0) {
        Some(PostClaimReply::Queued)
    } else if amount < MIN_CLAIM {
        Some(PostClaimReply::BelowMinimum)
    } else {
        None
    }
}

/// Whether a claim is the one that a signed request asks for.
pub open spec fn asks_for(
    username: Seq<char>,
    receiver: Seq<char>,
    amount: u64,
    claim: Claim,
) -> bool {
    &&& pubkey_of_text(username) == Some(claim.miner@)
    &&& pubkey_of_text(receiver) == Some(claim.item.receiver_pubkey@)
    &&& claim.item.amount == amount
}

/// A request to claim an amount for a receiver, signed by the miner. `username` and `password`
/// are the miner's key and its signature.
pub fn post_claim_v2(
    username: &str,
    password: &str,
    params: &ClaimParamsV2,
    now: u64,
    queue: &ClaimsQueue,
) -> (res: PostClaim)
    requires
        queue.wf(),
    ensures
        match refused_at_once(
            username@,
            password@,
            params.timestamp,
            params.receiver_pubkey@,
            params.amount,
            now,
            queue@,
        ) {
            Some(refusal) => res == PostClaim::Answered(refusal),
            None => res matches PostClaim::AskRewards { claim } && asks_for(
                username@,
                params.receiver_pubkey@,
                params.amount,
                claim,
            ),
        },
        res matches PostClaim::AskRewards { claim } ==> pubkey_of_text(username@) == Some(
            claim.miner@,
        ) && pubkey_of_text(params.receiver_pubkey@) == Some(claim.item.receiver_pubkey@)
            && claim.item.amount == params.amount,
        res is AskRewards || res is Answered,
{
    if !is_valid_at(params.timestamp, now) {
        return PostClaim::Answered(PostClaimReply::TimestampTooOld);
    }
    let receiver_pubkey = match Pubkey::parse(params.receiver_pubkey.as_str()) {
        Some(key) => key,
        None => {
            return PostClaim::Answered(PostClaimReply::InvalidReceiver);
        },
    };
    let miner = match Pubkey::parse(username) {
        Some(key) => key,
        None => {
            return PostClaim::Answered(PostClaimReply::InvalidPubkey);
        },
    };
    let signature = match Signature::parse(password) {
        Some(signature) => signature,
        None => {
            return PostClaim::Answered(PostClaimReply::InvalidSignature);
        },
    };
    let message = claim_bytes(params.timestamp, &receiver_pubkey, params.amount);
    if !signature.verify(&miner, message.as_slice()) {
        return PostClaim::Answered(PostClaimReply::NotSigned);
    }
    if queue.contains_key(&miner) {
        return PostClaim::Answered(PostClaimReply::Queued);
    }
    if params.amount < MIN_CLAIM {
        return PostClaim::Answered(PostClaimReply::BelowMinimum);
    }
    PostClaim::AskRewards {
        claim: Claim { miner, item: ClaimsQueueItem { receiver_pubkey, amount: params.amount } },
    }
}

impl PostClaim {
    /// How far the request is after an event. An event that does not answer what was asked changes
    /// nothing.
    pub open spec fn next(self, event: ClaimEvent) -> PostClaim {
        match (self, event) {
            (PostClaim::AskRewards { claim }, ClaimEvent::Rewards(Ok(reward))) => {
                if claim.item.amount > reward.balance {
                    PostClaim::Answered(PostClaimReply::ExceedsBalance)
                } else {
                    PostClaim::AskLastClaim { claim, miner_id: reward.miner_id }
                }
            },
            (PostClaim::AskRewards { claim }, ClaimEvent::Rewards(Err(_))) => PostClaim::Answered(
                PostClaimReply::NoRewards,
            ),
            (
                PostClaim::AskLastClaim { claim, miner_id },
                ClaimEvent::LastClaim { created_at, now },
            ) => match created_at {
                Ok(at) => if cooling(at, now) {
                    PostClaim::Answered(PostClaimReply::CoolingDown { created_at: at, now })
                } else {
                    PostClaim::AskAccount { claim }
                },
                Err(_) => PostClaim::AskAccount { claim },
            },
            (PostClaim::AskAccount { claim }, ClaimEvent::Account(account)) => if account
                != TokenBalance::Amount && claim.item.amount < ACCOUNT_FEE {
                PostClaim::Answered(PostClaimReply::CannotCover)
            } else {
                PostClaim::Enqueue { claim }
            },
            (PostClaim::Enqueue { claim }, ClaimEvent::Enqueued) => PostClaim::Answered(
                PostClaimReply::Submitted,
            ),
            _ => self,
        }
    }

    /// How far the request is after an event.
    pub fn step(self, event: ClaimEvent) -> (res: PostClaim)
        ensures
            res == self.next(event),
    {
        match (self, event) {
            (PostClaim::AskRewards { claim }, ClaimEvent::Rewards(rewards)) => match rewards {
                Ok(reward) => if claim.item.amount > reward.balance {
                    PostClaim::Answered(PostClaimReply::ExceedsBalance)
                } else {
                    PostClaim::AskLastClaim { claim, miner_id: reward.miner_id }
                },
                Err(_) => PostClaim::Answered(PostClaimReply::NoRewards),
            },
            (
                PostClaim::AskLastClaim { claim, miner_id: _ },
                ClaimEvent::LastClaim { created_at, now },
            ) => {
                if let Ok(at) = created_at {
                    if is_cooling(at, now) {
                        return PostClaim::Answered(
                            PostClaimReply::CoolingDown { created_at: at, now },
                        );
                    }
                }
                PostClaim::AskAccount { claim }
            },
            (PostClaim::AskAccount { claim }, ClaimEvent::Account(account)) => if account
                != TokenBalance::Amount && claim.item.amount < ACCOUNT_FEE {
                PostClaim::Answered(PostClaimReply::CannotCover)
            } else {
                PostClaim::Enqueue { claim }
            },
            (PostClaim::Enqueue { claim: _ }, ClaimEvent::Enqueued) => PostClaim::Answered(
                PostClaimReply::Submitted,
            ),
            _ => self,
        }
    }

    /// Puts the claim into the queue. Where none is to be put there, nothing changes.
    pub fn enqueue(self, queue: &mut ClaimsQueue) -> (res: PostClaim)
        requires
            old(queue).wf(),
        ensures
            final(queue).wf(),
            res == self.next(ClaimEvent::Enqueued),
            final(queue)@ == (match self {
                PostClaim::Enqueue { claim } => old(queue)@.insert(claim.miner@, claim.item),
                _ => old(queue)@,
            }),
    {
        if let PostClaim::Enqueue { claim } = self {
            queue.insert(claim.miner, claim.item);
        }
        self.step(ClaimEvent::Enqueued)
    }

    /// The key under which the rewards are to be asked for, if they are.
    pub fn asked_miner(&self) -> (res: Option<String>)
        ensures
            match (*self, res) {
                (PostClaim::AskRewards { claim }, Some(text)) => text@ == text_of_pubkey(
                    claim.miner@,
                ),
                (PostClaim::AskRewards { .. }, None) => false,
                (_, found) => found is None,
            },
    {
        match self {
            PostClaim::AskRewards { claim } => Some(claim.miner.text()),
            _ => None,
        }
    }

    /// The token account whose balance is to be asked for, if it is and the account has an
    /// address.
    pub fn asked_account(&self) -> (res: Option<Pubkey>)
        ensures
            res is Some <==> (self matches PostClaim::AskAccount { claim } && receiver_account(
                claim.item.receiver_pubkey@,
            ) is Some),
            res matches Some(account) ==> (self matches PostClaim::AskAccount { claim }
                && found_at(receiver_account(claim.item.receiver_pubkey@), account@)),
    {
        match self {
            PostClaim::AskAccount { claim } => try_receiver_token_account(
                &claim.item.receiver_pubkey,
            ),
            _ => None,
        }
    }

    /// How far the request is after a run of events.
    pub open spec fn run(self, events: Seq<ClaimEvent>) -> PostClaim
        decreases events.len(),
    {
        if events.len() == 0 {
            self
        } else {
            self.run(events.drop_last()).next(events.last())
        }
    }
}

/// What a question about a claim is answered.
#[derive(Clone, Copy, Debug, PartialEq, Eq, Structural)]
pub enum ConfirmationReply {
    InvalidPubkey,
    NoRewards,
    /// What the miner can claim, and whether a token account has to be made for it.
    Confirmation { balance: u64, requires_ata_creation: bool },
}

impl ConfirmationReply {
    /// The answer that is sent where the question is refused.
    pub open spec fn refusal(self) -> Option<ReplyView> {
        match self {
            ConfirmationReply::InvalidPubkey => Some(
                plain(Status::BadRequest, "Invalid pubkey"@),
            ),
            ConfirmationReply::NoRewards => Some(
                plain(Status::InternalServerError, "Failed to get rewards"@),
            ),
            ConfirmationReply::Confirmation { .. } => None,
        }
    }

    /// The answer that is sent where the question is refused.
    pub fn refused(self) -> (res: Option<Reply>)
        ensures
            match res {
                Some(answer) => self.refusal() == Some(answer@),
                None => self.refusal() is None,
            },
    {
        match self {
            ConfirmationReply::InvalidPubkey => Some(
                reply(Status::BadRequest, ContentType::Plain, "Invalid pubkey"),
            ),
            ConfirmationReply::NoRewards => Some(
                reply(Status::InternalServerError, ContentType::Plain, "Failed to get rewards"),
            ),
            ConfirmationReply::Confirmation { balance: _, requires_ata_creation: _ } => None,
        }
    }
}

/// How far a question about a claim has come.
#[derive(Clone, Copy, Debug, PartialEq, Eq)]
pub enum ConfirmationClaim {
    /// Ask for the rewards of the miner.
    AskRewards { pubkey: Pubkey },
    /// Ask for the balance of the miner's token account.
    AskAccount { pubkey: Pubkey, balance: u64 },
    /// Answer.
    Answered(ConfirmationReply),
}

/// A question what the miner whose key the text denotes can claim.
pub fn confirmation_claim(pubkey: &str) -> (res: ConfirmationClaim)
    ensures
        match pubkey_of_text(pubkey@) {
            Some(key) => res matches ConfirmationClaim::AskRewards { pubkey: parsed } && parsed@
                == key,
            None => res == ConfirmationClaim::Answered(ConfirmationReply::InvalidPubkey),
        },
{
    match Pubkey::parse(pubkey) {
        Some(pubkey) => ConfirmationClaim::AskRewards { pubkey },
        None => ConfirmationClaim::Answered(ConfirmationReply::InvalidPubkey),
    }
}

impl ConfirmationClaim {
    /// How far the question is after an event. An event that does not answer what was asked
    /// changes nothing.
    pub open spec fn next(self, event: ClaimEvent) -> ConfirmationClaim {
        match (self, event) {
            (ConfirmationClaim::AskRewards { pubkey }, ClaimEvent::Rewards(Ok(reward))) => {
                ConfirmationClaim::AskAccount { pubkey, balance: reward.balance }
            },
            (ConfirmationClaim::AskRewards { pubkey }, ClaimEvent::Rewards(Err(_))) => {
                ConfirmationClaim::Answered(ConfirmationReply::NoRewards)
            },
            (ConfirmationClaim::AskAccount { pubkey, balance }, ClaimEvent::Account(account)) => {
                ConfirmationClaim::Answered(
                    ConfirmationReply::Confirmation {
                        balance,
                        requires_ata_creation: account == TokenBalance::Failed,
                    },
                )
            },
            _ => self,
        }
    }

    /// How far the question is after an event.
    pub fn step(self, event: ClaimEvent) -> (res: ConfirmationClaim)
        ensures
            res == self.next(event),
    {
        match (self, event) {
            (ConfirmationClaim::AskRewards { pubkey }, ClaimEvent::Rewards(rewards)) => {
                match rewards {
                    Ok(reward) => ConfirmationClaim::AskAccount { pubkey, balance: reward.balance },
                    Err(_) => ConfirmationClaim::Answered(ConfirmationReply::NoRewards),
                }
            },
            (
                ConfirmationClaim::AskAccount { pubkey: _, balance },
                ClaimEvent::Account(account),
            ) => {
                ConfirmationClaim::Answered(
                    ConfirmationReply::Confirmation {
                        balance,
                        requires_ata_creation: account == TokenBalance::Failed,
                    },
                )
            },
            _ => self,
        }
    }

    /// The key under which the rewards are to be asked for, if they are.
    pub fn asked_miner(&self) -> (res: Option<String>)
        ensures
            match (*self, res) {
                (ConfirmationClaim::AskRewards { pubkey }, Some(text)) => text@ == text_of_pubkey(
                    pubkey@,
                ),
                (ConfirmationClaim::AskRewards { .. }, None) => false,
                (_, found) => found is None,
            },
    {
        match self {
            ConfirmationClaim::AskRewards { pubkey } => Some(pubkey.text()),
            _ => None,
        }
    }

    /// The token account whose balance is to be asked for, if it is and the account has an
    /// address.
    pub fn asked_account(&self) -> (res: Option<Pubkey>)
        ensures
            res is Some <==> (self matches ConfirmationClaim::AskAccount { pubkey, .. }
                && receiver_account(pubkey@) is Some),
            res matches Some(account) ==> (self matches ConfirmationClaim::AskAccount { pubkey, .. }
                && found_at(receiver_account(pubkey@), account@)),
    {
        match self {
            ConfirmationClaim::AskAccount { pubkey, balance: _ } => try_receiver_token_account(
                pubkey,
            ),
            _ => None,
        }
    }
}

/// Whether the rewards that were told cover the amount.
pub open spec fn told_enough(events: Seq<ClaimEvent>, amount: u64) -> bool {
    exists|i: int|
        0 <= i < events.len() && ((#[trigger] events[i]) matches ClaimEvent::Rewards(Ok(reward))
            && amount <= reward.balance)
}

/// Whether it was told that no claim of the miner is too recent.
pub open spec fn told_rested(events: Seq<ClaimEvent>) -> bool {
    exists|i: int|
        0 <= i < events.len() && ((#[trigger] events[i]) matches ClaimEvent::LastClaim {
            created_at,
            now,
        } && (created_at matches Ok(at) ==> !cooling(at, now)))
}

/// A signed claim that gets as far as the queue is the claim that was signed for, is covered by
/// the rewards that were told, and comes after the cooldown. And none is refused for not covering
/// a token account.
pub proof fn lemma_signed_claim_was_checked(claim: Claim, events: Seq<ClaimEvent>)
    requires
        claim.item.amount >= MIN_CLAIM,
    ensures
        match (PostClaim::AskRewards { claim }).run(events) {
            PostClaim::AskRewards { claim: asked } => asked == claim,
            PostClaim::AskLastClaim { claim: asked, .. } => asked == claim && told_enough(
                events,
                claim.item.amount,
            ),
            PostClaim::AskAccount { claim: asked } => asked == claim && told_enough(
                events,
                claim.item.amount,
            ) && told_rested(events),
            PostClaim::Enqueue { claim: asked } => asked == claim && told_enough(
                events,
                claim.item.amount,
            ) && told_rested(events),
            PostClaim::Answered(PostClaimReply::Submitted) => told_enough(
                events,
                claim.item.amount,
            ) && told_rested(events),
            PostClaim::Answered(answer) => answer != PostClaimReply::CannotCover,
        },
    decreases events.len(),
{
    if events.len() > 0 {
        let before = events.drop_last();
        let last = events.len() - 1;
        lemma_signed_claim_was_checked(claim, before);
        assert(events[last] == events.last());
        if told_enough(before, claim.item.amount) {
            let i = choose|i: int|
                0 <= i < before.len() && ((#[trigger] before[i]) matches ClaimEvent::Rewards(
                    Ok(reward),
                ) && claim.item.amount <= reward.balance);
            assert(events[i] == before[i]);
        }
        if told_rested(before) {
            let i = choose|i: int|
                0 <= i < before.len() && ((#[trigger] before[i]) matches ClaimEvent::LastClaim {
                    created_at,
                    now,
                } && (created_at matches Ok(at) ==> !cooling(at, now)));
            assert(events[i] == before[i]);
        }
    }
}

/// A signed claim that gets as far as the queue covers the account that may have to be made for
/// it, so the claim system does not drop it for that.
pub proof fn lemma_signed_claim_is_covered(claim: Claim, creating: bool)
    requires
        claim.item.amount >= MIN_CLAIM,
    ensures
        (Order { claim, creating }).covered(),
{
}

/// A claim over the whole balance that gets as far as the queue is for the miner itself, takes no
/// more than the balance that was told, which was no less than the minimum, and comes after the
/// cooldown. And none is refused for not covering a token account.
pub proof fn lemma_direct_claim_was_checked(pubkey: Pubkey, events: Seq<ClaimEvent>)
    ensures
        match (ClaimDirect::AskRewards { pubkey }).run(events) {
            ClaimDirect::AskRewards { pubkey: asked } => asked == pubkey,
            ClaimDirect::AskLastClaim { pubkey: asked, reward } => asked == pubkey && reward.balance
                >= MIN_CLAIM && told_enough(events, reward.balance),
            ClaimDirect::AskAccount { pubkey: asked, balance } => asked == pubkey && balance
                >= MIN_CLAIM && told_enough(events, balance) && told_rested(events),
            ClaimDirect::Enqueue { claim } => claim.miner == pubkey && claim.item.receiver_pubkey
                == pubkey && told_enough(events, MIN_CLAIM) && told_enough(
                events,
                claim.item.amount,
            ) && told_rested(events),
            ClaimDirect::Answered(DirectReply::Submitted) => told_enough(events, MIN_CLAIM)
                && told_rested(events),
            ClaimDirect::Answered(answer) => answer != DirectReply::CannotCover,
        },
    decreases events.len(),
{
    if events.len() > 0 {
        let before = events.drop_last();
        let last = events.len() - 1;
        lemma_direct_claim_was_checked(pubkey, before);
        assert(events[last] == events.last());
        assert forall|amount: u64| told_enough(before, amount) implies #[trigger] told_enough(
            events,
            amount,
        ) by {
            let i = choose|i: int|
                0 <= i < before.len() && ((#[trigger] before[i]) matches ClaimEvent::Rewards(
                    Ok(reward),
                ) && amount <= reward.balance);
            assert(events[i] == before[i]);
        }
        assert forall|amount: u64, less: u64|
            #![trigger told_enough(events, amount), told_enough(events, less)]
            told_enough(events, amount) && less <= amount implies told_enough(events, less) by {
            let i = choose|i: int|
                0 <= i < events.len() && ((#[trigger] events[i]) matches ClaimEvent::Rewards(
                    Ok(reward),
                ) && amount <= reward.balance);
            assert(events[i] is Rewards);
        }
        if told_rested(before) {
            let i = choose|i: int|
                0 <= i < before.len() && ((#[trigger] before[i]) matches ClaimEvent::LastClaim {
                    created_at,
                    now,
                } && (created_at matches Ok(at) ==> !cooling(at, now)));
            assert(events[i] == before[i]);
        }
        if let ClaimDirect::AskAccount { pubkey: _, balance } = (ClaimDirect::AskRewards {
            pubkey,
        }).run(before) {
            assert(told_enough(events, balance));
        }
    }
}

/// What a signed claim comes to, for each answer to each question: it is queued in exactly one
/// case, and refused with the first reason that holds in the others.
pub proof fn lemma_signed_claim_outcome(
    claim: Claim,
    rewards: Result<Reward, AppDatabaseError>,
    created_at: Result<i64, AppDatabaseError>,
    now: i64,
    account: TokenBalance,
)
    requires
        claim.item.amount >= MIN_CLAIM,
    ensures
        ({
            let events = seq![
                ClaimEvent::Rewards(rewards),
                ClaimEvent::LastClaim { created_at, now },
                ClaimEvent::Account(account),
            ];
            (PostClaim::AskRewards { claim }).run(events) == (if rewards is Err {
                PostClaim::Answered(PostClaimReply::NoRewards)
            } else if claim.item.amount > rewards->Ok_0.balance {
                PostClaim::Answered(PostClaimReply::ExceedsBalance)
            } else if created_at is Ok && now - created_at->Ok_0 <= 1_800 {
                PostClaim::Answered(
                    PostClaimReply::CoolingDown { created_at: created_at->Ok_0, now },
                )
            } else {
                PostClaim::Enqueue { claim }
            })
        }),
{
    let first = ClaimEvent::Rewards(rewards);
    let second = ClaimEvent::LastClaim { created_at, now };
    let third = ClaimEvent::Account(account);
    let start = PostClaim::AskRewards { claim };
    assert(seq![first, second, third].drop_last() =~= seq![first, second]);
    assert(seq![first, second].drop_last() =~= seq![first]);
    assert(seq![first].drop_last() =~= Seq::<ClaimEvent>::empty());
    reveal_with_fuel(PostClaim::run, 4);
    assert(start.run(Seq::<ClaimEvent>::empty()) == start);
    assert(start.run(seq![first]) == start.next(first));
    assert(start.run(seq![first, second]) == start.next(first).next(second));
}

/// What a claim over the whole balance comes to, for each answer to each question.
pub proof fn lemma_direct_claim_outcome(
    pubkey: Pubkey,
    rewards: Result<Reward, AppDatabaseError>,
    created_at: Result<i64, AppDatabaseError>,
    now: i64,
    account: TokenBalance,
)
    ensures
        ({
            let events = seq![
                ClaimEvent::Rewards(rewards),
                ClaimEvent::LastClaim { created_at, now },
                ClaimEvent::Account(account),
            ];
            (ClaimDirect::AskRewards { pubkey }).run(events) == (if rewards is Err {
                ClaimDirect::Answered(DirectReply::MinerNotFound)
            } else if rewards->Ok_0.balance < 2_000_000_000 {
                ClaimDirect::Answered(DirectReply::BelowMinimum)
            } else if created_at is Ok && now - created_at->Ok_0 <= 1_800 {
                ClaimDirect::Answered(DirectReply::CoolingDown)
            } else {
                ClaimDirect::Enqueue {
                    claim: direct_claim(pubkey, rewards->Ok_0.balance, account),
                }
            })
        }),
{
    let first = ClaimEvent::Rewards(rewards);
    let second = ClaimEvent::LastClaim { created_at, now };
    let third = ClaimEvent::Account(account);
    let start = ClaimDirect::AskRewards { pubkey };
    assert(seq![first, second, third].drop_last() =~= seq![first, second]);
    assert(seq![first, second].drop_last() =~= seq![first]);
    assert(seq![first].drop_last() =~= Seq::<ClaimEvent>::empty());
    reveal_with_fuel(ClaimDirect::run, 4);
    assert(start.run(Seq::<ClaimEvent>::empty()) == start);
    assert(start.run(seq![first]) == start.next(first));
    assert(start.run(seq![first, second]) == start.next(first).next(second));
}

/// The fee for a token account that is missing is taken from a claim over the whole balance when
/// the claim is queued, and once more when it is paid: such a claim pays out the balance less two
/// fees, and is dropped where the balance is less than that.
pub proof fn lemma_direct_claim_pays_two_fees(pubkey: Pubkey, balance: u64)
    requires
        balance >= MIN_CLAIM,
    ensures
        ({
            let order = Order {
                claim: direct_claim(pubkey, balance, TokenBalance::Failed),
                creating: true,
            };
            &&& order.claim.item.amount == balance - ACCOUNT_FEE
            &&& order.covered() <==> balance >= 2 * ACCOUNT_FEE
            &&& order.covered() ==> order.paid() == balance - 2 * ACCOUNT_FEE
        }),
{
}

/// While a miner waits in the queue, every signed claim by it is refused, whatever else it says.
pub proof fn lemma_one_claim_at_a_time(
    username: Seq<char>,
    password: Seq<char>,
    timestamp: u64,
    receiver: Seq<char>,
    amount: u64,
    now: u64,
    queue: Map<Seq<u8>, ClaimsQueueItem>,
    waiting: Claim,
)
    requires
        pubkey_of_text(username) == Some(waiting.miner@),
    ensures
        refused_at_once(
            username,
            password,
            timestamp,
            receiver,
            amount,
            now,
            queue.insert(waiting.miner@, waiting.item),
        ) is Some,
{
}

/// Once a miner no longer waits in the queue, no signed claim by it is refused for waiting there.
pub proof fn lemma_can_claim_again(
    username: Seq<char>,
    password: Seq<char>,
    timestamp: u64,
    receiver: Seq<char>,
    amount: u64,
    now: u64,
    queue: Map<Seq<u8>, ClaimsQueueItem>,
    miner: Pubkey,
)
    requires
        pubkey_of_text(username) == Some(miner@),
    ensures
        refused_at_once(
            username,
            password,
            timestamp,
            receiver,
            amount,
            now,
            queue.remove(miner@),
        ) != Some(PostClaimReply::Queued),
{
}

/// A signed claim that is not refused at once is signed by the miner over the very receiver and
/// amount that are queued, at a time less than thirty seconds ago.
pub proof fn lemma_only_signed_claims(
    username: Seq<char>,
    password: Seq<char>,
    timestamp: u64,
    receiver: Seq<char>,
    amount: u64,
    now: u64,
    queue: Map<Seq<u8>, ClaimsQueueItem>,
    claim: Claim,
)
    requires
        refused_at_once(username, password, timestamp, receiver, amount, now, queue) is None,
        asks_for(username, receiver, amount, claim),
    ensures
        signature_of_text(password) matches Some(signature) && signature_covers(
            signature,
            claim.miner@,
            claim_message(timestamp, claim.item.receiver_pubkey@, claim.item.amount),
        ),
        timestamp <= now < timestamp + 30,
        claim.item.amount >= MIN_CLAIM,
        !queue.dom().contains(claim.miner@),
{
}

/// A signed claim is let through exactly if nothing is wrong with it: it was signed no more than 29
/// seconds ago and not in the future, the receiver, the miner and the signature are well written,
/// the signature is the miner's over the time, the receiver and the amount, the miner does not
/// wait, and the amount is not below the minimum. Who the miner and the receiver are, and whether
/// they are the same, does not matter.
pub proof fn lemma_admission(
    username: Seq<char>,
    password: Seq<char>,
    timestamp: u64,
    receiver: Seq<char>,
    amount: u64,
    now: u64,
    queue: Map<Seq<u8>, ClaimsQueueItem>,
)
    ensures
        refused_at_once(username, password, timestamp, receiver, amount, now, queue) is None <==> {
            &&& 0 <= now - timestamp <= 29
            &&& pubkey_of_text(receiver) matches Some(to)
            &&& pubkey_of_text(username) matches Some(miner)
            &&& signature_of_text(password) matches Some(signature)
            &&& signature_covers(
                signature,
                miner,
                vstd::bytes::spec_u64_to_le_bytes(timestamp) + to
                    + vstd::bytes::spec_u64_to_le_bytes(amount),
            )
            &&& !queue.dom().contains(miner)
            &&& amount >= 2_000_000_000
        },
{
}

/// Each refusal of a signed claim has its own reason, and comes where that reason holds and none of
/// those before it does.
pub proof fn lemma_refusals_have_reasons(
    username: Seq<char>,
    password: Seq<char>,
    timestamp: u64,
    receiver: Seq<char>,
    amount: u64,
    now: u64,
    queue: Map<Seq<u8>, ClaimsQueueItem>,
)
    ensures
        ({
            let refusal = refused_at_once(
                username,
                password,
                timestamp,
                receiver,
                amount,
                now,
                queue,
            );
            let timely = 0 <= now - timestamp <= 29;
            let written = pubkey_of_text(receiver) is Some && pubkey_of_text(username) is Some;
            let readable = written && signature_of_text(password) is Some;
            let miner = pubkey_of_text(username).unwrap();
            let message = vstd::bytes::spec_u64_to_le_bytes(timestamp) + pubkey_of_text(
                receiver,
            ).unwrap() + vstd::bytes::spec_u64_to_le_bytes(amount);
            let genuine = signature_covers(signature_of_text(password).unwrap(), miner, message);
            let waits = queue.dom().contains(miner);
            &&& refusal == Some(PostClaimReply::TimestampTooOld) <==> !timely
            &&& refusal == Some(PostClaimReply::InvalidReceiver) <==> timely && pubkey_of_text(
                receiver,
            ) is None
            &&& refusal == Some(PostClaimReply::InvalidPubkey) <==> timely && pubkey_of_text(
                receiver,
            ) is Some && pubkey_of_text(username) is None
            &&& refusal == Some(PostClaimReply::InvalidSignature) <==> timely && written
                && signature_of_text(password) is None
            &&& refusal == Some(PostClaimReply::NotSigned) <==> timely && readable && !genuine
            &&& refusal == Some(PostClaimReply::Queued) <==> timely && readable && genuine && waits
            &&& refusal == Some(PostClaimReply::BelowMinimum) <==> timely && readable && genuine
                && !waits && amount < 2_000_000_000
        }),
{
}

/// A claim over the whole balance is for the whole balance: unless the balance of the miner's token
/// account could not be fetched, what is queued is the balance that was told, to the last unit; and
/// two billion less than that where it could not. It is the miner that waits, and the miner that is
/// paid.
pub proof fn lemma_direct_claim_is_for_all(pubkey: Pubkey, balance: u64, account: TokenBalance)
    requires
        balance >= 2_000_000_000,
    ensures
        ({
            let asked = ClaimDirect::AskAccount { pubkey, balance };
            asked.next(ClaimEvent::Account(account)) matches ClaimDirect::Enqueue { claim }
                && claim.miner == pubkey && claim.item.receiver_pubkey == pubkey
                && claim.item.amount + (if account == TokenBalance::Failed {
                2_000_000_000int
            } else {
                0int
            }) == balance
        }),
{
}

/// A claim over the whole balance, from the key to the queue: a miner that was told a balance of at
/// least the minimum and that has not claimed in the last half hour has all of it queued.
pub proof fn lemma_direct_claim_goes_through(
    pubkey: Pubkey,
    reward: Reward,
    created_at: Result<i64, AppDatabaseError>,
    now: i64,
    account: TokenBalance,
)
    requires
        reward.balance >= 2_000_000_000,
        created_at matches Ok(then) ==> now - then > 1_800,
    ensures
        ({
            let queued = (ClaimDirect::AskRewards { pubkey }).next(
                ClaimEvent::Rewards(Ok(reward)),
            ).next(ClaimEvent::LastClaim { created_at, now }).next(ClaimEvent::Account(account));
            &&& queued matches ClaimDirect::Enqueue { claim } && claim.miner == pubkey
                && claim.item.receiver_pubkey == pubkey && (account != TokenBalance::Failed
                ==> claim.item.amount == reward.balance) && (account == TokenBalance::Failed
                ==> claim.item.amount == reward.balance - 2_000_000_000)
            &&& queued.next(ClaimEvent::Enqueued) == ClaimDirect::Answered(DirectReply::Submitted)
        }),
{
}

/// A claim over the whole balance is refused for three reasons only: the miner's rewards were not
/// told, they are below the minimum, or the miner has claimed in the last half hour.
pub proof fn lemma_direct_claim_refusals(
    pubkey: Pubkey,
    rewards: Result<Reward, AppDatabaseError>,
    reward: Reward,
    created_at: Result<i64, AppDatabaseError>,
    now: i64,
)
    ensures
        ({
            let told = (ClaimDirect::AskRewards { pubkey }).next(ClaimEvent::Rewards(rewards));
            let asked = (ClaimDirect::AskLastClaim { pubkey, reward }).next(
                ClaimEvent::LastClaim { created_at, now },
            );
            &&& told == ClaimDirect::Answered(DirectReply::MinerNotFound) <==> rewards is Err
            &&& told == ClaimDirect::Answered(DirectReply::BelowMinimum) <==> (rewards matches Ok(
                known,
            ) && known.balance < 2_000_000_000)
            &&& (rewards matches Ok(known) && known.balance >= 2_000_000_000) ==> told == (
            ClaimDirect::AskLastClaim { pubkey, reward: rewards->Ok_0 })
            &&& asked == ClaimDirect::Answered(DirectReply::CoolingDown) <==> (created_at matches Ok(
                then,
            ) && now - then <= 1_800)
            &&& !(created_at matches Ok(then) && now - then <= 1_800) ==> asked == (
            ClaimDirect::AskAccount { pubkey, balance: reward.balance })
        }),
{
}

/// A signed claim that was let through and that the miner's rewards cover is queued as it was
/// signed, whatever is known of the token account, if the miner has not claimed in the last half
/// hour: nothing is taken from it.
pub proof fn lemma_signed_claim_goes_through(
    claim: Claim,
    reward: Reward,
    created_at: Result<i64, AppDatabaseError>,
    now: i64,
    account: TokenBalance,
)
    requires
        claim.item.amount >= 2_000_000_000,
        reward.balance >= claim.item.amount,
        created_at matches Ok(then) ==> now - then > 1_800,
    ensures
        ({
            let told = (PostClaim::AskRewards { claim }).next(ClaimEvent::Rewards(Ok(reward)));
            let rested = told.next(ClaimEvent::LastClaim { created_at, now });
            let queued = rested.next(ClaimEvent::Account(account));
            &&& told == (PostClaim::AskLastClaim { claim, miner_id: reward.miner_id })
            &&& rested == (PostClaim::AskAccount { claim })
            &&& queued == (PostClaim::Enqueue { claim })
            &&& queued.next(ClaimEvent::Enqueued) == PostClaim::Answered(PostClaimReply::Submitted)
        }),
{
}

/// A signed claim that was let through is refused for three reasons only: the miner's rewards were
/// not told, they do not cover it, or the miner has claimed in the last half hour; then it is told
/// how many seconds ago that was.
pub proof fn lemma_signed_claim_refusals(
    claim: Claim,
    miner_id: i32,
    rewards: Result<Reward, AppDatabaseError>,
    created_at: Result<i64, AppDatabaseError>,
    now: i64,
)
    ensures
        ({
            let told = (PostClaim::AskRewards { claim }).next(ClaimEvent::Rewards(rewards));
            let asked = (PostClaim::AskLastClaim { claim, miner_id }).next(
                ClaimEvent::LastClaim { created_at, now },
            );
            &&& told == PostClaim::Answered(PostClaimReply::NoRewards) <==> rewards is Err
            &&& told == PostClaim::Answered(PostClaimReply::ExceedsBalance) <==> (rewards matches Ok(
                known,
            ) && known.balance < claim.item.amount)
            &&& asked is Answered <==> (created_at matches Ok(then) && now - then <= 1_800)
            &&& asked is Answered ==> (asked matches PostClaim::Answered(answer) && answer.said()
                == plain(Status::TooManyRequests, decimal(now - created_at->Ok_0)))
        }),
{
}

/// What a miner is told before it claims: the balance as it is known, and that a token account has
/// to be made exactly where the balance of that account could not be fetched.
pub proof fn lemma_confirmation_tells(
    pubkey: Pubkey,
    reward: Reward,
    error: AppDatabaseError,
    account: TokenBalance,
)
    ensures
        ({
            let asked = ConfirmationClaim::AskRewards { pubkey };
            let known = asked.next(ClaimEvent::Rewards(Ok(reward)));
            &&& asked.next(ClaimEvent::Rewards(Err(error))) == ConfirmationClaim::Answered(
                ConfirmationReply::NoRewards,
            )
            &&& known == (ConfirmationClaim::AskAccount { pubkey, balance: reward.balance })
            &&& known.next(ClaimEvent::Account(account)) matches ConfirmationClaim::Answered(
                ConfirmationReply::Confirmation { balance, requires_ata_creation },
            ) && balance == reward.balance && (requires_ata_creation <==> account is Failed)
        }),
{
}

/// Whether an event is of the kind that a claim over the whole balance waits for.
pub open spec fn answers_direct(state: ClaimDirect, event: ClaimEvent) -> bool {
    ||| state is AskRewards && event is Rewards
    ||| state is AskLastClaim && event is LastClaim
    ||| state is AskAccount && event is Account
    ||| state is Enqueue && event is Enqueued
}

/// Whether an event is of the kind that a signed claim waits for.
pub open spec fn answers_signed(state: PostClaim, event: ClaimEvent) -> bool {
    ||| state is AskRewards && event is Rewards
    ||| state is AskLastClaim && event is LastClaim
    ||| state is AskAccount && event is Account
    ||| state is Enqueue && event is Enqueued
}

/// Whether an event is of the kind that a question about a claim waits for.
pub open spec fn answers_confirmation(state: ConfirmationClaim, event: ClaimEvent) -> bool {
    ||| state is AskRewards && event is Rewards
    ||| state is AskAccount && event is Account
}

/// An event that nothing was asked for changes nothing; so nothing changes once there is an answer.
pub proof fn lemma_only_asked_events_count(
    direct: ClaimDirect,
    signed: PostClaim,
    confirmation: ConfirmationClaim,
    event: ClaimEvent,
)
    ensures
        !answers_direct(direct, event) ==> direct.next(event) == direct,
        !answers_signed(signed, event) ==> signed.next(event) == signed,
        !answers_confirmation(confirmation, event) ==> confirmation.next(event) == confirmation,
{
}

} // verus!
