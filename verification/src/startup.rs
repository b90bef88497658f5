//! What has to be in place before the server takes requests.
//!
//! The start alternates between requests to the chain, requests to the database and pauses. Each
//! state says what is to be done next and how long to pause before that; each event says what came
//! of it.

use crate::accounts::Proof;
use crate::bitz_utils::try_proof_pubkey;
use crate::database_error::AppDatabaseError;
use crate::pubkey::Pubkey;
use vstd::prelude::*;

verus! {

use crate::onchain::{at, proof_account};
use crate::pubkey::text_of_pubkey;

/// The balance that the wallet has to have at least, in lamports.
pub const MIN_BALANCE: u64 = 100_000;

/// The pause before the first blockhash is asked for again, in milliseconds.
pub const BLOCKHASH_RETRY_MILLIS: u64 = 2_000_000;

/// The settings of the server, but for the fee that a sign-up costs.
#[derive(Debug, PartialEq, Eq)]
pub struct Config {
    pub password: String,
    pub pool_id: i32,
    pub stats_enabled: bool,
    pub commissions_pubkey: String,
    pub commissions_miner_id: i32,
    pub commission_amount: i32,
}

/// The address of the second server: the one that was given, or the first where none was.
pub fn second_rpc_url(first: String, second: Option<String>) -> (res: String)
    ensures
        res == (match second {
            Some(url) => url,
            None => first,
        }),
{
    match second {
        Some(url) => url,
        None => first,
    }
}

/// Why the server does not start.
#[derive(Clone, Copy, Debug, PartialEq, Eq, Structural)]
pub enum StartupFailure {
    NoBalance,
    BalanceTooLow,
    NoProof,
    NoConnection,
    PoolNotCreated,
    ReceiverNotFound,
    ReceiverNotCreated,
    PoolNotFound,
    ChallengeNotCreated,
}

impl StartupFailure {
    /// Whether the failure is returned as an error; the program panics on the others.
    pub open spec fn is_error(self) -> bool {
        self is NoBalance || self is BalanceTooLow
    }

    /// What is said of the failure.
    pub open spec fn words(self) -> Seq<char> {
        match self {
            StartupFailure::NoBalance => "Failed to load balance"@,
            StartupFailure::BalanceTooLow => "Sol balance is too low!"@,
            StartupFailure::NoProof => "Failed to load proof."@,
            StartupFailure::NoConnection => "Failed to get database pool connection"@,
            StartupFailure::PoolNotCreated => "Failed to create pool in database"@,
            StartupFailure::ReceiverNotFound => "Failed to get commission miner id"@,
            StartupFailure::ReceiverNotCreated => {
                "Failed to insert comissions receiver account"@
            },
            StartupFailure::PoolNotFound => "called `Result::unwrap()` on an `Err` value"@,
            StartupFailure::ChallengeNotCreated => "Failed to create challenge in database"@,
        }
    }

    /// Whether the failure is returned as an error; the program panics on the others.
    pub fn returned(self) -> (res: bool)
        ensures
            res == self.is_error(),
    {
        match self {
            StartupFailure::NoBalance => true,
            StartupFailure::BalanceTooLow => true,
            _ => false,
        }
    }

    /// What is said of the failure.
    pub fn text(self) -> (res: &'static str)
        ensures
            res@ == self.words(),
    {
        match self {
            StartupFailure::NoBalance => "Failed to load balance",
            StartupFailure::BalanceTooLow => "Sol balance is too low!",
            StartupFailure::NoProof => "Failed to load proof.",
            StartupFailure::NoConnection => "Failed to get database pool connection",
            StartupFailure::PoolNotCreated => "Failed to create pool in database",
            StartupFailure::ReceiverNotFound => "Failed to get commission miner id",
            StartupFailure::ReceiverNotCreated => "Failed to insert comissions receiver account",
            StartupFailure::PoolNotFound => "called `Result::unwrap()` on an `Err` value",
            StartupFailure::ChallengeNotCreated => "Failed to create challenge in database",
        }
    }
}

/// What is to be done next. The proof of the pool is carried along once it is known, and so are
/// the numbers of the pool and of the miner that receives the commissions.
#[derive(Clone, Copy, Debug, PartialEq, Eq)]
pub enum StartupStage {
    /// Fetch the latest blockhash.
    Blockhash,
    /// Fetch the balance of the wallet.
    Balance,
    /// Fetch the proof of the wallet.
    Proof,
    /// Look the pool up.
    FindPool { proof: Proof },
    /// Create the pool.
    AddPool { proof: Proof },
    /// Look the receiver of the commissions up.
    FindReceiver { proof: Proof },
    /// Sign the receiver of the commissions up.
    SignUpReceiver { proof: Proof },
    /// Look the receiver of the commissions up once more.
    FindReceiverAgain { proof: Proof },
    /// Look the number of the pool up.
    FindPoolId { proof: Proof, receiver_id: i32 },
    /// Look the current challenge up.
    FindChallenge { proof: Proof, receiver_id: i32, pool_id: i32 },
    /// Create the current challenge.
    AddChallenge { proof: Proof, receiver_id: i32, pool_id: i32 },
    /// Take requests.
    Ready { proof: Proof, receiver_id: i32, pool_id: i32 },
    /// Give up.
    Failed(StartupFailure),
}

/// What came of what was to be done.
#[derive(Clone, Copy, Debug, PartialEq, Eq)]
pub enum StartupEvent {
    /// Whether the blockhash came.
    Blockhash(bool),
    /// The balance of the wallet, if it came.
    Balance(Option<u64>),
    /// The proof of the wallet, if it came.
    Proof(Result<Proof, ()>),
    /// The number of the pool.
    Pool(Result<i32, AppDatabaseError>),
    /// The number of the miner that receives the commissions.
    Receiver(Result<i32, AppDatabaseError>),
    /// Whether the current challenge is known.
    Challenge(Result<(), AppDatabaseError>),
    /// Whether something was created.
    Created(bool),
}

/// A state of the start: pause for `wait_millis` milliseconds, then do what `stage` says.
#[derive(Clone, Copy, Debug, PartialEq, Eq)]
pub struct Startup {
    pub wait_millis: u64,
    pub stage: StartupStage,
}

/// A challenge that is to be created.
#[derive(Debug, PartialEq, Eq)]
pub struct InsertChallenge {
    pub pool_id: i32,
    pub challenge: Vec<u8>,
    pub rewards_earned: Option<u64>,
}

/// A pool that is to be created: the keys of its authority and of its proof account, as texts.
#[derive(Debug, PartialEq, Eq)]
pub struct NewPool {
    pub authority: String,
    pub proof: String,
}

/// The pool of a wallet, if the wallet has a proof account.
pub fn new_pool(wallet: Pubkey) -> (res: Option<NewPool>)
    ensures
        res is Some <==> proof_account(wallet@) is Some,
        res matches Some(pool) ==> pool.authority@ == text_of_pubkey(wallet@) && pool.proof@
            == text_of_pubkey(at(proof_account(wallet@))),
{
    match try_proof_pubkey(wallet) {
        Some(proof) => Some(NewPool { authority: wallet.text(), proof: proof.text() }),
        None => None,
    }
}

/// The state in which the server starts.
pub fn startup() -> (res: Startup)
    ensures
        res.wait_millis == 0,
        res.stage is Blockhash,
{
    Startup { wait_millis: 0, stage: StartupStage::Blockhash }
}

impl StartupStage {
    /// What is to be done after an event. An event that does not answer what was to be done changes
    /// nothing.
    pub open spec fn next(self, event: StartupEvent) -> StartupStage {
        match (self, event) {
            (StartupStage::Blockhash, StartupEvent::Blockhash(came)) => if came {
                StartupStage::Balance
            } else {
                self
            },
            (StartupStage::Balance, StartupEvent::Balance(balance)) => match balance {
                Some(lamports) => if lamports < MIN_BALANCE {
                    StartupStage::Failed(StartupFailure::BalanceTooLow)
                } else {
                    StartupStage::Proof
                },
                None => StartupStage::Failed(StartupFailure::NoBalance),
            },
            (StartupStage::Proof, StartupEvent::Proof(found)) => match found {
                Ok(proof) => StartupStage::FindPool { proof },
                Err(_) => StartupStage::Failed(StartupFailure::NoProof),
            },
            (StartupStage::FindPool { proof }, StartupEvent::Pool(found)) => match found {
                Ok(_) => StartupStage::FindReceiver { proof },
                Err(AppDatabaseError::FailedToGetConnectionFromPool) => StartupStage::Failed(
                    StartupFailure::NoConnection,
                ),
                Err(_) => StartupStage::AddPool { proof },
            },
            (StartupStage::AddPool { proof }, StartupEvent::Created(done)) => if done {
                StartupStage::FindReceiver { proof }
            } else {
                StartupStage::Failed(StartupFailure::PoolNotCreated)
            },
            (StartupStage::FindReceiver { proof }, StartupEvent::Receiver(found)) => match found {
                Ok(receiver_id) => StartupStage::FindPoolId { proof, receiver_id },
                Err(_) => StartupStage::SignUpReceiver { proof },
            },
            (StartupStage::SignUpReceiver { proof }, StartupEvent::Created(done)) => if done {
                StartupStage::FindReceiverAgain { proof }
            } else {
                StartupStage::Failed(StartupFailure::ReceiverNotCreated)
            },
            (StartupStage::FindReceiverAgain { proof }, StartupEvent::Receiver(found)) => {
                match found {
                    Ok(receiver_id) => StartupStage::FindPoolId { proof, receiver_id },
                    Err(_) => StartupStage::Failed(StartupFailure::ReceiverNotFound),
                }
            },
            (StartupStage::FindPoolId { proof, receiver_id }, StartupEvent::Pool(found)) => {
                match found {
                    Ok(pool_id) => StartupStage::FindChallenge { proof, receiver_id, pool_id },
                    Err(_) => StartupStage::Failed(StartupFailure::PoolNotFound),
                }
            },
            (
                StartupStage::FindChallenge { proof, receiver_id, pool_id },
                StartupEvent::Challenge(found),
            ) => match found {
                Ok(_) => StartupStage::Ready { proof, receiver_id, pool_id },
                Err(AppDatabaseError::FailedToGetConnectionFromPool) => StartupStage::Failed(
                    StartupFailure::NoConnection,
                ),
                Err(_) => StartupStage::AddChallenge { proof, receiver_id, pool_id },
            },
            (
                StartupStage::AddChallenge { proof, receiver_id, pool_id },
                StartupEvent::Created(done),
            ) => if done {
                StartupStage::Ready { proof, receiver_id, pool_id }
            } else {
                StartupStage::Failed(StartupFailure::ChallengeNotCreated)
            },
            _ => self,
        }
    }

    /// What is to be done after a run of events.
    pub open spec fn run(events: Seq<StartupEvent>) -> StartupStage
        decreases events.len(),
    {
        if events.len() == 0 {
            StartupStage::Blockhash
        } else {
            StartupStage::run(events.drop_last()).next(events.last())
        }
    }
}

impl Startup {
    /// The state after an event. There is a pause only before the blockhash is asked for again.
    pub fn step(self, event: StartupEvent) -> (res: Startup)
        ensures
            res.stage == self.stage.next(event),
            res.wait_millis == (if self.stage is Blockhash && event == StartupEvent::Blockhash(
                false,
            ) {
                BLOCKHASH_RETRY_MILLIS
            } else {
                0
            }),
    {
        let mut wait_millis: u64 = 0;
        let stage = match (self.stage, event) {
            (StartupStage::Blockhash, StartupEvent::Blockhash(came)) => if came {
                StartupStage::Balance
            } else {
                wait_millis = BLOCKHASH_RETRY_MILLIS;
                StartupStage::Blockhash
            },
            (StartupStage::Balance, StartupEvent::Balance(balance)) => match balance {
                Some(lamports) => if lamports < MIN_BALANCE {
                    StartupStage::Failed(StartupFailure::BalanceTooLow)
                } else {
                    StartupStage::Proof
                },
                None => StartupStage::Failed(StartupFailure::NoBalance),
            },
            (StartupStage::Proof, StartupEvent::Proof(found)) => match found {
                Ok(proof) => StartupStage::FindPool { proof },
                Err(_) => StartupStage::Failed(StartupFailure::NoProof),
            },
            (StartupStage::FindPool { proof }, StartupEvent::Pool(found)) => match found {
                Ok(_) => StartupStage::FindReceiver { proof },
                Err(AppDatabaseError::FailedToGetConnectionFromPool) => StartupStage::Failed(
                    StartupFailure::NoConnection,
                ),
                Err(_) => StartupStage::AddPool { proof },
            },
            (StartupStage::AddPool { proof }, StartupEvent::Created(done)) => if done {
                StartupStage::FindReceiver { proof }
            } else {
                StartupStage::Failed(StartupFailure::PoolNotCreated)
            },
            (StartupStage::FindReceiver { proof }, StartupEvent::Receiver(found)) => match found {
                Ok(receiver_id) => StartupStage::FindPoolId { proof, receiver_id },
                Err(_) => StartupStage::SignUpReceiver { proof },
            },
            (StartupStage::SignUpReceiver { proof }, StartupEvent::Created(done)) => if done {
                StartupStage::FindReceiverAgain { proof }
            } else {
                StartupStage::Failed(StartupFailure::ReceiverNotCreated)
            },
            (StartupStage::FindReceiverAgain { proof }, StartupEvent::Receiver(found)) => {
                match found {
                    Ok(receiver_id) => StartupStage::FindPoolId { proof, receiver_id },
                    Err(_) => StartupStage::Failed(StartupFailure::ReceiverNotFound),
                }
            },
            (StartupStage::FindPoolId { proof, receiver_id }, StartupEvent::Pool(found)) => {
                match found {
                    Ok(pool_id) => StartupStage::FindChallenge { proof, receiver_id, pool_id },
                    Err(_) => StartupStage::Failed(StartupFailure::PoolNotFound),
                }
            },
            (
                StartupStage::FindChallenge { proof, receiver_id, pool_id },
                StartupEvent::Challenge(found),
            ) => match found {
                Ok(_) => StartupStage::Ready { proof, receiver_id, pool_id },
                Err(AppDatabaseError::FailedToGetConnectionFromPool) => StartupStage::Failed(
                    StartupFailure::NoConnection,
                ),
                Err(_) => StartupStage::AddChallenge { proof, receiver_id, pool_id },
            },
            (
                StartupStage::AddChallenge { proof, receiver_id, pool_id },
                StartupEvent::Created(done),
            ) => if done {
                StartupStage::Ready { proof, receiver_id, pool_id }
            } else {
                StartupStage::Failed(StartupFailure::ChallengeNotCreated)
            },
            _ => self.stage,
        };
        Startup { wait_millis, stage }
    }

    /// The challenge that is to be created, if one is.
    pub fn new_challenge(&self) -> (res: Option<InsertChallenge>)
        ensures
            match (self.stage, res) {
                (StartupStage::AddChallenge { proof, pool_id, .. }, Some(challenge)) => {
                    challenge.pool_id == pool_id && challenge.challenge@ == proof.challenge@
                        && challenge.rewards_earned is None
                },
                (StartupStage::AddChallenge { .. }, None) => false,
                (_, found) => found is None,
            },
    {
        match self.stage {
            StartupStage::AddChallenge { proof, receiver_id: _, pool_id } => Some(
                InsertChallenge {
                    pool_id,
                    challenge: vstd::slice::slice_to_vec(proof.challenge.as_slice()),
                    rewards_earned: None,
                },
            ),
            _ => None,
        }
    }

    /// The settings of the server, once it is ready. Questions about miners are always answered.
    pub fn config(
        &self,
        password: String,
        commission_pubkey: &Pubkey,
        commission_amount: i32,
    ) -> (res: Option<Config>)
        ensures
            match (self.stage, res) {
                (StartupStage::Ready { receiver_id, pool_id, .. }, Some(config)) => {
                    &&& config.password == password
                    &&& config.pool_id == pool_id
                    &&& config.stats_enabled
                    &&& config.commissions_pubkey@ == text_of_pubkey(commission_pubkey@)
                    &&& config.commissions_miner_id == receiver_id
                    &&& config.commission_amount == commission_amount
                },
                (StartupStage::Ready { .. }, None) => false,
                (_, found) => found is None,
            },
    {
        match self.stage {
            StartupStage::Ready { proof: _, receiver_id, pool_id } => Some(
                Config {
                    password,
                    pool_id,
                    stats_enabled: true,
                    commissions_pubkey: commission_pubkey.text(),
                    commissions_miner_id: receiver_id,
                    commission_amount,
                },
            ),
            _ => None,
        }
    }
}

/// Whether it was told that the wallet has enough.
pub open spec fn told_rich(events: Seq<StartupEvent>) -> bool {
    exists|i: int|
        0 <= i < events.len() && ((#[trigger] events[i]) matches StartupEvent::Balance(
            Some(lamports),
        ) && lamports >= MIN_BALANCE)
}

/// What was told before a stage is reached.
pub open spec fn told_before(events: Seq<StartupEvent>, stage: StartupStage) -> bool {
    match stage {
        StartupStage::Blockhash => true,
        StartupStage::Balance => true,
        StartupStage::Failed(_) => true,
        StartupStage::Proof => told_rich(events),
        StartupStage::FindPool { proof }
        | StartupStage::AddPool { proof }
        | StartupStage::FindReceiver { proof }
        | StartupStage::SignUpReceiver { proof }
        | StartupStage::FindReceiverAgain { proof } => told_rich(events) && events.contains(
            StartupEvent::Proof(Ok(proof)),
        ),
        StartupStage::FindPoolId { proof, receiver_id } => told_rich(events) && events.contains(
            StartupEvent::Proof(Ok(proof)),
        ) && events.contains(StartupEvent::Receiver(Ok(receiver_id))),
        StartupStage::FindChallenge { proof, receiver_id, pool_id }
        | StartupStage::AddChallenge { proof, receiver_id, pool_id }
        | StartupStage::Ready { proof, receiver_id, pool_id } => told_rich(events)
            && events.contains(StartupEvent::Proof(Ok(proof))) && events.contains(
            StartupEvent::Receiver(Ok(receiver_id)),
        ) && events.contains(StartupEvent::Pool(Ok(pool_id))),
    }
}

/// The server takes requests only when the wallet was said to have enough, and with a proof, a
/// pool and a receiver of commissions that were looked up.
pub proof fn lemma_ready_was_checked(events: Seq<StartupEvent>)
    ensures
        told_before(events, StartupStage::run(events)),
    decreases events.len(),
{
    if events.len() > 0 {
        let before = events.drop_last();
        let last = events.last();
        lemma_ready_was_checked(before);
        assert(events[events.len() - 1] == last);
        if told_rich(before) {
            let i = choose|i: int|
                0 <= i < before.len() && ((#[trigger] before[i]) matches StartupEvent::Balance(
                    Some(lamports),
                ) && lamports >= MIN_BALANCE);
            assert(events[i] == before[i]);
        }
        assert forall|event: StartupEvent| before.contains(event) implies #[trigger]
            events.contains(event) by {
            let i = choose|i: int| 0 <= i < before.len() && before[i] == event;
            assert(events[i] == event);
        }
        assert(events.contains(last));
    }
}

/// Whether the event at position `i` told that the current challenge is in the database: it was
/// found, or created.
pub open spec fn told_challenge(events: Seq<StartupEvent>, i: int) -> bool {
    match StartupStage::run(events.take(i)) {
        StartupStage::FindChallenge { .. } => events[i] matches StartupEvent::Challenge(found)
            && found is Ok,
        StartupStage::AddChallenge { .. } => events[i] == StartupEvent::Created(true),
        _ => false,
    }
}

/// The server takes requests only when the current challenge is in the database.
pub proof fn lemma_challenge_is_known(events: Seq<StartupEvent>)
    requires
        StartupStage::run(events) is Ready,
    ensures
        exists|i: int| 0 <= i < events.len() && #[trigger] told_challenge(events, i),
    decreases events.len(),
{
    if events.len() > 0 {
        let before = events.drop_last();
        if StartupStage::run(before) is Ready {
            lemma_challenge_is_known(before);
            let i = choose|i: int| 0 <= i < before.len() && #[trigger] told_challenge(before, i);
            assert(before.take(i) =~= events.take(i));
            assert(before[i] == events[i]);
            assert(told_challenge(events, i));
        } else {
            assert(before =~= events.take(events.len() - 1));
            assert(told_challenge(events, events.len() - 1));
        }
    }
}

/// With a wallet that has enough, a proof, a known pool, a known receiver of commissions and a
/// known challenge the server gets ready, with the proof and the numbers that were told.
pub proof fn lemma_starts_with_all_in_place(
    lamports: u64,
    proof: Proof,
    found: i32,
    receiver_id: i32,
    pool_id: i32,
)
    requires
        lamports >= 100_000,
    ensures
        StartupStage::Blockhash.next(StartupEvent::Blockhash(true)).next(
            StartupEvent::Balance(Some(lamports)),
        ).next(StartupEvent::Proof(Ok(proof))).next(StartupEvent::Pool(Ok(found))).next(
            StartupEvent::Receiver(Ok(receiver_id)),
        ).next(StartupEvent::Pool(Ok(pool_id))).next(StartupEvent::Challenge(Ok(()))) == (
        StartupStage::Ready { proof, receiver_id, pool_id }),
{
}

/// What is missing is created, and the server gets ready all the same, if only each creation works
/// and no lookup of the pool or the challenge fails for want of a connection.
pub proof fn lemma_starts_with_nothing_in_place(
    lamports: u64,
    proof: Proof,
    no_pool: AppDatabaseError,
    no_receiver: AppDatabaseError,
    no_challenge: AppDatabaseError,
    receiver_id: i32,
    pool_id: i32,
)
    requires
        lamports >= 100_000,
        !(no_pool is FailedToGetConnectionFromPool),
        !(no_challenge is FailedToGetConnectionFromPool),
    ensures
        ({
            let proven = StartupStage::Blockhash.next(StartupEvent::Blockhash(true)).next(
                StartupEvent::Balance(Some(lamports)),
            ).next(StartupEvent::Proof(Ok(proof)));
            let adding = proven.next(StartupEvent::Pool(Err(no_pool)));
            let signing = adding.next(StartupEvent::Created(true)).next(
                StartupEvent::Receiver(Err(no_receiver)),
            );
            let found = signing.next(StartupEvent::Created(true)).next(
                StartupEvent::Receiver(Ok(receiver_id)),
            ).next(StartupEvent::Pool(Ok(pool_id)));
            let entering = found.next(StartupEvent::Challenge(Err(no_challenge)));
            &&& adding == (StartupStage::AddPool { proof })
            &&& signing == (StartupStage::SignUpReceiver { proof })
            &&& entering == (StartupStage::AddChallenge { proof, receiver_id, pool_id })
            &&& entering.next(StartupEvent::Created(true)) == (StartupStage::Ready {
                proof,
                receiver_id,
                pool_id,
            })
        }),
{
}

/// The cause of each failure to start: the one event after which the server gives up, and with what
/// words.
pub proof fn lemma_why_given_up(stage: StartupStage, event: StartupEvent, failure: StartupFailure)
    requires
        !(stage is Failed),
        stage.next(event) == StartupStage::Failed(failure),
    ensures
        match failure {
            StartupFailure::NoBalance => stage is Balance && event == StartupEvent::Balance(None),
            StartupFailure::BalanceTooLow => stage is Balance && (event matches
                StartupEvent::Balance(Some(lamports)) && lamports < 100_000),
            StartupFailure::NoProof => stage is Proof && (event matches StartupEvent::Proof(found)
                && found is Err),
            StartupFailure::NoConnection => (stage is FindPool && event == StartupEvent::Pool(
                Err(AppDatabaseError::FailedToGetConnectionFromPool),
            )) || (stage is FindChallenge && event == StartupEvent::Challenge(
                Err(AppDatabaseError::FailedToGetConnectionFromPool),
            )),
            StartupFailure::PoolNotCreated => stage is AddPool && event == StartupEvent::Created(
                false,
            ),
            StartupFailure::ReceiverNotFound => stage is FindReceiverAgain && (event matches
                StartupEvent::Receiver(found) && found is Err),
            StartupFailure::ReceiverNotCreated => stage is SignUpReceiver && event
                == StartupEvent::Created(false),
            StartupFailure::PoolNotFound => stage is FindPoolId && (event matches
                StartupEvent::Pool(found) && found is Err),
            StartupFailure::ChallengeNotCreated => stage is AddChallenge && event
                == StartupEvent::Created(false),
        },
{
}

/// The server gives up where it cannot go on: each of these ends the start.
pub proof fn lemma_gives_up(
    proof: Proof,
    receiver_id: i32,
    pool_id: i32,
    lamports: u64,
    error: AppDatabaseError,
)
    requires
        lamports < 100_000,
    ensures
        StartupStage::Balance.next(StartupEvent::Balance(None)) is Failed,
        StartupStage::Balance.next(StartupEvent::Balance(Some(lamports))) is Failed,
        StartupStage::Proof.next(StartupEvent::Proof(Err(()))) is Failed,
        (StartupStage::FindPool { proof }).next(
            StartupEvent::Pool(Err(AppDatabaseError::FailedToGetConnectionFromPool)),
        ) is Failed,
        (StartupStage::AddPool { proof }).next(StartupEvent::Created(false)) is Failed,
        (StartupStage::SignUpReceiver { proof }).next(StartupEvent::Created(false)) is Failed,
        (StartupStage::FindReceiverAgain { proof }).next(
            StartupEvent::Receiver(Err(error)),
        ) is Failed,
        (StartupStage::FindPoolId { proof, receiver_id }).next(
            StartupEvent::Pool(Err(error)),
        ) is Failed,
        (StartupStage::FindChallenge { proof, receiver_id, pool_id }).next(
            StartupEvent::Challenge(Err(AppDatabaseError::FailedToGetConnectionFromPool)),
        ) is Failed,
        (StartupStage::AddChallenge { proof, receiver_id, pool_id }).next(
            StartupEvent::Created(false),
        ) is Failed,
        StartupStage::Blockhash.next(StartupEvent::Blockhash(false)) is Blockhash,
{
}

/// Each step of the start can be taken whatever went before: a pool that was created counts as one
/// that was found, and so do the receiver of commissions and the challenge.
pub proof fn lemma_created_is_as_good_as_found(
    proof: Proof,
    found: i32,
    receiver_id: i32,
    pool_id: i32,
)
    ensures
        (StartupStage::AddPool { proof }).next(StartupEvent::Created(true)) == (
        StartupStage::FindPool { proof }).next(StartupEvent::Pool(Ok(found))),
        (StartupStage::SignUpReceiver { proof }).next(StartupEvent::Created(true)).next(
            StartupEvent::Receiver(Ok(receiver_id)),
        ) == (StartupStage::FindReceiver { proof }).next(
            StartupEvent::Receiver(Ok(receiver_id)),
        ),
        (StartupStage::AddChallenge { proof, receiver_id, pool_id }).next(
            StartupEvent::Created(true),
        ) == (StartupStage::FindChallenge { proof, receiver_id, pool_id }).next(
            StartupEvent::Challenge(Ok(())),
        ),
{
}

/// Whether an event is of the kind that the start waits for.
pub open spec fn answers_start(stage: StartupStage, event: StartupEvent) -> bool {
    ||| stage is Blockhash && event is Blockhash
    ||| stage is Balance && event is Balance
    ||| stage is Proof && event is Proof
    ||| (stage is FindPool || stage is FindPoolId) && event is Pool
    ||| (stage is FindReceiver || stage is FindReceiverAgain) && event is Receiver
    ||| stage is FindChallenge && event is Challenge
    ||| (stage is AddPool || stage is SignUpReceiver || stage is AddChallenge) && event is Created
}

/// An event that nothing was asked for changes nothing; a server that is ready stays so, and one
/// that has given up too.
pub proof fn lemma_only_start_answers_count(stage: StartupStage, event: StartupEvent)
    requires
        !answers_start(stage, event),
    ensures
        stage.next(event) == stage,
{
}

} // verus!
