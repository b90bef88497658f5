//! The requests by which clients open a connection.
//!
//! Each request is answered in steps: a state says what has to be asked before the request can be
//! answered, an event says what came of that.

use crate::authentication::{is_valid_at, login_bytes};
use crate::database_error::AppDatabaseError;
use crate::pubkey::Pubkey;
use crate::reply::{reply, ContentType, Reply, Status};
use crate::signature::Signature;
use vstd::prelude::*;

verus! {

use crate::authentication::{login_message, valid_at};
use crate::pubkey::{pubkey_of_text, text_of_pubkey};
use crate::reply::{plain, ReplyView};
use crate::signature::{signature_covers, signature_of_text};

/// The pause before a sign-up is tried again, in milliseconds.
pub const SIGNUP_RETRY_MILLIS: u64 = 500;

/// The pause after a sign-up, in milliseconds.
pub const SIGNUP_SETTLE_MILLIS: u64 = 200;

/// What the database knows of a miner.
#[derive(Clone, Copy, Debug, PartialEq, Eq, Structural)]
pub struct Miner {
    pub id: i32,
    pub enabled: bool,
}

/// What came of what had to be asked.
#[derive(Clone, Copy, Debug, PartialEq, Eq)]
pub enum LoginEvent {
    /// The miner that was looked up.
    Miner(Result<Miner, AppDatabaseError>),
    /// Whether the miner was signed up.
    SignedUp(bool),
}

/// Why a connection is refused.
#[derive(Clone, Copy, Debug, PartialEq, Eq, Structural)]
pub enum LoginRefusal {
    TimestampTooOld,
    InvalidPubkey,
    NotSignedUp,
    ServerError,
    NotEnabled,
    InvalidSignature,
    NotSigned,
}

impl LoginRefusal {
    /// The answer that is sent.
    pub open spec fn said(self) -> ReplyView {
        match self {
            LoginRefusal::TimestampTooOld => plain(Status::Unauthorized, "Timestamp too old."@),
            LoginRefusal::InvalidPubkey => plain(Status::Unauthorized, "Invalid pubkey"@),
            LoginRefusal::NotSignedUp => plain(
                Status::Unauthorized,
                "pubkey is not authorized to mine. please sign up."@,
            ),
            LoginRefusal::ServerError => plain(
                Status::InternalServerError,
                "Internal Server Error"@,
            ),
            LoginRefusal::NotEnabled => plain(
                Status::Unauthorized,
                "pubkey is not authorized to mine"@,
            ),
            LoginRefusal::InvalidSignature => plain(Status::Unauthorized, "Invalid signature"@),
            LoginRefusal::NotSigned => plain(Status::Unauthorized, "Sig verification failed"@),
        }
    }

    /// The answer that is sent.
    pub fn reply(self) -> (res: Reply)
        ensures
            res@ == self.said(),
    {
        let (status, body) = match self {
            LoginRefusal::TimestampTooOld => (Status::Unauthorized, "Timestamp too old."),
            LoginRefusal::InvalidPubkey => (Status::Unauthorized, "Invalid pubkey"),
            LoginRefusal::NotSignedUp => (
                Status::Unauthorized,
                "pubkey is not authorized to mine. please sign up.",
            ),
            LoginRefusal::ServerError => (Status::InternalServerError, "Internal Server Error"),
            LoginRefusal::NotEnabled => (
                Status::Unauthorized,
                "pubkey is not authorized to mine",
            ),
            LoginRefusal::InvalidSignature => (Status::Unauthorized, "Invalid signature"),
            LoginRefusal::NotSigned => (Status::Unauthorized, "Sig verification failed"),
        };
        reply(status, ContentType::Plain, body)
    }
}

/// How far a signed request for a connection has come.
#[derive(Clone, Copy, Debug, PartialEq, Eq)]
pub enum SignedLogin {
    /// Look the miner up, by the text of the key that the client gave.
    AskMiner { pubkey: Pubkey, signature: Option<Signature>, timestamp: u64 },
    /// Open the connection.
    Accepted { pubkey: Pubkey, miner_id: i32 },
    /// Answer.
    Refused(LoginRefusal),
}

/// Whether the signature is the one that a text denotes.
pub open spec fn is_signature_of(signature: Option<Signature>, text: Seq<char>) -> bool {
    match signature {
        Some(given) => signature_of_text(text) == Some(given@),
        None => signature_of_text(text) is None,
    }
}

/// A request for a connection, signed by the client. `username` and `password` are the client's
/// key and its signature over the time.
pub fn ws_handler_v2(username: &str, password: &str, timestamp: u64, now: u64) -> (res: SignedLogin)
    ensures
        if !valid_at(timestamp, now) {
            res == SignedLogin::Refused(LoginRefusal::TimestampTooOld)
        } else if pubkey_of_text(username@) is None {
            res == SignedLogin::Refused(LoginRefusal::InvalidPubkey)
        } else {
            res matches SignedLogin::AskMiner { pubkey, signature, timestamp: time }
                && pubkey_of_text(username@) == Some(pubkey@) && is_signature_of(
                signature,
                password@,
            ) && time == timestamp
        },
        res is AskMiner <==> 0 <= now - timestamp <= 29 && pubkey_of_text(username@) is Some,
        res matches SignedLogin::AskMiner { pubkey, signature, timestamp: time } ==> {
            &&& pubkey_of_text(username@) == Some(pubkey@)
            &&& signature is Some <==> signature_of_text(password@) is Some
            &&& signature matches Some(given) ==> signature_of_text(password@) == Some(given@)
            &&& time == timestamp
        },
{
    if !is_valid_at(timestamp, now) {
        return SignedLogin::Refused(LoginRefusal::TimestampTooOld);
    }
    match Pubkey::parse(username) {
        Some(pubkey) => {
            let signature = Signature::parse(password);
            SignedLogin::AskMiner { pubkey, signature, timestamp }
        },
        None => SignedLogin::Refused(LoginRefusal::InvalidPubkey),
    }
}

impl SignedLogin {
    /// How far the request is after an event. An event that does not answer what was asked changes
    /// nothing.
    pub open spec fn next(self, event: LoginEvent) -> SignedLogin {
        match (self, event) {
            (
                SignedLogin::AskMiner { pubkey, signature, timestamp },
                LoginEvent::Miner(found),
            ) => match found {
                Err(AppDatabaseError::QueryFailed) | Err(
                    AppDatabaseError::InteractionFailed,
                ) => SignedLogin::Refused(LoginRefusal::NotSignedUp),
                Err(_) => SignedLogin::Refused(LoginRefusal::ServerError),
                Ok(miner) => if !miner.enabled {
                    SignedLogin::Refused(LoginRefusal::NotEnabled)
                } else if signature is None {
                    SignedLogin::Refused(LoginRefusal::InvalidSignature)
                } else if !signature_covers(
                    signature.unwrap()@,
                    pubkey@,
                    login_message(timestamp),
                ) {
                    SignedLogin::Refused(LoginRefusal::NotSigned)
                } else {
                    SignedLogin::Accepted { pubkey, miner_id: miner.id }
                },
            },
            _ => self,
        }
    }

    /// How far the request is after an event.
    pub fn step(self, event: LoginEvent) -> (res: SignedLogin)
        ensures
            res == self.next(event),
    {
        match (self, event) {
            (
                SignedLogin::AskMiner { pubkey, signature, timestamp },
                LoginEvent::Miner(found),
            ) => {
                let miner = match found {
                    Ok(miner) => miner,
                    Err(AppDatabaseError::QueryFailed) => {
                        return SignedLogin::Refused(LoginRefusal::NotSignedUp);
                    },
                    Err(AppDatabaseError::InteractionFailed) => {
                        return SignedLogin::Refused(LoginRefusal::NotSignedUp);
                    },
                    Err(_) => {
                        return SignedLogin::Refused(LoginRefusal::ServerError);
                    },
                };
                if !miner.enabled {
                    return SignedLogin::Refused(LoginRefusal::NotEnabled);
                }
                match signature {
                    Some(signature) => {
                        let message = login_bytes(timestamp);
                        if signature.verify(&pubkey, message.as_slice()) {
                            SignedLogin::Accepted { pubkey, miner_id: miner.id }
                        } else {
                            SignedLogin::Refused(LoginRefusal::NotSigned)
                        }
                    },
                    None => SignedLogin::Refused(LoginRefusal::InvalidSignature),
                }
            },
            _ => self,
        }
    }
}

/// A signed request opens a connection only for an enabled miner whose key has signed the time of
/// the request, and then under the number of that miner; it does so for every such miner.
pub proof fn lemma_signed_login(
    pubkey: Pubkey,
    signature: Option<Signature>,
    timestamp: u64,
    event: LoginEvent,
)
    ensures
        ({
            let asked = SignedLogin::AskMiner { pubkey, signature, timestamp };
            asked.next(event) is Accepted <==> (event matches LoginEvent::Miner(Ok(miner))
                && miner.enabled && (signature matches Some(given) && signature_covers(
                given@,
                pubkey@,
                login_message(timestamp),
            )) && asked.next(event) == (SignedLogin::Accepted { pubkey, miner_id: miner.id }))
        }),
{
}

/// What is to be done next for a request for a connection that only names a key.
#[derive(Clone, Copy, Debug, PartialEq, Eq)]
pub enum PubkeyLoginStage {
    /// Look the miner up.
    AskMiner { pubkey: Pubkey },
    /// Sign the miner up.
    SignUp { pubkey: Pubkey },
    /// Look the miner up once more.
    AskAgain { pubkey: Pubkey },
    /// Open the connection.
    Accepted { pubkey: Pubkey, miner_id: i32 },
    /// Answer.
    Refused(LoginRefusal),
}

/// How far a request for a connection that only names a key has come: pause for `wait_millis`
/// milliseconds, then do what `stage` says.
#[derive(Clone, Copy, Debug, PartialEq, Eq)]
pub struct PubkeyLogin {
    pub wait_millis: u64,
    pub stage: PubkeyLoginStage,
}

/// A request for a connection that only names a key.
pub fn ws_handler_pubkey(pubkey: &str, timestamp: u64, now: u64) -> (res: PubkeyLogin)
    ensures
        res.wait_millis == 0,
        if !valid_at(timestamp, now) {
            res.stage == PubkeyLoginStage::Refused(LoginRefusal::TimestampTooOld)
        } else if pubkey_of_text(pubkey@) is None {
            res.stage == PubkeyLoginStage::Refused(LoginRefusal::InvalidPubkey)
        } else {
            res.stage matches PubkeyLoginStage::AskMiner { pubkey: key } && pubkey_of_text(pubkey@)
                == Some(key@)
        },
        res.stage is AskMiner <==> 0 <= now - timestamp <= 29 && pubkey_of_text(pubkey@) is Some,
{
    let stage = if !is_valid_at(timestamp, now) {
        PubkeyLoginStage::Refused(LoginRefusal::TimestampTooOld)
    } else {
        match Pubkey::parse(pubkey) {
            Some(pubkey) => PubkeyLoginStage::AskMiner { pubkey },
            None => PubkeyLoginStage::Refused(LoginRefusal::InvalidPubkey),
        }
    };
    PubkeyLogin { wait_millis: 0, stage }
}

impl PubkeyLogin {
    /// How far the request is after an event. An event that does not answer what was asked changes
    /// nothing.
    pub open spec fn next(self, event: LoginEvent) -> PubkeyLogin {
        match (self.stage, event) {
            (PubkeyLoginStage::AskMiner { pubkey }, LoginEvent::Miner(found)) => PubkeyLogin {
                wait_millis: 0,
                stage: if found is Ok {
                    PubkeyLoginStage::AskAgain { pubkey }
                } else {
                    PubkeyLoginStage::SignUp { pubkey }
                },
            },
            (PubkeyLoginStage::SignUp { pubkey }, LoginEvent::SignedUp(done)) => if done {
                PubkeyLogin {
                    wait_millis: SIGNUP_SETTLE_MILLIS,
                    stage: PubkeyLoginStage::AskAgain { pubkey },
                }
            } else {
                PubkeyLogin { wait_millis: SIGNUP_RETRY_MILLIS, stage: self.stage }
            },
            (PubkeyLoginStage::AskAgain { pubkey }, LoginEvent::Miner(found)) => PubkeyLogin {
                wait_millis: 0,
                stage: match found {
                    Ok(miner) => if miner.enabled {
                        PubkeyLoginStage::Accepted { pubkey, miner_id: miner.id }
                    } else {
                        PubkeyLoginStage::Refused(LoginRefusal::NotEnabled)
                    },
                    Err(_) => PubkeyLoginStage::Refused(LoginRefusal::ServerError),
                },
            },
            _ => self,
        }
    }

    /// How far the request is after an event.
    pub fn step(self, event: LoginEvent) -> (res: PubkeyLogin)
        ensures
            res == self.next(event),
    {
        match (self.stage, event) {
            (PubkeyLoginStage::AskMiner { pubkey }, LoginEvent::Miner(found)) => match found {
                Ok(_) => PubkeyLogin {
                    wait_millis: 0,
                    stage: PubkeyLoginStage::AskAgain { pubkey },
                },
                Err(_) => PubkeyLogin {
                    wait_millis: 0,
                    stage: PubkeyLoginStage::SignUp { pubkey },
                },
            },
            (PubkeyLoginStage::SignUp { pubkey }, LoginEvent::SignedUp(done)) => if done {
                PubkeyLogin {
                    wait_millis: SIGNUP_SETTLE_MILLIS,
                    stage: PubkeyLoginStage::AskAgain { pubkey },
                }
            } else {
                PubkeyLogin { wait_millis: SIGNUP_RETRY_MILLIS, stage: self.stage }
            },
            (PubkeyLoginStage::AskAgain { pubkey }, LoginEvent::Miner(found)) => {
                let stage = match found {
                    Ok(miner) => if miner.enabled {
                        PubkeyLoginStage::Accepted { pubkey, miner_id: miner.id }
                    } else {
                        PubkeyLoginStage::Refused(LoginRefusal::NotEnabled)
                    },
                    Err(_) => PubkeyLoginStage::Refused(LoginRefusal::ServerError),
                };
                PubkeyLogin { wait_millis: 0, stage }
            },
            _ => self,
        }
    }

    /// The key that is to be looked up or signed up, if one is.
    pub fn asked_miner(&self) -> (res: Option<String>)
        ensures
            match (self.stage, res) {
                (PubkeyLoginStage::AskMiner { pubkey }, Some(text)) => text@ == text_of_pubkey(
                    pubkey@,
                ),
                (PubkeyLoginStage::SignUp { pubkey }, Some(text)) => text@ == text_of_pubkey(
                    pubkey@,
                ),
                (PubkeyLoginStage::AskAgain { pubkey }, Some(text)) => text@ == text_of_pubkey(
                    pubkey@,
                ),
                (PubkeyLoginStage::Accepted { .. }, found) => found is None,
                (PubkeyLoginStage::Refused(_), found) => found is None,
                (_, None) => false,
            },
    {
        match self.stage {
            PubkeyLoginStage::AskMiner { pubkey } => Some(pubkey.text()),
            PubkeyLoginStage::SignUp { pubkey } => Some(pubkey.text()),
            PubkeyLoginStage::AskAgain { pubkey } => Some(pubkey.text()),
            _ => None,
        }
    }

    /// How far the request is after a run of events.
    pub open spec fn run(self, events: Seq<LoginEvent>) -> PubkeyLogin
        decreases events.len(),
    {
        if events.len() == 0 {
            self
        } else {
            self.run(events.drop_last()).next(events.last())
        }
    }
}

/// The request of a client that only names a key.
pub open spec fn asking(pubkey: Pubkey) -> PubkeyLogin {
    PubkeyLogin { wait_millis: 0, stage: PubkeyLoginStage::AskMiner { pubkey } }
}

/// A miner is signed up only after a lookup of it has failed.
pub proof fn lemma_signed_up_if_missing(pubkey: Pubkey, events: Seq<LoginEvent>)
    requires
        asking(pubkey).run(events).stage is SignUp,
    ensures
        exists|i: int|
            0 <= i < events.len() && ((#[trigger] events[i]) matches LoginEvent::Miner(found)
                && found is Err),
    decreases events.len(),
{
    if events.len() > 0 {
        let before = events.drop_last();
        if asking(pubkey).run(before).stage is SignUp {
            lemma_signed_up_if_missing(pubkey, before);
            let i = choose|i: int|
                0 <= i < before.len() && ((#[trigger] before[i]) matches LoginEvent::Miner(found)
                    && found is Err);
            assert(events[i] == before[i]);
        } else {
            assert(events[events.len() - 1] is Miner);
        }
    }
}

/// A request that only names a key opens a connection for that key only, and only if a lookup
/// found an enabled miner; the connection has the number of that miner.
pub proof fn lemma_pubkey_login(pubkey: Pubkey, events: Seq<LoginEvent>)
    ensures
        match asking(pubkey).run(events).stage {
            PubkeyLoginStage::AskMiner { pubkey: key } => key == pubkey,
            PubkeyLoginStage::SignUp { pubkey: key } => key == pubkey,
            PubkeyLoginStage::AskAgain { pubkey: key } => key == pubkey,
            PubkeyLoginStage::Accepted { pubkey: key, miner_id } => key == pubkey
                && events.contains(LoginEvent::Miner(Ok(Miner { id: miner_id, enabled: true }))),
            PubkeyLoginStage::Refused(_) => true,
        },
    decreases events.len(),
{
    if events.len() > 0 {
        let before = events.drop_last();
        lemma_pubkey_login(pubkey, before);
        if let PubkeyLoginStage::Accepted { pubkey: _, miner_id } = asking(pubkey).run(
            events,
        ).stage {
            let found = LoginEvent::Miner(Ok(Miner { id: miner_id, enabled: true }));
            if before.contains(found) {
                let i = choose|i: int| 0 <= i < before.len() && before[i] == found;
                assert(events[i] == found);
            } else {
                assert(events[events.len() - 1] == found);
            }
        }
    }
}

/// A signed request that is not accepted is refused for what is wrong with it first: the miner was
/// not found, the lookup itself failed, the miner is not enabled, the signature is not well
/// written, or it is not one by the key over the time.
pub proof fn lemma_signed_login_refusals(
    pubkey: Pubkey,
    signature: Option<Signature>,
    timestamp: u64,
    miner: Miner,
    error: AppDatabaseError,
)
    ensures
        ({
            let asked = SignedLogin::AskMiner { pubkey, signature, timestamp };
            let missing = asked.next(LoginEvent::Miner(Err(error)));
            let found = asked.next(LoginEvent::Miner(Ok(miner)));
            &&& (error is QueryFailed || error is InteractionFailed) ==> missing
                == SignedLogin::Refused(LoginRefusal::NotSignedUp)
            &&& (error is FailedToGetConnectionFromPool || error is Other) ==> missing
                == SignedLogin::Refused(LoginRefusal::ServerError)
            &&& found == SignedLogin::Refused(LoginRefusal::NotEnabled) <==> !miner.enabled
            &&& found == SignedLogin::Refused(LoginRefusal::InvalidSignature) <==> miner.enabled
                && signature is None
            &&& found == SignedLogin::Refused(LoginRefusal::NotSigned) <==> miner.enabled && (
            signature matches Some(given) && !signature_covers(
                given@,
                pubkey@,
                vstd::bytes::spec_u64_to_le_bytes(timestamp),
            ))
        }),
{
}

/// An enabled miner that is known connects by its key alone, whatever the first lookup said of it,
/// under the number that the second lookup found.
pub proof fn lemma_known_miner_connects(
    login: PubkeyLogin,
    pubkey: Pubkey,
    first: Miner,
    id: i32,
)
    requires
        login.stage == (PubkeyLoginStage::AskMiner { pubkey }),
    ensures
        login.next(LoginEvent::Miner(Ok(first))).stage == (PubkeyLoginStage::AskAgain { pubkey }),
        login.next(LoginEvent::Miner(Ok(first))).wait_millis == 0,
        login.next(LoginEvent::Miner(Ok(first))).next(
            LoginEvent::Miner(Ok(Miner { id, enabled: true })),
        ).stage == (PubkeyLoginStage::Accepted { pubkey, miner_id: id }),
{
}

/// The request after a sign-up failed some times over.
pub open spec fn sign_up_failed(login: PubkeyLogin, times: nat) -> PubkeyLogin
    decreases times,
{
    if times == 0 {
        login
    } else {
        sign_up_failed(login, (times - 1) as nat).next(LoginEvent::SignedUp(false))
    }
}

/// A miner that is new connects by its key alone too: whatever made the first lookup fail, and
/// however often the sign-up failed before it was done, an enabled miner that is then found is let
/// in under its number. A sign-up is tried again after half a second, and looked up a fifth of a
/// second after it was done.
pub proof fn lemma_new_miner_connects(
    login: PubkeyLogin,
    pubkey: Pubkey,
    error: AppDatabaseError,
    times: nat,
    id: i32,
)
    requires
        login.stage == (PubkeyLoginStage::AskMiner { pubkey }),
    ensures
        ({
            let missing = login.next(LoginEvent::Miner(Err(error)));
            let tried = sign_up_failed(missing, times);
            let done = tried.next(LoginEvent::SignedUp(true));
            &&& missing.stage == (PubkeyLoginStage::SignUp { pubkey })
            &&& missing.wait_millis == 0
            &&& tried.stage == (PubkeyLoginStage::SignUp { pubkey })
            &&& times > 0 ==> tried.wait_millis == 500
            &&& done.stage == (PubkeyLoginStage::AskAgain { pubkey })
            &&& done.wait_millis == 200
            &&& done.next(LoginEvent::Miner(Ok(Miner { id, enabled: true }))).stage == (
            PubkeyLoginStage::Accepted { pubkey, miner_id: id })
        }),
    decreases times,
{
    if times > 0 {
        lemma_new_miner_connects(login, pubkey, error, (times - 1) as nat, id);
    }
}

/// The last lookup decides, and says why: a miner that is not enabled is told so, and one that is
/// not found is told of a failure of the server.
pub proof fn lemma_last_lookup_decides(
    login: PubkeyLogin,
    pubkey: Pubkey,
    id: i32,
    error: AppDatabaseError,
)
    requires
        login.stage == (PubkeyLoginStage::AskAgain { pubkey }),
    ensures
        login.next(LoginEvent::Miner(Ok(Miner { id, enabled: true }))).stage == (
        PubkeyLoginStage::Accepted { pubkey, miner_id: id }),
        login.next(LoginEvent::Miner(Ok(Miner { id, enabled: false }))).stage
            == PubkeyLoginStage::Refused(LoginRefusal::NotEnabled),
        login.next(LoginEvent::Miner(Err(error))).stage == PubkeyLoginStage::Refused(
            LoginRefusal::ServerError,
        ),
{
}

/// A request that only names a key is told that the miner is not enabled only after a lookup found
/// a miner that is not, and that the server failed only after a lookup failed; it is told nothing
/// else.
pub proof fn lemma_pubkey_login_refusals(pubkey: Pubkey, events: Seq<LoginEvent>)
    ensures
        asking(pubkey).run(events).stage matches PubkeyLoginStage::Refused(refusal) ==> {
            ||| refusal == LoginRefusal::NotEnabled && exists|i: int|
                0 <= i < events.len() && ((#[trigger] events[i]) matches LoginEvent::Miner(
                    Ok(miner),
                ) && !miner.enabled)
            ||| refusal == LoginRefusal::ServerError && exists|i: int|
                0 <= i < events.len() && ((#[trigger] events[i]) matches LoginEvent::Miner(found)
                    && found is Err)
        },
    decreases events.len(),
{
    if events.len() > 0 {
        let before = events.drop_last();
        lemma_pubkey_login_refusals(pubkey, before);
        if asking(pubkey).run(before).stage is Refused {
            if asking(pubkey).run(before).stage->Refused_0 == LoginRefusal::NotEnabled {
                let i = choose|i: int|
                    0 <= i < before.len() && ((#[trigger] before[i]) matches LoginEvent::Miner(
                        Ok(miner),
                    ) && !miner.enabled);
                assert(events[i] == before[i]);
            } else {
                let i = choose|i: int|
                    0 <= i < before.len() && ((#[trigger] before[i]) matches LoginEvent::Miner(
                        found,
                    ) && found is Err);
                assert(events[i] == before[i]);
            }
        } else {
            assert(events[events.len() - 1] == events.last());
        }
    }
}

/// Whether an event is of the kind that a request which only names a key waits for.
pub open spec fn answers_login(stage: PubkeyLoginStage, event: LoginEvent) -> bool {
    ||| (stage is AskMiner || stage is AskAgain) && event is Miner
    ||| stage is SignUp && event is SignedUp
}

/// An event that nothing was asked for changes nothing.
pub proof fn lemma_only_login_answers_count(
    signed: SignedLogin,
    login: PubkeyLogin,
    event: LoginEvent,
)
    ensures
        !(signed is AskMiner && event is Miner) ==> signed.next(event) == signed,
        !answers_login(login.stage, event) ==> login.next(event) == login,
{
}

/// Every enabled miner whose key has signed the time of the request is let in, under its number,
/// and no other is.
pub proof fn lemma_signed_miner_connects(
    pubkey: Pubkey,
    signature: Option<Signature>,
    timestamp: u64,
    miner: Miner,
)
    ensures
        ({
            let genuine = signature matches Some(given) && signature_covers(
                given@,
                pubkey@,
                vstd::bytes::spec_u64_to_le_bytes(timestamp),
            );
            let found = (SignedLogin::AskMiner { pubkey, signature, timestamp }).next(
                LoginEvent::Miner(Ok(miner)),
            );
            &&& miner.enabled && genuine ==> found == (SignedLogin::Accepted {
                pubkey,
                miner_id: miner.id,
            })
            &&& found is Accepted ==> miner.enabled && genuine
        }),
{
}

} // verus!
