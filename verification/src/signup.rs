//! The request by which miners sign up.

use crate::database_error::AppDatabaseError;
use crate::login::{LoginEvent, Miner};
use crate::pubkey::Pubkey;
use crate::reply::{reply, ContentType, Reply, Status};
use vstd::prelude::*;

verus! {

use crate::pubkey::{pubkey_of_text, text_of_pubkey};
use crate::reply::{bare, typed, ReplyView};

/// What a sign-up is answered.
#[derive(Clone, Copy, Debug, PartialEq, Eq, Structural)]
pub enum SignupReply {
    InvalidPubkey,
    Exists,
    NoConnection,
    SignedUp,
    Failed,
}

impl SignupReply {
    /// The answer that is sent.
    pub open spec fn said(self) -> ReplyView {
        match self {
            SignupReply::InvalidPubkey => bare(Status::BadRequest, "Invalid miner pubkey"@),
            SignupReply::Exists => typed(Status::Success, "EXISTS"@),
            SignupReply::NoConnection => bare(
                Status::InternalServerError,
                "Failed to get db pool connection"@,
            ),
            SignupReply::SignedUp => typed(Status::Success, "SUCCESS"@),
            SignupReply::Failed => bare(
                Status::InternalServerError,
                "Failed to add user to database"@,
            ),
        }
    }

    /// The answer that is sent.
    pub fn reply(self) -> (res: Reply)
        ensures
            res@ == self.said(),
    {
        match self {
            SignupReply::InvalidPubkey => reply(
                Status::BadRequest,
                ContentType::Unset,
                "Invalid miner pubkey",
            ),
            SignupReply::Exists => reply(Status::Success, ContentType::Text, "EXISTS"),
            SignupReply::NoConnection => reply(
                Status::InternalServerError,
                ContentType::Unset,
                "Failed to get db pool connection",
            ),
            SignupReply::SignedUp => reply(Status::Success, ContentType::Text, "SUCCESS"),
            SignupReply::Failed => reply(
                Status::InternalServerError,
                ContentType::Unset,
                "Failed to add user to database",
            ),
        }
    }
}

/// How far a sign-up has come.
#[derive(Clone, Copy, Debug, PartialEq, Eq)]
pub enum Signup {
    /// Look the miner up.
    AskMiner { pubkey: Pubkey },
    /// Sign the miner up.
    SignUp { pubkey: Pubkey },
    /// Answer.
    Answered(SignupReply),
}

/// A request to sign up the miner whose key the text denotes.
pub fn post_signup_v2(miner: &str) -> (res: Signup)
    ensures
        match pubkey_of_text(miner@) {
            Some(key) => res matches Signup::AskMiner { pubkey } && pubkey@ == key,
            None => res == Signup::Answered(SignupReply::InvalidPubkey),
        },
{
    match Pubkey::parse(miner) {
        Some(pubkey) => Signup::AskMiner { pubkey },
        None => Signup::Answered(SignupReply::InvalidPubkey),
    }
}

impl Signup {
    /// How far the request is after an event. An event that does not answer what was asked changes
    /// nothing.
    pub open spec fn next(self, event: LoginEvent) -> Signup {
        match (self, event) {
            (Signup::AskMiner { pubkey }, LoginEvent::Miner(found)) => match found {
                Ok(miner) => if miner.enabled {
                    Signup::Answered(SignupReply::Exists)
                } else {
                    Signup::SignUp { pubkey }
                },
                Err(AppDatabaseError::FailedToGetConnectionFromPool) => Signup::Answered(
                    SignupReply::NoConnection,
                ),
                Err(_) => Signup::SignUp { pubkey },
            },
            (Signup::SignUp { pubkey }, LoginEvent::SignedUp(done)) => if done {
                Signup::Answered(SignupReply::SignedUp)
            } else {
                Signup::Answered(SignupReply::Failed)
            },
            _ => self,
        }
    }

    /// How far the request is after an event.
    pub fn step(self, event: LoginEvent) -> (res: Signup)
        ensures
            res == self.next(event),
    {
        match (self, event) {
            (Signup::AskMiner { pubkey }, LoginEvent::Miner(found)) => match found {
                Ok(miner) => if miner.enabled {
                    Signup::Answered(SignupReply::Exists)
                } else {
                    Signup::SignUp { pubkey }
                },
                Err(AppDatabaseError::FailedToGetConnectionFromPool) => Signup::Answered(
                    SignupReply::NoConnection,
                ),
                Err(_) => Signup::SignUp { pubkey },
            },
            (Signup::SignUp { pubkey: _ }, LoginEvent::SignedUp(done)) => if done {
                Signup::Answered(SignupReply::SignedUp)
            } else {
                Signup::Answered(SignupReply::Failed)
            },
            _ => self,
        }
    }

    /// The key that is to be looked up or signed up, if one is.
    pub fn asked_miner(&self) -> (res: Option<String>)
        ensures
            match (*self, res) {
                (Signup::AskMiner { pubkey }, Some(text)) => text@ == text_of_pubkey(pubkey@),
                (Signup::SignUp { pubkey }, Some(text)) => text@ == text_of_pubkey(pubkey@),
                (Signup::Answered(_), found) => found is None,
                (_, None) => false,
            },
    {
        match self {
            Signup::AskMiner { pubkey } => Some(pubkey.text()),
            Signup::SignUp { pubkey } => Some(pubkey.text()),
            Signup::Answered(_) => None,
        }
    }
}

/// An enabled miner is never signed up again, and a sign-up is answered with success only if it was
/// made.
pub proof fn lemma_signup(pubkey: Pubkey, miner: Miner, done: bool)
    ensures
        ({
            let found = (Signup::AskMiner { pubkey }).next(LoginEvent::Miner(Ok(miner)));
            let signed = (Signup::SignUp { pubkey }).next(LoginEvent::SignedUp(done));
            &&& found == Signup::Answered(SignupReply::Exists) <==> miner.enabled
            &&& found == (Signup::SignUp { pubkey }) <==> !miner.enabled
            &&& signed == Signup::Answered(SignupReply::SignedUp) <==> done
        }),
{
}

/// A miner that is not known is signed up, unless the lookup did not get through to the database;
/// so is one that is known and not enabled. What is answered says what came of it.
pub proof fn lemma_new_miner_signs_up(
    pubkey: Pubkey,
    error: AppDatabaseError,
    id: i32,
)
    ensures
        ({
            let asked = Signup::AskMiner { pubkey };
            let missing = asked.next(LoginEvent::Miner(Err(error)));
            let signing = Signup::SignUp { pubkey };
            &&& error is FailedToGetConnectionFromPool ==> missing == Signup::Answered(
                SignupReply::NoConnection,
            )
            &&& !(error is FailedToGetConnectionFromPool) ==> missing == signing
            &&& asked.next(LoginEvent::Miner(Ok(Miner { id, enabled: false }))) == signing
            &&& asked.next(LoginEvent::Miner(Ok(Miner { id, enabled: true }))) == Signup::Answered(
                SignupReply::Exists,
            )
            &&& signing.next(LoginEvent::SignedUp(true)) == Signup::Answered(SignupReply::SignedUp)
            &&& signing.next(LoginEvent::SignedUp(false)) == Signup::Answered(SignupReply::Failed)
        }),
{
}

/// An event that nothing was asked for changes nothing.
pub proof fn lemma_only_signup_answers_count(state: Signup, event: LoginEvent)
    requires
        !(state is AskMiner && event is Miner),
        !(state is SignUp && event is SignedUp),
    ensures
        state.next(event) == state,
{
}

} // verus!
