//! The questions about miners, rewards and earnings.
//!
//! A question is turned into a query, or refused; what the query comes to is turned into an answer.

use crate::app_rr_database::{AppRRDatabase, Query};
use crate::database_error::AppDatabaseError;
use crate::decimal::unsigned_text;
use crate::pubkey::Pubkey;
use crate::reply::{reply, ContentType, Reply, Status};
use vstd::prelude::*;

verus! {

use crate::app_rr_database::{
    about, with_hashpower, BindView, QueryView, EARNINGS_DAY_SQL, EARNINGS_HOURS_SQL,
    EARNING_IN_PERIOD_SQL, HASHPOWER_OF_MINER_SQL, HASHPOWER_SQL, HIGH_DIFFICULTY_OF_MINER_SQL,
    HIGH_DIFFICULTY_SQL, LAST_CLAIM_SQL, MINER_REWARDS_SQL,
};
use crate::decimal::decimal;
use crate::pubkey::{pubkey_of_text, text_of_pubkey};
use crate::reply::{bare, plain, ReplyView};

/// The longest period that earnings can be asked for, in seconds.
pub const ONE_DAY: i64 = 86_400;

/// The earliest time that a period can be given by, in seconds since 1970: the start of the year
/// -262143.
pub const EARLIEST: i64 = -8_334_601_228_800;

/// What is asked.
#[derive(Clone, Copy, Debug, PartialEq, Eq, Structural)]
pub enum Question {
    HighDifficulty,
    Hashpower,
    Earnings,
    Rewards,
    LastClaim,
}

/// Why a question is not answered.
#[derive(Clone, Copy, Debug, PartialEq, Eq, Structural)]
pub enum StatsRefusal {
    PeriodTooLong,
    InvalidPublicKey,
    NotEnabled,
    NoAnswer(Question),
}

impl StatsRefusal {
    /// The text that is sent instead.
    pub open spec fn words(self) -> Seq<char> {
        match self {
            StatsRefusal::PeriodTooLong => "Maximum time period is one day"@,
            StatsRefusal::InvalidPublicKey => "Invalid public key"@,
            StatsRefusal::NotEnabled => "Stats not enabled for this server."@,
            StatsRefusal::NoAnswer(Question::HighDifficulty) => {
                "Failed to get difficulty for miner"@
            },
            StatsRefusal::NoAnswer(Question::Hashpower) => "Failed to get hashpower for miner"@,
            StatsRefusal::NoAnswer(Question::Earnings) => "Failed to get earnings for miner"@,
            StatsRefusal::NoAnswer(Question::Rewards) => "Failed to get balance"@,
            StatsRefusal::NoAnswer(Question::LastClaim) => "Failed to get last claim for miner"@,
        }
    }

    /// The answer that is sent instead. It does not count as a failure.
    pub fn reply(self) -> (res: Reply)
        ensures
            res@ == plain(Status::Success, self.words()),
    {
        let body = match self {
            StatsRefusal::PeriodTooLong => "Maximum time period is one day",
            StatsRefusal::InvalidPublicKey => "Invalid public key",
            StatsRefusal::NotEnabled => "Stats not enabled for this server.",
            StatsRefusal::NoAnswer(question) => match question {
                Question::HighDifficulty => "Failed to get difficulty for miner",
                Question::Hashpower => "Failed to get hashpower for miner",
                Question::Earnings => "Failed to get earnings for miner",
                Question::Rewards => "Failed to get balance",
                Question::LastClaim => "Failed to get last claim for miner",
            },
        };
        reply(Status::Success, ContentType::Plain, body)
    }
}

/// What a question is answered, by what the query for it came to.
pub fn answer<T>(question: Question, found: Result<T, AppDatabaseError>) -> (res: Result<
    T,
    StatsRefusal,
>)
    ensures
        res == (match found {
            Ok(row) => Ok(row),
            Err(_) => Err(StatsRefusal::NoAnswer(question)),
        }),
{
    match found {
        Ok(row) => Ok(row),
        Err(_) => Err(StatsRefusal::NoAnswer(question)),
    }
}

/// The key that was given, or no text where none was.
pub open spec fn given(pubkey: Option<String>) -> Seq<char> {
    match pubkey {
        Some(text) => text@,
        None => Seq::empty(),
    }
}

fn given_or_empty(pubkey: Option<String>) -> (res: String)
    ensures
        res@ == given(pubkey),
{
    match pubkey {
        Some(text) => text,
        None => {
            let res = "".to_owned();
            proof {
                reveal_strlit("");
            }
            assert(res@ =~= Seq::<char>::empty());
            res
        },
    }
}

/// Asks for the highest difficulty of the day, of one miner where its key is given.
pub fn get_high_difficulty(pubkey: Option<String>, database: &AppRRDatabase) -> (res: Query)
    ensures
        res@ == (if given(pubkey).len() == 0 {
            about(HIGH_DIFFICULTY_SQL, given(pubkey))
        } else {
            about(HIGH_DIFFICULTY_OF_MINER_SQL, given(pubkey))
        }),
{
    database.get_high_difficulty(given_or_empty(pubkey))
}

/// Asks for the hashpower, of one miner where its key is given.
pub fn get_hashpower(pubkey: Option<String>, database: &AppRRDatabase) -> (res: Query)
    ensures
        res@ == (if given(pubkey).len() == 0 {
            about(HASHPOWER_SQL, given(pubkey))
        } else {
            about(HASHPOWER_OF_MINER_SQL, given(pubkey))
        }),
{
    database.get_hashpower(given_or_empty(pubkey))
}

/// The time, in seconds since 1970.
pub fn get_timestamp(now: u64) -> (res: Reply)
    ensures
        res@ == bare(Status::Success, decimal(now as int)),
{
    Reply {
        status: Status::Success,
        content_type: ContentType::Unset,
        body: unsigned_text(now),
    }
}

/// Asks what a miner earned in a period of at most a day, given by its ends in seconds since 1970.
pub fn get_miner_earnings(
    pubkey: &str,
    start_time: i64,
    end_time: i64,
    database: &AppRRDatabase,
) -> (res: Result<Query, StatsRefusal>)
    requires
        EARLIEST + ONE_DAY <= end_time,
    ensures
        if end_time - ONE_DAY > start_time {
            res == Err::<Query, StatsRefusal>(StatsRefusal::PeriodTooLong)
        } else {
            match pubkey_of_text(pubkey@) {
                Some(key) => res matches Ok(query) && query@ == (QueryView {
                    sql: EARNING_IN_PERIOD_SQL@,
                    binds: seq![
                        BindView::Text(text_of_pubkey(key)),
                        BindView::Datetime(start_time),
                        BindView::Datetime(end_time),
                    ],
                }),
                None => res == Err::<Query, StatsRefusal>(StatsRefusal::InvalidPublicKey),
            }
        },
        res == Err::<Query, StatsRefusal>(StatsRefusal::PeriodTooLong) <==> end_time - start_time
            > 86_400,
        res is Ok <==> end_time - start_time <= 86_400 && pubkey_of_text(pubkey@) is Some,
{
    if end_time - ONE_DAY > start_time {
        return Err(StatsRefusal::PeriodTooLong);
    }
    match Pubkey::parse(pubkey) {
        Some(key) => Ok(
            database.get_earning_in_period_by_pubkey(key.text(), start_time, end_time),
        ),
        None => Err(StatsRefusal::InvalidPublicKey),
    }
}

/// What a question about the miner that a text denotes asks the database.
pub open spec fn asks_about(
    res: Result<Query, StatsRefusal>,
    pubkey: Seq<char>,
    sql: &'static str,
) -> bool {
    match pubkey_of_text(pubkey) {
        Some(key) => res matches Ok(query) && query@ == about(sql, text_of_pubkey(key)),
        None => res == Err::<Query, StatsRefusal>(StatsRefusal::InvalidPublicKey),
    }
}

/// Asks for the rewards of a miner.
pub fn get_miner_rewards(pubkey: &str, database: &AppRRDatabase) -> (res: Result<
    Query,
    StatsRefusal,
>)
    ensures
        asks_about(res, pubkey@, MINER_REWARDS_SQL),
{
    match Pubkey::parse(pubkey) {
        Some(key) => Ok(database.get_miner_rewards(key.text())),
        None => Err(StatsRefusal::InvalidPublicKey),
    }
}

/// Asks when a miner last claimed, where the server answers such questions.
pub fn get_miner_last_claim(pubkey: &str, stats_enabled: bool, database: &AppRRDatabase) -> (res:
    Result<Query, StatsRefusal>)
    ensures
        if stats_enabled {
            asks_about(res, pubkey@, LAST_CLAIM_SQL)
        } else {
            res == Err::<Query, StatsRefusal>(StatsRefusal::NotEnabled)
        },
{
    if stats_enabled {
        match Pubkey::parse(pubkey) {
            Some(key) => Ok(database.get_last_claim_by_pubkey(key.text())),
            None => Err(StatsRefusal::InvalidPublicKey),
        }
    } else {
        Err(StatsRefusal::NotEnabled)
    }
}

/// What a question about the earnings of the miner that a text denotes asks the database.
pub open spec fn asks_for_earnings(
    res: Result<Query, StatsRefusal>,
    pubkey: Seq<char>,
    sql: &'static str,
) -> bool {
    match pubkey_of_text(pubkey) {
        Some(key) => res matches Ok(query) && query@ == with_hashpower(sql, text_of_pubkey(key)),
        None => res == Err::<Query, StatsRefusal>(StatsRefusal::InvalidPublicKey),
    }
}

/// Asks what a miner earned in the last day, challenge by challenge.
pub fn get_earnings_with_challenge_and_submission_day(
    pubkey: &str,
    database: &AppRRDatabase,
) -> (res: Result<Query, StatsRefusal>)
    ensures
        asks_for_earnings(res, pubkey@, EARNINGS_DAY_SQL),
{
    match Pubkey::parse(pubkey) {
        Some(key) => Ok(database.get_earnings_with_challenge_and_submission_day(key.text())),
        None => Err(StatsRefusal::InvalidPublicKey),
    }
}

/// Asks what a miner earned in the last three hours, challenge by challenge.
pub fn get_earnings_with_challenge_and_submission_hours(
    pubkey: &str,
    database: &AppRRDatabase,
) -> (res: Result<Query, StatsRefusal>)
    ensures
        asks_for_earnings(res, pubkey@, EARNINGS_HOURS_SQL),
{
    match Pubkey::parse(pubkey) {
        Some(key) => Ok(database.get_earnings_with_challenge_and_submission_hours(key.text())),
        None => Err(StatsRefusal::InvalidPublicKey),
    }
}

/// A question about a miner asks the database about the key that was given, as the key is written
/// in full, and about nothing else; a text that denotes no key is refused.
pub proof fn lemma_asked_about_the_key(
    res: Result<Query, StatsRefusal>,
    text: Seq<char>,
    sql: &'static str,
)
    ensures
        asks_about(res, text, sql) || asks_for_earnings(res, text, sql) ==> {
            &&& res is Ok <==> pubkey_of_text(text) is Some
            &&& res is Err ==> res->Err_0 == StatsRefusal::InvalidPublicKey
            &&& res matches Ok(query) ==> query@.sql == sql@ && query@.binds.last()
                == BindView::Text(text_of_pubkey(pubkey_of_text(text).unwrap()))
        },
        asks_about(res, text, sql) && res is Ok ==> res->Ok_0@.binds.len() == 1,
        asks_for_earnings(res, text, sql) && res is Ok ==> {
            let binds = res->Ok_0@.binds;
            &&& binds.len() == 5
            &&& binds[0] == BindView::BigInt(80) && binds[2] == BindView::BigInt(80)
            &&& binds[1] == BindView::Integer(12) && binds[3] == BindView::Integer(12)
        },
{
}

/// The key that is asked about is the text that was given, whatever it says, and no text where none
/// was given.
pub proof fn lemma_given(pubkey: Option<String>)
    ensures
        pubkey matches Some(text) ==> given(pubkey) == text@,
        pubkey is None ==> given(pubkey).len() == 0,
{
}

} // verus!
