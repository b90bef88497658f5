//! The queries to the database that is only read.

use crate::database_error::AppDatabaseError;
use crate::epoch::{MIN_DIFF, MIN_HASHPOWER};
use vstd::prelude::*;

verus! {

/// The rewards of a miner.
pub const MINER_REWARDS_SQL: &'static str = "SELECT * FROM miners m JOIN rewards r ON m.id = r.miner_id WHERE m.pubkey = ?";

/// What a miner earned in a period.
pub const EARNING_IN_PERIOD_SQL: &'static str = "
                            SELECT
                                0 as id,
                                m.id as miner_id,
                                e.pool_id,
                                0 as challenge_id,
                                SUM(e.amount) as amount,
                                0 as difficulty,
                                MAX(e.created_at) as created_at,
                                MAX(e.updated_at) as updated_at
                            FROM earnings e
                            JOIN miners m ON e.miner_id = m.id
                            WHERE m.pubkey = ?
                                AND e.challenge_id != -1
                                AND e.created_at >= ? AND e.created_at <= ?
                            GROUP BY m.id, m.pubkey, e.pool_id
                        ß";

/// The highest difficulty of the day.
pub const HIGH_DIFFICULTY_SQL: &'static str = "
                    SELECT MAX(e.difficulty) as high_difficulty
                    FROM earnings e 
                    WHERE DATE(e.created_at) = DATE(NOW())
                    ORDER BY e.difficulty DESC
                    LIMIT 1;
                ";

/// The highest difficulty of a miner in the day.
pub const HIGH_DIFFICULTY_OF_MINER_SQL: &'static str = "
                    SELECT MAX(e.difficulty) as high_difficulty
                    FROM earnings e 
                    JOIN miners m
                    ON m.id = e.miner_id 
                    WHERE DATE(e.created_at) = DATE(NOW())
                    AND m.pubkey = ?
                    ORDER BY e.difficulty DESC
                    LIMIT 1;
                ";

/// The hashpower behind the last challenge but two.
pub const HASHPOWER_SQL: &'static str = "
                    SELECT sum(80 * POW(2, e.difficulty - 12)) as hashpower
                    FROM earnings e
                    WHERE e.challenge_id  = (
                        SELECT c.id
                        FROM challenges c
                        ORDER BY c.id DESC
                        LIMIT 1 OFFSET 2
                    )
                ";

/// The hashpower of a miner behind the last challenge but two.
pub const HASHPOWER_OF_MINER_SQL: &'static str = "
                    SELECT sum(80 * POW(2, e.difficulty - 12)) as hashpower
                    FROM earnings e
                    JOIN miners m
                    ON m.id = e.miner_id
                    WHERE e.challenge_id  = (
                        SELECT c.id
                        FROM challenges c
                        ORDER BY c.id DESC
                        LIMIT 1 OFFSET 2
                    )
                    AND m.pubkey = ?
                ";

/// When a miner last claimed.
pub const LAST_CLAIM_SQL: &'static str = "SELECT c.created_at FROM claims c JOIN miners m ON c.miner_id = m.id WHERE m.pubkey = ? ORDER BY c.id DESC LIMIT 1";

/// What a miner earned in the last day, challenge by challenge.
pub const EARNINGS_DAY_SQL: &'static str = "
                WITH challenge_best_difficulty AS (
                    SELECT challenge_id, MAX(difficulty) as best_difficulty
                    FROM earnings
                    WHERE created_at >= NOW() - INTERVAL 1 DAY
                        AND challenge_id != -1
                    GROUP BY challenge_id
                )
                SELECT
                    e.miner_id,
                    e.challenge_id,
                    m.pubkey,
                    e.amount_coal as miner_amount_coal,
                    e.amount_ore as miner_amount_ore,
                    cbd.best_difficulty,
                    e.difficulty as miner_difficulty,
                    ? * POW(2, e.difficulty - ?) as miner_hashpower,
                    ? * POW(2, cbd.best_difficulty - ?) as best_challenge_hashpower,
                    e.created_at,
                    c.rewards_earned_coal as total_rewards_earned_coal,
                    c.rewards_earned_ore as total_rewards_earned_ore
                FROM
                    earnings e
                JOIN
                    miners m ON e.miner_id = m.id
                JOIN
                    challenges c ON e.challenge_id = c.id
                JOIN
                    challenge_best_difficulty cbd ON e.challenge_id = cbd.challenge_id
                WHERE
                    m.pubkey = ?
                    AND e.created_at >= NOW() - INTERVAL 1 DAY
                    AND e.challenge_id != -1
                ORDER BY
                    e.created_at DESC
                ";

/// What a miner earned in the last three hours, challenge by challenge.
pub const EARNINGS_HOURS_SQL: &'static str = "
                WITH challenge_best_difficulty AS (
                    SELECT challenge_id, MAX(difficulty) as best_difficulty
                    FROM earnings
                    WHERE created_at >= NOW() - INTERVAL 3 HOUR
                        AND challenge_id != -1
                    GROUP BY challenge_id
                )
                SELECT
                    e.miner_id,
                    e.challenge_id,
                    m.pubkey,
                    e.amount_coal as miner_amount_coal,
                    e.amount_ore as miner_amount_ore,
                    cbd.best_difficulty,
                    e.difficulty as miner_difficulty,
                    ? * POW(2, e.difficulty - ?) as miner_hashpower,
                    ? * POW(2, cbd.best_difficulty - ?) as best_challenge_hashpower,
                    e.created_at,
                    c.rewards_earned_coal as total_rewards_earned_coal,
                    c.rewards_earned_ore as total_rewards_earned_ore
                FROM
                    earnings e
                JOIN
                    miners m ON e.miner_id = m.id
                JOIN
                    challenges c ON e.challenge_id = c.id
                JOIN
                    challenge_best_difficulty cbd ON e.challenge_id = cbd.challenge_id
                WHERE
                    m.pubkey = ?
                    AND e.created_at >= NOW() - INTERVAL 3 HOUR
                    AND e.challenge_id != -1
                ORDER BY
                    e.created_at DESC
                ";

/// A value that is put into a query in place of a question mark.
#[derive(Debug, PartialEq, Eq)]
pub enum Bind {
    Text(String),
    BigInt(i64),
    Integer(i32),
    /// A time, in seconds since 1970.
    Datetime(i64),
}

/// What a value says.
pub enum BindView {
    Text(Seq<char>),
    BigInt(i64),
    Integer(i32),
    Datetime(i64),
}

impl View for Bind {
    type V = BindView;

    open spec fn view(&self) -> BindView {
        match self {
            Bind::Text(text) => BindView::Text(text@),
            Bind::BigInt(n) => BindView::BigInt(*n),
            Bind::Integer(n) => BindView::Integer(*n),
            Bind::Datetime(at) => BindView::Datetime(*at),
        }
    }
}

/// A query with the values that are put into it.
#[derive(Debug, PartialEq, Eq)]
pub struct Query {
    pub sql: &'static str,
    pub binds: Vec<Bind>,
}

/// What a query asks.
pub struct QueryView {
    pub sql: Seq<char>,
    pub binds: Seq<BindView>,
}

impl View for Query {
    type V = QueryView;

    open spec fn view(&self) -> QueryView {
        QueryView { sql: self.sql@, binds: self.binds@.map_values(|bind: Bind| bind@) }
    }
}

/// A query about one key.
pub open spec fn about(sql: &'static str, pubkey: Seq<char>) -> QueryView {
    QueryView { sql: sql@, binds: seq![BindView::Text(pubkey)] }
}

/// A query about one key that computes hashpower: the hashpower of the lowest difficulty and that
/// difficulty are put in twice, before the key.
pub open spec fn with_hashpower(sql: &'static str, pubkey: Seq<char>) -> QueryView {
    QueryView {
        sql: sql@,
        binds: seq![
            BindView::BigInt(MIN_HASHPOWER as i64),
            BindView::Integer(MIN_DIFF as i32),
            BindView::BigInt(MIN_HASHPOWER as i64),
            BindView::Integer(MIN_DIFF as i32),
            BindView::Text(pubkey),
        ],
    }
}

fn about_key(sql: &'static str, pubkey: String) -> (res: Query)
    ensures
        res@ == about(sql, pubkey@),
{
    let mut binds: Vec<Bind> = Vec::new();
    let ghost key = pubkey@;
    binds.push(Bind::Text(pubkey));
    assert(binds@.map_values(|bind: Bind| bind@) =~= seq![BindView::Text(key)]);
    Query { sql, binds }
}

fn hashpower_of_key(sql: &'static str, pubkey: String) -> (res: Query)
    ensures
        res@ == with_hashpower(sql, pubkey@),
{
    let mut binds: Vec<Bind> = Vec::new();
    let ghost key = pubkey@;
    binds.push(Bind::BigInt(MIN_HASHPOWER as i64));
    binds.push(Bind::Integer(MIN_DIFF as i32));
    binds.push(Bind::BigInt(MIN_HASHPOWER as i64));
    binds.push(Bind::Integer(MIN_DIFF as i32));
    binds.push(Bind::Text(pubkey));
    assert(binds@.map_values(|bind: Bind| bind@) =~= with_hashpower(sql, key).binds);
    Query { sql, binds }
}

/// The database that is only read.
pub struct AppRRDatabase {
    pub url: String,
}

impl AppRRDatabase {
    /// The database at an address.
    pub fn new(url: String) -> (res: AppRRDatabase)
        ensures
            res.url == url,
    {
        AppRRDatabase { url }
    }

    /// Asks for the rewards of a miner.
    pub fn get_miner_rewards(&self, miner_pubkey: String) -> (res: Query)
        ensures
            res@ == about(MINER_REWARDS_SQL, miner_pubkey@),
    {
        about_key(MINER_REWARDS_SQL, miner_pubkey)
    }

    /// Asks what a miner earned from `start_date` to `end_date`, both in seconds since 1970.
    pub fn get_earning_in_period_by_pubkey(
        &self,
        pubkey: String,
        start_date: i64,
        end_date: i64,
    ) -> (res: Query)
        ensures
            res@ == (QueryView {
                sql: EARNING_IN_PERIOD_SQL@,
                binds: seq![
                    BindView::Text(pubkey@),
                    BindView::Datetime(start_date),
                    BindView::Datetime(end_date),
                ],
            }),
    {
        let mut binds: Vec<Bind> = Vec::new();
        let ghost key = pubkey@;
        binds.push(Bind::Text(pubkey));
        binds.push(Bind::Datetime(start_date));
        binds.push(Bind::Datetime(end_date));
        assert(binds@.map_values(|bind: Bind| bind@) =~= seq![
            BindView::Text(key),
            BindView::Datetime(start_date),
            BindView::Datetime(end_date),
        ]);
        Query { sql: EARNING_IN_PERIOD_SQL, binds }
    }

    /// Asks for the highest difficulty of the day, of one miner where the key is not empty. The key
    /// is put in either way.
    pub fn get_high_difficulty(&self, pubkey: String) -> (res: Query)
        ensures
            res@ == (if pubkey@.len() == 0 {
                about(HIGH_DIFFICULTY_SQL, pubkey@)
            } else {
                about(HIGH_DIFFICULTY_OF_MINER_SQL, pubkey@)
            }),
    {
        if pubkey.as_str().is_empty() {
            about_key(HIGH_DIFFICULTY_SQL, pubkey)
        } else {
            about_key(HIGH_DIFFICULTY_OF_MINER_SQL, pubkey)
        }
    }

    /// Asks for the hashpower behind the last challenge but two, of one miner where the key is not
    /// empty. The key is put in either way.
    pub fn get_hashpower(&self, pubkey: String) -> (res: Query)
        ensures
            res@ == (if pubkey@.len() == 0 {
                about(HASHPOWER_SQL, pubkey@)
            } else {
                about(HASHPOWER_OF_MINER_SQL, pubkey@)
            }),
    {
        if pubkey.as_str().is_empty() {
            about_key(HASHPOWER_SQL, pubkey)
        } else {
            about_key(HASHPOWER_OF_MINER_SQL, pubkey)
        }
    }

    /// Asks when a miner last claimed.
    pub fn get_last_claim_by_pubkey(&self, pubkey: String) -> (res: Query)
        ensures
            res@ == about(LAST_CLAIM_SQL, pubkey@),
    {
        about_key(LAST_CLAIM_SQL, pubkey)
    }

    /// Asks what a miner earned in the last day, challenge by challenge.
    pub fn get_earnings_with_challenge_and_submission_day(&self, pubkey: String) -> (res: Query)
        ensures
            res@ == with_hashpower(EARNINGS_DAY_SQL, pubkey@),
    {
        hashpower_of_key(EARNINGS_DAY_SQL, pubkey)
    }

    /// Asks what a miner earned in the last three hours, challenge by challenge.
    pub fn get_earnings_with_challenge_and_submission_hours(&self, pubkey: String) -> (res: Query)
        ensures
            res@ == with_hashpower(EARNINGS_HOURS_SQL, pubkey@),
    {
        hashpower_of_key(EARNINGS_HOURS_SQL, pubkey)
    }
}

/// What came of a query.
pub enum Outcome<T> {
    /// The pool gave no connection.
    NoConnection,
    /// The connection broke while it was used.
    Interrupted,
    /// The database refused the query or found nothing.
    Refused,
    /// The database answered.
    Answered(T),
}

/// The answer to a query, or why there is none.
pub fn settle<T>(outcome: Outcome<T>) -> (res: Result<T, AppDatabaseError>)
    ensures
        res == (match outcome {
            Outcome::NoConnection => Err(AppDatabaseError::FailedToGetConnectionFromPool),
            Outcome::Interrupted => Err(AppDatabaseError::InteractionFailed),
            Outcome::Refused => Err(AppDatabaseError::QueryFailed),
            Outcome::Answered(row) => Ok(row),
        }),
{
    match outcome {
        Outcome::NoConnection => Err(AppDatabaseError::FailedToGetConnectionFromPool),
        Outcome::Interrupted => Err(AppDatabaseError::InteractionFailed),
        Outcome::Refused => Err(AppDatabaseError::QueryFailed),
        Outcome::Answered(row) => Ok(row),
    }
}

/// A query keeps its text, and each value stands in the place of its question mark: the key alone,
/// or the key behind the hashpower and the difficulty that hashpower is computed from, twice.
pub proof fn lemma_values_in_place(sql: &'static str, pubkey: Seq<char>)
    ensures
        about(sql, pubkey).sql == sql@,
        about(sql, pubkey).binds.len() == 1,
        about(sql, pubkey).binds[0] == BindView::Text(pubkey),
        with_hashpower(sql, pubkey).sql == sql@,
        with_hashpower(sql, pubkey).binds.len() == 5,
        with_hashpower(sql, pubkey).binds[0] == BindView::BigInt(80),
        with_hashpower(sql, pubkey).binds[1] == BindView::Integer(12),
        with_hashpower(sql, pubkey).binds[2] == BindView::BigInt(80),
        with_hashpower(sql, pubkey).binds[3] == BindView::Integer(12),
        with_hashpower(sql, pubkey).binds[4] == BindView::Text(pubkey),
{
}

/// Whether a text holds a clause, word for word.
pub open spec fn holds_clause(text: Seq<char>, clause: Seq<char>) -> bool {
    exists|i: int|
        0 <= i <= text.len() - clause.len() && #[trigger] text.subrange(i, i + clause.len())
            == clause
}

proof fn lemma_clause_at(text: Seq<char>, clause: Seq<char>, i: int)
    requires
        0 <= i <= text.len() - clause.len(),
        forall|k: int| 0 <= k < clause.len() ==> #[trigger] clause[k] == text[i + k],
    ensures
        holds_clause(text, clause),
{
    assert(text.subrange(i, i + clause.len()) =~= clause);
}

/// The rewards of a miner are those under its number, by its key.
pub proof fn lemma_rewards_query()
    ensures
        holds_clause(MINER_REWARDS_SQL@, "FROM miners m JOIN rewards r ON m.id = r.miner_id"@),
        holds_clause(MINER_REWARDS_SQL@, "WHERE m.pubkey = ?"@),
{
    reveal_strlit("SELECT * FROM miners m JOIN rewards r ON m.id = r.miner_id WHERE m.pubkey = ?");
    reveal_strlit("FROM miners m JOIN rewards r ON m.id = r.miner_id");
    lemma_clause_at(MINER_REWARDS_SQL@, "FROM miners m JOIN rewards r ON m.id = r.miner_id"@, 9);
    reveal_strlit("WHERE m.pubkey = ?");
    lemma_clause_at(MINER_REWARDS_SQL@, "WHERE m.pubkey = ?"@, 59);
}

/// What a miner earned is the sum of its earnings between the two times, both included, but for
/// those of no challenge.
pub proof fn lemma_earning_query()
    ensures
        holds_clause(EARNING_IN_PERIOD_SQL@, "SUM(e.amount) as amount"@),
        holds_clause(EARNING_IN_PERIOD_SQL@, "FROM earnings e"@),
        holds_clause(EARNING_IN_PERIOD_SQL@, "JOIN miners m ON e.miner_id = m.id"@),
        holds_clause(EARNING_IN_PERIOD_SQL@, "WHERE m.pubkey = ?"@),
        holds_clause(EARNING_IN_PERIOD_SQL@, "AND e.challenge_id != -1"@),
        holds_clause(EARNING_IN_PERIOD_SQL@, "AND e.created_at >= ? AND e.created_at <= ?"@),
        holds_clause(EARNING_IN_PERIOD_SQL@, "GROUP BY m.id, m.pubkey, e.pool_id"@),
{
    reveal_strlit("
                            SELECT
                                0 as id,
                                m.id as miner_id,
                                e.pool_id,
                                0 as challenge_id,
                                SUM(e.amount) as amount,
                                0 as difficulty,
                                MAX(e.created_at) as created_at,
                                MAX(e.updated_at) as updated_at
                            FROM earnings e
                            JOIN miners m ON e.miner_id = m.id
                            WHERE m.pubkey = ?
                                AND e.challenge_id != -1
                                AND e.created_at >= ? AND e.created_at <= ?
                            GROUP BY m.id, m.pubkey, e.pool_id
                        ß");
    reveal_strlit("SUM(e.amount) as amount");
    lemma_clause_at(EARNING_IN_PERIOD_SQL@, "SUM(e.amount) as amount"@, 253);
    reveal_strlit("FROM earnings e");
    lemma_clause_at(EARNING_IN_PERIOD_SQL@, "FROM earnings e"@, 484);
    reveal_strlit("JOIN miners m ON e.miner_id = m.id");
    lemma_clause_at(EARNING_IN_PERIOD_SQL@, "JOIN miners m ON e.miner_id = m.id"@, 528);
    reveal_strlit("WHERE m.pubkey = ?");
    lemma_clause_at(EARNING_IN_PERIOD_SQL@, "WHERE m.pubkey = ?"@, 591);
    reveal_strlit("AND e.challenge_id != -1");
    lemma_clause_at(EARNING_IN_PERIOD_SQL@, "AND e.challenge_id != -1"@, 642);
    reveal_strlit("AND e.created_at >= ? AND e.created_at <= ?");
    lemma_clause_at(EARNING_IN_PERIOD_SQL@, "AND e.created_at >= ? AND e.created_at <= ?"@, 699);
    reveal_strlit("GROUP BY m.id, m.pubkey, e.pool_id");
    lemma_clause_at(EARNING_IN_PERIOD_SQL@, "GROUP BY m.id, m.pubkey, e.pool_id"@, 771);
}

/// The highest difficulty is that of the day, of all miners or of the one with the key.
pub proof fn lemma_high_difficulty_query()
    ensures
        holds_clause(HIGH_DIFFICULTY_SQL@, "SELECT MAX(e.difficulty) as high_difficulty"@),
        holds_clause(HIGH_DIFFICULTY_SQL@, "FROM earnings e"@),
        holds_clause(HIGH_DIFFICULTY_SQL@, "WHERE DATE(e.created_at) = DATE(NOW())"@),
        holds_clause(HIGH_DIFFICULTY_OF_MINER_SQL@, "SELECT MAX(e.difficulty) as high_difficulty"@),
        holds_clause(HIGH_DIFFICULTY_OF_MINER_SQL@, "FROM earnings e"@),
        holds_clause(HIGH_DIFFICULTY_OF_MINER_SQL@, "ON m.id = e.miner_id"@),
        holds_clause(HIGH_DIFFICULTY_OF_MINER_SQL@, "WHERE DATE(e.created_at) = DATE(NOW())"@),
        holds_clause(HIGH_DIFFICULTY_OF_MINER_SQL@, "AND m.pubkey = ?"@),
{
    reveal_strlit("
                    SELECT MAX(e.difficulty) as high_difficulty
                    FROM earnings e 
                    WHERE DATE(e.created_at) = DATE(NOW())
                    ORDER BY e.difficulty DESC
                    LIMIT 1;
                ");
    reveal_strlit("SELECT MAX(e.difficulty) as high_difficulty");
    lemma_clause_at(HIGH_DIFFICULTY_SQL@, "SELECT MAX(e.difficulty) as high_difficulty"@, 21);
    reveal_strlit("FROM earnings e");
    lemma_clause_at(HIGH_DIFFICULTY_SQL@, "FROM earnings e"@, 85);
    reveal_strlit("WHERE DATE(e.created_at) = DATE(NOW())");
    lemma_clause_at(HIGH_DIFFICULTY_SQL@, "WHERE DATE(e.created_at) = DATE(NOW())"@, 122);
    reveal_strlit("
                    SELECT MAX(e.difficulty) as high_difficulty
                    FROM earnings e 
                    JOIN miners m
                    ON m.id = e.miner_id 
                    WHERE DATE(e.created_at) = DATE(NOW())
                    AND m.pubkey = ?
                    ORDER BY e.difficulty DESC
                    LIMIT 1;
                ");
    lemma_clause_at(HIGH_DIFFICULTY_OF_MINER_SQL@, "SELECT MAX(e.difficulty) as high_difficulty"@, 21);
    lemma_clause_at(HIGH_DIFFICULTY_OF_MINER_SQL@, "FROM earnings e"@, 85);
    reveal_strlit("ON m.id = e.miner_id");
    lemma_clause_at(HIGH_DIFFICULTY_OF_MINER_SQL@, "ON m.id = e.miner_id"@, 156);
    lemma_clause_at(HIGH_DIFFICULTY_OF_MINER_SQL@, "WHERE DATE(e.created_at) = DATE(NOW())"@, 198);
    reveal_strlit("AND m.pubkey = ?");
    lemma_clause_at(HIGH_DIFFICULTY_OF_MINER_SQL@, "AND m.pubkey = ?"@, 257);
}

/// The hashpower is summed over the earnings of the last challenge but two, of all miners or of
/// the one with the key.
pub proof fn lemma_hashpower_query()
    ensures
        holds_clause(HASHPOWER_SQL@, "SELECT sum(80 * POW(2, e.difficulty - 12)) as hashpower"@),
        holds_clause(HASHPOWER_SQL@, "FROM earnings e"@),
        holds_clause(HASHPOWER_SQL@, "WHERE e.challenge_id  = ("@),
        holds_clause(HASHPOWER_SQL@, "FROM challenges c"@),
        holds_clause(HASHPOWER_SQL@, "ORDER BY c.id DESC"@),
        holds_clause(HASHPOWER_SQL@, "LIMIT 1 OFFSET 2"@),
        holds_clause(HASHPOWER_OF_MINER_SQL@, "SELECT sum(80 * POW(2, e.difficulty - 12)) as hashpower"@),
        holds_clause(HASHPOWER_OF_MINER_SQL@, "FROM earnings e"@),
        holds_clause(HASHPOWER_OF_MINER_SQL@, "ON m.id = e.miner_id"@),
        holds_clause(HASHPOWER_OF_MINER_SQL@, "WHERE e.challenge_id  = ("@),
        holds_clause(HASHPOWER_OF_MINER_SQL@, "FROM challenges c"@),
        holds_clause(HASHPOWER_OF_MINER_SQL@, "ORDER BY c.id DESC"@),
        holds_clause(HASHPOWER_OF_MINER_SQL@, "LIMIT 1 OFFSET 2"@),
        holds_clause(HASHPOWER_OF_MINER_SQL@, "AND m.pubkey = ?"@),
{
    reveal_strlit("
                    SELECT sum(80 * POW(2, e.difficulty - 12)) as hashpower
                    FROM earnings e
                    WHERE e.challenge_id  = (
                        SELECT c.id
                        FROM challenges c
                        ORDER BY c.id DESC
                        LIMIT 1 OFFSET 2
                    )
                ");
    reveal_strlit("SELECT sum(80 * POW(2, e.difficulty - 12)) as hashpower");
    lemma_clause_at(HASHPOWER_SQL@, "SELECT sum(80 * POW(2, e.difficulty - 12)) as hashpower"@, 21);
    reveal_strlit("FROM earnings e");
    lemma_clause_at(HASHPOWER_SQL@, "FROM earnings e"@, 97);
    reveal_strlit("WHERE e.challenge_id  = (");
    lemma_clause_at(HASHPOWER_SQL@, "WHERE e.challenge_id  = ("@, 133);
    reveal_strlit("FROM challenges c");
    lemma_clause_at(HASHPOWER_SQL@, "FROM challenges c"@, 219);
    reveal_strlit("ORDER BY c.id DESC");
    lemma_clause_at(HASHPOWER_SQL@, "ORDER BY c.id DESC"@, 261);
    reveal_strlit("LIMIT 1 OFFSET 2");
    lemma_clause_at(HASHPOWER_SQL@, "LIMIT 1 OFFSET 2"@, 304);
    reveal_strlit("
                    SELECT sum(80 * POW(2, e.difficulty - 12)) as hashpower
                    FROM earnings e
                    JOIN miners m
                    ON m.id = e.miner_id
                    WHERE e.challenge_id  = (
                        SELECT c.id
                        FROM challenges c
                        ORDER BY c.id DESC
                        LIMIT 1 OFFSET 2
                    )
                    AND m.pubkey = ?
                ");
    lemma_clause_at(HASHPOWER_OF_MINER_SQL@, "SELECT sum(80 * POW(2, e.difficulty - 12)) as hashpower"@, 21);
    lemma_clause_at(HASHPOWER_OF_MINER_SQL@, "FROM earnings e"@, 97);
    reveal_strlit("ON m.id = e.miner_id");
    lemma_clause_at(HASHPOWER_OF_MINER_SQL@, "ON m.id = e.miner_id"@, 167);
    lemma_clause_at(HASHPOWER_OF_MINER_SQL@, "WHERE e.challenge_id  = ("@, 208);
    lemma_clause_at(HASHPOWER_OF_MINER_SQL@, "FROM challenges c"@, 294);
    lemma_clause_at(HASHPOWER_OF_MINER_SQL@, "ORDER BY c.id DESC"@, 336);
    lemma_clause_at(HASHPOWER_OF_MINER_SQL@, "LIMIT 1 OFFSET 2"@, 379);
    reveal_strlit("AND m.pubkey = ?");
    lemma_clause_at(HASHPOWER_OF_MINER_SQL@, "AND m.pubkey = ?"@, 438);
}

/// The last claim of a miner is its newest.
pub proof fn lemma_last_claim_query()
    ensures
        holds_clause(LAST_CLAIM_SQL@, "SELECT c.created_at FROM claims c"@),
        holds_clause(LAST_CLAIM_SQL@, "JOIN miners m ON c.miner_id = m.id"@),
        holds_clause(LAST_CLAIM_SQL@, "WHERE m.pubkey = ? ORDER BY c.id DESC LIMIT 1"@),
{
    reveal_strlit("SELECT c.created_at FROM claims c JOIN miners m ON c.miner_id = m.id WHERE m.pubkey = ? ORDER BY c.id DESC LIMIT 1");
    reveal_strlit("SELECT c.created_at FROM claims c");
    lemma_clause_at(LAST_CLAIM_SQL@, "SELECT c.created_at FROM claims c"@, 0);
    reveal_strlit("JOIN miners m ON c.miner_id = m.id");
    lemma_clause_at(LAST_CLAIM_SQL@, "JOIN miners m ON c.miner_id = m.id"@, 34);
    reveal_strlit("WHERE m.pubkey = ? ORDER BY c.id DESC LIMIT 1");
    lemma_clause_at(LAST_CLAIM_SQL@, "WHERE m.pubkey = ? ORDER BY c.id DESC LIMIT 1"@, 69);
}

/// The earnings of a day are those of the miner with the key that are not older than a day, with
/// the hashpower of the miner and that of the best.
pub proof fn lemma_earnings_day_query()
    ensures
        holds_clause(EARNINGS_DAY_SQL@, "SELECT challenge_id, MAX(difficulty) as best_difficulty"@),
        holds_clause(EARNINGS_DAY_SQL@, "? * POW(2, e.difficulty - ?) as miner_hashpower"@),
        holds_clause(EARNINGS_DAY_SQL@, "? * POW(2, cbd.best_difficulty - ?) as best_challenge_hashpower"@),
        holds_clause(EARNINGS_DAY_SQL@, "miners m ON e.miner_id = m.id"@),
        holds_clause(EARNINGS_DAY_SQL@, "challenges c ON e.challenge_id = c.id"@),
        holds_clause(EARNINGS_DAY_SQL@, "m.pubkey = ?"@),
        holds_clause(EARNINGS_DAY_SQL@, "AND e.challenge_id != -1"@),
        holds_clause(EARNINGS_DAY_SQL@, "e.created_at DESC"@),
        holds_clause(EARNINGS_DAY_SQL@, "WHERE created_at >= NOW() - INTERVAL 1 DAY"@),
        holds_clause(EARNINGS_DAY_SQL@, "AND e.created_at >= NOW() - INTERVAL 1 DAY"@),
{
    reveal_strlit("
                WITH challenge_best_difficulty AS (
                    SELECT challenge_id, MAX(difficulty) as best_difficulty
                    FROM earnings
                    WHERE created_at >= NOW() - INTERVAL 1 DAY
                        AND challenge_id != -1
                    GROUP BY challenge_id
                )
                SELECT
                    e.miner_id,
                    e.challenge_id,
                    m.pubkey,
                    e.amount_coal as miner_amount_coal,
                    e.amount_ore as miner_amount_ore,
                    cbd.best_difficulty,
                    e.difficulty as miner_difficulty,
                    ? * POW(2, e.difficulty - ?) as miner_hashpower,
                    ? * POW(2, cbd.best_difficulty - ?) as best_challenge_hashpower,
                    e.created_at,
                    c.rewards_earned_coal as total_rewards_earned_coal,
                    c.rewards_earned_ore as total_rewards_earned_ore
                FROM
                    earnings e
                JOIN
                    miners m ON e.miner_id = m.id
                JOIN
                    challenges c ON e.challenge_id = c.id
                JOIN
                    challenge_best_difficulty cbd ON e.challenge_id = cbd.challenge_id
                WHERE
                    m.pubkey = ?
                    AND e.created_at >= NOW() - INTERVAL 1 DAY
                    AND e.challenge_id != -1
                ORDER BY
                    e.created_at DESC
                ");
    reveal_strlit("SELECT challenge_id, MAX(difficulty) as best_difficulty");
    lemma_clause_at(EARNINGS_DAY_SQL@, "SELECT challenge_id, MAX(difficulty) as best_difficulty"@, 73);
    reveal_strlit("? * POW(2, e.difficulty - ?) as miner_hashpower");
    lemma_clause_at(EARNINGS_DAY_SQL@, "? * POW(2, e.difficulty - ?) as miner_hashpower"@, 679);
    reveal_strlit("? * POW(2, cbd.best_difficulty - ?) as best_challenge_hashpower");
    lemma_clause_at(EARNINGS_DAY_SQL@, "? * POW(2, cbd.best_difficulty - ?) as best_challenge_hashpower"@, 748);
    reveal_strlit("miners m ON e.miner_id = m.id");
    lemma_clause_at(EARNINGS_DAY_SQL@, "miners m ON e.miner_id = m.id"@, 1081);
    reveal_strlit("challenges c ON e.challenge_id = c.id");
    lemma_clause_at(EARNINGS_DAY_SQL@, "challenges c ON e.challenge_id = c.id"@, 1152);
    reveal_strlit("m.pubkey = ?");
    lemma_clause_at(EARNINGS_DAY_SQL@, "m.pubkey = ?"@, 1340);
    reveal_strlit("AND e.challenge_id != -1");
    lemma_clause_at(EARNINGS_DAY_SQL@, "AND e.challenge_id != -1"@, 1436);
    reveal_strlit("e.created_at DESC");
    lemma_clause_at(EARNINGS_DAY_SQL@, "e.created_at DESC"@, 1506);
    reveal_strlit("WHERE created_at >= NOW() - INTERVAL 1 DAY");
    lemma_clause_at(EARNINGS_DAY_SQL@, "WHERE created_at >= NOW() - INTERVAL 1 DAY"@, 183);
    reveal_strlit("AND e.created_at >= NOW() - INTERVAL 1 DAY");
    lemma_clause_at(EARNINGS_DAY_SQL@, "AND e.created_at >= NOW() - INTERVAL 1 DAY"@, 1373);
}

/// The earnings of some hours are those of the miner with the key that are not older than three
/// hours, with the hashpower of the miner and that of the best.
pub proof fn lemma_earnings_hours_query()
    ensures
        holds_clause(EARNINGS_HOURS_SQL@, "SELECT challenge_id, MAX(difficulty) as best_difficulty"@),
        holds_clause(EARNINGS_HOURS_SQL@, "? * POW(2, e.difficulty - ?) as miner_hashpower"@),
        holds_clause(EARNINGS_HOURS_SQL@, "? * POW(2, cbd.best_difficulty - ?) as best_challenge_hashpower"@),
        holds_clause(EARNINGS_HOURS_SQL@, "miners m ON e.miner_id = m.id"@),
        holds_clause(EARNINGS_HOURS_SQL@, "challenges c ON e.challenge_id = c.id"@),
        holds_clause(EARNINGS_HOURS_SQL@, "m.pubkey = ?"@),
        holds_clause(EARNINGS_HOURS_SQL@, "AND e.challenge_id != -1"@),
        holds_clause(EARNINGS_HOURS_SQL@, "e.created_at DESC"@),
        holds_clause(EARNINGS_HOURS_SQL@, "WHERE created_at >= NOW() - INTERVAL 3 HOUR"@),
        holds_clause(EARNINGS_HOURS_SQL@, "AND e.created_at >= NOW() - INTERVAL 3 HOUR"@),
{
    reveal_strlit("
                WITH challenge_best_difficulty AS (
                    SELECT challenge_id, MAX(difficulty) as best_difficulty
                    FROM earnings
                    WHERE created_at >= NOW() - INTERVAL 3 HOUR
                        AND challenge_id != -1
                    GROUP BY challenge_id
                )
                SELECT
                    e.miner_id,
                    e.challenge_id,
                    m.pubkey,
                    e.amount_coal as miner_amount_coal,
                    e.amount_ore as miner_amount_ore,
                    cbd.best_difficulty,
                    e.difficulty as miner_difficulty,
                    ? * POW(2, e.difficulty - ?) as miner_hashpower,
                    ? * POW(2, cbd.best_difficulty - ?) as best_challenge_hashpower,
                    e.created_at,
                    c.rewards_earned_coal as total_rewards_earned_coal,
                    c.rewards_earned_ore as total_rewards_earned_ore
                FROM
                    earnings e
                JOIN
                    miners m ON e.miner_id = m.id
                JOIN
                    challenges c ON e.challenge_id = c.id
                JOIN
                    challenge_best_difficulty cbd ON e.challenge_id = cbd.challenge_id
                WHERE
                    m.pubkey = ?
                    AND e.created_at >= NOW() - INTERVAL 3 HOUR
                    AND e.challenge_id != -1
                ORDER BY
                    e.created_at DESC
                ");
    reveal_strlit("SELECT challenge_id, MAX(difficulty) as best_difficulty");
    lemma_clause_at(EARNINGS_HOURS_SQL@, "SELECT challenge_id, MAX(difficulty) as best_difficulty"@, 73);
    reveal_strlit("? * POW(2, e.difficulty - ?) as miner_hashpower");
    lemma_clause_at(EARNINGS_HOURS_SQL@, "? * POW(2, e.difficulty - ?) as miner_hashpower"@, 680);
    reveal_strlit("? * POW(2, cbd.best_difficulty - ?) as best_challenge_hashpower");
    lemma_clause_at(EARNINGS_HOURS_SQL@, "? * POW(2, cbd.best_difficulty - ?) as best_challenge_hashpower"@, 749);
    reveal_strlit("miners m ON e.miner_id = m.id");
    lemma_clause_at(EARNINGS_HOURS_SQL@, "miners m ON e.miner_id = m.id"@, 1082);
    reveal_strlit("challenges c ON e.challenge_id = c.id");
    lemma_clause_at(EARNINGS_HOURS_SQL@, "challenges c ON e.challenge_id = c.id"@, 1153);
    reveal_strlit("m.pubkey = ?");
    lemma_clause_at(EARNINGS_HOURS_SQL@, "m.pubkey = ?"@, 1341);
    reveal_strlit("AND e.challenge_id != -1");
    lemma_clause_at(EARNINGS_HOURS_SQL@, "AND e.challenge_id != -1"@, 1438);
    reveal_strlit("e.created_at DESC");
    lemma_clause_at(EARNINGS_HOURS_SQL@, "e.created_at DESC"@, 1508);
    reveal_strlit("WHERE created_at >= NOW() - INTERVAL 3 HOUR");
    lemma_clause_at(EARNINGS_HOURS_SQL@, "WHERE created_at >= NOW() - INTERVAL 3 HOUR"@, 183);
    reveal_strlit("AND e.created_at >= NOW() - INTERVAL 3 HOUR");
    lemma_clause_at(EARNINGS_HOURS_SQL@, "AND e.created_at >= NOW() - INTERVAL 3 HOUR"@, 1374);
}

} // verus!
