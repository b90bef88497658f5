use bitz_pool::accounts::Proof;
use bitz_pool::app_rr_database::{settle, AppRRDatabase, Bind, Outcome, Query};
use bitz_pool::bitz_utils::proof_pubkey;
use bitz_pool::database_error::AppDatabaseError;
use bitz_pool::pubkey::Pubkey;
use bitz_pool::reply::{ContentType, Status};
use bitz_pool::router::{create_router, Endpoint, HttpMethod};
use bitz_pool::startup::{
    new_pool, second_rpc_url, startup, Startup, StartupEvent, StartupFailure, StartupStage,
};
use bitz_pool::stats::{
    answer, get_earnings_with_challenge_and_submission_day,
    get_earnings_with_challenge_and_submission_hours, get_hashpower, get_high_difficulty,
    get_miner_earnings, get_miner_last_claim, get_miner_rewards, get_timestamp, Question,
    StatsRefusal, EARLIEST, ONE_DAY,
};

fn key(n: u8) -> Pubkey {
    Pubkey { bytes: [n; 32] }
}

fn database() -> AppRRDatabase {
    AppRRDatabase::new("mysql://somewhere".to_string())
}

fn placeholders(query: &Query) -> usize {
    query.sql.chars().filter(|c| *c == '?').count()
}

fn texts(query: &Query) -> Vec<&str> {
    query
        .binds
        .iter()
        .filter_map(|bind| match bind {
            Bind::Text(text) => Some(text.as_str()),
            _ => None,
        })
        .collect()
}

fn sample_proof() -> Proof {
    Proof {
        authority: key(7),
        balance: 1,
        challenge: [8; 32],
        last_hash: [9; 32],
        last_hash_at: 2,
        last_claim_at: 3,
        miner: key(7),
        total_hashes: 4,
        total_rewards: 5,
    }
}

fn run(events: &[StartupEvent]) -> Startup {
    events.iter().fold(startup(), |state, event| state.step(*event))
}

#[test]
fn queries_put_each_value_in_its_place() {
    let database = database();
    assert_eq!(database.url, "mysql://somewhere");
    let rewards = database.get_miner_rewards("k".to_string());
    assert!(rewards.sql.starts_with("SELECT * FROM miners m JOIN rewards r"));
    assert_eq!(texts(&rewards), ["k"]);
    assert_eq!(placeholders(&rewards), 1);
    let earning = database.get_earning_in_period_by_pubkey("k".to_string(), 5, 6);
    assert_eq!(earning.binds[1], Bind::Datetime(5));
    assert_eq!(earning.binds[2], Bind::Datetime(6));
    assert_eq!(placeholders(&earning), 3);
    assert!(earning.sql.contains("SUM(e.amount) as amount"));
    let day = database.get_earnings_with_challenge_and_submission_day("k".to_string());
    assert_eq!(placeholders(&day), day.binds.len());
    assert_eq!(day.binds[0], Bind::BigInt(80));
    assert_eq!(day.binds[1], Bind::Integer(12));
    assert_eq!(day.binds[2], Bind::BigInt(80));
    assert_eq!(day.binds[3], Bind::Integer(12));
    assert_eq!(texts(&day), ["k"]);
    assert_eq!(day.sql.matches("INTERVAL 1 DAY").count(), 2);
    let hours = database.get_earnings_with_challenge_and_submission_hours("k".to_string());
    assert_eq!(hours.binds, day.binds);
    assert_eq!(hours.sql, day.sql.replace("INTERVAL 1 DAY", "INTERVAL 3 HOUR"));
    let last = database.get_last_claim_by_pubkey("k".to_string());
    assert_eq!(placeholders(&last), 1);
    assert!(last.sql.ends_with("ORDER BY c.id DESC LIMIT 1"));
}

#[test]
fn queries_without_a_key_are_about_everybody() {
    let database = database();
    for (all, one) in [
        (
            database.get_high_difficulty("".to_string()),
            database.get_high_difficulty("k".to_string()),
        ),
        (database.get_hashpower("".to_string()), database.get_hashpower("k".to_string())),
    ] {
        assert_eq!(placeholders(&all), 0);
        assert_eq!(texts(&all), [""]);
        assert_eq!(placeholders(&one), 1);
        assert_eq!(texts(&one), ["k"]);
        assert!(!all.sql.contains("m.pubkey = ?"));
        assert!(one.sql.contains("m.pubkey = ?"));
    }
    assert_eq!(
        get_high_difficulty(None, &database),
        database.get_high_difficulty("".to_string())
    );
    assert_eq!(
        get_high_difficulty(Some("k".to_string()), &database),
        database.get_high_difficulty("k".to_string())
    );
    assert_eq!(get_hashpower(None, &database), database.get_hashpower("".to_string()));
    assert_eq!(
        get_hashpower(Some("k".to_string()), &database),
        database.get_hashpower("k".to_string())
    );
}

#[test]
fn outcomes_are_settled() {
    assert_eq!(settle(Outcome::Answered(3)), Ok(3));
    assert_eq!(
        settle::<u8>(Outcome::NoConnection),
        Err(AppDatabaseError::FailedToGetConnectionFromPool)
    );
    assert_eq!(settle::<u8>(Outcome::Interrupted), Err(AppDatabaseError::InteractionFailed));
    assert_eq!(settle::<u8>(Outcome::Refused), Err(AppDatabaseError::QueryFailed));
}

#[test]
fn earnings_are_asked_for_a_day_at_most() {
    let database = database();
    let text = key(3).text();
    assert_eq!(
        get_miner_earnings(&text, 100, 100 + ONE_DAY, &database),
        Ok(database.get_earning_in_period_by_pubkey(text.clone(), 100, 100 + ONE_DAY))
    );
    assert_eq!(
        get_miner_earnings(&text, 100, 101 + ONE_DAY, &database),
        Err(StatsRefusal::PeriodTooLong)
    );
    assert!(get_miner_earnings(&text, 100, 50, &database).is_ok());
    assert_eq!(
        get_miner_earnings("nobody", 100, 101, &database),
        Err(StatsRefusal::InvalidPublicKey)
    );
    assert_eq!(EARLIEST, chrono::DateTime::<chrono::Utc>::MIN_UTC.timestamp());
}

#[test]
fn questions_about_a_miner() {
    let database = database();
    let text = key(3).text();
    assert_eq!(
        get_miner_rewards(&text, &database),
        Ok(database.get_miner_rewards(text.clone()))
    );
    assert_eq!(get_miner_rewards("nobody", &database), Err(StatsRefusal::InvalidPublicKey));
    assert_eq!(
        get_miner_last_claim(&text, true, &database),
        Ok(database.get_last_claim_by_pubkey(text.clone()))
    );
    assert_eq!(
        get_miner_last_claim("nobody", true, &database),
        Err(StatsRefusal::InvalidPublicKey)
    );
    assert_eq!(
        get_miner_last_claim(&text, false, &database),
        Err(StatsRefusal::NotEnabled)
    );
    assert_eq!(
        get_earnings_with_challenge_and_submission_day(&text, &database),
        Ok(database.get_earnings_with_challenge_and_submission_day(text.clone()))
    );
    assert_eq!(
        get_earnings_with_challenge_and_submission_hours(&text, &database),
        Ok(database.get_earnings_with_challenge_and_submission_hours(text.clone()))
    );
    assert!(get_earnings_with_challenge_and_submission_day("", &database).is_err());
    assert!(get_earnings_with_challenge_and_submission_hours("", &database).is_err());
}

#[test]
fn questions_are_answered() {
    assert_eq!(answer(Question::Rewards, Ok(5)), Ok(5));
    let failed: Result<u8, AppDatabaseError> = Err(AppDatabaseError::QueryFailed);
    assert_eq!(
        answer(Question::Rewards, failed),
        Err(StatsRefusal::NoAnswer(Question::Rewards))
    );
    let replies = [
        (StatsRefusal::PeriodTooLong, "Maximum time period is one day"),
        (StatsRefusal::InvalidPublicKey, "Invalid public key"),
        (StatsRefusal::NotEnabled, "Stats not enabled for this server."),
        (
            StatsRefusal::NoAnswer(Question::HighDifficulty),
            "Failed to get difficulty for miner",
        ),
        (StatsRefusal::NoAnswer(Question::Hashpower), "Failed to get hashpower for miner"),
        (StatsRefusal::NoAnswer(Question::Earnings), "Failed to get earnings for miner"),
        (StatsRefusal::NoAnswer(Question::Rewards), "Failed to get balance"),
        (StatsRefusal::NoAnswer(Question::LastClaim), "Failed to get last claim for miner"),
    ];
    for (refusal, body) in replies {
        let reply = refusal.reply();
        assert_eq!(reply.status, Status::Success);
        assert_eq!(reply.content_type, ContentType::Plain);
        assert_eq!(reply.body, body);
    }
    let time = get_timestamp(1_700_000_000);
    assert_eq!((time.status.code(), time.body.as_str()), (200, "1700000000"));
}

#[test]
fn routes_lead_to_each_endpoint_once() {
    let routes = create_router();
    assert_eq!(routes.len(), 15);
    for (i, route) in routes.iter().enumerate() {
        for other in &routes[i + 1..] {
            assert_ne!(route.path, other.path);
            assert_ne!(route.endpoint, other.endpoint);
        }
    }
    let expected = [
        (HttpMethod::Get, "/v2/ws", Endpoint::WsHandlerV2),
        (HttpMethod::Get, "/v2/ws-pubkey", Endpoint::WsHandlerPubkey),
        (HttpMethod::Post, "/v2/signup", Endpoint::PostSignupV2),
        (HttpMethod::Post, "/v2/confirmation-claim", Endpoint::ConfirmationClaim),
        (HttpMethod::Post, "/v2/claim-direct", Endpoint::ClaimDirect),
        (HttpMethod::Post, "/v2/claim", Endpoint::PostClaimV2),
        (HttpMethod::Get, "/miner/last-claim", Endpoint::GetMinerLastClaim),
    ];
    for (method, path, endpoint) in expected {
        let route = routes.iter().find(|route| route.path == path).unwrap();
        assert_eq!(route.method, method);
        assert_eq!(route.endpoint, endpoint);
    }
}

#[test]
fn server_starts_with_what_is_there() {
    let proof = sample_proof();
    let state = run(&[
        StartupEvent::Blockhash(true),
        StartupEvent::Balance(Some(100_000)),
        StartupEvent::Proof(Ok(proof)),
        StartupEvent::Pool(Ok(1)),
        StartupEvent::Receiver(Ok(2)),
        StartupEvent::Pool(Ok(3)),
        StartupEvent::Challenge(Ok(())),
    ]);
    assert_eq!(state.stage, StartupStage::Ready { proof, receiver_id: 2, pool_id: 3 });
    assert_eq!(state.new_challenge(), None);
    let config = state.config("secret".to_string(), &key(6), 5).unwrap();
    assert_eq!(config.password, "secret");
    assert_eq!(config.pool_id, 3);
    assert!(config.stats_enabled);
    assert_eq!(config.commissions_pubkey, key(6).text());
    assert_eq!(config.commissions_miner_id, 2);
    assert_eq!(config.commission_amount, 5);
    assert_eq!(startup().config("secret".to_string(), &key(6), 5), None);
}

#[test]
fn server_creates_what_is_missing() {
    let proof = sample_proof();
    let retried = startup().step(StartupEvent::Blockhash(false));
    assert_eq!(retried.wait_millis, 2_000_000);
    assert_eq!(retried.stage, StartupStage::Blockhash);
    let state = run(&[
        StartupEvent::Blockhash(true),
        StartupEvent::Balance(Some(u64::MAX)),
        StartupEvent::Proof(Ok(proof)),
        StartupEvent::Pool(Err(AppDatabaseError::QueryFailed)),
    ]);
    assert_eq!(state.stage, StartupStage::AddPool { proof });
    let state = state
        .step(StartupEvent::Created(true))
        .step(StartupEvent::Receiver(Err(AppDatabaseError::FailedToGetConnectionFromPool)));
    assert_eq!(state.stage, StartupStage::SignUpReceiver { proof });
    let state = state
        .step(StartupEvent::Created(true))
        .step(StartupEvent::Receiver(Ok(4)))
        .step(StartupEvent::Pool(Ok(5)))
        .step(StartupEvent::Challenge(Err(AppDatabaseError::QueryFailed)));
    let challenge = state.new_challenge().unwrap();
    assert_eq!(challenge.pool_id, 5);
    assert_eq!(challenge.challenge, [8; 32]);
    assert_eq!(challenge.rewards_earned, None);
    let state = state.step(StartupEvent::Created(true));
    assert_eq!(state.stage, StartupStage::Ready { proof, receiver_id: 4, pool_id: 5 });
    let pool = new_pool(key(7)).unwrap();
    assert_eq!(pool.authority, key(7).text());
    assert_eq!(pool.proof, proof_pubkey(key(7)).text());
}

#[test]
fn server_gives_up() {
    let proof = sample_proof();
    let no_connection = AppDatabaseError::FailedToGetConnectionFromPool;
    let start = run(&[StartupEvent::Blockhash(true)]);
    let failed = |state: Startup| match state.stage {
        StartupStage::Failed(failure) => failure,
        _ => panic!(),
    };
    assert_eq!(failed(start.step(StartupEvent::Balance(None))), StartupFailure::NoBalance);
    assert_eq!(
        failed(start.step(StartupEvent::Balance(Some(99_999)))),
        StartupFailure::BalanceTooLow
    );
    let rich = start.step(StartupEvent::Balance(Some(100_000)));
    assert_eq!(failed(rich.step(StartupEvent::Proof(Err(())))), StartupFailure::NoProof);
    let proven = rich.step(StartupEvent::Proof(Ok(proof)));
    assert_eq!(
        failed(proven.step(StartupEvent::Pool(Err(no_connection)))),
        StartupFailure::NoConnection
    );
    let adding = proven.step(StartupEvent::Pool(Err(AppDatabaseError::Other)));
    assert_eq!(
        failed(adding.step(StartupEvent::Created(false))),
        StartupFailure::PoolNotCreated
    );
    let signing = adding
        .step(StartupEvent::Created(true))
        .step(StartupEvent::Receiver(Err(AppDatabaseError::Other)));
    assert_eq!(
        failed(signing.step(StartupEvent::Created(false))),
        StartupFailure::ReceiverNotCreated
    );
    let again = signing.step(StartupEvent::Created(true));
    assert_eq!(
        failed(again.step(StartupEvent::Receiver(Err(AppDatabaseError::Other)))),
        StartupFailure::ReceiverNotFound
    );
    let known = again.step(StartupEvent::Receiver(Ok(1)));
    assert_eq!(
        failed(known.step(StartupEvent::Pool(Err(AppDatabaseError::Other)))),
        StartupFailure::PoolNotFound
    );
    let pooled = known.step(StartupEvent::Pool(Ok(1)));
    assert_eq!(
        failed(pooled.step(StartupEvent::Challenge(Err(no_connection)))),
        StartupFailure::NoConnection
    );
    let missing = pooled.step(StartupEvent::Challenge(Err(AppDatabaseError::Other)));
    assert_eq!(
        failed(missing.step(StartupEvent::Created(false))),
        StartupFailure::ChallengeNotCreated
    );
    let texts = [
        (StartupFailure::NoBalance, true, "Failed to load balance"),
        (StartupFailure::BalanceTooLow, true, "Sol balance is too low!"),
        (StartupFailure::NoProof, false, "Failed to load proof."),
        (StartupFailure::NoConnection, false, "Failed to get database pool connection"),
        (StartupFailure::PoolNotCreated, false, "Failed to create pool in database"),
        (StartupFailure::ReceiverNotFound, false, "Failed to get commission miner id"),
        (
            StartupFailure::ReceiverNotCreated,
            false,
            "Failed to insert comissions receiver account",
        ),
        (StartupFailure::ChallengeNotCreated, false, "Failed to create challenge in database"),
    ];
    for (failure, returned, text) in texts {
        assert_eq!(failure.returned(), returned);
        assert_eq!(failure.text(), text);
    }
}

#[test]
fn second_server_defaults_to_the_first() {
    assert_eq!(second_rpc_url("a".to_string(), None), "a");
    assert_eq!(second_rpc_url("a".to_string(), Some("b".to_string())), "b");
}
