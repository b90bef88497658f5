use bitz_pool::authentication::login_bytes;
use bitz_pool::database_error::AppDatabaseError;
use bitz_pool::epoch::{ConnectionId, Solution};
use bitz_pool::login::{
    ws_handler_pubkey, ws_handler_v2, LoginEvent, LoginRefusal, Miner, PubkeyLogin,
    PubkeyLoginStage, SignedLogin,
};
use bitz_pool::messages::{
    is_complete, process_message, ClientAddr, ClientMessage, Frame, MessageInternalAllClients,
};
use bitz_pool::pubkey::Pubkey;
use bitz_pool::reply::ContentType;
use bitz_pool::signup::{post_signup_v2, Signup, SignupReply};
use bitz_pool::sockets::{
    get_connected_miners, handle_socket, AppState, ClientVersion, PingOutcome, SessionEvent,
    SessionStage, PING_BYTES, PING_SECONDS,
};
use solana_sdk::signer::Signer;

const NOW: u64 = 1_700_000_000;

fn pair() -> solana_sdk::signature::Keypair {
    solana_sdk::signer::keypair::keypair_from_seed(&[3; 32]).unwrap()
}

fn client() -> Pubkey {
    Pubkey { bytes: pair().pubkey().to_bytes() }
}

fn address(port: u16) -> ClientAddr {
    ClientAddr::V4 { ip: 0x7f00_0001, port }
}

fn found(id: i32, enabled: bool) -> LoginEvent {
    LoginEvent::Miner(Ok(Miner { id, enabled }))
}

fn missing(error: AppDatabaseError) -> LoginEvent {
    LoginEvent::Miner(Err(error))
}

fn log_in(timestamp: u64) -> SignedLogin {
    let password = pair().sign_message(&login_bytes(timestamp)).to_string();
    ws_handler_v2(&client().text(), &password, timestamp, NOW)
}

#[test]
fn signed_login_is_accepted() {
    let state = log_in(NOW - 29);
    assert_eq!(
        state.step(found(5, true)),
        SignedLogin::Accepted { pubkey: client(), miner_id: 5 }
    );
    assert_eq!(state.step(LoginEvent::SignedUp(true)), state);
}

#[test]
fn signed_login_is_refused() {
    assert_eq!(log_in(NOW - 30), SignedLogin::Refused(LoginRefusal::TimestampTooOld));
    assert_eq!(
        ws_handler_v2("nobody", "", NOW, NOW),
        SignedLogin::Refused(LoginRefusal::InvalidPubkey)
    );
    let state = log_in(NOW);
    assert_eq!(
        state.step(missing(AppDatabaseError::QueryFailed)),
        SignedLogin::Refused(LoginRefusal::NotSignedUp)
    );
    assert_eq!(
        state.step(missing(AppDatabaseError::InteractionFailed)),
        SignedLogin::Refused(LoginRefusal::NotSignedUp)
    );
    assert_eq!(
        state.step(missing(AppDatabaseError::FailedToGetConnectionFromPool)),
        SignedLogin::Refused(LoginRefusal::ServerError)
    );
    assert_eq!(
        state.step(missing(AppDatabaseError::Other)),
        SignedLogin::Refused(LoginRefusal::ServerError)
    );
    assert_eq!(
        state.step(found(5, false)),
        SignedLogin::Refused(LoginRefusal::NotEnabled)
    );
    assert_eq!(
        ws_handler_v2(&client().text(), "scribble", NOW, NOW).step(found(5, true)),
        SignedLogin::Refused(LoginRefusal::InvalidSignature)
    );
    let other = pair().sign_message(&login_bytes(NOW - 1)).to_string();
    assert_eq!(
        ws_handler_v2(&client().text(), &other, NOW, NOW).step(found(5, true)),
        SignedLogin::Refused(LoginRefusal::NotSigned)
    );
}

#[test]
fn login_refusals_are_told() {
    let replies = [
        (LoginRefusal::TimestampTooOld, 401, "Timestamp too old."),
        (LoginRefusal::InvalidPubkey, 401, "Invalid pubkey"),
        (LoginRefusal::NotSignedUp, 401, "pubkey is not authorized to mine. please sign up."),
        (LoginRefusal::ServerError, 500, "Internal Server Error"),
        (LoginRefusal::NotEnabled, 401, "pubkey is not authorized to mine"),
        (LoginRefusal::InvalidSignature, 401, "Invalid signature"),
        (LoginRefusal::NotSigned, 401, "Sig verification failed"),
    ];
    for (refusal, code, body) in replies {
        let reply = refusal.reply();
        assert_eq!(reply.status.code(), code);
        assert_eq!(reply.body, body);
        assert_eq!(reply.content_type, ContentType::Plain);
    }
}

#[test]
fn unsigned_login_signs_up() {
    let start = ws_handler_pubkey(&client().text(), NOW, NOW);
    assert_eq!(start.stage, PubkeyLoginStage::AskMiner { pubkey: client() });
    assert_eq!(start.asked_miner(), Some(client().text()));
    let signing = start.step(missing(AppDatabaseError::Other));
    assert_eq!(signing.stage, PubkeyLoginStage::SignUp { pubkey: client() });
    let again = signing.step(LoginEvent::SignedUp(false));
    assert_eq!(again, PubkeyLogin { wait_millis: 500, stage: signing.stage });
    let asking = again.step(LoginEvent::SignedUp(true));
    assert_eq!(asking.wait_millis, 200);
    assert_eq!(asking.stage, PubkeyLoginStage::AskAgain { pubkey: client() });
    let accepted = asking.step(found(8, true));
    assert_eq!(
        accepted.stage,
        PubkeyLoginStage::Accepted { pubkey: client(), miner_id: 8 }
    );
    assert_eq!(accepted.asked_miner(), None);
    assert_eq!(
        asking.step(found(8, false)).stage,
        PubkeyLoginStage::Refused(LoginRefusal::NotEnabled)
    );
    assert_eq!(
        asking.step(missing(AppDatabaseError::QueryFailed)).stage,
        PubkeyLoginStage::Refused(LoginRefusal::ServerError)
    );
    assert_eq!(
        start.step(found(8, false)).stage,
        PubkeyLoginStage::AskAgain { pubkey: client() }
    );
    assert_eq!(
        ws_handler_pubkey("nobody", NOW, NOW).stage,
        PubkeyLoginStage::Refused(LoginRefusal::InvalidPubkey)
    );
    assert_eq!(
        ws_handler_pubkey(&client().text(), NOW + 1, NOW).stage,
        PubkeyLoginStage::Refused(LoginRefusal::TimestampTooOld)
    );
}

#[test]
fn signup_is_answered() {
    let start = post_signup_v2(&client().text());
    assert_eq!(start.asked_miner(), Some(client().text()));
    assert_eq!(start.step(found(1, true)), Signup::Answered(SignupReply::Exists));
    assert_eq!(start.step(found(1, false)), Signup::SignUp { pubkey: client() });
    assert_eq!(
        start.step(missing(AppDatabaseError::FailedToGetConnectionFromPool)),
        Signup::Answered(SignupReply::NoConnection)
    );
    let signing = start.step(missing(AppDatabaseError::QueryFailed));
    assert_eq!(signing.asked_miner(), Some(client().text()));
    assert_eq!(
        signing.step(LoginEvent::SignedUp(true)),
        Signup::Answered(SignupReply::SignedUp)
    );
    assert_eq!(
        signing.step(LoginEvent::SignedUp(false)),
        Signup::Answered(SignupReply::Failed)
    );
    assert_eq!(post_signup_v2("nobody"), Signup::Answered(SignupReply::InvalidPubkey));
    let replies = [
        (SignupReply::InvalidPubkey, 400, ContentType::Unset, "Invalid miner pubkey"),
        (SignupReply::Exists, 200, ContentType::Text, "EXISTS"),
        (SignupReply::NoConnection, 500, ContentType::Unset, "Failed to get db pool connection"),
        (SignupReply::SignedUp, 200, ContentType::Text, "SUCCESS"),
        (SignupReply::Failed, 500, ContentType::Unset, "Failed to add user to database"),
    ];
    for (reply, code, content_type, body) in replies {
        let reply = reply.reply();
        assert_eq!(reply.status.code(), code);
        assert_eq!(reply.content_type, content_type);
        assert_eq!(reply.body, body);
    }
}

#[test]
fn frames_are_understood() {
    let who = address(1);
    let uuid = ConnectionId { number: 77 };
    let mut solution: Vec<u8> = (0..57).collect();
    solution[0] = 2;
    let digest: [u8; 16] = solution[1..17].try_into().unwrap();
    let nonce: [u8; 8] = solution[17..25].try_into().unwrap();
    let cases = [
        (Frame::Text, None, true),
        (Frame::Ping, None, true),
        (Frame::Pong, Some(ClientMessage::Pong(who)), true),
        (Frame::Close, None, false),
        (Frame::Binary(vec![0]), Some(ClientMessage::Ready(who)), true),
        (Frame::Binary(vec![1, 9]), Some(ClientMessage::Mining(who)), true),
        (Frame::Binary(vec![3]), None, true),
        (
            Frame::Binary(solution.clone()),
            Some(ClientMessage::BestSolution(who, Solution::new(digest, nonce), uuid)),
            true,
        ),
    ];
    for (frame, message, goes_on) in cases {
        assert!(is_complete(&frame));
        assert_eq!(process_message(&frame, uuid, who), (message, goes_on));
    }
    assert!(!is_complete(&Frame::Binary(vec![])));
    solution.pop();
    assert!(!is_complete(&Frame::Binary(solution)));
}

#[test]
fn connection_identifiers_are_random() {
    let one = handle_socket(address(1), client(), 5, ClientVersion::V2).connection.uuid.number;
    let other = handle_socket(address(1), client(), 5, ClientVersion::V2).connection.uuid.number;
    assert_ne!(one, other);
    assert_eq!((one >> 76) & 0xf, 4);
    assert_eq!((one >> 62) & 0x3, 2);
}

#[test]
fn session_registers_and_disconnects() {
    let mut state = AppState::new();
    assert!(!state.paused);
    let first = handle_socket(address(1), client(), 5, ClientVersion::V2);
    assert_eq!(first.stage, SessionStage::Ping);
    assert_eq!(first.step(SessionEvent::Pinged(false)).stage, SessionStage::Closed);
    let first = first.step(SessionEvent::Pinged(true));
    assert_eq!(first.stage, SessionStage::Register);
    let first = first.register(&mut state);
    assert_eq!(first.stage, SessionStage::Receive);

    let second = handle_socket(address(1), client(), 5, ClientVersion::V2);
    let second = second.step(SessionEvent::Pinged(true));
    let second = second.register(&mut state);
    assert_eq!(second.stage, SessionStage::Closed);
    assert_eq!(second.disconnect(&mut state), second);
    assert_eq!(state.sockets.get(address(1)), Some(first.connection));

    let ready = Frame::Binary(vec![0]);
    assert_eq!(first.receive(&ready), (first, Some(ClientMessage::Ready(address(1)))));
    assert_eq!(second.receive(&ready), (second, None));
    assert_eq!(first.step(SessionEvent::Received(false)).stage, SessionStage::Disconnect);
    let (first, message) = first.receive(&Frame::Close);
    assert_eq!(message, None);
    assert_eq!(first.stage, SessionStage::Disconnect);
    let first = first.disconnect(&mut state);
    assert_eq!(state.sockets.get(address(1)), None);
    assert_eq!(first.stage, SessionStage::Closed);
}

#[test]
fn failed_pings_disconnect() {
    let mut state = AppState::new();
    for port in 1..5u16 {
        let session = handle_socket(address(port), client(), 5, ClientVersion::V2);
        assert!(state.register(session.who, session.connection));
    }
    let targets = state.ping_targets();
    assert_eq!(targets.len(), 4);
    let outcomes = vec![
        PingOutcome::Sent,
        PingOutcome::Failed(address(2)),
        PingOutcome::Lost,
        PingOutcome::Failed(address(4)),
        PingOutcome::Failed(address(9)),
    ];
    state.ping_check_system(&outcomes);
    assert_eq!(state.sockets.len(), 2);
    assert!(state.sockets.contains_key(address(1)));
    assert!(state.sockets.contains_key(address(3)));
    assert_eq!(PING_SECONDS, 30);
    assert_eq!(PING_BYTES, [1, 2, 3]);
}

#[test]
fn connected_miners_are_counted() {
    let mut state = AppState::new();
    let other = Pubkey { bytes: [4; 32] };
    let v6 = ClientAddr::V6 { ip6: 1, port: 1, flowinfo: 0, scope_id: 0 };
    for (who, key) in [(address(1), client()), (address(2), other), (v6, client())] {
        let session = handle_socket(who, key, 5, ClientVersion::V2);
        assert!(state.register(session.who, session.connection));
    }
    let all = get_connected_miners(None, &state);
    assert_eq!((all.status.code(), all.body.as_str()), (200, "3"));
    assert_eq!(all.content_type, ContentType::Unset);
    let key = client().text();
    assert_eq!(get_connected_miners(Some(&key), &state).body, "2");
    let key = Pubkey { bytes: [5; 32] }.text();
    assert_eq!(get_connected_miners(Some(&key), &state).body, "0");
    let bad = get_connected_miners(Some("nobody"), &state);
    assert_eq!((bad.status.code(), bad.body.as_str()), (400, "Invalid Pubkey"));
}

#[test]
fn text_for_all_clients() {
    let message = MessageInternalAllClients { text: "hello".to_string() };
    assert_eq!(message.text, "hello");
}
