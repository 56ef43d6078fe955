use sesame_client::ApiError;
use sesame_client::ControlType;
use sesame_client::HttpMethod;
use sesame_client::Sesame;
use sesame_client::SesameClient;
use sesame_client::TransportReply;
use sesame_client::sesame::interpret_control;
use sesame_client::make_sesame;

fn reply(status: u16, body: &str) -> TransportReply {
    TransportReply::Reply { status, body: body.to_string() }
}

fn no_content() -> TransportReply {
    TransportReply::Reply { status: 204, body: String::new() }
}

fn logged_in_client(token: &str) -> SesameClient {
    let client = SesameClient::new();
    let body = format!("{{\"authorization\":\"{}\"}}", token);
    client.login(&reply(200, &body)).unwrap();
    client
}

fn locked_device(client: &SesameClient) -> Sesame {
    make_sesame(
        client.session_handle(),
        "id1".to_string(),
        "door".to_string(),
        false,
        true,
        100,
    )
}

#[test]
fn lock_on_locked_device_fails_locally() {
    let client = SesameClient::new();
    let mut dev = locked_device(&client);
    match dev.lock_request() {
        Err(ApiError::InvalidTransition(m)) => {
            assert_eq!(m, "Sesame{id: id1, nickname: door}: already locked");
        }
        _ => panic!("locking a locked device must fail locally"),
    }
    // The guard decides before the reply is even looked at.
    match dev.lock(&no_content()) {
        Err(ApiError::InvalidTransition(m)) => {
            assert_eq!(m, "Sesame{id: id1, nickname: door}: already locked");
        }
        _ => panic!("locking a locked device must fail locally"),
    }
    assert!(!dev.is_unlocked());
}

#[test]
fn unlock_on_locked_device_builds_the_request() {
    let client = logged_in_client("T");
    let dev = locked_device(&client);
    let req = match dev.unlock_request() {
        Ok(req) => req,
        Err(_) => panic!("unlocking a locked device must proceed"),
    };
    assert_eq!(req.method, HttpMethod::Post);
    assert_eq!(req.url, "https://api.candyhouse.co/v1/sesames/id1/control");
    assert_eq!(
        req.headers,
        vec![
            ("X-Authorization".to_string(), "T".to_string()),
            ("Content-Type".to_string(), "application/json".to_string()),
        ]
    );
    assert_eq!(req.body, Some("{\"type\":\"unlock\"}".to_string()));
}

#[test]
fn control_before_login_is_not_authenticated() {
    let client = SesameClient::new();
    let mut dev = locked_device(&client);
    match dev.unlock_request() {
        Err(ApiError::NotAuthenticated) => {}
        _ => panic!("an unauthenticated control must fail"),
    }
    match dev.unlock(&no_content()) {
        Err(ApiError::NotAuthenticated) => {}
        _ => panic!("an unauthenticated control must fail"),
    }
    assert!(!dev.is_unlocked());
}

#[test]
fn successful_unlock_updates_state_and_blocks_repeat() {
    let client = logged_in_client("T");
    let mut dev = locked_device(&client);
    let r = dev.unlock(&no_content());
    assert_eq!(r, Ok(()));
    assert!(dev.is_unlocked());
    match dev.unlock(&no_content()) {
        Err(ApiError::InvalidTransition(m)) => {
            assert_eq!(m, "Sesame{id: id1, nickname: door}: already unlocked");
        }
        _ => panic!("a second unlock right after a success must fail locally"),
    }
}

#[test]
fn failed_unlock_preserves_state() {
    let client = logged_in_client("T");
    let mut dev = locked_device(&client);
    let r = dev.unlock(&reply(500, "{\"message\":\"device offline\"}"));
    assert_eq!(r, Err(ApiError::RemoteRejected("device offline".to_string())));
    assert!(!dev.is_unlocked());
}

#[test]
fn control_transport_failure_preserves_state() {
    let client = logged_in_client("T");
    let mut dev = locked_device(&client);
    let r = dev.unlock(&TransportReply::Failure { message: "broken pipe".to_string() });
    assert_eq!(r, Err(ApiError::TransportFailure("broken pipe".to_string())));
    assert!(!dev.is_unlocked());
}

#[test]
fn control_undecodable_error_body_is_protocol_error() {
    let client = logged_in_client("T");
    let mut dev = locked_device(&client);
    match dev.unlock(&reply(502, "bad gateway")) {
        Err(ApiError::ProtocolError(_)) => {}
        _ => panic!("an undecodable error body must be a ProtocolError"),
    }
    assert!(!dev.is_unlocked());
}

#[test]
fn lock_then_unlock_round_trip() {
    let client = logged_in_client("T");
    let mut dev = make_sesame(
        client.session_handle(),
        "id2".to_string(),
        "gate".to_string(),
        true,
        true,
        60,
    );
    assert_eq!(dev.lock(&no_content()), Ok(()));
    assert!(!dev.is_unlocked());
    assert_eq!(dev.unlock(&no_content()), Ok(()));
    assert!(dev.is_unlocked());
}

#[test]
fn apply_control_without_token_fails_after_the_guard() {
    let client = SesameClient::new();
    let mut dev = locked_device(&client);
    match dev.apply_control(false, ControlType::Unlock, &no_content()) {
        Err(ApiError::NotAuthenticated) => {}
        _ => panic!("the login check decides when the guard passes"),
    }
    match dev.apply_control(false, ControlType::Lock, &no_content()) {
        Err(ApiError::InvalidTransition(_)) => {}
        _ => panic!("the guard decides before the login check"),
    }
}

#[test]
fn interpret_control_succeeds_exactly_on_204() {
    assert_eq!(interpret_control(&no_content()), Ok(()));
    match interpret_control(&reply(200, "")) {
        Err(ApiError::ProtocolError(_)) => {}
        _ => panic!("a 200 on control is not success and carries no message"),
    }
    match interpret_control(&reply(401, "{\"message\":\"expired\"}")) {
        Err(ApiError::RemoteRejected(m)) => assert_eq!(m, "expired"),
        _ => panic!("a decoded error body must be surfaced verbatim"),
    }
}
