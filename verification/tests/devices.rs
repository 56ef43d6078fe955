use sesame_client::ApiError;
use sesame_client::ControlType;
use sesame_client::HttpMethod;
use sesame_client::SesameClient;
use sesame_client::TransportReply;
use sesame_client::client::interpret_device;
use sesame_client::make_sesame;

fn reply(status: u16, body: &str) -> TransportReply {
    TransportReply::Reply { status, body: body.to_string() }
}

fn logged_in_client(token: &str) -> SesameClient {
    let client = SesameClient::new();
    let body = format!("{{\"authorization\":\"{}\"}}", token);
    client.login(&reply(200, &body)).unwrap();
    client
}

const LIST_OF_TWO: &str = "{\"sesames\":[\
{\"device_id\":\"a\",\"nickname\":\"front\",\"is_unlocked\":false,\"api_enabled\":true,\"battery\":80},\
{\"device_id\":\"b\",\"nickname\":\"back\",\"is_unlocked\":true,\"api_enabled\":false,\"battery\":55}]}";

#[test]
fn list_before_login_is_not_authenticated() {
    let client = SesameClient::new();
    match client.list_request() {
        Err(ApiError::NotAuthenticated) => {}
        _ => panic!("no request may be built before login"),
    }
    match client.list_sesames(&reply(200, LIST_OF_TWO)) {
        Err(ApiError::NotAuthenticated) => {}
        _ => panic!("listing before login must fail with NotAuthenticated"),
    }
}

#[test]
fn listing_round_trip_shares_the_session() {
    let client = logged_in_client("T");
    let devices = client.list_sesames(&reply(200, LIST_OF_TWO)).unwrap_or_else(|_| panic!("listing must succeed"));
    assert_eq!(devices.len(), 2);
    assert_eq!(devices[0].device_id(), "a");
    assert_eq!(devices[0].nickname(), "front");
    assert!(!devices[0].is_unlocked());
    assert!(devices[0].api_enabled());
    assert_eq!(devices[0].battery(), 80);
    assert_eq!(devices[1].device_id(), "b");
    assert_eq!(devices[1].nickname(), "back");
    assert!(devices[1].is_unlocked());
    assert!(!devices[1].api_enabled());
    assert_eq!(devices[1].battery(), 55);
    // The devices share the client's session: the token it stored is the one
    // they attach, and a token update through the client is visible to them.
    let req = match devices[1].lock_request() {
        Ok(req) => req,
        Err(_) => panic!("an unlocked device must build a lock request"),
    };
    assert_eq!(req.headers[0], ("X-Authorization".to_string(), "T".to_string()));
    client.login(&reply(200, "{\"authorization\":\"U\"}")).unwrap();
    let req = match devices[1].lock_request() {
        Ok(req) => req,
        Err(_) => panic!("an unlocked device must build a lock request"),
    };
    assert_eq!(req.headers[0], ("X-Authorization".to_string(), "U".to_string()));
}

#[test]
fn listing_of_empty_list_yields_no_devices() {
    let client = logged_in_client("T");
    let devices = client.list_sesames(&reply(200, "{\"sesames\":[]}")).unwrap_or_else(|_| panic!("listing must succeed"));
    assert_eq!(devices.len(), 0);
}

#[test]
fn listing_error_is_surfaced() {
    let client = logged_in_client("T");
    match client.list_sesames(&reply(500, "{\"message\":\"listing broke\"}")) {
        Err(ApiError::RemoteRejected(m)) => assert_eq!(m, "listing broke"),
        _ => panic!("a decoded error body must be surfaced verbatim"),
    }
    match client.list_sesames(&TransportReply::Failure { message: "timeout".to_string() }) {
        Err(ApiError::TransportFailure(m)) => assert_eq!(m, "timeout"),
        _ => panic!("a transport failure must be surfaced"),
    }
    match client.list_sesames(&reply(500, "garbage")) {
        Err(ApiError::ProtocolError(_)) => {}
        _ => panic!("an undecodable error body must be a ProtocolError"),
    }
}

#[test]
fn get_sesame_round_trip() {
    let client = logged_in_client("T");
    let req = client.get_request("a").unwrap_or_else(|_| panic!("logged in, so a request is built"));
    assert_eq!(req.method, HttpMethod::Get);
    assert_eq!(req.url, "https://api.candyhouse.co/v1/sesames/a");
    let body = "{\"nickname\":\"front\",\"is_unlocked\":true,\"api_enabled\":true,\"battery\":42}";
    let device = match client.get_sesame("a".to_string(), &reply(200, body)) {
        Ok(d) => d,
        Err(_) => panic!("a decodable 200 body must yield a device"),
    };
    assert_eq!(device.device_id(), "a");
    assert_eq!(device.nickname(), "front");
    assert!(device.is_unlocked());
    assert!(device.api_enabled());
    assert_eq!(device.battery(), 42);
}

#[test]
fn get_sesame_error_is_surfaced() {
    let client = logged_in_client("T");
    match client.get_sesame("a".to_string(), &reply(404, "{\"message\":\"no such device\"}")) {
        Err(ApiError::RemoteRejected(m)) => assert_eq!(m, "no such device"),
        _ => panic!("a decoded error body must be surfaced verbatim"),
    }
}

#[test]
fn interpret_device_decodes_every_field() {
    let body = "{\"nickname\":\"n\",\"is_unlocked\":false,\"api_enabled\":true,\"battery\":7}";
    let b = match interpret_device(&reply(200, body)) {
        Ok(b) => b,
        Err(_) => panic!("a decodable body must decode"),
    };
    assert_eq!(b.nickname, "n");
    assert!(!b.is_unlocked);
    assert!(b.api_enabled);
    assert_eq!(b.battery, 7);
}

#[test]
fn control_type_wire_names() {
    assert_eq!(ControlType::Lock.as_str(), "lock");
    assert_eq!(ControlType::Unlock.as_str(), "unlock");
}

#[test]
fn make_sesame_keeps_its_fields() {
    let client = SesameClient::new();
    let dev = make_sesame(
        client.session_handle(),
        "id9".to_string(),
        "shed".to_string(),
        true,
        false,
        3,
    );
    assert_eq!(dev.device_id(), "id9");
    assert_eq!(dev.nickname(), "shed");
    assert!(dev.is_unlocked());
    assert!(!dev.api_enabled());
    assert_eq!(dev.battery(), 3);
}
