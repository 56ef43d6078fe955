use sesame_client::ApiError;
use sesame_client::TransportReply;
use sesame_client::client::interpret_list;
use sesame_client::utility::control_url;
use sesame_client::utility::login_url;
use sesame_client::utility::sesame_list_url;
use sesame_client::utility::sesame_url;

#[test]
fn urls_are_built_from_the_fixed_base() {
    assert_eq!(login_url(), "https://api.candyhouse.co/v1/accounts/login");
    assert_eq!(sesame_list_url(), "https://api.candyhouse.co/v1/sesames");
    assert_eq!(sesame_url("abc"), "https://api.candyhouse.co/v1/sesames/abc");
    assert_eq!(control_url("abc"), "https://api.candyhouse.co/v1/sesames/abc/control");
}

#[test]
fn interpret_list_decodes_entries_in_order() {
    let body = "{\"sesames\":[\
{\"device_id\":\"a\",\"nickname\":\"front\",\"is_unlocked\":false,\"api_enabled\":true,\"battery\":80},\
{\"device_id\":\"b\",\"nickname\":\"back\",\"is_unlocked\":true,\"api_enabled\":false,\"battery\":55}]}";
    let list = match interpret_list(&TransportReply::Reply { status: 200, body: body.to_string() }) {
        Ok(l) => l,
        Err(_) => panic!("a decodable list must decode"),
    };
    assert_eq!(list.sesames.len(), 2);
    assert_eq!(list.sesames[0].device_id, "a");
    assert_eq!(list.sesames[0].nickname, "front");
    assert!(!list.sesames[0].is_unlocked);
    assert!(list.sesames[0].api_enabled);
    assert_eq!(list.sesames[0].battery, 80);
    assert_eq!(list.sesames[1].device_id, "b");
    assert_eq!(list.sesames[1].battery, 55);
}

#[test]
fn interpret_list_rejects_a_malformed_list() {
    match interpret_list(&TransportReply::Reply { status: 200, body: "{\"sesames\":7}".to_string() }) {
        Err(ApiError::ProtocolError(_)) => {}
        _ => panic!("a malformed list body must be a ProtocolError"),
    }
}
