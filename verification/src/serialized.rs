//! Wire payload shapes, and their decoding.
//!
//! The four response bodies the remote API produces are decoded by
//! serde_json behind trusted wrappers; what each decode returns is a
//! function of the body text alone and carries a name
//! (`auth_token_of`, `message_of`, `sesame_body_of`, `sesame_list_of`)
//! that the wrappers' contracts and the interpretation functions share.

use vstd::prelude::*;

verus! {

/// Wire shape of one device fetched by id.
pub struct SesameBody {
    pub nickname: String,
    pub is_unlocked: bool,
    pub api_enabled: bool,
    pub battery: u64,
}

/// Wire shape of one entry of the device-list response.
pub struct SesameListElem {
    pub device_id: String,
    pub nickname: String,
    pub is_unlocked: bool,
    pub api_enabled: bool,
    pub battery: u64,
}

/// Wire shape of a server error message.
pub struct Message {
    pub message: String,
}

/// Wire shape of a successful login response.
pub struct AuthToken {
    pub authorization: String,
}

/// Wire shape of the device-list response.
pub struct SesameList {
    pub sesames: Vec<SesameListElem>,
}

/// The token of a login response body: what decoding `s` as an
/// `AuthToken` payload yields, `None` when `s` is not such a payload.
pub uninterp spec fn auth_token_of(s: Seq<char>) -> Option<Seq<char>>;

/// The text of an error response body: what decoding `s` as a `Message`
/// payload yields.
pub uninterp spec fn message_of(s: Seq<char>) -> Option<Seq<char>>;

/// The (nickname, is_unlocked, api_enabled, battery) fields of a
/// single-device response body.
pub uninterp spec fn sesame_body_of(s: Seq<char>) -> Option<(Seq<char>, bool, bool, u64)>;

/// The (device_id, nickname, is_unlocked, api_enabled, battery) entries of
/// a device-list response body, in order.
pub uninterp spec fn sesame_list_of(s: Seq<char>) -> Option<Seq<(Seq<char>, Seq<char>, bool, bool, u64)>>;

/// Model of one decoded list entry.
pub open spec fn elem_model(e: SesameListElem) -> (Seq<char>, Seq<char>, bool, bool, u64) {
    (e.device_id@, e.nickname@, e.is_unlocked, e.api_enabled, e.battery)
}

/// Relies on serde_json::from_str and serde_json::Value::{get, as_str}:
/// decodes `{"authorization": <token>}`. The result depends on the
/// characters of `s` alone.
#[verifier::external_body]
pub fn decode_auth_token(s: &str) -> (r: Option<AuthToken>)
    ensures
        (r is Some) == (auth_token_of(s@) is Some),
        r matches Some(a) ==> auth_token_of(s@) == Some(a.authorization@),
{
    let v: serde_json::Value = serde_json::from_str(s).ok()?;
    let authorization = v.get("authorization")?.as_str()?.to_string();
    Some(AuthToken { authorization })
}

/// Relies on serde_json::from_str and serde_json::Value::{get, as_str}:
/// decodes `{"message": <text>}`. The result depends on the characters of
/// `s` alone.
#[verifier::external_body]
pub fn decode_message(s: &str) -> (r: Option<Message>)
    ensures
        (r is Some) == (message_of(s@) is Some),
        r matches Some(m) ==> message_of(s@) == Some(m.message@),
{
    let v: serde_json::Value = serde_json::from_str(s).ok()?;
    let message = v.get("message")?.as_str()?.to_string();
    Some(Message { message })
}

/// Relies on serde_json::from_str and serde_json::Value::{get, as_str,
/// as_bool, as_u64}: decodes a single-device body. The result depends on
/// the characters of `s` alone.
#[verifier::external_body]
pub fn decode_sesame_body(s: &str) -> (r: Option<SesameBody>)
    ensures
        (r is Some) == (sesame_body_of(s@) is Some),
        r matches Some(b) ==> sesame_body_of(s@) == Some(
            (b.nickname@, b.is_unlocked, b.api_enabled, b.battery),
        ),
{
    let v: serde_json::Value = serde_json::from_str(s).ok()?;
    Some(SesameBody {
        nickname: v.get("nickname")?.as_str()?.to_string(),
        is_unlocked: v.get("is_unlocked")?.as_bool()?,
        api_enabled: v.get("api_enabled")?.as_bool()?,
        battery: v.get("battery")?.as_u64()?,
    })
}

/// Relies on serde_json::from_str and serde_json::Value::{get, as_array,
/// as_str, as_bool, as_u64}: decodes `{"sesames": [...]}` entry by entry.
/// The result depends on the characters of `s` alone.
#[verifier::external_body]
pub fn decode_sesame_list(s: &str) -> (r: Option<SesameList>)
    ensures
        (r is Some) == (sesame_list_of(s@) is Some),
        r matches Some(l) ==> {
            &&& sesame_list_of(s@) matches Some(m)
            &&& l.sesames@.len() == m.len()
            &&& forall|i: int| 0 <= i < m.len() ==> m[i] == elem_model(#[trigger] l.sesames@[i])
        },
{
    let v: serde_json::Value = serde_json::from_str(s).ok()?;
    let mut sesames: Vec<SesameListElem> = Vec::new();
    for e in v.get("sesames")?.as_array()? {
        sesames.push(SesameListElem {
            device_id: e.get("device_id")?.as_str()?.to_string(),
            nickname: e.get("nickname")?.as_str()?.to_string(),
            is_unlocked: e.get("is_unlocked")?.as_bool()?,
            api_enabled: e.get("api_enabled")?.as_bool()?,
            battery: e.get("battery")?.as_u64()?,
        });
    }
    Some(SesameList { sesames })
}

} // verus!
