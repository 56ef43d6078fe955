//! The shared session and the client facade.
//!
//! `ClientBody` is the canonical session state: the authentication token
//! placed by a successful login. `SesameClient` shares one `ClientBody`
//! under a reader-writer lock with every device made from it, so a token
//! update through any handle is visible through all of them.

use std::sync::Arc;
use vstd::prelude::*;
use vstd::rwlock::RwLock;
use vstd::rwlock::RwLockPredicate;
use vstd::string::*;

use crate::error::ApiError;
use crate::error::ApiErrorView;
use crate::http::HttpMethod;
use crate::http::HttpRequest;
use crate::http::HttpRequestView;
use crate::http::TransportReply;
use crate::http::TransportReplyView;
use crate::serialized::SesameBody;
use crate::serialized::SesameList;
use crate::serialized::auth_token_of;
use crate::serialized::decode_auth_token;
use crate::serialized::decode_message;
use crate::serialized::decode_sesame_body;
use crate::serialized::decode_sesame_list;
use crate::serialized::elem_model;
use crate::serialized::message_of;
use crate::serialized::sesame_body_of;
use crate::serialized::sesame_list_of;
use crate::sesame::Sesame;
use crate::sesame::SesameView;
use crate::sesame::make_sesame;
use crate::utility::content_type_name;
use crate::utility::content_type_name_spec;
use crate::utility::json_mime;
use crate::utility::json_mime_spec;
use crate::utility::login_url;
use crate::utility::login_url_spec;
use crate::utility::sesame_list_url;
use crate::utility::sesame_list_url_spec;
use crate::utility::sesame_url;
use crate::utility::sesame_url_spec;
use crate::utility::x_authorization;
use crate::utility::x_authorization_spec;

verus! {

/// The session state every handle shares: the token is `None` until a
/// successful login and is only ever replaced whole.
pub struct ClientBody {
    pub auth_token: Option<String>,
}

/// Lock predicate of the shared session: any token value may be stored.
pub struct SessionPred {}

impl RwLockPredicate<ClientBody> for SessionPred {
    open spec fn inv(self, v: ClientBody) -> bool {
        true
    }
}

/// The reader-writer lock guarding the shared session state. Token reads
/// take a shared hold; login takes an exclusive hold, so a token update
/// never interleaves with a read.
pub type SessionLock = RwLock<ClientBody, SessionPred>;

/// Relies on std::sync::Arc::clone: the returned handle points to the same
/// allocation as `h`, so the two are equal as spec values.
#[verifier::external_body]
pub(crate) fn clone_handle(h: &Arc<SessionLock>) -> (r: Arc<SessionLock>)
    ensures
        r == *h,
{
    Arc::clone(h)
}

/// What a login attempt returns for each transport reply: the token on a
/// decodable 200; the server's message on any other status; a protocol
/// error when the body that the status calls for does not decode.
pub open spec fn login_outcome(reply: TransportReplyView) -> Result<Seq<char>, ApiErrorView> {
    match reply {
        TransportReplyView::Failure { message } => Err(ApiErrorView::TransportFailure(message)),
        TransportReplyView::Reply { status, body } => {
            if status == 200 {
                match auth_token_of(body) {
                    Some(token) => Ok(token),
                    None => Err(ApiErrorView::ProtocolError),
                }
            } else {
                match message_of(body) {
                    Some(message) => Err(ApiErrorView::RemoteRejected(message)),
                    None => Err(ApiErrorView::ProtocolError),
                }
            }
        },
    }
}

/// What interpreting a device-list reply returns: the decoded entries on a
/// decodable 200; the server's message on any other status; a protocol
/// error when the body that the status calls for does not decode.
pub open spec fn list_outcome(reply: TransportReplyView) -> Result<
    Seq<(Seq<char>, Seq<char>, bool, bool, u64)>,
    ApiErrorView,
> {
    match reply {
        TransportReplyView::Failure { message } => Err(ApiErrorView::TransportFailure(message)),
        TransportReplyView::Reply { status, body } => {
            if status == 200 {
                match sesame_list_of(body) {
                    Some(entries) => Ok(entries),
                    None => Err(ApiErrorView::ProtocolError),
                }
            } else {
                match message_of(body) {
                    Some(message) => Err(ApiErrorView::RemoteRejected(message)),
                    None => Err(ApiErrorView::ProtocolError),
                }
            }
        },
    }
}

/// What interpreting a single-device reply returns: the decoded
/// (nickname, is_unlocked, api_enabled, battery) fields on a decodable
/// 200, and the matching error otherwise.
pub open spec fn device_outcome(reply: TransportReplyView) -> Result<
    (Seq<char>, bool, bool, u64),
    ApiErrorView,
> {
    match reply {
        TransportReplyView::Failure { message } => Err(ApiErrorView::TransportFailure(message)),
        TransportReplyView::Reply { status, body } => {
            if status == 200 {
                match sesame_body_of(body) {
                    Some(fields) => Ok(fields),
                    None => Err(ApiErrorView::ProtocolError),
                }
            } else {
                match message_of(body) {
                    Some(message) => Err(ApiErrorView::RemoteRejected(message)),
                    None => Err(ApiErrorView::ProtocolError),
                }
            }
        },
    }
}

/// The text used when a response body cannot be decoded.
pub(crate) fn protocol_error_text() -> String {
    String::from_str("response body did not match the expected schema")
}

/// Interpret the transport's reply to a login request, without touching
/// any session: the exact, total counterpart of [`login_outcome`].
pub fn interpret_login(reply: &TransportReply) -> (r: Result<String, ApiError>)
    ensures
        r matches Ok(t) ==> (login_outcome(reply@) matches Ok(tv) && t@ == tv),
        r matches Err(e) ==> (login_outcome(reply@) matches Err(ev) && e@ == ev),
{
    match reply {
        TransportReply::Failure { message } => Err(ApiError::TransportFailure(message.clone())),
        TransportReply::Reply { status, body } => {
            if *status == 200u16 {
                match decode_auth_token(body.as_str()) {
                    Some(a) => Ok(a.authorization),
                    None => Err(ApiError::ProtocolError(protocol_error_text())),
                }
            } else {
                match decode_message(body.as_str()) {
                    Some(m) => Err(ApiError::RemoteRejected(m.message)),
                    None => Err(ApiError::ProtocolError(protocol_error_text())),
                }
            }
        },
    }
}

/// Interpret the transport's reply to a device-list request, without
/// touching any session: the exact, total counterpart of [`list_outcome`].
pub fn interpret_list(reply: &TransportReply) -> (r: Result<SesameList, ApiError>)
    ensures
        r matches Err(e) ==> (list_outcome(reply@) matches Err(ev) && e@ == ev),
        r matches Ok(l) ==> ({
            &&& list_outcome(reply@) matches Ok(m)
            &&& l.sesames@.len() == m.len()
            &&& forall|i: int| 0 <= i < m.len() ==> m[i] == elem_model(#[trigger] l.sesames@[i])
        }),
{
    match reply {
        TransportReply::Failure { message } => Err(ApiError::TransportFailure(message.clone())),
        TransportReply::Reply { status, body } => {
            if *status == 200u16 {
                match decode_sesame_list(body.as_str()) {
                    Some(l) => Ok(l),
                    None => Err(ApiError::ProtocolError(protocol_error_text())),
                }
            } else {
                match decode_message(body.as_str()) {
                    Some(m) => Err(ApiError::RemoteRejected(m.message)),
                    None => Err(ApiError::ProtocolError(protocol_error_text())),
                }
            }
        },
    }
}

/// Interpret the transport's reply to a single-device request, without
/// touching any session: the exact, total counterpart of
/// [`device_outcome`].
pub fn interpret_device(reply: &TransportReply) -> (r: Result<SesameBody, ApiError>)
    ensures
        r matches Err(e) ==> (device_outcome(reply@) matches Err(ev) && e@ == ev),
        r matches Ok(b) ==> (device_outcome(reply@) matches Ok(f) && f == (
            b.nickname@,
            b.is_unlocked,
            b.api_enabled,
            b.battery,
        )),
{
    match reply {
        TransportReply::Failure { message } => Err(ApiError::TransportFailure(message.clone())),
        TransportReply::Reply { status, body } => {
            if *status == 200u16 {
                match decode_sesame_body(body.as_str()) {
                    Some(b) => Ok(b),
                    None => Err(ApiError::ProtocolError(protocol_error_text())),
                }
            } else {
                match decode_message(body.as_str()) {
                    Some(m) => Err(ApiError::RemoteRejected(m.message)),
                    None => Err(ApiError::ProtocolError(protocol_error_text())),
                }
            }
        },
    }
}

impl ClientBody {
    /// The "logged in" check: the stored token, or `NotAuthenticated`.
    pub fn get_token_with_check(&self) -> (r: Result<String, ApiError>)
        ensures
            self.auth_token matches Some(t) ==> (r matches Ok(rt) && rt == t),
            self.auth_token is None ==> (r matches Err(e) && e@ == ApiErrorView::NotAuthenticated),
    {
        match &self.auth_token {
            Some(token) => Ok(token.clone()),
            None => Err(ApiError::NotAuthenticated),
        }
    }

    /// Apply a login reply to this session state: on success the stored
    /// token is replaced whole; on any failure it is untouched.
    pub fn apply_login(&mut self, reply: &TransportReply) -> (r: Result<(), ApiError>)
        ensures
            login_outcome(reply@) matches Ok(token) ==> ({
                &&& r is Ok
                &&& final(self).auth_token matches Some(t)
                &&& t@ == token
            }),
            login_outcome(reply@) matches Err(ev) ==> ({
                &&& r matches Err(e)
                &&& e@ == ev
                &&& final(self).auth_token == old(self).auth_token
            }),
    {
        match interpret_login(reply) {
            Ok(token) => {
                self.auth_token = Some(token);
                Ok(())
            },
            Err(e) => Err(e),
        }
    }
}

/// The client facade: owns the shared session lock and exposes login and
/// device listing over it.
pub struct SesameClient {
    body: Arc<SessionLock>,
}

/// The login request: POST of the credentials as JSON, no authorization.
pub open spec fn login_request_spec(email: Seq<char>, password: Seq<char>) -> HttpRequestView {
    HttpRequestView {
        method: HttpMethod::Post,
        url: login_url_spec(),
        headers: seq![(content_type_name_spec(), json_mime_spec())],
        body: Some(login_body_spec(email, password)),
    }
}

/// The JSON body of a login request.
pub open spec fn login_body_spec(email: Seq<char>, password: Seq<char>) -> Seq<char> {
    "{\"email\":\""@ + email + "\", \"password\":\""@ + password + "\"}"@
}

/// Build the JSON body of a login request.
pub fn login_body(email: &str, password: &str) -> (s: String)
    ensures
        s@ == login_body_spec(email@, password@),
{
    let mut s = String::from_str("{\"email\":\"");
    s.append(email);
    s.append("\", \"password\":\"");
    s.append(password);
    s.append("\"}");
    proof {
        assert(s@ =~= login_body_spec(email@, password@));
    }
    s
}

/// An authorized request without a body: the given method and URL, with
/// the token attached as the vendor's authorization header.
pub open spec fn authorized_request_spec(
    method: HttpMethod,
    url: Seq<char>,
    token: Seq<char>,
) -> HttpRequestView {
    HttpRequestView {
        method,
        url,
        headers: seq![(x_authorization_spec(), token)],
        body: None,
    }
}

/// Build an authorized request: exactly the token handed in is attached.
pub fn authorized_request(method: HttpMethod, url: String, token: String) -> (r: HttpRequest)
    ensures
        r@ == authorized_request_spec(method, url@, token@),
{
    let mut headers: Vec<(String, String)> = Vec::new();
    headers.push((String::from_str(x_authorization()), token));
    let r = HttpRequest { method, url, headers, body: None };
    proof {
        assert(r@ =~~= authorized_request_spec(method, r.url@, r.headers@[0].1@));
    }
    r
}

/// The device-list request: an authorized GET without a body.
pub open spec fn list_request_spec(token: Seq<char>) -> HttpRequestView {
    authorized_request_spec(HttpMethod::Get, sesame_list_url_spec(), token)
}

/// The single-device request: an authorized GET without a body.
pub open spec fn get_request_spec(device_id: Seq<char>, token: Seq<char>) -> HttpRequestView {
    authorized_request_spec(HttpMethod::Get, sesame_url_spec(device_id), token)
}

/// One constructed device agrees with one decoded list entry and shares
/// the given session.
pub open spec fn sesame_matches(
    s: SesameView,
    e: (Seq<char>, Seq<char>, bool, bool, u64),
    session: Arc<SessionLock>,
) -> bool {
    &&& s.session == session
    &&& s.device_id == e.0
    &&& s.nickname == e.1
    &&& s.is_unlocked == e.2
    &&& s.api_enabled == e.3
    &&& s.battery == e.4
}

impl SesameClient {
    /// The session lock this client shares with every device made from it.
    pub closed spec fn session(&self) -> Arc<SessionLock> {
        self.body
    }

    /// A fresh client: no token is stored until a successful login.
    pub fn new() -> SesameClient {
        SesameClient {
            body: Arc::new(RwLock::new(ClientBody { auth_token: None }, Ghost(SessionPred {}))),
        }
    }

    /// A shared handle to the session, for constructing devices directly.
    pub fn session_handle(&self) -> (h: Arc<SessionLock>)
        ensures
            h == self.session(),
    {
        clone_handle(&self.body)
    }

    /// The "logged in" check, through a shared hold of the session lock.
    pub fn get_token_with_check(&self) -> (r: Result<String, ApiError>)
        ensures
            r matches Err(e) ==> e@ == ApiErrorView::NotAuthenticated,
    {
        let read = self.body.acquire_read();
        let r = read.borrow().get_token_with_check();
        read.release_read();
        r
    }

    /// Build the login request for these credentials.
    pub fn login_request(email: &str, password: &str) -> (r: HttpRequest)
        ensures
            r@ == login_request_spec(email@, password@),
    {
        let mut headers: Vec<(String, String)> = Vec::new();
        headers.push((String::from_str(content_type_name()), String::from_str(json_mime())));
        let r = HttpRequest {
            method: HttpMethod::Post,
            url: login_url(),
            headers,
            body: Some(login_body(email, password)),
        };
        proof {
            assert(r@ =~~= login_request_spec(email@, password@));
        }
        r
    }

    /// Build the authorized device-list request, or fail with
    /// `NotAuthenticated` before anything is sent.
    pub fn list_request(&self) -> (r: Result<HttpRequest, ApiError>)
        ensures
            r matches Ok(req) ==> exists|t: Seq<char>| req@ == list_request_spec(t),
            r matches Err(e) ==> e@ == ApiErrorView::NotAuthenticated,
    {
        match self.get_token_with_check() {
            Err(e) => Err(e),
            Ok(token) => {
                let req = authorized_request(HttpMethod::Get, sesame_list_url(), token);
                proof {
                    assert(req@ == list_request_spec(req@.headers[0].1));
                }
                Ok(req)
            },
        }
    }

    /// Build the authorized single-device request, or fail with
    /// `NotAuthenticated` before anything is sent.
    pub fn get_request(&self, device_id: &str) -> (r: Result<HttpRequest, ApiError>)
        ensures
            r matches Ok(req) ==> exists|t: Seq<char>| req@ == get_request_spec(device_id@, t),
            r matches Err(e) ==> e@ == ApiErrorView::NotAuthenticated,
    {
        match self.get_token_with_check() {
            Err(e) => Err(e),
            Ok(token) => {
                let req = authorized_request(HttpMethod::Get, sesame_url(device_id), token);
                proof {
                    assert(req@ == get_request_spec(device_id@, req@.headers[0].1));
                }
                Ok(req)
            },
        }
    }

    /// Complete a device-list call with the transport's reply to
    /// [`SesameClient::list_request`]: requires a token, then constructs
    /// one device per decoded entry, each sharing this client's session.
    pub fn list_sesames(&self, reply: &TransportReply) -> (r: Result<Vec<Sesame>, ApiError>)
        ensures
            r matches Err(e) ==> (e@ == ApiErrorView::NotAuthenticated || (list_outcome(reply@)
                matches Err(ev) && e@ == ev)),
            r matches Ok(v) ==> ({
                &&& list_outcome(reply@) matches Ok(m)
                &&& v@.len() == m.len()
                &&& forall|i: int|
                    0 <= i < m.len() ==> sesame_matches(#[trigger] v@[i]@, m[i], self.session())
            }),
    {
        match self.get_token_with_check() {
            Err(e) => Err(e),
            Ok(_token) => match interpret_list(reply) {
                Err(e) => Err(e),
                Ok(list) => {
                    let n = list.sesames.len();
                    let mut out: Vec<Sesame> = Vec::new();
                    let mut i: usize = 0;
                    while i < n
                        invariant
                            i <= n,
                            n == list.sesames@.len(),
                            out@.len() == i as int,
                            forall|j: int|
                                0 <= j < i as int ==> sesame_matches(
                                    #[trigger] out@[j]@,
                                    elem_model(list.sesames@[j]),
                                    self.session(),
                                ),
                        decreases n - i,
                    {
                        let e = &list.sesames[i];
                        let s = make_sesame(
                            clone_handle(&self.body),
                            e.device_id.clone(),
                            e.nickname.clone(),
                            e.is_unlocked,
                            e.api_enabled,
                            e.battery,
                        );
                        out.push(s);
                        i = i + 1;
                    }
                    Ok(out)
                },
            },
        }
    }

    /// Complete a single-device call with the transport's reply to
    /// [`SesameClient::get_request`]: requires a token, then constructs a
    /// device with the decoded fields, sharing this client's session.
    pub fn get_sesame(&self, device_id: String, reply: &TransportReply) -> (r: Result<
        Sesame,
        ApiError,
    >)
        ensures
            r matches Err(e) ==> (e@ == ApiErrorView::NotAuthenticated || (device_outcome(reply@)
                matches Err(ev) && e@ == ev)),
            r matches Ok(s) ==> ({
                &&& device_outcome(reply@) matches Ok(f)
                &&& s@.session == self.session()
                &&& s@.device_id == device_id@
                &&& s@.nickname == f.0
                &&& s@.is_unlocked == f.1
                &&& s@.api_enabled == f.2
                &&& s@.battery == f.3
            }),
    {
        match self.get_token_with_check() {
            Err(e) => Err(e),
            Ok(_token) => match interpret_device(reply) {
                Err(e) => Err(e),
                Ok(body) => Ok(
                    make_sesame(
                        clone_handle(&self.body),
                        device_id,
                        body.nickname,
                        body.is_unlocked,
                        body.api_enabled,
                        body.battery,
                    ),
                ),
            },
        }
    }

    /// Complete a login attempt with the transport's reply to
    /// [`SesameClient::login_request`]. The reply is applied to the shared
    /// session under an exclusive hold: on a decodable 200 the token is
    /// replaced whole, on any failure it is untouched.
    pub fn login(&self, reply: &TransportReply) -> (r: Result<(), ApiError>)
        ensures
            r is Ok <==> login_outcome(reply@) is Ok,
            r matches Err(e) ==> (login_outcome(reply@) matches Err(ev) && e@ == ev),
    {
        let (mut body, handle) = self.body.acquire_write();
        let r = body.apply_login(reply);
        handle.release_write(body);
        r
    }
}

} // verus!
