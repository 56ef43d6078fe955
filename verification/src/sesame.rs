//! One lock device, with its guarded control state machine.

use std::sync::Arc;
use vstd::prelude::*;
use vstd::string::*;

use crate::client::SessionLock;
use crate::client::protocol_error_text;
use crate::error::ApiError;
use crate::error::ApiErrorView;
use crate::http::HttpMethod;
use crate::http::HttpRequest;
use crate::http::HttpRequestView;
use crate::http::TransportReply;
use crate::http::TransportReplyView;
use crate::serialized::decode_message;
use crate::serialized::message_of;
use crate::utility::content_type_name;
use crate::utility::content_type_name_spec;
use crate::utility::control_url;
use crate::utility::control_url_spec;
use crate::utility::json_mime;
use crate::utility::json_mime_spec;
use crate::utility::x_authorization;
use crate::utility::x_authorization_spec;

verus! {

/// The requested target action of a control call.
#[derive(Copy, Clone, Debug, PartialEq, Eq, Structural)]
pub enum ControlType {
    Lock,
    Unlock,
}

/// The wire name of a control intent.
pub open spec fn ctype_name(c: ControlType) -> Seq<char> {
    match c {
        ControlType::Lock => "lock"@,
        ControlType::Unlock => "unlock"@,
    }
}

impl ControlType {
    /// The wire name of the intent, as the control body carries it.
    pub fn as_str(&self) -> (s: &'static str)
        ensures
            s@ == ctype_name(*self),
    {
        match self {
            ControlType::Lock => "lock",
            ControlType::Unlock => "unlock",
        }
    }
}

/// One lock device: a shared handle to its client's session, the
/// server-assigned id, and the last-known remote state.
pub struct Sesame {
    client: Arc<SessionLock>,
    device_id: String,
    nickname: String,
    is_unlocked: bool,
    api_enabled: bool,
    battery: u64,
}

/// Model of a device: its cached fields and the identity of its session.
#[verifier::ext_equal]
pub struct SesameView {
    pub session: Arc<SessionLock>,
    pub device_id: Seq<char>,
    pub nickname: Seq<char>,
    pub is_unlocked: bool,
    pub api_enabled: bool,
    pub battery: u64,
}

impl View for Sesame {
    type V = SesameView;

    closed spec fn view(&self) -> SesameView {
        SesameView {
            session: self.client,
            device_id: self.device_id@,
            nickname: self.nickname@,
            is_unlocked: self.is_unlocked,
            api_enabled: self.api_enabled,
            battery: self.battery,
        }
    }
}

/// Construct a device that shares the given session.
pub fn make_sesame(
    client: Arc<SessionLock>,
    device_id: String,
    nickname: String,
    is_unlocked: bool,
    api_enabled: bool,
    battery: u64,
) -> (s: Sesame)
    ensures
        s@ == (SesameView {
            session: client,
            device_id: device_id@,
            nickname: nickname@,
            is_unlocked,
            api_enabled,
            battery,
        }),
{
    Sesame { client, device_id, nickname, is_unlocked, api_enabled, battery }
}

impl Sesame {
    /// get device_id
    pub fn device_id(&self) -> (r: String)
        ensures
            r@ == self@.device_id,
    {
        self.device_id.clone()
    }

    /// get nickname
    pub fn nickname(&self) -> (r: String)
        ensures
            r@ == self@.nickname,
    {
        self.nickname.clone()
    }

    /// The last-known cached state: `true` when unlocked.
    pub fn is_unlocked(&self) -> (r: bool)
        ensures
            r == self@.is_unlocked,
    {
        self.is_unlocked
    }

    /// Whether the remote API may control this device.
    pub fn api_enabled(&self) -> (r: bool)
        ensures
            r == self@.api_enabled,
    {
        self.api_enabled
    }

    /// Battery level, an integer percentage.
    pub fn battery(&self) -> (r: u64)
        ensures
            r == self@.battery,
    {
        self.battery
    }
}

/// The cached state an intent aims for: unlocked for `Unlock`, locked for
/// `Lock`.
pub open spec fn target_unlocked(c: ControlType) -> bool {
    c is Unlock
}

/// The local guard: an intent is rejected without any network call when
/// the cached state already equals its target.
pub open spec fn guard_blocks(s: SesameView, c: ControlType) -> bool {
    s.is_unlocked == target_unlocked(c)
}

/// The message of an `InvalidTransition`, naming the device and the
/// intent.
pub open spec fn already_message(s: SesameView, c: ControlType) -> Seq<char> {
    "Sesame{id: "@ + s.device_id + ", nickname: "@ + s.nickname + "}: already "@ + ctype_name(c)
        + "ed"@
}

/// The JSON body of a control request.
pub open spec fn control_body_spec(c: ControlType) -> Seq<char> {
    "{\"type\":\""@ + ctype_name(c) + "\"}"@
}

/// Build the JSON body of a control request.
pub fn control_body(c: ControlType) -> (s: String)
    ensures
        s@ == control_body_spec(c),
{
    let mut s = String::from_str("{\"type\":\"");
    s.append(c.as_str());
    s.append("\"}");
    proof {
        assert(s@ =~= control_body_spec(c));
    }
    s
}

/// The control request: a POST to the device's control endpoint carrying
/// the session token and a JSON body naming the intent.
pub open spec fn control_request_spec(
    device_id: Seq<char>,
    token: Seq<char>,
    c: ControlType,
) -> HttpRequestView {
    HttpRequestView {
        method: HttpMethod::Post,
        url: control_url_spec(device_id),
        headers: seq![
            (x_authorization_spec(), token),
            (content_type_name_spec(), json_mime_spec()),
        ],
        body: Some(control_body_spec(c)),
    }
}

/// What a control attempt's reply yields once a request was sent: success
/// exactly on 204 No Content, the server's message on any other status, a
/// protocol error when that message does not decode.
pub open spec fn control_outcome(reply: TransportReplyView) -> Result<(), ApiErrorView> {
    match reply {
        TransportReplyView::Failure { message } => Err(ApiErrorView::TransportFailure(message)),
        TransportReplyView::Reply { status, body } => {
            if status == 204 {
                Ok(())
            } else {
                match message_of(body) {
                    Some(message) => Err(ApiErrorView::RemoteRejected(message)),
                    None => Err(ApiErrorView::ProtocolError),
                }
            }
        },
    }
}

/// Interpret the transport's reply to a control request, without touching
/// any device: the exact, total counterpart of [`control_outcome`].
pub fn interpret_control(reply: &TransportReply) -> (r: Result<(), ApiError>)
    ensures
        r is Ok <==> control_outcome(reply@) is Ok,
        r matches Err(e) ==> (control_outcome(reply@) matches Err(ev) && e@ == ev),
{
    match reply {
        TransportReply::Failure { message } => Err(ApiError::TransportFailure(message.clone())),
        TransportReply::Reply { status, body } => {
            if *status == 204u16 {
                Ok(())
            } else {
                match decode_message(body.as_str()) {
                    Some(m) => Err(ApiError::RemoteRejected(m.message)),
                    None => Err(ApiError::ProtocolError(protocol_error_text())),
                }
            }
        },
    }
}

/// Full description of a built control request: the guard decides first,
/// then the login check; only then is there a request to send.
pub open spec fn control_request_post(
    s: SesameView,
    c: ControlType,
    r: Result<HttpRequest, ApiError>,
) -> bool {
    &&& (guard_blocks(s, c) ==> (r matches Err(e) && e@ == ApiErrorView::InvalidTransition(
        already_message(s, c),
    )))
    &&& (!guard_blocks(s, c) ==> ((r matches Err(e) && e@ == ApiErrorView::NotAuthenticated) || (
    r matches Ok(req) && exists|t: Seq<char>| req@ == control_request_spec(s.device_id, t, c))))
}

/// Full description of one completed control attempt: every field but the
/// cached state is untouched, the guard and the login check decide first,
/// and the cached state moves to the intent's target exactly on success.
pub open spec fn control_post(
    pre: SesameView,
    post: SesameView,
    c: ControlType,
    reply: TransportReplyView,
    r: Result<(), ApiError>,
) -> bool {
    &&& post.session == pre.session
    &&& post.device_id == pre.device_id
    &&& post.nickname == pre.nickname
    &&& post.api_enabled == pre.api_enabled
    &&& post.battery == pre.battery
    &&& (guard_blocks(pre, c) ==> ((r matches Err(e) && e@ == ApiErrorView::InvalidTransition(
        already_message(pre, c),
    )) && post.is_unlocked == pre.is_unlocked))
    &&& (!guard_blocks(pre, c) ==> (((r matches Err(e) && e@ == ApiErrorView::NotAuthenticated)
        && post.is_unlocked == pre.is_unlocked) || (match control_outcome(reply) {
        Ok(u) => r is Ok && post.is_unlocked == target_unlocked(c),
        Err(ev) => (r matches Err(e) && e@ == ev) && post.is_unlocked == pre.is_unlocked,
    })))
    &&& (r is Ok ==> (!guard_blocks(pre, c) && control_outcome(reply) is Ok
        && post.is_unlocked == target_unlocked(c)))
}

impl Sesame {
    /// Build the text of an `InvalidTransition` failure.
    fn already_text(&self, c: ControlType) -> (r: String)
        ensures
            r@ == already_message(self@, c),
    {
        let mut s = String::from_str("Sesame{id: ");
        s.append(self.device_id.as_str());
        s.append(", nickname: ");
        s.append(self.nickname.as_str());
        s.append("}: already ");
        s.append(c.as_str());
        s.append("ed");
        proof {
            assert(s@ =~= already_message(self@, c));
        }
        s
    }

    /// Read the current token from the shared session, under a shared
    /// hold.
    fn read_token(&self) -> Option<String> {
        let read = self.client.acquire_read();
        let t = match &read.borrow().auth_token {
            Some(token) => Some(token.clone()),
            None => None,
        };
        read.release_read();
        t
    }

    /// Decide a control attempt from an explicitly given token: the local
    /// guard first, then the login check, then the request to send. This
    /// is the exact, total request half of the state machine.
    pub fn control_request_with(&self, token: &Option<String>, c: ControlType) -> (r: Result<
        HttpRequest,
        ApiError,
    >)
        ensures
            guard_blocks(self@, c) ==> (r matches Err(e) && e@ == ApiErrorView::InvalidTransition(
                already_message(self@, c),
            )),
            !guard_blocks(self@, c) && token is None ==> (r matches Err(e) && e@
                == ApiErrorView::NotAuthenticated),
            !guard_blocks(self@, c) ==> (token matches Some(t) ==> (r matches Ok(req) && req@
                == control_request_spec(self@.device_id, t@, c))),
    {
        if self.is_unlocked == (c == ControlType::Unlock) {
            Err(ApiError::InvalidTransition(self.already_text(c)))
        } else {
            match token {
                None => Err(ApiError::NotAuthenticated),
                Some(t) => {
                    let mut headers: Vec<(String, String)> = Vec::new();
                    headers.push((String::from_str(x_authorization()), t.clone()));
                    headers.push(
                        (String::from_str(content_type_name()), String::from_str(json_mime())),
                    );
                    let req = HttpRequest {
                        method: HttpMethod::Post,
                        url: control_url(self.device_id.as_str()),
                        headers,
                        body: Some(control_body(c)),
                    };
                    proof {
                        assert(req@ =~~= control_request_spec(self@.device_id, t@, c));
                    }
                    Ok(req)
                },
            }
        }
    }

    /// Decide a control attempt against the shared session's current
    /// token.
    fn control_request(&self, c: ControlType) -> (r: Result<HttpRequest, ApiError>)
        ensures
            control_request_post(self@, c, r),
    {
        let token = self.read_token();
        self.control_request_with(&token, c)
    }

    /// Build the request that locks this device, or fail locally: with
    /// `InvalidTransition` when it is already believed locked, with
    /// `NotAuthenticated` when no login preceded.
    pub fn lock_request(&self) -> (r: Result<HttpRequest, ApiError>)
        ensures
            control_request_post(self@, ControlType::Lock, r),
    {
        self.control_request(ControlType::Lock)
    }

    /// Build the request that unlocks this device, or fail locally.
    pub fn unlock_request(&self) -> (r: Result<HttpRequest, ApiError>)
        ensures
            control_request_post(self@, ControlType::Unlock, r),
    {
        self.control_request(ControlType::Unlock)
    }

    /// Complete a control attempt, given whether a token was present and
    /// the transport's reply: the exact, total reply half of the state
    /// machine. The cached state is updated exactly on 204.
    pub fn apply_control(&mut self, has_token: bool, c: ControlType, reply: &TransportReply) -> (r:
        Result<(), ApiError>)
        ensures
            control_post(old(self)@, final(self)@, c, reply@, r),
            guard_blocks(old(self)@, c) ==> (r matches Err(e) && e@
                == ApiErrorView::InvalidTransition(already_message(old(self)@, c))),
            !guard_blocks(old(self)@, c) && !has_token ==> (r matches Err(e) && e@
                == ApiErrorView::NotAuthenticated),
            !guard_blocks(old(self)@, c) && has_token ==> match control_outcome(reply@) {
                Ok(u) => r is Ok && final(self)@.is_unlocked == target_unlocked(c),
                Err(ev) => (r matches Err(e) && e@ == ev) && final(self)@.is_unlocked == old(
                    self,
                )@.is_unlocked,
            },
    {
        if self.is_unlocked == (c == ControlType::Unlock) {
            Err(ApiError::InvalidTransition(self.already_text(c)))
        } else if !has_token {
            Err(ApiError::NotAuthenticated)
        } else {
            match interpret_control(reply) {
                Ok(u) => {
                    self.is_unlocked = c == ControlType::Unlock;
                    Ok(())
                },
                Err(e) => Err(e),
            }
        }
    }

    /// Complete a control attempt against the shared session's current
    /// token.
    fn control(&mut self, c: ControlType, reply: &TransportReply) -> (r: Result<(), ApiError>)
        ensures
            control_post(old(self)@, final(self)@, c, reply@, r),
    {
        let token = self.read_token();
        let has_token = token.is_some();
        self.apply_control(has_token, c, reply)
    }

    /// Complete a lock attempt with the transport's reply to
    /// [`Sesame::lock_request`]: on 204 the cached state becomes locked;
    /// on any failure it is untouched.
    pub fn lock(&mut self, reply: &TransportReply) -> (r: Result<(), ApiError>)
        ensures
            control_post(old(self)@, final(self)@, ControlType::Lock, reply@, r),
    {
        self.control(ControlType::Lock, reply)
    }

    /// Complete an unlock attempt with the transport's reply to
    /// [`Sesame::unlock_request`]: on 204 the cached state becomes
    /// unlocked; on any failure it is untouched.
    pub fn unlock(&mut self, reply: &TransportReply) -> (r: Result<(), ApiError>)
        ensures
            control_post(old(self)@, final(self)@, ControlType::Unlock, reply@, r),
    {
        self.control(ControlType::Unlock, reply)
    }
}

/// In every cached state exactly one of the two intents passes the local
/// guard: the state machine never lets a redundant transition through.
pub proof fn lemma_one_intent_blocked(s: SesameView)
    ensures
        guard_blocks(s, ControlType::Lock) <==> !guard_blocks(s, ControlType::Unlock),
{
}

/// After a successful transition the same intent is blocked: a second
/// identical command right after a success fails locally.
pub proof fn lemma_success_blocks_repeat(pre: SesameView, post: SesameView, c: ControlType)
    requires
        !guard_blocks(pre, c),
        post.is_unlocked == target_unlocked(c),
    ensures
        guard_blocks(post, c),
{
}

/// A control attempt changes the cached state only when it succeeds: every
/// failure leaves the device in its prior state.
pub proof fn lemma_failure_preserves_state(
    pre: SesameView,
    post: SesameView,
    c: ControlType,
    reply: TransportReplyView,
    r: Result<(), ApiError>,
)
    requires
        control_post(pre, post, c, reply, r),
        r is Err,
    ensures
        post.is_unlocked == pre.is_unlocked,
{
}

/// A sent transition succeeds exactly on a 204 No Content reply.
pub proof fn lemma_success_is_204(reply: TransportReplyView)
    ensures
        control_outcome(reply) is Ok <==> (reply matches TransportReplyView::Reply {
            status,
            body,
        } && status == 204),
{
}

} // verus!
