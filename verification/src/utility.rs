//! Endpoints, header names, and URL building.

use vstd::prelude::*;
use vstd::string::*;

verus! {

/// Base URL of the remote API.
pub open spec fn prefix_spec() -> Seq<char> {
    "https://api.candyhouse.co/v1"@
}

pub fn prefix() -> (s: &'static str)
    ensures
        s@ == prefix_spec(),
{
    "https://api.candyhouse.co/v1"
}

/// Path of the login endpoint.
pub open spec fn login_endpoint_spec() -> Seq<char> {
    "/accounts/login"@
}

pub fn login_endpoint() -> (s: &'static str)
    ensures
        s@ == login_endpoint_spec(),
{
    "/accounts/login"
}

/// Path of the devices endpoint.
pub open spec fn sesame_endpoint_spec() -> Seq<char> {
    "/sesames"@
}

pub fn sesame_endpoint() -> (s: &'static str)
    ensures
        s@ == sesame_endpoint_spec(),
{
    "/sesames"
}

/// Path suffix of a device's control endpoint.
pub open spec fn control_endpoint_spec() -> Seq<char> {
    "/control"@
}

pub fn control_endpoint() -> (s: &'static str)
    ensures
        s@ == control_endpoint_spec(),
{
    "/control"
}

/// The vendor-specific authorization header name, not the standard
/// `Authorization` header.
pub open spec fn x_authorization_spec() -> Seq<char> {
    "X-Authorization"@
}

pub fn x_authorization() -> (s: &'static str)
    ensures
        s@ == x_authorization_spec(),
{
    "X-Authorization"
}

/// The content-type header name.
pub open spec fn content_type_name_spec() -> Seq<char> {
    "Content-Type"@
}

pub fn content_type_name() -> (s: &'static str)
    ensures
        s@ == content_type_name_spec(),
{
    "Content-Type"
}

/// The JSON media type, set on every request that carries a body.
pub open spec fn json_mime_spec() -> Seq<char> {
    "application/json"@
}

pub fn json_mime() -> (s: &'static str)
    ensures
        s@ == json_mime_spec(),
{
    "application/json"
}

/// URL of the login endpoint.
pub open spec fn login_url_spec() -> Seq<char> {
    prefix_spec() + login_endpoint_spec()
}

pub fn login_url() -> (s: String)
    ensures
        s@ == login_url_spec(),
{
    let mut s = String::from_str(prefix());
    s.append(login_endpoint());
    s
}

/// URL that lists every device of the account.
pub open spec fn sesame_list_url_spec() -> Seq<char> {
    prefix_spec() + sesame_endpoint_spec()
}

pub fn sesame_list_url() -> (s: String)
    ensures
        s@ == sesame_list_url_spec(),
{
    let mut s = String::from_str(prefix());
    s.append(sesame_endpoint());
    s
}

/// URL of one device.
pub open spec fn sesame_url_spec(device_id: Seq<char>) -> Seq<char> {
    prefix_spec() + sesame_endpoint_spec() + "/"@ + device_id
}

pub fn sesame_url(device_id: &str) -> (s: String)
    ensures
        s@ == sesame_url_spec(device_id@),
{
    let mut s = String::from_str(prefix());
    s.append(sesame_endpoint());
    s.append("/");
    s.append(device_id);
    proof {
        assert(s@ =~= sesame_url_spec(device_id@));
    }
    s
}

/// URL of one device's control endpoint.
pub open spec fn control_url_spec(device_id: Seq<char>) -> Seq<char> {
    sesame_url_spec(device_id) + control_endpoint_spec()
}

pub fn control_url(device_id: &str) -> (s: String)
    ensures
        s@ == control_url_spec(device_id@),
{
    let mut s = sesame_url(device_id);
    s.append(control_endpoint());
    proof {
        assert(s@ =~= control_url_spec(device_id@));
    }
    s
}

} // verus!
