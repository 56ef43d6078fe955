//! Requests and replies as plain data.
//!
//! The library never performs I/O itself: it hands an [`HttpRequest`] to the
//! embedding program's transport and interprets the [`TransportReply`] that
//! comes back.

use vstd::prelude::*;

verus! {

/// HTTP method of a request the library asks the transport to perform.
#[derive(Copy, Clone, Debug, PartialEq, Eq, Structural)]
pub enum HttpMethod {
    Get,
    Post,
}

/// One HTTP request, fully described: method, absolute URL, headers in
/// order, and an optional body.
pub struct HttpRequest {
    pub method: HttpMethod,
    pub url: String,
    pub headers: Vec<(String, String)>,
    pub body: Option<String>,
}

/// Model of an [`HttpRequest`].
#[verifier::ext_equal]
pub struct HttpRequestView {
    pub method: HttpMethod,
    pub url: Seq<char>,
    pub headers: Seq<(Seq<char>, Seq<char>)>,
    pub body: Option<Seq<char>>,
}

impl View for HttpRequest {
    type V = HttpRequestView;

    open spec fn view(&self) -> HttpRequestView {
        HttpRequestView {
            method: self.method,
            url: self.url@,
            headers: self.headers@.map_values(|h: (String, String)| (h.0@, h.1@)),
            body: match self.body {
                Some(b) => Some(b@),
                None => None,
            },
        }
    }
}

/// What the transport hands back: either the exchange completed with a
/// status code and a body, or it failed below HTTP with a message.
#[derive(Debug, PartialEq)]
pub enum TransportReply {
    Reply { status: u16, body: String },
    Failure { message: String },
}

/// Model of a [`TransportReply`].
pub enum TransportReplyView {
    Reply { status: u16, body: Seq<char> },
    Failure { message: Seq<char> },
}

impl View for TransportReply {
    type V = TransportReplyView;

    open spec fn view(&self) -> TransportReplyView {
        match self {
            TransportReply::Reply { status, body } => TransportReplyView::Reply {
                status: *status,
                body: body@,
            },
            TransportReply::Failure { message } => TransportReplyView::Failure {
                message: message@,
            },
        }
    }
}

} // verus!
