//! The failure kinds shared by every operation of the library.

use vstd::prelude::*;

verus! {

/// Every public operation is total: it returns its result or one of these
/// failures, and nothing is thrown.
#[derive(Debug, PartialEq)]
pub enum ApiError {
    /// An authenticated call was attempted while no token is stored.
    NotAuthenticated,
    /// The transport could not complete the exchange; carries its message.
    TransportFailure(String),
    /// A response body did not match the schema the remote contract promises:
    /// a success body that does not decode, or a failing status whose error
    /// body does not decode either.
    ProtocolError(String),
    /// The server rejected the request; carries the server's message verbatim.
    RemoteRejected(String),
    /// A lock or unlock was requested while the device is already believed to
    /// be in that state; carries a message naming the device.
    InvalidTransition(String),
}

/// Mathematical model of an `ApiError`, with messages as character
/// sequences. The text of a `ProtocolError` only reports which decode
/// failed and is not part of the model.
pub enum ApiErrorView {
    NotAuthenticated,
    TransportFailure(Seq<char>),
    ProtocolError,
    RemoteRejected(Seq<char>),
    InvalidTransition(Seq<char>),
}

impl View for ApiError {
    type V = ApiErrorView;

    open spec fn view(&self) -> ApiErrorView {
        match self {
            ApiError::NotAuthenticated => ApiErrorView::NotAuthenticated,
            ApiError::TransportFailure(m) => ApiErrorView::TransportFailure(m@),
            ApiError::ProtocolError(m) => ApiErrorView::ProtocolError,
            ApiError::RemoteRejected(m) => ApiErrorView::RemoteRejected(m@),
            ApiError::InvalidTransition(m) => ApiErrorView::InvalidTransition(m@),
        }
    }
}

} // verus!
