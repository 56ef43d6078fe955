//! Client library for a cloud-hosted smart-lock service.
//!
//! The library is written sans-IO: it holds the shared, lock-protected
//! session state, builds every HTTP request as plain data, and interprets
//! every transport reply, while the embedding program performs the actual
//! HTTP exchange and feeds the reply back.

pub mod client;
pub mod error;
pub mod http;
pub mod serialized;
pub mod sesame;
pub mod utility;

pub use client::ClientBody;
pub use client::SesameClient;
pub use error::ApiError;
pub use http::HttpMethod;
pub use http::HttpRequest;
pub use http::TransportReply;
pub use sesame::ControlType;
pub use sesame::Sesame;
pub use sesame::make_sesame;
