//! Outgoing requests, as plain values that a transport sends.

use vstd::prelude::*;

verus! {

/// HTTP method of an operation.
#[derive(Debug, Copy, Clone, PartialEq, Eq, Structural)]
pub enum Method {
    Get,
    Post,
}

/// An authenticated, labelled request, ready for a transport.
#[derive(Debug, Clone)]
pub struct OutgoingRequest {
    pub method: Method,
    /// Absolute URL, resolved against the configured base endpoint.
    pub url: String,
    /// Value of the identifying `User-Agent` header.
    pub user_agent: String,
    /// Credential sent as a bearer authorization, when one is configured.
    pub bearer: Option<String>,
    /// JSON body text, when the operation sends one.
    pub body: Option<String>,
    /// Whether the request asks for a WebSocket upgrade.
    pub upgrade: bool,
}

} // verus!
