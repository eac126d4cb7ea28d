use vstd::prelude::*;

use crate::json::{field, json_of, json_text_parses, text_equals, text_is, text_member, Json};

verus! {

/// General categories of [`ErrorResponse`]s.
#[derive(Debug, Copy, Clone, PartialEq, Eq, Structural)]
pub enum ErrorKind {
    /// The error name is not one the gateway documents.
    Unrecognized,
    UnsupportedMediaType,
    RouteNotFound,
    PayloadParseError,
    RouterNotFound,
    NoModelConfigured,
    ModelUnavailable,
    AllModelsUnavailable,
    UnknownError,
}

/// A well-formed error reported by the gateway.
#[derive(Debug, Clone)]
pub struct ErrorResponse {
    /// Symbolic error name, as sent by the gateway.
    pub name: String,
    /// Human-readable message.
    pub message: String,
    /// Numeric status of the response that carried the error.
    pub status_code: u16,
}

/// The classification table of symbolic error names.
pub open spec fn kind_of_name(name: Seq<char>) -> ErrorKind {
    if name == "unsupported_media_type"@ {
        ErrorKind::UnsupportedMediaType
    } else if name == "route_not_found"@ {
        ErrorKind::RouteNotFound
    } else if name == "payload_parse_error"@ {
        ErrorKind::PayloadParseError
    } else if name == "router_not_found"@ {
        ErrorKind::RouterNotFound
    } else if name == "no_model_configured"@ {
        ErrorKind::NoModelConfigured
    } else if name == "model_unavailable"@ {
        ErrorKind::ModelUnavailable
    } else if name == "all_models_unavailable"@ {
        ErrorKind::AllModelsUnavailable
    } else if name == "unknown_error"@ {
        ErrorKind::UnknownError
    } else {
        ErrorKind::Unrecognized
    }
}

/// Whether `name` is one of the symbolic names of the table.
pub open spec fn is_known_name(name: Seq<char>) -> bool {
    ||| name == "unsupported_media_type"@
    ||| name == "route_not_found"@
    ||| name == "payload_parse_error"@
    ||| name == "router_not_found"@
    ||| name == "no_model_configured"@
    ||| name == "model_unavailable"@
    ||| name == "all_models_unavailable"@
    ||| name == "unknown_error"@
}

impl ErrorResponse {
    /// Returns the [`ErrorKind`] that the error's name classifies as.
    pub fn kind(&self) -> (r: ErrorKind)
        ensures
            r == kind_of_name(self.name@),
            !is_known_name(self.name@) ==> r == ErrorKind::Unrecognized,
    {
        if text_equals(&self.name, "unsupported_media_type") {
            ErrorKind::UnsupportedMediaType
        } else if text_equals(&self.name, "route_not_found") {
            ErrorKind::RouteNotFound
        } else if text_equals(&self.name, "payload_parse_error") {
            ErrorKind::PayloadParseError
        } else if text_equals(&self.name, "router_not_found") {
            ErrorKind::RouterNotFound
        } else if text_equals(&self.name, "no_model_configured") {
            ErrorKind::NoModelConfigured
        } else if text_equals(&self.name, "model_unavailable") {
            ErrorKind::ModelUnavailable
        } else if text_equals(&self.name, "all_models_unavailable") {
            ErrorKind::AllModelsUnavailable
        } else if text_equals(&self.name, "unknown_error") {
            ErrorKind::UnknownError
        } else {
            ErrorKind::Unrecognized
        }
    }
}

/// An error body decodes: string members `name` and `message`.
pub open spec fn error_body_ok(j: Json) -> bool {
    &&& field(j, "name"@) matches Some(Json::Str(_))
    &&& field(j, "message"@) matches Some(Json::Str(_))
}

/// An error body decodes to `e`, before a status is stamped on it.
pub open spec fn error_body_is(j: Json, e: ErrorResponse) -> bool {
    &&& text_is(field(j, "name"@), e.name)
    &&& text_is(field(j, "message"@), e.message)
    &&& e.status_code == 0
}

impl ErrorResponse {
    /// Decodes an error body; its status is left at 0.
    pub fn from_json(j: &Json) -> (r: Result<ErrorResponse, Error>)
        ensures
            r is Ok <==> error_body_ok(*j),
            r matches Ok(e) ==> error_body_is(*j, e),
            r matches Err(e) ==> e is Decode,
    {
        match (text_member(j, "name"), text_member(j, "message")) {
            (Some(name), Some(message)) => Ok(ErrorResponse { name, message, status_code: 0 }),
            _ => Err(Error::Decode(String::from_str("unexpected error body shape"))),
        }
    }

    /// Decodes an error body from its text.
    pub fn decode(text: &str) -> (r: Result<ErrorResponse, Error>)
        ensures
            r is Ok <==> json_text_parses(text@) && error_body_ok(json_of(text@)),
            r matches Ok(e) ==> error_body_is(json_of(text@), e),
            r matches Err(e) ==> e is Decode,
    {
        match Json::parse(text) {
            Ok(j) => ErrorResponse::from_json(&j),
            Err(m) => Err(Error::Decode(m)),
        }
    }
}

/// Failures of a gateway operation.
#[derive(Debug)]
pub enum Error {
    /// The HTTP transport failed (connection, TLS, I/O).
    Http(String),
    /// The WebSocket transport failed.
    Ws(String),
    /// The gateway answered with a well-formed error.
    Api(ErrorResponse),
    /// A response body or an inbound frame did not decode.
    Decode(String),
}

} // verus!
