//! Classification of responses by status code.

use vstd::prelude::*;

use crate::error::{error_body_ok, kind_of_name, Error, ErrorResponse};
use crate::json::{field, json_of, json_text_parses, text_is, Json};

verus! {

/// What the dispatcher does with a response.
#[derive(Debug, Copy, Clone, PartialEq, Eq, Structural)]
pub enum Disposition {
    /// Hand the successful response, body undecoded, to the operation.
    Deliver,
    /// Decode the body of any other status as an error payload and fail.
    DecodeErrorBody,
}

/// A success status: 200 to 299.
pub open spec fn is_success_status(status: u16) -> bool {
    200 <= status <= 299
}

/// Any status that is not a success: it becomes exactly one error.
pub open spec fn is_error_status(status: u16) -> bool {
    !is_success_status(status)
}

/// Returns what to do with a response of the given status.
pub fn disposition(status: u16) -> (r: Disposition)
    ensures
        r == Disposition::Deliver <==> is_success_status(status),
        r == Disposition::DecodeErrorBody <==> is_error_status(status),
{
    if 200 <= status && status <= 299 {
        Disposition::Deliver
    } else {
        Disposition::DecodeErrorBody
    }
}

/// The failure for an error status, given what decoding its body gave:
/// the decoded error with the status stamped on it, or the decode failure.
pub fn service_failure(status: u16, decoded: Result<ErrorResponse, String>) -> (r: Error)
    requires
        is_error_status(status),
    ensures
        match decoded {
            Ok(e) => r matches Error::Api(x) && x.name@ == e.name@ && x.message@ == e.message@
                && x.status_code == status && kind_of_name(x.name@) == kind_of_name(e.name@),
            Err(m) => r matches Error::Decode(x) && x@ == m@,
        },
{
    match decoded {
        Ok(e) => Error::Api(ErrorResponse { name: e.name, message: e.message, status_code: status }),
        Err(m) => Error::Decode(m),
    }
}

/// The failure for an error status whose body decoded to `body`: a
/// well-formed `{name, message}` gives the service error with the status
/// stamped on it and the kind of its name; anything else is a decode error.
pub fn failure_from_json(status: u16, body: &Json) -> (r: Error)
    requires
        is_error_status(status),
    ensures
        error_body_ok(*body) ==> (r matches Error::Api(e) && text_is(field(*body, "name"@), e.name)
            && text_is(field(*body, "message"@), e.message) && e.status_code == status
            && kind_of_name(e.name@) == kind_of_name(field(*body, "name"@)->0->Str_0@)),
        !error_body_ok(*body) ==> r is Decode,
{
    match ErrorResponse::from_json(body) {
        Ok(e) => service_failure(status, Ok(e)),
        Err(e) => e,
    }
}

/// The failure for an error status with body text `body`.
pub fn failure_from_body(status: u16, body: &str) -> (r: Error)
    requires
        is_error_status(status),
    ensures
        json_text_parses(body@) && error_body_ok(json_of(body@)) ==> (r matches Error::Api(e)
            && text_is(field(json_of(body@), "name"@), e.name) && text_is(
            field(json_of(body@), "message"@),
            e.message,
        ) && e.status_code == status),
        !(json_text_parses(body@) && error_body_ok(json_of(body@))) ==> r is Decode,
{
    match Json::parse(body) {
        Ok(j) => failure_from_json(status, &j),
        Err(m) => Error::Decode(m),
    }
}

} // verus!
