//! HTTP status codes.

use vstd::prelude::*;

verus! {

/// The nginx convention for a request whose client went away.
pub const CLIENT_CLOSED_REQUEST: u16 = 499;

/// The status of an overloaded service, unless it is configured otherwise.
pub const SITE_OVERLOADED: u16 = 529;

/// The outside error for a number that is no status code.
#[verifier::external_type_specification]
#[verifier::external_body]
pub struct ExInvalidStatusCode(axum::http::status::InvalidStatusCode);

/// A number that is no status code.
#[derive(Debug, Clone, Copy, PartialEq, Eq, Structural)]
pub struct StatusCodeError;

/// An HTTP status code: a number of three digits, the first of them not zero.
#[derive(Debug, Clone, Copy, PartialEq, Eq, Structural)]
pub struct StatusCode {
    code: u16,
}

impl View for StatusCode {
    type V = u16;

    closed spec fn view(&self) -> u16 {
        self.code
    }
}

/// The numbers that are status codes.
pub open spec fn is_status(code: u16) -> bool {
    100 <= code <= 999
}

/// The codes of interim responses.
pub open spec fn informational(code: u16) -> bool {
    100 <= code <= 199
}

/// The codes that blame the client.
pub open spec fn client_error(code: u16) -> bool {
    400 <= code <= 499
}

/// The codes that blame the server.
pub open spec fn server_error(code: u16) -> bool {
    500 <= code <= 599
}

/// Calls `axum::http::StatusCode::from_u16` and reads the code back with
/// `as_u16`: the numbers from 100 to 999 are accepted, and kept as they are; all
/// others are refused.
#[verifier::external_body]
fn checked_code(code: u16) -> (checked: Result<u16, axum::http::status::InvalidStatusCode>)
    ensures
        checked is Ok <==> is_status(code),
        checked matches Ok(kept) ==> kept == code,
{
    axum::http::StatusCode::from_u16(code).map(|status| status.as_u16())
}

/// Calls `axum::http::StatusCode::is_informational`, which holds from 100 to 199.
#[verifier::external_body]
fn code_is_informational(code: u16) -> (answer: bool)
    requires
        is_status(code),
    ensures
        answer == informational(code),
{
    axum::http::StatusCode::from_u16(code).is_ok_and(|status| status.is_informational())
}

/// Calls `axum::http::StatusCode::is_client_error`, which holds from 400 to 499.
#[verifier::external_body]
fn code_is_client_error(code: u16) -> (answer: bool)
    requires
        is_status(code),
    ensures
        answer == client_error(code),
{
    axum::http::StatusCode::from_u16(code).is_ok_and(|status| status.is_client_error())
}

/// Calls `axum::http::StatusCode::is_server_error`, which holds from 500 to 599.
#[verifier::external_body]
fn code_is_server_error(code: u16) -> (answer: bool)
    requires
        is_status(code),
    ensures
        answer == server_error(code),
{
    axum::http::StatusCode::from_u16(code).is_ok_and(|status| status.is_server_error())
}

impl StatusCode {
    /// What holds of every value of this type.
    #[verifier::type_invariant]
    pub open spec fn in_range(self) -> bool {
        is_status(self@)
    }

    /// The status with the given number, if there is one.
    pub fn from_u16(code: u16) -> (status: Result<StatusCode, StatusCodeError>)
        ensures
            status is Ok <==> is_status(code),
            status matches Ok(status) ==> status@ == code,
    {
        match checked_code(code) {
            Ok(code) => Ok(StatusCode { code }),
            Err(_) => Err(StatusCodeError),
        }
    }

    /// The number of this status.
    pub fn as_u16(self) -> (code: u16)
        ensures
            code == self@,
            is_status(code),
    {
        proof {
            use_type_invariant(self);
        }
        self.code
    }

    /// Whether this is the status of an interim response.
    pub fn is_informational(self) -> (answer: bool)
        ensures
            answer == informational(self@),
    {
        proof {
            use_type_invariant(self);
        }
        code_is_informational(self.code)
    }

    /// Whether this status blames the client.
    pub fn is_client_error(self) -> (answer: bool)
        ensures
            answer == client_error(self@),
    {
        proof {
            use_type_invariant(self);
        }
        code_is_client_error(self.code)
    }

    /// Whether this status blames the server.
    pub fn is_server_error(self) -> (answer: bool)
        ensures
            answer == server_error(self@),
    {
        proof {
            use_type_invariant(self);
        }
        code_is_server_error(self.code)
    }

    /// 400 Bad Request.
    pub fn bad_request() -> (status: StatusCode)
        ensures
            status@ == 400,
    {
        StatusCode { code: 400 }
    }

    /// 499: the client closed the request.
    pub fn client_closed_request() -> (status: StatusCode)
        ensures
            status@ == CLIENT_CLOSED_REQUEST,
    {
        StatusCode { code: CLIENT_CLOSED_REQUEST }
    }

    /// 500 Internal Server Error.
    pub fn internal_server_error() -> (status: StatusCode)
        ensures
            status@ == 500,
    {
        StatusCode { code: 500 }
    }

    /// 503 Service Unavailable.
    pub fn service_unavailable() -> (status: StatusCode)
        ensures
            status@ == 503,
    {
        StatusCode { code: 503 }
    }

    /// 529: the site is overloaded.
    pub fn site_overloaded() -> (status: StatusCode)
        ensures
            status@ == SITE_OVERLOADED,
    {
        StatusCode { code: SITE_OVERLOADED }
    }
}

} // verus!
