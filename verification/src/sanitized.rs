//! The error model of endpoint handlers that classify by status alone.

use crate::problem::{
    CANCELLED_MESSAGE, INTERNAL_ERROR_MESSAGE, OVERLOADED_MESSAGE, UNAVAILABLE_MESSAGE,
};
use crate::status::{
    client_error, server_error, StatusCode, CLIENT_CLOSED_REQUEST, SITE_OVERLOADED,
};
use vstd::prelude::*;

verus! {

/// Compatibility model used by endpoint handlers that have not yet migrated
/// to the shared classifier.
#[derive(Debug, Clone, Copy)]
pub enum SanitizedError {
    Cancelled,
    Overloaded,
    Unavailable,
    Internal,
    PreserveServerError(StatusCode),
}

impl SanitizedError {
    /// Whether the error says that the service can take no request now.
    pub open spec fn is_busy(self) -> bool {
        match self {
            SanitizedError::Overloaded | SanitizedError::Unavailable => true,
            SanitizedError::PreserveServerError(status) => status@ == 503 || status@
                == SITE_OVERLOADED,
            _ => false,
        }
    }

    /// The status to answer with.
    pub open spec fn status_of(self, overload: u16) -> u16 {
        match self {
            SanitizedError::Cancelled => CLIENT_CLOSED_REQUEST,
            SanitizedError::Overloaded => overload,
            SanitizedError::Unavailable => 503,
            SanitizedError::Internal => 500,
            SanitizedError::PreserveServerError(status) => status@,
        }
    }

    /// The message for the client.
    pub open spec fn text(self) -> Seq<char> {
        match self {
            SanitizedError::Cancelled => CANCELLED_MESSAGE@,
            SanitizedError::Overloaded => OVERLOADED_MESSAGE@,
            SanitizedError::Unavailable => UNAVAILABLE_MESSAGE@,
            SanitizedError::Internal => INTERNAL_ERROR_MESSAGE@,
            SanitizedError::PreserveServerError(_) => INTERNAL_ERROR_MESSAGE@,
        }
    }

    /// The name of the error in the Anthropic protocol.
    pub open spec fn anthropic_name(self) -> Seq<char> {
        if self is Cancelled {
            "request_cancelled"@
        } else if self.is_busy() {
            "overloaded_error"@
        } else {
            "api_error"@
        }
    }

    /// The name of the error in the OpenAI protocol.
    pub open spec fn openai_name(self) -> Seq<char> {
        if self is Cancelled {
            "request_cancelled"@
        } else if self.is_busy() {
            "service_unavailable"@
        } else {
            "internal_server_error"@
        }
    }

    /// Whether the error is worth a log entry at error level.
    pub open spec fn is_logged(self) -> bool {
        !(self is Cancelled)
    }

    /// The error that stands for a status that a backend reports. There is none
    /// for a client failure, which is passed on as it is.
    pub open spec fn of_backend_status(status: StatusCode) -> Option<SanitizedError> {
        if status@ == CLIENT_CLOSED_REQUEST {
            Some(SanitizedError::Cancelled)
        } else if client_error(status@) {
            None
        } else if server_error(status@) {
            Some(SanitizedError::PreserveServerError(status))
        } else {
            Some(SanitizedError::Internal)
        }
    }

    /// The error that stands for a status that a backend reports, if one does.
    pub fn for_backend_status(status: StatusCode) -> (error: Option<SanitizedError>)
        ensures
            error == Self::of_backend_status(status),
    {
        if status.as_u16() == CLIENT_CLOSED_REQUEST {
            Some(SanitizedError::Cancelled)
        } else if status.is_client_error() {
            None
        } else if status.is_server_error() {
            Some(SanitizedError::PreserveServerError(status))
        } else {
            Some(SanitizedError::Internal)
        }
    }

    /// The status to answer with, where `overload` is the status of an overload.
    pub fn status(self, overload: StatusCode) -> (status: StatusCode)
        ensures
            status@ == self.status_of(overload@),
    {
        match self {
            SanitizedError::Cancelled => StatusCode::client_closed_request(),
            SanitizedError::Overloaded => overload,
            SanitizedError::Unavailable => StatusCode::service_unavailable(),
            SanitizedError::Internal => StatusCode::internal_server_error(),
            SanitizedError::PreserveServerError(code) => code,
        }
    }

    /// The error type of the Anthropic protocol.
    pub fn anthropic_type(self) -> (name: &'static str)
        ensures
            self is Cancelled ==> name@ == "request_cancelled"@,
            self.is_busy() ==> name@ == "overloaded_error"@,
            !(self is Cancelled) && !self.is_busy() ==> name@ == "api_error"@,
            name@ == self.anthropic_name(),
    {
        match self {
            SanitizedError::Cancelled => "request_cancelled",
            SanitizedError::Overloaded | SanitizedError::Unavailable => "overloaded_error",
            SanitizedError::PreserveServerError(status) => if matches!(
                status.as_u16(),
                503 | 529
            ) {
                "overloaded_error"
            } else {
                "api_error"
            },
            SanitizedError::Internal => "api_error",
        }
    }

    /// The error type of the OpenAI protocol.
    pub fn openai_type_slug(self) -> (name: &'static str)
        ensures
            self is Cancelled ==> name@ == "request_cancelled"@,
            self.is_busy() ==> name@ == "service_unavailable"@,
            !(self is Cancelled) && !self.is_busy() ==> name@ == "internal_server_error"@,
            name@ == self.openai_name(),
    {
        match self {
            SanitizedError::Cancelled => "request_cancelled",
            SanitizedError::Overloaded | SanitizedError::Unavailable => "service_unavailable",
            SanitizedError::PreserveServerError(status) => if matches!(
                status.as_u16(),
                503 | 529
            ) {
                "service_unavailable"
            } else {
                "internal_server_error"
            },
            SanitizedError::Internal => "internal_server_error",
        }
    }

    /// Whether the error is worth a log entry at error level.
    pub fn log_as_error(self) -> (answer: bool)
        ensures
            answer == !(self is Cancelled),
            answer == self.is_logged(),
    {
        !matches!(self, SanitizedError::Cancelled)
    }

    /// Shows the error: the message for the client.
    pub fn to_string(&self) -> (text: String)
        ensures
            text@ == self.text(),
    {
        match self {
            SanitizedError::Cancelled => CANCELLED_MESSAGE.to_owned(),
            SanitizedError::Overloaded => OVERLOADED_MESSAGE.to_owned(),
            SanitizedError::Unavailable => UNAVAILABLE_MESSAGE.to_owned(),
            SanitizedError::Internal
            | SanitizedError::PreserveServerError(_) => INTERNAL_ERROR_MESSAGE.to_owned(),
        }
    }
}

} // verus!
