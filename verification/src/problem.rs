//! The classification of failures into HTTP problems.

use crate::chain;
use crate::chain::{
    chain_text, is_rejection, is_typed, outermost, selected, BackendError, DynamoError, ErrorChain,
    ErrorLink, ErrorType, HttpError, ValidationScope,
};
use crate::event::{comment_text, Annotated, ErrorPayload};
use crate::metrics::MetricErrorType;
use crate::status::{
    client_error, is_status, server_error, StatusCode, CLIENT_CLOSED_REQUEST, SITE_OVERLOADED,
};
use crate::text;
use crate::text::{contents, joined};
use serde_json::Value;
use vstd::prelude::*;

verus! {

/// What a client is told of a failure that is none of its business.
pub const INTERNAL_ERROR_MESSAGE: &'static str = "Internal server error";

/// What a client is told of a request that it cancelled.
pub const CANCELLED_MESSAGE: &'static str = "Request cancelled";

/// What a client is told when resources are exhausted.
pub const OVERLOADED_MESSAGE: &'static str = "Service temporarily overloaded";

/// What a client is told when the service is not there.
pub const UNAVAILABLE_MESSAGE: &'static str = "Service temporarily unavailable";

/// Protocol-neutral error categories used for metrics and protocol rendering.
#[derive(Debug, Clone, Copy, PartialEq, Eq, Structural)]
pub enum HttpProblemKind {
    Validation,
    Authentication,
    Permission,
    NotFound,
    RateLimit,
    Cancelled,
    Overloaded,
    Unavailable,
    NotImplemented,
    Internal,
}

/// The contents of an [`HttpProblem`].
#[verifier::ext_equal]
pub struct ProblemView {
    pub kind: HttpProblemKind,
    pub status: u16,
    pub message: Seq<char>,
    pub diagnostic: Seq<char>,
    pub details: Option<Box<Value>>,
}

/// A fully classified HTTP failure.
///
/// Classification owns the status, public message, metrics category, and
/// diagnostic. Protocol modules only translate this model into their wire
/// envelope; they do not re-classify errors.
#[derive(Debug)]
pub struct HttpProblem {
    kind: HttpProblemKind,
    status: StatusCode,
    message: String,
    diagnostic: String,
    details: Option<Box<Value>>,
}

impl View for HttpProblem {
    type V = ProblemView;

    closed spec fn view(&self) -> ProblemView {
        ProblemView {
            kind: self.kind,
            status: self.status@,
            message: self.message@,
            diagnostic: self.diagnostic@,
            details: self.details,
        }
    }
}

/// The category of a status.
pub open spec fn kind_of(status: u16) -> HttpProblemKind {
    if status == 401 {
        HttpProblemKind::Authentication
    } else if status == 403 {
        HttpProblemKind::Permission
    } else if status == 404 {
        HttpProblemKind::NotFound
    } else if status == 429 {
        HttpProblemKind::RateLimit
    } else if status == CLIENT_CLOSED_REQUEST {
        HttpProblemKind::Cancelled
    } else if status == 501 {
        HttpProblemKind::NotImplemented
    } else if status == 503 {
        HttpProblemKind::Unavailable
    } else if status == SITE_OVERLOADED {
        HttpProblemKind::Overloaded
    } else if client_error(status) {
        HttpProblemKind::Validation
    } else {
        HttpProblemKind::Internal
    }
}

/// The metric under which a category counts.
pub open spec fn metric_of(kind: HttpProblemKind) -> MetricErrorType {
    match kind {
        HttpProblemKind::Validation => MetricErrorType::Validation,
        HttpProblemKind::Authentication => MetricErrorType::Validation,
        HttpProblemKind::Permission => MetricErrorType::Validation,
        HttpProblemKind::NotFound => MetricErrorType::NotFound,
        HttpProblemKind::RateLimit => MetricErrorType::Overload,
        HttpProblemKind::Cancelled => MetricErrorType::Cancelled,
        HttpProblemKind::Overloaded => MetricErrorType::Overload,
        HttpProblemKind::Unavailable => MetricErrorType::Unavailable,
        HttpProblemKind::NotImplemented => MetricErrorType::NotImplemented,
        HttpProblemKind::Internal => MetricErrorType::Internal,
    }
}

/// The metric under which a status counts.
pub open spec fn metric_of_status(status: u16) -> MetricErrorType {
    metric_of(kind_of(status))
}

impl ProblemView {
    /// What holds of every problem: its status is one of failure and determines
    /// its category, but for an overload, whose status can be configured.
    pub open spec fn consistent(self) -> bool {
        ||| self.kind is Overloaded && is_status(self.status)
        ||| {
            &&& self.kind == kind_of(self.status)
            &&& client_error(self.status) || server_error(self.status)
        }
    }
}

/// A problem without details.
pub open spec fn plain_problem(
    kind: HttpProblemKind,
    status: u16,
    message: Seq<char>,
    diagnostic: Seq<char>,
) -> ProblemView {
    ProblemView { kind, status, message, diagnostic, details: None }
}

/// The problem that keeps the failure to itself.
pub open spec fn internal_problem(message: Seq<char>, diagnostic: Seq<char>) -> ProblemView {
    plain_problem(HttpProblemKind::Internal, 500, message, diagnostic)
}

/// The problem of a request that the client cancelled.
pub open spec fn cancelled_problem(diagnostic: Seq<char>) -> ProblemView {
    plain_problem(
        HttpProblemKind::Cancelled,
        CLIENT_CLOSED_REQUEST,
        CANCELLED_MESSAGE@,
        diagnostic,
    )
}

/// The problem for a status that a backend reports: the client sees the status
/// of every failure, and the message of its own failures only.
pub open spec fn backend_problem(
    status: u16,
    message: Seq<char>,
    diagnostic: Seq<char>,
) -> ProblemView {
    if status == CLIENT_CLOSED_REQUEST {
        cancelled_problem(diagnostic)
    } else if client_error(status) {
        plain_problem(kind_of(status), status, message, diagnostic)
    } else if server_error(status) {
        plain_problem(kind_of(status), status, INTERNAL_ERROR_MESSAGE@, diagnostic)
    } else {
        internal_problem(INTERNAL_ERROR_MESSAGE@, diagnostic)
    }
}

/// The problem for an explicit HTTP error: only a client failure is passed on.
pub open spec fn explicit_problem(error: HttpError, diagnostic: Seq<char>) -> ProblemView {
    if error.code == CLIENT_CLOSED_REQUEST {
        cancelled_problem(diagnostic)
    } else if client_error(error.code) {
        plain_problem(kind_of(error.code), error.code, error.message@, diagnostic)
    } else {
        internal_problem(INTERNAL_ERROR_MESSAGE@, diagnostic)
    }
}

/// The envelope that a runtime failure may speak through: a backend's invalid
/// argument names a client failure, its unknown failure a server failure.
pub open spec fn honoured_payload(error: DynamoError) -> Option<(u16, Seq<char>)> {
    match error.payload {
        Some(payload) => if (error.error_type == ErrorType::Backend(BackendError::InvalidArgument)
            && client_error(payload.code)) || (error.error_type == ErrorType::Backend(
            BackendError::Unknown,
        ) && server_error(payload.code)) {
            Some((payload.code, payload.message@))
        } else {
            None
        },
        None => None,
    }
}

/// The problem for a runtime failure.
pub open spec fn dynamo_problem(
    error: DynamoError,
    internal_message: Seq<char>,
    diagnostic: Seq<char>,
    overload: u16,
) -> ProblemView {
    if let Some((status, message)) = honoured_payload(error) {
        backend_problem(status, message, diagnostic)
    } else {
        match error.error_type {
            ErrorType::InvalidArgument | ErrorType::Backend(BackendError::InvalidArgument) =>
                plain_problem(HttpProblemKind::Validation, 400, error.message@, diagnostic),
            ErrorType::ResourceExhausted => plain_problem(
                HttpProblemKind::Overloaded,
                overload,
                OVERLOADED_MESSAGE@,
                diagnostic,
            ),
            ErrorType::Unavailable => plain_problem(
                HttpProblemKind::Unavailable,
                503,
                UNAVAILABLE_MESSAGE@,
                diagnostic,
            ),
            ErrorType::Cancelled | ErrorType::Backend(BackendError::Cancelled) => cancelled_problem(
                diagnostic,
            ),
            _ => internal_problem(internal_message, diagnostic),
        }
    }
}

/// The problem for an error and its causes: a queue rejection decides before a
/// selected runtime failure, and that before the outermost typed error.
pub open spec fn chain_problem(
    links: Seq<ErrorLink>,
    internal_message: Seq<char>,
    scope: ValidationScope,
    overload: u16,
) -> ProblemView {
    let diagnostic = chain_text(links);
    if let Some(ErrorLink::QueueRejection { message, details }) = outermost(links, is_rejection()) {
        ProblemView {
            kind: HttpProblemKind::Overloaded,
            status: overload,
            message: message@,
            diagnostic,
            details,
        }
    } else if let Some(error) = selected(links, scope) {
        dynamo_problem(error, internal_message, diagnostic, overload)
    } else {
        match outermost(links, is_typed()) {
            Some(ErrorLink::Dynamo(error)) => dynamo_problem(
                error,
                internal_message,
                diagnostic,
                overload,
            ),
            Some(ErrorLink::Http(error)) => explicit_problem(error, diagnostic),
            _ => internal_problem(internal_message, diagnostic),
        }
    }
}

/// The problem for an error and its causes, where validation may stand anywhere.
pub open spec fn error_problem(
    links: Seq<ErrorLink>,
    internal_message: Seq<char>,
    overload: u16,
) -> ProblemView {
    chain_problem(links, internal_message, ValidationScope::Chain, overload)
}

/// The problem for an error that only a comment describes. A comment that is no
/// JSON body tells the client nothing.
pub open spec fn legacy_problem(diagnostic: Seq<char>, body: Option<ErrorPayload>) -> ProblemView {
    match body {
        Some(payload) => backend_problem(
            match payload.code {
                Some(code) => if is_status(code) {
                    code
                } else {
                    500
                },
                None => 500,
            },
            match payload.message {
                Some(message) => message@,
                None => diagnostic,
            },
            diagnostic,
        ),
        None => internal_problem(INTERNAL_ERROR_MESSAGE@, diagnostic),
    }
}

/// The problem that an event of a response stream reports, if it reports one.
pub open spec fn event_problem<T>(
    event: Annotated<T>,
    body: Option<ErrorPayload>,
    overload: u16,
) -> Option<ProblemView> {
    if event.is_legacy_error() {
        Some(legacy_problem(comment_text(event.comment), body))
    } else if event.error_marker {
        Some(
            chain_problem(
                event.error->0@,
                INTERNAL_ERROR_MESSAGE@,
                ValidationScope::Outermost,
                overload,
            ),
        )
    } else if event.is_bare_comment() {
        Some(
            internal_problem(
                INTERNAL_ERROR_MESSAGE@,
                joined(contents(event.comment->0@), ", "@),
            ),
        )
    } else {
        None
    }
}

/// The category of a status.
pub fn kind_for_status(status: StatusCode) -> (kind: HttpProblemKind)
    ensures
        kind == kind_of(status@),
{
    match status.as_u16() {
        401 => HttpProblemKind::Authentication,
        403 => HttpProblemKind::Permission,
        404 => HttpProblemKind::NotFound,
        429 => HttpProblemKind::RateLimit,
        501 => HttpProblemKind::NotImplemented,
        503 => HttpProblemKind::Unavailable,
        499 => HttpProblemKind::Cancelled,
        529 => HttpProblemKind::Overloaded,
        _ => if status.is_client_error() {
            HttpProblemKind::Validation
        } else {
            HttpProblemKind::Internal
        },
    }
}

/// The metric under which a category counts.
pub fn metric_type_for_kind(kind: HttpProblemKind) -> (metric: MetricErrorType)
    ensures
        metric == metric_of(kind),
{
    match kind {
        HttpProblemKind::Validation
        | HttpProblemKind::Authentication
        | HttpProblemKind::Permission => MetricErrorType::Validation,
        HttpProblemKind::NotFound => MetricErrorType::NotFound,
        HttpProblemKind::RateLimit | HttpProblemKind::Overloaded => MetricErrorType::Overload,
        HttpProblemKind::Unavailable => MetricErrorType::Unavailable,
        HttpProblemKind::Cancelled => MetricErrorType::Cancelled,
        HttpProblemKind::NotImplemented => MetricErrorType::NotImplemented,
        HttpProblemKind::Internal => MetricErrorType::Internal,
    }
}

/// Reads the deliberate `{code, message}` compatibility envelope of a backend
/// failure, without treating arbitrary typed error messages as HTTP policy.
pub fn backend_http_payload(error: &DynamoError) -> (payload: Option<(StatusCode, String)>)
    ensures
        payload is Some <==> honoured_payload(*error) is Some,
        payload matches Some((status, message)) ==> honoured_payload(*error) == Some(
            (status@, message@),
        ),
{
    let payload = match &error.payload {
        Some(payload) => payload,
        None => return None,
    };
    let status = match StatusCode::from_u16(payload.code) {
        Ok(status) => status,
        Err(_) => return None,
    };
    let honoured = match error.error_type {
        ErrorType::Backend(BackendError::InvalidArgument) => status.is_client_error(),
        ErrorType::Backend(BackendError::Unknown) => status.is_server_error(),
        _ => false,
    };
    if honoured {
        Some((status, payload.message.clone()))
    } else {
        None
    }
}

fn clone_details(details: &Option<Box<Value>>) -> (copy: Option<Box<Value>>)
    ensures
        copy == *details,
{
    match details {
        Some(value) => {
            let value: &Value = value;
            Some(Box::new(value.clone()))
        },
        None => None,
    }
}

impl HttpProblem {
    #[verifier::type_invariant]
    spec fn well_formed(self) -> bool {
        self@.consistent()
    }

    /// Classify an arbitrary error through the same logical nested-error flow
    /// used by `from_annotated`; generic callers retain chain-wide validation
    /// lookup because untyped context wrappers may surround the typed failure.
    ///
    /// `overload` is the status of an overload.
    pub fn from_error(err: &ErrorChain, internal_message: &str, overload: StatusCode) -> (problem:
        HttpProblem)
        ensures
            problem@ == chain_problem(
                err@,
                internal_message@,
                ValidationScope::Chain,
                overload@,
            ),
            problem@ == error_problem(err@, internal_message@, overload@),
    {
        Self::from_error_with_validation_scope(
            err,
            internal_message,
            ValidationScope::Chain,
            overload,
        )
    }

    /// Classify an error with the given scope of validation.
    pub fn from_error_with_validation_scope(
        err: &ErrorChain,
        internal_message: &str,
        validation_scope: ValidationScope,
        overload: StatusCode,
    ) -> (problem: HttpProblem)
        ensures
            problem@ == chain_problem(
                err@,
                internal_message@,
                validation_scope,
                overload@,
            ),
    {
        let diagnostic = chain::format_error_chain(err);
        if let Some(ErrorLink::QueueRejection { message, details }) =
            chain::find_rejection_in_chain(err) {
            proof {
                use_type_invariant(overload);
            }
            return HttpProblem {
                kind: HttpProblemKind::Overloaded,
                status: overload,
                message: message.clone(),
                diagnostic,
                details: clone_details(details),
            };
        }
        if let Some(error) = chain::select_dynamo_error_in_chain(err, validation_scope) {
            return Self::from_dynamo_error(error, internal_message, diagnostic, overload);
        }
        // All other typed failures retain outermost-error classification.
        match chain::find_typed_in_chain(err) {
            Some(ErrorLink::Dynamo(error)) => Self::from_dynamo_error(
                error,
                internal_message,
                diagnostic,
                overload,
            ),
            Some(ErrorLink::Http(error)) => Self::from_explicit_http_error(error, diagnostic),
            _ => Self::internal(internal_message, diagnostic.as_str()),
        }
    }

    /// Classify a backend stream event through the same logical nested-error
    /// flow as `from_error`; the event's outer typed validation is authoritative,
    /// while nested operational failures retain their retry/cancellation meaning.
    ///
    /// `body` is what the event's [`Annotated::legacy_diagnostic`] decodes to, if
    /// it does; `overload` is the status of an overload.
    pub fn from_annotated<T>(
        event: &Annotated<T>,
        body: Option<ErrorPayload>,
        overload: StatusCode,
    ) -> (problem: Option<HttpProblem>)
        ensures
            problem is Some <==> event_problem(*event, body, overload@) is Some,
            problem matches Some(problem) ==> event_problem(*event, body, overload@) == Some(
                problem@,
            ),
    {
        // Compatibility for legacy error events that carried a JSON body
        // in their comment instead of the structured `error` field.
        if let Some(diagnostic) = event.legacy_diagnostic() {
            let problem = match body {
                Some(payload) => {
                    let status = match payload.code {
                        Some(code) => match StatusCode::from_u16(code) {
                            Ok(status) => status,
                            Err(_) => StatusCode::internal_server_error(),
                        },
                        None => StatusCode::internal_server_error(),
                    };
                    match payload.message {
                        Some(message) => Self::from_backend_status(
                            status,
                            message.as_str(),
                            diagnostic.as_str(),
                        ),
                        None => Self::from_backend_status(
                            status,
                            diagnostic.as_str(),
                            diagnostic.as_str(),
                        ),
                    }
                },
                None => Self::internal(INTERNAL_ERROR_MESSAGE, diagnostic.as_str()),
            };
            return Some(problem);
        }
        if event.is_error() {
            if let Some(error) = &event.error {
                return Some(
                    Self::from_error_with_validation_scope(
                        error,
                        INTERNAL_ERROR_MESSAGE,
                        ValidationScope::Outermost,
                        overload,
                    ),
                );
            }
        }
        // Legacy backends used a comment-only, otherwise empty annotation as
        // an error marker. Preserve that signal, but never expose or interpret
        // the untyped comment as a client-safe status/message.
        if event.data.is_none() && event.event.is_none() {
            if let Some(comments) = &event.comment {
                if comments.len() > 0 {
                    let diagnostic = text::join(comments, ", ");
                    return Some(Self::internal(INTERNAL_ERROR_MESSAGE, diagnostic.as_str()));
                }
            }
        }
        None
    }

    /// The problem for a status that a backend reports.
    pub fn from_backend_status(status: StatusCode, message: &str, diagnostic: &str) -> (problem:
        HttpProblem)
        ensures
            problem@ == backend_problem(status@, message@, diagnostic@),
    {
        let diagnostic = diagnostic.to_owned();
        if status.as_u16() == CLIENT_CLOSED_REQUEST {
            Self::classified(HttpProblemKind::Cancelled, status, CANCELLED_MESSAGE, diagnostic)
        } else if status.is_client_error() {
            Self::classified(kind_for_status(status), status, message, diagnostic)
        } else if status.is_server_error() {
            Self::classified(kind_for_status(status), status, INTERNAL_ERROR_MESSAGE, diagnostic)
        } else {
            Self::internal(INTERNAL_ERROR_MESSAGE, diagnostic.as_str())
        }
    }

    /// The problem that keeps the failure to itself.
    pub fn internal(message: &str, diagnostic: &str) -> (problem: HttpProblem)
        ensures
            problem@ == internal_problem(message@, diagnostic@),
    {
        Self::classified(
            HttpProblemKind::Internal,
            StatusCode::internal_server_error(),
            message,
            diagnostic.to_owned(),
        )
    }

    /// The problem for a runtime failure.
    pub fn from_dynamo_error(
        error: &DynamoError,
        internal_message: &str,
        diagnostic: String,
        overload: StatusCode,
    ) -> (problem: HttpProblem)
        ensures
            problem@ == dynamo_problem(*error, internal_message@, diagnostic@, overload@),
    {
        if let Some((status, message)) = backend_http_payload(error) {
            return Self::from_backend_status(status, message.as_str(), diagnostic.as_str());
        }
        match error.error_type {
            ErrorType::InvalidArgument | ErrorType::Backend(BackendError::InvalidArgument) =>
                Self::classified(
                    HttpProblemKind::Validation,
                    StatusCode::bad_request(),
                    error.message.as_str(),
                    diagnostic,
                ),
            ErrorType::ResourceExhausted => Self::classified(
                HttpProblemKind::Overloaded,
                overload,
                OVERLOADED_MESSAGE,
                diagnostic,
            ),
            ErrorType::Unavailable => Self::classified(
                HttpProblemKind::Unavailable,
                StatusCode::service_unavailable(),
                UNAVAILABLE_MESSAGE,
                diagnostic,
            ),
            ErrorType::Cancelled | ErrorType::Backend(BackendError::Cancelled) => Self::classified(
                HttpProblemKind::Cancelled,
                StatusCode::client_closed_request(),
                CANCELLED_MESSAGE,
                diagnostic,
            ),
            _ => Self::internal(internal_message, diagnostic.as_str()),
        }
    }

    /// The problem for an explicit HTTP error.
    pub fn from_explicit_http_error(error: &HttpError, diagnostic: String) -> (problem: HttpProblem)
        ensures
            problem@ == explicit_problem(*error, diagnostic@),
    {
        let status = match StatusCode::from_u16(error.code) {
            Ok(status) => status,
            Err(_) => return Self::internal(INTERNAL_ERROR_MESSAGE, diagnostic.as_str()),
        };
        if status.as_u16() == CLIENT_CLOSED_REQUEST {
            Self::classified(HttpProblemKind::Cancelled, status, CANCELLED_MESSAGE, diagnostic)
        } else if status.is_client_error() {
            Self::classified(kind_for_status(status), status, error.message.as_str(), diagnostic)
        } else {
            Self::internal(INTERNAL_ERROR_MESSAGE, diagnostic.as_str())
        }
    }

    fn classified(
        kind: HttpProblemKind,
        status: StatusCode,
        message: &str,
        diagnostic: String,
    ) -> (problem: HttpProblem)
        requires
            kind is Overloaded || kind == kind_of(status@) && (client_error(status@)
                || server_error(status@)),
        ensures
            problem@ == plain_problem(kind, status@, message@, diagnostic@),
    {
        proof {
            use_type_invariant(status);
        }
        HttpProblem { kind, status, message: message.to_owned(), diagnostic, details: None }
    }

    /// The category of the problem.
    pub fn kind(&self) -> (kind: HttpProblemKind)
        ensures
            kind == self@.kind,
            self@.consistent(),
    {
        proof {
            use_type_invariant(self);
        }
        self.kind
    }

    /// The status to answer with.
    pub fn status(&self) -> (status: StatusCode)
        ensures
            status@ == self@.status,
            self@.consistent(),
    {
        proof {
            use_type_invariant(self);
        }
        self.status
    }

    /// The message for the client.
    pub fn message(&self) -> (message: &str)
        ensures
            message@ == self@.message,
    {
        self.message.as_str()
    }

    /// What to log of the problem.
    pub fn diagnostic(&self) -> (diagnostic: &str)
        ensures
            diagnostic@ == self@.diagnostic,
    {
        self.diagnostic.as_str()
    }

    /// The JSON value to send along.
    pub fn details(&self) -> (details: Option<Box<Value>>)
        ensures
            details == self@.details,
    {
        clone_details(&self.details)
    }

    /// The metric under which the problem counts.
    pub fn metric_type(&self) -> (metric: MetricErrorType)
        ensures
            metric == metric_of(self@.kind),
    {
        metric_type_for_kind(self.kind)
    }

    /// The metric under which a status counts.
    pub fn metric_type_for_status(status: StatusCode) -> (metric: MetricErrorType)
        ensures
            metric == metric_of(kind_of(status@)),
            metric == metric_of_status(status@),
    {
        metric_type_for_kind(kind_for_status(status))
    }

    /// Shows the problem: its message.
    pub fn to_string(&self) -> (text: String)
        ensures
            text@ == self@.message,
    {
        self.message.clone()
    }
}

impl Clone for HttpProblem {
    fn clone(&self) -> (copy: HttpProblem)
        ensures
            copy@ == self@,
    {
        proof {
            use_type_invariant(self);
        }
        HttpProblem {
            kind: self.kind,
            status: self.status,
            message: self.message.clone(),
            diagnostic: self.diagnostic.clone(),
            details: clone_details(&self.details),
        }
    }
}

} // verus!
