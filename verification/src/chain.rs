//! Errors and the errors that caused them.

use crate::text;
use crate::text::{contents, decimal, decimal_text, joined};
use serde_json::Value;
use vstd::prelude::*;

verus! {

/// The outside type of JSON values. One is carried along unread.
#[verifier::external_type_specification]
#[verifier::external_body]
pub struct ExValue(serde_json::Value);

/// Specifies `serde_json::Value::clone`, whose result is the same JSON value.
pub assume_specification[ <serde_json::Value as Clone>::clone ](value: &serde_json::Value) -> (copy:
    serde_json::Value)
    ensures
        copy == *value,
;

/// What a backend has to say about a failure of its own.
#[derive(Debug, Clone, Copy, PartialEq, Eq, Structural)]
pub enum BackendError {
    InvalidArgument,
    Cancelled,
    Unknown,
    /// A backend failure that no rule sets apart.
    Other,
}

/// The category of a runtime failure.
#[derive(Debug, Clone, Copy, PartialEq, Eq, Structural)]
pub enum ErrorType {
    InvalidArgument,
    ResourceExhausted,
    Unavailable,
    Cancelled,
    Unknown,
    Backend(BackendError),
    /// A failure that no rule sets apart.
    Other,
}

/// The `{code, message}` envelope that a backend may send as its message text.
#[derive(Debug)]
pub struct BackendHttpPayload {
    pub code: u16,
    pub message: String,
}

/// A typed failure of the runtime.
#[derive(Debug)]
pub struct DynamoError {
    pub error_type: ErrorType,
    pub message: String,
    /// The envelope that `message` decodes to, if it is one. It is read of a
    /// backend's invalid argument or unknown failure only, and may be absent from
    /// an error of any other type.
    pub payload: Option<BackendHttpPayload>,
}

/// Implementation of the Completion Engines served by the HTTP service should
/// map their custom errors to this error type if they wish to return error
/// codes besides 500.
#[derive(Debug)]
pub struct HttpError {
    pub code: u16,
    pub message: String,
}

impl HttpError {
    /// What the error shows of itself.
    pub open spec fn text(self) -> Seq<char> {
        "HTTP Error "@ + decimal(self.code as nat) + ": "@ + self.message@
    }

    /// Shows the error.
    pub fn to_string(&self) -> (text: String)
        ensures
            text@ == self.text(),
    {
        let mut text = "HTTP Error ".to_owned();
        text.append(decimal_text(self.code).as_str());
        text.append(": ");
        text.append(self.message.as_str());
        text
    }
}

/// One error of a chain.
#[derive(Debug)]
pub enum ErrorLink {
    /// The router's queue refused the request: what the rejection shows of
    /// itself, and the JSON value it serialises to, if it does.
    QueueRejection { message: String, details: Option<Box<Value>> },
    Dynamo(DynamoError),
    Http(HttpError),
    /// Any other error: what it shows of itself.
    Untyped { message: String },
}

/// The part of a link that goes into a diagnostic.
pub open spec fn link_text(link: ErrorLink) -> Seq<char> {
    match link {
        ErrorLink::QueueRejection { message, .. } => message@,
        ErrorLink::Dynamo(error) => error.message@,
        ErrorLink::Http(error) => error.text(),
        ErrorLink::Untyped { message } => message@,
    }
}

/// The diagnostic of a chain: all its links, from the outermost to the root cause.
pub open spec fn chain_text(links: Seq<ErrorLink>) -> Seq<char> {
    joined(links.map_values(|link: ErrorLink| link_text(link)), ": "@)
}

/// An error together with its causes.
#[derive(Debug)]
pub struct ErrorChain {
    links: Vec<ErrorLink>,
}

impl View for ErrorChain {
    type V = Seq<ErrorLink>;

    closed spec fn view(&self) -> Seq<ErrorLink> {
        self.links@
    }
}

impl ErrorChain {
    /// What holds of every value of this type: a chain starts with an error.
    #[verifier::type_invariant]
    pub open spec fn has_an_error(self) -> bool {
        self@.len() > 0
    }

    /// An error without a cause.
    pub fn new(error: ErrorLink) -> (chain: ErrorChain)
        ensures
            chain@ == seq![error],
    {
        let mut links = Vec::new();
        links.push(error);
        ErrorChain { links }
    }

    /// This chain, with a cause for the error at its end.
    pub fn caused_by(self, cause: ErrorLink) -> (chain: ErrorChain)
        ensures
            chain@ == self@.push(cause),
    {
        let mut links = self.links;
        links.push(cause);
        ErrorChain { links }
    }
}

/// The outermost link of a chain that satisfies a condition.
pub open spec fn outermost(links: Seq<ErrorLink>, wanted: spec_fn(ErrorLink) -> bool) -> Option<
    ErrorLink,
>
    decreases links.len(),
{
    if links.len() == 0 {
        None
    } else if wanted(links.first()) {
        Some(links.first())
    } else {
        outermost(links.drop_first(), wanted)
    }
}

/// The condition of being a runtime failure of one type.
pub open spec fn of_type(error_type: ErrorType) -> spec_fn(ErrorLink) -> bool {
    |link: ErrorLink|
        match link {
            ErrorLink::Dynamo(error) => error.error_type == error_type,
            _ => false,
        }
}

/// The condition of being a runtime failure.
pub open spec fn is_dynamo() -> spec_fn(ErrorLink) -> bool {
    |link: ErrorLink| link is Dynamo
}

/// The condition of being a queue rejection.
pub open spec fn is_rejection() -> spec_fn(ErrorLink) -> bool {
    |link: ErrorLink| link is QueueRejection
}

/// The condition of being a runtime failure or an explicit HTTP error.
pub open spec fn is_typed() -> spec_fn(ErrorLink) -> bool {
    |link: ErrorLink| link is Dynamo || link is Http
}

/// The runtime failure that a link holds.
pub open spec fn dynamo_of(link: Option<ErrorLink>) -> Option<DynamoError> {
    match link {
        Some(ErrorLink::Dynamo(error)) => Some(error),
        _ => None,
    }
}

/// The outermost runtime failure of one type.
pub open spec fn dynamo_in_chain(links: Seq<ErrorLink>, error_type: ErrorType) -> Option<
    DynamoError,
> {
    dynamo_of(outermost(links, of_type(error_type)))
}

/// The outermost runtime failure.
pub open spec fn outermost_dynamo(links: Seq<ErrorLink>) -> Option<DynamoError> {
    dynamo_of(outermost(links, is_dynamo()))
}

/// Where a chain may hold the validation failure that decides.
#[derive(Debug, Clone, Copy, PartialEq, Eq, Structural)]
pub enum ValidationScope {
    /// Anywhere.
    Chain,
    /// Nowhere but in the outermost runtime failure.
    Outermost,
}

/// The types of a failed validation.
pub open spec fn is_validation(error_type: ErrorType) -> bool {
    ||| error_type == ErrorType::InvalidArgument
    ||| error_type == ErrorType::Backend(BackendError::InvalidArgument)
}

/// The first of two choices that is there.
pub open spec fn or_else(
    first: Option<DynamoError>,
    second: Option<DynamoError>,
) -> Option<DynamoError> {
    if first is Some {
        first
    } else {
        second
    }
}

/// The validation failure that decides.
pub open spec fn validation_in_chain(links: Seq<ErrorLink>, scope: ValidationScope) -> Option<
    DynamoError,
> {
    match scope {
        ValidationScope::Chain => or_else(
            dynamo_in_chain(links, ErrorType::InvalidArgument),
            dynamo_in_chain(links, ErrorType::Backend(BackendError::InvalidArgument)),
        ),
        ValidationScope::Outermost => match outermost_dynamo(links) {
            Some(error) => if is_validation(error.error_type) {
                Some(error)
            } else {
                None
            },
            None => None,
        },
    }
}

/// The runtime failure that decides wherever it stands: exhausted resources
/// before unavailability, then validation, then cancellation.
pub open spec fn selected(links: Seq<ErrorLink>, scope: ValidationScope) -> Option<DynamoError> {
    or_else(
        dynamo_in_chain(links, ErrorType::ResourceExhausted),
        or_else(
            dynamo_in_chain(links, ErrorType::Unavailable),
            or_else(
                validation_in_chain(links, scope),
                or_else(
                    dynamo_in_chain(links, ErrorType::Cancelled),
                    dynamo_in_chain(links, ErrorType::Backend(BackendError::Cancelled)),
                ),
            ),
        ),
    )
}

/// Finds the outermost runtime failure of one type.
pub fn find_dynamo_error_in_chain<'a>(err: &'a ErrorChain, error_type: ErrorType) -> (found: Option<
    &'a DynamoError,
>)
    ensures
        found matches Some(error) ==> dynamo_in_chain(err@, error_type) == Some(*error),
        found is None ==> dynamo_in_chain(err@, error_type) is None,
{
    let mut i: usize = 0;
    proof {
        assert(err@.skip(0) =~= err@);
    }
    while i < err.links.len()
        invariant
            i <= err.links.len(),
            err@ == err.links@,
            outermost(err@, of_type(error_type)) == outermost(
                err@.skip(i as int),
                of_type(error_type),
            ),
        decreases err.links.len() - i,
    {
        if let ErrorLink::Dynamo(error) = &err.links[i] {
            if error.error_type == error_type {
                return Some(error);
            }
        }
        proof {
            assert(err@.skip(i as int).drop_first() =~= err@.skip(i + 1));
        }
        i = i + 1;
    }
    None
}

/// Finds the outermost runtime failure.
pub fn find_outermost_dynamo_error_in_chain<'a>(err: &'a ErrorChain) -> (found: Option<
    &'a DynamoError,
>)
    ensures
        found matches Some(error) ==> outermost_dynamo(err@) == Some(*error),
        found is None ==> outermost_dynamo(err@) is None,
{
    let mut i: usize = 0;
    proof {
        assert(err@.skip(0) =~= err@);
    }
    while i < err.links.len()
        invariant
            i <= err.links.len(),
            err@ == err.links@,
            outermost(err@, is_dynamo()) == outermost(err@.skip(i as int), is_dynamo()),
        decreases err.links.len() - i,
    {
        if let ErrorLink::Dynamo(error) = &err.links[i] {
            return Some(error);
        }
        proof {
            assert(err@.skip(i as int).drop_first() =~= err@.skip(i + 1));
        }
        i = i + 1;
    }
    None
}

/// Selects the runtime failure that decides wherever it stands.
pub fn select_dynamo_error_in_chain<'a>(
    err: &'a ErrorChain,
    validation_scope: ValidationScope,
) -> (found: Option<&'a DynamoError>)
    ensures
        found matches Some(error) ==> selected(err@, validation_scope) == Some(*error),
        found is None ==> selected(err@, validation_scope) is None,
{
    // Preserve operational signals through wrappers before considering the
    // validation scope selected by the calling boundary.
    if let Some(error) = find_dynamo_error_in_chain(err, ErrorType::ResourceExhausted) {
        return Some(error);
    }
    if let Some(error) = find_dynamo_error_in_chain(err, ErrorType::Unavailable) {
        return Some(error);
    }
    match validation_scope {
        ValidationScope::Chain => {
            if let Some(error) = find_dynamo_error_in_chain(err, ErrorType::InvalidArgument) {
                return Some(error);
            }
            if let Some(error) = find_dynamo_error_in_chain(
                err,
                ErrorType::Backend(BackendError::InvalidArgument),
            ) {
                return Some(error);
            }
        },
        ValidationScope::Outermost => {
            if let Some(error) = find_outermost_dynamo_error_in_chain(err) {
                if matches!(
                    error.error_type,
                    ErrorType::InvalidArgument | ErrorType::Backend(BackendError::InvalidArgument)
                ) {
                    return Some(error);
                }
            }
        },
    }
    if let Some(error) = find_dynamo_error_in_chain(err, ErrorType::Cancelled) {
        return Some(error);
    }
    find_dynamo_error_in_chain(err, ErrorType::Backend(BackendError::Cancelled))
}

/// Finds the outermost queue rejection.
pub fn find_rejection_in_chain<'a>(err: &'a ErrorChain) -> (found: Option<&'a ErrorLink>)
    ensures
        found matches Some(link) ==> outermost(err@, is_rejection()) == Some(*link),
        found is None ==> outermost(err@, is_rejection()) is None,
{
    let mut i: usize = 0;
    proof {
        assert(err@.skip(0) =~= err@);
    }
    while i < err.links.len()
        invariant
            i <= err.links.len(),
            err@ == err.links@,
            outermost(err@, is_rejection()) == outermost(err@.skip(i as int), is_rejection()),
        decreases err.links.len() - i,
    {
        if let ErrorLink::QueueRejection { .. } = &err.links[i] {
            return Some(&err.links[i]);
        }
        proof {
            assert(err@.skip(i as int).drop_first() =~= err@.skip(i + 1));
        }
        i = i + 1;
    }
    None
}

/// Finds the outermost link that is a runtime failure or an explicit HTTP error.
pub fn find_typed_in_chain<'a>(err: &'a ErrorChain) -> (found: Option<&'a ErrorLink>)
    ensures
        found matches Some(link) ==> outermost(err@, is_typed()) == Some(*link),
        found is None ==> outermost(err@, is_typed()) is None,
{
    let mut i: usize = 0;
    proof {
        assert(err@.skip(0) =~= err@);
    }
    while i < err.links.len()
        invariant
            i <= err.links.len(),
            err@ == err.links@,
            outermost(err@, is_typed()) == outermost(err@.skip(i as int), is_typed()),
        decreases err.links.len() - i,
    {
        match &err.links[i] {
            ErrorLink::Dynamo(_) | ErrorLink::Http(_) => {
                return Some(&err.links[i]);
            },
            _ => {},
        }
        proof {
            assert(err@.skip(i as int).drop_first() =~= err@.skip(i + 1));
        }
        i = i + 1;
    }
    None
}

/// Writes the diagnostic of a chain.
pub fn format_error_chain(err: &ErrorChain) -> (text: String)
    ensures
        text@ == chain_text(err@),
        err@.len() > 0,
{
    proof {
        use_type_invariant(err);
    }
    let mut parts: Vec<String> = Vec::new();
    let mut i: usize = 0;
    while i < err.links.len()
        invariant
            i <= err.links.len(),
            err@ == err.links@,
            parts.len() == i,
            forall|j: int| 0 <= j < i ==> (#[trigger] parts[j])@ == link_text(err@[j]),
        decreases err.links.len() - i,
    {
        let part = match &err.links[i] {
            ErrorLink::QueueRejection { message, .. } => message.clone(),
            ErrorLink::Dynamo(error) => error.message.clone(),
            ErrorLink::Http(error) => error.to_string(),
            ErrorLink::Untyped { message } => message.clone(),
        };
        parts.push(part);
        i = i + 1;
    }
    proof {
        assert(contents(parts@) =~= err@.map_values(|link: ErrorLink| link_text(link)));
    }
    text::join(&parts, ": ")
}

/// A typed invalid-argument error, for validation performed at the boundary of
/// an HTTP protocol adapter.
pub fn invalid_argument(message: &str) -> (error: DynamoError)
    ensures
        error.error_type == ErrorType::InvalidArgument,
        error.message@ == message@,
        error.payload is None,
{
    DynamoError {
        error_type: ErrorType::InvalidArgument,
        message: message.to_owned(),
        payload: None,
    }
}

} // verus!
