//! What each operation answers, case by case, in numbers and in words.

use crate::chain::{
    chain_text, dynamo_in_chain, is_dynamo, is_rejection, is_typed, is_validation, of_type,
    outermost, outermost_dynamo, selected, validation_in_chain, BackendError, BackendHttpPayload,
    DynamoError, ErrorLink, ErrorType, HttpError, ValidationScope,
};
use crate::event::{comment_text, Annotated, ErrorPayload};
use crate::laws::outermost_comes_first;
use crate::problem::{
    backend_problem, chain_problem, dynamo_problem, error_problem, event_problem, explicit_problem,
    honoured_payload, internal_problem, kind_of, legacy_problem, metric_of, metric_of_status,
    HttpProblemKind, ProblemView,
};
use crate::sanitized::SanitizedError;
use crate::status::{client_error, informational, is_status, server_error, StatusCode};
use crate::text::{contents, joined};
use vstd::prelude::*;

verus! {

/// The numbers of the status classes.
pub proof fn classes_of_statuses(code: u16)
    ensures
        is_status(code) <==> 100 <= code <= 999,
        informational(code) <==> 100 <= code <= 199,
        client_error(code) <==> 400 <= code <= 499,
        server_error(code) <==> 500 <= code <= 599,
{
}

/// A status has a category of its own exactly at eight numbers. Every other status
/// that blames the client is a failed validation, and what remains is internal.
pub proof fn categories_of_statuses(status: u16)
    ensures
        kind_of(status) is Authentication <==> status == 401,
        kind_of(status) is Permission <==> status == 403,
        kind_of(status) is NotFound <==> status == 404,
        kind_of(status) is RateLimit <==> status == 429,
        kind_of(status) is Cancelled <==> status == 499,
        kind_of(status) is NotImplemented <==> status == 501,
        kind_of(status) is Unavailable <==> status == 503,
        kind_of(status) is Overloaded <==> status == 529,
        400 <= status <= 499 && status != 401 && status != 403 && status != 404 && status != 429
            && status != 499 <==> kind_of(status) is Validation,
        kind_of(status) is Internal ==> status < 400 || status >= 500,
        status < 400 || status >= 500 ==> {
            ||| kind_of(status) is Internal
            ||| status == 501 || status == 503 || status == 529
        },
{
}

/// A failed validation is what categories of refusal count as; being too busy
/// counts as overload; every other category counts as itself.
pub proof fn metrics_of_categories(kind: HttpProblemKind)
    ensures
        metric_of(kind) is Validation <==> kind is Validation || kind is Authentication
            || kind is Permission,
        metric_of(kind) is Overload <==> kind is Overloaded || kind is RateLimit,
        metric_of(kind) is NotFound <==> kind is NotFound,
        metric_of(kind) is Unavailable <==> kind is Unavailable,
        metric_of(kind) is Cancelled <==> kind is Cancelled,
        metric_of(kind) is NotImplemented <==> kind is NotImplemented,
        metric_of(kind) is Internal <==> kind is Internal,
{
}

/// A status counts as a failure of the client exactly where it blames the client.
pub proof fn metrics_of_statuses(status: u16)
    ensures
        metric_of_status(status) == metric_of(kind_of(status)),
        metric_of_status(status) is Validation <==> 400 <= status <= 499 && status != 404
            && status != 429 && status != 499,
        metric_of_status(status) is Overload <==> status == 429 || status == 529,
        metric_of_status(status) is NotFound <==> status == 404,
        metric_of_status(status) is Cancelled <==> status == 499,
        metric_of_status(status) is NotImplemented <==> status == 501,
        metric_of_status(status) is Unavailable <==> status == 503,
        metric_of_status(status) is Internal <==> (status < 400 || status >= 500) && status != 501
            && status != 503 && status != 529,
{
}

/// What holds of every problem, in numbers.
pub proof fn statuses_of_problems(problem: ProblemView)
    ensures
        problem.consistent() <==> {
            ||| problem.kind is Overloaded && 100 <= problem.status <= 999
            ||| problem.kind == kind_of(problem.status) && 400 <= problem.status <= 599
        },
{
}

/// The problem of an untold failure.
pub proof fn untold_failures(message: Seq<char>, diagnostic: Seq<char>)
    ensures
        internal_problem(message, diagnostic) == (ProblemView {
            kind: HttpProblemKind::Internal,
            status: 500,
            message,
            diagnostic,
            details: None,
        }),
{
}

/// A backend's status from 400 to 498 reaches the client with its message; 499 is
/// a cancellation; one from 500 to 599 reaches the client without its message;
/// any other is a failure of the server.
pub proof fn statuses_of_backends(status: u16, message: Seq<char>, diagnostic: Seq<char>)
    ensures
        ({
            let problem = backend_problem(status, message, diagnostic);
            &&& problem.diagnostic == diagnostic
            &&& problem.details is None
            &&& problem.kind == kind_of(problem.status)
            &&& 400 <= status <= 498 ==> problem.status == status && problem.message == message
            &&& status == 499 ==> problem.status == 499 && problem.message == "Request cancelled"@
            &&& 500 <= status <= 599 ==> problem.status == status && problem.message
                == "Internal server error"@
            &&& status < 400 || status > 599 ==> problem.status == 500 && problem.message
                == "Internal server error"@
        }),
{
}

/// The compatibility model has no error for a backend's status from 400 to 498, and
/// only for those; 499 is a cancellation; one from 500 to 599 is kept; any other is
/// an internal error.
pub proof fn sanitized_statuses_of_backends(status: StatusCode)
    ensures
        SanitizedError::of_backend_status(status) is None <==> 400 <= status@ <= 498,
        SanitizedError::of_backend_status(status) == Some(SanitizedError::Cancelled) <==> status@
            == 499,
        500 <= status@ <= 599 <==> SanitizedError::of_backend_status(status) == Some(
            SanitizedError::PreserveServerError(status),
        ),
        SanitizedError::of_backend_status(status) == Some(SanitizedError::Internal) <==> status@
            < 400 || status@ > 599,
{
}

/// What a sanitized error answers, shows and logs.
pub proof fn answers_of_sanitized_errors(status: StatusCode, overload: u16)
    ensures
        SanitizedError::Cancelled.status_of(overload) == 499,
        SanitizedError::Overloaded.status_of(overload) == overload,
        SanitizedError::Unavailable.status_of(overload) == 503,
        SanitizedError::Internal.status_of(overload) == 500,
        SanitizedError::PreserveServerError(status).status_of(overload) == status@,
        SanitizedError::Cancelled.text() == "Request cancelled"@,
        SanitizedError::Overloaded.text() == "Service temporarily overloaded"@,
        SanitizedError::Unavailable.text() == "Service temporarily unavailable"@,
        SanitizedError::Internal.text() == "Internal server error"@,
        SanitizedError::PreserveServerError(status).text() == "Internal server error"@,
        !SanitizedError::Cancelled.is_logged(),
        SanitizedError::Overloaded.is_logged(),
        SanitizedError::Unavailable.is_logged(),
        SanitizedError::Internal.is_logged(),
        SanitizedError::PreserveServerError(status).is_logged(),
{
}

/// What the protocols call a sanitized error: busy are an overload, unavailability,
/// and the preserved statuses 503 and 529, and no other.
pub proof fn names_of_sanitized_errors(status: StatusCode)
    ensures
        SanitizedError::Cancelled.anthropic_name() == "request_cancelled"@,
        SanitizedError::Cancelled.openai_name() == "request_cancelled"@,
        SanitizedError::Overloaded.anthropic_name() == "overloaded_error"@,
        SanitizedError::Overloaded.openai_name() == "service_unavailable"@,
        SanitizedError::Unavailable.anthropic_name() == "overloaded_error"@,
        SanitizedError::Unavailable.openai_name() == "service_unavailable"@,
        SanitizedError::Internal.anthropic_name() == "api_error"@,
        SanitizedError::Internal.openai_name() == "internal_server_error"@,
        status@ == 503 || status@ == 529 ==> {
            &&& SanitizedError::PreserveServerError(status).anthropic_name() == "overloaded_error"@
            &&& SanitizedError::PreserveServerError(status).openai_name() == "service_unavailable"@
        },
        status@ != 503 && status@ != 529 ==> {
            &&& SanitizedError::PreserveServerError(status).anthropic_name() == "api_error"@
            &&& SanitizedError::PreserveServerError(status).openai_name()
                == "internal_server_error"@
        },
{
}

/// An explicit HTTP error with a code from 400 to 498 reaches the client as it is;
/// 499 is a cancellation; any other code is a failure of the server.
pub proof fn codes_of_http_errors(error: HttpError, diagnostic: Seq<char>)
    ensures
        ({
            let problem = explicit_problem(error, diagnostic);
            &&& problem.diagnostic == diagnostic
            &&& problem.details is None
            &&& problem.kind == kind_of(problem.status)
            &&& 400 <= error.code <= 498 ==> problem.status == error.code && problem.message
                == error.message@
            &&& error.code == 499 ==> problem.status == 499 && problem.message
                == "Request cancelled"@
            &&& error.code < 400 || error.code > 499 ==> problem.status == 500 && problem.message
                == "Internal server error"@
        }),
{
}

/// An envelope is read exactly where its code fits the failure: from 400 to 499 of
/// a backend's invalid argument, from 500 to 599 of a backend's unknown failure.
/// What is read is its code and its message.
pub proof fn envelopes_that_are_read(error: DynamoError, payload: BackendHttpPayload)
    ensures
        ({
            let enveloped = DynamoError { payload: Some(payload), ..error };
            let fits = {
                ||| error.error_type == ErrorType::Backend(BackendError::InvalidArgument) && 400
                    <= payload.code <= 499
                ||| error.error_type == ErrorType::Backend(BackendError::Unknown) && 500
                    <= payload.code <= 599
            };
            &&& fits ==> honoured_payload(enveloped) == Some((payload.code, payload.message@))
            &&& !fits ==> honoured_payload(enveloped) is None
        }),
        error.payload is None ==> honoured_payload(error) is None,
{
}

/// A runtime failure that speaks through an envelope is classified as a backend's
/// report of the envelope's code and message is.
pub proof fn failures_with_an_envelope(
    error: DynamoError,
    payload: BackendHttpPayload,
    internal_message: Seq<char>,
    diagnostic: Seq<char>,
    overload: u16,
)
    requires
        error.payload == Some(payload),
        ({
            ||| error.error_type == ErrorType::Backend(BackendError::InvalidArgument) && 400
                <= payload.code <= 499
            ||| error.error_type == ErrorType::Backend(BackendError::Unknown) && 500
                <= payload.code <= 599
        }),
    ensures
        ({
            let problem = dynamo_problem(error, internal_message, diagnostic, overload);
            &&& problem == backend_problem(payload.code, payload.message@, diagnostic)
            &&& problem.status == payload.code
            &&& problem.kind == kind_of(payload.code)
            &&& problem.message == if payload.code == 499 {
                "Request cancelled"@
            } else if payload.code < 499 {
                payload.message@
            } else {
                "Internal server error"@
            }
        }),
{
}

/// A runtime failure without a fitting envelope is classified by its type: a failed
/// validation in its own words, an operational failure in fixed words, and any
/// other failure in the words that the caller chose.
pub proof fn failures_without_an_envelope(
    error: DynamoError,
    internal_message: Seq<char>,
    diagnostic: Seq<char>,
    overload: u16,
)
    requires
        error.payload matches Some(payload) ==> {
            &&& error.error_type == ErrorType::Backend(BackendError::InvalidArgument)
                ==> payload.code < 400 || payload.code > 499
            &&& error.error_type == ErrorType::Backend(BackendError::Unknown) ==> payload.code < 500
                || payload.code > 599
        },
    ensures
        ({
            let problem = dynamo_problem(error, internal_message, diagnostic, overload);
            let t = error.error_type;
            &&& problem.diagnostic == diagnostic
            &&& problem.details is None
            &&& t == ErrorType::InvalidArgument || t == ErrorType::Backend(
                BackendError::InvalidArgument,
            ) ==> problem.kind is Validation && problem.status == 400 && problem.message
                == error.message@
            &&& t == ErrorType::ResourceExhausted ==> problem.kind is Overloaded && problem.status
                == overload && problem.message == "Service temporarily overloaded"@
            &&& t == ErrorType::Unavailable ==> problem.kind is Unavailable && problem.status == 503
                && problem.message == "Service temporarily unavailable"@
            &&& t == ErrorType::Cancelled || t == ErrorType::Backend(BackendError::Cancelled)
                ==> problem.kind is Cancelled && problem.status == 499 && problem.message
                == "Request cancelled"@
            &&& t == ErrorType::Unknown || t == ErrorType::Other || t == ErrorType::Backend(
                BackendError::Unknown,
            ) || t == ErrorType::Backend(BackendError::Other) ==> problem.kind is Internal
                && problem.status == 500 && problem.message == internal_message
        }),
{
}

/// Whether a link is a runtime failure of one type.
pub open spec fn is_failure(link: ErrorLink, error_type: ErrorType) -> bool {
    link matches ErrorLink::Dynamo(error) && error.error_type == error_type
}

/// Whether a runtime failure of one type occurs in a chain.
pub open spec fn occurs(links: Seq<ErrorLink>, error_type: ErrorType) -> bool {
    exists|i: int| 0 <= i < links.len() && is_failure(#[trigger] links[i], error_type)
}

/// Whether a place in a chain holds the outermost runtime failure of one type.
pub open spec fn is_first_of(links: Seq<ErrorLink>, i: int, error_type: ErrorType) -> bool {
    &&& 0 <= i < links.len()
    &&& is_failure(links[i], error_type)
    &&& forall|j: int| 0 <= j < i ==> !is_failure(#[trigger] links[j], error_type)
}

/// Whether a place in a chain holds the outermost runtime failure.
pub open spec fn is_first_failure(links: Seq<ErrorLink>, i: int) -> bool {
    &&& 0 <= i < links.len()
    &&& links[i] is Dynamo
    &&& forall|j: int| 0 <= j < i ==> !((#[trigger] links[j]) is Dynamo)
}

/// Whether a chain holds a queue rejection.
pub open spec fn is_rejected(links: Seq<ErrorLink>) -> bool {
    exists|i: int| 0 <= i < links.len() && (#[trigger] links[i]) is QueueRejection
}

/// Whether a chain holds a failed validation where the scope allows one: anywhere,
/// or in the outermost runtime failure only.
pub open spec fn has_validation(links: Seq<ErrorLink>, scope: ValidationScope) -> bool {
    match scope {
        ValidationScope::Chain => occurs(links, ErrorType::InvalidArgument) || occurs(
            links,
            ErrorType::Backend(BackendError::InvalidArgument),
        ),
        ValidationScope::Outermost => exists|i: int| #[trigger]
            is_first_failure(links, i) && (is_failure(links[i], ErrorType::InvalidArgument)
                || is_failure(links[i], ErrorType::Backend(BackendError::InvalidArgument))),
    }
}

proof fn lemma_first(links: Seq<ErrorLink>, wanted: spec_fn(ErrorLink) -> bool, i: int)
    requires
        0 <= i < links.len(),
        wanted(links[i]),
        forall|j: int| 0 <= j < i ==> !wanted(#[trigger] links[j]),
    ensures
        outermost(links, wanted) == Some(links[i]),
    decreases i,
{
    if i > 0 {
        let rest = links.drop_first();
        assert(!wanted(links[0]));
        assert forall|j: int| 0 <= j < i - 1 implies !wanted(#[trigger] rest[j]) by {
            assert(rest[j] == links[j + 1]);
        }
        lemma_first(rest, wanted, i - 1);
    }
}

proof fn lemma_none(links: Seq<ErrorLink>, wanted: spec_fn(ErrorLink) -> bool)
    requires
        forall|j: int| 0 <= j < links.len() ==> !wanted(#[trigger] links[j]),
    ensures
        outermost(links, wanted) is None,
{
    outermost_comes_first(links, wanted);
}

/// The search for a runtime failure of one type finds the outermost one.
pub proof fn search_finds_the_outermost(links: Seq<ErrorLink>, error_type: ErrorType, i: int)
    requires
        is_first_of(links, i, error_type),
    ensures
        dynamo_in_chain(links, error_type) == Some(links[i]->Dynamo_0),
{
    let wanted = of_type(error_type);
    assert forall|j: int| 0 <= j < i implies !wanted(#[trigger] links[j]) by {
        assert(!is_failure(links[j], error_type));
    }
    lemma_first(links, wanted, i);
}

/// The search for a runtime failure of one type finds nothing where none occurs.
pub proof fn search_finds_nothing_else(links: Seq<ErrorLink>, error_type: ErrorType)
    requires
        !occurs(links, error_type),
    ensures
        dynamo_in_chain(links, error_type) is None,
{
    let wanted = of_type(error_type);
    assert forall|j: int| 0 <= j < links.len() implies !wanted(#[trigger] links[j]) by {
        assert(!is_failure(links[j], error_type));
    }
    lemma_none(links, wanted);
}

/// The search for the outermost runtime failure finds it.
pub proof fn search_finds_the_outermost_failure(links: Seq<ErrorLink>, i: int)
    requires
        is_first_failure(links, i),
    ensures
        outermost_dynamo(links) == Some(links[i]->Dynamo_0),
{
    lemma_first(links, is_dynamo(), i);
}

/// The search for the outermost runtime failure finds nothing where there is none.
pub proof fn search_finds_no_failure(links: Seq<ErrorLink>)
    requires
        forall|j: int| 0 <= j < links.len() ==> !((#[trigger] links[j]) is Dynamo),
    ensures
        outermost_dynamo(links) is None,
{
    lemma_none(links, is_dynamo());
}

/// The search for a queue rejection finds the outermost one, if there is one.
pub proof fn search_for_rejections(links: Seq<ErrorLink>, i: int)
    ensures
        0 <= i < links.len() && links[i] is QueueRejection && (forall|j: int|
            0 <= j < i ==> !((#[trigger] links[j]) is QueueRejection)) ==> outermost(
            links,
            is_rejection(),
        ) == Some(links[i]),
        !is_rejected(links) ==> outermost(links, is_rejection()) is None,
{
    if 0 <= i < links.len() && links[i] is QueueRejection && (forall|j: int|
        0 <= j < i ==> !((#[trigger] links[j]) is QueueRejection)) {
        lemma_first(links, is_rejection(), i);
    }
    if !is_rejected(links) {
        lemma_none(links, is_rejection());
    }
}

/// The search for a typed error finds the outermost runtime failure or explicit
/// HTTP error, if there is one.
pub proof fn search_for_typed_errors(links: Seq<ErrorLink>, i: int)
    ensures
        0 <= i < links.len() && (links[i] is Dynamo || links[i] is Http) && (forall|j: int|
            0 <= j < i ==> !((#[trigger] links[j]) is Dynamo) && !(links[j] is Http))
            ==> outermost(links, is_typed()) == Some(links[i]),
        (forall|j: int|
            0 <= j < links.len() ==> !((#[trigger] links[j]) is Dynamo) && !(links[j] is Http))
            ==> outermost(links, is_typed()) is None,
{
    if 0 <= i < links.len() && (links[i] is Dynamo || links[i] is Http) && (forall|j: int|
        0 <= j < i ==> !((#[trigger] links[j]) is Dynamo) && !(links[j] is Http)) {
        lemma_first(links, is_typed(), i);
    }
    if forall|j: int|
        0 <= j < links.len() ==> !((#[trigger] links[j]) is Dynamo) && !(links[j] is Http) {
        lemma_none(links, is_typed());
    }
}

proof fn lemma_validation_in_scope(links: Seq<ErrorLink>, scope: ValidationScope)
    ensures
        !has_validation(links, scope) ==> validation_in_chain(links, scope) is None,
{
    if !has_validation(links, scope) {
        match scope {
            ValidationScope::Chain => {
                search_finds_nothing_else(links, ErrorType::InvalidArgument);
                search_finds_nothing_else(links, ErrorType::Backend(BackendError::InvalidArgument));
            },
            ValidationScope::Outermost => {
                outermost_comes_first(links, is_dynamo());
                if outermost_dynamo(links) is Some {
                    let link = outermost(links, is_dynamo())->0;
                    let i = choose|i: int|
                        {
                            &&& 0 <= i < links.len()
                            &&& #[trigger] links[i] == link
                            &&& forall|j: int| 0 <= j < i ==> !is_dynamo()(#[trigger] links[j])
                        };
                    assert forall|j: int| 0 <= j < i implies !((#[trigger] links[j]) is Dynamo) by {
                        assert(!is_dynamo()(links[j]));
                    }
                    assert(is_first_failure(links, i));
                }
            },
        }
    }
}

/// Exhausted resources are selected before all else.
pub proof fn exhaustion_is_selected(links: Seq<ErrorLink>, scope: ValidationScope, i: int)
    requires
        is_first_of(links, i, ErrorType::ResourceExhausted),
    ensures
        selected(links, scope) == Some(links[i]->Dynamo_0),
{
    search_finds_the_outermost(links, ErrorType::ResourceExhausted, i);
}

/// Unavailability is selected next.
pub proof fn unavailability_is_selected(links: Seq<ErrorLink>, scope: ValidationScope, i: int)
    requires
        !occurs(links, ErrorType::ResourceExhausted),
        is_first_of(links, i, ErrorType::Unavailable),
    ensures
        selected(links, scope) == Some(links[i]->Dynamo_0),
{
    search_finds_nothing_else(links, ErrorType::ResourceExhausted);
    search_finds_the_outermost(links, ErrorType::Unavailable, i);
}

/// Where validation may stand anywhere, an invalid argument is selected next.
pub proof fn invalid_argument_is_selected_anywhere(links: Seq<ErrorLink>, i: int)
    requires
        !occurs(links, ErrorType::ResourceExhausted),
        !occurs(links, ErrorType::Unavailable),
        is_first_of(links, i, ErrorType::InvalidArgument),
    ensures
        selected(links, ValidationScope::Chain) == Some(links[i]->Dynamo_0),
{
    search_finds_nothing_else(links, ErrorType::ResourceExhausted);
    search_finds_nothing_else(links, ErrorType::Unavailable);
    search_finds_the_outermost(links, ErrorType::InvalidArgument, i);
}

/// Where validation may stand anywhere, a backend's invalid argument is selected
/// after the runtime's own.
pub proof fn backend_invalid_argument_is_selected_anywhere(links: Seq<ErrorLink>, i: int)
    requires
        !occurs(links, ErrorType::ResourceExhausted),
        !occurs(links, ErrorType::Unavailable),
        !occurs(links, ErrorType::InvalidArgument),
        is_first_of(links, i, ErrorType::Backend(BackendError::InvalidArgument)),
    ensures
        selected(links, ValidationScope::Chain) == Some(links[i]->Dynamo_0),
{
    search_finds_nothing_else(links, ErrorType::ResourceExhausted);
    search_finds_nothing_else(links, ErrorType::Unavailable);
    search_finds_nothing_else(links, ErrorType::InvalidArgument);
    search_finds_the_outermost(links, ErrorType::Backend(BackendError::InvalidArgument), i);
}

/// Where only the outermost runtime failure may be a validation, and it is one, it
/// is selected.
pub proof fn invalid_argument_is_selected_outermost(links: Seq<ErrorLink>, i: int)
    requires
        !occurs(links, ErrorType::ResourceExhausted),
        !occurs(links, ErrorType::Unavailable),
        is_first_failure(links, i),
        is_failure(links[i], ErrorType::InvalidArgument) || is_failure(
            links[i],
            ErrorType::Backend(BackendError::InvalidArgument),
        ),
    ensures
        selected(links, ValidationScope::Outermost) == Some(links[i]->Dynamo_0),
{
    search_finds_nothing_else(links, ErrorType::ResourceExhausted);
    search_finds_nothing_else(links, ErrorType::Unavailable);
    search_finds_the_outermost_failure(links, i);
}

/// Cancellation is selected after validation, and a backend's after the runtime's.
pub proof fn cancellation_is_selected(links: Seq<ErrorLink>, scope: ValidationScope, i: int)
    requires
        !occurs(links, ErrorType::ResourceExhausted),
        !occurs(links, ErrorType::Unavailable),
        !has_validation(links, scope),
        ({
            ||| is_first_of(links, i, ErrorType::Cancelled)
            ||| !occurs(links, ErrorType::Cancelled) && is_first_of(
                links,
                i,
                ErrorType::Backend(BackendError::Cancelled),
            )
        }),
    ensures
        selected(links, scope) == Some(links[i]->Dynamo_0),
{
    search_finds_nothing_else(links, ErrorType::ResourceExhausted);
    search_finds_nothing_else(links, ErrorType::Unavailable);
    lemma_validation_in_scope(links, scope);
    if is_first_of(links, i, ErrorType::Cancelled) {
        search_finds_the_outermost(links, ErrorType::Cancelled, i);
    } else {
        search_finds_nothing_else(links, ErrorType::Cancelled);
        search_finds_the_outermost(links, ErrorType::Backend(BackendError::Cancelled), i);
    }
}

/// Nothing else is selected.
pub proof fn nothing_else_is_selected(links: Seq<ErrorLink>, scope: ValidationScope)
    requires
        !occurs(links, ErrorType::ResourceExhausted),
        !occurs(links, ErrorType::Unavailable),
        !has_validation(links, scope),
        !occurs(links, ErrorType::Cancelled),
        !occurs(links, ErrorType::Backend(BackendError::Cancelled)),
    ensures
        selected(links, scope) is None,
{
    search_finds_nothing_else(links, ErrorType::ResourceExhausted);
    search_finds_nothing_else(links, ErrorType::Unavailable);
    lemma_validation_in_scope(links, scope);
    search_finds_nothing_else(links, ErrorType::Cancelled);
    search_finds_nothing_else(links, ErrorType::Backend(BackendError::Cancelled));
}

/// The outermost queue rejection of a chain decides, in its own words and with its
/// own details.
pub proof fn rejections_decide(
    links: Seq<ErrorLink>,
    i: int,
    internal_message: Seq<char>,
    scope: ValidationScope,
    overload: u16,
)
    requires
        0 <= i < links.len(),
        links[i] is QueueRejection,
        forall|j: int| 0 <= j < i ==> !((#[trigger] links[j]) is QueueRejection),
    ensures
        chain_problem(links, internal_message, scope, overload) == (ProblemView {
            kind: HttpProblemKind::Overloaded,
            status: overload,
            message: links[i]->QueueRejection_message@,
            diagnostic: chain_text(links),
            details: links[i]->details,
        }),
{
    search_for_rejections(links, i);
}

/// Without a queue rejection, a chain is classified as the failure selected from
/// it, with the diagnostic of the whole chain.
pub proof fn selected_failures_decide(
    links: Seq<ErrorLink>,
    error: DynamoError,
    internal_message: Seq<char>,
    scope: ValidationScope,
    overload: u16,
)
    requires
        !is_rejected(links),
        selected(links, scope) == Some(error),
    ensures
        chain_problem(links, internal_message, scope, overload) == dynamo_problem(
            error,
            internal_message,
            chain_text(links),
            overload,
        ),
{
    search_for_rejections(links, 0);
}

/// Without a queue rejection and a selected failure, a chain is classified as its
/// outermost typed error.
pub proof fn outermost_typed_errors_decide(
    links: Seq<ErrorLink>,
    i: int,
    internal_message: Seq<char>,
    scope: ValidationScope,
    overload: u16,
)
    requires
        !is_rejected(links),
        selected(links, scope) is None,
        0 <= i < links.len(),
        forall|j: int| 0 <= j < i ==> !((#[trigger] links[j]) is Dynamo) && !(links[j] is Http),
    ensures
        links[i] matches ErrorLink::Dynamo(error) ==> chain_problem(
            links,
            internal_message,
            scope,
            overload,
        ) == dynamo_problem(error, internal_message, chain_text(links), overload),
        links[i] matches ErrorLink::Http(error) ==> chain_problem(
            links,
            internal_message,
            scope,
            overload,
        ) == explicit_problem(error, chain_text(links)),
{
    search_for_rejections(links, 0);
    search_for_typed_errors(links, i);
}

/// A chain of untyped errors only is an untold failure.
pub proof fn untyped_errors_are_untold(
    links: Seq<ErrorLink>,
    internal_message: Seq<char>,
    scope: ValidationScope,
    overload: u16,
)
    requires
        forall|j: int| 0 <= j < links.len() ==> (#[trigger] links[j]) is Untyped,
    ensures
        chain_problem(links, internal_message, scope, overload) == (ProblemView {
            kind: HttpProblemKind::Internal,
            status: 500,
            message: internal_message,
            diagnostic: chain_text(links),
            details: None,
        }),
{
    search_for_rejections(links, 0);
    search_for_typed_errors(links, 0);
    assert(!has_validation(links, scope));
    nothing_else_is_selected(links, scope);
}

/// An error is classified over its whole chain.
pub proof fn errors_are_classified_as_chains(
    links: Seq<ErrorLink>,
    internal_message: Seq<char>,
    overload: u16,
)
    ensures
        error_problem(links, internal_message, overload) == chain_problem(
            links,
            internal_message,
            ValidationScope::Chain,
            overload,
        ),
{
}

/// An invalid argument of the runtime's own decides an error from every depth,
/// unless an operational failure does: the client gets status 400 and the failure's own words.
pub proof fn validation_decides_from_every_depth(
    links: Seq<ErrorLink>,
    i: int,
    internal_message: Seq<char>,
    overload: u16,
)
    requires
        !is_rejected(links),
        !occurs(links, ErrorType::ResourceExhausted),
        !occurs(links, ErrorType::Unavailable),
        is_first_of(links, i, ErrorType::InvalidArgument),
    ensures
        error_problem(links, internal_message, overload) == (ProblemView {
            kind: HttpProblemKind::Validation,
            status: 400,
            message: links[i]->Dynamo_0.message@,
            diagnostic: chain_text(links),
            details: None,
        }),
{
    invalid_argument_is_selected_anywhere(links, i);
    selected_failures_decide(
        links,
        links[i]->Dynamo_0,
        internal_message,
        ValidationScope::Chain,
        overload,
    );
}

/// An event that carries an error is classified as that error is in the outermost
/// scope, with the fixed words for untold failures; a decoded body is not read.
pub proof fn events_with_an_error<T>(
    event: Annotated<T>,
    body: Option<ErrorPayload>,
    overload: u16,
)
    requires
        event.error_marker,
        event.error is Some,
    ensures
        event_problem(event, body, overload) == Some(
            chain_problem(
                event.error->0@,
                "Internal server error"@,
                ValidationScope::Outermost,
                overload,
            ),
        ),
{
}

/// An event keeps to itself a validation failure that is not its outermost runtime
/// failure: without a rejection, an operational failure, an explicit HTTP error
/// outside and a fitting envelope, the client is told of an internal error.
pub proof fn events_hide_nested_validation<T>(
    event: Annotated<T>,
    i: int,
    body: Option<ErrorPayload>,
    overload: u16,
)
    requires
        event.error_marker,
        event.error matches Some(error) && {
            let links = error@;
            &&& !is_rejected(links)
            &&& !occurs(links, ErrorType::ResourceExhausted)
            &&& !occurs(links, ErrorType::Unavailable)
            &&& !occurs(links, ErrorType::Cancelled)
            &&& !occurs(links, ErrorType::Backend(BackendError::Cancelled))
            &&& is_first_failure(links, i)
            &&& forall|j: int| 0 <= j < i ==> !((#[trigger] links[j]) is Http)
            &&& !is_failure(links[i], ErrorType::InvalidArgument)
            &&& !is_failure(links[i], ErrorType::Backend(BackendError::InvalidArgument))
            &&& links[i]->Dynamo_0.payload matches Some(payload) ==> (is_failure(
                links[i],
                ErrorType::Backend(BackendError::Unknown),
            ) ==> payload.code < 500 || payload.code > 599)
        },
    ensures
        event_problem(event, body, overload) == Some(
            ProblemView {
                kind: HttpProblemKind::Internal,
                status: 500,
                message: "Internal server error"@,
                diagnostic: chain_text(event.error->0@),
                details: None,
            },
        ),
{
    let links = event.error->0@;
    assert forall|k: int| is_first_failure(links, k) implies k == i by {
        if k < i {
            assert(!(links[k] is Dynamo));
        } else if k > i {
            assert(!(links[i] is Dynamo));
        }
    }
    assert(!has_validation(links, ValidationScope::Outermost));
    nothing_else_is_selected(links, ValidationScope::Outermost);
    outermost_typed_errors_decide(
        links,
        i,
        "Internal server error"@,
        ValidationScope::Outermost,
        overload,
    );
    failures_without_an_envelope(
        links[i]->Dynamo_0,
        "Internal server error"@,
        chain_text(links),
        overload,
    );
}

/// An event whose outermost runtime failure is an invalid argument of the runtime's
/// own tells the client in that failure's words, unless an operational failure
/// decides.
pub proof fn events_tell_the_outermost_validation<T>(
    event: Annotated<T>,
    i: int,
    body: Option<ErrorPayload>,
    overload: u16,
)
    requires
        event.error_marker,
        event.error matches Some(error) && {
            let links = error@;
            &&& !is_rejected(links)
            &&& !occurs(links, ErrorType::ResourceExhausted)
            &&& !occurs(links, ErrorType::Unavailable)
            &&& is_first_failure(links, i)
            &&& is_failure(links[i], ErrorType::InvalidArgument)
        },
    ensures
        event_problem(event, body, overload) == Some(
            ProblemView {
                kind: HttpProblemKind::Validation,
                status: 400,
                message: event.error->0@[i]->Dynamo_0.message@,
                diagnostic: chain_text(event.error->0@),
                details: None,
            },
        ),
{
    let links = event.error->0@;
    invalid_argument_is_selected_outermost(links, i);
    selected_failures_decide(
        links,
        links[i]->Dynamo_0,
        "Internal server error"@,
        ValidationScope::Outermost,
        overload,
    );
}

/// An event marked as an error without one is classified by its comment: without a
/// body the client is told of an internal error; with one, a code from 400 to 498
/// passes on with the body's message or else the comment itself, 499 is a
/// cancellation, a code from 500 to 599 passes on alone, and any other code, or
/// none, is an internal error.
pub proof fn events_without_an_error<T>(
    event: Annotated<T>,
    body: Option<ErrorPayload>,
    overload: u16,
)
    requires
        event.error_marker,
        event.error is None,
    ensures
        event_problem(event, body, overload) matches Some(problem) && {
            let told = match body {
                Some(payload) => match payload.message {
                    Some(message) => message@,
                    None => comment_text(event.comment),
                },
                None => "Internal server error"@,
            };
            let code: int = match body {
                Some(payload) => match payload.code {
                    Some(code) => code as int,
                    None => 500,
                },
                None => 500,
            };
            &&& problem.diagnostic == comment_text(event.comment)
            &&& problem.details is None
            &&& problem.kind == kind_of(problem.status)
            &&& 400 <= code <= 498 ==> problem.status == code && problem.message == told
            &&& code == 499 ==> problem.status == 499 && problem.message == "Request cancelled"@
            &&& 500 <= code <= 599 ==> problem.status == code && problem.message
                == "Internal server error"@
            &&& code < 400 || code > 599 ==> problem.status == 500 && problem.message
                == "Internal server error"@
        },
        event_problem(event, body, overload) == Some(
            legacy_problem(comment_text(event.comment), body),
        ),
{
}

/// An event that is not marked as an error reports a problem exactly when it holds
/// a comment of at least one line and neither data nor a name. That problem is an
/// internal error, and the comment is its diagnostic.
pub proof fn events_without_a_marker<T>(
    event: Annotated<T>,
    body: Option<ErrorPayload>,
    overload: u16,
)
    requires
        !event.error_marker,
    ensures
        match event.comment {
            Some(comments) => if comments@.len() > 0 && event.data is None && event.event is None {
                event_problem(event, body, overload) == Some(
                    ProblemView {
                        kind: HttpProblemKind::Internal,
                        status: 500,
                        message: "Internal server error"@,
                        diagnostic: joined(contents(comments@), ", "@),
                        details: None,
                    },
                )
            } else {
                event_problem(event, body, overload) is None
            },
            None => event_problem(event, body, overload) is None,
        },
{
}

/// An event that only its comment describes is one marked as an error without one.
pub proof fn legacy_events<T>(event: Annotated<T>)
    ensures
        event.is_legacy_error() <==> event.error_marker && event.error is None,
{
}

/// The types of a failed validation.
pub proof fn types_of_validation(error_type: ErrorType)
    ensures
        is_validation(error_type) <==> error_type == ErrorType::InvalidArgument || error_type
            == ErrorType::Backend(BackendError::InvalidArgument),
{
}

} // verus!
