//! What holds of the classification as a whole. [`cases`] says of each operation
//! what it answers, and [`texts`] what its texts hold.

use crate::chain::{
    chain_text, dynamo_in_chain, is_dynamo, is_rejection, is_typed, is_validation, link_text,
    of_type, outermost, outermost_dynamo, selected, validation_in_chain, BackendError,
    BackendHttpPayload, DynamoError, ErrorLink, ErrorType, ValidationScope,
};
use crate::event::{Annotated, ErrorPayload};
use crate::overload::configured_overload;
use crate::problem::{
    backend_problem, cancelled_problem, chain_problem, dynamo_problem, event_problem,
    explicit_problem, honoured_payload, internal_problem, kind_of, metric_of, plain_problem,
    HttpProblemKind, ProblemView, CANCELLED_MESSAGE, INTERNAL_ERROR_MESSAGE, OVERLOADED_MESSAGE,
    UNAVAILABLE_MESSAGE,
};
use crate::sanitized::SanitizedError;
use crate::status::{
    client_error, informational, is_status, server_error, StatusCode, CLIENT_CLOSED_REQUEST,
    SITE_OVERLOADED,
};
use crate::text::{
    decimal, decimal_reads_back, is_blank, is_white_space, joined_puts_first_in_front, trimmed, trimmed_back,
    trimmed_front,
};
use vstd::prelude::*;

pub mod cases;
pub mod texts;

verus! {

/// Whether a chain holds a link that satisfies a condition.
pub open spec fn holds(links: Seq<ErrorLink>, wanted: spec_fn(ErrorLink) -> bool) -> bool {
    exists|i: int| 0 <= i < links.len() && wanted(#[trigger] links[i])
}

/// The outermost link with a property is in the chain, has the property, and has
/// no such link around it; there is one whenever the chain holds one.
pub proof fn outermost_comes_first(links: Seq<ErrorLink>, wanted: spec_fn(ErrorLink) -> bool)
    ensures
        outermost(links, wanted) is Some <==> holds(links, wanted),
        outermost(links, wanted) matches Some(link) ==> wanted(link) && exists|i: int|
            {
                &&& 0 <= i < links.len()
                &&& #[trigger] links[i] == link
                &&& forall|j: int| 0 <= j < i ==> !wanted(#[trigger] links[j])
            },
    decreases links.len(),
{
    if links.len() > 0 {
        if wanted(links.first()) {
            assert(links[0] == links.first());
        } else {
            let rest = links.drop_first();
            outermost_comes_first(rest, wanted);
            if outermost(rest, wanted) is Some {
                let link = outermost(rest, wanted)->0;
                let i = choose|i: int|
                    {
                        &&& 0 <= i < rest.len()
                        &&& #[trigger] rest[i] == link
                        &&& forall|j: int| 0 <= j < i ==> !wanted(#[trigger] rest[j])
                    };
                assert(links[i + 1] == link);
                assert forall|j: int| 0 <= j < i + 1 implies !wanted(#[trigger] links[j]) by {
                    if j > 0 {
                        assert(links[j] == rest[j - 1]);
                    }
                }
            } else {
                assert forall|j: int| 0 <= j < links.len() implies !wanted(#[trigger] links[j]) by {
                    if j > 0 {
                        assert(links[j] == rest[j - 1]);
                    }
                }
            }
        }
    }
}

/// An error of a type that the chain holds is found, and is of that type.
proof fn lemma_found(links: Seq<ErrorLink>, error_type: ErrorType)
    ensures
        dynamo_in_chain(links, error_type) is Some <==> holds(links, of_type(error_type)),
        dynamo_in_chain(links, error_type) matches Some(error) ==> error.error_type == error_type,
{
    outermost_comes_first(links, of_type(error_type));
}

/// A queue rejection decides, whatever else the chain holds: the client is told
/// of the overload in the words of the outermost rejection.
pub proof fn rejection_decides(
    links: Seq<ErrorLink>,
    internal_message: Seq<char>,
    scope: ValidationScope,
    overload: u16,
)
    requires
        holds(links, is_rejection()),
    ensures
        ({
            let problem = chain_problem(links, internal_message, scope, overload);
            &&& problem.kind is Overloaded
            &&& problem.status == overload
            &&& outermost(links, is_rejection()) matches Some(
                ErrorLink::QueueRejection { message, details },
            ) && problem.message == message@ && problem.details == details
        }),
{
    outermost_comes_first(links, is_rejection());
}

/// Exhausted resources keep their meaning at every depth, whatever wraps them.
pub proof fn exhaustion_survives_wrapping(
    links: Seq<ErrorLink>,
    internal_message: Seq<char>,
    scope: ValidationScope,
    overload: u16,
)
    requires
        !holds(links, is_rejection()),
        holds(links, of_type(ErrorType::ResourceExhausted)),
    ensures
        chain_problem(links, internal_message, scope, overload) == plain_problem(
            HttpProblemKind::Overloaded,
            overload,
            OVERLOADED_MESSAGE@,
            chain_text(links),
        ),
{
    outermost_comes_first(links, is_rejection());
    lemma_found(links, ErrorType::ResourceExhausted);
}

/// Unavailability keeps its meaning at every depth, unless resources are
/// exhausted too.
pub proof fn unavailability_survives_wrapping(
    links: Seq<ErrorLink>,
    internal_message: Seq<char>,
    scope: ValidationScope,
    overload: u16,
)
    requires
        !holds(links, is_rejection()),
        !holds(links, of_type(ErrorType::ResourceExhausted)),
        holds(links, of_type(ErrorType::Unavailable)),
    ensures
        chain_problem(links, internal_message, scope, overload) == plain_problem(
            HttpProblemKind::Unavailable,
            503,
            UNAVAILABLE_MESSAGE@,
            chain_text(links),
        ),
{
    outermost_comes_first(links, is_rejection());
    lemma_found(links, ErrorType::ResourceExhausted);
    lemma_found(links, ErrorType::Unavailable);
}

/// Cancellation keeps its meaning at every depth, unless an operational failure
/// or a validation failure in scope decides.
pub proof fn cancellation_survives_wrapping(
    links: Seq<ErrorLink>,
    internal_message: Seq<char>,
    scope: ValidationScope,
    overload: u16,
)
    requires
        !holds(links, is_rejection()),
        !holds(links, of_type(ErrorType::ResourceExhausted)),
        !holds(links, of_type(ErrorType::Unavailable)),
        validation_in_chain(links, scope) is None,
        holds(links, of_type(ErrorType::Cancelled)) || holds(
            links,
            of_type(ErrorType::Backend(BackendError::Cancelled)),
        ),
    ensures
        chain_problem(links, internal_message, scope, overload) == cancelled_problem(
            chain_text(links),
        ),
{
    outermost_comes_first(links, is_rejection());
    lemma_found(links, ErrorType::ResourceExhausted);
    lemma_found(links, ErrorType::Unavailable);
    lemma_found(links, ErrorType::Cancelled);
    lemma_found(links, ErrorType::Backend(BackendError::Cancelled));
}

/// Where validation may stand anywhere, a failed one is told to the client in
/// its own words, however deep it stands, unless an operational failure decides.
pub proof fn validation_anywhere_is_told(
    links: Seq<ErrorLink>,
    internal_message: Seq<char>,
    overload: u16,
)
    requires
        !holds(links, is_rejection()),
        !holds(links, of_type(ErrorType::ResourceExhausted)),
        !holds(links, of_type(ErrorType::Unavailable)),
        holds(links, of_type(ErrorType::InvalidArgument)),
    ensures
        dynamo_in_chain(links, ErrorType::InvalidArgument) matches Some(error) && chain_problem(
            links,
            internal_message,
            ValidationScope::Chain,
            overload,
        ) == plain_problem(
            HttpProblemKind::Validation,
            400,
            error.message@,
            chain_text(links),
        ),
{
    outermost_comes_first(links, is_rejection());
    lemma_found(links, ErrorType::ResourceExhausted);
    lemma_found(links, ErrorType::Unavailable);
    lemma_found(links, ErrorType::InvalidArgument);
}

/// The same of an argument that a backend calls invalid, unless the chain holds an
/// invalid argument of the runtime's own. The failure speaks through its envelope
/// where that names a client failure, and else in its own words.
pub proof fn backend_validation_anywhere_is_told(
    links: Seq<ErrorLink>,
    internal_message: Seq<char>,
    overload: u16,
)
    requires
        !holds(links, is_rejection()),
        !holds(links, of_type(ErrorType::ResourceExhausted)),
        !holds(links, of_type(ErrorType::Unavailable)),
        !holds(links, of_type(ErrorType::InvalidArgument)),
        holds(links, of_type(ErrorType::Backend(BackendError::InvalidArgument))),
    ensures
        dynamo_in_chain(links, ErrorType::Backend(BackendError::InvalidArgument)) matches Some(
            error,
        ) && {
            let problem = chain_problem(links, internal_message, ValidationScope::Chain, overload);
            &&& problem == dynamo_problem(error, internal_message, chain_text(links), overload)
            &&& match honoured_payload(error) {
                Some((status, message)) => problem == backend_problem(
                    status,
                    message,
                    chain_text(links),
                ),
                None => problem == plain_problem(
                    HttpProblemKind::Validation,
                    400,
                    error.message@,
                    chain_text(links),
                ),
            }
        },
{
    outermost_comes_first(links, is_rejection());
    lemma_found(links, ErrorType::ResourceExhausted);
    lemma_found(links, ErrorType::Unavailable);
    lemma_found(links, ErrorType::InvalidArgument);
    lemma_found(links, ErrorType::Backend(BackendError::InvalidArgument));
}

/// Where only the outermost runtime failure may be a validation, and it is one, it
/// decides, unless an operational failure does.
pub proof fn outermost_validation_decides(
    links: Seq<ErrorLink>,
    error: DynamoError,
    internal_message: Seq<char>,
    overload: u16,
)
    requires
        !holds(links, is_rejection()),
        !holds(links, of_type(ErrorType::ResourceExhausted)),
        !holds(links, of_type(ErrorType::Unavailable)),
        outermost_dynamo(links) == Some(error),
        is_validation(error.error_type),
    ensures
        chain_problem(links, internal_message, ValidationScope::Outermost, overload)
            == dynamo_problem(error, internal_message, chain_text(links), overload),
{
    outermost_comes_first(links, is_rejection());
    lemma_found(links, ErrorType::ResourceExhausted);
    lemma_found(links, ErrorType::Unavailable);
}

/// Where only the outermost runtime failure may be a validation, no other
/// validation failure is ever selected.
pub proof fn nested_validation_is_not_selected(links: Seq<ErrorLink>)
    ensures
        selected(links, ValidationScope::Outermost) matches Some(error) ==> (is_validation(
            error.error_type,
        ) ==> outermost_dynamo(links) == Some(error)),
{
    lemma_found(links, ErrorType::ResourceExhausted);
    lemma_found(links, ErrorType::Unavailable);
    lemma_found(links, ErrorType::Cancelled);
    lemma_found(links, ErrorType::Backend(BackendError::Cancelled));
}

/// The outermost runtime failure is in the chain under its own type.
proof fn lemma_outermost_dynamo_is_found(links: Seq<ErrorLink>)
    ensures
        outermost_dynamo(links) matches Some(error) ==> dynamo_in_chain(links, error.error_type)
            == Some(error),
    decreases links.len(),
{
    if links.len() > 0 && !(links.first() is Dynamo) {
        let rest = links.drop_first();
        lemma_outermost_dynamo_is_found(rest);
        if let Some(error) = outermost_dynamo(rest) {
            assert(!of_type(error.error_type)(links.first()));
        }
    }
}

/// Whether a chain decides alike in both scopes of validation: no validation
/// failure is selected in the whole chain but the outermost runtime failure.
pub open spec fn scope_is_irrelevant(links: Seq<ErrorLink>) -> bool {
    selected(links, ValidationScope::Chain) matches Some(error) ==> (is_validation(error.error_type)
        ==> outermost_dynamo(links) == Some(error))
}

/// The scope of validation matters exactly where the whole chain would select a
/// validation failure that is not the outermost runtime failure. What is selected
/// in the narrow scope has a counterpart in the wide one.
pub proof fn scopes_select_alike(links: Seq<ErrorLink>)
    ensures
        selected(links, ValidationScope::Chain) == selected(links, ValidationScope::Outermost)
            <==> scope_is_irrelevant(links),
        selected(links, ValidationScope::Outermost) is Some ==> selected(
            links,
            ValidationScope::Chain,
        ) is Some,
{
    lemma_found(links, ErrorType::ResourceExhausted);
    lemma_found(links, ErrorType::Unavailable);
    lemma_found(links, ErrorType::InvalidArgument);
    lemma_found(links, ErrorType::Backend(BackendError::InvalidArgument));
    lemma_found(links, ErrorType::Cancelled);
    lemma_found(links, ErrorType::Backend(BackendError::Cancelled));
    lemma_outermost_dynamo_is_found(links);
}

/// Both scopes of validation give the same problem, unless the whole chain would
/// select a validation failure that is not the outermost runtime failure, with no
/// queue rejection to decide before it.
pub proof fn scopes_differ_on_nested_validation_only(
    links: Seq<ErrorLink>,
    internal_message: Seq<char>,
    overload: u16,
)
    requires
        holds(links, is_rejection()) || scope_is_irrelevant(links),
    ensures
        chain_problem(links, internal_message, ValidationScope::Chain, overload) == chain_problem(
            links,
            internal_message,
            ValidationScope::Outermost,
            overload,
        ),
{
    outermost_comes_first(links, is_rejection());
    scopes_select_alike(links);
}

/// Where no queue rejection and no selected failure decides, the outermost typed
/// error does, and without one the failure is untold.
pub proof fn outermost_typed_error_decides_the_rest(
    links: Seq<ErrorLink>,
    internal_message: Seq<char>,
    scope: ValidationScope,
    overload: u16,
)
    requires
        !holds(links, is_rejection()),
        selected(links, scope) is None,
    ensures
        chain_problem(links, internal_message, scope, overload) == match outermost(
            links,
            is_typed(),
        ) {
            Some(ErrorLink::Dynamo(error)) => dynamo_problem(
                error,
                internal_message,
                chain_text(links),
                overload,
            ),
            Some(ErrorLink::Http(error)) => explicit_problem(error, chain_text(links)),
            _ => internal_problem(internal_message, chain_text(links)),
        },
{
    outermost_comes_first(links, is_rejection());
}

/// The message that the caller chose for untold failures shows in the message of
/// an internal problem, word for word, and nowhere else.
pub proof fn chosen_message_is_for_internal_problems_only(
    links: Seq<ErrorLink>,
    chosen: Seq<char>,
    other: Seq<char>,
    scope: ValidationScope,
    overload: u16,
)
    ensures
        ({
            let problem = chain_problem(links, chosen, scope, overload);
            let counterpart = chain_problem(links, other, scope, overload);
            &&& problem.kind == counterpart.kind
            &&& problem.status == counterpart.status
            &&& problem.diagnostic == counterpart.diagnostic
            &&& problem.details == counterpart.details
            &&& problem.message != counterpart.message ==> {
                &&& problem.kind is Internal
                &&& problem.status == 500
                &&& problem.message == chosen
                &&& counterpart.message == other
            }
        }),
{
}

/// Where only the outermost runtime failure may be a validation, an untold failure
/// around a validation failure keeps that to itself.
pub proof fn nested_validation_stays_inside(
    links: Seq<ErrorLink>,
    error: DynamoError,
    internal_message: Seq<char>,
    overload: u16,
)
    requires
        !holds(links, is_rejection()),
        !holds(links, of_type(ErrorType::ResourceExhausted)),
        !holds(links, of_type(ErrorType::Unavailable)),
        !holds(links, of_type(ErrorType::Cancelled)),
        !holds(links, of_type(ErrorType::Backend(BackendError::Cancelled))),
        outermost(links, is_typed()) == Some(ErrorLink::Dynamo(error)),
        !is_validation(error.error_type),
        honoured_payload(error) is None,
    ensures
        chain_problem(links, internal_message, ValidationScope::Outermost, overload)
            == internal_problem(internal_message, chain_text(links)),
{
    outermost_comes_first(links, is_rejection());
    lemma_found(links, ErrorType::ResourceExhausted);
    lemma_found(links, ErrorType::Unavailable);
    lemma_found(links, ErrorType::Cancelled);
    lemma_found(links, ErrorType::Backend(BackendError::Cancelled));
    lemma_typed_is_dynamo(links, error);
    outermost_comes_first(links, is_typed());
    let i = choose|i: int| 0 <= i < links.len() && #[trigger] links[i] == ErrorLink::Dynamo(error);
    assert(of_type(error.error_type)(links[i]));
}

proof fn lemma_typed_is_dynamo(links: Seq<ErrorLink>, error: DynamoError)
    requires
        outermost(links, is_typed()) == Some(ErrorLink::Dynamo(error)),
    ensures
        outermost_dynamo(links) == Some(error),
    decreases links.len(),
{
    if !(links.first() is Dynamo) {
        lemma_typed_is_dynamo(links.drop_first(), error);
    }
}

/// An event that carries an error is classified as the error itself is, unless the
/// whole chain would select a validation failure that is not the outermost runtime
/// failure.
pub proof fn events_flow_like_errors<T>(
    event: Annotated<T>,
    body: Option<ErrorPayload>,
    overload: u16,
)
    requires
        event.error_marker,
        event.error matches Some(error) && (holds(error@, is_rejection()) || scope_is_irrelevant(
            error@,
        )),
    ensures
        event_problem(event, body, overload) == Some(
            chain_problem(
                event.error->0@,
                INTERNAL_ERROR_MESSAGE@,
                ValidationScope::Chain,
                overload,
            ),
        ),
{
    scopes_differ_on_nested_validation_only(event.error->0@, INTERNAL_ERROR_MESSAGE@, overload);
}

proof fn lemma_outermost_past_wrapper(
    wrapper: ErrorLink,
    links: Seq<ErrorLink>,
    wanted: spec_fn(ErrorLink) -> bool,
)
    requires
        !wanted(wrapper),
    ensures
        outermost(seq![wrapper] + links, wanted) == outermost(links, wanted),
{
    assert((seq![wrapper] + links).drop_first() =~= links);
}

/// An untyped context around an error shows in the diagnostic and nowhere else.
pub proof fn context_changes_the_diagnostic_only(
    context: String,
    links: Seq<ErrorLink>,
    internal_message: Seq<char>,
    scope: ValidationScope,
    overload: u16,
)
    requires
        links.len() > 0,
    ensures
        chain_problem(
            seq![ErrorLink::Untyped { message: context }] + links,
            internal_message,
            scope,
            overload,
        ) == (ProblemView {
            diagnostic: context@ + ": "@ + chain_text(links),
            ..chain_problem(links, internal_message, scope, overload)
        }),
{
    let wrapper = ErrorLink::Untyped { message: context };
    let wrapped = seq![wrapper] + links;
    lemma_outermost_past_wrapper(wrapper, links, is_rejection());
    lemma_outermost_past_wrapper(wrapper, links, is_dynamo());
    lemma_outermost_past_wrapper(wrapper, links, is_typed());
    lemma_outermost_past_wrapper(wrapper, links, of_type(ErrorType::ResourceExhausted));
    lemma_outermost_past_wrapper(wrapper, links, of_type(ErrorType::Unavailable));
    lemma_outermost_past_wrapper(wrapper, links, of_type(ErrorType::InvalidArgument));
    lemma_outermost_past_wrapper(
        wrapper,
        links,
        of_type(ErrorType::Backend(BackendError::InvalidArgument)),
    );
    lemma_outermost_past_wrapper(wrapper, links, of_type(ErrorType::Cancelled));
    lemma_outermost_past_wrapper(
        wrapper,
        links,
        of_type(ErrorType::Backend(BackendError::Cancelled)),
    );
    wrapping_puts_text_in_front(wrapper, links);
}

/// The diagnostic of a wrapped error is the wrapper's text, then that of the error.
pub proof fn wrapping_puts_text_in_front(wrapper: ErrorLink, links: Seq<ErrorLink>)
    requires
        links.len() > 0,
    ensures
        chain_text(seq![wrapper] + links) == link_text(wrapper) + ": "@ + chain_text(links),
{
    let texts = links.map_values(|link: ErrorLink| link_text(link));
    joined_puts_first_in_front(link_text(wrapper), texts, ": "@);
    assert((seq![wrapper] + links).map_values(|link: ErrorLink| link_text(link)) =~= seq![
        link_text(wrapper),
    ] + texts);
}

/// The messages that give nothing away.
pub open spec fn is_safe_message(message: Seq<char>) -> bool {
    ||| message == INTERNAL_ERROR_MESSAGE@
    ||| message == CANCELLED_MESSAGE@
    ||| message == OVERLOADED_MESSAGE@
    ||| message == UNAVAILABLE_MESSAGE@
}

/// Apart from queue rejections, a client is told the words of a failure only
/// with a status that blames the client. Of every other failure it is told a
/// fixed message, or the one that the caller chose.
pub proof fn only_client_failures_are_told(
    links: Seq<ErrorLink>,
    internal_message: Seq<char>,
    scope: ValidationScope,
    overload: u16,
)
    requires
        !holds(links, is_rejection()),
    ensures
        ({
            let problem = chain_problem(links, internal_message, scope, overload);
            ||| is_safe_message(problem.message)
            ||| problem.message == internal_message
            ||| client_error(problem.status) && problem.status != CLIENT_CLOSED_REQUEST
        }),
        chain_problem(links, internal_message, scope, overload).details is None,
{
    outermost_comes_first(links, is_rejection());
}

/// The same of the events of a response stream.
pub proof fn only_client_failures_are_streamed<T>(
    event: Annotated<T>,
    body: Option<ErrorPayload>,
    overload: u16,
)
    requires
        event.error_marker ==> (event.error matches Some(error) ==> !holds(
            error@,
            is_rejection(),
        )),
    ensures
        event_problem(event, body, overload) matches Some(problem) ==> {
            ||| is_safe_message(problem.message)
            ||| client_error(problem.status) && problem.status != CLIENT_CLOSED_REQUEST
        },
{
    if event.error_marker && event.error is Some {
        only_client_failures_are_told(
            event.error->0@,
            INTERNAL_ERROR_MESSAGE@,
            ValidationScope::Outermost,
            overload,
        );
    }
}

/// The diagnostic of an error is always that of its whole chain.
pub proof fn diagnostic_is_complete(
    links: Seq<ErrorLink>,
    internal_message: Seq<char>,
    scope: ValidationScope,
    overload: u16,
)
    ensures
        chain_problem(links, internal_message, scope, overload).diagnostic == chain_text(links),
{
}

/// An event reports a problem exactly when it is marked as an error or is a bare
/// comment; of a bare comment the client is told nothing.
pub proof fn events_that_report<T>(event: Annotated<T>, body: Option<ErrorPayload>, overload: u16)
    ensures
        event_problem(event, body, overload) is Some <==> event.error_marker
            || event.is_bare_comment(),
        !event.error_marker ==> (event_problem(event, body, overload) matches Some(problem) ==>
            problem == internal_problem(INTERNAL_ERROR_MESSAGE@, problem.diagnostic)),
{
}

/// A decoded body bears on legacy error events only.
pub proof fn body_is_for_legacy_errors_only<T>(
    event: Annotated<T>,
    body: Option<ErrorPayload>,
    other: Option<ErrorPayload>,
    overload: u16,
)
    requires
        !event.is_legacy_error(),
    ensures
        event_problem(event, body, overload) == event_problem(event, other, overload),
{
}

/// Only a backend's failure can speak through an envelope, and only with a
/// status that fits its type.
pub proof fn envelopes_are_for_backends_only(
    error: DynamoError,
    payload: BackendHttpPayload,
    internal_message: Seq<char>,
    diagnostic: Seq<char>,
    overload: u16,
)
    requires
        error.error_type == ErrorType::Backend(BackendError::InvalidArgument) ==> !client_error(
            payload.code,
        ),
        error.error_type == ErrorType::Backend(BackendError::Unknown) ==> !server_error(
            payload.code,
        ),
    ensures
        dynamo_problem(
            DynamoError { payload: Some(payload), ..error },
            internal_message,
            diagnostic,
            overload,
        ) == dynamo_problem(
            DynamoError { payload: None, ..error },
            internal_message,
            diagnostic,
            overload,
        ),
{
}

/// Every classification gives a problem whose status determines its category,
/// an overload apart.
pub proof fn classification_is_consistent(
    links: Seq<ErrorLink>,
    internal_message: Seq<char>,
    scope: ValidationScope,
    overload: u16,
)
    requires
        is_status(overload),
    ensures
        chain_problem(links, internal_message, scope, overload).consistent(),
{
}

/// A problem counts under the metric of its status, unless it is an overload
/// whose configured status says neither that nor that requests come too fast.
pub proof fn metric_follows_status(problem: ProblemView)
    requires
        problem.consistent(),
        problem.kind is Overloaded ==> problem.status == SITE_OVERLOADED || problem.status == 429,
    ensures
        metric_of(problem.kind) == metric_of(kind_of(problem.status)),
{
}

/// To classify a backend's status again, as it was answered, changes nothing.
pub proof fn classifying_again_changes_nothing(
    status: u16,
    message: Seq<char>,
    diagnostic: Seq<char>,
)
    ensures
        ({
            let problem = backend_problem(status, message, diagnostic);
            backend_problem(problem.status, problem.message, problem.diagnostic) == problem
        }),
{
}

/// The two error models agree on what a backend's status means: where the
/// compatibility model has an error, status and message are those of the problem;
/// where it has none, the client gets the status and the message as they are.
pub proof fn error_models_agree(
    status: StatusCode,
    message: Seq<char>,
    diagnostic: Seq<char>,
    overload: u16,
)
    ensures
        ({
            let problem = backend_problem(status@, message, diagnostic);
            match SanitizedError::of_backend_status(status) {
                Some(error) => problem.status == error.status_of(overload) && problem.message
                    == error.text(),
                None => problem.status == status@ && problem.message == message,
            }
        }),
{
}

/// The status of a failure of the server, or of a cancellation, is preserved;
/// what is no failure becomes an internal error.
pub proof fn server_statuses_are_preserved(status: StatusCode, overload: u16)
    ensures
        SanitizedError::of_backend_status(status) matches Some(error) ==> error.status_of(overload)
            == if server_error(status@) || status@ == CLIENT_CLOSED_REQUEST {
            status@
        } else {
            500u16
        },
{
}

/// The status of an overload is a final status under every setting.
pub proof fn overload_status_is_final(setting: Option<Seq<char>>)
    ensures
        is_status(configured_overload(setting)),
        !informational(configured_overload(setting)),
{
}

/// A final status written in decimal configures itself.
pub proof fn written_status_is_configured(status: u16)
    requires
        is_status(status),
        !informational(status),
    ensures
        configured_overload(Some(decimal(status as nat))) == status,
{
    decimal_reads_back(status);
}

proof fn lemma_trimmed_front_skips_blank(front: Seq<char>, text: Seq<char>)
    requires
        is_blank(front),
    ensures
        trimmed_front(front + text) == trimmed_front(text),
    decreases front.len(),
{
    if front.len() > 0 {
        let rest = front.drop_first();
        assert forall|i: int| 0 <= i < rest.len() implies is_white_space(
            #[trigger] rest[i],
        ) by {
            assert(rest[i] == front[i + 1]);
        }
        lemma_trimmed_front_skips_blank(rest, text);
        assert((front + text).first() == front[0]);
        assert((front + text).drop_first() =~= rest + text);
    } else {
        assert(front + text =~= text);
    }
}

proof fn lemma_trimmed_back_skips_blank(text: Seq<char>, back: Seq<char>)
    requires
        is_blank(back),
    ensures
        trimmed_back(text + back) == trimmed_back(text),
    decreases back.len(),
{
    if back.len() > 0 {
        let rest = back.drop_last();
        assert(is_blank(rest));
        lemma_trimmed_back_skips_blank(text, rest);
        assert((text + back).last() == back[back.len() - 1]);
        assert((text + back).drop_last() =~= text + rest);
    } else {
        assert(text + back =~= text);
    }
}

proof fn lemma_trimmed_with_blank_behind(text: Seq<char>, back: Seq<char>)
    requires
        is_blank(back),
    ensures
        trimmed(text + back) == trimmed(text),
    decreases text.len(),
{
    if text.len() == 0 {
        assert(text + back =~= back + text);
        lemma_trimmed_front_skips_blank(back, text);
    } else if is_white_space(text.first()) {
        assert((text + back).drop_first() =~= text.drop_first() + back);
        lemma_trimmed_with_blank_behind(text.drop_first(), back);
    } else {
        lemma_trimmed_back_skips_blank(text, back);
    }
}

/// White space around a setting does not matter.
pub proof fn padding_of_the_setting_is_ignored(
    front: Seq<char>,
    setting: Seq<char>,
    back: Seq<char>,
)
    requires
        is_blank(front),
        is_blank(back),
    ensures
        configured_overload(Some(front + setting + back)) == configured_overload(Some(setting)),
{
    assert(front + setting + back =~= front + (setting + back));
    lemma_trimmed_front_skips_blank(front, setting + back);
    lemma_trimmed_with_blank_behind(setting, back);
}

} // verus!
