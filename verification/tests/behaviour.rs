use http_problem::chain::{
    find_outermost_dynamo_error_in_chain, format_error_chain, invalid_argument,
    select_dynamo_error_in_chain, BackendError, BackendHttpPayload, DynamoError, ErrorChain,
    ErrorLink, ErrorType, HttpError, ValidationScope,
};
use http_problem::event::{Annotated, ErrorPayload};
use http_problem::metrics::MetricErrorType;
use http_problem::overload::parse_overload_status_code;
use http_problem::problem::{
    backend_http_payload, kind_for_status, metric_type_for_kind, HttpProblem, HttpProblemKind,
    INTERNAL_ERROR_MESSAGE,
};
use http_problem::sanitized::SanitizedError;
use http_problem::status::{StatusCode, StatusCodeError};

fn status(code: u16) -> StatusCode {
    StatusCode::from_u16(code).unwrap()
}

fn dynamo(error_type: ErrorType, message: &str) -> ErrorLink {
    ErrorLink::Dynamo(DynamoError {
        error_type,
        message: message.to_string(),
        payload: None,
    })
}

fn http(code: u16, message: &str) -> ErrorLink {
    ErrorLink::Http(HttpError {
        code,
        message: message.to_string(),
    })
}

fn untyped(message: &str) -> ErrorLink {
    ErrorLink::Untyped {
        message: message.to_string(),
    }
}

fn chain(links: Vec<ErrorLink>) -> ErrorChain {
    let mut links = links.into_iter();
    let mut chain = ErrorChain::new(links.next().unwrap());
    for link in links {
        chain = chain.caused_by(link);
    }
    chain
}

fn event(marked: bool, name: Option<&str>, comment: Option<Vec<&str>>) -> Annotated<u8> {
    Annotated {
        data: None,
        event: name.map(|name| name.to_string()),
        comment: comment.map(|lines| lines.into_iter().map(|line| line.to_string()).collect()),
        error: None,
        error_marker: marked,
    }
}

#[test]
fn status_codes_have_three_digits() {
    assert_eq!(StatusCode::from_u16(99), Err(StatusCodeError));
    assert_eq!(status(100).as_u16(), 100);
    assert_eq!(status(999).as_u16(), 999);
    assert_eq!(StatusCode::from_u16(1000), Err(StatusCodeError));
    assert_eq!(StatusCode::from_u16(0), Err(StatusCodeError));
    assert_eq!(StatusCode::from_u16(65535), Err(StatusCodeError));
}

#[test]
fn status_classes_have_sharp_edges() {
    for code in 100..=999_u16 {
        let status = status(code);
        assert_eq!(status.is_informational(), code / 100 == 1);
        assert_eq!(status.is_client_error(), code / 100 == 4);
        assert_eq!(status.is_server_error(), code / 100 == 5);
    }
}

#[test]
fn named_statuses_have_their_numbers() {
    assert_eq!(StatusCode::bad_request().as_u16(), 400);
    assert_eq!(StatusCode::client_closed_request().as_u16(), 499);
    assert_eq!(StatusCode::internal_server_error().as_u16(), 500);
    assert_eq!(StatusCode::service_unavailable().as_u16(), 503);
    assert_eq!(StatusCode::site_overloaded().as_u16(), 529);
}

#[test]
fn settings_may_be_padded_signed_and_zero_filled() {
    for (setting, code) in [
        (" 503\n", 503),
        ("\u{a0}\u{3000}429\u{2028}", 429),
        ("+503", 503),
        ("000503", 503),
        ("+ 503", 529),
        ("++503", 529),
        ("-503", 529),
        ("+", 529),
        ("5_03", 529),
        ("503.0", 529),
        ("5 03", 529),
        ("\u{200b}503", 529),
        ("\u{665}\u{660}\u{663}", 529),
        ("65536", 529),
        ("66039", 529),
        ("99999999999999999999", 529),
    ] {
        assert_eq!(
            parse_overload_status_code(Some(setting)).as_u16(),
            code,
            "{setting:?}"
        );
    }
}

#[test]
fn every_final_status_configures_itself() {
    for code in 0..=u16::MAX {
        let expected = if (200..=999).contains(&code) { code } else { 529 };
        assert_eq!(
            parse_overload_status_code(Some(&code.to_string())).as_u16(),
            expected
        );
    }
}

#[test]
fn white_space_is_what_unicode_says() {
    let listed: Vec<char> = vec![
        '\u{9}', '\u{a}', '\u{b}', '\u{c}', '\u{d}', '\u{20}', '\u{85}', '\u{a0}', '\u{1680}',
        '\u{2000}', '\u{2001}', '\u{2002}', '\u{2003}', '\u{2004}', '\u{2005}', '\u{2006}',
        '\u{2007}', '\u{2008}', '\u{2009}', '\u{200a}', '\u{2028}', '\u{2029}', '\u{202f}',
        '\u{205f}', '\u{3000}',
    ];
    for c in '\0'..=char::MAX {
        let setting = format!("{c}503{c}");
        let read = parse_overload_status_code(Some(&setting)).as_u16();
        if listed.contains(&c) {
            assert_eq!(read, 503, "{c:?}");
        } else {
            assert_ne!(read, 503, "{c:?}");
        }
    }
}

#[test]
fn chains_are_written_from_the_outside_in() {
    assert_eq!(format_error_chain(&chain(vec![untyped("alone")])), "alone");
    let long = chain(vec![
        untyped("context"),
        dynamo(ErrorType::Unknown, "runtime"),
        http(404, "gone"),
        http(7, ""),
        http(65535, "odd"),
        ErrorLink::QueueRejection {
            message: "queue full".to_string(),
            details: None,
        },
    ]);
    assert_eq!(
        format_error_chain(&long),
        "context: runtime: HTTP Error 404: gone: HTTP Error 7: : HTTP Error 65535: odd: queue full"
    );
}

#[test]
fn http_errors_show_code_and_message() {
    for code in [0_u16, 9, 10, 404, 1000, 60000, 65535] {
        let error = HttpError {
            code,
            message: "m".to_string(),
        };
        assert_eq!(error.to_string(), format!("HTTP Error {code}: m"));
    }
}

#[test]
fn a_queue_rejection_decides() {
    let details: serde_json::Value =
        serde_json::from_str(r#"{"queue_depth":12,"limit":[8,1.5,null]}"#).unwrap();
    let error = chain(vec![
        untyped("routing"),
        dynamo(ErrorType::Unavailable, "down"),
        ErrorLink::QueueRejection {
            message: "queue is full".to_string(),
            details: Some(Box::new(details.clone())),
        },
        ErrorLink::QueueRejection {
            message: "inner queue is full".to_string(),
            details: None,
        },
        dynamo(ErrorType::ResourceExhausted, "busy"),
    ]);
    let problem = HttpProblem::from_error(&error, "request failed", status(429));
    assert_eq!(problem.kind(), HttpProblemKind::Overloaded);
    assert_eq!(problem.status(), status(429));
    assert_eq!(problem.message(), "queue is full");
    assert_eq!(
        problem.diagnostic(),
        "routing: down: queue is full: inner queue is full: busy"
    );
    assert_eq!(problem.details(), Some(Box::new(details)));
    assert_eq!(problem.metric_type(), MetricErrorType::Overload);

    let copy = problem.clone();
    assert_eq!(copy.kind(), problem.kind());
    assert_eq!(copy.status(), problem.status());
    assert_eq!(copy.message(), problem.message());
    assert_eq!(copy.diagnostic(), problem.diagnostic());
    assert_eq!(copy.details(), problem.details());
    assert_eq!(copy.to_string(), "queue is full");
}

#[test]
fn selection_goes_by_priority_and_then_by_depth() {
    let all = vec![
        ErrorType::ResourceExhausted,
        ErrorType::Unavailable,
        ErrorType::InvalidArgument,
        ErrorType::Backend(BackendError::InvalidArgument),
        ErrorType::Cancelled,
        ErrorType::Backend(BackendError::Cancelled),
    ];
    for first in 0..all.len() {
        let links: Vec<ErrorLink> = all[first..]
            .iter()
            .rev()
            .flat_map(|t| [dynamo(*t, "outer"), dynamo(*t, "inner")])
            .collect();
        let error = chain(links);
        let found = select_dynamo_error_in_chain(&error, ValidationScope::Chain).unwrap();
        assert_eq!(found.error_type, all[first]);
        assert_eq!(found.message, "outer");
    }
    let error = chain(vec![untyped("a"), dynamo(ErrorType::Unknown, "b")]);
    assert!(select_dynamo_error_in_chain(&error, ValidationScope::Chain).is_none());
    assert!(select_dynamo_error_in_chain(&error, ValidationScope::Outermost).is_none());
    assert_eq!(
        find_outermost_dynamo_error_in_chain(&error).unwrap().message,
        "b"
    );
    assert!(find_outermost_dynamo_error_in_chain(&chain(vec![untyped("a")])).is_none());
}

#[test]
fn cancellation_beats_nested_validation_in_events_only() {
    let links = || {
        chain(vec![
            dynamo(ErrorType::Unknown, "outer"),
            dynamo(ErrorType::InvalidArgument, "bad"),
            dynamo(ErrorType::Cancelled, "gone"),
        ])
    };
    let problem = HttpProblem::from_error(&links(), "request failed", status(529));
    assert_eq!(problem.message(), "bad");
    let problem =
        HttpProblem::from_annotated(&Annotated::<()>::from_err(links()), None, status(529))
            .unwrap();
    assert_eq!(problem.kind(), HttpProblemKind::Cancelled);
    assert_eq!(problem.message(), "Request cancelled");
    assert_eq!(problem.diagnostic(), "outer: bad: gone");
}

#[test]
fn outermost_validation_decides_through_context() {
    let error = chain(vec![
        untyped("context"),
        dynamo(ErrorType::InvalidArgument, "bad"),
        dynamo(ErrorType::Cancelled, "gone"),
    ]);
    let problem =
        HttpProblem::from_annotated(&Annotated::<()>::from_err(error), None, status(529)).unwrap();
    assert_eq!(problem.kind(), HttpProblemKind::Validation);
    assert_eq!(problem.message(), "bad");
    assert_eq!(problem.diagnostic(), "context: bad: gone");
}

#[test]
fn the_outermost_typed_error_decides_the_rest() {
    let error = chain(vec![
        untyped("context"),
        http(404, "no such model"),
        dynamo(ErrorType::Unknown, "lookup"),
    ]);
    let problem = HttpProblem::from_error(&error, "request failed", status(529));
    assert_eq!(problem.kind(), HttpProblemKind::NotFound);
    assert_eq!(problem.status(), status(404));
    assert_eq!(problem.message(), "no such model");

    let error = chain(vec![
        dynamo(ErrorType::Other, "lookup"),
        http(404, "no such model"),
    ]);
    let problem = HttpProblem::from_error(&error, "request failed", status(529));
    assert_eq!(problem.kind(), HttpProblemKind::Internal);
    assert_eq!(problem.message(), "request failed");

    let problem =
        HttpProblem::from_error(&chain(vec![untyped("secret")]), "request failed", status(529));
    assert_eq!(problem.status(), status(500));
    assert_eq!(problem.message(), "request failed");
    assert_eq!(problem.diagnostic(), "secret");
    assert!(problem.details().is_none());
}

#[test]
fn explicit_http_errors_pass_client_failures_only() {
    for (code, expected_status, expected_message) in [
        (400, 400, "m"),
        (429, 429, "m"),
        (498, 498, "m"),
        (499, 499, "Request cancelled"),
        (500, 500, INTERNAL_ERROR_MESSAGE),
        (503, 500, INTERNAL_ERROR_MESSAGE),
        (200, 500, INTERNAL_ERROR_MESSAGE),
        (99, 500, INTERNAL_ERROR_MESSAGE),
        (1000, 500, INTERNAL_ERROR_MESSAGE),
    ] {
        let problem = HttpProblem::from_explicit_http_error(
            &HttpError {
                code,
                message: "m".to_string(),
            },
            "d".to_string(),
        );
        assert_eq!(problem.status(), status(expected_status), "{code}");
        assert_eq!(problem.message(), expected_message, "{code}");
        assert_eq!(problem.diagnostic(), "d");
    }
}

#[test]
fn envelopes_fit_the_type_of_the_failure() {
    let read = |error_type, code| {
        backend_http_payload(&DynamoError {
            error_type,
            message: "text".to_string(),
            payload: Some(BackendHttpPayload {
                code,
                message: "m".to_string(),
            }),
        })
        .map(|(status, message)| (status.as_u16(), message))
    };
    let invalid = ErrorType::Backend(BackendError::InvalidArgument);
    let unknown = ErrorType::Backend(BackendError::Unknown);
    assert_eq!(read(invalid, 422), Some((422, "m".to_string())));
    assert_eq!(read(invalid, 500), None);
    assert_eq!(read(invalid, 1400), None);
    assert_eq!(read(unknown, 504), Some((504, "m".to_string())));
    assert_eq!(read(unknown, 422), None);
    assert_eq!(read(unknown, 600), None);
    assert_eq!(read(ErrorType::InvalidArgument, 422), None);
    assert_eq!(read(ErrorType::Unknown, 504), None);
    assert_eq!(read(ErrorType::Backend(BackendError::Cancelled), 422), None);
    assert!(backend_http_payload(&invalid_argument("bad")).is_none());
}

#[test]
fn a_backend_can_report_a_cancellation_in_an_envelope() {
    let error = chain(vec![ErrorLink::Dynamo(DynamoError {
        error_type: ErrorType::Backend(BackendError::InvalidArgument),
        message: "text".to_string(),
        payload: Some(BackendHttpPayload {
            code: 499,
            message: "secret".to_string(),
        }),
    })]);
    let problem = HttpProblem::from_error(&error, "request failed", status(529));
    assert_eq!(problem.kind(), HttpProblemKind::Cancelled);
    assert_eq!(problem.message(), "Request cancelled");
    assert_eq!(problem.diagnostic(), "text");
}

#[test]
fn an_invalid_argument_is_a_validation_failure() {
    let error = invalid_argument("n must be positive");
    assert_eq!(error.error_type, ErrorType::InvalidArgument);
    assert_eq!(error.message, "n must be positive");
    assert!(error.payload.is_none());
}

#[test]
fn legacy_errors_are_described_by_their_comment() {
    assert_eq!(
        event(true, Some("error"), Some(vec!["a", "b"])).legacy_diagnostic(),
        Some("a, b".to_string())
    );
    for comment in [None, Some(vec![]), Some(vec![""]), Some(vec![" \t", "\u{3000}"])] {
        let blank = comment.as_ref().map_or(true, |lines| lines.len() < 2);
        let expected = if blank {
            "unspecified error"
        } else {
            " \t, \u{3000}"
        };
        assert_eq!(
            event(true, None, comment).legacy_diagnostic(),
            Some(expected.to_string())
        );
    }
    assert_eq!(
        event(true, None, Some(vec!["  \u{2003}"])).legacy_diagnostic(),
        Some("unspecified error".to_string())
    );
    assert_eq!(event(false, None, Some(vec!["a"])).legacy_diagnostic(), None);
    let typed = Annotated::<u8>::from_err(chain(vec![untyped("a")]));
    assert!(typed.is_error());
    assert_eq!(typed.legacy_diagnostic(), None);
}

#[test]
fn legacy_errors_with_a_body_are_classified_by_it() {
    let text = r#"{"code":404,"message":"no such model"}"#;
    let marked = event(true, Some("error"), Some(vec![text]));
    let classify = |message: Option<&str>, code| {
        HttpProblem::from_annotated(
            &marked,
            Some(ErrorPayload {
                message: message.map(|message| message.to_string()),
                code,
            }),
            status(529),
        )
        .unwrap()
    };
    let problem = classify(Some("no such model"), Some(404));
    assert_eq!(problem.kind(), HttpProblemKind::NotFound);
    assert_eq!(problem.message(), "no such model");
    assert_eq!(problem.diagnostic(), text);

    assert_eq!(classify(None, Some(404)).message(), text);
    assert_eq!(classify(Some("m"), None).status(), status(500));
    assert_eq!(classify(Some("m"), None).message(), INTERNAL_ERROR_MESSAGE);
    assert_eq!(classify(Some("m"), Some(7)).status(), status(500));
    assert_eq!(classify(Some("m"), Some(504)).status(), status(504));
    assert_eq!(classify(Some("m"), Some(504)).message(), INTERNAL_ERROR_MESSAGE);
    assert_eq!(classify(Some("m"), Some(499)).message(), "Request cancelled");

    let problem = HttpProblem::from_annotated(&marked, None, status(529)).unwrap();
    assert_eq!(problem.kind(), HttpProblemKind::Internal);
    assert_eq!(problem.message(), INTERNAL_ERROR_MESSAGE);
    assert_eq!(problem.diagnostic(), text);
}

#[test]
fn bare_comments_report_and_tell_nothing() {
    let problem =
        HttpProblem::from_annotated(&event(false, None, Some(vec!["a", "b"])), None, status(529))
            .unwrap();
    assert_eq!(problem.kind(), HttpProblemKind::Internal);
    assert_eq!(problem.status(), status(500));
    assert_eq!(problem.message(), INTERNAL_ERROR_MESSAGE);
    assert_eq!(problem.diagnostic(), "a, b");

    let with_data = Annotated {
        data: Some(1_u8),
        ..event(false, None, Some(vec!["a"]))
    };
    for quiet in [
        with_data,
        event(false, Some("ping"), Some(vec!["a"])),
        event(false, None, Some(vec![])),
        event(false, None, None),
    ] {
        assert!(HttpProblem::from_annotated(&quiet, None, status(529)).is_none());
    }
}

#[test]
fn statuses_have_kinds_and_metrics() {
    for (code, kind, metric) in [
        (401, HttpProblemKind::Authentication, MetricErrorType::Validation),
        (403, HttpProblemKind::Permission, MetricErrorType::Validation),
        (404, HttpProblemKind::NotFound, MetricErrorType::NotFound),
        (429, HttpProblemKind::RateLimit, MetricErrorType::Overload),
        (499, HttpProblemKind::Cancelled, MetricErrorType::Cancelled),
        (501, HttpProblemKind::NotImplemented, MetricErrorType::NotImplemented),
        (503, HttpProblemKind::Unavailable, MetricErrorType::Unavailable),
        (529, HttpProblemKind::Overloaded, MetricErrorType::Overload),
        (400, HttpProblemKind::Validation, MetricErrorType::Validation),
        (422, HttpProblemKind::Validation, MetricErrorType::Validation),
        (500, HttpProblemKind::Internal, MetricErrorType::Internal),
        (504, HttpProblemKind::Internal, MetricErrorType::Internal),
        (200, HttpProblemKind::Internal, MetricErrorType::Internal),
    ] {
        assert_eq!(kind_for_status(status(code)), kind);
        assert_eq!(metric_type_for_kind(kind), metric);
        assert_eq!(HttpProblem::metric_type_for_status(status(code)), metric);
    }
}

#[test]
fn a_backend_problem_counts_under_its_status_and_is_stable() {
    for code in 100..=999_u16 {
        let problem = HttpProblem::from_backend_status(status(code), "m", "d");
        assert_eq!(
            problem.metric_type(),
            HttpProblem::metric_type_for_status(problem.status())
        );
        let again = HttpProblem::from_backend_status(
            problem.status(),
            problem.message(),
            problem.diagnostic(),
        );
        assert_eq!(again.kind(), problem.kind());
        assert_eq!(again.status(), problem.status());
        assert_eq!(again.message(), problem.message());
        assert_eq!(again.diagnostic(), "d");
    }
}

#[test]
fn both_error_models_agree_on_every_status() {
    for code in 100..=999_u16 {
        let problem = HttpProblem::from_backend_status(status(code), "m", "d");
        match SanitizedError::for_backend_status(status(code)) {
            Some(error) => {
                assert_eq!(error.status(status(529)), problem.status());
                assert_eq!(error.to_string(), problem.message());
            }
            None => {
                assert_eq!(problem.status(), status(code));
                assert_eq!(problem.message(), "m");
            }
        }
    }
}

#[test]
fn sanitized_errors_name_themselves() {
    for (error, code, anthropic, openai, text) in [
        (
            SanitizedError::Cancelled,
            499,
            "request_cancelled",
            "request_cancelled",
            "Request cancelled",
        ),
        (
            SanitizedError::Overloaded,
            420,
            "overloaded_error",
            "service_unavailable",
            "Service temporarily overloaded",
        ),
        (
            SanitizedError::Unavailable,
            503,
            "overloaded_error",
            "service_unavailable",
            "Service temporarily unavailable",
        ),
        (
            SanitizedError::Internal,
            500,
            "api_error",
            "internal_server_error",
            "Internal server error",
        ),
        (
            SanitizedError::PreserveServerError(status(502)),
            502,
            "api_error",
            "internal_server_error",
            "Internal server error",
        ),
    ] {
        assert_eq!(error.status(status(420)), status(code));
        assert_eq!(error.anthropic_type(), anthropic);
        assert_eq!(error.openai_type_slug(), openai);
        assert_eq!(error.to_string(), text);
        assert_eq!(error.log_as_error(), code != 499);
    }
}

#[test]
fn context_shows_in_the_diagnostic_only() {
    let links = || -> Vec<Vec<ErrorLink>> {
        vec![
            vec![dynamo(ErrorType::ResourceExhausted, "busy")],
            vec![dynamo(ErrorType::Unavailable, "down")],
            vec![dynamo(ErrorType::InvalidArgument, "bad")],
            vec![dynamo(ErrorType::Cancelled, "gone")],
            vec![dynamo(ErrorType::Unknown, "odd"), http(404, "m")],
            vec![http(404, "m")],
            vec![untyped("plain")],
        ]
    };
    for (inner, outer) in links().into_iter().zip(links()) {
        let mut wrapped = vec![untyped("context")];
        wrapped.extend(outer);
        let bare = HttpProblem::from_error(&chain(inner), "request failed", status(529));
        let problem = HttpProblem::from_error(&chain(wrapped), "request failed", status(529));
        assert_eq!(problem.kind(), bare.kind());
        assert_eq!(problem.status(), bare.status());
        assert_eq!(problem.message(), bare.message());
        assert_eq!(
            problem.diagnostic(),
            format!("context: {}", bare.diagnostic())
        );
    }
}

#[test]
fn a_body_bears_on_legacy_errors_only() {
    let body = || {
        Some(ErrorPayload {
            message: Some("m".to_string()),
            code: Some(404),
        })
    };
    let quiet = event(false, Some("ping"), Some(vec!["a"]));
    assert!(HttpProblem::from_annotated(&quiet, body(), status(529)).is_none());
    let bare = event(false, None, Some(vec!["a"]));
    let problem = HttpProblem::from_annotated(&bare, body(), status(529)).unwrap();
    assert_eq!(problem.status(), status(500));
    let typed = Annotated::<u8>::from_err(chain(vec![untyped("a")]));
    let problem = HttpProblem::from_annotated(&typed, body(), status(529)).unwrap();
    assert_eq!(problem.status(), status(500));
    assert_eq!(problem.message(), INTERNAL_ERROR_MESSAGE);
}

#[test]
fn a_backend_validation_is_told_from_every_depth() {
    let nested = |payload: Option<BackendHttpPayload>| {
        let error = chain(vec![
            untyped("context"),
            dynamo(ErrorType::Unknown, "outer"),
            ErrorLink::Dynamo(DynamoError {
                error_type: ErrorType::Backend(BackendError::InvalidArgument),
                message: "bad".to_string(),
                payload,
            }),
            dynamo(ErrorType::Cancelled, "gone"),
        ]);
        HttpProblem::from_error(&error, "request failed", status(529))
    };
    let problem = nested(None);
    assert_eq!(problem.kind(), HttpProblemKind::Validation);
    assert_eq!(problem.status(), status(400));
    assert_eq!(problem.message(), "bad");
    assert_eq!(problem.diagnostic(), "context: outer: bad: gone");

    let problem = nested(Some(BackendHttpPayload {
        code: 422,
        message: "too long".to_string(),
    }));
    assert_eq!(problem.status(), status(422));
    assert_eq!(problem.message(), "too long");
}

#[test]
fn scopes_differ_on_nested_validation_only() {
    let rejection = || ErrorLink::QueueRejection {
        message: "full".to_string(),
        details: None,
    };
    let bad = || dynamo(ErrorType::InvalidArgument, "bad");
    let backend = || dynamo(ErrorType::Backend(BackendError::InvalidArgument), "backend bad");
    let unknown = || dynamo(ErrorType::Unknown, "odd");
    for (links, alike) in [
        (vec![unknown(), bad(), rejection()], true),
        (vec![dynamo(ErrorType::ResourceExhausted, "busy"), bad()], true),
        (vec![dynamo(ErrorType::Unavailable, "down"), bad()], true),
        (vec![untyped("context"), bad(), unknown()], true),
        (vec![backend(), unknown()], true),
        (vec![unknown(), dynamo(ErrorType::Cancelled, "gone")], true),
        (vec![http(404, "m")], true),
        (vec![unknown(), bad()], false),
        (vec![backend(), bad()], false),
        (vec![dynamo(ErrorType::Cancelled, "gone"), bad()], false),
    ] {
        let error = chain(links);
        let wide = HttpProblem::from_error_with_validation_scope(
            &error,
            "request failed",
            ValidationScope::Chain,
            status(529),
        );
        let narrow = HttpProblem::from_error_with_validation_scope(
            &error,
            "request failed",
            ValidationScope::Outermost,
            status(529),
        );
        let same = wide.kind() == narrow.kind()
            && wide.status() == narrow.status()
            && wide.message() == narrow.message();
        assert_eq!(same, alike, "{}", wide.diagnostic());
        assert_eq!(wide.diagnostic(), narrow.diagnostic());
    }
}

#[test]
fn the_chosen_message_is_for_internal_problems_only() {
    for (link, message) in [
        (untyped("secret"), "chosen"),
        (dynamo(ErrorType::Unknown, "secret"), "chosen"),
        (http(500, "secret"), INTERNAL_ERROR_MESSAGE),
        (http(404, "gone"), "gone"),
        (dynamo(ErrorType::InvalidArgument, "bad"), "bad"),
        (
            dynamo(ErrorType::Unavailable, "secret"),
            "Service temporarily unavailable",
        ),
    ] {
        let error = chain(vec![link]);
        let problem = HttpProblem::from_error(&error, "chosen", status(529));
        let counterpart = HttpProblem::from_error(&error, "other", status(529));
        assert_eq!(problem.message(), message);
        assert_eq!(problem.kind(), counterpart.kind());
        assert_eq!(problem.status(), counterpart.status());
        assert_eq!(problem.diagnostic(), counterpart.diagnostic());
        if message != "chosen" {
            assert_eq!(counterpart.message(), message);
        } else {
            assert_eq!(counterpart.message(), "other");
            assert_eq!(problem.kind(), HttpProblemKind::Internal);
        }
    }
}
