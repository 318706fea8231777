use http_problem::chain::{
    BackendError, BackendHttpPayload, DynamoError, ErrorChain, ErrorLink, ErrorType,
};
use http_problem::event::Annotated;
use http_problem::overload::parse_overload_status_code;
use http_problem::problem::{HttpProblem, HttpProblemKind, INTERNAL_ERROR_MESSAGE};
use http_problem::sanitized::SanitizedError;
use http_problem::status::StatusCode;

fn status(code: u16) -> StatusCode {
    StatusCode::from_u16(code).unwrap()
}

fn overload_status_code() -> StatusCode {
    parse_overload_status_code(None)
}

fn envelope(message: &str) -> Option<BackendHttpPayload> {
    let value: serde_json::Value = serde_json::from_str(message).ok()?;
    Some(BackendHttpPayload {
        code: u16::try_from(value.get("code")?.as_u64()?).ok()?,
        message: value.get("message")?.as_str()?.to_string(),
    })
}

fn dynamo(error_type: ErrorType, message: &str) -> DynamoError {
    DynamoError {
        error_type,
        message: message.to_string(),
        payload: envelope(message),
    }
}

fn single(error: DynamoError) -> ErrorChain {
    ErrorChain::new(ErrorLink::Dynamo(error))
}

#[test]
fn typed_validation_is_safe_and_unknown_errors_are_sanitized() {
    for error_type in [
        ErrorType::InvalidArgument,
        ErrorType::Backend(BackendError::InvalidArgument),
    ] {
        let error = single(dynamo(error_type, "temperature must be between 0 and 2"));
        let problem = HttpProblem::from_error(&error, "request failed", overload_status_code());
        assert_eq!(problem.kind(), HttpProblemKind::Validation);
        assert_eq!(problem.status(), status(400));
        assert_eq!(problem.message(), "temperature must be between 0 and 2");
    }

    let error = single(dynamo(
        ErrorType::Backend(BackendError::Unknown),
        "panic at /srv/worker.py:42",
    ));
    let problem = HttpProblem::from_error(&error, "request failed", overload_status_code());
    assert_eq!(problem.kind(), HttpProblemKind::Internal);
    assert_eq!(problem.status(), status(500));
    assert_eq!(problem.message(), "request failed");
    assert!(!problem.message().contains("/srv/worker.py"));
}

#[test]
fn parses_configured_overload_status_code() {
    for value in [
        None,
        Some(""),
        Some("not-a-code"),
        Some("99"),
        Some("100"),
        Some("199"),
        Some("1000"),
    ] {
        assert_eq!(
            parse_overload_status_code(value).as_u16(),
            529,
            "expected {value:?} to fall back to 529"
        );
    }

    for value in [200_u16, 503, 529, 600, 999] {
        let configured = value.to_string();
        assert_eq!(
            parse_overload_status_code(Some(&configured)).as_u16(),
            value,
            "expected {value} to be preserved"
        );
    }
}

#[test]
fn nested_operational_errors_preserve_classification() {
    for (error_type, expected_kind, expected_status) in [
        (
            ErrorType::ResourceExhausted,
            HttpProblemKind::Overloaded,
            overload_status_code(),
        ),
        (
            ErrorType::Unavailable,
            HttpProblemKind::Unavailable,
            status(503),
        ),
        (
            ErrorType::Cancelled,
            HttpProblemKind::Cancelled,
            status(499),
        ),
        (
            ErrorType::Backend(BackendError::Cancelled),
            HttpProblemKind::Cancelled,
            status(499),
        ),
    ] {
        let error = single(dynamo(ErrorType::Unknown, "outer wrapper")).caused_by(
            ErrorLink::Dynamo(dynamo(error_type, "nested operational failure")),
        );

        let problem = HttpProblem::from_error(&error, "request failed", overload_status_code());
        assert_eq!(problem.kind(), expected_kind);
        assert_eq!(problem.status(), expected_status);

        let problem = HttpProblem::from_annotated(
            &Annotated::<()>::from_err(error),
            None,
            overload_status_code(),
        )
        .unwrap();
        assert_eq!(problem.kind(), expected_kind);
        assert_eq!(problem.status(), expected_status);
    }
}

#[test]
fn annotated_validation_uses_the_outermost_typed_error() {
    for error_type in [
        ErrorType::InvalidArgument,
        ErrorType::Backend(BackendError::InvalidArgument),
    ] {
        let wrapped_invalid = || {
            single(dynamo(ErrorType::Unknown, "outer internal failure")).caused_by(
                ErrorLink::Dynamo(dynamo(error_type, "nested invalid argument")),
            )
        };

        let problem = HttpProblem::from_error(
            &wrapped_invalid(),
            "request failed",
            overload_status_code(),
        );
        assert_eq!(problem.kind(), HttpProblemKind::Validation);
        assert_eq!(problem.status(), status(400));
        assert_eq!(problem.message(), "nested invalid argument");

        let problem = HttpProblem::from_annotated(
            &Annotated::<()>::from_err(wrapped_invalid()),
            None,
            overload_status_code(),
        )
        .unwrap();
        assert_eq!(problem.kind(), HttpProblemKind::Internal);
        assert_eq!(problem.status(), status(500));
        assert_eq!(problem.message(), INTERNAL_ERROR_MESSAGE);
    }
}

#[test]
fn local_statuses_distinguish_overload_from_unavailable() {
    let overloaded = HttpProblem::from_dynamo_error(
        &dynamo(ErrorType::ResourceExhausted, "busy"),
        INTERNAL_ERROR_MESSAGE,
        "busy".to_string(),
        overload_status_code(),
    );
    assert_eq!(overloaded.status().as_u16(), 529);
    assert_eq!(overloaded.kind(), HttpProblemKind::Overloaded);
    let unavailable = HttpProblem::from_dynamo_error(
        &dynamo(ErrorType::Unavailable, "down"),
        INTERNAL_ERROR_MESSAGE,
        "down".to_string(),
        overload_status_code(),
    );
    assert_eq!(unavailable.status(), status(503));
    assert_eq!(unavailable.kind(), HttpProblemKind::Unavailable);
}

#[test]
fn backend_statuses_forward_client_messages_and_sanitize_everything_else() {
    let client = HttpProblem::from_backend_status(status(400), "bad prompt", "bad prompt");
    assert_eq!(client.status(), status(400));
    assert_eq!(client.message(), "bad prompt");

    let server =
        HttpProblem::from_backend_status(status(503), "worker host leaked", "worker host leaked");
    assert_eq!(server.status(), status(503));
    assert_eq!(server.message(), INTERNAL_ERROR_MESSAGE);

    let invalid_status =
        HttpProblem::from_backend_status(status(399), "not an error", "not an error");
    assert_eq!(invalid_status.status(), status(500));
    assert_eq!(invalid_status.message(), INTERNAL_ERROR_MESSAGE);
}

#[test]
fn typed_backend_http_payload_preserves_status_policy() {
    let invalid = dynamo(
        ErrorType::Backend(BackendError::InvalidArgument),
        r#"{"code":415,"message":"unsupported media type"}"#,
    );
    let problem = HttpProblem::from_annotated(
        &Annotated::<()>::from_err(single(invalid)),
        None,
        overload_status_code(),
    )
    .unwrap();
    assert_eq!(problem.kind(), HttpProblemKind::Validation);
    assert_eq!(problem.status(), status(415));
    assert_eq!(problem.message(), "unsupported media type");

    let unavailable = dynamo(
        ErrorType::Backend(BackendError::Unknown),
        r#"{"code":503,"message":"worker host leaked"}"#,
    );
    let problem = HttpProblem::from_annotated(
        &Annotated::<()>::from_err(single(unavailable)),
        None,
        overload_status_code(),
    )
    .unwrap();
    assert_eq!(problem.kind(), HttpProblemKind::Unavailable);
    assert_eq!(problem.status(), status(503));
    assert_eq!(problem.message(), INTERNAL_ERROR_MESSAGE);
}

#[test]
fn typed_annotated_errors_reject_untrusted_json_shaped_messages() {
    let invalid = dynamo(
        ErrorType::InvalidArgument,
        r#"{"code":500,"message":"wrong"}"#,
    );
    let problem = HttpProblem::from_annotated(
        &Annotated::<()>::from_err(single(invalid)),
        None,
        overload_status_code(),
    )
    .unwrap();
    assert_eq!(problem.status(), status(400));
    assert_eq!(problem.message(), r#"{"code":500,"message":"wrong"}"#);

    let unknown = dynamo(
        ErrorType::Backend(BackendError::Unknown),
        r#"{"code":400,"message":"secret /srv/worker"}"#,
    );
    let problem = HttpProblem::from_annotated(
        &Annotated::<()>::from_err(single(unknown)),
        None,
        overload_status_code(),
    )
    .unwrap();
    assert_eq!(problem.status(), status(500));
    assert_eq!(problem.message(), INTERNAL_ERROR_MESSAGE);
}

#[test]
fn legacy_server_statuses_keep_protocol_error_types() {
    for (status, anthropic_type, openai_type) in [
        (status(503), "overloaded_error", "service_unavailable"),
        (status(529), "overloaded_error", "service_unavailable"),
        (status(500), "api_error", "internal_server_error"),
    ] {
        let error = SanitizedError::PreserveServerError(status);
        assert_eq!(error.anthropic_type(), anthropic_type);
        assert_eq!(error.openai_type_slug(), openai_type);
    }
}

#[test]
fn legacy_backend_status_classification_remains_compatible() {
    assert!(matches!(
        SanitizedError::for_backend_status(status(499)),
        Some(SanitizedError::Cancelled)
    ));
    assert!(matches!(
        SanitizedError::for_backend_status(status(503)),
        Some(SanitizedError::PreserveServerError(kept)) if kept == status(503)
    ));
    assert!(SanitizedError::for_backend_status(status(400)).is_none());
    assert!(matches!(
        SanitizedError::for_backend_status(status(399)),
        Some(SanitizedError::Internal)
    ));
}
