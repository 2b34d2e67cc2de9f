use content_service::error::{ErrorReport, GeneralCause, ServiceError};
use content_service::http::{HttpReply, Method, Payload, Sent, TransportError};
use content_service::json::Json;
use content_service::storage_service::bunnynet::{
    bunnynet_retry_delay, delay_with_jitter, error_chain, is_retryable_bunnynet_status,
    is_retryable_bunnynet_transport_error, AfterAttempt, BunnynetCall, BunnynetRetryPolicy,
};
use http::StatusCode;

fn report(err: &dyn std::error::Error) -> ErrorReport {
    let mut sources = Vec::new();
    let mut source = err.source();
    while let Some(err) = source {
        sources.push(err.to_string());
        source = err.source();
    }
    ErrorReport { message: err.to_string(), sources }
}

fn transport_error(err: &reqwest::Error) -> TransportError {
    TransportError {
        report: report(err),
        is_builder: err.is_builder(),
        is_connect: err.is_connect(),
    }
}

fn send_error(url: &str) -> reqwest::Error {
    let runtime = tokio::runtime::Builder::new_current_thread().enable_all().build().unwrap();
    runtime
        .block_on(reqwest::Client::builder().no_proxy().build().unwrap().get(url).send())
        .unwrap_err()
}

#[test]
fn transient_statuses_retry_only_for_idempotent_requests() {
    for status in [
        StatusCode::REQUEST_TIMEOUT,
        StatusCode::TOO_MANY_REQUESTS,
        StatusCode::INTERNAL_SERVER_ERROR,
        StatusCode::BAD_GATEWAY,
        StatusCode::SERVICE_UNAVAILABLE,
        StatusCode::GATEWAY_TIMEOUT,
    ] {
        assert!(
            is_retryable_bunnynet_status(status.as_u16(), BunnynetRetryPolicy::Idempotent),
            "{status} should retry for idempotent requests"
        );
        assert!(
            !is_retryable_bunnynet_status(status.as_u16(), BunnynetRetryPolicy::NonIdempotent),
            "{status} must not retry for non-idempotent requests"
        );
    }
}

#[test]
fn client_errors_never_retry() {
    for status in [
        StatusCode::BAD_REQUEST,
        StatusCode::UNAUTHORIZED,
        StatusCode::FORBIDDEN,
        StatusCode::NOT_FOUND,
        StatusCode::CONFLICT,
    ] {
        for policy in [
            BunnynetRetryPolicy::Idempotent,
            BunnynetRetryPolicy::NonIdempotent,
        ] {
            assert!(
                !is_retryable_bunnynet_status(status.as_u16(), policy),
                "{status} must not retry under {policy:?}"
            );
        }
    }
}

#[test]
fn connection_failures_retry_under_both_policies() {
    let err = send_error("http://127.0.0.1:1/");

    assert!(err.is_connect(), "expected a connect error, got: {err:?}");
    assert!(is_retryable_bunnynet_transport_error(
        &transport_error(&err),
        BunnynetRetryPolicy::Idempotent
    ));
    assert!(is_retryable_bunnynet_transport_error(
        &transport_error(&err),
        BunnynetRetryPolicy::NonIdempotent
    ));
}

#[test]
fn builder_errors_never_retry() {
    let err = send_error("not a url");

    assert!(err.is_builder(), "expected a builder error, got: {err:?}");
    assert!(!is_retryable_bunnynet_transport_error(
        &transport_error(&err),
        BunnynetRetryPolicy::Idempotent
    ));
}

#[test]
fn other_transport_failures_retry_only_for_idempotent_requests() {
    let error = TransportError {
        report: ErrorReport { message: "lost".to_string(), sources: vec![] },
        is_builder: false,
        is_connect: false,
    };
    assert!(is_retryable_bunnynet_transport_error(&error, BunnynetRetryPolicy::Idempotent));
    assert!(!is_retryable_bunnynet_transport_error(&error, BunnynetRetryPolicy::NonIdempotent));
}

#[test]
fn retry_delay_backs_off_with_bounded_jitter() {
    for _ in 0..100 {
        let first = bunnynet_retry_delay(1);
        let second = bunnynet_retry_delay(2);
        assert!((200..=250).contains(&first), "first delay {first}ms");
        assert!((400..=500).contains(&second), "second delay {second}ms");
    }
}

#[test]
fn delays_are_exact_for_a_given_jitter() {
    assert_eq!(delay_with_jitter(0, 0), 200);
    assert_eq!(delay_with_jitter(1, 50), 250);
    assert_eq!(delay_with_jitter(2, 7), 407);
    assert_eq!(delay_with_jitter(3, 200), 1000);
    assert_eq!(delay_with_jitter(57, 3602879701896396800), 18014398509481984000);
    assert_eq!(delay_with_jitter(64, 0), 0);
}

#[test]
fn error_chain_includes_sources() {
    #[derive(Debug)]
    struct Outer(std::io::Error);

    impl std::fmt::Display for Outer {
        fn fmt(&self, f: &mut std::fmt::Formatter<'_>) -> std::fmt::Result {
            f.write_str("error sending request")
        }
    }

    impl std::error::Error for Outer {
        fn source(&self) -> Option<&(dyn std::error::Error + 'static)> {
            Some(&self.0)
        }
    }

    let err = Outer(std::io::Error::new(
        std::io::ErrorKind::InvalidData,
        "failed to verify TLS certificate",
    ));

    assert_eq!(
        error_chain(&report(&err)),
        "error sending request: failed to verify TLS certificate"
    );
}

#[test]
fn error_chain_without_sources_is_the_message() {
    let alone = ErrorReport { message: "alone".to_string(), sources: vec![] };
    assert_eq!(error_chain(&alone), "alone");
    let chain = ErrorReport {
        message: "a".to_string(),
        sources: vec!["b".to_string(), "c".to_string()],
    };
    assert_eq!(error_chain(&chain), "a: b: c");
}

fn call(policy: BunnynetRetryPolicy) -> BunnynetCall {
    BunnynetCall {
        method: Method::Post,
        path: "pullzone/7".to_string(),
        body: Some(Json::object().with("A", Json::Bool(true))),
        policy,
    }
}

fn answered(status: u16, length: Option<u64>, text: &str) -> Sent {
    Sent::Answered(HttpReply {
        status,
        content_length: length,
        text: text.to_string(),
        body: Ok(text.as_bytes().to_vec()),
    })
}

#[test]
fn calls_are_sent_with_key_and_body() {
    let request = call(BunnynetRetryPolicy::Idempotent).request("key");
    assert_eq!(request.method, Method::Post);
    assert_eq!(request.url, "https://api.bunny.net/pullzone/7");
    let header = |name: &str, value: &str| (name.to_string(), value.to_string());
    assert_eq!(
        request.headers,
        vec![
            header("Content-Type", "application/json"),
            header("Accept", "application/json"),
            header("AccessKey", "key"),
        ]
    );
    assert!(matches!(request.payload, Payload::Json(json) if json.to_text() == r#"{"A":true}"#));
}

#[test]
fn replies_of_success_are_read_once() {
    let call = call(BunnynetRetryPolicy::Idempotent);
    assert!(matches!(
        call.after_attempt(1, &answered(204, Some(0), "")),
        AfterAttempt::Finished(Ok(None))
    ));
    match call.after_attempt(1, &answered(200, Some(8), r#"{"Id":7}"#)) {
        AfterAttempt::Finished(Ok(Some(json))) => assert_eq!(json.to_text(), r#"{"Id":7}"#),
        other => panic!("{other:?}"),
    }
    assert!(matches!(
        call.after_attempt(1, &answered(200, None, "")),
        AfterAttempt::Finished(Err(ServiceError::GeneralError(GeneralCause::Plain(m))))
            if m == "Failed to get response content length"
    ));
    match call.after_attempt(1, &answered(200, Some(3), "oops")) {
        AfterAttempt::Finished(Err(ServiceError::GeneralError(GeneralCause::Plain(message)))) => assert!(
            message.starts_with(
                "Bunny.net API request POST /pullzone/7 returned an unreadable body: \
                 error decoding response body: expected value at line 1"
            ),
            "{message}"
        ),
        other => panic!("{other:?}"),
    }
}

#[test]
fn failures_are_repeated_at_most_twice() {
    let call = call(BunnynetRetryPolicy::Idempotent);
    let sent = answered(503, Some(0), "busy");
    let mut attempt = 1;
    let mut made = 0;
    loop {
        made += 1;
        match call.after_attempt(attempt, &sent) {
            AfterAttempt::Again { attempt: next, delay_ms } => {
                assert_eq!(next, attempt + 1);
                assert!(delay_ms >= 200 && delay_ms <= 500);
                attempt = next;
            }
            AfterAttempt::Finished(result) => {
                assert!(matches!(
                    result,
                    Err(ServiceError::GeneralError(GeneralCause::Plain(m))) if m == "Bunny.net API request POST \
                        /pullzone/7 responded with HTTP 503 Service Unavailable: busy"
                ));
                break;
            }
        }
    }
    assert_eq!(made, 3);
}

#[test]
fn calls_that_must_not_be_repeated_are_answered_once() {
    let call = call(BunnynetRetryPolicy::NonIdempotent);
    assert!(matches!(
        call.after_attempt(1, &answered(503, Some(0), "busy")),
        AfterAttempt::Finished(Err(_))
    ));
    let failure = |is_connect: bool| {
        Sent::Failed(TransportError {
            report: ErrorReport { message: "m".to_string(), sources: vec!["s".to_string()] },
            is_builder: false,
            is_connect,
        })
    };
    assert!(matches!(call.after_attempt(1, &failure(true)), AfterAttempt::Again { .. }));
    assert!(matches!(
        call.after_attempt(1, &failure(false)),
        AfterAttempt::Finished(Err(ServiceError::GeneralError(GeneralCause::Plain(m))))
            if m == "Bunny.net API request POST /pullzone/7 failed: m: s"
    ));
}

#[test]
fn long_bodies_are_cut() {
    let call = BunnynetCall::idempotent(Method::Get, "x".to_string(), None);
    let body = "é".repeat(600);
    match call.after_attempt(1, &answered(404, Some(0), &body)) {
        AfterAttempt::Finished(Err(ServiceError::GeneralError(GeneralCause::Plain(message)))) => {
            assert_eq!(
                message,
                format!(
                    "Bunny.net API request GET /x responded with HTTP 404 Not Found: {}",
                    "é".repeat(512)
                )
            );
        }
        other => panic!("{other:?}"),
    }
}

#[test]
fn delays_double_from_attempt_to_attempt() {
    assert_eq!(delay_with_jitter(1, 0), 200);
    for attempt in 1..=56 {
        assert_eq!(delay_with_jitter(attempt + 1, 0), 2 * delay_with_jitter(attempt, 0));
    }
}
