use alloyport::headers::{canonical_headers, header_text, Header};
use alloyport::redaction::sanitize_text;
use alloyport::transport::{
    check_response_headers, classify_client_failure, client_build_failure, preflight,
    prepare_request, protocol_headers, read_secret, settle, ClientFailure, HttpDispatchError,
    HttpRequest, HttpResponse, ModelAuth, ModelDeployment, ModelTransportFailureKind,
    ModelTransportOutcome, ModelTransportPolicy, ModelTransportRetryHint, ProtocolConfig,
    ProtocolKind, ResponseBody, SecretMetadata,
};

fn deployment(
    protocol: ProtocolConfig,
    auth: ModelAuth,
    max_request_bytes: u64,
    max_response_bytes: u64,
    max_response_header_bytes: u64,
) -> ModelDeployment {
    ModelDeployment {
        endpoint: "https://api.example.test/v1/model-endpoint".to_owned(),
        protocol,
        auth,
        policy: ModelTransportPolicy {
            max_request_bytes,
            max_response_bytes,
            max_response_header_bytes,
            max_diagnostic_bytes: 128,
        },
    }
}

fn chat() -> ModelDeployment {
    deployment(
        ProtocolConfig::OpenAiChatCompletions,
        ModelAuth::Bearer,
        8192,
        8192,
        1024,
    )
}

fn secret_file(mode: u32, value: &str) -> (SecretMetadata, Vec<u8>) {
    (
        SecretMetadata {
            is_regular: true,
            mode,
            length: value.len() as u64,
        },
        value.as_bytes().to_vec(),
    )
}

fn found(mode: u32, value: &str) -> Result<String, String> {
    let (metadata, bytes) = secret_file(mode, value);
    read_secret(Ok(metadata), Ok(bytes))
}

fn body() -> Vec<u8> {
    b"{\"model\":\"deepseek-v4-pro\"}".to_vec()
}

fn response(status: u16, body: &[u8], headers: &[(&str, &str)]) -> HttpResponse {
    HttpResponse {
        status,
        headers: headers
            .iter()
            .map(|(name, value)| Header {
                name: (*name).to_owned(),
                value: value.as_bytes().to_vec(),
            })
            .collect(),
        body: body.to_vec(),
    }
}

fn value_of<'a>(request: &'a HttpRequest, name: &str) -> Option<&'a str> {
    request
        .headers
        .iter()
        .find(|header| header.name == name)
        .map(|header| header.value.as_str())
}

#[test]
fn configured_default_uses_bearer_auth_without_vendor_or_model_branches() {
    let deployment = chat();
    let secret = found(0o600, "sk-test-secret\n");
    let request = prepare_request(
        &deployment,
        ProtocolKind::OpenAiChatCompletions,
        &body(),
        &secret,
    )
    .expect("request is prepared");
    assert_eq!(
        request.endpoint,
        "https://api.example.test/v1/model-endpoint"
    );
    assert_eq!(request.body, body());
    assert_eq!(
        value_of(&request, "authorization"),
        Some("Bearer sk-test-secret")
    );
    assert!(request
        .headers
        .iter()
        .all(|header| header.name != "authorization" || header.sensitive));
    assert!(!String::from_utf8_lossy(&request.body).contains("sk-test-secret"));
    assert_eq!(value_of(&request, "anthropic-version"), None);

    let outcome = settle(
        Ok(response(
            200,
            br#"{"choices":[]}"#,
            &[("x-request-id", "request-fixture")],
        )),
        deployment.policy,
        "sk-test-secret",
    );
    let ModelTransportOutcome::Response(response) = outcome else {
        panic!("expected successful response");
    };
    assert_eq!(
        response.provider_request_id.as_deref(),
        Some("request-fixture")
    );
}

#[test]
fn anthropic_version_and_auth_kind_are_independent_configuration_axes() {
    for (auth, expected_header) in [
        (ModelAuth::XApiKey, "x-api-key"),
        (ModelAuth::Bearer, "authorization"),
    ] {
        let deployment = deployment(
            ProtocolConfig::AnthropicMessages {
                api_version: "2023-06-01".to_owned(),
            },
            auth,
            8192,
            8192,
            1024,
        );
        let request = prepare_request(
            &deployment,
            ProtocolKind::AnthropicMessages,
            &body(),
            &found(0o600, "key-fixture"),
        )
        .expect("request is prepared");
        assert!(value_of(&request, expected_header).is_some());
        assert_eq!(value_of(&request, "anthropic-version"), Some("2023-06-01"));
        assert!(matches!(
            settle(
                Ok(response(200, b"{}", &[])),
                deployment.policy,
                "key-fixture"
            ),
            ModelTransportOutcome::Response(_)
        ));
    }
}

#[test]
fn pre_send_validation_never_reaches_the_http_dispatcher() {
    let deployment = deployment(
        ProtocolConfig::OpenAiResponses,
        ModelAuth::Bearer,
        1,
        8192,
        1024,
    );
    let secret = found(0o600, "key-fixture");
    let refused = prepare_request(
        &deployment,
        ProtocolKind::OpenAiResponses,
        &body(),
        &secret,
    )
    .expect_err("the request is too large");
    let ModelTransportOutcome::ConfirmedNotSent(failure) = refused else {
        panic!("nothing was sent");
    };
    assert_eq!(failure.kind, ModelTransportFailureKind::RequestTooLarge);

    let refused = prepare_request(
        &deployment,
        ProtocolKind::OpenAiChatCompletions,
        &body(),
        &secret,
    )
    .expect_err("the protocol differs");
    let ModelTransportOutcome::ConfirmedNotSent(failure) = refused else {
        panic!("nothing was sent");
    };
    assert_eq!(failure.kind, ModelTransportFailureKind::Configuration);
}

#[test]
fn insecure_secret_is_confirmed_not_sent_and_never_rendered() {
    let refused = prepare_request(
        &chat(),
        ProtocolKind::OpenAiChatCompletions,
        &body(),
        &found(0o640, "secret-fixture"),
    )
    .expect_err("the secret is readable by others");
    let ModelTransportOutcome::ConfirmedNotSent(failure) = refused else {
        panic!("expected pre-send secret failure");
    };
    assert_eq!(failure.kind, ModelTransportFailureKind::SecretUnavailable);
    assert!(!failure.diagnostic.contains("secret-fixture"));
}

#[test]
fn rate_limit_and_server_error_have_distinct_retry_and_ambiguity_semantics() {
    let policy = chat().policy;
    let ModelTransportOutcome::ProviderRejected {
        response: rate_response,
        failure,
    } = settle(
        Ok(response(429, b"slow down", &[("retry-after", "3")])),
        policy,
        "key-fixture",
    )
    else {
        panic!("429 must be an explicit provider rejection");
    };
    assert_eq!(rate_response.status_code, 429);
    assert_eq!(failure.kind, ModelTransportFailureKind::RateLimited);
    assert_eq!(
        failure.retry_hint,
        ModelTransportRetryHint::AfterMillis(3000)
    );

    let ModelTransportOutcome::Ambiguous {
        response: Some(response),
        failure,
    } = settle(
        Ok(response(503, b"provider unavailable", &[])),
        policy,
        "key-fixture",
    )
    else {
        panic!("5xx must preserve response and dispatch ambiguity");
    };
    assert_eq!(response.status_code, 503);
    assert_eq!(failure.kind, ModelTransportFailureKind::ProviderServerError);
    assert_eq!(failure.retry_hint, ModelTransportRetryHint::NewAttempt);
}

#[test]
fn transport_errors_preserve_before_send_certainty() {
    let policy = chat().policy;
    assert!(matches!(
        settle(
            Err(HttpDispatchError {
                before_send: true,
                kind: ModelTransportFailureKind::Connection,
                diagnostic: "connect failed".to_owned(),
            }),
            policy,
            "key-fixture"
        ),
        ModelTransportOutcome::ConfirmedNotSent(_)
    ));
    assert!(matches!(
        settle(
            Err(HttpDispatchError {
                before_send: false,
                kind: ModelTransportFailureKind::Timeout,
                diagnostic: "request timed out".to_owned(),
            }),
            policy,
            "key-fixture"
        ),
        ModelTransportOutcome::Ambiguous { response: None, .. }
    ));
}

#[test]
fn response_bounds_and_diagnostic_redaction_fail_closed() {
    let mut small = chat().policy;
    small.max_response_bytes = 4;
    let ModelTransportOutcome::Ambiguous { failure, .. } =
        settle(Ok(response(200, b"12345", &[])), small, "secret-fixture")
    else {
        panic!("an oversized response is ambiguous");
    };
    assert_eq!(failure.kind, ModelTransportFailureKind::ResponseTooLarge);

    let ModelTransportOutcome::ProviderRejected { failure, .. } = settle(
        Ok(response(401, b"bad key secret-fixture\x1b[31m", &[])),
        chat().policy,
        "secret-fixture",
    ) else {
        panic!("401 must be a provider rejection");
    };
    assert_eq!(
        failure.kind,
        ModelTransportFailureKind::AuthenticationRejected
    );
    assert!(!failure.diagnostic.contains("secret-fixture"));
    assert!(!failure.diagnostic.contains('\u{1b}'));
}

#[test]
fn a_secret_must_be_a_small_private_text_file() {
    assert_eq!(found(0o600, "key\n"), Ok("key".to_owned()));
    assert!(found(0o604, "key").is_err());
    assert!(found(0o600, "").is_err());
    assert!(found(0o600, "\n").is_err());
    let (mut metadata, bytes) = secret_file(0o600, "key");
    metadata.is_regular = false;
    assert!(read_secret(Ok(metadata), Ok(bytes)).is_err());
    let long = "k".repeat(513);
    assert!(found(0o600, &long).is_err());
    let (metadata, _) = secret_file(0o600, "key");
    assert!(read_secret(Ok(metadata), Ok(vec![0xff, 0xfe, 0xfd])).is_err());
    assert!(read_secret(Err("gone".to_owned()), Ok(Vec::new())).is_err());
}

#[test]
fn a_key_that_no_header_can_hold_is_refused() {
    assert!(protocol_headers(&chat(), "key\u{7}").is_err());
    assert!(protocol_headers(&chat(), "key").is_ok());
    let mut versioned = chat();
    versioned.protocol = ProtocolConfig::AnthropicMessages {
        api_version: "bad\nversion".to_owned(),
    };
    assert!(protocol_headers(&versioned, "key").is_err());
    let (metadata, bytes) = secret_file(0o600, "key");
    assert_eq!(preflight(&chat(), Ok(metadata), Ok(bytes)), Ok(()));
}

#[test]
fn other_statuses_are_rejections_with_their_kind() {
    let settle_status = |status: u16| settle(Ok(response(status, b"no", &[])), chat().policy, "k");
    for (status, kind) in [
        (403, ModelTransportFailureKind::PermissionRejected),
        (404, ModelTransportFailureKind::ProviderClientError),
    ] {
        let ModelTransportOutcome::ProviderRejected { failure, .. } = settle_status(status) else {
            panic!("a rejection");
        };
        assert_eq!(failure.kind, kind);
        assert_eq!(failure.status_code, Some(status));
    }
}

#[test]
fn client_failures_keep_what_is_known() {
    let timeout = ClientFailure {
        is_builder: false,
        is_connect: false,
        is_timeout: true,
    };
    let failure = classify_client_failure(timeout, "late");
    assert_eq!(failure.kind, ModelTransportFailureKind::Timeout);
    assert!(!failure.before_send);
    let connect = ClientFailure {
        is_builder: false,
        is_connect: true,
        is_timeout: false,
    };
    assert!(classify_client_failure(connect, "refused").before_send);
    assert!(client_build_failure("tls").before_send);
}

#[test]
fn bodies_and_headers_are_bounded_while_they_arrive() {
    let mut body = ResponseBody::new(4);
    assert_eq!(body.accept(b"12"), Ok(()));
    assert_eq!(body.accept(b"34"), Ok(()));
    let refused = body.accept(b"5").expect_err("too large");
    assert_eq!(refused.kind, ModelTransportFailureKind::ResponseTooLarge);
    let headers = response(200, b"", &[("x-a", "123456")]).headers;
    assert!(check_response_headers(&headers, 5).is_err());
    assert!(check_response_headers(&headers, 1024).is_ok());
}

#[test]
fn header_fields_have_one_canonical_form() {
    let one = response(200, b"", &[("b", "2"), ("a", "1")]).headers;
    let other = response(200, b"", &[("a", "1"), ("b", "2")]).headers;
    assert_eq!(canonical_headers(&one), canonical_headers(&other));
    let changed = response(200, b"", &[("a", "1"), ("b", "3")]).headers;
    assert_ne!(canonical_headers(&one), canonical_headers(&changed));
    assert_eq!(header_text(&one, "b"), Some("2".to_owned()));
    assert_eq!(header_text(&one, "c"), None);
    let binary = vec![Header {
        name: "b".to_owned(),
        value: vec![0xff],
    }];
    assert_eq!(header_text(&binary, "b"), None);
}

#[test]
fn redaction_leaves_no_trace_of_the_secret() {
    let shown = sanitize_text("key abcabc\u{1b}[0m ab", "abc");
    assert!(!shown.contains("abc"));
    assert!(!shown.contains('\u{1b}'));
    assert_eq!(sanitize_text("plain", "secret"), "plain");
}
