use alloyport::contexts::{
    ContextLimits, ModelContextStore, ModelTurnRequest, NativeContinuation, OwnedToolResult,
    ProviderTurnInput,
};
use alloyport::digest::Sha256Digest;
use alloyport::json::JsonValue;
use alloyport::provider::{
    after_dispatch, begin_turn, confirmed_not_sent, continuation_with_results, decode, finish_turn,
    ContinuationStep, DecodedTurn, DispatchStep, ModelGatewayOutcome, ProviderSdkOutcome,
    ToolResultMismatch,
};
use alloyport::transport::{
    ModelTransportFailure, ModelTransportFailureKind, ModelTransportOutcome,
    ModelTransportRetryHint, RawModelResponse,
};

const CHAT_FINAL_RESPONSE: &[u8] = br#"{
  "id":"chatcmpl-sdk-fixture",
  "model":"configured-model-actual",
  "choices":[{"message":{"role":"assistant","content":"ready","tool_calls":[]},"finish_reason":"stop"}],
  "usage":{"prompt_tokens":11,"completion_tokens":2,"total_tokens":13}
}"#;

fn digest(label: &str) -> Sha256Digest {
    Sha256Digest::digest_bytes(label.as_bytes())
}

fn response() -> RawModelResponse {
    RawModelResponse {
        status_code: 200,
        body: CHAT_FINAL_RESPONSE.to_vec(),
        response_headers_digest: digest("response-headers"),
        provider_request_id: Some("provider-request-fixture".to_owned()),
        retry_after_millis: None,
    }
}

fn failure(retry_hint: ModelTransportRetryHint) -> ModelTransportFailure {
    ModelTransportFailure {
        kind: ModelTransportFailureKind::RateLimited,
        diagnostic: "slow down".to_owned(),
        status_code: Some(429),
        retry_hint,
    }
}

fn decoded() -> DecodedTurn {
    DecodedTurn {
        turn: JsonValue::parse("{\"narrative\":[\"ready\"]}").expect("turn"),
        native_continuation: NativeContinuation {
            canonical_bytes: b"{}".to_vec(),
            pending_call_ids: Vec::new(),
        },
        actual_model: Some("configured-model-actual".to_owned()),
    }
}

fn store() -> (ModelContextStore, ModelTurnRequest) {
    let mut store = ModelContextStore::new(ContextLimits {
        max_continuation_bytes: 1024,
        max_tool_result_bytes: 1024,
    });
    let input_digest = store
        .create_episode(
            "episode-sdk-1",
            "You are AlloyPort.",
            "Inspect the candidate.",
            b"[]",
        )
        .expect("episode");
    let request = ModelTurnRequest {
        attempt_id: "attempt-sdk-1".to_owned(),
        episode_id: "episode-sdk-1".to_owned(),
        turn_index: 1,
        input_digest,
    };
    (store, request)
}

#[test]
fn sdk_gateway_resolves_configured_default_and_commits_exact_exchange() {
    let (mut store, request) = store();
    let input = begin_turn(&mut store, &request, &digest("unused"), false).expect("gateway input");
    assert!(matches!(
        continuation_with_results(&input),
        Ok(ContinuationStep::Fresh)
    ));
    let DispatchStep::Decode(raw) = after_dispatch(ModelTransportOutcome::Response(response()))
    else {
        panic!("a response is decoded");
    };
    let outcome = decode(b"request".to_vec(), raw, Ok(decoded()));
    let ModelGatewayOutcome::Turn(exchange) =
        finish_turn(&mut store, &request, outcome, false).expect("gateway outcome")
    else {
        panic!("expected decoded turn");
    };
    assert_eq!(exchange.turn.as_str(), "{\"narrative\":[\"ready\"]}");
    assert_eq!(
        exchange.raw_exchange_digest,
        Sha256Digest::digest_bytes(CHAT_FINAL_RESPONSE)
    );
    let kept = Sha256Digest::digest_bytes(CHAT_FINAL_RESPONSE);
    assert_eq!(
        store.artifacts().open(kept.as_str(), 4096),
        Ok(CHAT_FINAL_RESPONSE.to_vec())
    );
}

#[test]
fn rejections_say_whether_a_retry_may_help() {
    for (hint, expected) in [
        (ModelTransportRetryHint::AfterMillis(10), true),
        (ModelTransportRetryHint::NewAttempt, true),
        (ModelTransportRetryHint::Never, false),
    ] {
        let step = after_dispatch(ModelTransportOutcome::ProviderRejected {
            response: response(),
            failure: failure(hint),
        });
        let DispatchStep::Done(ProviderSdkOutcome::Rejected {
            response_digest,
            retryable,
            ..
        }) = step
        else {
            panic!("a rejection is final");
        };
        assert_eq!(retryable, expected);
        assert_eq!(
            response_digest,
            Sha256Digest::digest_bytes(CHAT_FINAL_RESPONSE)
        );
    }
}

#[test]
fn failed_turns_keep_their_explanation() {
    let (mut store, request) = store();
    let outcome = confirmed_not_sent("no key".to_owned());
    let ModelGatewayOutcome::ConfirmedNotSent {
        diagnostic,
        diagnostic_digest,
    } = finish_turn(&mut store, &request, outcome, false).expect("outcome")
    else {
        panic!("nothing was sent");
    };
    assert_eq!(diagnostic, "no key");
    assert_eq!(diagnostic_digest, Some(digest("no key")));
    assert!(store.artifacts().contains(digest("no key").as_str()));

    let unread = decode(b"request".to_vec(), response(), Err("bad JSON".to_owned()));
    assert!(matches!(
        finish_turn(&mut store, &request, unread, false).expect("outcome"),
        ModelGatewayOutcome::DecodeFailed { .. }
    ));
    let lost = after_dispatch(ModelTransportOutcome::Ambiguous {
        response: None,
        failure: failure(ModelTransportRetryHint::Never),
    });
    assert!(matches!(
        lost,
        DispatchStep::Done(ProviderSdkOutcome::Ambiguous { .. })
    ));
}

#[test]
fn a_store_that_refuses_an_explanation_loses_no_outcome() {
    let (mut store, mut request) = store();
    let outcome = confirmed_not_sent("no key".to_owned());
    assert_eq!(
        finish_turn(&mut store, &request, outcome, true),
        Ok(ModelGatewayOutcome::ConfirmedNotSent {
            diagnostic: "no key".to_owned(),
            diagnostic_digest: None,
        })
    );
    assert!(!store.artifacts().contains(digest("no key").as_str()));
    request.input_digest = digest("another input");
    assert!(matches!(
        begin_turn(&mut store, &request, &digest("unused"), true),
        Err(ModelGatewayOutcome::ConfirmedNotSent {
            diagnostic_digest: None,
            ..
        })
    ));
}

#[test]
fn an_unknown_input_is_not_sent() {
    let (mut store, mut request) = store();
    request.input_digest = digest("another input");
    assert!(matches!(
        begin_turn(&mut store, &request, &digest("unused"), false),
        Err(ModelGatewayOutcome::ConfirmedNotSent { .. })
    ));
}

#[test]
fn results_without_a_continuation_do_not_match() {
    let input = |continuation: Option<NativeContinuation>, results: Vec<OwnedToolResult>| {
        ProviderTurnInput {
            system_prompt: "s".to_owned(),
            initial_user_text: None,
            continuation,
            tool_results: results,
            tools_json: b"[]".to_vec(),
        }
    };
    let result = || OwnedToolResult {
        native_call_id: "call-a".to_owned(),
        output: "x".to_owned(),
    };
    let earlier = || NativeContinuation {
        canonical_bytes: b"{}".to_vec(),
        pending_call_ids: vec!["call-a".to_owned()],
    };
    assert!(matches!(
        continuation_with_results(&input(None, vec![result()])),
        Err(ToolResultMismatch)
    ));
    assert!(matches!(
        continuation_with_results(&input(Some(earlier()), vec![result()])),
        Ok(ContinuationStep::Append)
    ));
    assert!(matches!(
        continuation_with_results(&input(Some(earlier()), Vec::new())),
        Ok(ContinuationStep::Resume(_))
    ));
}
