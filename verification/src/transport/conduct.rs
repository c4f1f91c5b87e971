//! What is sent to a provider and what its answer comes to, told from what is given.
use crate::digest;
use crate::headers;
use crate::headers::HeaderView;
use crate::redaction;
use crate::text;
use crate::transport;
use crate::transport::{
    ClientFailure, HttpDispatchError, ModelDeployment, ModelTransportFailureKind,
    ModelTransportPolicy, ModelTransportRetryHint, OutcomeView, ProtocolConfig, ProtocolKind,
    RawModelResponseView, SecretMetadata,
};
use vstd::prelude::*;

verus! {

/// A deployment speaks the protocol it was configured with.
pub proof fn protocols_have_their_kind(api_version: String)
    ensures
        ProtocolConfig::OpenAiResponses.kind_of() == ProtocolKind::OpenAiResponses,
        ProtocolConfig::OpenAiChatCompletions.kind_of() == ProtocolKind::OpenAiChatCompletions,
        (ProtocolConfig::AnthropicMessages { api_version }).kind_of()
            == ProtocolKind::AnthropicMessages,
{
}

/// Of a secret only the line breaks at its end are left out.
pub proof fn secrets_lose_their_line_breaks(s: Seq<char>)
    ensures
        ({
            let u = transport::unbroken(s);
            &&& u.len() <= s.len()
            &&& u == s.take(u.len() as int)
            &&& forall|i: int|
                u.len() <= i < s.len() ==> #[trigger] s[i] == '\r' || s[i] == '\n'
            &&& u.len() > 0 ==> u.last() != '\r' && u.last() != '\n'
        }),
    decreases s.len(),
{
    if s.len() > 0 && (s.last() == '\r' || s.last() == '\n') {
        secrets_lose_their_line_breaks(s.drop_last());
        let u = transport::unbroken(s);
        assert(s.drop_last().take(u.len() as int) =~= s.take(u.len() as int));
        assert forall|i: int| u.len() <= i < s.len() implies #[trigger] s[i] == '\r' || s[i]
            == '\n' by {
            if i < s.len() - 1 {
                assert(s.drop_last()[i] == s[i]);
            }
        }
    } else {
        assert(s.take(s.len() as int) =~= s);
    }
}

/// A secret is taken exactly from a regular file of 1 to 512 bytes that grants nothing to the group
/// or to others, and that holds letters, digits, hyphens and underscores, and at least one.
pub proof fn secrets_are_guarded(metadata: SecretMetadata, bytes: Vec<u8>)
    ensures
        transport::secret(Ok(metadata), Ok(bytes)) is Ok <==> {
            let value = transport::unbroken(vstd::utf8::decode_utf8(bytes@));
            &&& metadata.is_regular
            &&& metadata.mode & 0x3f == 0
            &&& 1 <= metadata.length <= 512
            &&& vstd::utf8::valid_utf8(bytes@)
            &&& value.len() > 0
            &&& forall|i: int|
                0 <= i < value.len() ==> 'a' <= #[trigger] value[i] <= 'z' || 'A' <= value[i]
                    <= 'Z' || '0' <= value[i] <= '9' || value[i] == '-' || value[i] == '_'
        },
        transport::secret(Ok(metadata), Ok(bytes)) matches Ok(found) ==> found
            == transport::unbroken(vstd::utf8::decode_utf8(bytes@)),
{
    let value = transport::unbroken(vstd::utf8::decode_utf8(bytes@));
    assert(transport::usable_secret(value) <==> value.len() > 0 && forall|i: int|
        0 <= i < value.len() ==> transport::secret_char(#[trigger] value[i]));
}

/// A secret file that cannot be inspected or read gives no secret.
pub proof fn unreadable_secrets_are_refused(
    inspected: Result<SecretMetadata, String>,
    read: Result<Vec<u8>, String>,
)
    requires
        inspected is Err || read is Err,
    ensures
        transport::secret(inspected, read) is Err,
{
}

/// A request carries its type, what it accepts and the secret, and to Anthropic the version of the
/// interface. Nothing but the secret is marked sensitive.
pub proof fn requests_carry_their_headers(deployment: ModelDeployment, secret: Seq<char>)
    ensures
        transport::request_headers(deployment, secret) matches Ok(list) ==> {
            &&& list.len() == if deployment.protocol is AnthropicMessages {
                4int
            } else {
                3int
            }
            &&& list[0].name == "content-type"@ && list[0].value == "application/json"@
                && !list[0].sensitive
            &&& list[1].name == "accept"@ && list[1].value == "application/json"@
                && !list[1].sensitive
            &&& list[2].sensitive
            &&& deployment.auth is Bearer ==> list[2].name == "authorization"@ && list[2].value
                == "Bearer "@ + secret
            &&& deployment.auth is XApiKey ==> list[2].name == "x-api-key"@ && list[2].value
                == secret
            &&& deployment.protocol matches ProtocolConfig::AnthropicMessages { api_version } ==> {
                &&& list[3].name == "anthropic-version"@
                &&& list[3].value == api_version@
                &&& !list[3].sensitive
            }
        },
{
}

/// The headers are there exactly when the value that holds the secret, and to Anthropic the version,
/// are made of tabs and of bytes from 32 on other than 127.
pub proof fn headers_fail_by_their_values(
    deployment: ModelDeployment,
    secret: Seq<char>,
    sent: Seq<u8>,
)
    requires
        deployment.auth is Bearer ==> sent == vstd::utf8::encode_utf8("Bearer "@ + secret),
        deployment.auth is XApiKey ==> sent == vstd::utf8::encode_utf8(secret),
    ensures
        ({
            let plain = forall|i: int|
                0 <= i < sent.len() ==> #[trigger] sent[i] == 9 || sent[i] >= 32 && sent[i] != 127;
            let r = transport::request_headers(deployment, secret);
            match deployment.protocol {
                ProtocolConfig::AnthropicMessages { api_version } => {
                    let version = vstd::utf8::encode_utf8(api_version@);
                    r is Ok <==> plain && forall|i: int|
                        0 <= i < version.len() ==> #[trigger] version[i] == 9 || version[i] >= 32
                            && version[i] != 127
                },
                _ => r is Ok <==> plain,
            }
        }),
{
    carried_byte_by_byte(transport::auth_header(deployment.auth, secret).value);
    if let ProtocolConfig::AnthropicMessages { api_version } = deployment.protocol {
        carried_byte_by_byte(api_version@);
    }
}

proof fn carried_byte_by_byte(s: Seq<char>)
    ensures
        ({
            let bytes = vstd::utf8::encode_utf8(s);
            transport::carried(s) <==> forall|i: int|
                0 <= i < bytes.len() ==> #[trigger] bytes[i] == 9 || bytes[i] >= 32 && bytes[i]
                    != 127
        }),
{
    let bytes = vstd::utf8::encode_utf8(s);
    if transport::carried(s) {
        assert forall|i: int| 0 <= i < bytes.len() implies #[trigger] bytes[i] == 9 || bytes[i]
            >= 32 && bytes[i] != 127 by {
            assert(headers::value_byte(vstd::utf8::encode_utf8(s)[i]));
        }
    }
}

/// A request is sent exactly when it speaks the protocol of its deployment, is no longer than the
/// deployment allows, and its secret and headers are there. It goes to the deployment's endpoint
/// with the body it was given.
pub proof fn requests_are_sent_whole(
    deployment: ModelDeployment,
    protocol: ProtocolKind,
    body: Seq<u8>,
    found: Result<Seq<char>, Seq<char>>,
)
    ensures
        transport::prepared(deployment, protocol, body, found) is Ok <==> {
            &&& protocol == deployment.protocol.kind_of()
            &&& body.len() <= deployment.policy.max_request_bytes
            &&& found is Ok
            &&& transport::request_headers(deployment, found->Ok_0) is Ok
        },
        transport::prepared(deployment, protocol, body, found) matches Ok(request) ==> {
            &&& request.endpoint == deployment.endpoint@
            &&& request.headers == transport::request_headers(deployment, found->Ok_0)->Ok_0
            &&& request.body == body
            &&& request.policy == deployment.policy
        },
{
}

/// What keeps a request from being sent is told by its kind: the protocol, the length, the secret
/// and the headers, in this order.
pub proof fn unsent_requests_say_why(
    deployment: ModelDeployment,
    protocol: ProtocolKind,
    body: Seq<u8>,
    found: Result<Seq<char>, Seq<char>>,
)
    ensures
        transport::prepared(deployment, protocol, body, found) matches Err(outcome) ==> (outcome
            matches OutcomeView::ConfirmedNotSent(failure) && {
            &&& failure.status_code is None
            &&& failure.retry_hint == ModelTransportRetryHint::Never
            &&& failure.kind == if protocol != deployment.protocol.kind_of() {
                ModelTransportFailureKind::Configuration
            } else if body.len() > deployment.policy.max_request_bytes {
                ModelTransportFailureKind::RequestTooLarge
            } else if found is Err {
                ModelTransportFailureKind::SecretUnavailable
            } else {
                ModelTransportFailureKind::Configuration
            }
        }),
{
}

/// A failed call is a timeout if it timed out, a connection failure if only connecting failed, and
/// otherwise a failure of the process.
pub proof fn client_failures_have_their_kind(failure: ClientFailure)
    ensures
        transport::client_kind(failure) == ModelTransportFailureKind::Timeout
            <==> failure.is_timeout,
        transport::client_kind(failure) == ModelTransportFailureKind::Connection
            <==> failure.is_connect && !failure.is_timeout,
        transport::client_kind(failure) == ModelTransportFailureKind::ProcessIo
            <==> !failure.is_connect && !failure.is_timeout,
{
}

/// A successful status is a response, kept as it came; every other status below 500 is a rejection,
/// and every one from 500 on is ambiguous.
pub proof fn statuses_decide(response: RawModelResponseView, limit: u64, secret: Seq<char>)
    ensures
        ({
            let outcome = transport::status_outcome(response, limit, secret);
            let status = response.status_code;
            &&& outcome == OutcomeView::Response(response) <==> 200 <= status < 300
            &&& outcome is ProviderRejected <==> status < 200 || 300 <= status < 500
            &&& outcome is Ambiguous <==> status >= 500
            &&& outcome matches OutcomeView::ProviderRejected { response: kept, failure } ==> kept
                == response && failure.status_code == Some(status)
            &&& outcome matches OutcomeView::Ambiguous { response: kept, failure } ==> kept == Some(
                response,
            ) && failure.status_code == Some(status)
        }),
{
}

/// Why a request was rejected follows from the status alone.
pub proof fn rejections_have_their_kind(response: RawModelResponseView, limit: u64, secret: Seq<char>)
    requires
        300 <= response.status_code < 500,
    ensures
        transport::status_outcome(response, limit, secret) matches OutcomeView::ProviderRejected {
            failure,
            ..
        } && {
            let status = response.status_code;
            &&& status == 401 <==> failure.kind == ModelTransportFailureKind::AuthenticationRejected
            &&& status == 403 <==> failure.kind == ModelTransportFailureKind::PermissionRejected
            &&& status == 429 <==> failure.kind == ModelTransportFailureKind::RateLimited
            &&& status != 401 && status != 403 && status != 429 <==> failure.kind
                == ModelTransportFailureKind::ProviderClientError
            &&& status != 429 ==> failure.retry_hint == ModelTransportRetryHint::Never
            &&& status == 429 ==> failure.retry_hint == match response.retry_after_millis {
                Some(millis) => ModelTransportRetryHint::AfterMillis(millis),
                None => ModelTransportRetryHint::NewAttempt,
            }
        },
{
}

/// A server's failure may be tried again.
pub proof fn server_failures_have_their_kind(
    response: RawModelResponseView,
    limit: u64,
    secret: Seq<char>,
)
    requires
        response.status_code >= 500 || response.status_code < 200,
    ensures
        match transport::status_outcome(response, limit, secret) {
            OutcomeView::Ambiguous { failure, .. } => failure.kind
                == ModelTransportFailureKind::ProviderServerError && failure.retry_hint
                == ModelTransportRetryHint::NewAttempt,
            OutcomeView::ProviderRejected { failure, .. } => failure.kind
                == ModelTransportFailureKind::ProviderServerError && failure.retry_hint
                == ModelTransportRetryHint::NewAttempt,
            _ => false,
        },
{
}

/// An answer within its bounds is told by its status, with the digest of its headers; one beyond
/// them is ambiguous and may be tried again.
pub proof fn answers_are_bounded(
    status: u16,
    list: Seq<HeaderView>,
    body: Seq<u8>,
    policy: ModelTransportPolicy,
    secret: Seq<char>,
)
    ensures
        ({
            let outcome = transport::answered(status, list, body, policy, secret);
            let long_headers = headers::canonical(list).len() > policy.max_response_header_bytes;
            let long_body = body.len() > policy.max_response_bytes;
            &&& long_headers ==> (outcome matches OutcomeView::Ambiguous { response, failure }
                && response is None && failure.status_code is None && failure.kind
                == ModelTransportFailureKind::ResponseHeadersTooLarge && failure.retry_hint
                == ModelTransportRetryHint::NewAttempt)
            &&& !long_headers && long_body ==> (outcome matches OutcomeView::Ambiguous {
                response,
                failure,
            } && response is None && failure.status_code is None && failure.kind
                == ModelTransportFailureKind::ResponseTooLarge && failure.retry_hint
                == ModelTransportRetryHint::NewAttempt)
            &&& !long_headers && !long_body ==> {
                let kept = match outcome {
                    OutcomeView::Response(kept) => Some(kept),
                    OutcomeView::ProviderRejected { response, .. } => Some(response),
                    OutcomeView::Ambiguous { response, .. } => response,
                    OutcomeView::ConfirmedNotSent(_) => None,
                };
                &&& kept is Some
                &&& kept->0.status_code == status
                &&& kept->0.body == body
                &&& kept->0.response_headers_digest == digest::digest_text(headers::canonical(list))
                &&& (outcome is Response <==> 200 <= status < 300)
            }
        }),
{
}

/// A dispatch that failed before anything was sent is confirmed as not sent and never tried again
/// by itself; one that failed behind that is ambiguous and may be.
pub proof fn failed_dispatches_are_settled(
    error: HttpDispatchError,
    policy: ModelTransportPolicy,
    secret: Seq<char>,
)
    ensures
        match transport::settled(Err(error), policy, secret) {
            OutcomeView::ConfirmedNotSent(failure) => error.before_send && failure.kind
                == error.kind && failure.status_code is None && failure.retry_hint
                == ModelTransportRetryHint::Never && failure.diagnostic == redaction::sanitized(
                error.diagnostic@,
                secret,
            ),
            OutcomeView::Ambiguous { response, failure } => !error.before_send && response is None
                && failure.kind == error.kind && failure.status_code is None && failure.retry_hint
                == ModelTransportRetryHint::NewAttempt && failure.diagnostic
                == redaction::sanitized(error.diagnostic@, secret),
            _ => false,
        },
{
}

/// The time to wait is the number of seconds in the header, in milliseconds, where it is a number
/// and small enough.
pub proof fn waits_are_in_milliseconds(list: Seq<HeaderView>)
    ensures
        transport::retry_after(list) matches Some(millis) ==> {
            let said = headers::field_text(list, "retry-after"@);
            &&& said is Some
            &&& text::parsed(said->0) is Some
            &&& millis == text::parsed(said->0)->0 * 1000
        },
        transport::retry_after(list) is None <==> {
            let said = headers::field_text(list, "retry-after"@);
            said is None || text::parsed(said->0) is None || text::parsed(said->0)->0 * 1000
                > u64::MAX
        },
{
}

/// The identity that a provider gave a request is in one header or, where that is not there, in
/// the other.
pub proof fn request_ids_come_from_headers(list: Seq<HeaderView>)
    ensures
        headers::field_text(list, "x-request-id"@) is Some ==> transport::request_id(list)
            == headers::field_text(list, "x-request-id"@),
        headers::field_text(list, "x-request-id"@) is None ==> transport::request_id(list)
            == headers::field_text(list, "request-id"@),
{
}

/// A diagnostic is never empty. It is the body without the secret, and where it was cut it says so.
pub proof fn diagnostics_say_something(body: Seq<u8>, limit: u64, secret: Seq<char>)
    ensures
        transport::diagnostic(body, limit, secret).len() > 0,
        body.len() > limit ==> ({
            let said = transport::diagnostic(body, limit, secret);
            let n = " [truncated]"@.len() as int;
            &&& n <= said.len()
            &&& said.skip(said.len() - n) == " [truncated]"@
            &&& said.take(said.len() - n) == redaction::sanitized(
                text::lossy_text(body.take(limit as int)),
                secret,
            )
        }),
        body.len() <= limit ==> ({
            let clean = redaction::sanitized(text::lossy_text(body), secret);
            transport::diagnostic(body, limit, secret) == if clean.len() > 0 {
                clean
            } else {
                "provider returned an empty error body"@
            }
        }),
{
    reveal_strlit(" [truncated]");
    reveal_strlit("provider returned an empty error body");
    let said = transport::diagnostic(body, limit, secret);
    let n = " [truncated]"@.len() as int;
    if body.len() > limit {
        let clean = redaction::sanitized(text::lossy_text(body.take(limit as int)), secret);
        assert(said.skip(said.len() - n) =~= " [truncated]"@);
        assert(said.take(said.len() - n) =~= clean);
    }
}

} // verus!
