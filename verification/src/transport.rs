//! What the bounded HTTPS transport of a model decides: what may be sent, and what an answer means.
pub mod conduct;

use crate::digest;
use crate::digest::Sha256Digest;
use crate::headers;
use crate::headers::{Header, HeaderView};
use crate::redaction;
use crate::text;
use vstd::prelude::*;
use vstd::string::*;

verus! {

pub const MAX_SECRET_BYTES: u64 = 512;

#[derive(Clone, Copy, Debug, PartialEq, Eq, Structural)]
pub enum ModelTransportFailureKind {
    Configuration,
    RequestTooLarge,
    SecretUnavailable,
    Connection,
    Timeout,
    ProcessIo,
    ResponseHeadersTooLarge,
    ResponseTooLarge,
    AuthenticationRejected,
    PermissionRejected,
    RateLimited,
    ProviderClientError,
    ProviderServerError,
}

/// What a failure says of another attempt.
#[derive(Clone, Copy, Debug, PartialEq, Eq, Structural)]
pub enum ModelTransportRetryHint {
    Never,
    NewAttempt,
    AfterMillis(u64),
}

/// The bounds of a deployment's transport.
#[derive(Clone, Copy, Debug, PartialEq, Eq, Structural)]
pub struct ModelTransportPolicy {
    pub max_request_bytes: u64,
    pub max_response_bytes: u64,
    pub max_response_header_bytes: u64,
    pub max_diagnostic_bytes: u64,
}

#[derive(Clone, Copy, Debug, PartialEq, Eq, Structural)]
pub enum ProtocolKind {
    OpenAiResponses,
    OpenAiChatCompletions,
    AnthropicMessages,
}

/// How a deployment is spoken to.
#[derive(Debug, PartialEq, Eq)]
pub enum ProtocolConfig {
    OpenAiResponses,
    OpenAiChatCompletions,
    AnthropicMessages { api_version: String },
}

impl ProtocolConfig {
    pub open spec fn kind_of(self) -> ProtocolKind {
        match self {
            ProtocolConfig::OpenAiResponses => ProtocolKind::OpenAiResponses,
            ProtocolConfig::OpenAiChatCompletions => ProtocolKind::OpenAiChatCompletions,
            ProtocolConfig::AnthropicMessages { .. } => ProtocolKind::AnthropicMessages,
        }
    }

    pub fn kind(&self) -> (r: ProtocolKind)
        ensures
            r == self.kind_of(),
    {
        match self {
            ProtocolConfig::OpenAiResponses => ProtocolKind::OpenAiResponses,
            ProtocolConfig::OpenAiChatCompletions => ProtocolKind::OpenAiChatCompletions,
            ProtocolConfig::AnthropicMessages { .. } => ProtocolKind::AnthropicMessages,
        }
    }
}

/// In which header the secret goes.
#[derive(Clone, Copy, Debug, PartialEq, Eq, Structural)]
pub enum ModelAuth {
    Bearer,
    XApiKey,
}

/// What the transport reads of a resolved model.
#[derive(Debug, PartialEq, Eq)]
pub struct ModelDeployment {
    pub endpoint: String,
    pub protocol: ProtocolConfig,
    pub auth: ModelAuth,
    pub policy: ModelTransportPolicy,
}

/// Why a dispatch brought no turn.
#[derive(Debug, PartialEq, Eq)]
pub struct ModelTransportFailure {
    pub kind: ModelTransportFailureKind,
    pub diagnostic: String,
    pub status_code: Option<u16>,
    pub retry_hint: ModelTransportRetryHint,
}

pub ghost struct ModelTransportFailureView {
    pub kind: ModelTransportFailureKind,
    pub diagnostic: Seq<char>,
    pub status_code: Option<u16>,
    pub retry_hint: ModelTransportRetryHint,
}

impl View for ModelTransportFailure {
    type V = ModelTransportFailureView;

    open spec fn view(&self) -> ModelTransportFailureView {
        ModelTransportFailureView {
            kind: self.kind,
            diagnostic: self.diagnostic@,
            status_code: self.status_code,
            retry_hint: self.retry_hint,
        }
    }
}

/// A provider's whole answer.
#[derive(Debug, PartialEq, Eq)]
pub struct RawModelResponse {
    pub status_code: u16,
    pub body: Vec<u8>,
    pub response_headers_digest: Sha256Digest,
    pub provider_request_id: Option<String>,
    pub retry_after_millis: Option<u64>,
}

pub ghost struct RawModelResponseView {
    pub status_code: u16,
    pub body: Seq<u8>,
    pub response_headers_digest: Seq<char>,
    pub provider_request_id: Option<Seq<char>>,
    pub retry_after_millis: Option<u64>,
}

impl View for RawModelResponse {
    type V = RawModelResponseView;

    open spec fn view(&self) -> RawModelResponseView {
        RawModelResponseView {
            status_code: self.status_code,
            body: self.body@,
            response_headers_digest: self.response_headers_digest@,
            provider_request_id: text::optional(self.provider_request_id),
            retry_after_millis: self.retry_after_millis,
        }
    }
}

/// Why a request brought no answer, and whether it surely was not sent.
#[derive(Debug, PartialEq, Eq)]
pub struct HttpDispatchError {
    pub before_send: bool,
    pub kind: ModelTransportFailureKind,
    pub diagnostic: String,
}

pub ghost struct HttpDispatchErrorView {
    pub before_send: bool,
    pub kind: ModelTransportFailureKind,
    pub diagnostic: Seq<char>,
}

impl View for HttpDispatchError {
    type V = HttpDispatchErrorView;

    open spec fn view(&self) -> HttpDispatchErrorView {
        HttpDispatchErrorView {
            before_send: self.before_send,
            kind: self.kind,
            diagnostic: self.diagnostic@,
        }
    }
}

/// What a dispatch came to. How sure it is that nothing was sent is kept.
#[allow(inconsistent_fields)]
#[derive(Debug, PartialEq, Eq)]
pub enum ModelTransportOutcome {
    Response(RawModelResponse),
    ConfirmedNotSent(ModelTransportFailure),
    ProviderRejected { response: RawModelResponse, failure: ModelTransportFailure },
    Ambiguous { response: Option<RawModelResponse>, failure: ModelTransportFailure },
}

#[allow(inconsistent_fields)]
pub ghost enum OutcomeView {
    Response(RawModelResponseView),
    ConfirmedNotSent(ModelTransportFailureView),
    ProviderRejected { response: RawModelResponseView, failure: ModelTransportFailureView },
    Ambiguous { response: Option<RawModelResponseView>, failure: ModelTransportFailureView },
}

impl View for ModelTransportOutcome {
    type V = OutcomeView;

    open spec fn view(&self) -> OutcomeView {
        match *self {
            ModelTransportOutcome::Response(r) => OutcomeView::Response(r@),
            ModelTransportOutcome::ConfirmedNotSent(f) => OutcomeView::ConfirmedNotSent(f@),
            ModelTransportOutcome::ProviderRejected { response, failure } =>
                OutcomeView::ProviderRejected { response: response@, failure: failure@ },
            ModelTransportOutcome::Ambiguous { response, failure } => OutcomeView::Ambiguous {
                response: match response {
                    Some(r) => Some(r@),
                    None => None,
                },
                failure: failure@,
            },
        }
    }
}

pub open spec fn not_sent(kind: ModelTransportFailureKind, diagnostic: Seq<char>) -> OutcomeView {
    OutcomeView::ConfirmedNotSent(
        ModelTransportFailureView {
            kind,
            diagnostic,
            status_code: None,
            retry_hint: ModelTransportRetryHint::Never,
        },
    )
}

pub open spec fn unclear(kind: ModelTransportFailureKind, diagnostic: Seq<char>) -> OutcomeView {
    OutcomeView::Ambiguous {
        response: None,
        failure: ModelTransportFailureView {
            kind,
            diagnostic,
            status_code: None,
            retry_hint: ModelTransportRetryHint::NewAttempt,
        },
    }
}

fn confirmed_not_sent(kind: ModelTransportFailureKind, diagnostic: String) -> (r:
    ModelTransportOutcome)
    ensures
        r@ == not_sent(kind, diagnostic@),
{
    ModelTransportOutcome::ConfirmedNotSent(
        ModelTransportFailure {
            kind,
            diagnostic,
            status_code: None,
            retry_hint: ModelTransportRetryHint::Never,
        },
    )
}

fn ambiguous(kind: ModelTransportFailureKind, diagnostic: String) -> (r: ModelTransportOutcome)
    ensures
        r@ == unclear(kind, diagnostic@),
{
    ModelTransportOutcome::Ambiguous {
        response: None,
        failure: ModelTransportFailure {
            kind,
            diagnostic,
            status_code: None,
            retry_hint: ModelTransportRetryHint::NewAttempt,
        },
    }
}

/// What stands at the path of a secret: whether it is a regular file and no link, its permission
/// bits, and its length.
#[derive(Clone, Copy, Debug, PartialEq, Eq, Structural)]
pub struct SecretMetadata {
    pub is_regular: bool,
    pub mode: u32,
    pub length: u64,
}

/// A character of a secret.
pub open spec fn secret_char(c: char) -> bool {
    'a' <= c <= 'z' || 'A' <= c <= 'Z' || '0' <= c <= '9' || c == '-' || c == '_'
}

/// A text without the line breaks at its end.
pub open spec fn unbroken(s: Seq<char>) -> Seq<char>
    decreases s.len(),
{
    if s.len() > 0 && (s.last() == '\r' || s.last() == '\n') {
        unbroken(s.drop_last())
    } else {
        s
    }
}

/// A secret that can be used.
pub open spec fn usable_secret(s: Seq<char>) -> bool {
    s.len() > 0 && forall|i: int| 0 <= i < s.len() ==> secret_char(#[trigger] s[i])
}

/// The secret in a private file, or why it is not available; no complaint repeats its content.
pub open spec fn secret(
    inspected: Result<SecretMetadata, String>,
    read: Result<Vec<u8>, String>,
) -> Result<Seq<char>, Seq<char>> {
    match inspected {
        Err(e) => Err("cannot inspect secret file: "@ + e@),
        Ok(metadata) => if !metadata.is_regular {
            Err("secret path must be a regular non-symlink file"@)
        } else if metadata.mode & 0x3f != 0 {
            Err("secret file must not grant group or other permissions"@)
        } else if metadata.length == 0 || metadata.length > MAX_SECRET_BYTES {
            Err("secret file must contain 1..=512 bytes"@)
        } else {
            match read {
                Err(e) => Err("cannot read secret file: "@ + e@),
                Ok(bytes) => if !vstd::utf8::valid_utf8(bytes@) {
                    Err("secret must be UTF-8"@)
                } else {
                    let value = unbroken(vstd::utf8::decode_utf8(bytes@));
                    if usable_secret(value) {
                        Ok(value)
                    } else {
                        Err("secret contains unsupported characters"@)
                    }
                },
            }
        },
    }
}

pub open spec fn text_result(r: Result<String, String>) -> Result<Seq<char>, Seq<char>> {
    match r {
        Ok(s) => Ok(s@),
        Err(e) => Err(e@),
    }
}

fn is_secret_char(c: char) -> (r: bool)
    ensures
        r == secret_char(c),
{
    ('a' <= c && c <= 'z') || ('A' <= c && c <= 'Z') || ('0' <= c && c <= '9') || c == '-' || c
        == '_'
}

fn trim_breaks(s: &str) -> (r: Vec<char>)
    ensures
        r@ == unbroken(s@),
{
    let mut chars = text::chars_of(s);
    while chars.len() > 0 && (chars[chars.len() - 1] == '\r' || chars[chars.len() - 1] == '\n')
        invariant
            unbroken(chars@) == unbroken(s@),
        decreases chars.len(),
    {
        let ghost before = chars@;
        let _ = chars.pop();
        assert(chars@ =~= before.drop_last());
    }
    chars
}

/// Reads the secret of a deployment.
pub fn read_secret(
    inspected: Result<SecretMetadata, String>,
    read: Result<Vec<u8>, String>,
) -> (r: Result<String, String>)
    ensures
        text_result(r) == secret(inspected, read),
        r matches Ok(s) ==> usable_secret(s@),
{
    let metadata = match inspected {
        Ok(metadata) => metadata,
        Err(error) => {
            return Err(text::concat("cannot inspect secret file: ", error.as_str()));
        },
    };
    if !metadata.is_regular {
        return Err("secret path must be a regular non-symlink file".to_owned());
    }
    if metadata.mode & 0x3f != 0 {
        return Err("secret file must not grant group or other permissions".to_owned());
    }
    if metadata.length == 0 || metadata.length > MAX_SECRET_BYTES {
        return Err("secret file must contain 1..=512 bytes".to_owned());
    }
    let bytes = match read {
        Ok(bytes) => bytes,
        Err(error) => {
            return Err(text::concat("cannot read secret file: ", error.as_str()));
        },
    };
    let value = match text::utf8_text(bytes.as_slice()) {
        Ok(value) => value,
        Err(_) => {
            return Err("secret must be UTF-8".to_owned());
        },
    };
    let chars = trim_breaks(value.as_str());
    let ghost answer = if usable_secret(chars@) {
        Ok(chars@)
    } else {
        Err("secret contains unsupported characters"@)
    };
    assert(secret(inspected, read) == answer);
    if chars.len() == 0 {
        return Err("secret contains unsupported characters".to_owned());
    }
    let mut out = String::new();
    assert(out@ =~= chars@.take(0));
    for i in 0..chars.len()
        invariant
            secret(inspected, read) == answer,
            !usable_secret(chars@) ==> answer == Err::<Seq<char>, Seq<char>>(
                "secret contains unsupported characters"@,
            ),
            usable_secret(chars@) ==> answer == Ok::<Seq<char>, Seq<char>>(chars@),
            out@ == chars@.take(i as int),
            forall|j: int| 0 <= j < i ==> secret_char(#[trigger] chars@[j]),
    {
        if !is_secret_char(chars[i]) {
            return Err("secret contains unsupported characters".to_owned());
        }
        out.push(chars[i]);
        assert(out@ =~= chars@.take(i + 1));
    }
    assert(chars@.take(chars@.len() as int) =~= chars@);
    Ok(out)
}

/// A request header as it is sent; a sensitive one is never shown.
#[derive(Debug, PartialEq, Eq)]
pub struct RequestHeader {
    pub name: &'static str,
    pub value: String,
    pub sensitive: bool,
}

pub ghost struct RequestHeaderView {
    pub name: Seq<char>,
    pub value: Seq<char>,
    pub sensitive: bool,
}

impl View for RequestHeader {
    type V = RequestHeaderView;

    open spec fn view(&self) -> RequestHeaderView {
        RequestHeaderView { name: self.name@, value: self.value@, sensitive: self.sensitive }
    }
}

pub open spec fn request_views(list: Seq<RequestHeader>) -> Seq<RequestHeaderView> {
    Seq::new(list.len(), |i: int| list[i]@)
}

/// A text that a header can carry.
pub open spec fn carried(s: Seq<char>) -> bool {
    forall|i: int|
        0 <= i < vstd::utf8::encode_utf8(s).len() ==> headers::value_byte(
            #[trigger] vstd::utf8::encode_utf8(s)[i],
        )
}

/// The header that holds the secret.
pub open spec fn auth_header(auth: ModelAuth, secret: Seq<char>) -> RequestHeaderView {
    match auth {
        ModelAuth::Bearer => RequestHeaderView {
            name: "authorization"@,
            value: "Bearer "@ + secret,
            sensitive: true,
        },
        ModelAuth::XApiKey => RequestHeaderView {
            name: "x-api-key"@,
            value: secret,
            sensitive: true,
        },
    }
}

pub open spec fn plain_header(name: Seq<char>, value: Seq<char>) -> RequestHeaderView {
    RequestHeaderView { name, value, sensitive: false }
}

/// The headers of a request. The secret goes into exactly one of them.
pub open spec fn request_headers(deployment: ModelDeployment, secret: Seq<char>) -> Result<
    Seq<RequestHeaderView>,
    Seq<char>,
> {
    let auth = auth_header(deployment.auth, secret);
    let common = seq![
        plain_header("content-type"@, "application/json"@),
        plain_header("accept"@, "application/json"@),
        auth,
    ];
    if !carried(auth.value) {
        Err("secret cannot be represented as an HTTP header"@)
    } else {
        match deployment.protocol {
            ProtocolConfig::AnthropicMessages { api_version } => if carried(api_version@) {
                Ok(common.push(plain_header("anthropic-version"@, api_version@)))
            } else {
                Err("Anthropic API version is not a valid header value"@)
            },
            _ => Ok(common),
        }
    }
}

pub open spec fn headers_result(r: Result<Vec<RequestHeader>, String>) -> Result<
    Seq<RequestHeaderView>,
    Seq<char>,
> {
    match r {
        Ok(list) => Ok(request_views(list@)),
        Err(e) => Err(e@),
    }
}

/// The headers of a request.
pub fn protocol_headers(deployment: &ModelDeployment, secret: &str) -> (r: Result<
    Vec<RequestHeader>,
    String,
>)
    ensures
        headers_result(r) == request_headers(*deployment, secret@),
{
    let mut list: Vec<RequestHeader> = Vec::new();
    list.push(
        RequestHeader {
            name: "content-type",
            value: "application/json".to_owned(),
            sensitive: false,
        },
    );
    list.push(
        RequestHeader { name: "accept", value: "application/json".to_owned(), sensitive: false },
    );
    let (name, value) = match deployment.auth {
        ModelAuth::Bearer => ("authorization", text::concat("Bearer ", secret)),
        ModelAuth::XApiKey => ("x-api-key", secret.to_owned()),
    };
    if !headers::is_header_value(value.as_str()) {
        return Err("secret cannot be represented as an HTTP header".to_owned());
    }
    list.push(RequestHeader { name, value, sensitive: true });
    if let ProtocolConfig::AnthropicMessages { api_version } = &deployment.protocol {
        if !headers::is_header_value(api_version.as_str()) {
            return Err("Anthropic API version is not a valid header value".to_owned());
        }
        list.push(
            RequestHeader {
                name: "anthropic-version",
                value: api_version.clone(),
                sensitive: false,
            },
        );
    }
    assert(request_views(list@) =~= request_headers(*deployment, secret@)->Ok_0);
    Ok(list)
}

/// Checks the credential and the headers without a request.
pub fn preflight(
    deployment: &ModelDeployment,
    inspected: Result<SecretMetadata, String>,
    read: Result<Vec<u8>, String>,
) -> (r: Result<(), String>)
    ensures
        match secret(inspected, read) {
            Err(e) => r matches Err(error) && error@ == e,
            Ok(s) => match request_headers(*deployment, s) {
                Err(e) => r matches Err(error) && error@ == e,
                Ok(_) => r is Ok,
            },
        },
{
    let found = read_secret(inspected, read)?;
    match protocol_headers(deployment, found.as_str()) {
        Ok(_) => Ok(()),
        Err(error) => Err(error),
    }
}

/// A request that may be sent.
#[derive(Debug, PartialEq, Eq)]
pub struct HttpRequest {
    pub endpoint: String,
    pub headers: Vec<RequestHeader>,
    pub body: Vec<u8>,
    pub policy: ModelTransportPolicy,
}

pub ghost struct HttpRequestView {
    pub endpoint: Seq<char>,
    pub headers: Seq<RequestHeaderView>,
    pub body: Seq<u8>,
    pub policy: ModelTransportPolicy,
}

impl View for HttpRequest {
    type V = HttpRequestView;

    open spec fn view(&self) -> HttpRequestView {
        HttpRequestView {
            endpoint: self.endpoint@,
            headers: request_views(self.headers@),
            body: self.body@,
            policy: self.policy,
        }
    }
}

/// What is sent for a payload, or why nothing is.
pub open spec fn prepared(
    deployment: ModelDeployment,
    protocol: ProtocolKind,
    body: Seq<u8>,
    found: Result<Seq<char>, Seq<char>>,
) -> Result<HttpRequestView, OutcomeView> {
    if protocol != deployment.protocol.kind_of() {
        Err(
            not_sent(
                ModelTransportFailureKind::Configuration,
                "prepared payload protocol does not match deployment"@,
            ),
        )
    } else if body.len() > deployment.policy.max_request_bytes {
        Err(
            not_sent(
                ModelTransportFailureKind::RequestTooLarge,
                "model request uses "@ + text::decimal(body.len()) + " bytes; maximum is "@
                    + text::decimal(deployment.policy.max_request_bytes as nat),
            ),
        )
    } else {
        match found {
            Err(e) => Err(not_sent(ModelTransportFailureKind::SecretUnavailable, e)),
            Ok(s) => match request_headers(deployment, s) {
                Err(e) => Err(not_sent(ModelTransportFailureKind::Configuration, e)),
                Ok(list) => Ok(
                    HttpRequestView {
                        endpoint: deployment.endpoint@,
                        headers: list,
                        body,
                        policy: deployment.policy,
                    },
                ),
            },
        }
    }
}

/// Makes the request of a payload, or says why nothing is sent.
pub fn prepare_request(
    deployment: &ModelDeployment,
    protocol: ProtocolKind,
    body: &Vec<u8>,
    found: &Result<String, String>,
) -> (r: Result<HttpRequest, ModelTransportOutcome>)
    ensures
        match prepared(*deployment, protocol, body@, text_result(*found)) {
            Ok(request) => r matches Ok(http) && http@ == request,
            Err(outcome) => r matches Err(o) && o@ == outcome,
        },
{
    if protocol != deployment.protocol.kind() {
        return Err(
            confirmed_not_sent(
                ModelTransportFailureKind::Configuration,
                "prepared payload protocol does not match deployment".to_owned(),
            ),
        );
    }
    let size: u64 = body.len() as u64;
    if size > deployment.policy.max_request_bytes {
        let mut out = "model request uses ".to_owned();
        text::push_decimal(&mut out, size);
        out.append(" bytes; maximum is ");
        text::push_decimal(&mut out, deployment.policy.max_request_bytes);
        return Err(confirmed_not_sent(ModelTransportFailureKind::RequestTooLarge, out));
    }
    match found {
        Err(diagnostic) => Err(
            confirmed_not_sent(ModelTransportFailureKind::SecretUnavailable, diagnostic.clone()),
        ),
        Ok(s) => match protocol_headers(deployment, s.as_str()) {
            Err(diagnostic) => Err(
                confirmed_not_sent(ModelTransportFailureKind::Configuration, diagnostic),
            ),
            Ok(list) => Ok(
                HttpRequest {
                    endpoint: deployment.endpoint.clone(),
                    headers: list,
                    body: text::copy_bytes(body.as_slice()),
                    policy: deployment.policy,
                },
            ),
        },
    }
}

/// What is refused before it is sent was surely not sent, and must not be tried again unchanged.
pub proof fn refusals_are_certain(
    deployment: ModelDeployment,
    protocol: ProtocolKind,
    body: Seq<u8>,
    found: Result<Seq<char>, Seq<char>>,
)
    ensures
        prepared(deployment, protocol, body, found) matches Err(outcome) ==> outcome
            is ConfirmedNotSent && outcome->ConfirmedNotSent_0.retry_hint
            == ModelTransportRetryHint::Never,
{
}

/// What the HTTP client says of a failed request.
#[derive(Clone, Copy, Debug, PartialEq, Eq, Structural)]
pub struct ClientFailure {
    pub is_builder: bool,
    pub is_connect: bool,
    pub is_timeout: bool,
}

pub open spec fn client_kind(failure: ClientFailure) -> ModelTransportFailureKind {
    if failure.is_timeout {
        ModelTransportFailureKind::Timeout
    } else if failure.is_connect {
        ModelTransportFailureKind::Connection
    } else {
        ModelTransportFailureKind::ProcessIo
    }
}

/// What a failed request means: only one that was never built or never connected was surely not
/// sent.
pub fn classify_client_failure(failure: ClientFailure, detail: &str) -> (r: HttpDispatchError)
    ensures
        r@ == (HttpDispatchErrorView {
            before_send: failure.is_builder || failure.is_connect,
            kind: client_kind(failure),
            diagnostic: "HTTPS request failed: "@ + detail@,
        }),
{
    let kind = if failure.is_timeout {
        ModelTransportFailureKind::Timeout
    } else if failure.is_connect {
        ModelTransportFailureKind::Connection
    } else {
        ModelTransportFailureKind::ProcessIo
    };
    HttpDispatchError {
        before_send: failure.is_builder || failure.is_connect,
        kind,
        diagnostic: text::concat("HTTPS request failed: ", detail),
    }
}

/// A client that cannot be built sends nothing.
pub fn client_build_failure(detail: &str) -> (r: HttpDispatchError)
    ensures
        r@ == (HttpDispatchErrorView {
            before_send: true,
            kind: ModelTransportFailureKind::Configuration,
            diagnostic: "cannot build HTTPS client: "@ + detail@,
        }),
{
    HttpDispatchError {
        before_send: true,
        kind: ModelTransportFailureKind::Configuration,
        diagnostic: text::concat("cannot build HTTPS client: ", detail),
    }
}

pub open spec fn headers_fit(list: Seq<HeaderView>, maximum: u64) -> bool {
    headers::canonical(list).len() <= maximum
}

fn ensure_header_bound(list: &Vec<Header>, maximum: u64) -> (r: bool)
    ensures
        r == headers_fit(headers::header_views(list@), maximum),
{
    let size: u64 = headers::canonical_headers(list).len() as u64;
    size <= maximum
}

/// Refuses response headers beyond their bound.
pub fn check_response_headers(list: &Vec<Header>, maximum: u64) -> (r: Result<
    (),
    HttpDispatchError,
>)
    ensures
        match r {
            Ok(()) => headers_fit(headers::header_views(list@), maximum),
            Err(e) => !headers_fit(headers::header_views(list@), maximum) && e@ == (
            HttpDispatchErrorView {
                before_send: false,
                kind: ModelTransportFailureKind::ResponseHeadersTooLarge,
                diagnostic: "HTTP response headers exceeded their configured bound"@,
            }),
        },
{
    if ensure_header_bound(list, maximum) {
        Ok(())
    } else {
        Err(
            HttpDispatchError {
                before_send: false,
                kind: ModelTransportFailureKind::ResponseHeadersTooLarge,
                diagnostic: "HTTP response headers exceeded their configured bound".to_owned(),
            },
        )
    }
}

/// A response body as it arrives, never longer than its bound.
#[derive(Debug, PartialEq, Eq)]
pub struct ResponseBody {
    bytes: Vec<u8>,
    maximum: u64,
}

impl View for ResponseBody {
    type V = Seq<u8>;

    closed spec fn view(&self) -> Seq<u8> {
        self.bytes@
    }
}

impl ResponseBody {
    #[verifier::type_invariant]
    spec fn is_bounded(self) -> bool {
        self.bytes@.len() <= self.maximum
    }

    pub closed spec fn bound(&self) -> u64 {
        self.maximum
    }

    pub fn new(maximum: u64) -> (r: Self)
        ensures
            r@ == Seq::<u8>::empty(),
            r.bound() == maximum,
    {
        ResponseBody { bytes: Vec::new(), maximum }
    }

    /// Takes in the next chunk, if the body stays within its bound.
    pub fn accept(&mut self, chunk: &[u8]) -> (r: Result<(), HttpDispatchError>)
        ensures
            final(self).bound() == old(self).bound(),
            if old(self)@.len() + chunk@.len() > usize::MAX {
                r matches Err(e) && e@.kind == ModelTransportFailureKind::ResponseTooLarge
                    && !e@.before_send && e@.diagnostic == "HTTP response length overflowed"@
                    && final(self)@ == old(self)@
            } else if old(self)@.len() + chunk@.len() > old(self).bound() {
                r matches Err(e) && e@.kind == ModelTransportFailureKind::ResponseTooLarge
                    && !e@.before_send && e@.diagnostic
                    == "HTTP response body exceeded its configured bound"@ && final(self)@ == old(
                    self,
                )@
            } else {
                r is Ok && final(self)@ == old(self)@ + chunk@
            },
    {
        let length: usize = match self.bytes.len().checked_add(chunk.len()) {
            Some(length) => length,
            None => {
                return Err(
                    HttpDispatchError {
                        before_send: false,
                        kind: ModelTransportFailureKind::ResponseTooLarge,
                        diagnostic: "HTTP response length overflowed".to_owned(),
                    },
                );
            },
        };
        if length as u64 > self.maximum {
            return Err(
                HttpDispatchError {
                    before_send: false,
                    kind: ModelTransportFailureKind::ResponseTooLarge,
                    diagnostic: "HTTP response body exceeded its configured bound".to_owned(),
                },
            );
        }
        let mut bytes: Vec<u8> = Vec::new();
        std::mem::swap(&mut bytes, &mut self.bytes);
        text::push_bytes(&mut bytes, chunk);
        self.bytes = bytes;
        Ok(())
    }

    /// The whole body.
    pub fn into_bytes(self) -> (r: Vec<u8>)
        ensures
            r@ == self@,
            r@.len() <= self.bound(),
    {
        proof {
            use_type_invariant(&self);
        }
        self.bytes
    }
}

/// An answer as it came in.
#[derive(Debug, PartialEq, Eq)]
pub struct HttpResponse {
    pub status: u16,
    pub headers: Vec<Header>,
    pub body: Vec<u8>,
}

/// How long the provider asks to be left alone.
pub open spec fn retry_after(list: Seq<HeaderView>) -> Option<u64> {
    match headers::field_text(list, "retry-after"@) {
        None => None,
        Some(value) => match text::parsed(value) {
            None => None,
            Some(seconds) => if seconds * 1000 > u64::MAX {
                None
            } else {
                Some((seconds * 1000) as u64)
            },
        },
    }
}

/// What the provider calls the request.
pub open spec fn request_id(list: Seq<HeaderView>) -> Option<Seq<char>> {
    match headers::field_text(list, "x-request-id"@) {
        Some(id) => Some(id),
        None => headers::field_text(list, "request-id"@),
    }
}

/// What the error body of a provider says, bounded and without the secret.
pub open spec fn diagnostic(body: Seq<u8>, limit: u64, secret: Seq<char>) -> Seq<char> {
    let retained = if body.len() > limit {
        body.take(limit as int)
    } else {
        body
    };
    let clean = redaction::sanitized(text::lossy_text(retained), secret);
    let marked = if body.len() > limit {
        clean + " [truncated]"@
    } else {
        clean
    };
    if marked.len() == 0 {
        "provider returned an empty error body"@
    } else {
        marked
    }
}

fn first_bytes(bytes: &Vec<u8>, n: usize) -> (r: Vec<u8>)
    requires
        n <= bytes@.len(),
    ensures
        r@ == bytes@.take(n as int),
{
    let mut out: Vec<u8> = Vec::new();
    assert(out@ =~= bytes@.take(0));
    for i in 0..n
        invariant
            n <= bytes@.len(),
            out@ == bytes@.take(i as int),
    {
        out.push(bytes[i]);
        assert(out@ =~= bytes@.take(i + 1));
    }
    out
}

fn bounded_response_diagnostic(body: &Vec<u8>, limit: u64, secret: &str) -> (r: String)
    requires
        secret@.len() > 0,
    ensures
        r@ == diagnostic(body@, limit, secret@),
{
    let is_long = body.len() as u64 > limit;
    let retained = if is_long {
        first_bytes(body, limit as usize)
    } else {
        text::copy_bytes(body.as_slice())
    };
    let (lossy, _) = text::lossy_text_of(retained.as_slice());
    let mut out = redaction::sanitize_text(lossy.as_str(), secret);
    if is_long {
        out.append(" [truncated]");
        proof {
            reveal_strlit(" [truncated]");
        }
    }
    if text::chars_of(out.as_str()).len() == 0 {
        return "provider returned an empty error body".to_owned();
    }
    out
}

/// What a status means, beyond success: the kind of the failure, and what it says of another
/// attempt.
pub open spec fn status_failure(status: u16, retry_after_millis: Option<u64>) -> (
    ModelTransportFailureKind,
    ModelTransportRetryHint,
) {
    if status == 401 {
        (ModelTransportFailureKind::AuthenticationRejected, ModelTransportRetryHint::Never)
    } else if status == 403 {
        (ModelTransportFailureKind::PermissionRejected, ModelTransportRetryHint::Never)
    } else if status == 429 {
        (
            ModelTransportFailureKind::RateLimited,
            match retry_after_millis {
                Some(millis) => ModelTransportRetryHint::AfterMillis(millis),
                None => ModelTransportRetryHint::NewAttempt,
            },
        )
    } else if 300 <= status <= 499 {
        (ModelTransportFailureKind::ProviderClientError, ModelTransportRetryHint::Never)
    } else {
        (ModelTransportFailureKind::ProviderServerError, ModelTransportRetryHint::NewAttempt)
    }
}

/// What an answer with its status means.
pub open spec fn status_outcome(
    response: RawModelResponseView,
    limit: u64,
    secret: Seq<char>,
) -> OutcomeView {
    let status = response.status_code;
    if 200 <= status < 300 {
        OutcomeView::Response(response)
    } else {
        let (kind, retry_hint) = status_failure(status, response.retry_after_millis);
        let failure = ModelTransportFailureView {
            kind,
            diagnostic: diagnostic(response.body, limit, secret),
            status_code: Some(status),
            retry_hint,
        };
        if status >= 500 {
            OutcomeView::Ambiguous { response: Some(response), failure }
        } else {
            OutcomeView::ProviderRejected { response, failure }
        }
    }
}

/// What an answer with its status means.
pub fn classify_http_status(response: RawModelResponse, limit: u64, secret: &str) -> (r:
    ModelTransportOutcome)
    requires
        secret@.len() > 0,
    ensures
        r@ == status_outcome(response@, limit, secret@),
{
    let status: u16 = response.status_code;
    if 200 <= status && status < 300 {
        return ModelTransportOutcome::Response(response);
    }
    let diagnostic = bounded_response_diagnostic(&response.body, limit, secret);
    let (kind, retry_hint) = if status == 401 {
        (ModelTransportFailureKind::AuthenticationRejected, ModelTransportRetryHint::Never)
    } else if status == 403 {
        (ModelTransportFailureKind::PermissionRejected, ModelTransportRetryHint::Never)
    } else if status == 429 {
        (
            ModelTransportFailureKind::RateLimited,
            match response.retry_after_millis {
                Some(millis) => ModelTransportRetryHint::AfterMillis(millis),
                None => ModelTransportRetryHint::NewAttempt,
            },
        )
    } else if 300 <= status && status <= 499 {
        (ModelTransportFailureKind::ProviderClientError, ModelTransportRetryHint::Never)
    } else {
        (ModelTransportFailureKind::ProviderServerError, ModelTransportRetryHint::NewAttempt)
    };
    let failure = ModelTransportFailure {
        kind,
        diagnostic,
        status_code: Some(status),
        retry_hint,
    };
    if status >= 500 {
        ModelTransportOutcome::Ambiguous { response: Some(response), failure }
    } else {
        ModelTransportOutcome::ProviderRejected { response, failure }
    }
}

/// What an answer means.
pub open spec fn answered(
    status: u16,
    list: Seq<HeaderView>,
    body: Seq<u8>,
    policy: ModelTransportPolicy,
    secret: Seq<char>,
) -> OutcomeView {
    if !headers_fit(list, policy.max_response_header_bytes) {
        unclear(
            ModelTransportFailureKind::ResponseHeadersTooLarge,
            "HTTP response headers exceeded their configured bound"@,
        )
    } else if body.len() > policy.max_response_bytes {
        unclear(
            ModelTransportFailureKind::ResponseTooLarge,
            "HTTP response body exceeded its configured bound"@,
        )
    } else {
        status_outcome(
            RawModelResponseView {
                status_code: status,
                body,
                response_headers_digest: digest::digest_text(headers::canonical(list)),
                provider_request_id: request_id(list),
                retry_after_millis: retry_after(list),
            },
            policy.max_diagnostic_bytes,
            secret,
        )
    }
}

/// What an answer means.
pub fn classify_response(response: HttpResponse, policy: ModelTransportPolicy, secret: &str) -> (r:
    ModelTransportOutcome)
    requires
        secret@.len() > 0,
    ensures
        r@ == answered(
            response.status,
            headers::header_views(response.headers@),
            response.body@,
            policy,
            secret@,
        ),
{
    if !ensure_header_bound(&response.headers, policy.max_response_header_bytes) {
        return ambiguous(
            ModelTransportFailureKind::ResponseHeadersTooLarge,
            "HTTP response headers exceeded their configured bound".to_owned(),
        );
    }
    if response.body.len() as u64 > policy.max_response_bytes {
        return ambiguous(
            ModelTransportFailureKind::ResponseTooLarge,
            "HTTP response body exceeded its configured bound".to_owned(),
        );
    }
    let retry_after_millis = match headers::header_text(&response.headers, "retry-after") {
        None => None,
        Some(value) => match text::parse_u64(value.as_str()) {
            None => None,
            Some(seconds) => seconds.checked_mul(1000),
        },
    };
    let provider_request_id = match headers::header_text(&response.headers, "x-request-id") {
        Some(id) => Some(id),
        None => headers::header_text(&response.headers, "request-id"),
    };
    let canonical = headers::canonical_headers(&response.headers);
    let raw = RawModelResponse {
        status_code: response.status,
        body: response.body,
        response_headers_digest: Sha256Digest::digest_bytes(canonical.as_slice()),
        provider_request_id,
        retry_after_millis,
    };
    classify_http_status(raw, policy.max_diagnostic_bytes, secret)
}

/// What a sent request came to.
pub open spec fn settled(
    result: Result<HttpResponse, HttpDispatchError>,
    policy: ModelTransportPolicy,
    secret: Seq<char>,
) -> OutcomeView {
    match result {
        Ok(response) => answered(
            response.status,
            headers::header_views(response.headers@),
            response.body@,
            policy,
            secret,
        ),
        Err(error) => if error.before_send {
            not_sent(error.kind, redaction::sanitized(error.diagnostic@, secret))
        } else {
            unclear(error.kind, redaction::sanitized(error.diagnostic@, secret))
        },
    }
}

/// What a sent request came to.
pub fn settle(
    result: Result<HttpResponse, HttpDispatchError>,
    policy: ModelTransportPolicy,
    secret: &str,
) -> (r: ModelTransportOutcome)
    requires
        secret@.len() > 0,
    ensures
        r@ == settled(result, policy, secret@),
{
    match result {
        Ok(response) => classify_response(response, policy, secret),
        Err(error) => {
            let diagnostic = redaction::sanitize_text(error.diagnostic.as_str(), secret);
            if error.before_send {
                confirmed_not_sent(error.kind, diagnostic)
            } else {
                ambiguous(error.kind, diagnostic)
            }
        },
    }
}

/// A failure is called certain only where the client is certain: nothing that may have reached the
/// provider is ever reported as not sent.
pub proof fn certainty_is_preserved(
    result: Result<HttpResponse, HttpDispatchError>,
    policy: ModelTransportPolicy,
    secret: Seq<char>,
)
    ensures
        settled(result, policy, secret) is ConfirmedNotSent <==> (result matches Err(error)
            && error.before_send),
{
}

/// A provider's error is kept with its answer, and a server error leaves it open whether the turn
/// was taken.
pub proof fn server_errors_are_ambiguous(
    response: RawModelResponseView,
    limit: u64,
    secret: Seq<char>,
)
    requires
        response.status_code >= 500,
    ensures
        status_outcome(response, limit, secret) matches OutcomeView::Ambiguous {
            response: Some(kept),
            failure,
        } && kept == response && failure.retry_hint == ModelTransportRetryHint::NewAttempt,
{
}

proof fn usable_secrets_have_no_brackets(s: Seq<char>)
    requires
        usable_secret(s),
    ensures
        !s.contains('['),
        !s.contains(']'),
{
    assert forall|i: int| 0 <= i < s.len() implies s[i] != '[' && s[i] != ']' by {
        assert(secret_char(s[i]));
    }
}

/// The secret of a deployment does not show in what a failed request or a refusal says, unless it
/// is part of the word that stands in its place.
pub proof fn failures_do_not_leak(
    error: HttpDispatchError,
    policy: ModelTransportPolicy,
    secret: Seq<char>,
)
    requires
        usable_secret(secret),
        !redaction::occurs(redaction::mark(), secret),
    ensures
        match settled(Err(error), policy, secret) {
            OutcomeView::ConfirmedNotSent(failure) => !redaction::occurs(failure.diagnostic, secret),
            OutcomeView::Ambiguous { failure, .. } => !redaction::occurs(
                failure.diagnostic,
                secret,
            ),
            _ => true,
        },
{
    usable_secrets_have_no_brackets(secret);
    redaction::secrets_are_never_rendered(error.diagnostic@, secret);
}

/// The same holds of what a provider's error body is shown as; the words that are put in for an
/// empty or a long body are its own.
pub proof fn rejections_do_not_leak(body: Seq<u8>, limit: u64, secret: Seq<char>)
    requires
        usable_secret(secret),
        !redaction::occurs(redaction::mark(), secret),
        !redaction::occurs(" [truncated]"@, secret),
        !redaction::occurs("provider returned an empty error body"@, secret),
    ensures
        !redaction::occurs(diagnostic(body, limit, secret), secret),
{
    usable_secrets_have_no_brackets(secret);
    let retained = if body.len() > limit {
        body.take(limit as int)
    } else {
        body
    };
    let clean = redaction::sanitized(text::lossy_text(retained), secret);
    redaction::secrets_are_never_rendered(text::lossy_text(retained), secret);
    let behind = " [truncated]"@;
    reveal_strlit(" [truncated]");
    let n = secret.len() as int;
    let whole = clean + behind;
    assert forall|i: int| !#[trigger] redaction::occurs_at(whole, secret, i) by {
        if redaction::occurs_at(whole, secret, i) {
            if i + n <= clean.len() {
                assert(clean.subrange(i, i + n) =~= whole.subrange(i, i + n));
                assert(redaction::occurs_at(clean, secret, i));
            } else if i >= clean.len() {
                let j = i - clean.len();
                assert(behind.subrange(j, j + n) =~= whole.subrange(i, i + n));
                assert(redaction::occurs_at(behind, secret, j));
            } else {
                assert(whole.subrange(i, i + n)[clean.len() - i] == ' ');
                assert(secret_char(secret[clean.len() - i]));
            }
        }
    }
}

} // verus!
