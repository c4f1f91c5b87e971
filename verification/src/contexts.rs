//! The durable context of a model conversation: prompts, continuations and tool results.
pub mod conduct;

use crate::digest;
use crate::digest::Sha256Digest;
use crate::ordered;
use crate::ordered::TextMap;
use crate::text;
use crate::vault;
use crate::vault::ArtifactVault;
use vstd::prelude::*;
use vstd::string::*;

verus! {

/// What the next turn of a provider continues from: its canonical bytes, and the tool calls in
/// them that wait for results.
#[derive(Debug, PartialEq, Eq)]
pub struct NativeContinuation {
    pub canonical_bytes: Vec<u8>,
    pub pending_call_ids: Vec<String>,
}

pub ghost struct NativeContinuationView {
    pub canonical_bytes: Seq<u8>,
    pub pending_call_ids: Seq<Seq<char>>,
}

impl View for NativeContinuation {
    type V = NativeContinuationView;

    open spec fn view(&self) -> NativeContinuationView {
        NativeContinuationView {
            canonical_bytes: self.canonical_bytes@,
            pending_call_ids: text::views(self.pending_call_ids@),
        }
    }
}

impl Clone for NativeContinuation {
    fn clone(&self) -> (r: Self)
        ensures
            r@ == self@,
    {
        NativeContinuation {
            canonical_bytes: text::copy_bytes(self.canonical_bytes.as_slice()),
            pending_call_ids: text::copy_all(&self.pending_call_ids),
        }
    }
}

/// A tool result for the call that asked for it.
#[derive(Debug, PartialEq, Eq)]
pub struct OwnedToolResult {
    pub native_call_id: String,
    pub output: String,
}

pub ghost struct OwnedToolResultView {
    pub native_call_id: Seq<char>,
    pub output: Seq<char>,
}

impl View for OwnedToolResult {
    type V = OwnedToolResultView;

    open spec fn view(&self) -> OwnedToolResultView {
        OwnedToolResultView {
            native_call_id: self.native_call_id@,
            output: self.output@,
        }
    }
}

impl Clone for OwnedToolResult {
    fn clone(&self) -> (r: Self)
        ensures
            r@ == self@,
    {
        OwnedToolResult {
            native_call_id: self.native_call_id.clone(),
            output: self.output.clone(),
        }
    }
}

pub open spec fn owned_tool_result_views(values: Seq<OwnedToolResult>) -> Seq<OwnedToolResultView> {
    Seq::new(values.len(), |i: int| values[i]@)
}

/// A tool call that waits for its result, or has it.
#[derive(Debug, PartialEq, Eq)]
pub struct PendingResult {
    pub native_call_id: String,
    pub result_digest: Option<String>,
}

pub ghost struct PendingResultView {
    pub native_call_id: Seq<char>,
    pub result_digest: Option<Seq<char>>,
}

impl View for PendingResult {
    type V = PendingResultView;

    open spec fn view(&self) -> PendingResultView {
        PendingResultView {
            native_call_id: self.native_call_id@,
            result_digest: text::optional(self.result_digest),
        }
    }
}

impl Clone for PendingResult {
    fn clone(&self) -> (r: Self)
        ensures
            r@ == self@,
    {
        PendingResult {
            native_call_id: self.native_call_id.clone(),
            result_digest: text::copy_optional(&self.result_digest),
        }
    }
}

pub open spec fn pending_result_views(values: Seq<PendingResult>) -> Seq<PendingResultView> {
    Seq::new(values.len(), |i: int| values[i]@)
}

pub(crate) fn copy_pending_results(values: &Vec<PendingResult>) -> (r: Vec<PendingResult>)
    ensures
        pending_result_views(r@) == pending_result_views(values@),
{
    let mut out: Vec<PendingResult> = Vec::new();
    let mut i: usize = 0;
    while i < values.len()
        invariant
            i <= values@.len(),
            out@.len() == i,
            forall|k: int| 0 <= k < i ==> #[trigger] out@[k]@ == values@[k]@,
        decreases values@.len() - i,
    {
        out.push(values[i].clone());
        i += 1;
    }
    assert(pending_result_views(out@) =~= pending_result_views(values@));
    out
}

pub open spec fn optional_native_continuation(value: Option<NativeContinuation>) -> Option<NativeContinuationView> {
    match value {
        Some(v) => Some(v@),
        None => None,
    }
}

pub(crate) fn copy_optional_native_continuation(value: &Option<NativeContinuation>) -> (r: Option<NativeContinuation>)
    ensures
        optional_native_continuation(r) == optional_native_continuation(*value),
{
    match value {
        Some(v) => Some(v.clone()),
        None => None,
    }
}

/// The context of one episode.
#[derive(Debug, PartialEq, Eq)]
pub struct EpisodeContext {
    pub system_prompt: String,
    pub initial_user_text: String,
    pub tools_json: Vec<u8>,
    pub initial_input_digest: String,
    pub latest_input_digest: String,
    pub continuation: Option<NativeContinuation>,
    pub pending: Vec<PendingResult>,
}

pub ghost struct EpisodeContextView {
    pub system_prompt: Seq<char>,
    pub initial_user_text: Seq<char>,
    pub tools_json: Seq<u8>,
    pub initial_input_digest: Seq<char>,
    pub latest_input_digest: Seq<char>,
    pub continuation: Option<NativeContinuationView>,
    pub pending: Seq<PendingResultView>,
}

impl View for EpisodeContext {
    type V = EpisodeContextView;

    open spec fn view(&self) -> EpisodeContextView {
        EpisodeContextView {
            system_prompt: self.system_prompt@,
            initial_user_text: self.initial_user_text@,
            tools_json: self.tools_json@,
            initial_input_digest: self.initial_input_digest@,
            latest_input_digest: self.latest_input_digest@,
            continuation: optional_native_continuation(self.continuation),
            pending: pending_result_views(self.pending@),
        }
    }
}

impl Clone for EpisodeContext {
    fn clone(&self) -> (r: Self)
        ensures
            r@ == self@,
    {
        EpisodeContext {
            system_prompt: self.system_prompt.clone(),
            initial_user_text: self.initial_user_text.clone(),
            tools_json: text::copy_bytes(self.tools_json.as_slice()),
            initial_input_digest: self.initial_input_digest.clone(),
            latest_input_digest: self.latest_input_digest.clone(),
            continuation: copy_optional_native_continuation(&self.continuation),
            pending: copy_pending_results(&self.pending),
        }
    }
}

/// What a committed turn exchanged.
#[derive(Debug, PartialEq, Eq)]
pub struct ModelExchangeIdentity {
    pub episode_id: String,
    pub turn_index: u32,
    pub input_digest: String,
    pub request_digest: String,
    pub response_digest: String,
    pub continuation_digest: String,
    pub provider_request_id: Option<String>,
    pub actual_model: Option<String>,
}

pub ghost struct ModelExchangeIdentityView {
    pub episode_id: Seq<char>,
    pub turn_index: u32,
    pub input_digest: Seq<char>,
    pub request_digest: Seq<char>,
    pub response_digest: Seq<char>,
    pub continuation_digest: Seq<char>,
    pub provider_request_id: Option<Seq<char>>,
    pub actual_model: Option<Seq<char>>,
}

impl View for ModelExchangeIdentity {
    type V = ModelExchangeIdentityView;

    open spec fn view(&self) -> ModelExchangeIdentityView {
        ModelExchangeIdentityView {
            episode_id: self.episode_id@,
            turn_index: self.turn_index,
            input_digest: self.input_digest@,
            request_digest: self.request_digest@,
            response_digest: self.response_digest@,
            continuation_digest: self.continuation_digest@,
            provider_request_id: text::optional(self.provider_request_id),
            actual_model: text::optional(self.actual_model),
        }
    }
}

impl Clone for ModelExchangeIdentity {
    fn clone(&self) -> (r: Self)
        ensures
            r@ == self@,
    {
        ModelExchangeIdentity {
            episode_id: self.episode_id.clone(),
            turn_index: self.turn_index,
            input_digest: self.input_digest.clone(),
            request_digest: self.request_digest.clone(),
            response_digest: self.response_digest.clone(),
            continuation_digest: self.continuation_digest.clone(),
            provider_request_id: text::copy_optional(&self.provider_request_id),
            actual_model: text::copy_optional(&self.actual_model),
        }
    }
}

impl ModelExchangeIdentity {
    /// Whether both have the same content.
    pub fn same(&self, other: &Self) -> (r: bool)
        ensures
            r == (self@ == other@),
    {
        text::same(self.episode_id.as_str(), other.episode_id.as_str())
            && self.turn_index == other.turn_index
            && text::same(self.input_digest.as_str(), other.input_digest.as_str())
            && text::same(self.request_digest.as_str(), other.request_digest.as_str())
            && text::same(self.response_digest.as_str(), other.response_digest.as_str())
            && text::same(self.continuation_digest.as_str(), other.continuation_digest.as_str())
            && text::same_optional(&self.provider_request_id, &other.provider_request_id)
            && text::same_optional(&self.actual_model, &other.actual_model)
    }
}

/// A request for one model turn.
#[derive(Debug, PartialEq, Eq)]
pub struct ModelTurnRequest {
    pub attempt_id: String,
    pub episode_id: String,
    pub turn_index: u32,
    pub input_digest: Sha256Digest,
}

pub ghost struct ModelTurnRequestView {
    pub attempt_id: Seq<char>,
    pub episode_id: Seq<char>,
    pub turn_index: u32,
    pub input_digest: Seq<char>,
}

impl View for ModelTurnRequest {
    type V = ModelTurnRequestView;

    open spec fn view(&self) -> ModelTurnRequestView {
        ModelTurnRequestView {
            attempt_id: self.attempt_id@,
            episode_id: self.episode_id@,
            turn_index: self.turn_index,
            input_digest: self.input_digest@,
        }
    }
}

/// The input of one provider turn.
#[derive(Debug, PartialEq, Eq)]
pub struct ProviderTurnInput {
    pub system_prompt: String,
    pub initial_user_text: Option<String>,
    pub continuation: Option<NativeContinuation>,
    pub tool_results: Vec<OwnedToolResult>,
    pub tools_json: Vec<u8>,
}

pub ghost struct ProviderTurnInputView {
    pub system_prompt: Seq<char>,
    pub initial_user_text: Option<Seq<char>>,
    pub continuation: Option<NativeContinuationView>,
    pub tool_results: Seq<OwnedToolResultView>,
    pub tools_json: Seq<u8>,
}

impl View for ProviderTurnInput {
    type V = ProviderTurnInputView;

    open spec fn view(&self) -> ProviderTurnInputView {
        ProviderTurnInputView {
            system_prompt: self.system_prompt@,
            initial_user_text: text::optional(self.initial_user_text),
            continuation: optional_native_continuation(self.continuation),
            tool_results: owned_tool_result_views(self.tool_results@),
            tools_json: self.tools_json@,
        }
    }
}

/// One successful exchange with a provider: the digests that the turn names, and the bytes behind
/// them.
#[derive(Debug, PartialEq, Eq)]
pub struct ProviderTurnExchange {
    pub raw_exchange_digest: Sha256Digest,
    pub native_continuation_digest: Sha256Digest,
    pub request_body: Vec<u8>,
    pub response_body: Vec<u8>,
    pub native_continuation: NativeContinuation,
    pub provider_request_id: Option<String>,
    pub actual_model: Option<String>,
}

pub ghost struct ProviderTurnExchangeView {
    pub raw_exchange_digest: Seq<char>,
    pub native_continuation_digest: Seq<char>,
    pub request_body: Seq<u8>,
    pub response_body: Seq<u8>,
    pub native_continuation: NativeContinuationView,
    pub provider_request_id: Option<Seq<char>>,
    pub actual_model: Option<Seq<char>>,
}

impl View for ProviderTurnExchange {
    type V = ProviderTurnExchangeView;

    open spec fn view(&self) -> ProviderTurnExchangeView {
        ProviderTurnExchangeView {
            raw_exchange_digest: self.raw_exchange_digest@,
            native_continuation_digest: self.native_continuation_digest@,
            request_body: self.request_body@,
            response_body: self.response_body@,
            native_continuation: self.native_continuation@,
            provider_request_id: text::optional(self.provider_request_id),
            actual_model: text::optional(self.actual_model),
        }
    }
}

/// How many bytes a context may read back.
#[derive(Clone, Copy, Debug, PartialEq, Eq, Structural)]
pub struct ContextLimits {
    pub max_continuation_bytes: usize,
    pub max_tool_result_bytes: usize,
}

/// All that the store holds.
pub ghost struct ContextState {
    pub artifacts: Map<Seq<char>, Seq<u8>>,
    pub episodes: Map<Seq<char>, EpisodeContextView>,
    pub exchanges: Map<Seq<char>, ModelExchangeIdentityView>,
    pub limits: ContextLimits,
}

/// The bytes that stand for a first turn: a label, the prompts and the tools, set apart by zeros.
pub open spec fn initial_input(system_prompt: Seq<char>, user_text: Seq<char>, tools: Seq<u8>) -> Seq<
    u8,
> {
    vstd::utf8::encode_utf8("alloyport-initial-model-input-v1"@).push(0) + vstd::utf8::encode_utf8(
        system_prompt,
    ).push(0) + vstd::utf8::encode_utf8(user_text).push(0) + tools
}

/// The identity of a first turn.
pub open spec fn initial_identity(
    system_prompt: Seq<char>,
    user_text: Seq<char>,
    tools: Seq<u8>,
) -> Seq<char> {
    digest::digest_text(initial_input(system_prompt, user_text, tools))
}

/// The identity of a first turn.
pub fn initial_digest(system_prompt: &str, user_text: &str, tools: &[u8]) -> (r: Sha256Digest)
    ensures
        r@ == initial_identity(system_prompt@, user_text@, tools@),
{
    let mut bytes: Vec<u8> = Vec::new();
    text::push_bytes(&mut bytes, "alloyport-initial-model-input-v1".as_bytes());
    bytes.push(0);
    text::push_bytes(&mut bytes, system_prompt.as_bytes());
    bytes.push(0);
    text::push_bytes(&mut bytes, user_text.as_bytes());
    bytes.push(0);
    text::push_bytes(&mut bytes, tools);
    assert(bytes@ =~= initial_input(system_prompt@, user_text@, tools@));
    Sha256Digest::digest_bytes(bytes.as_slice())
}

/// The results of the pending calls in order, once there is one for each.
pub open spec fn results(pending: Seq<PendingResultView>) -> Option<Seq<Seq<char>>> {
    if exists|i: int| 0 <= i < pending.len() && (#[trigger] pending[i]).result_digest is None {
        None
    } else {
        Some(Seq::new(pending.len(), |i: int| pending[i].result_digest->0))
    }
}

/// What the input of a later turn is derived from: the continuation, and the results in the order of
/// their calls.
#[derive(Debug, PartialEq, Eq)]
pub struct ContinuationBasis {
    pub continuation: Sha256Digest,
    pub results: Vec<String>,
}

pub ghost struct BasisView {
    pub continuation: Seq<char>,
    pub results: Seq<Seq<char>>,
}

impl View for ContinuationBasis {
    type V = BasisView;

    open spec fn view(&self) -> BasisView {
        BasisView { continuation: self.continuation@, results: text::views(self.results@) }
    }
}

/// The basis of an episode's next turn, once every pending call has its result.
pub open spec fn basis(context: EpisodeContextView) -> Option<BasisView> {
    match (context.continuation, results(context.pending)) {
        (Some(continuation), Some(all)) => Some(
            BasisView {
                continuation: digest::digest_text(continuation.canonical_bytes),
                results: all,
            },
        ),
        _ => None,
    }
}

pub open spec fn fresh_context(
    system_prompt: Seq<char>,
    user_text: Seq<char>,
    tools: Seq<u8>,
) -> EpisodeContextView {
    EpisodeContextView {
        system_prompt,
        initial_user_text: user_text,
        tools_json: tools,
        initial_input_digest: initial_identity(system_prompt, user_text, tools),
        latest_input_digest: initial_identity(system_prompt, user_text, tools),
        continuation: None,
        pending: seq![],
    }
}

/// Creates the first-turn context of an episode; the same one again is a repetition.
pub open spec fn create(
    s: ContextState,
    episode_id: Seq<char>,
    system_prompt: Seq<char>,
    user_text: Seq<char>,
    tools: Seq<u8>,
) -> (ContextState, Result<Seq<char>, Seq<char>>) {
    if text::blank(system_prompt) || text::blank(user_text) {
        (s, Err("model context prompts must not be empty"@))
    } else if s.episodes.dom().contains(episode_id) {
        let known = s.episodes[episode_id];
        if known.system_prompt == system_prompt && known.initial_user_text == user_text
            && known.tools_json == tools && known.initial_input_digest == initial_identity(
            system_prompt,
            user_text,
            tools,
        ) {
            (s, Ok(known.initial_input_digest))
        } else {
            (s, Err("model context conflicts for "@ + episode_id))
        }
    } else {
        (
            ContextState {
                episodes: s.episodes.insert(
                    episode_id,
                    fresh_context(system_prompt, user_text, tools),
                ),
                ..s
            },
            Ok(initial_identity(system_prompt, user_text, tools)),
        )
    }
}

/// The pending calls are those of the continuation, in order, and each has its result.
pub open spec fn complete(
    pending: Seq<PendingResultView>,
    continuation: NativeContinuationView,
) -> bool {
    &&& pending.len() == continuation.pending_call_ids.len()
    &&& forall|i: int|
        0 <= i < pending.len() ==> (#[trigger] pending[i]).native_call_id
            == continuation.pending_call_ids[i] && pending[i].result_digest is Some
}

/// The text behind a result, or why it cannot be read.
pub open spec fn result_text(s: ContextState, result_digest: Seq<char>) -> Result<
    Seq<char>,
    Seq<char>,
> {
    match vault::readable(s.artifacts, result_digest, s.limits.max_tool_result_bytes) {
        Err(e) => Err(e),
        Ok(bytes) => if vstd::utf8::valid_utf8(bytes) {
            Ok(vstd::utf8::decode_utf8(bytes))
        } else {
            Err(text::utf8_error(bytes))
        },
    }
}

/// The first `n` pending results as text, or why the first that fails cannot be read.
pub open spec fn result_texts(s: ContextState, pending: Seq<PendingResultView>, n: nat) -> Result<
    Seq<OwnedToolResultView>,
    Seq<char>,
>
    decreases n,
{
    if n == 0 {
        Ok(seq![])
    } else {
        match result_texts(s, pending, (n - 1) as nat) {
            Err(e) => Err(e),
            Ok(known) => match result_text(s, pending[n - 1].result_digest->0) {
                Err(e) => Err(e),
                Ok(output) => Ok(
                    known.push(
                        OwnedToolResultView {
                            native_call_id: pending[n - 1].native_call_id,
                            output,
                        },
                    ),
                ),
            },
        }
    }
}

proof fn first_unreadable_result_stays(
    s: ContextState,
    pending: Seq<PendingResultView>,
    m: nat,
    n: nat,
)
    requires
        m <= n,
        result_texts(s, pending, m) is Err,
    ensures
        result_texts(s, pending, n) == result_texts(s, pending, m),
    decreases n,
{
    if m < n {
        first_unreadable_result_stays(s, pending, m, (n - 1) as nat);
    }
}

/// Loads exactly the input that a request names. `derived` is the digest of a later turn's input.
pub open spec fn load(
    s: ContextState,
    request: ModelTurnRequestView,
    derived: Seq<char>,
) -> Result<ProviderTurnInputView, Seq<char>> {
    if !s.episodes.dom().contains(request.episode_id) {
        Err("model context is absent for "@ + request.episode_id)
    } else {
        let context = s.episodes[request.episode_id];
        if request.input_digest != context.latest_input_digest {
            Err("model request input identity does not match durable context"@)
        } else {
            match context.continuation {
                None => if request.input_digest != context.initial_input_digest {
                    Err("initial model context identity changed"@)
                } else {
                    Ok(
                        ProviderTurnInputView {
                            system_prompt: context.system_prompt,
                            initial_user_text: Some(context.initial_user_text),
                            continuation: None,
                            tool_results: seq![],
                            tools_json: context.tools_json,
                        },
                    )
                },
                Some(continuation) => {
                    let identity = digest::digest_text(continuation.canonical_bytes);
                    match vault::readable(
                        s.artifacts,
                        identity,
                        s.limits.max_continuation_bytes,
                    ) {
                        Err(e) => Err(e),
                        Ok(_) => if !complete(context.pending, continuation) {
                            Err("provider continuation has incomplete or mismatched tool results"@)
                        } else {
                            match result_texts(s, context.pending, context.pending.len()) {
                                Err(e) => Err(e),
                                Ok(tool_results) => if derived != request.input_digest {
                                    Err(
                                        "model continuation input digest does not bind its results"@,
                                    )
                                } else {
                                    Ok(
                                        ProviderTurnInputView {
                                            system_prompt: context.system_prompt,
                                            initial_user_text: None,
                                            continuation: Some(continuation),
                                            tool_results,
                                            tools_json: context.tools_json,
                                        },
                                    )
                                },
                            }
                        },
                    }
                },
            }
        }
    }
}

/// The identity of what a turn exchanged.
pub open spec fn exchange_identity(
    request: ModelTurnRequestView,
    exchange: ProviderTurnExchangeView,
) -> ModelExchangeIdentityView {
    ModelExchangeIdentityView {
        episode_id: request.episode_id,
        turn_index: request.turn_index,
        input_digest: request.input_digest,
        request_digest: digest::digest_text(exchange.request_body),
        response_digest: digest::digest_text(exchange.response_body),
        continuation_digest: digest::digest_text(exchange.native_continuation.canonical_bytes),
        provider_request_id: exchange.provider_request_id,
        actual_model: exchange.actual_model,
    }
}

/// Another attempt has committed that turn of the episode.
pub open spec fn turn_taken(
    exchanges: Map<Seq<char>, ModelExchangeIdentityView>,
    episode_id: Seq<char>,
    turn_index: u32,
) -> bool {
    exists|k: Seq<char>| #[trigger]
        exchanges.dom().contains(k) && exchanges[k].episode_id == episode_id
            && exchanges[k].turn_index == turn_index
}

/// No call identity occurs twice.
pub open spec fn distinct(ids: Seq<Seq<char>>) -> bool {
    forall|i: int, j: int| 0 <= i < j < ids.len() ==> #[trigger] ids[i] != #[trigger] ids[j]
}

pub open spec fn waiting(ids: Seq<Seq<char>>) -> Seq<PendingResultView> {
    Seq::new(
        ids.len(),
        |i: int| PendingResultView { native_call_id: ids[i], result_digest: None },
    )
}

/// Why an exchange that the artifacts hold cannot be committed; `Ok` where it was before.
/// A broken constraint of the tables is told in SQLite's own words.
pub open spec fn commit_refusal(
    s: ContextState,
    request: ModelTurnRequestView,
    exchange: ProviderTurnExchangeView,
) -> Option<Result<(), Seq<char>>> {
    if s.exchanges.dom().contains(request.attempt_id) {
        if s.exchanges[request.attempt_id] == exchange_identity(request, exchange) {
            Some(Ok(()))
        } else {
            Some(Err("model attempt exchange conflicts with its committed bytes"@))
        }
    } else if !s.episodes.dom().contains(request.episode_id)
        || s.episodes[request.episode_id].latest_input_digest != request.input_digest {
        Some(Err("model exchange does not match current durable input"@))
    } else if request.turn_index == 0 {
        Some(Err("CHECK constraint failed: turn_index > 0"@))
    } else if turn_taken(s.exchanges, request.episode_id, request.turn_index) {
        Some(
            Err(
                "UNIQUE constraint failed: model_turn_exchanges.episode_id, model_turn_exchanges.turn_index"@,
            ),
        )
    } else if !distinct(exchange.native_continuation.pending_call_ids) {
        Some(
            Err(
                "UNIQUE constraint failed: model_pending_tool_results.episode_id, model_pending_tool_results.native_call_id"@,
            ),
        )
    } else {
        None
    }
}

/// Keeps the bytes of an exchange, then the exchange itself, and makes the episode wait for the
/// results of the calls in it.
pub open spec fn commit(
    s: ContextState,
    request: ModelTurnRequestView,
    exchange: ProviderTurnExchangeView,
) -> (ContextState, Result<(), Seq<char>>) {
    let continuation = exchange.native_continuation;
    let a = ContextState {
        artifacts: vault::kept(s.artifacts, continuation.canonical_bytes),
        ..s
    };
    let b = ContextState {
        artifacts: vault::kept(
            vault::kept(a.artifacts, exchange.request_body),
            exchange.response_body,
        ),
        ..a
    };
    if digest::digest_text(continuation.canonical_bytes) != exchange.native_continuation_digest {
        (a, Err("provider continuation identity changed before commit"@))
    } else if digest::digest_text(exchange.response_body) != exchange.raw_exchange_digest {
        (b, Err("provider response identity changed before commit"@))
    } else {
        match commit_refusal(b, request, exchange) {
            Some(answer) => (b, answer),
            None => (
                ContextState {
                    exchanges: b.exchanges.insert(
                        request.attempt_id,
                        exchange_identity(request, exchange),
                    ),
                    episodes: b.episodes.insert(
                        request.episode_id,
                        EpisodeContextView {
                            continuation: Some(continuation),
                            pending: waiting(continuation.pending_call_ids),
                            ..b.episodes[request.episode_id]
                        },
                    ),
                    ..b
                },
                Ok(()),
            ),
        }
    }
}

/// The place of a pending call.
pub open spec fn called(pending: Seq<PendingResultView>, native_call_id: Seq<char>) -> Option<int> {
    ordered::first(pending, |p: PendingResultView| p.native_call_id == native_call_id)
}

/// Keeps the result of a pending call, and gives the episode its next input, whose digest is
/// `derived`, once every call has one.
pub open spec fn record_result(
    s: ContextState,
    episode_id: Seq<char>,
    native_call_id: Seq<char>,
    result_digest: Seq<char>,
    derived: Seq<char>,
) -> (ContextState, Result<(), Seq<char>>) {
    match result_text(s, result_digest) {
        Err(e) => (s, Err(e)),
        Ok(_) => {
            let context = s.episodes[episode_id];
            if !s.episodes.dom().contains(episode_id) || called(context.pending, native_call_id)
                is None {
                (s, Err("tool result does not belong to the pending continuation"@))
            } else {
                let i = called(context.pending, native_call_id)->0;
                match context.pending[i].result_digest {
                    Some(known) => if known == result_digest {
                        (s, Ok(()))
                    } else {
                        (s, Err("tool result identity conflicts with the committed result"@))
                    },
                    None => match context.continuation {
                        None => (s, Err("continuation of the pending tool results is absent"@)),
                        Some(_) => {
                            let pending = context.pending.update(
                                i,
                                PendingResultView {
                                    result_digest: Some(result_digest),
                                    ..context.pending[i]
                                },
                            );
                            (
                                ContextState {
                                    episodes: s.episodes.insert(
                                        episode_id,
                                        EpisodeContextView {
                                            pending,
                                            latest_input_digest: if results(pending) is Some {
                                                derived
                                            } else {
                                                context.latest_input_digest
                                            },
                                            ..context
                                        },
                                    ),
                                    ..s
                                },
                                Ok(()),
                            )
                        },
                    },
                }
            }
        },
    }
}

/// The basis of an episode's next turn once one more result is recorded.
pub open spec fn basis_behind(
    s: ContextState,
    episode_id: Seq<char>,
    native_call_id: Seq<char>,
    result_digest: Seq<char>,
) -> Option<BasisView> {
    let context = s.episodes[episode_id];
    if !s.episodes.dom().contains(episode_id) {
        None
    } else {
        match called(context.pending, native_call_id) {
            None => None,
            Some(i) => if context.pending[i].result_digest is Some {
                None
            } else {
                basis(
                    EpisodeContextView {
                        pending: context.pending.update(
                            i,
                            PendingResultView {
                                result_digest: Some(result_digest),
                                ..context.pending[i]
                            },
                        ),
                        ..context
                    },
                )
            },
        }
    }
}

/// The context store of one server process.
#[derive(Debug)]
pub struct ModelContextStore {
    artifacts: ArtifactVault,
    episodes: TextMap<EpisodeContext>,
    exchanges: TextMap<ModelExchangeIdentity>,
    limits: ContextLimits,
}

impl View for ModelContextStore {
    type V = ContextState;

    closed spec fn view(&self) -> ContextState {
        ContextState {
            artifacts: self.artifacts@,
            episodes: ordered::values(self.episodes@),
            exchanges: ordered::values(self.exchanges@),
            limits: self.limits,
        }
    }
}

pub open spec fn seen<T>(r: Result<T, String>) -> Result<T, Seq<char>> {
    match r {
        Ok(value) => Ok(value),
        Err(e) => Err(e@),
    }
}

fn all_results(pending: &Vec<PendingResult>) -> (r: Option<Vec<String>>)
    ensures
        match results(pending_result_views(pending@)) {
            Some(all) => r matches Some(found) && text::views(found@) == all,
            None => r is None,
        },
{
    let ghost views = pending_result_views(pending@);
    let mut out: Vec<String> = Vec::new();
    let mut i: usize = 0;
    while i < pending.len()
        invariant
            i <= pending@.len(),
            views == pending_result_views(pending@),
            out@.len() == i,
            forall|k: int| 0 <= k < i ==> views[k].result_digest == Some((#[trigger] out@[k])@),
        decreases pending@.len() - i,
    {
        match &pending[i].result_digest {
            Some(d) => {
                out.push(d.clone());
            },
            None => {
                assert(views[i as int].result_digest is None);
                return None;
            },
        }
        i += 1;
    }
    proof {
        assert forall|k: int| 0 <= k < views.len() implies (
        #[trigger] views[k]).result_digest is Some by {
            assert(views[k].result_digest == Some(out@[k]@));
        }
        assert(text::views(out@) =~= results(views)->0);
    }
    Some(out)
}

fn is_complete(pending: &Vec<PendingResult>, continuation: &NativeContinuation) -> (r: bool)
    ensures
        r == complete(pending_result_views(pending@), continuation@),
{
    let ghost views = pending_result_views(pending@);
    if pending.len() != continuation.pending_call_ids.len() {
        return false;
    }
    let mut i: usize = 0;
    while i < pending.len()
        invariant
            i <= pending@.len(),
            pending@.len() == continuation.pending_call_ids@.len(),
            views == pending_result_views(pending@),
            forall|k: int|
                0 <= k < i ==> (#[trigger] views[k]).native_call_id
                    == continuation@.pending_call_ids[k] && views[k].result_digest is Some,
        decreases pending@.len() - i,
    {
        let row = &pending[i];
        assert(views[i as int] == row@);
        if !text::same(
            row.native_call_id.as_str(),
            continuation.pending_call_ids[i].as_str(),
        ) || row.result_digest.is_none() {
            return false;
        }
        i += 1;
    }
    true
}

fn are_distinct(ids: &Vec<String>) -> (r: bool)
    ensures
        r == distinct(text::views(ids@)),
{
    let ghost views = text::views(ids@);
    let mut j: usize = 0;
    while j < ids.len()
        invariant
            j <= ids@.len(),
            views == text::views(ids@),
            forall|a: int, b: int| 0 <= a < b < j ==> #[trigger] views[a] != #[trigger] views[b],
        decreases ids@.len() - j,
    {
        let mut i: usize = 0;
        while i < j
            invariant
                i <= j < ids@.len(),
                views == text::views(ids@),
                forall|a: int, b: int|
                    0 <= a < b < j ==> #[trigger] views[a] != #[trigger] views[b],
                forall|a: int| 0 <= a < i ==> #[trigger] views[a] != views[j as int],
            decreases j - i,
        {
            if text::same(ids[i].as_str(), ids[j].as_str()) {
                assert(views[i as int] == views[j as int]);
                return false;
            }
            i += 1;
        }
        j += 1;
    }
    true
}

fn waiting_calls(ids: &Vec<String>) -> (r: Vec<PendingResult>)
    ensures
        pending_result_views(r@) == waiting(text::views(ids@)),
{
    let mut out: Vec<PendingResult> = Vec::new();
    let mut i: usize = 0;
    while i < ids.len()
        invariant
            i <= ids@.len(),
            out@.len() == i,
            forall|k: int|
                0 <= k < i ==> (#[trigger] out@[k]).native_call_id@ == ids@[k]@
                    && out@[k].result_digest is None,
        decreases ids@.len() - i,
    {
        out.push(PendingResult { native_call_id: ids[i].clone(), result_digest: None });
        i += 1;
    }
    assert(pending_result_views(out@) =~= waiting(text::views(ids@)));
    out
}

fn find_call(pending: &Vec<PendingResult>, native_call_id: &str) -> (r: Option<usize>)
    ensures
        match r {
            Some(i) => called(pending_result_views(pending@), native_call_id@) == Some(i as int)
                && i < pending@.len(),
            None => called(pending_result_views(pending@), native_call_id@) is None,
        },
{
    let ghost views = pending_result_views(pending@);
    let ghost wanted = |p: PendingResultView| p.native_call_id == native_call_id@;
    let mut i: usize = 0;
    while i < pending.len()
        invariant
            i <= pending@.len(),
            views == pending_result_views(pending@),
            wanted == (|p: PendingResultView| p.native_call_id == native_call_id@),
            forall|j: int| 0 <= j < i ==> !wanted(#[trigger] views[j]),
        decreases pending@.len() - i,
    {
        assert(views[i as int] == pending@[i as int]@);
        if text::same(pending[i].native_call_id.as_str(), native_call_id) {
            proof {
                ordered::first_is(views, wanted, i as int);
            }
            return Some(i);
        }
        i += 1;
    }
    proof {
        ordered::first_is_none(views, wanted);
    }
    None
}

impl ModelContextStore {
    pub fn new(limits: ContextLimits) -> (r: Self)
        ensures
            r@ == (ContextState {
                artifacts: Map::empty(),
                episodes: Map::empty(),
                exchanges: Map::empty(),
                limits,
            }),
    {
        let r = ModelContextStore {
            artifacts: ArtifactVault::new(),
            episodes: TextMap::new(),
            exchanges: TextMap::new(),
            limits,
        };
        assert(r@.episodes =~= Map::<Seq<char>, EpisodeContextView>::empty());
        assert(r@.exchanges =~= Map::<Seq<char>, ModelExchangeIdentityView>::empty());
        r
    }

    /// Keeps bytes under their digest.
    pub fn keep_artifact(&mut self, bytes: &[u8]) -> (r: Sha256Digest)
        ensures
            r@ == digest::digest_text(bytes@),
            final(self)@ == (ContextState {
                artifacts: vault::kept(old(self)@.artifacts, bytes@),
                ..old(self)@
            }),
    {
        self.artifacts.ingest(bytes)
    }

    /// The kept bytes.
    pub fn artifacts(&self) -> (r: &ArtifactVault)
        ensures
            r@ == self@.artifacts,
    {
        &self.artifacts
    }

    /// The context of an episode.
    pub fn episode(&self, episode_id: &str) -> (r: Option<&EpisodeContext>)
        ensures
            r is Some <==> self@.episodes.dom().contains(episode_id@),
            r matches Some(context) ==> context@ == self@.episodes[episode_id@],
    {
        self.episodes.get(episode_id)
    }

    fn put_episode(&mut self, episode_id: &str, context: EpisodeContext)
        ensures
            final(self)@ == (ContextState {
                episodes: old(self)@.episodes.insert(episode_id@, context@),
                ..old(self)@
            }),
    {
        let ghost before = self.episodes@;
        let _ = self.episodes.insert(episode_id.to_owned(), context);
        proof {
            ordered::values_insert(before, episode_id@, context);
        }
    }

    /// Creates the immutable first-turn context and gives its exact input identity.
    pub fn create_episode(
        &mut self,
        episode_id: &str,
        system_prompt: &str,
        initial_user_text: &str,
        tools_json: &[u8],
    ) -> (r: Result<Sha256Digest, String>)
        ensures
            ({
                let (t, created) = create(
                    old(self)@,
                    episode_id@,
                    system_prompt@,
                    initial_user_text@,
                    tools_json@,
                );
                &&& final(self)@ == t
                &&& match created {
                    Ok(identity) => r matches Ok(d) && d@ == identity,
                    Err(e) => r matches Err(error) && error@ == e,
                }
            }),
    {
        if text::is_blank(system_prompt) || text::is_blank(initial_user_text) {
            return Err("model context prompts must not be empty".to_owned());
        }
        let identity = initial_digest(system_prompt, initial_user_text, tools_json);
        if let Some(known) = self.episodes.get(episode_id) {
            if text::same(known.system_prompt.as_str(), system_prompt) && text::same(
                known.initial_user_text.as_str(),
                initial_user_text,
            ) && text::same_bytes(known.tools_json.as_slice(), tools_json) && text::same(
                known.initial_input_digest.as_str(),
                identity.as_str(),
            ) {
                return Ok(identity);
            }
            return Err(text::concat("model context conflicts for ", episode_id));
        }
        let context = EpisodeContext {
            system_prompt: system_prompt.to_owned(),
            initial_user_text: initial_user_text.to_owned(),
            tools_json: text::copy_bytes(tools_json),
            initial_input_digest: identity.as_str().to_owned(),
            latest_input_digest: identity.as_str().to_owned(),
            continuation: None,
            pending: Vec::new(),
        };
        assert(pending_result_views(context.pending@) =~= seq![]);
        self.put_episode(episode_id, context);
        Ok(identity)
    }

    fn read_result(&self, result_digest: &str) -> (r: Result<String, String>)
        ensures
            match result_text(self@, result_digest@) {
                Ok(output) => r matches Ok(found) && found@ == output,
                Err(e) => r matches Err(error) && error@ == e,
            },
    {
        let bytes = self.artifacts.open(result_digest, self.limits.max_tool_result_bytes)?;
        text::utf8_text(bytes.as_slice())
    }

    fn read_results(&self, pending: &Vec<PendingResult>) -> (r: Result<
        Vec<OwnedToolResult>,
        String,
    >)
        requires
            forall|i: int|
                0 <= i < pending@.len() ==> (#[trigger] pending@[i]).result_digest is Some,
        ensures
            match result_texts(self@, pending_result_views(pending@), pending@.len()) {
                Ok(found) => r matches Ok(out) && owned_tool_result_views(out@) == found,
                Err(e) => r matches Err(error) && error@ == e,
            },
    {
        let ghost views = pending_result_views(pending@);
        let mut out: Vec<OwnedToolResult> = Vec::new();
        let mut i: usize = 0;
        assert(owned_tool_result_views(out@) =~= seq![]);
        while i < pending.len()
            invariant
                i <= pending@.len(),
                views == pending_result_views(pending@),
                forall|i: int|
                    0 <= i < pending@.len() ==> (#[trigger] pending@[i]).result_digest is Some,
                result_texts(self@, views, i as nat) == Ok::<Seq<OwnedToolResultView>, Seq<char>>(
                    owned_tool_result_views(out@),
                ),
            decreases pending@.len() - i,
        {
            let row = &pending[i];
            assert(views[i as int] == row@);
            if let Some(result_digest) = &row.result_digest {
                match self.read_result(result_digest.as_str()) {
                    Err(error) => {
                        proof {
                            first_unreadable_result_stays(
                                self@,
                                views,
                                (i + 1) as nat,
                                pending@.len(),
                            );
                        }
                        return Err(error);
                    },
                    Ok(output) => {
                        let ghost before = out@;
                        let result = OwnedToolResult {
                            native_call_id: row.native_call_id.clone(),
                            output,
                        };
                        out.push(result);
                        assert(owned_tool_result_views(out@) =~= owned_tool_result_views(
                            before,
                        ).push(result@));
                    },
                }
            }
            i += 1;
        }
        Ok(out)
    }

    /// What the digest of an episode's next input is derived from, once every pending call has its
    /// result.
    pub fn continuation_basis(&self, episode_id: &str) -> (r: Option<ContinuationBasis>)
        ensures
            match r {
                Some(found) => self@.episodes.dom().contains(episode_id@) && basis(
                    self@.episodes[episode_id@],
                ) == Some(found@),
                None => self@.episodes.dom().contains(episode_id@) ==> basis(
                    self@.episodes[episode_id@],
                ) is None,
            },
    {
        let context = self.episodes.get(episode_id)?;
        let continuation = match &context.continuation {
            Some(continuation) => Sha256Digest::digest_bytes(
                continuation.canonical_bytes.as_slice(),
            ),
            None => {
                return None;
            },
        };
        match all_results(&context.pending) {
            Some(results) => Some(ContinuationBasis { continuation, results }),
            None => None,
        }
    }

    /// What the digest of an episode's next input is derived from once one more result is recorded:
    /// nothing while another call waits, nor where the result would not be recorded.
    pub fn basis_with(&self, episode_id: &str, native_call_id: &str, result_digest: &Sha256Digest) -> (r:
        Option<ContinuationBasis>)
        ensures
            match r {
                Some(found) => basis_behind(
                    self@,
                    episode_id@,
                    native_call_id@,
                    result_digest@,
                ) == Some(found@),
                None => basis_behind(
                    self@,
                    episode_id@,
                    native_call_id@,
                    result_digest@,
                ) is None,
            },
    {
        let mut context = self.episodes.get(episode_id)?.clone();
        let i = find_call(&context.pending, native_call_id)?;
        let continuation = match &context.continuation {
            Some(continuation) => Sha256Digest::digest_bytes(
                continuation.canonical_bytes.as_slice(),
            ),
            None => {
                return None;
            },
        };
        let ghost before = context@;
        assert(before.pending[i as int] == context.pending@[i as int]@);
        if context.pending[i].result_digest.is_some() {
            return None;
        }
        let row = PendingResult {
            native_call_id: context.pending[i].native_call_id.clone(),
            result_digest: Some(result_digest.as_str().to_owned()),
        };
        context.pending.set(i, row);
        assert(pending_result_views(context.pending@) =~= before.pending.update(i as int, row@));
        match all_results(&context.pending) {
            Some(results) => Some(ContinuationBasis { continuation, results }),
            None => None,
        }
    }

    /// Loads the input whose digest a durable request names. `derived` is the digest of a later
    /// turn's input, as its basis gives it; a first turn has no use for it.
    pub fn load(&self, request: &ModelTurnRequest, derived: &Sha256Digest) -> (r: Result<
        ProviderTurnInput,
        String,
    >)
        ensures
            match load(self@, request@, derived@) {
                Ok(input) => r matches Ok(found) && found@ == input,
                Err(e) => r matches Err(error) && error@ == e,
            },
    {
        let context = match self.episodes.get(request.episode_id.as_str()) {
            Some(context) => context,
            None => {
                return Err(
                    text::concat("model context is absent for ", request.episode_id.as_str()),
                );
            },
        };
        if !text::same(request.input_digest.as_str(), context.latest_input_digest.as_str()) {
            return Err(
                "model request input identity does not match durable context".to_owned(),
            );
        }
        let continuation = match &context.continuation {
            Some(continuation) => continuation,
            None => {
                if !text::same(
                    request.input_digest.as_str(),
                    context.initial_input_digest.as_str(),
                ) {
                    return Err("initial model context identity changed".to_owned());
                }
                let tool_results: Vec<OwnedToolResult> = Vec::new();
                assert(owned_tool_result_views(tool_results@) =~= seq![]);
                return Ok(
                    ProviderTurnInput {
                        system_prompt: context.system_prompt.clone(),
                        initial_user_text: Some(context.initial_user_text.clone()),
                        continuation: None,
                        tool_results,
                        tools_json: text::copy_bytes(context.tools_json.as_slice()),
                    },
                );
            },
        };
        let identity = Sha256Digest::digest_bytes(continuation.canonical_bytes.as_slice());
        let _ = self.artifacts.open(identity.as_str(), self.limits.max_continuation_bytes)?;
        if !is_complete(&context.pending, continuation) {
            return Err(
                "provider continuation has incomplete or mismatched tool results".to_owned(),
            );
        }
        proof {
            let views = pending_result_views(context.pending@);
            assert forall|i: int| 0 <= i < context.pending@.len() implies (
            #[trigger] context.pending@[i]).result_digest is Some by {
                assert(views[i].result_digest is Some);
            }
            assert(pending_result_views(context.pending@).len() == context.pending@.len());
        }
        let tool_results = self.read_results(&context.pending)?;
        if !derived.same(&request.input_digest) {
            return Err("model continuation input digest does not bind its results".to_owned());
        }
        Ok(
            ProviderTurnInput {
                system_prompt: context.system_prompt.clone(),
                initial_user_text: None,
                continuation: Some(continuation.clone()),
                tool_results,
                tools_json: text::copy_bytes(context.tools_json.as_slice()),
            },
        )
    }

    fn is_turn_taken(&self, episode_id: &str, turn_index: u32) -> (r: bool)
        ensures
            r == turn_taken(self@.exchanges, episode_id@, turn_index),
    {
        let count = self.exchanges.len();
        let mut i: usize = 0;
        while i < count
            invariant
                i <= count == self.exchanges.keys().len(),
                ordered::lists(self.exchanges@, self.exchanges.keys()),
                forall|j: int|
                    0 <= j < i ==> self@.exchanges[#[trigger] self.exchanges.keys()[j]].episode_id
                        != episode_id@ || self@.exchanges[self.exchanges.keys()[j]].turn_index
                        != turn_index,
            decreases count - i,
        {
            let row = self.exchanges.value_at(i);
            let ghost key = self.exchanges.keys()[i as int];
            assert(self@.exchanges.dom().contains(key) && self@.exchanges[key] == row@);
            if row.turn_index == turn_index && text::same(row.episode_id.as_str(), episode_id) {
                return true;
            }
            i += 1;
        }
        proof {
            assert forall|k: Seq<char>| #[trigger] self@.exchanges.dom().contains(k) implies (
            self@.exchanges[k].episode_id != episode_id@ || self@.exchanges[k].turn_index
                != turn_index) by {
                assert(self.exchanges@.dom().contains(k));
                assert(self.exchanges.keys().contains(k));
            }
        }
        false
    }

    /// Commits raw bytes and continuation before the turn is given to the loop.
    pub fn commit(&mut self, request: &ModelTurnRequest, exchange: &ProviderTurnExchange) -> (r:
        Result<(), String>)
        ensures
            (final(self)@, seen(r)) == commit(old(self)@, request@, exchange@),
    {
        let continuation = &exchange.native_continuation;
        let continuation_digest = self.artifacts.ingest(continuation.canonical_bytes.as_slice());
        if !continuation_digest.same(&exchange.native_continuation_digest) {
            return Err("provider continuation identity changed before commit".to_owned());
        }
        let request_digest = self.artifacts.ingest(exchange.request_body.as_slice());
        let response_digest = self.artifacts.ingest(exchange.response_body.as_slice());
        if !response_digest.same(&exchange.raw_exchange_digest) {
            return Err("provider response identity changed before commit".to_owned());
        }
        let identity = ModelExchangeIdentity {
            episode_id: request.episode_id.clone(),
            turn_index: request.turn_index,
            input_digest: request.input_digest.as_str().to_owned(),
            request_digest: request_digest.as_str().to_owned(),
            response_digest: response_digest.as_str().to_owned(),
            continuation_digest: continuation_digest.as_str().to_owned(),
            provider_request_id: text::copy_optional(&exchange.provider_request_id),
            actual_model: text::copy_optional(&exchange.actual_model),
        };
        assert(identity@ == exchange_identity(request@, exchange@));
        if let Some(known) = self.exchanges.get(request.attempt_id.as_str()) {
            if known.same(&identity) {
                return Ok(());
            }
            return Err("model attempt exchange conflicts with its committed bytes".to_owned());
        }
        let mut context = match self.episodes.get(request.episode_id.as_str()) {
            Some(context) => context.clone(),
            None => {
                return Err("model exchange does not match current durable input".to_owned());
            },
        };
        if !text::same(context.latest_input_digest.as_str(), request.input_digest.as_str()) {
            return Err("model exchange does not match current durable input".to_owned());
        }
        if request.turn_index == 0 {
            return Err("CHECK constraint failed: turn_index > 0".to_owned());
        }
        if self.is_turn_taken(request.episode_id.as_str(), request.turn_index) {
            return Err(
                "UNIQUE constraint failed: model_turn_exchanges.episode_id, model_turn_exchanges.turn_index".to_owned(),
            );
        }
        if !are_distinct(&continuation.pending_call_ids) {
            return Err(
                "UNIQUE constraint failed: model_pending_tool_results.episode_id, model_pending_tool_results.native_call_id".to_owned(),
            );
        }
        let ghost before = self.exchanges@;
        let _ = self.exchanges.insert(request.attempt_id.clone(), identity);
        proof {
            ordered::values_insert(before, request.attempt_id@, identity);
        }
        context.continuation = Some(continuation.clone());
        context.pending = waiting_calls(&continuation.pending_call_ids);
        self.put_episode(request.episode_id.as_str(), context);
        Ok(())
    }

    /// Keeps the result of a pending tool call. `derived` is the digest of the episode's next input,
    /// as `basis_with` gives its basis; while another call waits it counts for nothing.
    pub fn record_tool_result(
        &mut self,
        episode_id: &str,
        native_call_id: &str,
        result_digest: &Sha256Digest,
        derived: &Sha256Digest,
    ) -> (r: Result<(), String>)
        ensures
            (final(self)@, seen(r)) == record_result(
                old(self)@,
                episode_id@,
                native_call_id@,
                result_digest@,
                derived@,
            ),
    {
        let _ = self.read_result(result_digest.as_str())?;
        let mut context = match self.episodes.get(episode_id) {
            Some(context) => context.clone(),
            None => {
                return Err("tool result does not belong to the pending continuation".to_owned());
            },
        };
        let i = match find_call(&context.pending, native_call_id) {
            Some(i) => i,
            None => {
                return Err("tool result does not belong to the pending continuation".to_owned());
            },
        };
        let ghost before = context@;
        assert(before.pending[i as int] == context.pending@[i as int]@);
        if let Some(known) = &context.pending[i].result_digest {
            if text::same(known.as_str(), result_digest.as_str()) {
                return Ok(());
            }
            return Err("tool result identity conflicts with the committed result".to_owned());
        }
        if context.continuation.is_none() {
            return Err("continuation of the pending tool results is absent".to_owned());
        }
        let row = PendingResult {
            native_call_id: context.pending[i].native_call_id.clone(),
            result_digest: Some(result_digest.as_str().to_owned()),
        };
        context.pending.set(i, row);
        assert(pending_result_views(context.pending@) =~= before.pending.update(i as int, row@));
        if all_results(&context.pending).is_some() {
            context.latest_input_digest = derived.as_str().to_owned();
        }
        self.put_episode(episode_id, context);
        Ok(())
    }
}

/// A first-turn context that is created again is the same one.
pub proof fn creation_is_idempotent(
    s: ContextState,
    episode_id: Seq<char>,
    system_prompt: Seq<char>,
    user_text: Seq<char>,
    tools: Seq<u8>,
)
    requires
        create(s, episode_id, system_prompt, user_text, tools).1 is Ok,
    ensures
        ({
            let (t, r) = create(s, episode_id, system_prompt, user_text, tools);
            create(t, episode_id, system_prompt, user_text, tools) == (t, r)
        }),
{
}

/// The first turn of a fresh episode reads back its prompts and tools.
pub proof fn first_turns_read_back(
    s: ContextState,
    request: ModelTurnRequestView,
    system_prompt: Seq<char>,
    user_text: Seq<char>,
    tools: Seq<u8>,
    derived: Seq<char>,
)
    requires
        !s.episodes.dom().contains(request.episode_id),
        create(s, request.episode_id, system_prompt, user_text, tools).1 == Ok::<
            Seq<char>,
            Seq<char>,
        >(request.input_digest),
    ensures
        load(
            create(s, request.episode_id, system_prompt, user_text, tools).0,
            request,
            derived,
        ) == Ok::<ProviderTurnInputView, Seq<char>>(
            ProviderTurnInputView {
                system_prompt,
                initial_user_text: Some(user_text),
                continuation: None,
                tool_results: seq![],
                tools_json: tools,
            },
        ),
{
}

/// An exchange that was committed can be committed again, and changes nothing.
pub proof fn commits_are_idempotent(
    s: ContextState,
    request: ModelTurnRequestView,
    exchange: ProviderTurnExchangeView,
)
    requires
        commit(s, request, exchange).1 is Ok,
    ensures
        ({
            let t = commit(s, request, exchange).0;
            commit(t, request, exchange) == (t, Ok::<(), Seq<char>>(()))
        }),
{
    let t = commit(s, request, exchange).0;
    vault::keeping_is_idempotent(
        s.artifacts,
        exchange.native_continuation.canonical_bytes,
        exchange.request_body,
        exchange.response_body,
    );
}

/// An attempt's exchange was committed.
pub open spec fn is_committed(
    s: ContextState,
    request: ModelTurnRequestView,
    exchange: ProviderTurnExchangeView,
) -> bool {
    s.exchanges.dom().contains(request.attempt_id) && s.exchanges[request.attempt_id]
        == exchange_identity(request, exchange)
}

/// Every exchange of `s` is an exchange of `t`.
pub open spec fn keeps_exchanges(s: ContextState, t: ContextState) -> bool {
    forall|k: Seq<char>| #[trigger]
        s.exchanges.dom().contains(k) ==> t.exchanges.dom().contains(k) && t.exchanges[k]
            == s.exchanges[k]
}

/// No operation takes a committed exchange back, and a commit that succeeds leaves one.
pub proof fn exchanges_are_kept(
    s: ContextState,
    request: ModelTurnRequestView,
    exchange: ProviderTurnExchangeView,
    episode_id: Seq<char>,
    native_call_id: Seq<char>,
    result_digest: Seq<char>,
    derived: Seq<char>,
    system_prompt: Seq<char>,
    user_text: Seq<char>,
    tools: Seq<u8>,
)
    ensures
        keeps_exchanges(s, commit(s, request, exchange).0),
        commit(s, request, exchange).1 is Ok ==> is_committed(
            commit(s, request, exchange).0,
            request,
            exchange,
        ),
        keeps_exchanges(
            s,
            record_result(s, episode_id, native_call_id, result_digest, derived).0,
        ),
        keeps_exchanges(s, create(s, episode_id, system_prompt, user_text, tools).0),
{
}

/// A committed exchange can be committed again at any later time, whatever results were recorded
/// since, and changes no exchange and no episode.
pub proof fn committed_exchanges_can_be_repeated(
    s: ContextState,
    t: ContextState,
    request: ModelTurnRequestView,
    exchange: ProviderTurnExchangeView,
)
    requires
        commit(s, request, exchange).1 is Ok,
        keeps_exchanges(commit(s, request, exchange).0, t),
    ensures
        ({
            let (u, r) = commit(t, request, exchange);
            &&& r is Ok
            &&& u.exchanges == t.exchanges
            &&& u.episodes == t.episodes
        }),
{
    assert(commit(s, request, exchange).0.exchanges.dom().contains(request.attempt_id));
}

/// Something of an exchange is another: the turn, its input, the content of one of its documents,
/// the provider's request, or the model.
pub open spec fn differs(
    request: ModelTurnRequestView,
    exchange: ProviderTurnExchangeView,
    other_request: ModelTurnRequestView,
    other: ProviderTurnExchangeView,
) -> bool {
    ||| other_request.episode_id != request.episode_id
    ||| other_request.turn_index != request.turn_index
    ||| other_request.input_digest != request.input_digest
    ||| digest::digest_text(other.request_body) != digest::digest_text(exchange.request_body)
    ||| digest::digest_text(other.response_body) != digest::digest_text(exchange.response_body)
    ||| digest::digest_text(other.native_continuation.canonical_bytes) != digest::digest_text(
        exchange.native_continuation.canonical_bytes,
    )
    ||| other.provider_request_id != exchange.provider_request_id
    ||| other.actual_model != exchange.actual_model
}

/// An attempt cannot commit two different exchanges, however much later the second comes: it is
/// refused and changes no exchange and no episode. Contents are told apart by their digests.
pub proof fn committed_exchanges_stay(
    s: ContextState,
    t: ContextState,
    request: ModelTurnRequestView,
    exchange: ProviderTurnExchangeView,
    other_request: ModelTurnRequestView,
    other: ProviderTurnExchangeView,
)
    requires
        commit(s, request, exchange).1 is Ok,
        keeps_exchanges(commit(s, request, exchange).0, t),
        other_request.attempt_id == request.attempt_id,
        differs(request, exchange, other_request, other),
    ensures
        ({
            let (u, r) = commit(t, other_request, other);
            &&& r is Err
            &&& u.exchanges == t.exchanges
            &&& u.episodes == t.episodes
        }),
{
    assert(commit(s, request, exchange).0.exchanges.dom().contains(request.attempt_id));
}

/// A result is kept once: the same one again changes nothing, another one is refused.
pub proof fn results_are_kept_once(
    s: ContextState,
    episode_id: Seq<char>,
    native_call_id: Seq<char>,
    result_digest: Seq<char>,
    other: Seq<char>,
    derived: Seq<char>,
    later: Seq<char>,
)
    requires
        record_result(s, episode_id, native_call_id, result_digest, derived).1 is Ok,
        other != result_digest,
    ensures
        ({
            let t = record_result(s, episode_id, native_call_id, result_digest, derived).0;
            &&& record_result(t, episode_id, native_call_id, result_digest, later) == (
                t,
                Ok::<(), Seq<char>>(()),
            )
            &&& record_result(t, episode_id, native_call_id, other, later).0 == t
            &&& record_result(t, episode_id, native_call_id, other, later).1 is Err
        }),
{
    let t = record_result(s, episode_id, native_call_id, result_digest, derived).0;
    let before = s.episodes[episode_id].pending;
    let after = t.episodes[episode_id].pending;
    let wanted = |p: PendingResultView| p.native_call_id == native_call_id;
    ordered::first_found(before, wanted);
    let i = called(before, native_call_id)->0;
    assert forall|j: int| 0 <= j < i implies !wanted(#[trigger] after[j]) by {
        assert(after[j] == before[j]);
    }
    ordered::first_is(after, wanted, i);
    assert(t.limits == s.limits && t.artifacts == s.artifacts);
}

/// How the digest of a later turn's input is derived from its basis.
pub type Derivation = spec_fn(BasisView) -> Seq<char>;

/// What holds of the context of every episode: without a continuation its input is the first one
/// and nothing is pending; with one, the pending calls are those of the continuation, and once
/// each has a result, the input binds the continuation and the results.
pub open spec fn bound(context: EpisodeContextView, derive: Derivation) -> bool {
    match context.continuation {
        None => context.latest_input_digest == context.initial_input_digest && context.pending.len()
            == 0,
        Some(continuation) => {
            &&& context.pending.len() == continuation.pending_call_ids.len()
            &&& forall|i: int|
                0 <= i < context.pending.len() ==> (#[trigger] context.pending[i]).native_call_id
                    == continuation.pending_call_ids[i]
            &&& context.pending.len() > 0 && basis(context) is Some ==> context.latest_input_digest
                == derive(basis(context)->0)
        },
    }
}

pub open spec fn sound(s: ContextState, derive: Derivation) -> bool {
    forall|k: Seq<char>| #[trigger] s.episodes.dom().contains(k) ==> bound(s.episodes[k], derive)
}

/// Every operation keeps the store sound, provided that the digest of each next input is derived
/// from its basis, always in the same way.
pub proof fn operations_are_sound(
    s: ContextState,
    derive: Derivation,
    episode_id: Seq<char>,
    system_prompt: Seq<char>,
    user_text: Seq<char>,
    tools: Seq<u8>,
    request: ModelTurnRequestView,
    exchange: ProviderTurnExchangeView,
    native_call_id: Seq<char>,
    result_digest: Seq<char>,
    derived: Seq<char>,
)
    requires
        sound(s, derive),
        basis_behind(s, episode_id, native_call_id, result_digest) matches Some(b) ==> derived
            == derive(b),
    ensures
        sound(create(s, episode_id, system_prompt, user_text, tools).0, derive),
        sound(commit(s, request, exchange).0, derive),
        sound(record_result(s, episode_id, native_call_id, result_digest, derived).0, derive),
{
    let committed = commit(s, request, exchange).0;
    if committed.episodes != s.episodes {
        let pending = waiting(exchange.native_continuation.pending_call_ids);
        if pending.len() > 0 {
            assert(pending[0].result_digest is None);
        }
    }
    let t = record_result(s, episode_id, native_call_id, result_digest, derived).0;
    if t != s {
        let before = s.episodes[episode_id];
        let after = t.episodes[episode_id];
        let wanted = |p: PendingResultView| p.native_call_id == native_call_id;
        ordered::first_found(before.pending, wanted);
        assert(bound(before, derive));
        let i = called(before.pending, native_call_id)->0;
        assert forall|j: int| 0 <= j < after.pending.len() implies (
        #[trigger] after.pending[j]).native_call_id == before.pending[j].native_call_id by {}
        assert(basis(after) == basis_behind(s, episode_id, native_call_id, result_digest));
        assert(bound(after, derive));
        assert forall|k: Seq<char>| #[trigger] t.episodes.dom().contains(k) implies bound(
            t.episodes[k],
            derive,
        ) by {
            if k != episode_id {
                assert(s.episodes.dom().contains(k));
            }
        }
    }
}

/// Once every pending call has a result that can be read, the episode's next turn reads back
/// exactly the continuation and the results, in the order of the calls.
pub proof fn later_turns_read_back(
    s: ContextState,
    derive: Derivation,
    request: ModelTurnRequestView,
)
    requires
        sound(s, derive),
        s.episodes.dom().contains(request.episode_id),
        s.episodes[request.episode_id].continuation is Some,
        s.episodes[request.episode_id].pending.len() > 0,
        results(s.episodes[request.episode_id].pending) is Some,
        request.input_digest == s.episodes[request.episode_id].latest_input_digest,
        vault::readable(
            s.artifacts,
            digest::digest_text(
                s.episodes[request.episode_id].continuation->0.canonical_bytes,
            ),
            s.limits.max_continuation_bytes,
        ) is Ok,
        result_texts(
            s,
            s.episodes[request.episode_id].pending,
            s.episodes[request.episode_id].pending.len(),
        ) is Ok,
    ensures
        ({
            let context = s.episodes[request.episode_id];
            load(s, request, derive(basis(context)->0)) == Ok::<ProviderTurnInputView, Seq<char>>(
                ProviderTurnInputView {
                    system_prompt: context.system_prompt,
                    initial_user_text: None,
                    continuation: context.continuation,
                    tool_results: result_texts(s, context.pending, context.pending.len())->Ok_0,
                    tools_json: context.tools_json,
                },
            )
        }),
{
    let context = s.episodes[request.episode_id];
    assert(bound(context, derive));
    assert forall|i: int| 0 <= i < context.pending.len() implies (
    #[trigger] context.pending[i]).result_digest is Some by {}
}

} // verus!
