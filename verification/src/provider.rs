//! One provider turn: what is asked, what an answer comes to, and what is kept of it.
pub mod conduct;

use crate::contexts;
use crate::contexts::{
    ContextState, ModelContextStore, ModelTurnRequest, ModelTurnRequestView, NativeContinuation,
    NativeContinuationView, ProviderTurnExchange, ProviderTurnExchangeView, ProviderTurnInput,
    ProviderTurnInputView,
};
use crate::digest;
use crate::digest::Sha256Digest;
use crate::identity;
use crate::json::JsonValue;
use crate::text;
use crate::transport::{
    ModelTransportOutcome, ModelTransportRetryHint, OutcomeView, RawModelResponse,
    RawModelResponseView,
};
use crate::vault;
use vstd::prelude::*;
use vstd::string::*;

verus! {

/// What a codec reads in an answer.
#[derive(Debug, PartialEq, Eq)]
pub struct DecodedTurn {
    pub turn: JsonValue,
    pub native_continuation: NativeContinuation,
    pub actual_model: Option<String>,
}

pub ghost struct DecodedTurnView {
    pub turn: Seq<char>,
    pub native_continuation: NativeContinuationView,
    pub actual_model: Option<Seq<char>>,
}

impl View for DecodedTurn {
    type V = DecodedTurnView;

    open spec fn view(&self) -> DecodedTurnView {
        DecodedTurnView {
            turn: self.turn@,
            native_continuation: self.native_continuation@,
            actual_model: text::optional(self.actual_model),
        }
    }
}

/// A turn as the agent loop gets it, with the identities of what was exchanged.
#[derive(Debug, PartialEq, Eq)]
pub struct GatewayTurnExchange {
    pub turn: JsonValue,
    pub raw_exchange_digest: Sha256Digest,
    pub native_continuation_digest: Sha256Digest,
}

pub ghost struct GatewayTurnExchangeView {
    pub turn: Seq<char>,
    pub raw_exchange_digest: Seq<char>,
    pub native_continuation_digest: Seq<char>,
}

impl View for GatewayTurnExchange {
    type V = GatewayTurnExchangeView;

    open spec fn view(&self) -> GatewayTurnExchangeView {
        GatewayTurnExchangeView {
            turn: self.turn@,
            raw_exchange_digest: self.raw_exchange_digest@,
            native_continuation_digest: self.native_continuation_digest@,
        }
    }
}

/// A turn with the exact exchange behind it.
#[derive(Debug, PartialEq, Eq)]
pub struct SuccessfulTurn {
    pub turn: JsonValue,
    pub exchange: ProviderTurnExchange,
}

pub ghost struct SuccessfulTurnView {
    pub turn: Seq<char>,
    pub exchange: ProviderTurnExchangeView,
}

impl View for SuccessfulTurn {
    type V = SuccessfulTurnView;

    open spec fn view(&self) -> SuccessfulTurnView {
        SuccessfulTurnView {
            turn: self.turn@,
            exchange: self.exchange@,
        }
    }
}

/// Where the next turn starts from.
#[derive(Debug, PartialEq, Eq)]
pub enum ContinuationStep {
    /// From nothing.
    Fresh,
    /// From the stored continuation as it is.
    Resume(NativeContinuation),
    /// From the stored continuation with the tool results appended by the codec.
    Append,
}

pub ghost enum ContinuationStepView {
    Fresh,
    Resume(NativeContinuationView),
    Append,
}

impl View for ContinuationStep {
    type V = ContinuationStepView;

    open spec fn view(&self) -> ContinuationStepView {
        match *self {
            ContinuationStep::Fresh => ContinuationStepView::Fresh,
            ContinuationStep::Resume(c) => ContinuationStepView::Resume(c@),
            ContinuationStep::Append => ContinuationStepView::Append,
        }
    }
}

/// Tool results that belong to no call.
#[derive(Clone, Copy, Debug, PartialEq, Eq, Structural)]
pub struct ToolResultMismatch;

/// Where the next turn starts from; results without a continuation belong to no call.
pub open spec fn continuation_step(input: ProviderTurnInputView) -> Result<
    ContinuationStepView,
    ToolResultMismatch,
> {
    match input.continuation {
        None => if input.tool_results.len() == 0 {
            Ok(ContinuationStepView::Fresh)
        } else {
            Err(ToolResultMismatch)
        },
        Some(continuation) => if input.tool_results.len() == 0 {
            Ok(ContinuationStepView::Resume(continuation))
        } else {
            Ok(ContinuationStepView::Append)
        },
    }
}

/// Where the next turn starts from.
pub fn continuation_with_results(input: &ProviderTurnInput) -> (r: Result<
    ContinuationStep,
    ToolResultMismatch,
>)
    ensures
        match continuation_step(input@) {
            Ok(step) => r matches Ok(found) && found@ == step,
            Err(e) => r matches Err(error) && error == e,
        },
{
    assert(input@.tool_results.len() == input.tool_results@.len());
    match &input.continuation {
        None => {
            if input.tool_results.len() == 0 {
                return Ok(ContinuationStep::Fresh);
            }
            Err(ToolResultMismatch)
        },
        Some(continuation) => {
            if input.tool_results.len() == 0 {
                return Ok(ContinuationStep::Resume(continuation.clone()));
            }
            Ok(ContinuationStep::Append)
        },
    }
}

/// What one invocation of a provider came to.
#[derive(Debug, PartialEq, Eq)]
pub enum ProviderSdkOutcome {
    Turn(SuccessfulTurn),
    ConfirmedNotSent { diagnostic: String },
    Rejected { response_digest: Sha256Digest, diagnostic: String, retryable: bool },
    DecodeFailed { response_digest: Sha256Digest, diagnostic: String },
    Ambiguous { diagnostic: String },
}

pub ghost enum SdkOutcomeView {
    Turn(SuccessfulTurnView),
    ConfirmedNotSent { diagnostic: Seq<char> },
    Rejected { response_digest: Seq<char>, diagnostic: Seq<char>, retryable: bool },
    DecodeFailed { response_digest: Seq<char>, diagnostic: Seq<char> },
    Ambiguous { diagnostic: Seq<char> },
}

impl View for ProviderSdkOutcome {
    type V = SdkOutcomeView;

    open spec fn view(&self) -> SdkOutcomeView {
        match *self {
            ProviderSdkOutcome::Turn(turn) => SdkOutcomeView::Turn(turn@),
            ProviderSdkOutcome::ConfirmedNotSent { diagnostic } =>
                SdkOutcomeView::ConfirmedNotSent { diagnostic: diagnostic@ },
            ProviderSdkOutcome::Rejected { response_digest, diagnostic, retryable } =>
                SdkOutcomeView::Rejected {
                response_digest: response_digest@,
                diagnostic: diagnostic@,
                retryable,
            },
            ProviderSdkOutcome::DecodeFailed { response_digest, diagnostic } =>
                SdkOutcomeView::DecodeFailed {
                response_digest: response_digest@,
                diagnostic: diagnostic@,
            },
            ProviderSdkOutcome::Ambiguous { diagnostic } => SdkOutcomeView::Ambiguous {
                diagnostic: diagnostic@,
            },
        }
    }
}

/// What follows a dispatch: an answer to be decoded, or the end of the turn.
#[derive(Debug, PartialEq, Eq)]
pub enum DispatchStep {
    Decode(RawModelResponse),
    Done(ProviderSdkOutcome),
}

pub ghost enum DispatchStepView {
    Decode(RawModelResponseView),
    Done(SdkOutcomeView),
}

impl View for DispatchStep {
    type V = DispatchStepView;

    open spec fn view(&self) -> DispatchStepView {
        match *self {
            DispatchStep::Decode(response) => DispatchStepView::Decode(response@),
            DispatchStep::Done(outcome) => DispatchStepView::Done(outcome@),
        }
    }
}

pub open spec fn dispatched(outcome: OutcomeView) -> DispatchStepView {
    match outcome {
        OutcomeView::Response(response) => DispatchStepView::Decode(response),
        OutcomeView::ConfirmedNotSent(failure) => DispatchStepView::Done(
            SdkOutcomeView::ConfirmedNotSent { diagnostic: failure.diagnostic },
        ),
        OutcomeView::ProviderRejected { response, failure } => DispatchStepView::Done(
            SdkOutcomeView::Rejected {
                response_digest: digest::digest_text(response.body),
                diagnostic: failure.diagnostic,
                retryable: failure.retry_hint != ModelTransportRetryHint::Never,
            },
        ),
        OutcomeView::Ambiguous { failure, .. } => DispatchStepView::Done(
            SdkOutcomeView::Ambiguous { diagnostic: failure.diagnostic },
        ),
    }
}

/// What follows a dispatch.
pub fn after_dispatch(outcome: ModelTransportOutcome) -> (r: DispatchStep)
    ensures
        r@ == dispatched(outcome@),
{
    match outcome {
        ModelTransportOutcome::Response(response) => DispatchStep::Decode(response),
        ModelTransportOutcome::ConfirmedNotSent(failure) => DispatchStep::Done(
            ProviderSdkOutcome::ConfirmedNotSent { diagnostic: failure.diagnostic },
        ),
        ModelTransportOutcome::ProviderRejected { response, failure } => {
            let retryable = match failure.retry_hint {
                ModelTransportRetryHint::Never => false,
                _ => true,
            };
            DispatchStep::Done(
                ProviderSdkOutcome::Rejected {
                    response_digest: Sha256Digest::digest_bytes(response.body.as_slice()),
                    diagnostic: failure.diagnostic,
                    retryable,
                },
            )
        },
        ModelTransportOutcome::Ambiguous { response: _, failure } => DispatchStep::Done(
            ProviderSdkOutcome::Ambiguous { diagnostic: failure.diagnostic },
        ),
    }
}

/// A step that failed before anything was sent.
pub fn confirmed_not_sent(diagnostic: String) -> (r: ProviderSdkOutcome)
    ensures
        r@ == (SdkOutcomeView::ConfirmedNotSent { diagnostic: diagnostic@ }),
{
    ProviderSdkOutcome::ConfirmedNotSent { diagnostic }
}

/// What an answer comes to, once the codec has read it or failed to.
pub open spec fn decoded(
    request_body: Seq<u8>,
    response: RawModelResponseView,
    read: Result<DecodedTurn, String>,
) -> SdkOutcomeView {
    let response_digest = digest::digest_text(response.body);
    match read {
        Err(e) => SdkOutcomeView::DecodeFailed { response_digest, diagnostic: e@ },
        Ok(found) => SdkOutcomeView::Turn(
            SuccessfulTurnView {
                turn: found.turn@,
                exchange: ProviderTurnExchangeView {
                    raw_exchange_digest: response_digest,
                    native_continuation_digest: digest::digest_text(
                        found.native_continuation@.canonical_bytes,
                    ),
                    request_body,
                    response_body: response.body,
                    native_continuation: found.native_continuation@,
                    provider_request_id: response.provider_request_id,
                    actual_model: text::optional(found.actual_model),
                },
            },
        ),
    }
}

/// What an answer comes to.
pub fn decode(
    request_body: Vec<u8>,
    response: RawModelResponse,
    read: Result<DecodedTurn, String>,
) -> (r: ProviderSdkOutcome)
    ensures
        r@ == decoded(request_body@, response@, read),
{
    let response_digest = Sha256Digest::digest_bytes(response.body.as_slice());
    match read {
        Err(diagnostic) => ProviderSdkOutcome::DecodeFailed { response_digest, diagnostic },
        Ok(found) => {
            let continuation_digest = Sha256Digest::digest_bytes(
                found.native_continuation.canonical_bytes.as_slice(),
            );
            ProviderSdkOutcome::Turn(
                SuccessfulTurn {
                    turn: found.turn,
                    exchange: ProviderTurnExchange {
                        raw_exchange_digest: response_digest,
                        native_continuation_digest: continuation_digest,
                        request_body,
                        response_body: response.body,
                        native_continuation: found.native_continuation,
                        provider_request_id: response.provider_request_id,
                        actual_model: found.actual_model,
                    },
                },
            )
        },
    }
}

/// What the agent loop gets.
#[derive(Debug, PartialEq, Eq)]
pub enum ModelGatewayOutcome {
    Turn(GatewayTurnExchange),
    ConfirmedNotSent { diagnostic: String, diagnostic_digest: Option<Sha256Digest> },
    Rejected {
        response_digest: Sha256Digest,
        diagnostic: String,
        diagnostic_digest: Option<Sha256Digest>,
        retryable: bool,
    },
    DecodeFailed {
        response_digest: Sha256Digest,
        diagnostic: String,
        diagnostic_digest: Option<Sha256Digest>,
    },
    Ambiguous { diagnostic: String, diagnostic_digest: Option<Sha256Digest> },
}

pub ghost enum GatewayOutcomeView {
    Turn(GatewayTurnExchangeView),
    ConfirmedNotSent { diagnostic: Seq<char>, diagnostic_digest: Option<Seq<char>> },
    Rejected {
        response_digest: Seq<char>,
        diagnostic: Seq<char>,
        diagnostic_digest: Option<Seq<char>>,
        retryable: bool,
    },
    DecodeFailed {
        response_digest: Seq<char>,
        diagnostic: Seq<char>,
        diagnostic_digest: Option<Seq<char>>,
    },
    Ambiguous { diagnostic: Seq<char>, diagnostic_digest: Option<Seq<char>> },
}

impl View for ModelGatewayOutcome {
    type V = GatewayOutcomeView;

    open spec fn view(&self) -> GatewayOutcomeView {
        match *self {
            ModelGatewayOutcome::Turn(exchange) => GatewayOutcomeView::Turn(exchange@),
            ModelGatewayOutcome::ConfirmedNotSent { diagnostic, diagnostic_digest } =>
                GatewayOutcomeView::ConfirmedNotSent {
                diagnostic: diagnostic@,
                diagnostic_digest: identity::optional_digest(diagnostic_digest),
            },
            ModelGatewayOutcome::Rejected {
                response_digest,
                diagnostic,
                diagnostic_digest,
                retryable,
            } => GatewayOutcomeView::Rejected {
                response_digest: response_digest@,
                diagnostic: diagnostic@,
                diagnostic_digest: identity::optional_digest(diagnostic_digest),
                retryable,
            },
            ModelGatewayOutcome::DecodeFailed { response_digest, diagnostic, diagnostic_digest } =>
                GatewayOutcomeView::DecodeFailed {
                response_digest: response_digest@,
                diagnostic: diagnostic@,
                diagnostic_digest: identity::optional_digest(diagnostic_digest),
            },
            ModelGatewayOutcome::Ambiguous { diagnostic, diagnostic_digest } =>
                GatewayOutcomeView::Ambiguous {
                diagnostic: diagnostic@,
                diagnostic_digest: identity::optional_digest(diagnostic_digest),
            },
        }
    }
}

/// The bytes of a diagnostic.
pub open spec fn explanation(diagnostic: Seq<char>) -> Seq<u8> {
    vstd::utf8::encode_utf8(diagnostic)
}

/// Keeps the explanation of a failure, so that what is recorded of it can be read, unless the
/// store refuses it.
pub open spec fn published(s: ContextState, diagnostic: Seq<char>, refused: bool) -> ContextState {
    if refused {
        s
    } else {
        ContextState { artifacts: vault::kept(s.artifacts, explanation(diagnostic)), ..s }
    }
}

/// The digest under which an explanation was kept, where it was.
pub open spec fn kept_digest(diagnostic: Seq<char>, refused: bool) -> Option<Seq<char>> {
    if refused {
        None
    } else {
        Some(digest::digest_text(explanation(diagnostic)))
    }
}

/// The diagnostic of a failed turn.
pub open spec fn diagnostic_of(outcome: SdkOutcomeView) -> Option<Seq<char>> {
    match outcome {
        SdkOutcomeView::Turn(_) => None,
        SdkOutcomeView::ConfirmedNotSent { diagnostic } => Some(diagnostic),
        SdkOutcomeView::Rejected { diagnostic, .. } => Some(diagnostic),
        SdkOutcomeView::DecodeFailed { diagnostic, .. } => Some(diagnostic),
        SdkOutcomeView::Ambiguous { diagnostic } => Some(diagnostic),
    }
}

/// What the agent loop gets of a turn. A store that refuses the explanation of a failure loses no
/// outcome, and nothing is named that is not there.
pub open spec fn reported(outcome: SdkOutcomeView, refused: bool) -> GatewayOutcomeView {
    match outcome {
        SdkOutcomeView::Turn(turn) => GatewayOutcomeView::Turn(
            GatewayTurnExchangeView {
                turn: turn.turn,
                raw_exchange_digest: turn.exchange.raw_exchange_digest,
                native_continuation_digest: turn.exchange.native_continuation_digest,
            },
        ),
        SdkOutcomeView::ConfirmedNotSent { diagnostic } => GatewayOutcomeView::ConfirmedNotSent {
            diagnostic,
            diagnostic_digest: kept_digest(diagnostic, refused),
        },
        SdkOutcomeView::Rejected { response_digest, diagnostic, retryable } =>
            GatewayOutcomeView::Rejected {
            response_digest,
            diagnostic,
            diagnostic_digest: kept_digest(diagnostic, refused),
            retryable,
        },
        SdkOutcomeView::DecodeFailed { response_digest, diagnostic } =>
            GatewayOutcomeView::DecodeFailed {
            response_digest,
            diagnostic,
            diagnostic_digest: kept_digest(diagnostic, refused),
        },
        SdkOutcomeView::Ambiguous { diagnostic } => GatewayOutcomeView::Ambiguous {
            diagnostic,
            diagnostic_digest: kept_digest(diagnostic, refused),
        },
    }
}

/// Commits a turn before it is given to the loop, or keeps the explanation of its failure.
pub open spec fn finished(
    s: ContextState,
    request: ModelTurnRequestView,
    outcome: SdkOutcomeView,
    refused: bool,
) -> (ContextState, Result<GatewayOutcomeView, Seq<char>>) {
    match outcome {
        SdkOutcomeView::Turn(turn) => {
            let (t, r) = contexts::commit(s, request, turn.exchange);
            (
                t,
                match r {
                    Ok(_) => Ok(reported(outcome, refused)),
                    Err(e) => Err(e),
                },
            )
        },
        _ => (
            published(s, diagnostic_of(outcome)->0, refused),
            Ok(reported(outcome, refused)),
        ),
    }
}

fn publish_diagnostic(store: &mut ModelContextStore, diagnostic: &String, refused: bool) -> (r:
    Option<Sha256Digest>)
    ensures
        final(store)@ == published(old(store)@, diagnostic@, refused),
        identity::optional_digest(r) == kept_digest(diagnostic@, refused),
{
    if refused {
        None
    } else {
        Some(store.keep_artifact(diagnostic.as_str().as_bytes()))
    }
}

/// Loads the input of a turn; where that fails the turn is over, and why is kept, unless the store
/// refuses to. `derived` is the digest of a later turn's input.
pub fn begin_turn(
    store: &mut ModelContextStore,
    request: &ModelTurnRequest,
    derived: &Sha256Digest,
    refused: bool,
) -> (r: Result<ProviderTurnInput, ModelGatewayOutcome>)
    ensures
        match contexts::load(old(store)@, request@, derived@) {
            Ok(input) => r matches Ok(found) && found@ == input && final(store)@ == old(store)@,
            Err(e) => r matches Err(outcome) && outcome@ == reported(
                SdkOutcomeView::ConfirmedNotSent { diagnostic: e },
                refused,
            ) && final(store)@ == published(old(store)@, e, refused),
        },
{
    match store.load(request, derived) {
        Ok(input) => Ok(input),
        Err(diagnostic) => {
            let diagnostic_digest = publish_diagnostic(store, &diagnostic, refused);
            Err(ModelGatewayOutcome::ConfirmedNotSent { diagnostic, diagnostic_digest })
        },
    }
}

/// Ends a turn. `refused` says that the store does not take the explanation of a failure.
pub fn finish_turn(
    store: &mut ModelContextStore,
    request: &ModelTurnRequest,
    outcome: ProviderSdkOutcome,
    refused: bool,
) -> (r: Result<ModelGatewayOutcome, String>)
    ensures
        ({
            let (t, ended) = finished(old(store)@, request@, outcome@, refused);
            &&& final(store)@ == t
            &&& match ended {
                Ok(view) => r matches Ok(found) && found@ == view,
                Err(e) => r matches Err(error) && error@ == e,
            }
        }),
{
    match outcome {
        ProviderSdkOutcome::Turn(turn) => {
            store.commit(request, &turn.exchange)?;
            Ok(
                ModelGatewayOutcome::Turn(
                    GatewayTurnExchange {
                        turn: turn.turn,
                        raw_exchange_digest: turn.exchange.raw_exchange_digest,
                        native_continuation_digest: turn.exchange.native_continuation_digest,
                    },
                ),
            )
        },
        ProviderSdkOutcome::ConfirmedNotSent { diagnostic } => {
            let diagnostic_digest = publish_diagnostic(store, &diagnostic, refused);
            Ok(ModelGatewayOutcome::ConfirmedNotSent { diagnostic, diagnostic_digest })
        },
        ProviderSdkOutcome::Rejected { response_digest, diagnostic, retryable } => {
            let diagnostic_digest = publish_diagnostic(store, &diagnostic, refused);
            Ok(
                ModelGatewayOutcome::Rejected {
                    response_digest,
                    diagnostic,
                    diagnostic_digest,
                    retryable,
                },
            )
        },
        ProviderSdkOutcome::DecodeFailed { response_digest, diagnostic } => {
            let diagnostic_digest = publish_diagnostic(store, &diagnostic, refused);
            Ok(
                ModelGatewayOutcome::DecodeFailed {
                    response_digest,
                    diagnostic,
                    diagnostic_digest,
                },
            )
        },
        ProviderSdkOutcome::Ambiguous { diagnostic } => {
            let diagnostic_digest = publish_diagnostic(store, &diagnostic, refused);
            Ok(ModelGatewayOutcome::Ambiguous { diagnostic, diagnostic_digest })
        },
    }
}

/// Every failed turn leaves its explanation behind, where the store takes it: bytes with the
/// reported digest are kept.
pub proof fn failures_leave_their_explanation(
    s: ContextState,
    request: ModelTurnRequestView,
    outcome: SdkOutcomeView,
)
    requires
        !(outcome is Turn),
        vault::addressed(s.artifacts),
    ensures
        ({
            let (t, r) = finished(s, request, outcome, false);
            let bytes = explanation(diagnostic_of(outcome)->0);
            &&& r is Ok
            &&& t.artifacts.dom().contains(digest::digest_text(bytes))
            &&& digest::digest_text(t.artifacts[digest::digest_text(bytes)]) == digest::digest_text(
                bytes,
            )
        }),
{
}

/// A store that refuses the explanation of a failure loses no outcome, and the outcome names no
/// artifact.
pub proof fn refused_explanations_are_not_named(
    s: ContextState,
    request: ModelTurnRequestView,
    outcome: SdkOutcomeView,
)
    requires
        !(outcome is Turn),
    ensures
        finished(s, request, outcome, true) == (
            s,
            Ok::<GatewayOutcomeView, Seq<char>>(reported(outcome, true)),
        ),
        match reported(outcome, true) {
            GatewayOutcomeView::Turn(_) => false,
            GatewayOutcomeView::ConfirmedNotSent { diagnostic, diagnostic_digest } =>
                diagnostic_digest is None && Some(diagnostic) == diagnostic_of(outcome),
            GatewayOutcomeView::Rejected { diagnostic, diagnostic_digest, .. } =>
                diagnostic_digest is None && Some(diagnostic) == diagnostic_of(outcome),
            GatewayOutcomeView::DecodeFailed { diagnostic, diagnostic_digest, .. } =>
                diagnostic_digest is None && Some(diagnostic) == diagnostic_of(outcome),
            GatewayOutcomeView::Ambiguous { diagnostic, diagnostic_digest } =>
                diagnostic_digest is None && Some(diagnostic) == diagnostic_of(outcome),
        },
{
}

/// A turn reaches the loop only once it is committed.
pub proof fn turns_are_committed_first(
    s: ContextState,
    request: ModelTurnRequestView,
    turn: SuccessfulTurnView,
    refused: bool,
)
    requires
        finished(s, request, SdkOutcomeView::Turn(turn), refused).1 is Ok,
    ensures
        contexts::commit(s, request, turn.exchange).1 is Ok,
        finished(s, request, SdkOutcomeView::Turn(turn), refused).0 == contexts::commit(
            s,
            request,
            turn.exchange,
        ).0,
{
}

/// What a decoded answer names is what it was made of, so that its commit never fails for a changed
/// identity.
pub proof fn decoded_turns_name_their_bytes(
    request_body: Seq<u8>,
    response: RawModelResponseView,
    read: DecodedTurn,
)
    ensures
        decoded(request_body, response, Ok(read)) matches SdkOutcomeView::Turn(turn)
            && turn.exchange.raw_exchange_digest == digest::digest_text(turn.exchange.response_body)
            && turn.exchange.native_continuation_digest == digest::digest_text(
            turn.exchange.native_continuation.canonical_bytes,
        ),
{
}

} // verus!
