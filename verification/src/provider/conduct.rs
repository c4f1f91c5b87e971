//! What each step of a provider turn comes to, told from what it is given.
use crate::contexts;
use crate::contexts::{
    ContextState, ModelTurnRequestView, ProviderTurnInputView,
};
use crate::digest;
use crate::provider;
use crate::provider::{
    ContinuationStepView, DecodedTurn, DispatchStepView, GatewayOutcomeView, SdkOutcomeView,
    SuccessfulTurnView,
};
use crate::transport::{
    ModelTransportFailureView, ModelTransportRetryHint, OutcomeView, RawModelResponseView,
};
use vstd::prelude::*;

verus! {

/// Results belong to a continuation: without one they are refused, and with one they are appended
/// to it. Without results the continuation is resumed as it is, and with neither the turn is fresh.
pub proof fn results_need_a_continuation(input: ProviderTurnInputView)
    ensures
        provider::continuation_step(input) is Err <==> input.continuation is None
            && input.tool_results.len() > 0,
        provider::continuation_step(input) == Ok::<_, provider::ToolResultMismatch>(
            ContinuationStepView::Fresh,
        ) <==> input.continuation is None && input.tool_results.len() == 0,
        provider::continuation_step(input) == Ok::<_, provider::ToolResultMismatch>(
            ContinuationStepView::Append,
        ) <==> input.continuation is Some && input.tool_results.len() > 0,
        input.continuation is Some && input.tool_results.len() == 0
            ==> provider::continuation_step(input) == Ok::<_, provider::ToolResultMismatch>(
            ContinuationStepView::Resume(input.continuation->0),
        ),
{
}

/// Only a response is read on; every other outcome of a dispatch ends the turn.
pub proof fn responses_are_read(response: RawModelResponseView)
    ensures
        provider::dispatched(OutcomeView::Response(response)) == DispatchStepView::Decode(response),
{
}

/// What was not sent is reported as not sent, in the words of the failure.
pub proof fn unsent_requests_are_reported(failure: ModelTransportFailureView)
    ensures
        provider::dispatched(OutcomeView::ConfirmedNotSent(failure)) == DispatchStepView::Done(
            SdkOutcomeView::ConfirmedNotSent { diagnostic: failure.diagnostic },
        ),
{
}

/// What may have been sent is reported as ambiguous, whether or not a response came.
pub proof fn unclear_requests_are_reported(
    response: Option<RawModelResponseView>,
    failure: ModelTransportFailureView,
)
    ensures
        provider::dispatched(OutcomeView::Ambiguous { response, failure })
            == DispatchStepView::Done(
            SdkOutcomeView::Ambiguous { diagnostic: failure.diagnostic },
        ),
{
}

/// A rejection is reported with the digest of the response. It may be tried again exactly when the
/// transport hints at a new attempt, now or later.
pub proof fn rejections_are_reported(
    response: RawModelResponseView,
    failure: ModelTransportFailureView,
)
    ensures
        provider::dispatched(OutcomeView::ProviderRejected { response, failure }) matches
            DispatchStepView::Done(
            SdkOutcomeView::Rejected { response_digest, diagnostic, retryable },
        ) && response_digest == digest::digest_text(response.body) && diagnostic
            == failure.diagnostic && (retryable <==> (failure.retry_hint
            == ModelTransportRetryHint::NewAttempt || failure.retry_hint is AfterMillis)),
{
}

/// A response that cannot be read is reported with its digest and the reader's words.
pub proof fn unreadable_responses_are_reported(
    request_body: Seq<u8>,
    response: RawModelResponseView,
    e: String,
)
    ensures
        provider::decoded(request_body, response, Err(e)) == (SdkOutcomeView::DecodeFailed {
            response_digest: digest::digest_text(response.body),
            diagnostic: e@,
        }),
{
}

/// A response that was read becomes a turn that holds the request, the response and the
/// continuation as they are.
pub proof fn turns_hold_what_was_said(
    request_body: Seq<u8>,
    response: RawModelResponseView,
    read: DecodedTurn,
)
    ensures
        provider::decoded(request_body, response, Ok(read)) matches SdkOutcomeView::Turn(turn) && {
            &&& turn.turn == read.turn@
            &&& turn.exchange.request_body == request_body
            &&& turn.exchange.response_body == response.body
            &&& turn.exchange.raw_exchange_digest == digest::digest_text(response.body)
            &&& turn.exchange.native_continuation == read.native_continuation@
            &&& turn.exchange.native_continuation_digest == digest::digest_text(
                read.native_continuation@.canonical_bytes,
            )
            &&& turn.exchange.provider_request_id == response.provider_request_id
            &&& turn.exchange.actual_model is Some <==> read.actual_model is Some
            &&& read.actual_model matches Some(model) ==> turn.exchange.actual_model == Some(
                model@,
            )
        },
{
}

/// A turn that is committed is handed on with its digests; one that cannot be committed is an
/// error, in the words of the refusal.
pub proof fn turns_end_by_their_commit(
    s: ContextState,
    request: ModelTurnRequestView,
    turn: SuccessfulTurnView,
    refused: bool,
)
    ensures
        ({
            let (t, r) = provider::finished(s, request, SdkOutcomeView::Turn(turn), refused);
            let (u, committed) = contexts::commit(s, request, turn.exchange);
            &&& t == u
            &&& committed matches Err(e) ==> r == Err::<GatewayOutcomeView, Seq<char>>(e)
            &&& committed is Ok ==> (r matches Ok(GatewayOutcomeView::Turn(told)) && told.turn
                == turn.turn && told.raw_exchange_digest == turn.exchange.raw_exchange_digest
                && told.native_continuation_digest == turn.exchange.native_continuation_digest)
        }),
{
}

/// Every failure keeps its kind and its words. Its diagnostic is kept under the digest that the
/// report names, unless keeping it was refused: nothing is kept and nothing is named in that case.
pub proof fn failures_keep_their_kind(
    s: ContextState,
    request: ModelTurnRequestView,
    response_digest: Seq<char>,
    diagnostic: Seq<char>,
    retryable: bool,
    refused: bool,
)
    ensures
        ({
            let name = if refused {
                None
            } else {
                Some(digest::digest_text(vstd::utf8::encode_utf8(diagnostic)))
            };
            &&& provider::finished(
                s,
                request,
                SdkOutcomeView::ConfirmedNotSent { diagnostic },
                refused,
            ).1 == Ok::<GatewayOutcomeView, Seq<char>>(
                GatewayOutcomeView::ConfirmedNotSent { diagnostic, diagnostic_digest: name },
            )
            &&& provider::finished(
                s,
                request,
                SdkOutcomeView::Rejected { response_digest, diagnostic, retryable },
                refused,
            ).1 == Ok::<GatewayOutcomeView, Seq<char>>(
                GatewayOutcomeView::Rejected {
                    response_digest,
                    diagnostic,
                    diagnostic_digest: name,
                    retryable,
                },
            )
            &&& provider::finished(
                s,
                request,
                SdkOutcomeView::DecodeFailed { response_digest, diagnostic },
                refused,
            ).1 == Ok::<GatewayOutcomeView, Seq<char>>(
                GatewayOutcomeView::DecodeFailed {
                    response_digest,
                    diagnostic,
                    diagnostic_digest: name,
                },
            )
            &&& provider::finished(s, request, SdkOutcomeView::Ambiguous { diagnostic }, refused).1
                == Ok::<GatewayOutcomeView, Seq<char>>(
                GatewayOutcomeView::Ambiguous { diagnostic, diagnostic_digest: name },
            )
        }),
{
}

/// A failure changes nothing but the artifacts, and those only by its own diagnostic.
pub proof fn failures_only_explain(
    s: ContextState,
    request: ModelTurnRequestView,
    outcome: SdkOutcomeView,
    refused: bool,
    other: Seq<char>,
)
    requires
        !(outcome is Turn),
    ensures
        ({
            let t = provider::finished(s, request, outcome, refused).0;
            &&& t.episodes == s.episodes
            &&& t.exchanges == s.exchanges
            &&& t.limits == s.limits
            &&& refused ==> t == s
            &&& s.artifacts.dom().contains(other) ==> t.artifacts.dom().contains(other)
                && t.artifacts[other] == s.artifacts[other]
            &&& !refused ==> {
                let words = match outcome {
                    SdkOutcomeView::ConfirmedNotSent { diagnostic } => diagnostic,
                    SdkOutcomeView::Rejected { diagnostic, .. } => diagnostic,
                    SdkOutcomeView::DecodeFailed { diagnostic, .. } => diagnostic,
                    SdkOutcomeView::Ambiguous { diagnostic } => diagnostic,
                    SdkOutcomeView::Turn(_) => seq![],
                };
                let name = digest::digest_text(vstd::utf8::encode_utf8(words));
                &&& t.artifacts.dom().contains(name)
                &&& t.artifacts.dom().contains(other) ==> s.artifacts.dom().contains(other)
                    || other == name
            }
        }),
{
}

} // verus!
