//! What each operation on a model context does, told from what it is given.
use crate::contexts;
use crate::contexts::{
    ContextState, EpisodeContextView, ModelTurnRequestView, PendingResultView,
    ProviderTurnExchangeView,
};
use crate::digest;
use crate::ordered;
use crate::text;
use crate::vault;
use vstd::prelude::*;

verus! {

/// A new episode is created exactly when neither prompt is blank; it holds what it was given, waits
/// for nothing, and is answered the digest its first request must carry.
pub proof fn episodes_begin_with_their_prompts(
    s: ContextState,
    episode_id: Seq<char>,
    system_prompt: Seq<char>,
    user_text: Seq<char>,
    tools: Seq<u8>,
)
    requires
        !s.episodes.dom().contains(episode_id),
    ensures
        ({
            let (t, r) = contexts::create(s, episode_id, system_prompt, user_text, tools);
            &&& r is Ok <==> !text::blank(system_prompt) && !text::blank(user_text)
            &&& r is Err ==> t == s
            &&& r matches Ok(identity) ==> {
                let made = t.episodes[episode_id];
                &&& t.episodes.dom() == s.episodes.dom().insert(episode_id)
                &&& made.system_prompt == system_prompt
                &&& made.initial_user_text == user_text
                &&& made.tools_json == tools
                &&& made.initial_input_digest == identity
                &&& made.latest_input_digest == identity
                &&& made.continuation is None
                &&& made.pending.len() == 0
            }
        }),
{
}

/// An episode that exists is created again only by the prompts and tools it holds, and is never
/// changed by it.
pub proof fn episodes_are_not_created_over(
    s: ContextState,
    episode_id: Seq<char>,
    system_prompt: Seq<char>,
    user_text: Seq<char>,
    tools: Seq<u8>,
)
    requires
        s.episodes.dom().contains(episode_id),
    ensures
        ({
            let (t, r) = contexts::create(s, episode_id, system_prompt, user_text, tools);
            let known = s.episodes[episode_id];
            &&& t == s
            &&& r is Ok ==> known.system_prompt == system_prompt && known.initial_user_text
                == user_text && known.tools_json == tools
            &&& r matches Ok(identity) ==> identity == known.initial_input_digest
        }),
{
}

/// Creating an episode touches no other episode, no exchange and no artifact.
pub proof fn creation_is_local(
    s: ContextState,
    episode_id: Seq<char>,
    system_prompt: Seq<char>,
    user_text: Seq<char>,
    tools: Seq<u8>,
    other: Seq<char>,
)
    requires
        other != episode_id,
    ensures
        ({
            let t = contexts::create(s, episode_id, system_prompt, user_text, tools).0;
            &&& t.artifacts == s.artifacts
            &&& t.exchanges == s.exchanges
            &&& t.limits == s.limits
            &&& t.episodes.dom().contains(other) == s.episodes.dom().contains(other)
            &&& t.episodes[other] == s.episodes[other]
        }),
{
}

/// The first input is made of a mark, the two prompts and the tools, each but the last ended by a
/// zero byte.
pub proof fn first_inputs_hold_their_parts(
    system_prompt: Seq<char>,
    user_text: Seq<char>,
    tools: Seq<u8>,
)
    ensures
        ({
            let bytes = contexts::initial_input(system_prompt, user_text, tools);
            let mark = vstd::utf8::encode_utf8("alloyport-initial-model-input-v1"@);
            let system = vstd::utf8::encode_utf8(system_prompt);
            let user = vstd::utf8::encode_utf8(user_text);
            &&& bytes.len() == mark.len() + system.len() + user.len() + tools.len() + 3
            &&& bytes.take(mark.len() as int) == mark
            &&& bytes[mark.len() as int] == 0
            &&& bytes.skip((mark.len() + 1) as int).take(system.len() as int) == system
            &&& bytes[(mark.len() + 1 + system.len()) as int] == 0
            &&& bytes.skip((mark.len() + system.len() + 2) as int).take(user.len() as int) == user
            &&& bytes[(mark.len() + system.len() + 2 + user.len()) as int] == 0
            &&& bytes.skip((mark.len() + system.len() + user.len() + 3) as int) == tools
        }),
{
    let bytes = contexts::initial_input(system_prompt, user_text, tools);
    let mark = vstd::utf8::encode_utf8("alloyport-initial-model-input-v1"@);
    let system = vstd::utf8::encode_utf8(system_prompt);
    let user = vstd::utf8::encode_utf8(user_text);
    assert(bytes.take(mark.len() as int) =~= mark);
    assert(bytes.skip((mark.len() + 1) as int).take(system.len() as int) =~= system);
    assert(bytes.skip((mark.len() + system.len() + 2) as int).take(user.len() as int) =~= user);
    assert(bytes.skip((mark.len() + system.len() + user.len() + 3) as int) =~= tools);
}

/// Before any exchange a request is answered exactly when it names an episode and carries the
/// digest of its first input; the model then sees the prompts, the tools and nothing else.
pub proof fn first_turns_are_asked_once(
    s: ContextState,
    request: ModelTurnRequestView,
    derived: Seq<char>,
)
    requires
        s.episodes[request.episode_id].continuation is None,
    ensures
        ({
            let context = s.episodes[request.episode_id];
            &&& contexts::load(s, request, derived) is Ok <==> s.episodes.dom().contains(
                request.episode_id,
            ) && request.input_digest == context.latest_input_digest && request.input_digest
                == context.initial_input_digest
            &&& contexts::load(s, request, derived) matches Ok(input) ==> {
                &&& input.system_prompt == context.system_prompt
                &&& input.initial_user_text == Some(context.initial_user_text)
                &&& input.continuation is None
                &&& input.tool_results.len() == 0
                &&& input.tools_json == context.tools_json
            }
        }),
{
}

proof fn texts_stand_in_order(s: ContextState, pending: Seq<PendingResultView>, n: nat)
    ensures
        contexts::result_texts(s, pending, n) matches Ok(found) ==> {
            &&& found.len() == n
            &&& forall|i: int|
                0 <= i < n ==> (#[trigger] found[i]).native_call_id == pending[i].native_call_id
                    && contexts::result_text(s, pending[i].result_digest->0) == Ok::<
                    Seq<char>,
                    Seq<char>,
                >(found[i].output)
        },
        (forall|i: int|
            0 <= i < n ==> contexts::result_text(s, (#[trigger] pending[i]).result_digest->0)
                is Ok) ==> contexts::result_texts(s, pending, n) is Ok,
    decreases n,
{
    if n > 0 {
        texts_stand_in_order(s, pending, (n - 1) as nat);
        if forall|i: int|
            0 <= i < n ==> contexts::result_text(s, (#[trigger] pending[i]).result_digest->0)
                is Ok {
            assert(contexts::result_text(s, pending[n - 1].result_digest->0) is Ok);
        }
    }
}

/// Behind an exchange a request is answered only when every call it left open has a result. The
/// model then sees the continuation and one result for each call, in the order of the calls, each
/// read from the artifact that its digest names.
pub proof fn later_turns_carry_every_result(
    s: ContextState,
    request: ModelTurnRequestView,
    derived: Seq<char>,
)
    requires
        s.episodes[request.episode_id].continuation is Some,
        contexts::load(s, request, derived) is Ok,
    ensures
        ({
            let context = s.episodes[request.episode_id];
            let open = context.continuation->0.pending_call_ids;
            let input = contexts::load(s, request, derived)->Ok_0;
            &&& s.episodes.dom().contains(request.episode_id)
            &&& request.input_digest == context.latest_input_digest
            &&& request.input_digest == derived
            &&& input.system_prompt == context.system_prompt
            &&& input.initial_user_text is None
            &&& input.continuation == context.continuation
            &&& input.tools_json == context.tools_json
            &&& input.tool_results.len() == open.len()
            &&& context.pending.len() == open.len()
            &&& forall|i: int|
                0 <= i < open.len() ==> {
                    &&& (#[trigger] input.tool_results[i]).native_call_id == open[i]
                    &&& context.pending[i].result_digest is Some
                    &&& s.artifacts.dom().contains(context.pending[i].result_digest->0)
                    &&& s.artifacts[context.pending[i].result_digest->0].len()
                        <= s.limits.max_tool_result_bytes
                    &&& vstd::utf8::valid_utf8(s.artifacts[context.pending[i].result_digest->0])
                    &&& input.tool_results[i].output == vstd::utf8::decode_utf8(
                        s.artifacts[context.pending[i].result_digest->0],
                    )
                }
        }),
{
    let context = s.episodes[request.episode_id];
    texts_stand_in_order(s, context.pending, context.pending.len());
}

/// And it is answered whenever all of that holds and the continuation can be read.
pub proof fn complete_turns_are_answered(
    s: ContextState,
    request: ModelTurnRequestView,
    derived: Seq<char>,
)
    requires
        s.episodes.dom().contains(request.episode_id),
        s.episodes[request.episode_id].continuation is Some,
        request.input_digest == s.episodes[request.episode_id].latest_input_digest,
        request.input_digest == derived,
        ({
            let context = s.episodes[request.episode_id];
            let continuation = context.continuation->0;
            let identity = digest::digest_text(continuation.canonical_bytes);
            &&& s.artifacts.dom().contains(identity)
            &&& s.artifacts[identity].len() <= s.limits.max_continuation_bytes
            &&& context.pending.len() == continuation.pending_call_ids.len()
            &&& forall|i: int|
                0 <= i < context.pending.len() ==> {
                    &&& (#[trigger] context.pending[i]).native_call_id
                        == continuation.pending_call_ids[i]
                    &&& context.pending[i].result_digest is Some
                    &&& s.artifacts.dom().contains(context.pending[i].result_digest->0)
                    &&& s.artifacts[context.pending[i].result_digest->0].len()
                        <= s.limits.max_tool_result_bytes
                    &&& vstd::utf8::valid_utf8(s.artifacts[context.pending[i].result_digest->0])
                }
        }),
    ensures
        contexts::load(s, request, derived) is Ok,
{
    let context = s.episodes[request.episode_id];
    texts_stand_in_order(s, context.pending, context.pending.len());
    assert forall|i: int| 0 <= i < context.pending.len() implies contexts::result_text(
        s,
        (#[trigger] context.pending[i]).result_digest->0,
    ) is Ok by {}
}

/// An exchange is committed anew exactly when the digests it carries are those of its own bytes,
/// its episode waits for just this input, the turn has a number above zero that no exchange of the
/// episode has, and no call is left open twice.
pub proof fn exchanges_are_committed(
    s: ContextState,
    request: ModelTurnRequestView,
    exchange: ProviderTurnExchangeView,
)
    requires
        !s.exchanges.dom().contains(request.attempt_id),
    ensures
        contexts::commit(s, request, exchange).1 is Ok <==> {
            let ids = exchange.native_continuation.pending_call_ids;
            &&& digest::digest_text(exchange.native_continuation.canonical_bytes)
                == exchange.native_continuation_digest
            &&& digest::digest_text(exchange.response_body) == exchange.raw_exchange_digest
            &&& s.episodes.dom().contains(request.episode_id)
            &&& s.episodes[request.episode_id].latest_input_digest == request.input_digest
            &&& request.turn_index > 0
            &&& forall|k: Seq<char>| #[trigger]
                s.exchanges.dom().contains(k) ==> s.exchanges[k].episode_id != request.episode_id
                    || s.exchanges[k].turn_index != request.turn_index
            &&& forall|i: int, j: int|
                0 <= i < j < ids.len() ==> #[trigger] ids[i] != #[trigger] ids[j]
        },
{
}

/// A committed exchange is remembered under its attempt by the digests of its bytes, and its
/// episode waits for one result to every call, keeping its prompts and its digests.
pub proof fn commits_leave_calls_open(
    s: ContextState,
    request: ModelTurnRequestView,
    exchange: ProviderTurnExchangeView,
)
    requires
        !s.exchanges.dom().contains(request.attempt_id),
        contexts::commit(s, request, exchange).1 is Ok,
    ensures
        ({
            let t = contexts::commit(s, request, exchange).0;
            let was = s.episodes[request.episode_id];
            let is = t.episodes[request.episode_id];
            let ids = exchange.native_continuation.pending_call_ids;
            let kept = t.exchanges[request.attempt_id];
            &&& t.exchanges.dom() == s.exchanges.dom().insert(request.attempt_id)
            &&& t.episodes.dom() == s.episodes.dom()
            &&& kept.episode_id == request.episode_id
            &&& kept.turn_index == request.turn_index
            &&& kept.input_digest == request.input_digest
            &&& kept.request_digest == digest::digest_text(exchange.request_body)
            &&& kept.response_digest == exchange.raw_exchange_digest
            &&& kept.continuation_digest == exchange.native_continuation_digest
            &&& kept.provider_request_id == exchange.provider_request_id
            &&& kept.actual_model == exchange.actual_model
            &&& is.continuation == Some(exchange.native_continuation)
            &&& is.pending.len() == ids.len()
            &&& forall|i: int|
                0 <= i < ids.len() ==> (#[trigger] is.pending[i]).native_call_id == ids[i]
                    && is.pending[i].result_digest is None
            &&& is.system_prompt == was.system_prompt
            &&& is.initial_user_text == was.initial_user_text
            &&& is.tools_json == was.tools_json
            &&& is.initial_input_digest == was.initial_input_digest
            &&& is.latest_input_digest == was.latest_input_digest
        }),
{
    let t = contexts::commit(s, request, exchange).0;
    assert(t.episodes.dom() =~= s.episodes.dom());
}

/// A commit touches no other episode and no other exchange, and a refused one none at all. No
/// artifact is lost by it, and the request, the response and the continuation of a committed
/// exchange are kept.
pub proof fn commits_are_local(
    s: ContextState,
    request: ModelTurnRequestView,
    exchange: ProviderTurnExchangeView,
    other: Seq<char>,
)
    ensures
        ({
            let (t, r) = contexts::commit(s, request, exchange);
            &&& r is Err ==> t.episodes == s.episodes && t.exchanges == s.exchanges
            &&& t.limits == s.limits
            &&& other != request.episode_id ==> t.episodes.dom().contains(other)
                == s.episodes.dom().contains(other) && t.episodes[other] == s.episodes[other]
            &&& other != request.attempt_id ==> t.exchanges.dom().contains(other)
                == s.exchanges.dom().contains(other) && t.exchanges[other] == s.exchanges[other]
            &&& s.artifacts.dom().contains(other) ==> t.artifacts.dom().contains(other)
                && t.artifacts[other] == s.artifacts[other]
            &&& r is Ok ==> t.artifacts.dom().contains(digest::digest_text(exchange.request_body))
                && t.artifacts.dom().contains(digest::digest_text(exchange.response_body))
                && t.artifacts.dom().contains(
                digest::digest_text(exchange.native_continuation.canonical_bytes),
            )
        }),
{
}

/// A result is recorded exactly when it can be read as text, the call is open, and it has no other
/// result yet.
pub proof fn results_are_recorded(
    s: ContextState,
    episode_id: Seq<char>,
    native_call_id: Seq<char>,
    result_digest: Seq<char>,
    derived: Seq<char>,
    i: int,
)
    requires
        s.episodes.dom().contains(episode_id),
        s.episodes[episode_id].continuation is Some,
        0 <= i < s.episodes[episode_id].pending.len(),
        s.episodes[episode_id].pending[i].native_call_id == native_call_id,
        forall|j: int|
            0 <= j < i ==> (#[trigger] s.episodes[episode_id].pending[j]).native_call_id
                != native_call_id,
    ensures
        ({
            let (t, r) = contexts::record_result(
                s,
                episode_id,
                native_call_id,
                result_digest,
                derived,
            );
            let was = s.episodes[episode_id];
            let is = t.episodes[episode_id];
            let before = was.pending[i].result_digest;
            &&& r is Ok <==> {
                &&& s.artifacts.dom().contains(result_digest)
                &&& s.artifacts[result_digest].len() <= s.limits.max_tool_result_bytes
                &&& vstd::utf8::valid_utf8(s.artifacts[result_digest])
                &&& before is None || before == Some(result_digest)
            }
            &&& r is Err || before is Some ==> t == s
            &&& r is Ok ==> {
                &&& t.episodes.dom() == s.episodes.dom()
                &&& is.pending.len() == was.pending.len()
                &&& is.pending[i].native_call_id == native_call_id
                &&& is.pending[i].result_digest == Some(result_digest)
                &&& forall|j: int|
                    0 <= j < was.pending.len() && j != i ==> #[trigger] is.pending[j]
                        == was.pending[j]
                &&& is.system_prompt == was.system_prompt
                &&& is.initial_user_text == was.initial_user_text
                &&& is.tools_json == was.tools_json
                &&& is.initial_input_digest == was.initial_input_digest
                &&& is.continuation == was.continuation
            }
        }),
{
    let pending = s.episodes[episode_id].pending;
    let p = |p: PendingResultView| p.native_call_id == native_call_id;
    ordered::first_is(pending, p, i);
    let t = contexts::record_result(s, episode_id, native_call_id, result_digest, derived).0;
    assert(contexts::called(pending, native_call_id) == Some(i));
    if t != s {
        assert(t.episodes.dom() =~= s.episodes.dom());
    }
}

/// The last open result makes the derived digest the one the next request must carry; before that
/// the digest stays.
pub proof fn the_last_result_moves_the_input(
    s: ContextState,
    episode_id: Seq<char>,
    native_call_id: Seq<char>,
    result_digest: Seq<char>,
    derived: Seq<char>,
)
    requires
        contexts::record_result(s, episode_id, native_call_id, result_digest, derived).1 is Ok,
        contexts::record_result(s, episode_id, native_call_id, result_digest, derived).0 != s,
    ensures
        ({
            let t =
                contexts::record_result(s, episode_id, native_call_id, result_digest, derived).0;
            let was = s.episodes[episode_id];
            let is = t.episodes[episode_id];
            &&& (forall|j: int|
                0 <= j < is.pending.len() ==> (#[trigger] is.pending[j]).result_digest is Some)
                ==> is.latest_input_digest == derived
            &&& (exists|j: int|
                0 <= j < is.pending.len() && (#[trigger] is.pending[j]).result_digest is None)
                ==> is.latest_input_digest == was.latest_input_digest
        }),
{
}

/// A result for a call that is not open, or for an episode that is not there, is refused.
pub proof fn strange_results_are_refused(
    s: ContextState,
    episode_id: Seq<char>,
    native_call_id: Seq<char>,
    result_digest: Seq<char>,
    derived: Seq<char>,
)
    requires
        s.episodes.dom().contains(episode_id) ==> forall|j: int|
            0 <= j < s.episodes[episode_id].pending.len() ==> (
            #[trigger] s.episodes[episode_id].pending[j]).native_call_id != native_call_id,
    ensures
        contexts::record_result(s, episode_id, native_call_id, result_digest, derived).0 == s,
        contexts::record_result(s, episode_id, native_call_id, result_digest, derived).1 is Err,
{
    let pending = s.episodes[episode_id].pending;
    if s.episodes.dom().contains(episode_id) {
        ordered::first_is_none(
            pending,
            |p: PendingResultView| p.native_call_id == native_call_id,
        );
    }
}

/// Recording a result touches no other episode, no exchange and no artifact.
pub proof fn recording_is_local(
    s: ContextState,
    episode_id: Seq<char>,
    native_call_id: Seq<char>,
    result_digest: Seq<char>,
    derived: Seq<char>,
    other: Seq<char>,
)
    requires
        other != episode_id,
    ensures
        ({
            let t =
                contexts::record_result(s, episode_id, native_call_id, result_digest, derived).0;
            &&& t.artifacts == s.artifacts
            &&& t.exchanges == s.exchanges
            &&& t.limits == s.limits
            &&& t.episodes.dom().contains(other) == s.episodes.dom().contains(other)
            &&& t.episodes[other] == s.episodes[other]
        }),
{
}

/// What the next digest is derived from is there exactly when there is a continuation and every
/// open call has its result: the digest of the continuation, and the results in the order of the
/// calls.
pub proof fn digests_are_derived_from_everything(context: EpisodeContextView)
    ensures
        contexts::basis(context) is Some <==> context.continuation is Some && forall|i: int|
            0 <= i < context.pending.len() ==> (#[trigger] context.pending[i]).result_digest
                is Some,
        contexts::basis(context) matches Some(b) ==> {
            &&& b.continuation == digest::digest_text(context.continuation->0.canonical_bytes)
            &&& b.results.len() == context.pending.len()
            &&& forall|i: int|
                0 <= i < context.pending.len() ==> Some(#[trigger] b.results[i])
                    == context.pending[i].result_digest
        },
{
    assert forall|i: int|
        contexts::basis(context) is Some && 0 <= i < context.pending.len() implies (
    #[trigger] context.pending[i]).result_digest is Some by {}
}

/// An artifact is read exactly when it is there and no longer than the limit; what is read is what
/// is there.
pub proof fn artifacts_read_whole(
    artifacts: Map<Seq<char>, Seq<u8>>,
    identity: Seq<char>,
    limit: usize,
)
    ensures
        vault::readable(artifacts, identity, limit) is Ok <==> artifacts.dom().contains(identity)
            && artifacts[identity].len() <= limit,
        vault::readable(artifacts, identity, limit) matches Ok(bytes) ==> bytes
            == artifacts[identity],
        vault::readable(artifacts, identity, limit) matches Err(e) ==> e.len() >= identity.len(),
{
}

/// Keeping content makes it readable under its digest and changes nothing kept before.
pub proof fn keeping_only_adds(
    artifacts: Map<Seq<char>, Seq<u8>>,
    bytes: Seq<u8>,
    other: Seq<char>,
)
    ensures
        ({
            let t = vault::kept(artifacts, bytes);
            &&& t.dom().contains(digest::digest_text(bytes))
            &&& !artifacts.dom().contains(digest::digest_text(bytes)) ==> t[digest::digest_text(
                bytes,
            )] == bytes
            &&& artifacts.dom().contains(other) ==> t.dom().contains(other) && t[other]
                == artifacts[other]
            &&& t.dom().contains(other) ==> artifacts.dom().contains(other) || other
                == digest::digest_text(bytes)
        }),
{
}

/// With a result for an open call, what the next digest is derived from is told as if the result
/// were recorded; for anything else there is nothing to derive from.
pub proof fn derivations_look_ahead(
    s: ContextState,
    episode_id: Seq<char>,
    native_call_id: Seq<char>,
    result_digest: Seq<char>,
    derived: Seq<char>,
)
    ensures
        !s.episodes.dom().contains(episode_id) ==> contexts::basis_behind(
            s,
            episode_id,
            native_call_id,
            result_digest,
        ) is None,
        ({
            let (t, r) = contexts::record_result(
                s,
                episode_id,
                native_call_id,
                result_digest,
                derived,
            );
            r is Ok && t != s ==> contexts::basis_behind(
                s,
                episode_id,
                native_call_id,
                result_digest,
            ) == contexts::basis(t.episodes[episode_id])
        }),
{
}

} // verus!
