//! What each request does to the interaction log.
use super::{
    AppendOutcomeView, InteractionErrorView, InteractionState, OutputAppendView, RunGrantOutcome,
    RunRevokeOutcome, StoredEventView,
};
use crate::events::{EventEnvelopeView, ProducerEventView};
use crate::ordered;
use crate::text;
use vstd::prelude::*;

verus! {

/// A frame that can be taken in: of the present schema, with a key and a run that are named.
pub open spec fn presentable(dedup_key: Seq<char>, frame: ProducerEventView) -> bool {
    !text::blank(dedup_key) && !text::blank(frame.run_id) && frame.schema_version == 1
}

/// The run has no event under the key.
pub open spec fn unused(s: InteractionState, run_id: Seq<char>, dedup_key: Seq<char>) -> bool {
    forall|i: int|
        0 <= i < s.events.len() ==> (#[trigger] s.events[i]).envelope.run_id != run_id
            || s.events[i].dedup_key != dedup_key
}

/// The envelope tells what the frame told, at the given place of the run.
pub open spec fn tells(envelope: EventEnvelopeView, frame: ProducerEventView, sequence: u64) -> bool {
    &&& envelope.schema_version == 1
    &&& envelope.sequence == sequence
    &&& envelope.run_id == frame.run_id
    &&& envelope.task_id == frame.task_id
    &&& envelope.turn_id == frame.turn_id
    &&& envelope.operation_id == frame.operation_id
    &&& envelope.parent_operation_id == frame.parent_operation_id
    &&& envelope.producer_sequence == frame.producer_sequence
    &&& envelope.emitted_at_unix_ms == frame.emitted_at_unix_ms
    &&& envelope.producer == frame.producer
    &&& envelope.authority == frame.authority
    &&& envelope.visibility == frame.visibility
    &&& envelope.event == frame.event
}

/// A new event takes the next place of its run and is kept behind all others.
pub proof fn new_events_take_the_next_place(
    s: InteractionState,
    dedup_key: Seq<char>,
    frame: ProducerEventView,
)
    requires
        presentable(dedup_key, frame),
        unused(s, frame.run_id, dedup_key),
        s.next_sequences.dom().contains(frame.run_id) ==> s.next_sequences[frame.run_id]
            < i64::MAX,
    ensures
        ({
            let (t, r) = super::append(s, dedup_key, frame);
            let place = if s.next_sequences.dom().contains(frame.run_id) {
                s.next_sequences[frame.run_id]
            } else {
                1
            };
            &&& r matches Ok(AppendOutcomeView::Inserted(envelope)) && tells(envelope, frame, place)
                && t.events == s.events.push(StoredEventView { dedup_key, envelope })
            &&& t.next_sequences.dom().contains(frame.run_id)
            &&& t.next_sequences[frame.run_id] == place + 1
            &&& forall|k: Seq<char>|
                k != frame.run_id && #[trigger] s.next_sequences.dom().contains(k)
                    ==> t.next_sequences[k] == s.next_sequences[k]
            &&& t.grants == s.grants
            &&& t.chunks == s.chunks
        }),
{
    let wanted = |row: StoredEventView|
        row.envelope.run_id == frame.run_id && row.dedup_key == dedup_key;
    ordered::first_is_none(s.events, wanted);
}

/// A frame without a key, a run or the present schema is not taken in.
pub proof fn unpresentable_frames_are_refused(
    s: InteractionState,
    dedup_key: Seq<char>,
    frame: ProducerEventView,
)
    requires
        !presentable(dedup_key, frame),
    ensures
        super::append(s, dedup_key, frame).0 == s,
        super::append(s, dedup_key, frame).1 is Err,
        super::append(s, dedup_key, frame).1->Err_0 is InvalidFrame,
{
}

/// A key stands for one content in its run: the same content is answered with the event that is
/// kept, another content is refused.
pub proof fn keys_stand_for_one_content(
    s: InteractionState,
    dedup_key: Seq<char>,
    frame: ProducerEventView,
    i: int,
)
    requires
        presentable(dedup_key, frame),
        0 <= i < s.events.len(),
        s.events[i].envelope.run_id == frame.run_id,
        s.events[i].dedup_key == dedup_key,
        forall|j: int|
            0 <= j < i ==> (#[trigger] s.events[j]).envelope.run_id != frame.run_id
                || s.events[j].dedup_key != dedup_key,
    ensures
        ({
            let (t, r) = super::append(s, dedup_key, frame);
            let kept = s.events[i].envelope;
            let same = kept.schema_version == frame.schema_version && kept.task_id == frame.task_id
                && kept.turn_id == frame.turn_id && kept.operation_id == frame.operation_id
                && kept.parent_operation_id == frame.parent_operation_id
                && kept.producer.component == frame.producer.component && kept.authority
                == frame.authority && kept.visibility == frame.visibility && kept.event
                == frame.event;
            &&& t == s
            &&& same ==> r == Ok::<AppendOutcomeView, InteractionErrorView>(
                AppendOutcomeView::Duplicate(kept),
            )
            &&& !same ==> r == Err::<AppendOutcomeView, InteractionErrorView>(
                InteractionErrorView::ConflictingDedupKey(dedup_key),
            )
        }),
{
    let wanted = |row: StoredEventView|
        row.envelope.run_id == frame.run_id && row.dedup_key == dedup_key;
    ordered::first_is(s.events, wanted, i);
}

/// An output that continues where the last one of its stream ended leaves no gap; one that begins
/// later leaves the bytes between them, one that begins earlier and is not a repetition is refused.
pub proof fn output_continues_its_stream(
    s: InteractionState,
    dedup_key: Seq<char>,
    attempt_id: Seq<char>,
    stream: i32,
    byte_offset: u64,
    payload: Seq<u8>,
    frame: ProducerEventView,
)
    requires
        presentable(dedup_key, frame),
        unused(s, frame.run_id, dedup_key),
        !text::blank(attempt_id),
        byte_offset + payload.len() <= i64::MAX,
        s.next_sequences.dom().contains(frame.run_id) ==> s.next_sequences[frame.run_id]
            < i64::MAX,
        forall|i: int|
            0 <= i < s.chunks.len() ==> (#[trigger] s.chunks[i]).attempt_id != attempt_id
                || s.chunks[i].stream != stream || s.chunks[i].byte_offset != byte_offset,
    ensures
        ({
            let (t, r) = super::append_output(
                s,
                dedup_key,
                attempt_id,
                stream,
                byte_offset,
                payload,
                frame,
            );
            let due = super::due_offset(s.chunks, attempt_id, stream);
            &&& byte_offset >= due ==> {
                &&& r is Ok
                &&& r->Ok_0.missing_bytes_before == byte_offset - due
                &&& r->Ok_0.outcome is Inserted
                &&& r->Ok_0.outcome->Inserted_0.event == frame.event
                &&& t.events.len() == s.events.len() + 1
                &&& t.chunks.len() == s.chunks.len() + 1
                &&& super::due_offset(t.chunks, attempt_id, stream) == byte_offset + payload.len()
            }
            &&& byte_offset < due ==> t == s && r == Err::<OutputAppendView, InteractionErrorView>(
                InteractionErrorView::ConflictingOutput { attempt_id, stream, byte_offset },
            )
        }),
{
    new_events_take_the_next_place(s, dedup_key, frame);
    let wanted = |c: super::OutputChunkView|
        c.attempt_id == attempt_id && c.stream == stream && c.byte_offset == byte_offset;
    ordered::first_is_none(s.chunks, wanted);
}

/// A stream of an attempt is due where its last output ended, and another stream's output does not
/// move it.
pub proof fn streams_are_due_where_they_ended(
    chunks: Seq<super::OutputChunkView>,
    more: super::OutputChunkView,
    attempt_id: Seq<char>,
    stream: i32,
)
    requires
        more.byte_offset + more.payload.len() <= u64::MAX,
    ensures
        super::due_offset(Seq::empty(), attempt_id, stream) == 0,
        more.attempt_id == attempt_id && more.stream == stream ==> super::due_offset(
            chunks.push(more),
            attempt_id,
            stream,
        ) == more.byte_offset + more.payload.len(),
        more.attempt_id != attempt_id || more.stream != stream ==> super::due_offset(
            chunks.push(more),
            attempt_id,
            stream,
        ) == super::due_offset(chunks, attempt_id, stream),
{
    assert(chunks.push(more).drop_last() =~= chunks);
}

/// The same output at the same place is a repetition; other bytes there are refused.
pub proof fn output_is_repeated_exactly(
    s: InteractionState,
    dedup_key: Seq<char>,
    attempt_id: Seq<char>,
    stream: i32,
    byte_offset: u64,
    payload: Seq<u8>,
    frame: ProducerEventView,
    i: int,
)
    requires
        presentable(dedup_key, frame),
        !text::blank(attempt_id),
        byte_offset <= i64::MAX,
        0 <= i < s.chunks.len(),
        s.chunks[i].attempt_id == attempt_id,
        s.chunks[i].stream == stream,
        s.chunks[i].byte_offset == byte_offset,
        forall|j: int|
            0 <= j < i ==> (#[trigger] s.chunks[j]).attempt_id != attempt_id || s.chunks[j].stream
                != stream || s.chunks[j].byte_offset != byte_offset,
    ensures
        ({
            let (t, r) = super::append_output(
                s,
                dedup_key,
                attempt_id,
                stream,
                byte_offset,
                payload,
                frame,
            );
            &&& t == s
            &&& s.chunks[i].payload != payload || s.chunks[i].envelope.event != frame.event ==> r
                == Err::<OutputAppendView, InteractionErrorView>(
                InteractionErrorView::ConflictingOutput { attempt_id, stream, byte_offset },
            )
            &&& r is Ok ==> r->Ok_0.outcome == AppendOutcomeView::Duplicate(s.chunks[i].envelope)
                && r->Ok_0.missing_bytes_before == 0
        }),
{
    let wanted = |c: super::OutputChunkView|
        c.attempt_id == attempt_id && c.stream == stream && c.byte_offset == byte_offset;
    ordered::first_is(s.chunks, wanted, i);
}

/// A page holds the events of its run behind the cursor, in their order, and as many as asked for.
pub proof fn pages_follow_the_cursor(
    s: InteractionState,
    run_id: Seq<char>,
    after: u64,
    limit: usize,
    i: int,
)
    requires
        after <= i64::MAX,
        0 < limit <= i64::MAX,
    ensures
        ({
            let r = super::page(s, run_id, after, limit);
            let all = super::events_behind(s, run_id, after);
            &&& r is Ok
            &&& r->Ok_0.len() == if all.len() < limit {
                all.len()
            } else {
                limit as nat
            }
            &&& 0 <= i < r->Ok_0.len() ==> r->Ok_0[i] == all[i].envelope && r->Ok_0[i].run_id
                == run_id && r->Ok_0[i].sequence > after
        }),
        super::page(s, run_id, after, 0) == Ok::<Seq<EventEnvelopeView>, InteractionErrorView>(
            seq![],
        ),
{
    let all = super::events_behind(s, run_id, after);
    let keep = |row: StoredEventView| row.envelope.run_id == run_id && row.envelope.sequence > after;
    if 0 <= i < all.len() {
        assert(all.contains(all[i]));
        ordered::kept_members(s.events, keep, all[i]);
    }
}

/// Every event of the run behind the cursor is listed, and no other.
pub proof fn listings_hold_the_run(s: InteractionState, run_id: Seq<char>, after: u64, row: StoredEventView)
    ensures
        super::events_behind(s, run_id, after).contains(row) <==> s.events.contains(row)
            && row.envelope.run_id == run_id && row.envelope.sequence > after,
        super::events_of(s, run_id).contains(row) <==> s.events.contains(row)
            && row.envelope.run_id == run_id,
{
    ordered::kept_members(
        s.events,
        |row: StoredEventView| row.envelope.run_id == run_id && row.envelope.sequence > after,
        row,
    );
    ordered::kept_members(
        s.events,
        |row: StoredEventView| row.envelope.run_id == run_id,
        row,
    );
}

/// A run can be read by an owner from the grant on until it is revoked, and never again.
pub proof fn grants_open_runs_to_their_owners(
    s: InteractionState,
    run_id: Seq<char>,
    owner_id: Seq<char>,
    now_ms: u64,
    later_ms: u64,
)
    requires
        !text::blank(run_id),
        !text::blank(owner_id),
        now_ms <= i64::MAX,
        later_ms <= i64::MAX,
        !(s.grants.dom().contains(run_id) && s.grants[run_id].dom().contains(owner_id)),
    ensures
        ({
            let (t, granted) = super::grant(s, run_id, owner_id, now_ms);
            let (u, revoked) = super::revoke(t, run_id, owner_id, later_ms);
            let (v, again) = super::grant(u, run_id, owner_id, later_ms);
            &&& super::readable(s, run_id, owner_id) == Ok::<bool, InteractionErrorView>(false)
            &&& granted == Ok::<RunGrantOutcome, InteractionErrorView>(RunGrantOutcome::Granted)
            &&& super::readable(t, run_id, owner_id) == Ok::<bool, InteractionErrorView>(true)
            &&& t.grants[run_id][owner_id].granted_at_ms == now_ms
            &&& super::grant(t, run_id, owner_id, later_ms) == (
                t,
                Ok::<RunGrantOutcome, InteractionErrorView>(RunGrantOutcome::Duplicate),
            )
            &&& revoked == Ok::<RunRevokeOutcome, InteractionErrorView>(RunRevokeOutcome::Revoked)
            &&& u.grants[run_id][owner_id].revoked_at_ms == Some(later_ms)
            &&& super::readable(u, run_id, owner_id) == Ok::<bool, InteractionErrorView>(false)
            &&& super::revoke(u, run_id, owner_id, now_ms) == (
                u,
                Ok::<RunRevokeOutcome, InteractionErrorView>(RunRevokeOutcome::Duplicate),
            )
            &&& again == Err::<RunGrantOutcome, InteractionErrorView>(
                InteractionErrorView::RevokedRunGrant { run_id, owner_id },
            )
            &&& v == u
            &&& super::revoke(s, run_id, owner_id, now_ms) == (
                s,
                Err::<RunRevokeOutcome, InteractionErrorView>(
                    InteractionErrorView::MissingRunGrant { run_id, owner_id },
                ),
            )
            &&& t.events == s.events
            &&& u.events == s.events
        }),
{
}

/// A grant is for one owner and one run: nobody else reads the run for it, nor its owner another.
pub proof fn grants_open_nothing_else(
    s: InteractionState,
    run_id: Seq<char>,
    owner_id: Seq<char>,
    now_ms: u64,
    other_run: Seq<char>,
    other_owner: Seq<char>,
)
    requires
        other_run != run_id || other_owner != owner_id,
    ensures
        super::readable(super::grant(s, run_id, owner_id, now_ms).0, other_run, other_owner)
            == super::readable(s, other_run, other_owner),
        super::readable(super::revoke(s, run_id, owner_id, now_ms).0, other_run, other_owner)
            == super::readable(s, other_run, other_owner),
{
}

/// Nobody reads without a name, and no run without one is read.
pub proof fn readers_are_named(s: InteractionState, run_id: Seq<char>, owner_id: Seq<char>, now_ms: u64)
    requires
        text::blank(run_id) || text::blank(owner_id),
    ensures
        super::readable(s, run_id, owner_id) is Err,
        super::grant(s, run_id, owner_id, now_ms).0 == s,
        super::grant(s, run_id, owner_id, now_ms).1 is Err,
        super::revoke(s, run_id, owner_id, now_ms).0 == s,
        super::revoke(s, run_id, owner_id, now_ms).1 is Err,
{
}

/// The latest place of a run is that of its last event.
pub proof fn the_last_event_is_the_latest(s: InteractionState, more: StoredEventView, run_id: Seq<char>)
    ensures
        ({
            let t = InteractionState { events: s.events.push(more), ..s };
            &&& more.envelope.run_id == run_id ==> super::latest(t, run_id) == Some(
                more.envelope.sequence,
            )
            &&& more.envelope.run_id != run_id ==> super::latest(t, run_id) == super::latest(
                s,
                run_id,
            )
            &&& super::latest(super::empty_log(), run_id) is None
        }),
{
    let t = InteractionState { events: s.events.push(more), ..s };
    assert(t.events.drop_last() =~= s.events);
}

/// An event is taken in only with a key and a run, and in the schema that is known.
pub proof fn unknown_schemas_are_refused(
    s: InteractionState,
    dedup_key: Seq<char>,
    frame: ProducerEventView,
)
    requires
        text::blank(dedup_key) || frame.schema_version != 1 || text::blank(frame.run_id),
    ensures
        super::frame_error(dedup_key, frame) is Some,
        super::append(s, dedup_key, frame).0 == s,
        super::append(s, dedup_key, frame).1 is Err,
{
}

/// A run whose next number could not be followed by another one takes in nothing new.
pub proof fn numbers_do_not_run_out(
    s: InteractionState,
    dedup_key: Seq<char>,
    frame: ProducerEventView,
)
    requires
        super::keyed(s.events, frame.run_id, dedup_key) is None,
        super::next_sequence(s, frame.run_id) >= i64::MAX,
    ensures
        super::append(s, dedup_key, frame).0 == s,
        super::append(s, dedup_key, frame).1 is Err,
{
}

/// Output is refused, and nothing is kept of it, where its attempt is not named, or where it begins
/// or ends beyond what can be stored.
pub proof fn output_stays_in_range(
    s: InteractionState,
    dedup_key: Seq<char>,
    attempt_id: Seq<char>,
    stream: i32,
    byte_offset: u64,
    payload: Seq<u8>,
    frame: ProducerEventView,
)
    requires
        ({
            ||| text::blank(attempt_id)
            ||| byte_offset > i64::MAX
            ||| byte_offset + payload.len() > i64::MAX && payload.len() <= u64::MAX
                && super::placed(s.chunks, attempt_id, stream, byte_offset) is None
        }),
    ensures
        super::append_output(
            s,
            dedup_key,
            attempt_id,
            stream,
            byte_offset,
            payload,
            frame,
        ).0 == s,
        super::append_output(
            s,
            dedup_key,
            attempt_id,
            stream,
            byte_offset,
            payload,
            frame,
        ).1 is Err,
{
}

} // verus!
