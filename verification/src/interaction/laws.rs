//! What holds of the interaction log across its operations.
use super::{
    AppendOutcomeView, InteractionErrorView, InteractionState, OutputAppendView, OutputChunkView,
    RunGrantOutcome, RunRevokeOutcome, StoredEventView,
};
use crate::events;
use crate::events::ProducerEventView;
use crate::ordered;
use crate::text;
use vstd::prelude::*;

verus! {

/// Every run's events carry the sequences 1, 2, 3 and so on, and the next one is the count and
/// one.
pub open spec fn numbered(s: InteractionState) -> bool {
    forall|run_id: Seq<char>| #[trigger]
        run_numbered(super::events_of(s, run_id), super::next_sequence(s, run_id))
}

pub open spec fn run_numbered(rows: Seq<StoredEventView>, next: u64) -> bool {
    &&& next == rows.len() + 1
    &&& forall|i: int| 0 <= i < rows.len() ==> (#[trigger] rows[i]).envelope.sequence == i + 1
}

/// The output of one stream neither overlaps nor goes back.
pub open spec fn disjoint(chunks: Seq<OutputChunkView>) -> bool {
    forall|i: int, j: int|
        0 <= i < j < chunks.len() && chunks[i].attempt_id == chunks[j].attempt_id && chunks[i].stream
            == chunks[j].stream ==> super::ended(
            (#[trigger] chunks[i]).byte_offset,
            chunks[i].payload.len(),
        ) <= (#[trigger] chunks[j]).byte_offset
}

/// A key names one event of its run.
pub open spec fn keys_distinct(events: Seq<StoredEventView>) -> bool {
    forall|i: int, j: int|
        0 <= i < j < events.len() && (#[trigger] events[i]).envelope.run_id == (
        #[trigger] events[j]).envelope.run_id ==> events[i].dedup_key != events[j].dedup_key
}

/// What holds of every log that operations have built.
pub open spec fn sound(s: InteractionState) -> bool {
    &&& numbered(s)
    &&& keys_distinct(s.events)
    &&& disjoint(s.chunks)
}

/// An empty log is sound.
pub proof fn empty_is_sound()
    ensures
        sound(super::empty_log()),
{
}

proof fn one_more_event(s: InteractionState, row: StoredEventView, run_id: Seq<char>)
    ensures
        super::events_of(InteractionState { events: s.events.push(row), ..s }, run_id) == (
        if row.envelope.run_id == run_id {
            super::events_of(s, run_id).push(row)
        } else {
            super::events_of(s, run_id)
        }),
{
    assert(s.events.push(row).drop_last() =~= s.events);
    assert(s.events.push(row).last() == row);
}

proof fn append_valid_is_sound(s: InteractionState, dedup_key: Seq<char>, frame: ProducerEventView)
    requires
        sound(s),
    ensures
        sound(super::append_valid(s, dedup_key, frame).0),
{
    let (t, r) = super::append_valid(s, dedup_key, frame);
    if super::keyed(s.events, frame.run_id, dedup_key) is None && r is Ok {
        let sequence = super::next_sequence(s, frame.run_id);
        let row = StoredEventView { dedup_key, envelope: events::sequenced(frame, sequence) };
        ordered::first_found(
            s.events,
            |row: StoredEventView|
                row.envelope.run_id == frame.run_id && row.dedup_key == dedup_key,
        );
        assert forall|run_id: Seq<char>| #[trigger]
            run_numbered(super::events_of(t, run_id), super::next_sequence(t, run_id)) by {
            one_more_event(s, row, run_id);
            assert(super::events_of(t, run_id) == super::events_of(
                InteractionState { events: s.events.push(row), ..s },
                run_id,
            ));
            assert(run_numbered(super::events_of(s, run_id), super::next_sequence(s, run_id)));
        }
        assert forall|i: int, j: int|
            0 <= i < j < t.events.len() && (#[trigger] t.events[i]).envelope.run_id == (
            #[trigger] t.events[j]).envelope.run_id implies t.events[i].dedup_key
            != t.events[j].dedup_key by {
            assert(t.events[i] == s.events[i]);
            if j < s.events.len() {
                assert(t.events[j] == s.events[j]);
            }
        }
    }
}

/// An append keeps the log sound.
pub proof fn append_is_sound(s: InteractionState, dedup_key: Seq<char>, frame: ProducerEventView)
    requires
        sound(s),
    ensures
        sound(super::append(s, dedup_key, frame).0),
{
    append_valid_is_sound(s, dedup_key, frame);
}

proof fn due_is_behind(chunks: Seq<OutputChunkView>, attempt_id: Seq<char>, stream: i32, i: int)
    requires
        disjoint(chunks),
        0 <= i < chunks.len(),
        chunks[i].attempt_id == attempt_id,
        chunks[i].stream == stream,
    ensures
        super::ended(chunks[i].byte_offset, chunks[i].payload.len()) <= super::due_offset(
            chunks,
            attempt_id,
            stream,
        ),
    decreases chunks.len(),
{
    let last = chunks.len() - 1;
    let rest = chunks.drop_last();
    if chunks.last().attempt_id == attempt_id && chunks.last().stream == stream {
        if i < last {
            assert(super::ended(chunks[i].byte_offset, chunks[i].payload.len())
                <= chunks[last].byte_offset);
        }
    } else {
        assert(rest[i] == chunks[i]);
        assert forall|a: int, b: int|
            0 <= a < b < rest.len() && rest[a].attempt_id == rest[b].attempt_id && rest[a].stream
                == rest[b].stream implies super::ended(
            (#[trigger] rest[a]).byte_offset,
            rest[a].payload.len(),
        ) <= (#[trigger] rest[b]).byte_offset by {
            assert(rest[a] == chunks[a] && rest[b] == chunks[b]);
        }
        due_is_behind(rest, attempt_id, stream, i);
    }
}

/// An append of output keeps the log sound.
pub proof fn output_is_sound(
    s: InteractionState,
    dedup_key: Seq<char>,
    attempt_id: Seq<char>,
    stream: i32,
    byte_offset: u64,
    payload: Seq<u8>,
    frame: ProducerEventView,
)
    requires
        sound(s),
    ensures
        sound(
            super::append_output(
                s,
                dedup_key,
                attempt_id,
                stream,
                byte_offset,
                payload,
                frame,
            ).0,
        ),
{
    append_valid_is_sound(s, dedup_key, frame);
    let t = super::append_valid(s, dedup_key, frame).0;
    let u = super::append_output(
        s,
        dedup_key,
        attempt_id,
        stream,
        byte_offset,
        payload,
        frame,
    ).0;
    if u.chunks != s.chunks {
        assert(u.events == t.events);
        assert(u.next_sequences == t.next_sequences);
        assert forall|run_id: Seq<char>| #[trigger]
            run_numbered(super::events_of(u, run_id), super::next_sequence(u, run_id)) by {
            assert(run_numbered(super::events_of(t, run_id), super::next_sequence(t, run_id)));
        }
        assert forall|i: int, j: int|
            0 <= i < j < u.chunks.len() && u.chunks[i].attempt_id == u.chunks[j].attempt_id
                && u.chunks[i].stream == u.chunks[j].stream implies super::ended(
            (#[trigger] u.chunks[i]).byte_offset,
            u.chunks[i].payload.len(),
        ) <= (#[trigger] u.chunks[j]).byte_offset by {
            assert(u.chunks[i] == s.chunks[i]);
            if j < s.chunks.len() {
                assert(u.chunks[j] == s.chunks[j]);
            } else {
                due_is_behind(s.chunks, attempt_id, stream, i);
            }
        }
    } else {
        assert(u == s || u == t);
    }
}

/// Granting and revoking leave the events alone, so they keep the log sound.
pub proof fn grants_are_sound(
    s: InteractionState,
    run_id: Seq<char>,
    owner_id: Seq<char>,
    now_ms: u64,
)
    requires
        sound(s),
    ensures
        sound(super::grant(s, run_id, owner_id, now_ms).0),
        sound(super::revoke(s, run_id, owner_id, now_ms).0),
{
    let t = super::grant(s, run_id, owner_id, now_ms).0;
    let u = super::revoke(s, run_id, owner_id, now_ms).0;
    assert forall|run: Seq<char>| #[trigger]
        run_numbered(super::events_of(t, run), super::next_sequence(t, run)) by {
        assert(run_numbered(super::events_of(s, run), super::next_sequence(s, run)));
    }
    assert forall|run: Seq<char>| #[trigger]
        run_numbered(super::events_of(u, run), super::next_sequence(u, run)) by {
        assert(run_numbered(super::events_of(s, run), super::next_sequence(s, run)));
    }
}

/// In a sound log the newest event of a run has the greatest sequence, which is the number of the
/// run's events.
pub proof fn the_newest_event_is_the_latest(s: InteractionState, run_id: Seq<char>, i: int)
    requires
        sound(s),
        0 <= i < super::events_of(s, run_id).len(),
    ensures
        super::latest(s, run_id) == Some(super::events_of(s, run_id).len() as u64),
        super::events_of(s, run_id)[i].envelope.sequence <= super::latest(s, run_id)->0,
{
    assert(run_numbered(super::events_of(s, run_id), super::next_sequence(s, run_id)));
}

/// A frame that says what a stored one says is answered with the stored event, whichever process
/// emits it and whenever, and changes nothing.
pub proof fn appends_are_idempotent(
    s: InteractionState,
    dedup_key: Seq<char>,
    frame: ProducerEventView,
    replay: ProducerEventView,
)
    requires
        super::append(s, dedup_key, frame).1 is Ok,
        super::fingerprint(replay) == super::fingerprint(frame),
    ensures
        ({
            let (t, first) = super::append(s, dedup_key, frame);
            super::append(t, dedup_key, replay) == (
                t,
                Ok::<AppendOutcomeView, InteractionErrorView>(
                    AppendOutcomeView::Duplicate(first->Ok_0.canonical()),
                ),
            )
        }),
{
    stored_is_found(s, dedup_key, frame);
}

proof fn stored_is_found(s: InteractionState, dedup_key: Seq<char>, frame: ProducerEventView)
    requires
        super::append(s, dedup_key, frame).1 is Ok,
    ensures
        ({
            let (t, r) = super::append(s, dedup_key, frame);
            &&& super::keyed(t.events, frame.run_id, dedup_key) matches Some(i)
            &&& t.events[i].envelope == r->Ok_0.canonical()
            &&& super::stored_fingerprint(t.events[i].envelope) == super::fingerprint(frame)
        }),
{
    let t = super::append(s, dedup_key, frame).0;
    let wanted = |row: StoredEventView|
        row.envelope.run_id == frame.run_id && row.dedup_key == dedup_key;
    ordered::first_found(s.events, wanted);
    if super::keyed(s.events, frame.run_id, dedup_key) is None {
        assert forall|j: int| 0 <= j < s.events.len() implies !wanted(#[trigger] t.events[j]) by {
            assert(t.events[j] == s.events[j]);
        }
        ordered::first_is(t.events, wanted, s.events.len() as int);
    }
}

/// Other content under the key of a stored event is refused and nothing changes.
pub proof fn changed_content_conflicts(
    s: InteractionState,
    dedup_key: Seq<char>,
    frame: ProducerEventView,
    changed: ProducerEventView,
)
    requires
        super::append(s, dedup_key, frame).1 is Ok,
        super::frame_error(dedup_key, changed) is None,
        changed.run_id == frame.run_id,
        super::fingerprint(changed) != super::fingerprint(frame),
    ensures
        ({
            let t = super::append(s, dedup_key, frame).0;
            super::append(t, dedup_key, changed) == (
                t,
                Err::<AppendOutcomeView, _>(InteractionErrorView::ConflictingDedupKey(dedup_key)),
            )
        }),
{
    stored_is_found(s, dedup_key, frame);
}

/// Output that came once is answered as a repetition with nothing missing, and changes nothing.
pub proof fn output_is_idempotent(
    s: InteractionState,
    dedup_key: Seq<char>,
    attempt_id: Seq<char>,
    stream: i32,
    byte_offset: u64,
    payload: Seq<u8>,
    frame: ProducerEventView,
    replay: ProducerEventView,
)
    requires
        super::append_output(s, dedup_key, attempt_id, stream, byte_offset, payload, frame).1 is Ok,
        super::fingerprint(replay) == super::fingerprint(frame),
    ensures
        ({
            let (t, first) = super::append_output(
                s,
                dedup_key,
                attempt_id,
                stream,
                byte_offset,
                payload,
                frame,
            );
            super::append_output(
                t,
                dedup_key,
                attempt_id,
                stream,
                byte_offset,
                payload,
                replay,
            ) == (
                t,
                Ok::<OutputAppendView, InteractionErrorView>(
                    OutputAppendView {
                        outcome: AppendOutcomeView::Duplicate(first->Ok_0.outcome.canonical()),
                        missing_bytes_before: 0,
                    },
                ),
            )
        }),
{
    let t = super::append_output(
        s,
        dedup_key,
        attempt_id,
        stream,
        byte_offset,
        payload,
        frame,
    ).0;
    let wanted = |c: OutputChunkView|
        c.attempt_id == attempt_id && c.stream == stream && c.byte_offset == byte_offset;
    ordered::first_found(s.chunks, wanted);
    if super::placed(s.chunks, attempt_id, stream, byte_offset) is None {
        stored_is_found(s, dedup_key, frame);
        assert forall|j: int| 0 <= j < s.chunks.len() implies !wanted(#[trigger] t.chunks[j]) by {
            assert(t.chunks[j] == s.chunks[j]);
        }
        ordered::first_is(t.chunks, wanted, s.chunks.len() as int);
    }
}

/// Output that starts inside what came already is refused and nothing changes.
pub proof fn overlap_conflicts(
    s: InteractionState,
    dedup_key: Seq<char>,
    attempt_id: Seq<char>,
    stream: i32,
    byte_offset: u64,
    payload: Seq<u8>,
    frame: ProducerEventView,
)
    requires
        super::frame_error(dedup_key, frame) is None,
        !text::blank(attempt_id),
        byte_offset <= i64::MAX,
        super::placed(s.chunks, attempt_id, stream, byte_offset) is None,
        byte_offset < super::due_offset(s.chunks, attempt_id, stream),
    ensures
        super::append_output(s, dedup_key, attempt_id, stream, byte_offset, payload, frame) == (
            s,
            Err::<OutputAppendView, _>(
                InteractionErrorView::ConflictingOutput { attempt_id, stream, byte_offset },
            ),
        ),
{
}

/// A grant given twice is one grant.
pub proof fn grants_are_idempotent(
    s: InteractionState,
    run_id: Seq<char>,
    owner_id: Seq<char>,
    first_ms: u64,
    again_ms: u64,
)
    requires
        super::grant(s, run_id, owner_id, first_ms).1 is Ok,
    ensures
        ({
            let t = super::grant(s, run_id, owner_id, first_ms).0;
            &&& super::grant(t, run_id, owner_id, again_ms) == (
                t,
                Ok::<RunGrantOutcome, InteractionErrorView>(RunGrantOutcome::Duplicate),
            )
            &&& super::readable(t, run_id, owner_id) == Ok::<bool, InteractionErrorView>(true)
        }),
{
}

/// Revocation is terminal: the owner cannot read the run, cannot be granted it again, and a
/// second revocation changes nothing.
pub proof fn revocation_is_terminal(
    s: InteractionState,
    run_id: Seq<char>,
    owner_id: Seq<char>,
    revoked_ms: u64,
    later_ms: u64,
)
    requires
        super::revoke(s, run_id, owner_id, revoked_ms).1 is Ok,
    ensures
        ({
            let t = super::revoke(s, run_id, owner_id, revoked_ms).0;
            &&& super::readable(t, run_id, owner_id) == Ok::<bool, InteractionErrorView>(false)
            &&& super::grant(t, run_id, owner_id, later_ms) == (
                t,
                Err::<RunGrantOutcome, _>(
                    InteractionErrorView::RevokedRunGrant { run_id, owner_id },
                ),
            )
            &&& super::revoke(t, run_id, owner_id, later_ms) == (
                t,
                Ok::<RunRevokeOutcome, InteractionErrorView>(RunRevokeOutcome::Duplicate),
            )
        }),
{
}

/// Granting or revoking for one owner of one run touches no other grant.
pub proof fn grants_are_independent(
    s: InteractionState,
    run_id: Seq<char>,
    owner_id: Seq<char>,
    now_ms: u64,
    other_run: Seq<char>,
    other_owner: Seq<char>,
)
    requires
        other_run != run_id || other_owner != owner_id,
    ensures
        super::grant_of(super::grant(s, run_id, owner_id, now_ms).0, other_run, other_owner)
            == super::grant_of(s, other_run, other_owner),
        super::grant_of(super::revoke(s, run_id, owner_id, now_ms).0, other_run, other_owner)
            == super::grant_of(s, other_run, other_owner),
{
}

} // verus!
