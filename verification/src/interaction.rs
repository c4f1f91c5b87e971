//! The interaction log: the canonical events of each run, correlated output and read grants.
pub mod conduct;
pub mod laws;
pub mod store;

use crate::events;
use crate::events::{
    Authority, EventEnvelope, EventEnvelopeView, EventView, ProducerEvent, ProducerEventView,
    Visibility, SCHEMA_VERSION,
};
use crate::ordered;
use crate::text;
use vstd::prelude::*;
use vstd::string::*;

verus! {

/// Why the interaction log refuses a request.
#[derive(Debug, PartialEq, Eq)]
pub enum InteractionError {
    Storage(String),
    Encoding(String),
    InvalidFrame(String),
    ConflictingDedupKey(String),
    ConflictingOutput { attempt_id: String, stream: i32, byte_offset: u64 },
    InvalidCursor { run_id: String, after_sequence: u64, latest_sequence: u64 },
    RevokedRunGrant { run_id: String, owner_id: String },
    MissingRunGrant { run_id: String, owner_id: String },
    ValueOutOfRange(u64),
    InvalidSubscriptionCapacity,
    LockPoisoned,
}

pub ghost enum InteractionErrorView {
    Storage(Seq<char>),
    Encoding(Seq<char>),
    InvalidFrame(Seq<char>),
    ConflictingDedupKey(Seq<char>),
    ConflictingOutput { attempt_id: Seq<char>, stream: i32, byte_offset: u64 },
    InvalidCursor { run_id: Seq<char>, after_sequence: u64, latest_sequence: u64 },
    RevokedRunGrant { run_id: Seq<char>, owner_id: Seq<char> },
    MissingRunGrant { run_id: Seq<char>, owner_id: Seq<char> },
    ValueOutOfRange(u64),
    InvalidSubscriptionCapacity,
    LockPoisoned,
}

impl View for InteractionError {
    type V = InteractionErrorView;

    open spec fn view(&self) -> InteractionErrorView {
        match *self {
            InteractionError::Storage(d) => InteractionErrorView::Storage(d@),
            InteractionError::Encoding(d) => InteractionErrorView::Encoding(d@),
            InteractionError::InvalidFrame(d) => InteractionErrorView::InvalidFrame(d@),
            InteractionError::ConflictingDedupKey(k) => InteractionErrorView::ConflictingDedupKey(
                k@,
            ),
            InteractionError::ConflictingOutput { attempt_id, stream, byte_offset } =>
                InteractionErrorView::ConflictingOutput {
                attempt_id: attempt_id@,
                stream,
                byte_offset,
            },
            InteractionError::InvalidCursor { run_id, after_sequence, latest_sequence } =>
                InteractionErrorView::InvalidCursor {
                run_id: run_id@,
                after_sequence,
                latest_sequence,
            },
            InteractionError::RevokedRunGrant { run_id, owner_id } =>
                InteractionErrorView::RevokedRunGrant { run_id: run_id@, owner_id: owner_id@ },
            InteractionError::MissingRunGrant { run_id, owner_id } =>
                InteractionErrorView::MissingRunGrant { run_id: run_id@, owner_id: owner_id@ },
            InteractionError::ValueOutOfRange(v) => InteractionErrorView::ValueOutOfRange(v),
            InteractionError::InvalidSubscriptionCapacity =>
                InteractionErrorView::InvalidSubscriptionCapacity,
            InteractionError::LockPoisoned => InteractionErrorView::LockPoisoned,
        }
    }
}

impl InteractionErrorView {
    /// The text of a refusal.
    pub open spec fn text(self) -> Seq<char> {
        match self {
            InteractionErrorView::Storage(d) => "interaction storage error: "@ + d,
            InteractionErrorView::Encoding(d) => "interaction encoding error: "@ + d,
            InteractionErrorView::InvalidFrame(d) => "invalid interaction event: "@ + d,
            InteractionErrorView::ConflictingDedupKey(k) => "interaction dedup key "@ + k
                + " has conflicting content"@,
            InteractionErrorView::ConflictingOutput { attempt_id, stream, byte_offset } =>
                "attempt "@ + attempt_id + " stream "@ + text::signed_decimal(stream as int)
                + " has conflicting output at "@ + text::decimal(byte_offset as nat),
            InteractionErrorView::InvalidCursor { run_id, after_sequence, latest_sequence } =>
                "interaction cursor "@ + text::decimal(after_sequence as nat) + " is beyond run "@
                + run_id + " high-water mark "@ + text::decimal(latest_sequence as nat),
            InteractionErrorView::RevokedRunGrant { run_id, owner_id } =>
                "interaction access for owner "@ + owner_id + " to run "@ + run_id
                + " was revoked"@,
            InteractionErrorView::MissingRunGrant { run_id, owner_id } =>
                "interaction access for owner "@ + owner_id + " to run "@ + run_id
                + " does not exist"@,
            InteractionErrorView::ValueOutOfRange(v) => "interaction value "@ + text::decimal(
                v as nat,
            ) + " exceeds SQLite range"@,
            InteractionErrorView::InvalidSubscriptionCapacity =>
                "interaction subscription capacity must be positive"@,
            InteractionErrorView::LockPoisoned => "interaction store lock poisoned"@,
        }
    }
}

impl InteractionError {
    /// The text of a refusal.
    pub fn message(&self) -> (r: String)
        ensures
            r@ == self@.text(),
    {
        match self {
            InteractionError::Storage(d) => text::concat(
                "interaction storage error: ",
                d.as_str(),
            ),
            InteractionError::Encoding(d) => text::concat(
                "interaction encoding error: ",
                d.as_str(),
            ),
            InteractionError::InvalidFrame(d) => text::concat(
                "invalid interaction event: ",
                d.as_str(),
            ),
            InteractionError::ConflictingDedupKey(k) => text::enclosed(
                "interaction dedup key ",
                k.as_str(),
                " has conflicting content",
            ),
            InteractionError::ConflictingOutput { attempt_id, stream, byte_offset } => {
                let mut out = text::enclosed("attempt ", attempt_id.as_str(), " stream ");
                text::push_signed(&mut out, *stream as i64);
                out.append(" has conflicting output at ");
                text::push_decimal(&mut out, *byte_offset);
                out
            },
            InteractionError::InvalidCursor { run_id, after_sequence, latest_sequence } => {
                let mut out = "interaction cursor ".to_owned();
                text::push_decimal(&mut out, *after_sequence);
                out.append(" is beyond run ");
                out.append(run_id.as_str());
                out.append(" high-water mark ");
                text::push_decimal(&mut out, *latest_sequence);
                out
            },
            InteractionError::RevokedRunGrant { run_id, owner_id } => {
                let mut out = text::enclosed(
                    "interaction access for owner ",
                    owner_id.as_str(),
                    " to run ",
                );
                out.append(run_id.as_str());
                out.append(" was revoked");
                out
            },
            InteractionError::MissingRunGrant { run_id, owner_id } => {
                let mut out = text::enclosed(
                    "interaction access for owner ",
                    owner_id.as_str(),
                    " to run ",
                );
                out.append(run_id.as_str());
                out.append(" does not exist");
                out
            },
            InteractionError::ValueOutOfRange(v) => {
                let mut out = "interaction value ".to_owned();
                text::push_decimal(&mut out, *v);
                out.append(" exceeds SQLite range");
                out
            },
            InteractionError::InvalidSubscriptionCapacity =>
                "interaction subscription capacity must be positive".to_owned(),
            InteractionError::LockPoisoned => "interaction store lock poisoned".to_owned(),
        }
    }
}

/// Whether an append stored an event or found it stored.
#[derive(Debug, PartialEq, Eq)]
pub enum AppendOutcome {
    Inserted(EventEnvelope),
    Duplicate(EventEnvelope),
}

pub ghost enum AppendOutcomeView {
    Inserted(EventEnvelopeView),
    Duplicate(EventEnvelopeView),
}

impl View for AppendOutcome {
    type V = AppendOutcomeView;

    open spec fn view(&self) -> AppendOutcomeView {
        match *self {
            AppendOutcome::Inserted(e) => AppendOutcomeView::Inserted(e@),
            AppendOutcome::Duplicate(e) => AppendOutcomeView::Duplicate(e@),
        }
    }
}

impl AppendOutcomeView {
    /// The canonical event either way.
    pub open spec fn canonical(self) -> EventEnvelopeView {
        match self {
            AppendOutcomeView::Inserted(e) => e,
            AppendOutcomeView::Duplicate(e) => e,
        }
    }
}

impl AppendOutcome {
    /// The canonical event either way.
    #[must_use]
    pub fn envelope(&self) -> (r: &EventEnvelope)
        ensures
            r@ == self@.canonical(),
    {
        match self {
            AppendOutcome::Inserted(envelope) => envelope,
            AppendOutcome::Duplicate(envelope) => envelope,
        }
    }
}

/// An append of output, and how many bytes are missing in front of it.
#[derive(Debug, PartialEq, Eq)]
pub struct OutputAppend {
    pub outcome: AppendOutcome,
    pub missing_bytes_before: u64,
}

pub ghost struct OutputAppendView {
    pub outcome: AppendOutcomeView,
    pub missing_bytes_before: u64,
}

impl View for OutputAppend {
    type V = OutputAppendView;

    open spec fn view(&self) -> OutputAppendView {
        OutputAppendView {
            outcome: self.outcome@,
            missing_bytes_before: self.missing_bytes_before,
        }
    }
}

#[derive(Clone, Copy, Debug, PartialEq, Eq, Structural)]
pub enum RunGrantOutcome {
    Granted,
    Duplicate,
}

#[derive(Clone, Copy, Debug, PartialEq, Eq, Structural)]
pub enum RunRevokeOutcome {
    Revoked,
    Duplicate,
}

/// One canonical event with the key that tells repetitions.
pub ghost struct StoredEventView {
    pub dedup_key: Seq<char>,
    pub envelope: EventEnvelopeView,
}

/// Raw output bytes with the event that shows them.
pub ghost struct OutputChunkView {
    pub attempt_id: Seq<char>,
    pub stream: i32,
    pub byte_offset: u64,
    pub payload: Seq<u8>,
    pub envelope: EventEnvelopeView,
}

/// A read grant: it was given once and may have been taken back once.
#[derive(Clone, Copy, Debug, PartialEq, Eq, Structural)]
pub struct RunGrant {
    pub granted_at_ms: u64,
    pub revoked_at_ms: Option<u64>,
}

/// All that the log holds: the next sequence of each run, events and output in the order in which
/// they came, and grants by run and owner.
pub ghost struct InteractionState {
    pub next_sequences: Map<Seq<char>, u64>,
    pub events: Seq<StoredEventView>,
    pub chunks: Seq<OutputChunkView>,
    pub grants: Map<Seq<char>, Map<Seq<char>, RunGrant>>,
}

/// A log that holds nothing.
pub open spec fn empty_log() -> InteractionState {
    InteractionState {
        next_sequences: Map::empty(),
        events: seq![],
        chunks: seq![],
        grants: Map::empty(),
    }
}

/// What must agree between an event and its repetition: not the producer's instance, its own
/// count, or the time.
pub ghost struct Fingerprint {
    pub schema_version: u16,
    pub run_id: Seq<char>,
    pub task_id: Option<Seq<char>>,
    pub turn_id: Option<Seq<char>>,
    pub operation_id: Option<Seq<char>>,
    pub parent_operation_id: Option<Seq<char>>,
    pub producer_component: Seq<char>,
    pub authority: Authority,
    pub visibility: Visibility,
    pub event: EventView,
}

/// What a frame says, whenever and by whichever process it was emitted.
pub open spec fn fingerprint(frame: ProducerEventView) -> Fingerprint {
    Fingerprint {
        schema_version: frame.schema_version,
        run_id: frame.run_id,
        task_id: frame.task_id,
        turn_id: frame.turn_id,
        operation_id: frame.operation_id,
        parent_operation_id: frame.parent_operation_id,
        producer_component: frame.producer.component,
        authority: frame.authority,
        visibility: frame.visibility,
        event: frame.event,
    }
}

/// What a canonical event says.
pub open spec fn stored_fingerprint(envelope: EventEnvelopeView) -> Fingerprint {
    Fingerprint {
        schema_version: envelope.schema_version,
        run_id: envelope.run_id,
        task_id: envelope.task_id,
        turn_id: envelope.turn_id,
        operation_id: envelope.operation_id,
        parent_operation_id: envelope.parent_operation_id,
        producer_component: envelope.producer.component,
        authority: envelope.authority,
        visibility: envelope.visibility,
        event: envelope.event,
    }
}

/// Whether a frame repeats a canonical event.
pub(crate) fn repeats(frame: &ProducerEvent, envelope: &EventEnvelope) -> (r: bool)
    ensures
        r == (fingerprint(frame@) == stored_fingerprint(envelope@)),
{
    frame.schema_version == envelope.schema_version && text::same(
        frame.run_id.as_str(),
        envelope.run_id.as_str(),
    ) && text::same_optional(&frame.task_id, &envelope.task_id) && text::same_optional(
        &frame.turn_id,
        &envelope.turn_id,
    ) && text::same_optional(&frame.operation_id, &envelope.operation_id) && text::same_optional(
        &frame.parent_operation_id,
        &envelope.parent_operation_id,
    ) && text::same(frame.producer.component.as_str(), envelope.producer.component.as_str())
        && frame.authority == envelope.authority && frame.visibility == envelope.visibility
        && frame.event.same(&envelope.event)
}

/// Why a frame cannot be appended whatever is stored.
pub open spec fn frame_error(
    dedup_key: Seq<char>,
    frame: ProducerEventView,
) -> Option<InteractionErrorView> {
    if text::blank(dedup_key) {
        Some(InteractionErrorView::InvalidFrame("deduplication key is missing"@))
    } else if frame.schema_version != SCHEMA_VERSION {
        Some(
            InteractionErrorView::InvalidFrame(
                "unsupported schema "@ + text::decimal(frame.schema_version as nat),
            ),
        )
    } else if text::blank(frame.run_id) {
        Some(InteractionErrorView::InvalidFrame("run identity is missing"@))
    } else {
        None
    }
}

pub(crate) fn validate_input(dedup_key: &str, frame: &ProducerEvent) -> (r: Result<
    (),
    InteractionError,
>)
    ensures
        match frame_error(dedup_key@, frame@) {
            Some(e) => r matches Err(error) && error@ == e,
            None => r is Ok,
        },
{
    if text::is_blank(dedup_key) {
        return Err(InteractionError::InvalidFrame("deduplication key is missing".to_owned()));
    }
    if frame.schema_version != SCHEMA_VERSION {
        let mut detail = "unsupported schema ".to_owned();
        text::push_decimal(&mut detail, frame.schema_version as u64);
        return Err(InteractionError::InvalidFrame(detail));
    }
    if text::is_blank(frame.run_id.as_str()) {
        return Err(InteractionError::InvalidFrame("run identity is missing".to_owned()));
    }
    Ok(())
}

/// Why a grant cannot be named.
pub open spec fn grant_error(run_id: Seq<char>, owner_id: Seq<char>) -> Option<
    InteractionErrorView,
> {
    if text::blank(run_id) {
        Some(InteractionErrorView::InvalidFrame("run grant identity is missing"@))
    } else if text::blank(owner_id) {
        Some(InteractionErrorView::InvalidFrame("run grant owner is missing"@))
    } else {
        None
    }
}

pub(crate) fn validate_run_owner(run_id: &str, owner_id: &str) -> (r: Result<(), InteractionError>)
    ensures
        match grant_error(run_id@, owner_id@) {
            Some(e) => r matches Err(error) && error@ == e,
            None => r is Ok,
        },
{
    if text::is_blank(run_id) {
        return Err(InteractionError::InvalidFrame("run grant identity is missing".to_owned()));
    }
    if text::is_blank(owner_id) {
        return Err(InteractionError::InvalidFrame("run grant owner is missing".to_owned()));
    }
    Ok(())
}

/// The sequence that the next event of a run gets.
pub open spec fn next_sequence(s: InteractionState, run_id: Seq<char>) -> u64 {
    if s.next_sequences.dom().contains(run_id) {
        s.next_sequences[run_id]
    } else {
        1
    }
}

/// The place of the stored event with the given run and key.
pub open spec fn keyed(
    events: Seq<StoredEventView>,
    run_id: Seq<char>,
    dedup_key: Seq<char>,
) -> Option<int> {
    ordered::first(
        events,
        |row: StoredEventView| row.envelope.run_id == run_id && row.dedup_key == dedup_key,
    )
}

/// Appends a valid frame: a repetition changes nothing, other content under the same key is
/// refused, and a new event takes the next sequence of its run.
pub open spec fn append_valid(
    s: InteractionState,
    dedup_key: Seq<char>,
    frame: ProducerEventView,
) -> (InteractionState, Result<AppendOutcomeView, InteractionErrorView>) {
    match keyed(s.events, frame.run_id, dedup_key) {
        Some(i) => if stored_fingerprint(s.events[i].envelope) == fingerprint(frame) {
            (s, Ok(AppendOutcomeView::Duplicate(s.events[i].envelope)))
        } else {
            (s, Err(InteractionErrorView::ConflictingDedupKey(dedup_key)))
        },
        None => {
            let sequence = next_sequence(s, frame.run_id);
            if sequence > i64::MAX {
                (s, Err(InteractionErrorView::ValueOutOfRange(sequence)))
            } else if events::successor(sequence) > i64::MAX {
                (s, Err(InteractionErrorView::ValueOutOfRange(events::successor(sequence))))
            } else {
                let envelope = events::sequenced(frame, sequence);
                (
                    InteractionState {
                        next_sequences: s.next_sequences.insert(
                            frame.run_id,
                            events::successor(sequence),
                        ),
                        events: s.events.push(StoredEventView { dedup_key, envelope }),
                        ..s
                    },
                    Ok(AppendOutcomeView::Inserted(envelope)),
                )
            }
        },
    }
}

/// Appends or idempotently replays one canonical event.
pub open spec fn append(
    s: InteractionState,
    dedup_key: Seq<char>,
    frame: ProducerEventView,
) -> (InteractionState, Result<AppendOutcomeView, InteractionErrorView>) {
    match frame_error(dedup_key, frame) {
        Some(e) => (s, Err(e)),
        None => append_valid(s, dedup_key, frame),
    }
}

/// The sum, or the largest number where it is larger.
pub open spec fn ended(byte_offset: u64, len: nat) -> u64 {
    if byte_offset + len > u64::MAX {
        u64::MAX
    } else {
        (byte_offset + len) as u64
    }
}

/// Where the next output of a stream is due: behind the newest that came.
pub open spec fn due_offset(chunks: Seq<OutputChunkView>, attempt_id: Seq<char>, stream: i32) -> u64
    decreases chunks.len(),
{
    if chunks.len() == 0 {
        0
    } else if chunks.last().attempt_id == attempt_id && chunks.last().stream == stream {
        ended(chunks.last().byte_offset, chunks.last().payload.len())
    } else {
        due_offset(chunks.drop_last(), attempt_id, stream)
    }
}

/// The place of the output that starts at the given byte of a stream.
pub open spec fn placed(
    chunks: Seq<OutputChunkView>,
    attempt_id: Seq<char>,
    stream: i32,
    byte_offset: u64,
) -> Option<int> {
    ordered::first(
        chunks,
        |c: OutputChunkView|
            c.attempt_id == attempt_id && c.stream == stream && c.byte_offset == byte_offset,
    )
}

/// Appends output: exact repetitions are idempotent, gaps are reported, overlap is refused.
pub open spec fn append_output(
    s: InteractionState,
    dedup_key: Seq<char>,
    attempt_id: Seq<char>,
    stream: i32,
    byte_offset: u64,
    payload: Seq<u8>,
    frame: ProducerEventView,
) -> (InteractionState, Result<OutputAppendView, InteractionErrorView>) {
    let conflict = InteractionErrorView::ConflictingOutput { attempt_id, stream, byte_offset };
    let due = due_offset(s.chunks, attempt_id, stream);
    let (t, appended) = append_valid(s, dedup_key, frame);
    let end = ended(byte_offset, payload.len());
    match frame_error(dedup_key, frame) {
        Some(e) => (s, Err(e)),
        None => if text::blank(attempt_id) {
            (s, Err(InteractionErrorView::InvalidFrame("output attempt identity is missing"@)))
        } else if byte_offset > i64::MAX {
            (s, Err(InteractionErrorView::ValueOutOfRange(byte_offset)))
        } else {
            match placed(s.chunks, attempt_id, stream, byte_offset) {
                Some(i) => if s.chunks[i].payload != payload || stored_fingerprint(
                    s.chunks[i].envelope,
                ) != fingerprint(frame) {
                    (s, Err(conflict))
                } else {
                    (
                        s,
                        Ok(
                            OutputAppendView {
                                outcome: AppendOutcomeView::Duplicate(s.chunks[i].envelope),
                                missing_bytes_before: 0,
                            },
                        ),
                    )
                },
                None => if byte_offset < due {
                    (s, Err(conflict))
                } else {
                    match appended {
                        Err(e) => (s, Err(e)),
                        Ok(outcome) => if outcome.canonical().sequence > i64::MAX {
                            (
                                s,
                                Err(
                                    InteractionErrorView::ValueOutOfRange(
                                        outcome.canonical().sequence,
                                    ),
                                ),
                            )
                        } else if end > i64::MAX {
                            (s, Err(InteractionErrorView::ValueOutOfRange(end)))
                        } else {
                            (
                                InteractionState {
                                    chunks: s.chunks.push(
                                        OutputChunkView {
                                            attempt_id,
                                            stream,
                                            byte_offset,
                                            payload,
                                            envelope: outcome.canonical(),
                                        },
                                    ),
                                    ..t
                                },
                                Ok(
                                    OutputAppendView {
                                        outcome,
                                        missing_bytes_before: (byte_offset - due) as u64,
                                    },
                                ),
                            )
                        },
                    }
                },
            }
        },
    }
}

/// The canonical events of a run in the order in which they came.
pub open spec fn events_of(s: InteractionState, run_id: Seq<char>) -> Seq<StoredEventView> {
    ordered::kept(s.events, |row: StoredEventView| row.envelope.run_id == run_id)
}

/// The canonical events of a run behind a sequence.
pub open spec fn events_behind(s: InteractionState, run_id: Seq<char>, after: u64) -> Seq<
    StoredEventView,
> {
    ordered::kept(
        s.events,
        |row: StoredEventView| row.envelope.run_id == run_id && row.envelope.sequence > after,
    )
}

pub open spec fn envelopes(rows: Seq<StoredEventView>) -> Seq<EventEnvelopeView> {
    Seq::new(rows.len(), |i: int| rows[i].envelope)
}

pub open spec fn envelope_views(rows: Seq<EventEnvelope>) -> Seq<EventEnvelopeView> {
    Seq::new(rows.len(), |i: int| rows[i]@)
}

/// At most `limit` events of a run behind a sequence.
pub open spec fn page(s: InteractionState, run_id: Seq<char>, after: u64, limit: usize) -> Result<
    Seq<EventEnvelopeView>,
    InteractionErrorView,
> {
    let rows = envelopes(events_behind(s, run_id, after));
    if limit == 0 {
        Ok(seq![])
    } else if after > i64::MAX {
        Err(InteractionErrorView::ValueOutOfRange(after))
    } else if limit > i64::MAX {
        Err(InteractionErrorView::ValueOutOfRange(u64::MAX))
    } else if limit <= rows.len() {
        Ok(rows.take(limit as int))
    } else {
        Ok(rows)
    }
}

/// The greatest sequence of a run: that of its newest event.
pub open spec fn latest(s: InteractionState, run_id: Seq<char>) -> Option<u64> {
    let rows = events_of(s, run_id);
    if rows.len() == 0 {
        None
    } else {
        Some(rows.last().envelope.sequence)
    }
}

/// The grant of an owner on a run.
pub open spec fn grant_of(s: InteractionState, run_id: Seq<char>, owner_id: Seq<char>) -> Option<
    RunGrant,
> {
    if s.grants.dom().contains(run_id) && s.grants[run_id].dom().contains(owner_id) {
        Some(s.grants[run_id][owner_id])
    } else {
        None
    }
}

/// The log with one grant set.
pub open spec fn with_grant(
    s: InteractionState,
    run_id: Seq<char>,
    owner_id: Seq<char>,
    grant: RunGrant,
) -> InteractionState {
    let owners = if s.grants.dom().contains(run_id) {
        s.grants[run_id]
    } else {
        Map::empty()
    };
    InteractionState { grants: s.grants.insert(run_id, owners.insert(owner_id, grant)), ..s }
}

/// Grants an owner read access to a run; a revoked grant stays revoked.
pub open spec fn grant(s: InteractionState, run_id: Seq<char>, owner_id: Seq<char>, now_ms: u64) -> (
    InteractionState,
    Result<RunGrantOutcome, InteractionErrorView>,
) {
    match grant_error(run_id, owner_id) {
        Some(e) => (s, Err(e)),
        None => match grant_of(s, run_id, owner_id) {
            Some(known) => if known.revoked_at_ms is None {
                (s, Ok(RunGrantOutcome::Duplicate))
            } else {
                (s, Err(InteractionErrorView::RevokedRunGrant { run_id, owner_id }))
            },
            None => if now_ms > i64::MAX {
                (s, Err(InteractionErrorView::ValueOutOfRange(now_ms)))
            } else {
                (
                    with_grant(
                        s,
                        run_id,
                        owner_id,
                        RunGrant { granted_at_ms: now_ms, revoked_at_ms: None },
                    ),
                    Ok(RunGrantOutcome::Granted),
                )
            },
        },
    }
}

/// Takes a grant back, once.
pub open spec fn revoke(s: InteractionState, run_id: Seq<char>, owner_id: Seq<char>, now_ms: u64) -> (
    InteractionState,
    Result<RunRevokeOutcome, InteractionErrorView>,
) {
    match grant_error(run_id, owner_id) {
        Some(e) => (s, Err(e)),
        None => match grant_of(s, run_id, owner_id) {
            None => (s, Err(InteractionErrorView::MissingRunGrant { run_id, owner_id })),
            Some(known) => if known.revoked_at_ms is Some {
                (s, Ok(RunRevokeOutcome::Duplicate))
            } else if now_ms > i64::MAX {
                (s, Err(InteractionErrorView::ValueOutOfRange(now_ms)))
            } else {
                (
                    with_grant(
                        s,
                        run_id,
                        owner_id,
                        RunGrant { revoked_at_ms: Some(now_ms), ..known },
                    ),
                    Ok(RunRevokeOutcome::Revoked),
                )
            },
        },
    }
}

/// Whether an owner has an active grant on a run.
pub open spec fn readable(s: InteractionState, run_id: Seq<char>, owner_id: Seq<char>) -> Result<
    bool,
    InteractionErrorView,
> {
    match grant_error(run_id, owner_id) {
        Some(e) => Err(e),
        None => Ok(
            match grant_of(s, run_id, owner_id) {
                Some(known) => known.revoked_at_ms is None,
                None => false,
            },
        ),
    }
}

/// A result with its value and its error taken by view.
pub open spec fn seen<T: View>(r: Result<T, InteractionError>) -> Result<
    T::V,
    InteractionErrorView,
> {
    match r {
        Ok(value) => Ok(value@),
        Err(e) => Err(e@),
    }
}

/// A result with only its error taken by view.
pub open spec fn plain<T>(r: Result<T, InteractionError>) -> Result<T, InteractionErrorView> {
    match r {
        Ok(value) => Ok(value),
        Err(e) => Err(e@),
    }
}

/// Something that holds an interaction log.
pub trait InteractionLog {
    spec fn log(&self) -> InteractionState;
}

pub trait InteractionEventWriter: InteractionLog {
    /// Appends or idempotently replays one canonical event.
    ///
    /// Deduplication identity is scoped to the run. Producer instance, producer sequence, and
    /// emission time may change across a replay; conflicting canonical content is rejected.
    fn append(&mut self, dedup_key: &str, frame: &ProducerEvent) -> (r: Result<
        AppendOutcome,
        InteractionError,
    >)
        ensures
            (final(self).log(), seen(r)) == append(old(self).log(), dedup_key@, frame@),
    ;

    /// Appends one output preview that is correlated to raw bytes.
    ///
    /// Output correlation is scoped by attempt, stream, and raw byte offset. Exact duplicates are
    /// idempotent, forward gaps are reported, and overlap is a conflict.
    fn append_output(
        &mut self,
        dedup_key: &str,
        attempt_id: &str,
        stream: i32,
        byte_offset: u64,
        payload: &[u8],
        frame: &ProducerEvent,
    ) -> (r: Result<OutputAppend, InteractionError>)
        ensures
            (final(self).log(), seen(r)) == append_output(
                old(self).log(),
                dedup_key@,
                attempt_id@,
                stream,
                byte_offset,
                payload@,
                frame@,
            ),
    ;
}

pub trait InteractionEventReader: InteractionLog {
    /// A run's canonical events in sequence order.
    fn events(&self, run_id: &str) -> (r: Result<Vec<EventEnvelope>, InteractionError>)
        ensures
            r matches Ok(rows) && envelope_views(rows@) == envelopes(
                events_of(self.log(), run_id@),
            ),
    ;

    /// At most `limit` events strictly behind one canonical sequence, in sequence order; a zero
    /// limit gives no events.
    fn events_after(&self, run_id: &str, after_sequence: u64, limit: usize) -> (r: Result<
        Vec<EventEnvelope>,
        InteractionError,
    >)
        ensures
            match page(self.log(), run_id@, after_sequence, limit) {
                Ok(rows) => r matches Ok(found) && envelope_views(found@) == rows,
                Err(e) => r matches Err(error) && error@ == e,
            },
    ;

    /// The greatest canonical sequence of a run.
    fn latest_sequence(&self, run_id: &str) -> (r: Result<Option<u64>, InteractionError>)
        ensures
            plain(r) == Ok::<Option<u64>, InteractionErrorView>(latest(self.log(), run_id@)),
    ;
}

pub trait InteractionRunAccessStore: InteractionLog {
    /// Grants one stable owner read access to a run. Revoked grants cannot be given again.
    fn grant_run_access(&mut self, run_id: &str, owner_id: &str, now_ms: u64) -> (r: Result<
        RunGrantOutcome,
        InteractionError,
    >)
        ensures
            (final(self).log(), plain(r)) == grant(old(self).log(), run_id@, owner_id@, now_ms),
    ;

    /// Revokes one existing run grant idempotently.
    fn revoke_run_access(&mut self, run_id: &str, owner_id: &str, now_ms: u64) -> (r: Result<
        RunRevokeOutcome,
        InteractionError,
    >)
        ensures
            (final(self).log(), plain(r)) == revoke(old(self).log(), run_id@, owner_id@, now_ms),
    ;

    /// Checks one stable owner's active run access.
    fn can_read_run(&self, run_id: &str, owner_id: &str) -> (r: Result<bool, InteractionError>)
        ensures
            plain(r) == readable(self.log(), run_id@, owner_id@),
    ;
}

/// Event I/O and run authorization together.
pub trait InteractionStore: InteractionEventWriter + InteractionEventReader + InteractionRunAccessStore {

}

impl<T> InteractionStore for T where
    T: InteractionEventWriter + InteractionEventReader + InteractionRunAccessStore,
 {

}

} // verus!
