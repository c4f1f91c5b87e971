//! The interaction log in memory.
use super::{
    AppendOutcome, AppendOutcomeView, InteractionError, InteractionErrorView,
    InteractionEventReader, InteractionEventWriter, InteractionLog, InteractionRunAccessStore,
    InteractionState, OutputAppend, OutputChunkView, RunGrant, RunGrantOutcome, RunRevokeOutcome,
    StoredEventView,
};
use crate::events;
use crate::events::{EventEnvelope, ProducerEvent};
use crate::ordered;
use crate::ordered::TextMap;
use crate::text;
use vstd::prelude::*;
use vstd::string::*;

verus! {

/// One canonical event with the key that tells repetitions.
#[derive(Debug)]
pub struct StoredEvent {
    pub dedup_key: String,
    pub envelope: EventEnvelope,
}

impl View for StoredEvent {
    type V = StoredEventView;

    open spec fn view(&self) -> StoredEventView {
        StoredEventView { dedup_key: self.dedup_key@, envelope: self.envelope@ }
    }
}

/// Raw output bytes with the event that shows them.
#[derive(Debug)]
pub struct OutputChunk {
    pub attempt_id: String,
    pub stream: i32,
    pub byte_offset: u64,
    pub payload: Vec<u8>,
    pub envelope: EventEnvelope,
}

impl View for OutputChunk {
    type V = OutputChunkView;

    open spec fn view(&self) -> OutputChunkView {
        OutputChunkView {
            attempt_id: self.attempt_id@,
            stream: self.stream,
            byte_offset: self.byte_offset,
            payload: self.payload@,
            envelope: self.envelope@,
        }
    }
}

/// An interaction log that is held in memory.
#[derive(Debug)]
pub struct MemoryInteractionStore {
    next_sequences: TextMap<u64>,
    events: Vec<StoredEvent>,
    chunks: Vec<OutputChunk>,
    grants: TextMap<TextMap<RunGrant>>,
}

spec fn event_rows(rows: Seq<StoredEvent>) -> Seq<StoredEventView> {
    Seq::new(rows.len(), |i: int| rows[i]@)
}

spec fn chunk_rows(rows: Seq<OutputChunk>) -> Seq<OutputChunkView> {
    Seq::new(rows.len(), |i: int| rows[i]@)
}

impl View for MemoryInteractionStore {
    type V = InteractionState;

    closed spec fn view(&self) -> InteractionState {
        InteractionState {
            next_sequences: self.next_sequences@,
            events: event_rows(self.events@),
            chunks: chunk_rows(self.chunks@),
            grants: ordered::values(self.grants@),
        }
    }
}

impl InteractionLog for MemoryInteractionStore {
    open spec fn log(&self) -> InteractionState {
        self@
    }
}

impl MemoryInteractionStore {
    pub fn new() -> (r: Self)
        ensures
            r@ == super::empty_log(),
    {
        let r = MemoryInteractionStore {
            next_sequences: TextMap::new(),
            events: Vec::new(),
            chunks: Vec::new(),
            grants: TextMap::new(),
        };
        proof {
            assert(r@.events =~= super::empty_log().events);
            assert(r@.chunks =~= super::empty_log().chunks);
            assert(r@.grants =~= super::empty_log().grants);
        }
        r
    }

    /// The place of the stored event with the given run and key.
    fn find_event(&self, run_id: &str, dedup_key: &str) -> (r: Option<usize>)
        ensures
            match r {
                Some(i) => super::keyed(self@.events, run_id@, dedup_key@) == Some(i as int) && i
                    < self.events@.len(),
                None => super::keyed(self@.events, run_id@, dedup_key@) is None,
            },
    {
        let ghost wanted = |row: StoredEventView|
            row.envelope.run_id == run_id@ && row.dedup_key == dedup_key@;
        let mut i: usize = 0;
        while i < self.events.len()
            invariant
                i <= self.events@.len(),
                wanted == (|row: StoredEventView|
                    row.envelope.run_id == run_id@ && row.dedup_key == dedup_key@),
                forall|j: int| 0 <= j < i ==> !wanted(#[trigger] self@.events[j]),
            decreases self.events@.len() - i,
        {
            let row = &self.events[i];
            assert(self@.events[i as int] == row@);
            if text::same(row.envelope.run_id.as_str(), run_id) && text::same(
                row.dedup_key.as_str(),
                dedup_key,
            ) {
                proof {
                    ordered::first_is(self@.events, wanted, i as int);
                }
                return Some(i);
            }
            i += 1;
        }
        proof {
            ordered::first_is_none(self@.events, wanted);
        }
        None
    }

    /// The place of the output that starts at the given byte of a stream.
    fn find_chunk(&self, attempt_id: &str, stream: i32, byte_offset: u64) -> (r: Option<usize>)
        ensures
            match r {
                Some(i) => super::placed(self@.chunks, attempt_id@, stream, byte_offset) == Some(
                    i as int,
                ) && i < self.chunks@.len(),
                None => super::placed(self@.chunks, attempt_id@, stream, byte_offset) is None,
            },
    {
        let ghost wanted = |c: OutputChunkView|
            c.attempt_id == attempt_id@ && c.stream == stream && c.byte_offset == byte_offset;
        let mut i: usize = 0;
        while i < self.chunks.len()
            invariant
                i <= self.chunks@.len(),
                wanted == (|c: OutputChunkView|
                    c.attempt_id == attempt_id@ && c.stream == stream && c.byte_offset
                        == byte_offset),
                forall|j: int| 0 <= j < i ==> !wanted(#[trigger] self@.chunks[j]),
            decreases self.chunks@.len() - i,
        {
            let chunk = &self.chunks[i];
            assert(self@.chunks[i as int] == chunk@);
            if text::same(chunk.attempt_id.as_str(), attempt_id) && chunk.stream == stream
                && chunk.byte_offset == byte_offset {
                proof {
                    ordered::first_is(self@.chunks, wanted, i as int);
                }
                return Some(i);
            }
            i += 1;
        }
        proof {
            ordered::first_is_none(self@.chunks, wanted);
        }
        None
    }

    /// Where the next output of a stream is due.
    fn due_offset(&self, attempt_id: &str, stream: i32) -> (r: u64)
        ensures
            r == super::due_offset(self@.chunks, attempt_id@, stream),
    {
        let mut i: usize = self.chunks.len();
        assert(self@.chunks.take(i as int) =~= self@.chunks);
        while i > 0
            invariant
                i <= self.chunks@.len(),
                super::due_offset(self@.chunks, attempt_id@, stream) == super::due_offset(
                    self@.chunks.take(i as int),
                    attempt_id@,
                    stream,
                ),
            decreases i,
        {
            let chunk = &self.chunks[i - 1];
            let ghost seen = self@.chunks.take(i as int);
            assert(seen.last() == chunk@);
            assert(seen.drop_last() =~= self@.chunks.take(i - 1));
            if text::same(chunk.attempt_id.as_str(), attempt_id) && chunk.stream == stream {
                return ended(chunk.byte_offset, chunk.payload.len());
            }
            i -= 1;
        }
        0
    }

    /// What an append of a valid frame would give, with nothing changed yet.
    fn plan(&self, dedup_key: &str, frame: &ProducerEvent) -> (r: Result<
        AppendOutcome,
        InteractionError,
    >)
        ensures
            super::seen(r) == super::append_valid(self@, dedup_key@, frame@).1,
    {
        if let Some(i) = self.find_event(frame.run_id.as_str(), dedup_key) {
            let row = &self.events[i];
            assert(self@.events[i as int] == row@);
            if !super::repeats(frame, &row.envelope) {
                return Err(InteractionError::ConflictingDedupKey(dedup_key.to_owned()));
            }
            return Ok(AppendOutcome::Duplicate(row.envelope.clone()));
        }
        let sequence: u64 = match self.next_sequences.get(frame.run_id.as_str()) {
            Some(next) => *next,
            None => 1,
        };
        if sequence > 9223372036854775807 {
            return Err(InteractionError::ValueOutOfRange(sequence));
        }
        if sequence + 1 > 9223372036854775807 {
            return Err(InteractionError::ValueOutOfRange(sequence + 1));
        }
        Ok(AppendOutcome::Inserted(events::sequence_frame(frame, sequence)))
    }

    /// Keeps what a plan found new.
    fn commit(&mut self, dedup_key: &str, outcome: &AppendOutcome, Ghost(frame): Ghost<events::ProducerEventView>)
        requires
            super::append_valid(old(self)@, dedup_key@, frame).1 == Ok::<
                AppendOutcomeView,
                InteractionErrorView,
            >(outcome@),
        ensures
            final(self)@ == super::append_valid(old(self)@, dedup_key@, frame).0,
    {
        if let AppendOutcome::Inserted(envelope) = outcome {
            let ghost before = self.next_sequences@;
            assert(envelope@.run_id == frame.run_id);
            let _ = self.next_sequences.insert(envelope.run_id.clone(), envelope.sequence + 1);
            self.events.push(
                StoredEvent { dedup_key: dedup_key.to_owned(), envelope: envelope.clone() },
            );
            assert(self@.events =~= old(self)@.events.push(
                StoredEventView { dedup_key: dedup_key@, envelope: envelope@ },
            ));
            assert(self@.next_sequences == before.insert(
                frame.run_id,
                events::successor(envelope.sequence),
            ));
        }
    }
}

/// The end of a chunk, or the largest number where it lies behind.
fn ended(byte_offset: u64, len: usize) -> (r: u64)
    ensures
        r == super::ended(byte_offset, len as nat),
{
    byte_offset.saturating_add(len as u64)
}

impl InteractionEventWriter for MemoryInteractionStore {
    fn append(&mut self, dedup_key: &str, frame: &ProducerEvent) -> (r: Result<
        AppendOutcome,
        InteractionError,
    >) {
        super::validate_input(dedup_key, frame)?;
        let outcome = self.plan(dedup_key, frame)?;
        self.commit(dedup_key, &outcome, Ghost(frame@));
        Ok(outcome)
    }

    fn append_output(
        &mut self,
        dedup_key: &str,
        attempt_id: &str,
        stream: i32,
        byte_offset: u64,
        payload: &[u8],
        frame: &ProducerEvent,
    ) -> (r: Result<OutputAppend, InteractionError>) {
        super::validate_input(dedup_key, frame)?;
        if text::is_blank(attempt_id) {
            return Err(
                InteractionError::InvalidFrame("output attempt identity is missing".to_owned()),
            );
        }
        if byte_offset > 9223372036854775807 {
            return Err(InteractionError::ValueOutOfRange(byte_offset));
        }
        if let Some(i) = self.find_chunk(attempt_id, stream, byte_offset) {
            let chunk = &self.chunks[i];
            assert(self@.chunks[i as int] == chunk@);
            if !text::same_bytes(chunk.payload.as_slice(), payload) || !super::repeats(
                frame,
                &chunk.envelope,
            ) {
                return Err(
                    InteractionError::ConflictingOutput {
                        attempt_id: attempt_id.to_owned(),
                        stream,
                        byte_offset,
                    },
                );
            }
            return Ok(
                OutputAppend {
                    outcome: AppendOutcome::Duplicate(chunk.envelope.clone()),
                    missing_bytes_before: 0,
                },
            );
        }
        let due = self.due_offset(attempt_id, stream);
        if byte_offset < due {
            return Err(
                InteractionError::ConflictingOutput {
                    attempt_id: attempt_id.to_owned(),
                    stream,
                    byte_offset,
                },
            );
        }
        let missing_bytes_before = byte_offset - due;
        let outcome = self.plan(dedup_key, frame)?;
        let sequence = outcome.envelope().sequence;
        if sequence > 9223372036854775807 {
            return Err(InteractionError::ValueOutOfRange(sequence));
        }
        let end = ended(byte_offset, payload.len());
        if end > 9223372036854775807 {
            return Err(InteractionError::ValueOutOfRange(end));
        }
        let chunk = OutputChunk {
            attempt_id: attempt_id.to_owned(),
            stream,
            byte_offset,
            payload: text::copy_bytes(payload),
            envelope: outcome.envelope().clone(),
        };
        self.commit(dedup_key, &outcome, Ghost(frame@));
        let ghost committed = self@;
        self.chunks.push(chunk);
        assert(self@.chunks =~= committed.chunks.push(chunk@));
        Ok(OutputAppend { outcome, missing_bytes_before })
    }
}

impl InteractionEventReader for MemoryInteractionStore {
    fn events(&self, run_id: &str) -> (r: Result<Vec<EventEnvelope>, InteractionError>) {
        let ghost wanted = |row: StoredEventView| row.envelope.run_id == run_id@;
        let mut out: Vec<EventEnvelope> = Vec::new();
        let mut i: usize = 0;
        while i < self.events.len()
            invariant
                i <= self.events@.len(),
                wanted == (|row: StoredEventView| row.envelope.run_id == run_id@),
                super::envelope_views(out@) == super::envelopes(
                    ordered::kept(self@.events.take(i as int), wanted),
                ),
            decreases self.events@.len() - i,
        {
            let row = &self.events[i];
            let ghost longer = self@.events.take(i + 1);
            assert(longer.drop_last() =~= self@.events.take(i as int));
            assert(longer.last() == row@);
            if text::same(row.envelope.run_id.as_str(), run_id) {
                let ghost before = out@;
                out.push(row.envelope.clone());
                assert(super::envelope_views(out@) =~= super::envelope_views(before).push(
                    row@.envelope,
                ));
                assert(super::envelopes(ordered::kept(longer, wanted)) =~= super::envelopes(
                    ordered::kept(longer.drop_last(), wanted),
                ).push(row@.envelope));
            }
            i += 1;
        }
        assert(self@.events.take(i as int) =~= self@.events);
        Ok(out)
    }

    fn events_after(&self, run_id: &str, after_sequence: u64, limit: usize) -> (r: Result<
        Vec<EventEnvelope>,
        InteractionError,
    >) {
        if limit == 0 {
            let none: Vec<EventEnvelope> = Vec::new();
            assert(super::envelope_views(none@) =~= seq![]);
            return Ok(none);
        }
        if after_sequence > 9223372036854775807 {
            return Err(InteractionError::ValueOutOfRange(after_sequence));
        }
        if limit as u64 > 9223372036854775807 {
            return Err(InteractionError::ValueOutOfRange(18446744073709551615));
        }
        let ghost wanted = |row: StoredEventView|
            row.envelope.run_id == run_id@ && row.envelope.sequence > after_sequence;
        let ghost all = super::envelopes(ordered::kept(self@.events, wanted));
        let mut out: Vec<EventEnvelope> = Vec::new();
        let mut i: usize = 0;
        assert(self@.events.take(0) =~= seq![]);
        assert(super::envelope_views(out@) =~= super::envelopes(
            ordered::kept(self@.events.take(0), wanted),
        ));
        while i < self.events.len() && out.len() < limit
            invariant
                i <= self.events@.len(),
                out@.len() <= limit,
                wanted == (|row: StoredEventView|
                    row.envelope.run_id == run_id@ && row.envelope.sequence > after_sequence),
                super::envelope_views(out@) == super::envelopes(
                    ordered::kept(self@.events.take(i as int), wanted),
                ),
            decreases self.events@.len() - i,
        {
            let row = &self.events[i];
            let ghost longer = self@.events.take(i + 1);
            assert(longer.drop_last() =~= self@.events.take(i as int));
            assert(longer.last() == row@);
            if text::same(row.envelope.run_id.as_str(), run_id) && row.envelope.sequence
                > after_sequence {
                let ghost before = out@;
                out.push(row.envelope.clone());
                assert(super::envelope_views(out@) =~= super::envelope_views(before).push(
                    row@.envelope,
                ));
                assert(super::envelopes(ordered::kept(longer, wanted)) =~= super::envelopes(
                    ordered::kept(longer.drop_last(), wanted),
                ).push(row@.envelope));
            }
            i += 1;
        }
        proof {
            ordered::kept_starts(self@.events, wanted, i as int);
            let start = ordered::kept(self@.events.take(i as int), wanted);
            if i == self.events@.len() {
                assert(self@.events.take(i as int) =~= self@.events);
            }
            assert(super::envelopes(start) =~= all.take(start.len() as int));
            assert(out@.len() == start.len()) by {
                assert(super::envelope_views(out@).len() == out@.len());
            }
            assert(all.take(all.len() as int) =~= all);
        }
        Ok(out)
    }

    fn latest_sequence(&self, run_id: &str) -> (r: Result<Option<u64>, InteractionError>) {
        let ghost wanted = |row: StoredEventView| row.envelope.run_id == run_id@;
        let mut i: usize = self.events.len();
        assert(self@.events.take(i as int) =~= self@.events);
        while i > 0
            invariant
                i <= self.events@.len(),
                wanted == (|row: StoredEventView| row.envelope.run_id == run_id@),
                ordered::kept(self@.events, wanted) == ordered::kept(
                    self@.events.take(i as int),
                    wanted,
                ),
            decreases i,
        {
            let row = &self.events[i - 1];
            let ghost longer = self@.events.take(i as int);
            assert(longer.drop_last() =~= self@.events.take(i - 1));
            assert(longer.last() == row@);
            if text::same(row.envelope.run_id.as_str(), run_id) {
                return Ok(Some(row.envelope.sequence));
            }
            i -= 1;
        }
        Ok(None)
    }
}

impl MemoryInteractionStore {
    /// The grant of an owner on a run.
    fn grant(&self, run_id: &str, owner_id: &str) -> (r: Option<RunGrant>)
        ensures
            r == super::grant_of(self@, run_id@, owner_id@),
    {
        match self.grants.get(run_id) {
            Some(owners) => match owners.get(owner_id) {
                Some(known) => Some(*known),
                None => None,
            },
            None => None,
        }
    }

    fn set_grant(&mut self, run_id: &str, owner_id: &str, grant: RunGrant)
        ensures
            final(self)@ == super::with_grant(old(self)@, run_id@, owner_id@, grant),
    {
        let ghost before = self.grants@;
        let mut owners = match self.grants.remove(run_id) {
            Some(owners) => owners,
            None => TextMap::new(),
        };
        let ghost known = owners@;
        let _ = owners.insert(owner_id.to_owned(), grant);
        let ghost grown = owners;
        let _ = self.grants.insert(run_id.to_owned(), owners);
        proof {
            let expected = super::with_grant(old(self)@, run_id@, owner_id@, grant);
            assert(grown@ == known.insert(owner_id@, grant));
            assert(self@.grants =~= expected.grants);
        }
    }
}

impl InteractionRunAccessStore for MemoryInteractionStore {
    fn grant_run_access(&mut self, run_id: &str, owner_id: &str, now_ms: u64) -> (r: Result<
        RunGrantOutcome,
        InteractionError,
    >) {
        super::validate_run_owner(run_id, owner_id)?;
        match self.grant(run_id, owner_id) {
            Some(known) => {
                if known.revoked_at_ms.is_none() {
                    Ok(RunGrantOutcome::Duplicate)
                } else {
                    Err(
                        InteractionError::RevokedRunGrant {
                            run_id: run_id.to_owned(),
                            owner_id: owner_id.to_owned(),
                        },
                    )
                }
            },
            None => {
                if now_ms > 9223372036854775807 {
                    return Err(InteractionError::ValueOutOfRange(now_ms));
                }
                self.set_grant(
                    run_id,
                    owner_id,
                    RunGrant { granted_at_ms: now_ms, revoked_at_ms: None },
                );
                Ok(RunGrantOutcome::Granted)
            },
        }
    }

    fn revoke_run_access(&mut self, run_id: &str, owner_id: &str, now_ms: u64) -> (r: Result<
        RunRevokeOutcome,
        InteractionError,
    >) {
        super::validate_run_owner(run_id, owner_id)?;
        match self.grant(run_id, owner_id) {
            None => Err(
                InteractionError::MissingRunGrant {
                    run_id: run_id.to_owned(),
                    owner_id: owner_id.to_owned(),
                },
            ),
            Some(known) => {
                if known.revoked_at_ms.is_some() {
                    return Ok(RunRevokeOutcome::Duplicate);
                }
                if now_ms > 9223372036854775807 {
                    return Err(InteractionError::ValueOutOfRange(now_ms));
                }
                self.set_grant(
                    run_id,
                    owner_id,
                    RunGrant { granted_at_ms: known.granted_at_ms, revoked_at_ms: Some(now_ms) },
                );
                Ok(RunRevokeOutcome::Revoked)
            },
        }
    }

    fn can_read_run(&self, run_id: &str, owner_id: &str) -> (r: Result<bool, InteractionError>) {
        super::validate_run_owner(run_id, owner_id)?;
        Ok(
            match self.grant(run_id, owner_id) {
                Some(known) => known.revoked_at_ms.is_none(),
                None => false,
            },
        )
    }
}

} // verus!
