//! Worker registration, control connections and the outbox of unacknowledged frames.
use super::assignments;
use super::{ControlRepository, ControlState};
use crate::ordered;
use crate::storage;
use crate::storage::{
    ConnectionRegistration, ConnectionRegistrationView, ConnectionRow, ConnectionRowView,
    OutboxRow, OutboxRowView, RepositoryError, RepositoryErrorView, ServerOutboxFrame,
    ServerOutboxFrameView, WorkerRegistration, WorkerRegistrationView, WorkerRow, WorkerRowView,
};
use crate::text;
use vstd::prelude::*;
use vstd::string::*;

verus! {

/// The worker as it registers at the given time; the first registration time stays.
pub open spec fn registered(
    s: ControlState,
    registration: WorkerRegistrationView,
    at_ms: u64,
) -> WorkerRowView {
    WorkerRowView {
        registration,
        registered_at_ms: if s.workers.dom().contains(registration.worker_id) {
            s.workers[registration.worker_id].registered_at_ms
        } else {
            at_ms
        },
        last_seen_at_ms: at_ms,
    }
}

/// A connection right behind the hello: both sides have sent one frame.
pub open spec fn opened(connection: ConnectionRegistrationView) -> ConnectionRowView {
    ConnectionRowView {
        worker_id: connection.worker_id,
        instance_id: connection.instance_id,
        connected_at_ms: connection.connected_at_ms,
        disconnected_at_ms: None,
        last_worker_sequence: 1,
        last_server_sequence: 1,
        last_server_acknowledged_by_worker: 0,
    }
}

/// The effect and the answer of a registration. A connection identity is used once and belongs to a
/// known worker; where that fails, the refusal is told in SQLite's own words.
pub open spec fn register(
    s: ControlState,
    registration: WorkerRegistrationView,
    connection: ConnectionRegistrationView,
) -> (ControlState, Result<(), RepositoryErrorView>) {
    if !storage::storable(connection.connected_at_ms) {
        (s, Err(storage::out_of_range(connection.connected_at_ms)))
    } else if s.connections.dom().contains(connection.connection_id) {
        (
            s,
            Err(
                RepositoryErrorView::Storage(
                    "UNIQUE constraint failed: worker_connections.connection_id"@,
                ),
            ),
        )
    } else if connection.worker_id != registration.worker_id && !s.workers.dom().contains(
        connection.worker_id,
    ) {
        (s, Err(RepositoryErrorView::Storage("FOREIGN KEY constraint failed"@)))
    } else {
        (
            ControlState {
                workers: s.workers.insert(
                    registration.worker_id,
                    registered(s, registration, connection.connected_at_ms),
                ),
                connections: s.connections.insert(connection.connection_id, opened(connection)),
                ..s
            },
            Ok(()),
        )
    }
}

/// The connection with other counters.
pub open spec fn counted(
    s: ControlState,
    connection_id: Seq<char>,
    worker_sequence: u64,
    server_sequence: u64,
    acknowledged: u64,
) -> ControlState {
    if !s.connections.dom().contains(connection_id) {
        s
    } else {
        ControlState {
            connections: s.connections.insert(
                connection_id,
                ConnectionRowView {
                    last_worker_sequence: worker_sequence,
                    last_server_sequence: server_sequence,
                    last_server_acknowledged_by_worker: acknowledged,
                    ..s.connections[connection_id]
                },
            ),
            ..s
        }
    }
}

/// The worker of the connection with a later time of contact.
pub open spec fn heard(s: ControlState, connection_id: Seq<char>, at_ms: u64) -> ControlState {
    if s.connections.dom().contains(connection_id) && s.workers.dom().contains(
        s.connections[connection_id].worker_id,
    ) {
        let worker_id = s.connections[connection_id].worker_id;
        ControlState {
            workers: s.workers.insert(
                worker_id,
                WorkerRowView { last_seen_at_ms: at_ms, ..s.workers[worker_id] },
            ),
            ..s
        }
    } else {
        s
    }
}

/// The effect and the answer of new counters. The counters are kept even where the time of contact
/// cannot be stored.
pub open spec fn update_sequences(
    s: ControlState,
    connection_id: Seq<char>,
    worker_sequence: u64,
    server_sequence: u64,
    acknowledged: u64,
    at_ms: u64,
) -> (ControlState, Result<(), RepositoryErrorView>) {
    if !storage::storable(worker_sequence) {
        (s, Err(storage::out_of_range(worker_sequence)))
    } else if !storage::storable(server_sequence) {
        (s, Err(storage::out_of_range(server_sequence)))
    } else if !storage::storable(acknowledged) {
        (s, Err(storage::out_of_range(acknowledged)))
    } else {
        let t = counted(s, connection_id, worker_sequence, server_sequence, acknowledged);
        if !storage::storable(at_ms) {
            (t, Err(storage::out_of_range(at_ms)))
        } else {
            (heard(t, connection_id, at_ms), Ok(()))
        }
    }
}

/// The effect and the answer of a disconnect; the first one counts.
pub open spec fn close(s: ControlState, connection_id: Seq<char>, at_ms: u64) -> (
    ControlState,
    Result<(), RepositoryErrorView>,
) {
    if !storage::storable(at_ms) {
        (s, Err(storage::out_of_range(at_ms)))
    } else if !s.connections.dom().contains(connection_id)
        || s.connections[connection_id].disconnected_at_ms is Some {
        (s, Ok(()))
    } else {
        (
            ControlState {
                connections: s.connections.insert(
                    connection_id,
                    ConnectionRowView {
                        disconnected_at_ms: Some(at_ms),
                        ..s.connections[connection_id]
                    },
                ),
                ..s
            },
            Ok(()),
        )
    }
}

/// The effect and the answer of recording a frame.
pub open spec fn record_frame(s: ControlState, frame: ServerOutboxFrameView, now_ms: u64) -> (
    ControlState,
    Result<(), RepositoryErrorView>,
) {
    if !storage::storable(frame.sequence) {
        (s, Err(storage::out_of_range(frame.sequence)))
    } else if !storage::storable(now_ms) {
        (s, Err(storage::out_of_range(now_ms)))
    } else if assignments::occupied(s.frames, frame.connection_id, frame.sequence) {
        (s, Err(assignments::outbox_conflict()))
    } else {
        (
            ControlState {
                frames: s.frames.push(OutboxRowView { frame, created_at_ms: now_ms }),
                ..s
            },
            Ok(()),
        )
    }
}

/// The frame waits on the connection and the acknowledgement does not reach it.
pub open spec fn unacknowledged(row: OutboxRowView, connection_id: Seq<char>, through: u64) -> bool {
    row.frame.connection_id != connection_id || row.frame.sequence > through
}

/// The frames that stay behind a cumulative acknowledgement.
pub open spec fn compacted(
    frames: Seq<OutboxRowView>,
    connection_id: Seq<char>,
    through: u64,
) -> Seq<OutboxRowView> {
    ordered::kept(frames, |row: OutboxRowView| unacknowledged(row, connection_id, through))
}

/// The connection of the frame closed before the given time.
pub open spec fn orphaned(s: ControlState, row: OutboxRowView, before_ms: u64) -> bool {
    &&& s.connections.dom().contains(row.frame.connection_id)
    &&& s.connections[row.frame.connection_id].disconnected_at_ms matches Some(at) && at
        < before_ms
}

/// The frames that stay once old closed connections are swept.
pub open spec fn swept(s: ControlState, before_ms: u64) -> Seq<OutboxRowView> {
    ordered::kept(s.frames, |row: OutboxRowView| !orphaned(s, row, before_ms))
}

/// The number of frames that wait on a connection.
pub open spec fn waiting(frames: Seq<OutboxRowView>, connection_id: Seq<char>) -> nat {
    ordered::kept(frames, |row: OutboxRowView| row.frame.connection_id == connection_id).len()
}

impl ControlRepository {
    /// Registers a worker and opens its connection.
    pub fn register_worker(
        &mut self,
        registration: &WorkerRegistration,
        connection: &ConnectionRegistration,
    ) -> (r: Result<(), RepositoryError>)
        ensures
            (final(self)@, super::seen(r)) == register(old(self)@, registration@, connection@),
    {
        let at_ms = connection.connected_at_ms;
        match storage::to_i64(at_ms) {
            Ok(_) => {},
            Err(error) => {
                return Err(error);
            },
        }
        if self.connections.contains(connection.connection_id.as_str()) {
            return Err(
                RepositoryError::Storage(
                    "UNIQUE constraint failed: worker_connections.connection_id".to_owned(),
                ),
            );
        }
        if !text::same(connection.worker_id.as_str(), registration.worker_id.as_str())
            && !self.workers.contains(connection.worker_id.as_str()) {
            return Err(RepositoryError::Storage("FOREIGN KEY constraint failed".to_owned()));
        }
        let registered_at_ms = match self.workers.get(registration.worker_id.as_str()) {
            Some(row) => row.registered_at_ms,
            None => at_ms,
        };
        self.put_worker(
            registration.worker_id.as_str(),
            WorkerRow {
                registration: registration.clone(),
                registered_at_ms,
                last_seen_at_ms: at_ms,
            },
        );
        self.put_connection(
            connection.connection_id.as_str(),
            ConnectionRow {
                worker_id: connection.worker_id.clone(),
                instance_id: connection.instance_id.clone(),
                connected_at_ms: at_ms,
                disconnected_at_ms: None,
                last_worker_sequence: 1,
                last_server_sequence: 1,
                last_server_acknowledged_by_worker: 0,
            },
        );
        Ok(())
    }

    /// The connection behind an identity.
    pub fn connection(&self, connection_id: &str) -> (r: Option<&ConnectionRow>)
        ensures
            r is Some <==> self@.connections.dom().contains(connection_id@),
            r matches Some(row) ==> row@ == self@.connections[connection_id@],
    {
        self.connections.get(connection_id)
    }

    /// The worker behind an identity.
    pub fn worker(&self, worker_id: &str) -> (r: Option<&WorkerRow>)
        ensures
            r is Some <==> self@.workers.dom().contains(worker_id@),
            r matches Some(row) ==> row@ == self@.workers[worker_id@],
    {
        self.workers.get(worker_id)
    }

    /// Keeps the counters of a connection and the time its worker was heard of.
    pub fn update_connection_sequences(
        &mut self,
        connection_id: &str,
        last_worker_sequence: u64,
        last_server_sequence: u64,
        last_server_acknowledged_by_worker: u64,
        observed_at_ms: u64,
    ) -> (r: Result<(), RepositoryError>)
        ensures
            (final(self)@, super::seen(r)) == update_sequences(
                old(self)@,
                connection_id@,
                last_worker_sequence,
                last_server_sequence,
                last_server_acknowledged_by_worker,
                observed_at_ms,
            ),
    {
        match storage::to_i64(last_worker_sequence) {
            Ok(_) => {},
            Err(error) => {
                return Err(error);
            },
        }
        match storage::to_i64(last_server_sequence) {
            Ok(_) => {},
            Err(error) => {
                return Err(error);
            },
        }
        match storage::to_i64(last_server_acknowledged_by_worker) {
            Ok(_) => {},
            Err(error) => {
                return Err(error);
            },
        }
        let row = match self.connections.get(connection_id) {
            Some(row) => Some(
                ConnectionRow {
                    worker_id: row.worker_id.clone(),
                    instance_id: row.instance_id.clone(),
                    connected_at_ms: row.connected_at_ms,
                    disconnected_at_ms: row.disconnected_at_ms,
                    last_worker_sequence,
                    last_server_sequence,
                    last_server_acknowledged_by_worker,
                },
            ),
            None => None,
        };
        let worker_id = match &row {
            Some(row) => Some(row.worker_id.clone()),
            None => None,
        };
        match row {
            Some(row) => self.put_connection(connection_id, row),
            None => {},
        }
        match storage::to_i64(observed_at_ms) {
            Ok(_) => {},
            Err(error) => {
                return Err(error);
            },
        }
        if let Some(worker_id) = worker_id {
            let worker = match self.workers.get(worker_id.as_str()) {
                Some(row) => Some(
                    WorkerRow {
                        registration: row.registration.clone(),
                        registered_at_ms: row.registered_at_ms,
                        last_seen_at_ms: observed_at_ms,
                    },
                ),
                None => None,
            };
            if let Some(worker) = worker {
                self.put_worker(worker_id.as_str(), worker);
            }
        }
        Ok(())
    }

    /// Closes a connection.
    pub fn disconnect(&mut self, connection_id: &str, at_ms: u64) -> (r: Result<
        (),
        RepositoryError,
    >)
        ensures
            (final(self)@, super::seen(r)) == close(old(self)@, connection_id@, at_ms),
    {
        match storage::to_i64(at_ms) {
            Ok(_) => {},
            Err(error) => {
                return Err(error);
            },
        }
        let row = match self.connections.get(connection_id) {
            Some(row) => {
                if row.disconnected_at_ms.is_some() {
                    return Ok(());
                }
                ConnectionRow {
                    worker_id: row.worker_id.clone(),
                    instance_id: row.instance_id.clone(),
                    connected_at_ms: row.connected_at_ms,
                    disconnected_at_ms: Some(at_ms),
                    last_worker_sequence: row.last_worker_sequence,
                    last_server_sequence: row.last_server_sequence,
                    last_server_acknowledged_by_worker: row.last_server_acknowledged_by_worker,
                }
            },
            None => {
                return Ok(());
            },
        };
        self.put_connection(connection_id, row);
        Ok(())
    }

    /// Keeps a frame until it is acknowledged.
    pub fn record_server_frame(&mut self, frame: &ServerOutboxFrame, now_ms: u64) -> (r: Result<
        (),
        RepositoryError,
    >)
        ensures
            (final(self)@, super::seen(r)) == record_frame(old(self)@, frame@, now_ms),
    {
        match storage::to_i64(frame.sequence) {
            Ok(_) => {},
            Err(error) => {
                return Err(error);
            },
        }
        match storage::to_i64(now_ms) {
            Ok(_) => {},
            Err(error) => {
                return Err(error);
            },
        }
        if self.outbox_holds(frame.connection_id.as_str(), frame.sequence) {
            return Err(
                RepositoryError::Storage(
                    "UNIQUE constraint failed: server_outbox_frames.connection_id, server_outbox_frames.sequence".to_owned(),
                ),
            );
        }
        self.push_frame(OutboxRow { frame: frame.clone(), created_at_ms: now_ms });
        Ok(())
    }

    fn copy_row(row: &OutboxRow) -> (r: OutboxRow)
        ensures
            r@ == row@,
    {
        OutboxRow { frame: row.frame.clone(), created_at_ms: row.created_at_ms }
    }

    /// Drops the frames of a connection that a cumulative acknowledgement reaches.
    pub fn compact_server_frames(
        &mut self,
        connection_id: &str,
        acknowledged_through: u64,
        now_ms: u64,
    ) -> (r: Result<usize, RepositoryError>)
        ensures
            !storage::storable(acknowledged_through) ==> final(self)@ == old(self)@ && (r matches Err(
                e,
            ) && e@ == storage::out_of_range(acknowledged_through)),
            storage::storable(acknowledged_through) && !storage::storable(now_ms) ==> final(self)@
                == old(self)@ && (r matches Err(e) && e@ == storage::out_of_range(now_ms)),
            storage::storable(acknowledged_through) && storage::storable(now_ms) ==> {
                let left = compacted(old(self)@.frames, connection_id@, acknowledged_through);
                &&& final(self)@ == (ControlState { frames: left, ..old(self)@ })
                &&& r matches Ok(deleted) && deleted == old(self)@.frames.len() - left.len()
            },
    {
        match storage::to_i64(acknowledged_through) {
            Ok(_) => {},
            Err(error) => {
                return Err(error);
            },
        }
        match storage::to_i64(now_ms) {
            Ok(_) => {},
            Err(error) => {
                return Err(error);
            },
        }
        let ghost frames = self@.frames;
        let ghost keep = |row: OutboxRowView|
            unacknowledged(row, connection_id@, acknowledged_through);
        let mut left: Vec<OutboxRow> = Vec::new();
        let mut i: usize = 0;
        assert(super::frame_rows(left@) =~= ordered::kept(frames.take(0), keep));
        while i < self.frames.len()
            invariant
                i <= self.frames@.len(),
                frames == self@.frames,
                frames.len() == self.frames@.len(),
                self@ == old(self)@,
                keep == (|row: OutboxRowView|
                    unacknowledged(row, connection_id@, acknowledged_through)),
                super::frame_rows(left@) == ordered::kept(frames.take(i as int), keep),
                left@.len() <= i,
            decreases self.frames@.len() - i,
        {
            let row = &self.frames[i];
            let ghost longer = frames.take(i + 1);
            assert(longer.last() == row@);
            assert(longer.drop_last() =~= frames.take(i as int));
            if !text::same(row.frame.connection_id.as_str(), connection_id) || row.frame.sequence
                > acknowledged_through {
                let ghost before = left@;
                let copy = Self::copy_row(row);
                left.push(copy);
                assert(super::frame_rows(left@) =~= super::frame_rows(before).push(copy@));
            }
            i += 1;
        }
        assert(frames.take(frames.len() as int) =~= frames);
        let deleted = self.frames.len() - left.len();
        self.frames = left;
        Ok(deleted)
    }

    /// The number of frames that wait on a connection.
    pub fn server_outbox_len(&self, connection_id: &str) -> (r: usize)
        ensures
            r == waiting(self@.frames, connection_id@),
    {
        let ghost frames = self@.frames;
        let ghost keep = |row: OutboxRowView| row.frame.connection_id == connection_id@;
        let mut count: usize = 0;
        let mut i: usize = 0;
        assert(ordered::kept(frames.take(0), keep).len() == 0);
        while i < self.frames.len()
            invariant
                i <= self.frames@.len(),
                frames == self@.frames,
                frames.len() == self.frames@.len(),
                keep == (|row: OutboxRowView| row.frame.connection_id == connection_id@),
                count == ordered::kept(frames.take(i as int), keep).len(),
                count <= i,
            decreases self.frames@.len() - i,
        {
            let row = &self.frames[i];
            let ghost longer = frames.take(i + 1);
            assert(longer.last() == row@);
            assert(longer.drop_last() =~= frames.take(i as int));
            if text::same(row.frame.connection_id.as_str(), connection_id) {
                count += 1;
            }
            i += 1;
        }
        assert(frames.take(frames.len() as int) =~= frames);
        count
    }

    /// Drops the frames of connections that closed before the given time.
    pub fn prune_orphaned_server_frames(&mut self, disconnected_before_ms: u64) -> (r: Result<
        usize,
        RepositoryError,
    >)
        ensures
            !storage::storable(disconnected_before_ms) ==> final(self)@ == old(self)@ && (r matches Err(
                e,
            ) && e@ == storage::out_of_range(disconnected_before_ms)),
            storage::storable(disconnected_before_ms) ==> {
                let left = swept(old(self)@, disconnected_before_ms);
                &&& final(self)@ == (ControlState { frames: left, ..old(self)@ })
                &&& r matches Ok(deleted) && deleted == old(self)@.frames.len() - left.len()
            },
    {
        match storage::to_i64(disconnected_before_ms) {
            Ok(_) => {},
            Err(error) => {
                return Err(error);
            },
        }
        let ghost s = self@;
        let ghost frames = self@.frames;
        let ghost keep = |row: OutboxRowView| !orphaned(s, row, disconnected_before_ms);
        let mut left: Vec<OutboxRow> = Vec::new();
        let mut i: usize = 0;
        assert(super::frame_rows(left@) =~= ordered::kept(frames.take(0), keep));
        while i < self.frames.len()
            invariant
                i <= self.frames@.len(),
                s == self@,
                frames == s.frames,
                frames.len() == self.frames@.len(),
                s == old(self)@,
                keep == (|row: OutboxRowView| !orphaned(s, row, disconnected_before_ms)),
                super::frame_rows(left@) == ordered::kept(frames.take(i as int), keep),
                left@.len() <= i,
            decreases self.frames@.len() - i,
        {
            let row = &self.frames[i];
            let ghost longer = frames.take(i + 1);
            assert(longer.last() == row@);
            assert(longer.drop_last() =~= frames.take(i as int));
            let gone = match self.connections.get(row.frame.connection_id.as_str()) {
                Some(connection) => match connection.disconnected_at_ms {
                    Some(at) => at < disconnected_before_ms,
                    None => false,
                },
                None => false,
            };
            if !gone {
                let ghost before = left@;
                let copy = Self::copy_row(row);
                left.push(copy);
                assert(super::frame_rows(left@) =~= super::frame_rows(before).push(copy@));
            }
            i += 1;
        }
        assert(frames.take(frames.len() as int) =~= frames);
        let deleted = self.frames.len() - left.len();
        self.frames = left;
        Ok(deleted)
    }
}

} // verus!
