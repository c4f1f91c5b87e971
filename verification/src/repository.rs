//! The control repository: every attempt, lease, observation, frame and connection.
pub mod assignments;
pub mod attempts;
pub mod conduct;
pub mod connections;
pub mod laws;

use crate::ordered;
use crate::ordered::TextMap;
use crate::storage::{
    AssignmentRecord, AssignmentRecordView, AttemptState, ConnectionRow, ConnectionRowView,
    LeaseRecord, LeaseRecordView, OutboxRow, OutboxRowView, Replacement, ReplacementView,
    RepositoryError, RepositoryErrorView, StoredObservation, StoredObservationView, WorkerRow,
    WorkerRowView,
};
use vstd::prelude::*;

verus! {

/// All that the repository knows.
#[derive(Debug)]
pub struct ControlRepository {
    assignments: TextMap<AssignmentRecord>,
    leases: TextMap<LeaseRecord>,
    reassignments: TextMap<Replacement>,
    observations: Vec<StoredObservation>,
    frames: Vec<OutboxRow>,
    connections: TextMap<ConnectionRow>,
    workers: TextMap<WorkerRow>,
}

pub ghost struct ControlState {
    pub assignments: Map<Seq<char>, AssignmentRecordView>,
    pub leases: Map<Seq<char>, LeaseRecordView>,
    pub reassignments: Map<Seq<char>, ReplacementView>,
    pub observations: Seq<StoredObservationView>,
    pub frames: Seq<OutboxRowView>,
    pub connections: Map<Seq<char>, ConnectionRowView>,
    pub workers: Map<Seq<char>, WorkerRowView>,
}

spec fn observation_rows(rows: Seq<StoredObservation>) -> Seq<StoredObservationView> {
    Seq::new(rows.len(), |i: int| rows[i]@)
}

spec fn frame_rows(rows: Seq<OutboxRow>) -> Seq<OutboxRowView> {
    Seq::new(rows.len(), |i: int| rows[i]@)
}

impl View for ControlRepository {
    type V = ControlState;

    closed spec fn view(&self) -> ControlState {
        ControlState {
            assignments: ordered::values(self.assignments@),
            leases: ordered::values(self.leases@),
            reassignments: ordered::values(self.reassignments@),
            observations: observation_rows(self.observations@),
            frames: frame_rows(self.frames@),
            connections: ordered::values(self.connections@),
            workers: ordered::values(self.workers@),
        }
    }
}

/// A repository that knows nothing.
pub open spec fn empty_state() -> ControlState {
    ControlState {
        assignments: Map::empty(),
        leases: Map::empty(),
        reassignments: Map::empty(),
        observations: seq![],
        frames: seq![],
        connections: Map::empty(),
        workers: Map::empty(),
    }
}

/// The result with its error taken by view.
pub open spec fn seen<T>(r: Result<T, RepositoryError>) -> Result<T, RepositoryErrorView> {
    match r {
        Ok(value) => Ok(value),
        Err(e) => Err(e@),
    }
}

/// Why a request cannot speak for an attempt: the attempt is unknown, or it belongs to another
/// worker or another assignment.
pub open spec fn identity_error(
    s: ControlState,
    attempt_id: Seq<char>,
    worker_id: Seq<char>,
    assignment_id: Option<Seq<char>>,
) -> Option<RepositoryErrorView> {
    if !s.assignments.dom().contains(attempt_id) {
        Some(RepositoryErrorView::NotFound(attempt_id))
    } else if s.assignments[attempt_id].worker_id != worker_id || (assignment_id matches Some(id)
        && s.assignments[attempt_id].contract.assignment_id != id) {
        Some(RepositoryErrorView::IdentityMismatch(attempt_id))
    } else {
        None
    }
}

/// The lease and the attempt once the time is up: the first expiry counts, and only an attempt
/// that its worker holds expires with it.
pub open spec fn expire(s: ControlState, attempt_id: Seq<char>, now_ms: u64) -> ControlState {
    ControlState {
        leases: if s.leases.dom().contains(attempt_id) && s.leases[attempt_id].expired_at_ms
            is None {
            s.leases.insert(
                attempt_id,
                LeaseRecordView { expired_at_ms: Some(now_ms), ..s.leases[attempt_id] },
            )
        } else {
            s.leases
        },
        assignments: if s.assignments.dom().contains(attempt_id)
            && s.assignments[attempt_id].state.held() {
            s.assignments.insert(
                attempt_id,
                AssignmentRecordView {
                    state: AttemptState::LeaseExpired,
                    updated_at_ms: now_ms,
                    ..s.assignments[attempt_id]
                },
            )
        } else {
            s.assignments
        },
        ..s
    }
}

impl ControlRepository {
    pub fn new() -> (r: Self)
        ensures
            r@ == empty_state(),
    {
        let r = ControlRepository {
            assignments: TextMap::new(),
            leases: TextMap::new(),
            reassignments: TextMap::new(),
            observations: Vec::new(),
            frames: Vec::new(),
            connections: TextMap::new(),
            workers: TextMap::new(),
        };
        proof {
            assert(r@.assignments =~= empty_state().assignments);
            assert(r@.leases =~= empty_state().leases);
            assert(r@.reassignments =~= empty_state().reassignments);
            assert(r@.observations =~= empty_state().observations);
            assert(r@.frames =~= empty_state().frames);
            assert(r@.connections =~= empty_state().connections);
            assert(r@.workers =~= empty_state().workers);
        }
        r
    }

    /// The attempt with its worker and its state.
    pub fn assignment(&self, attempt_id: &str) -> (r: Option<&AssignmentRecord>)
        ensures
            r is Some <==> self@.assignments.dom().contains(attempt_id@),
            r matches Some(record) ==> record@ == self@.assignments[attempt_id@],
    {
        self.assignments.get(attempt_id)
    }

    /// The lease of an attempt.
    pub fn lease(&self, attempt_id: &str) -> (r: Option<&LeaseRecord>)
        ensures
            r is Some <==> self@.leases.dom().contains(attempt_id@),
            r matches Some(lease) ==> lease@ == self@.leases[attempt_id@],
    {
        self.leases.get(attempt_id)
    }

    fn put_assignment(&mut self, attempt_id: &str, record: AssignmentRecord)
        ensures
            final(self)@ == (ControlState {
                assignments: old(self)@.assignments.insert(attempt_id@, record@),
                ..old(self)@
            }),
    {
        let ghost before = self.assignments@;
        let _ = self.assignments.insert(attempt_id.to_owned(), record);
        proof {
            ordered::values_insert(before, attempt_id@, record);
        }
    }

    fn put_lease(&mut self, attempt_id: &str, lease: LeaseRecord)
        ensures
            final(self)@ == (ControlState {
                leases: old(self)@.leases.insert(attempt_id@, lease@),
                ..old(self)@
            }),
    {
        let ghost before = self.leases@;
        let _ = self.leases.insert(attempt_id.to_owned(), lease);
        proof {
            ordered::values_insert(before, attempt_id@, lease);
        }
    }

    fn put_connection(&mut self, connection_id: &str, row: ConnectionRow)
        ensures
            final(self)@ == (ControlState {
                connections: old(self)@.connections.insert(connection_id@, row@),
                ..old(self)@
            }),
    {
        let ghost before = self.connections@;
        let _ = self.connections.insert(connection_id.to_owned(), row);
        proof {
            ordered::values_insert(before, connection_id@, row);
        }
    }

    fn put_worker(&mut self, worker_id: &str, row: WorkerRow)
        ensures
            final(self)@ == (ControlState {
                workers: old(self)@.workers.insert(worker_id@, row@),
                ..old(self)@
            }),
    {
        let ghost before = self.workers@;
        let _ = self.workers.insert(worker_id.to_owned(), row);
        proof {
            ordered::values_insert(before, worker_id@, row);
        }
    }

    fn push_frame(&mut self, row: OutboxRow)
        ensures
            final(self)@ == (ControlState { frames: old(self)@.frames.push(row@), ..old(self)@ }),
    {
        self.frames.push(row);
        assert(self@.frames =~= old(self)@.frames.push(row@));
    }

    /// The attempt behind an identity claim.
    fn identify(&self, attempt_id: &str, worker_id: &str, assignment_id: Option<&str>) -> (r: Result<
        &AssignmentRecord,
        RepositoryError,
    >)
        ensures
            ({
                let claimed = match assignment_id {
                    Some(id) => Some(id@),
                    None => None,
                };
                match identity_error(self@, attempt_id@, worker_id@, claimed) {
                    Some(e) => r matches Err(error) && error@ == e,
                    None => r matches Ok(record) && record@ == self@.assignments[attempt_id@]
                        && self@.assignments.dom().contains(attempt_id@),
                }
            }),
    {
        match self.assignments.get(attempt_id) {
            None => Err(RepositoryError::NotFound(attempt_id.to_owned())),
            Some(record) => {
                let mismatch = !crate::text::same(record.worker_id.as_str(), worker_id)
                    || match assignment_id {
                    Some(expected) => !crate::text::same(
                        record.contract.assignment_id.as_str(),
                        expected,
                    ),
                    None => false,
                };
                if mismatch {
                    Err(RepositoryError::IdentityMismatch(attempt_id.to_owned()))
                } else {
                    Ok(record)
                }
            },
        }
    }

    fn expire_one(&mut self, attempt_id: &str, now_ms: u64)
        ensures
            final(self)@ == expire(old(self)@, attempt_id@, now_ms),
    {
        let lease = match self.leases.get(attempt_id) {
            Some(lease) => {
                if lease.expired_at_ms.is_none() {
                    let mut lease = lease.clone();
                    lease.expired_at_ms = Some(now_ms);
                    Some(lease)
                } else {
                    None
                }
            },
            None => None,
        };
        let record = match self.assignments.get(attempt_id) {
            Some(record) => {
                if record.state.is_held() {
                    let mut record = record.clone();
                    record.state = AttemptState::LeaseExpired;
                    record.updated_at_ms = now_ms;
                    Some(record)
                } else {
                    None
                }
            },
            None => None,
        };
        if let Some(lease) = lease {
            self.put_lease(attempt_id, lease);
        }
        if let Some(record) = record {
            self.put_assignment(attempt_id, record);
        }
    }
}

} // verus!
