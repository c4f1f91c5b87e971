//! Admission, delivery, replay and reassignment of attempts.
use super::attempts;
use super::{ControlRepository, ControlState};
use crate::agenda;
use crate::agenda::Agenda;
use crate::ordered;
use crate::storage;
use crate::storage::{
    AssignmentContract, AssignmentContractView, AssignmentDeliveryPreparation,
    AssignmentDeliveryPreparationView, AssignmentRecord, AssignmentRecordView, AttemptState,
    ConnectionRow, ConnectionRowView, LeaseRecord, LeaseRecordView, OutboxRow, OutboxRowView,
    ReassignmentRecord, ReassignmentRecordView, Replacement, ReplacementView, RepositoryError,
    RepositoryErrorView, ServerFrameKind, StoreAssignmentOutcome, WorkerRow, WorkerRowView,
};
use crate::text;
use vstd::prelude::*;
use vstd::string::*;

verus! {

/// A fresh attempt whose side effects are still being prepared.
pub open spec fn admitted(
    worker_id: Seq<char>,
    contract: AssignmentContractView,
    at_ms: u64,
) -> AssignmentRecordView {
    AssignmentRecordView {
        worker_id,
        contract,
        state: AttemptState::Preparing,
        created_at_ms: at_ms,
        updated_at_ms: at_ms,
        cancellation_reason: None,
    }
}

/// The effect and the answer of an admission. An attempt is admitted once: the same contract for
/// the same worker is a repetition, anything else under its identity a conflict.
pub open spec fn store(
    s: ControlState,
    worker_id: Seq<char>,
    contract: AssignmentContractView,
    at_ms: u64,
) -> (ControlState, Result<StoreAssignmentOutcome, RepositoryErrorView>) {
    let id = contract.attempt_id;
    if s.assignments.dom().contains(id) {
        if s.assignments[id].worker_id == worker_id && s.assignments[id].contract == contract {
            (s, Ok(StoreAssignmentOutcome::Duplicate))
        } else {
            (s, Err(RepositoryErrorView::ConflictingAttempt(id)))
        }
    } else if !storage::storable(at_ms) {
        (s, Err(storage::out_of_range(at_ms)))
    } else {
        (
            ControlState {
                assignments: s.assignments.insert(id, admitted(worker_id, contract, at_ms)),
                ..s
            },
            Ok(StoreAssignmentOutcome::Inserted),
        )
    }
}

/// The effect and the answer of releasing a prepared attempt; only the first release changes it.
pub open spec fn release(
    s: ControlState,
    attempt_id: Seq<char>,
    worker_id: Seq<char>,
    at_ms: u64,
) -> (ControlState, Result<bool, RepositoryErrorView>) {
    match super::identity_error(s, attempt_id, worker_id, None) {
        Some(e) => (s, Err(e)),
        None => if s.assignments[attempt_id].state != AttemptState::Preparing {
            (s, Ok(false))
        } else if !storage::storable(at_ms) {
            (s, Err(storage::out_of_range(at_ms)))
        } else {
            (
                ControlState {
                    assignments: s.assignments.insert(
                        attempt_id,
                        AssignmentRecordView {
                            state: AttemptState::Dispatchable,
                            updated_at_ms: at_ms,
                            ..s.assignments[attempt_id]
                        },
                    ),
                    ..s
                },
                Ok(true),
            )
        },
    }
}

/// The attempt is still being prepared for that worker.
pub open spec fn deferrable(s: ControlState, attempt_id: Seq<char>, worker_id: Seq<char>) -> bool {
    &&& s.assignments.dom().contains(attempt_id)
    &&& s.assignments[attempt_id].worker_id == worker_id
    &&& s.assignments[attempt_id].state == AttemptState::Preparing
}

/// The effect and the answer of putting a preparation off.
pub open spec fn defer(
    s: ControlState,
    attempt_id: Seq<char>,
    worker_id: Seq<char>,
    retry_at_ms: u64,
) -> (ControlState, Result<bool, RepositoryErrorView>) {
    if !storage::storable(retry_at_ms) {
        (s, Err(storage::out_of_range(retry_at_ms)))
    } else if !deferrable(s, attempt_id, worker_id) {
        (s, Ok(false))
    } else {
        (
            ControlState {
                assignments: s.assignments.insert(
                    attempt_id,
                    AssignmentRecordView {
                        updated_at_ms: retry_at_ms,
                        ..s.assignments[attempt_id]
                    },
                ),
                ..s
            },
            Ok(true),
        )
    }
}

/// The number after `n`, at most the largest.
pub open spec fn next_number(n: u32) -> u32 {
    if n == u32::MAX {
        n
    } else {
        (n + 1) as u32
    }
}

/// The attempt that takes over the contract of `source`.
pub open spec fn replacement(
    source: AssignmentRecordView,
    worker_id: Seq<char>,
    attempt_id: Seq<char>,
    at_ms: u64,
) -> AssignmentRecordView {
    admitted(
        worker_id,
        AssignmentContractView {
            attempt_id,
            attempt_number: next_number(source.contract.attempt_number),
            ..source.contract
        },
        at_ms,
    )
}

/// Why an expired attempt cannot be taken over by the given attempt. An identity of blanks alone is
/// no identity.
pub open spec fn takeover_error(
    s: ControlState,
    expired_id: Seq<char>,
    replacement_id: Seq<char>,
    at_ms: u64,
) -> Option<RepositoryErrorView> {
    if !s.assignments.dom().contains(expired_id) {
        Some(RepositoryErrorView::NotFound(expired_id))
    } else if s.assignments[expired_id].state != AttemptState::LeaseExpired {
        Some(
            RepositoryErrorView::InvalidTransition {
                from: s.assignments[expired_id].state,
                to: AttemptState::Dispatchable,
            },
        )
    } else if replacement_id.len() == 0 || replacement_id == expired_id
        || s.assignments.dom().contains(replacement_id) {
        Some(RepositoryErrorView::ConflictingAttempt(replacement_id))
    } else if text::blank(replacement_id) {
        Some(RepositoryErrorView::InvalidIdentity("attempt ID must not be empty"@))
    } else if !storage::storable(at_ms) {
        Some(storage::out_of_range(at_ms))
    } else {
        None
    }
}

/// The effect and the answer of a reassignment. An expired attempt is taken over once: the same
/// attempt on the same worker is a repetition, any other a conflict.
pub open spec fn reassign(
    s: ControlState,
    expired_id: Seq<char>,
    worker_id: Seq<char>,
    replacement_id: Seq<char>,
    at_ms: u64,
) -> (ControlState, Result<ReassignmentRecordView, RepositoryErrorView>) {
    if s.reassignments.dom().contains(expired_id) {
        let known = s.reassignments[expired_id];
        if known.attempt_id != replacement_id || known.worker_id != worker_id {
            (s, Err(RepositoryErrorView::ConflictingAttempt(expired_id)))
        } else if !s.assignments.dom().contains(replacement_id) {
            (s, Err(RepositoryErrorView::NotFound(replacement_id)))
        } else {
            (
                s,
                Ok(
                    ReassignmentRecordView {
                        outcome: StoreAssignmentOutcome::Duplicate,
                        assignment: s.assignments[replacement_id],
                    },
                ),
            )
        }
    } else {
        match takeover_error(s, expired_id, replacement_id, at_ms) {
            Some(e) => (s, Err(e)),
            None => {
                let record = replacement(
                    s.assignments[expired_id],
                    worker_id,
                    replacement_id,
                    at_ms,
                );
                (
                    ControlState {
                        assignments: s.assignments.insert(replacement_id, record),
                        reassignments: s.reassignments.insert(
                            expired_id,
                            ReplacementView { attempt_id: replacement_id, worker_id },
                        ),
                        ..s
                    },
                    Ok(
                        ReassignmentRecordView {
                            outcome: StoreAssignmentOutcome::Inserted,
                            assignment: record,
                        },
                    ),
                )
            },
        }
    }
}

/// A frame with that sequence already waits on the connection.
pub open spec fn occupied(frames: Seq<OutboxRowView>, connection_id: Seq<char>, sequence: u64) -> bool {
    exists|i: int|
        0 <= i < frames.len() && (#[trigger] frames[i]).frame.connection_id == connection_id
            && frames[i].frame.sequence == sequence
}

/// The refusal of a second frame at one place of the outbox, in SQLite's own words.
pub open spec fn outbox_conflict() -> RepositoryErrorView {
    RepositoryErrorView::Storage(
        "UNIQUE constraint failed: server_outbox_frames.connection_id, server_outbox_frames.sequence"@,
    )
}

/// The connection is open and belongs to the worker.
pub open spec fn open_connection(
    s: ControlState,
    connection_id: Seq<char>,
    worker_id: Seq<char>,
) -> bool {
    &&& s.connections.dom().contains(connection_id)
    &&& s.connections[connection_id].worker_id == worker_id
    &&& s.connections[connection_id].disconnected_at_ms is None
}

/// Why an assignment frame does not fit its attempt.
pub open spec fn frame_error(
    s: ControlState,
    p: AssignmentDeliveryPreparationView,
) -> Option<RepositoryErrorView> {
    match p.frame.attempt_id {
        None => Some(RepositoryErrorView::Corrupt("assignment frame has no attempt ID"@)),
        Some(id) => if p.frame.kind != ServerFrameKind::Assignment {
            Some(
                RepositoryErrorView::Corrupt(
                    "assignment delivery preparation received a non-assignment frame"@,
                ),
            )
        } else {
            match super::identity_error(s, id, p.frame.worker_id, None) {
                Some(e) => Some(e),
                None => if !s.assignments[id].state.replayable() {
                    Some(
                        RepositoryErrorView::InvalidTransition {
                            from: s.assignments[id].state,
                            to: AttemptState::Sent,
                        },
                    )
                } else {
                    None
                },
            }
        },
    }
}

/// The lease that a delivery finds has run out.
pub open spec fn run_out(s: ControlState, p: AssignmentDeliveryPreparationView) -> bool {
    attempts::lease_expiry(s, p.frame.attempt_id->0) matches Some(expiry) && expiry <= p.now_ms
}

/// Why a delivery that fits its attempt cannot be committed.
pub open spec fn commit_error(
    s: ControlState,
    p: AssignmentDeliveryPreparationView,
) -> Option<RepositoryErrorView> {
    let until = attempts::saturating(p.now_ms, p.lease_duration_ms);
    if !storage::storable(p.now_ms) {
        Some(storage::out_of_range(p.now_ms))
    } else if !storage::storable(until) {
        Some(storage::out_of_range(until))
    } else if !storage::storable(p.frame.sequence) {
        Some(storage::out_of_range(p.frame.sequence))
    } else if occupied(s.frames, p.frame.connection_id, p.frame.sequence) {
        Some(outbox_conflict())
    } else if !storage::storable(p.last_worker_sequence) {
        Some(storage::out_of_range(p.last_worker_sequence))
    } else if !storage::storable(p.last_server_acknowledged_by_worker) {
        Some(storage::out_of_range(p.last_server_acknowledged_by_worker))
    } else if !open_connection(s, p.frame.connection_id, p.frame.worker_id) {
        Some(
            RepositoryErrorView::Corrupt(
                "active connection "@ + p.frame.connection_id + " for worker "@ + p.frame.worker_id
                    + " is missing"@,
            ),
        )
    } else {
        None
    }
}

/// The lease behind a delivery: a first delivery grants it, a repeated one renews it.
pub open spec fn granted(s: ControlState, p: AssignmentDeliveryPreparationView) -> LeaseRecordView {
    let id = p.frame.attempt_id->0;
    let until = attempts::saturating(p.now_ms, p.lease_duration_ms);
    if s.leases.dom().contains(id) {
        LeaseRecordView {
            renewed_at_ms: p.now_ms,
            expires_at_ms: until,
            expired_at_ms: None,
            ..s.leases[id]
        }
    } else {
        LeaseRecordView {
            attempt_id: id,
            lease_id: p.lease_id,
            worker_id: p.frame.worker_id,
            granted_at_ms: p.now_ms,
            renewed_at_ms: p.now_ms,
            expires_at_ms: until,
            expired_at_ms: None,
        }
    }
}

/// The repository behind a committed delivery.
pub open spec fn delivered(s: ControlState, p: AssignmentDeliveryPreparationView) -> ControlState {
    let id = p.frame.attempt_id->0;
    let record = s.assignments[id];
    ControlState {
        assignments: s.assignments.insert(
            id,
            AssignmentRecordView {
                state: if record.state == AttemptState::Dispatchable {
                    AttemptState::Sent
                } else {
                    record.state
                },
                updated_at_ms: p.now_ms,
                ..record
            },
        ),
        leases: s.leases.insert(id, granted(s, p)),
        frames: s.frames.push(OutboxRowView { frame: p.frame, created_at_ms: p.now_ms }),
        connections: s.connections.insert(
            p.frame.connection_id,
            ConnectionRowView {
                last_worker_sequence: p.last_worker_sequence,
                last_server_sequence: p.frame.sequence,
                last_server_acknowledged_by_worker: p.last_server_acknowledged_by_worker,
                ..s.connections[p.frame.connection_id]
            },
        ),
        workers: if s.workers.dom().contains(p.frame.worker_id) {
            s.workers.insert(
                p.frame.worker_id,
                WorkerRowView { last_seen_at_ms: p.now_ms, ..s.workers[p.frame.worker_id] },
            )
        } else {
            s.workers
        },
        ..s
    }
}

/// The effect and the answer of preparing a delivery. State, lease, frame and connection are
/// committed together or not at all; a lease found to have run out expires the attempt.
pub open spec fn deliver(s: ControlState, p: AssignmentDeliveryPreparationView) -> (
    ControlState,
    Result<AssignmentContractView, RepositoryErrorView>,
) {
    match frame_error(s, p) {
        Some(e) => (s, Err(e)),
        None => if run_out(s, p) {
            if !storage::storable(p.now_ms) {
                (s, Err(storage::out_of_range(p.now_ms)))
            } else {
                (
                    super::expire(s, p.frame.attempt_id->0, p.now_ms),
                    Err(
                        RepositoryErrorView::InvalidTransition {
                            from: AttemptState::LeaseExpired,
                            to: AttemptState::Sent,
                        },
                    ),
                )
            }
        } else {
            match commit_error(s, p) {
                Some(e) => (s, Err(e)),
                None => (delivered(s, p), Ok(s.assignments[p.frame.attempt_id->0].contract)),
            }
        },
    }
}

/// The attempts in preparation with the time at which each is due.
pub open spec fn preparing_times(s: ControlState) -> Map<Seq<char>, u64> {
    Map::new(
        |k: Seq<char>|
            s.assignments.dom().contains(k) && s.assignments[k].state == AttemptState::Preparing,
        |k: Seq<char>| s.assignments[k].updated_at_ms,
    )
}

/// The attempts that a worker is sent again, with the time of their admission.
pub open spec fn replay_times(s: ControlState, worker_id: Seq<char>) -> Map<Seq<char>, u64> {
    Map::new(
        |k: Seq<char>|
            s.assignments.dom().contains(k) && s.assignments[k].worker_id == worker_id
                && s.assignments[k].state.replayable(),
        |k: Seq<char>| s.assignments[k].created_at_ms,
    )
}

/// The records of the first `n` listed attempts.
pub open spec fn records(s: ControlState, ids: Seq<Seq<char>>, n: int) -> Seq<
    AssignmentRecordView,
> {
    Seq::new(
        (if n < ids.len() {
            n
        } else {
            ids.len() as int
        }) as nat,
        |i: int| s.assignments[ids[i]],
    )
}

pub open spec fn record_views(list: Seq<AssignmentRecord>) -> Seq<AssignmentRecordView> {
    Seq::new(list.len(), |i: int| list[i]@)
}

pub open spec fn reassignment_seen(r: Result<ReassignmentRecord, RepositoryError>) -> Result<
    ReassignmentRecordView,
    RepositoryErrorView,
> {
    match r {
        Ok(record) => Ok(record@),
        Err(e) => Err(e@),
    }
}

pub open spec fn contract_seen(r: Result<AssignmentContract, RepositoryError>) -> Result<
    AssignmentContractView,
    RepositoryErrorView,
> {
    match r {
        Ok(contract) => Ok(contract@),
        Err(e) => Err(e@),
    }
}

impl ControlRepository {
    /// Admits an attempt.
    pub fn store_assignment(
        &mut self,
        worker_id: &str,
        contract: &AssignmentContract,
        at_ms: u64,
    ) -> (r: Result<StoreAssignmentOutcome, RepositoryError>)
        ensures
            (final(self)@, super::seen(r)) == store(old(self)@, worker_id@, contract@, at_ms),
    {
        match self.assignments.get(contract.attempt_id.as_str()) {
            Some(existing) => {
                if text::same(existing.worker_id.as_str(), worker_id) && existing.contract.same(
                    contract,
                ) {
                    return Ok(StoreAssignmentOutcome::Duplicate);
                }
                return Err(RepositoryError::ConflictingAttempt(contract.attempt_id.clone()));
            },
            None => {},
        }
        match storage::to_i64(at_ms) {
            Ok(_) => {},
            Err(error) => {
                return Err(error);
            },
        }
        let record = AssignmentRecord {
            worker_id: worker_id.to_owned(),
            contract: contract.clone(),
            state: AttemptState::Preparing,
            created_at_ms: at_ms,
            updated_at_ms: at_ms,
            cancellation_reason: None,
        };
        self.put_assignment(contract.attempt_id.as_str(), record);
        Ok(StoreAssignmentOutcome::Inserted)
    }

    /// Releases an attempt whose side effects are complete.
    pub fn mark_assignment_dispatchable(
        &mut self,
        attempt_id: &str,
        worker_id: &str,
        at_ms: u64,
    ) -> (r: Result<bool, RepositoryError>)
        ensures
            (final(self)@, super::seen(r)) == release(old(self)@, attempt_id@, worker_id@, at_ms),
    {
        let mut record = match self.identify(attempt_id, worker_id, None) {
            Ok(record) => record.clone(),
            Err(error) => {
                return Err(error);
            },
        };
        if record.state != AttemptState::Preparing {
            return Ok(false);
        }
        match storage::to_i64(at_ms) {
            Ok(_) => {},
            Err(error) => {
                return Err(error);
            },
        }
        record.state = AttemptState::Dispatchable;
        record.updated_at_ms = at_ms;
        self.put_assignment(attempt_id, record);
        Ok(true)
    }

    /// Puts an attempt in preparation behind the work that is due earlier.
    pub fn defer_assignment_preparation(
        &mut self,
        attempt_id: &str,
        worker_id: &str,
        retry_at_ms: u64,
    ) -> (r: Result<bool, RepositoryError>)
        ensures
            (final(self)@, super::seen(r)) == defer(old(self)@, attempt_id@, worker_id@, retry_at_ms),
    {
        match storage::to_i64(retry_at_ms) {
            Ok(_) => {},
            Err(error) => {
                return Err(error);
            },
        }
        let mut record = match self.assignments.get(attempt_id) {
            Some(record) => record.clone(),
            None => {
                return Ok(false);
            },
        };
        if !text::same(record.worker_id.as_str(), worker_id) || record.state
            != AttemptState::Preparing {
            return Ok(false);
        }
        record.updated_at_ms = retry_at_ms;
        self.put_assignment(attempt_id, record);
        Ok(true)
    }

    /// Creates the attempt that takes over an expired one.
    pub fn reassign_expired(
        &mut self,
        expired_attempt_id: &str,
        replacement_worker_id: &str,
        replacement_attempt_id: &str,
        at_ms: u64,
    ) -> (r: Result<ReassignmentRecord, RepositoryError>)
        ensures
            (final(self)@, reassignment_seen(r)) == reassign(
                old(self)@,
                expired_attempt_id@,
                replacement_worker_id@,
                replacement_attempt_id@,
                at_ms,
            ),
    {
        match self.reassignments.get(expired_attempt_id) {
            Some(known) => {
                if !text::same(known.attempt_id.as_str(), replacement_attempt_id) || !text::same(
                    known.worker_id.as_str(),
                    replacement_worker_id,
                ) {
                    return Err(RepositoryError::ConflictingAttempt(expired_attempt_id.to_owned()));
                }
                return match self.assignments.get(replacement_attempt_id) {
                    Some(record) => Ok(
                        ReassignmentRecord {
                            outcome: StoreAssignmentOutcome::Duplicate,
                            assignment: record.clone(),
                        },
                    ),
                    None => Err(RepositoryError::NotFound(replacement_attempt_id.to_owned())),
                };
            },
            None => {},
        }
        let mut record = match self.assignments.get(expired_attempt_id) {
            Some(record) => record.clone(),
            None => {
                return Err(RepositoryError::NotFound(expired_attempt_id.to_owned()));
            },
        };
        if record.state != AttemptState::LeaseExpired {
            return Err(
                RepositoryError::InvalidTransition {
                    from: record.state,
                    to: AttemptState::Dispatchable,
                },
            );
        }
        if replacement_attempt_id.is_empty() || text::same(
            replacement_attempt_id,
            expired_attempt_id,
        ) || self.assignments.contains(replacement_attempt_id) {
            return Err(RepositoryError::ConflictingAttempt(replacement_attempt_id.to_owned()));
        }
        if text::is_blank(replacement_attempt_id) {
            return Err(
                RepositoryError::InvalidIdentity("attempt ID must not be empty".to_owned()),
            );
        }
        match storage::to_i64(at_ms) {
            Ok(_) => {},
            Err(error) => {
                return Err(error);
            },
        }
        record.worker_id = replacement_worker_id.to_owned();
        record.contract.attempt_id = replacement_attempt_id.to_owned();
        record.contract.attempt_number = record.contract.attempt_number.saturating_add(1);
        record.state = AttemptState::Preparing;
        record.created_at_ms = at_ms;
        record.updated_at_ms = at_ms;
        record.cancellation_reason = None;
        let answer = record.clone();
        self.put_assignment(replacement_attempt_id, record);
        let ghost before = self.reassignments@;
        let link = Replacement {
            attempt_id: replacement_attempt_id.to_owned(),
            worker_id: replacement_worker_id.to_owned(),
        };
        let _ = self.reassignments.insert(expired_attempt_id.to_owned(), link);
        proof {
            ordered::values_insert(before, expired_attempt_id@, link);
        }
        Ok(
            ReassignmentRecord {
                outcome: StoreAssignmentOutcome::Inserted,
                assignment: answer,
            },
        )
    }

    /// Whether a frame with that sequence already waits on the connection.
    pub(crate) fn outbox_holds(&self, connection_id: &str, sequence: u64) -> (r: bool)
        ensures
            r == occupied(self@.frames, connection_id@, sequence),
    {
        let mut i: usize = 0;
        while i < self.frames.len()
            invariant
                i <= self.frames@.len(),
                self@.frames.len() == self.frames@.len(),
                forall|k: int|
                    0 <= k < i ==> !((#[trigger] self@.frames[k]).frame.connection_id
                        == connection_id@ && self@.frames[k].frame.sequence == sequence),
            decreases self.frames@.len() - i,
        {
            let row = &self.frames[i];
            assert(self@.frames[i as int] == row@);
            if text::same(row.frame.connection_id.as_str(), connection_id) && row.frame.sequence
                == sequence {
                return true;
            }
            i += 1;
        }
        false
    }

    fn check_frame<'a>(&self, preparation: &'a AssignmentDeliveryPreparation) -> (r: Result<
        &'a str,
        RepositoryError,
    >)
        ensures
            match frame_error(self@, preparation@) {
                Some(e) => r matches Err(error) && error@ == e,
                None => r matches Ok(id) && Some(id@) == preparation@.frame.attempt_id,
            },
    {
        let attempt_id = match &preparation.frame.attempt_id {
            Some(id) => id.as_str(),
            None => {
                return Err(
                    RepositoryError::Corrupt("assignment frame has no attempt ID".to_owned()),
                );
            },
        };
        if preparation.frame.kind != ServerFrameKind::Assignment {
            return Err(
                RepositoryError::Corrupt(
                    "assignment delivery preparation received a non-assignment frame".to_owned(),
                ),
            );
        }
        match self.identify(attempt_id, preparation.frame.worker_id.as_str(), None) {
            Ok(record) => {
                if record.state.is_replayable() {
                    Ok(attempt_id)
                } else {
                    Err(
                        RepositoryError::InvalidTransition {
                            from: record.state,
                            to: AttemptState::Sent,
                        },
                    )
                }
            },
            Err(error) => Err(error),
        }
    }

    fn check_commit(&self, preparation: &AssignmentDeliveryPreparation, until_ms: u64) -> (r: Result<
        (),
        RepositoryError,
    >)
        requires
            until_ms == attempts::saturating(
                preparation.now_ms,
                preparation.lease_duration_ms,
            ),
        ensures
            match commit_error(self@, preparation@) {
                Some(e) => r matches Err(error) && error@ == e,
                None => r is Ok,
            },
    {
        storage::to_i64(preparation.now_ms)?;
        storage::to_i64(until_ms)?;
        storage::to_i64(preparation.frame.sequence)?;
        if self.outbox_holds(preparation.frame.connection_id.as_str(), preparation.frame.sequence) {
            return Err(
                RepositoryError::Storage(
                    "UNIQUE constraint failed: server_outbox_frames.connection_id, server_outbox_frames.sequence".to_owned(),
                ),
            );
        }
        storage::to_i64(preparation.last_worker_sequence)?;
        storage::to_i64(preparation.last_server_acknowledged_by_worker)?;
        let open = match self.connections.get(preparation.frame.connection_id.as_str()) {
            Some(row) => row.disconnected_at_ms.is_none() && text::same(
                row.worker_id.as_str(),
                preparation.frame.worker_id.as_str(),
            ),
            None => false,
        };
        if !open {
            let mut out = text::enclosed(
                "active connection ",
                preparation.frame.connection_id.as_str(),
                " for worker ",
            );
            out.append(preparation.frame.worker_id.as_str());
            out.append(" is missing");
            return Err(RepositoryError::Corrupt(out));
        }
        Ok(())
    }

    /// Commits state, lease, frame and connection of one delivery together.
    pub fn prepare_assignment_delivery(
        &mut self,
        preparation: &AssignmentDeliveryPreparation,
    ) -> (r: Result<AssignmentContract, RepositoryError>)
        ensures
            (final(self)@, contract_seen(r)) == deliver(old(self)@, preparation@),
    {
        let attempt_id = match self.check_frame(preparation) {
            Ok(id) => id,
            Err(error) => {
                return Err(error);
            },
        };
        let now_ms = preparation.now_ms;
        let lease_run_out = match self.leases.get(attempt_id) {
            Some(lease) => lease.expires_at_ms <= now_ms,
            None => false,
        };
        if lease_run_out {
            match storage::to_i64(now_ms) {
                Ok(_) => {},
                Err(error) => {
                    return Err(error);
                },
            }
            self.expire_one(attempt_id, now_ms);
            return Err(
                RepositoryError::InvalidTransition {
                    from: AttemptState::LeaseExpired,
                    to: AttemptState::Sent,
                },
            );
        }
        let until_ms = now_ms.saturating_add(preparation.lease_duration_ms);
        match self.check_commit(preparation, until_ms) {
            Ok(_) => {},
            Err(error) => {
                return Err(error);
            },
        }
        let (record, contract) = match self.assignments.get(attempt_id) {
            Some(record) => {
                let mut record = record.clone();
                if record.state == AttemptState::Dispatchable {
                    record.state = AttemptState::Sent;
                }
                record.updated_at_ms = now_ms;
                let contract = record.contract.clone();
                (record, contract)
            },
            None => {
                return Err(RepositoryError::NotFound(attempt_id.to_owned()));
            },
        };
        let lease = match self.leases.get(attempt_id) {
            Some(lease) => {
                let mut lease = lease.clone();
                lease.renewed_at_ms = now_ms;
                lease.expires_at_ms = until_ms;
                lease.expired_at_ms = None;
                lease
            },
            None => LeaseRecord {
                attempt_id: attempt_id.to_owned(),
                lease_id: preparation.lease_id.clone(),
                worker_id: preparation.frame.worker_id.clone(),
                granted_at_ms: now_ms,
                renewed_at_ms: now_ms,
                expires_at_ms: until_ms,
                expired_at_ms: None,
            },
        };
        let connection_id = preparation.frame.connection_id.as_str();
        let connection = match self.connections.get(connection_id) {
            Some(row) => ConnectionRow {
                worker_id: row.worker_id.clone(),
                instance_id: row.instance_id.clone(),
                connected_at_ms: row.connected_at_ms,
                disconnected_at_ms: row.disconnected_at_ms,
                last_worker_sequence: preparation.last_worker_sequence,
                last_server_sequence: preparation.frame.sequence,
                last_server_acknowledged_by_worker: preparation.last_server_acknowledged_by_worker,
            },
            None => {
                return Err(RepositoryError::NotFound(attempt_id.to_owned()));
            },
        };
        let worker_id = preparation.frame.worker_id.as_str();
        let worker = match self.workers.get(worker_id) {
            Some(row) => Some(
                WorkerRow {
                    registration: row.registration.clone(),
                    registered_at_ms: row.registered_at_ms,
                    last_seen_at_ms: now_ms,
                },
            ),
            None => None,
        };
        self.put_assignment(attempt_id, record);
        self.put_lease(attempt_id, lease);
        self.push_frame(OutboxRow { frame: preparation.frame.clone(), created_at_ms: now_ms });
        self.put_connection(connection_id, connection);
        match worker {
            Some(row) => self.put_worker(worker_id, row),
            None => {},
        }
        Ok(contract)
    }

    /// The records of the first `limit` listed attempts.
    fn take_records(&self, listing: &Agenda, limit: usize) -> (r: Vec<AssignmentRecord>)
        requires
            forall|i: int|
                0 <= i < listing.keys().len() ==> self@.assignments.dom().contains(
                    #[trigger] listing.keys()[i],
                ),
        ensures
            record_views(r@) == records(self@, listing.keys(), limit as int),
    {
        let mut out: Vec<AssignmentRecord> = Vec::new();
        let mut i: usize = 0;
        while i < listing.len() && i < limit
            invariant
                i <= listing.keys().len(),
                i <= limit,
                out@.len() == i,
                forall|k: int|
                    0 <= k < listing.keys().len() ==> self@.assignments.dom().contains(
                        #[trigger] listing.keys()[k],
                    ),
                forall|k: int|
                    0 <= k < i ==> (#[trigger] out@[k])@ == self@.assignments[listing.keys()[k]],
            decreases listing.keys().len() - i,
        {
            assert(self@.assignments.dom().contains(listing.keys()[i as int]));
            if let Some(record) = self.assignments.get(listing.key(i)) {
                out.push(record.clone());
            }
            i += 1;
        }
        assert(record_views(out@) =~= records(self@, listing.keys(), limit as int));
        out
    }

    fn preparing(&self) -> (r: Agenda)
        ensures
            r.keys() == agenda::agenda(preparing_times(self@)),
            agenda::is_agenda(preparing_times(self@), r.keys()),
    {
        let n = self.assignments.len();
        let ghost keys = self.assignments.keys();
        let ghost mut times = Map::<Seq<char>, u64>::empty();
        let mut listing = Agenda::new();
        let mut i: usize = 0;
        while i < n
            invariant
                i <= n,
                n == keys.len(),
                keys == self.assignments.keys(),
                ordered::lists(self.assignments@, keys),
                listing.lists(times),
                forall|k: Seq<char>|
                    #[trigger] times.dom().contains(k) <==> preparing_times(self@).dom().contains(k)
                        && keys.take(i as int).contains(k),
                forall|k: Seq<char>|
                    times.dom().contains(k) ==> #[trigger] times[k] == preparing_times(self@)[k],
            decreases n - i,
        {
            let key = self.assignments.key_at(i);
            let record = self.assignments.value_at(i);
            let ghost before = times;
            proof {
                assert(keys[i as int] == key@);
                assert(keys.take(i + 1) =~= keys.take(i as int).push(key@));
                assert(!keys.take(i as int).contains(key@)) by {
                    if keys.take(i as int).contains(key@) {
                        let m = choose|m: int| 0 <= m < i && keys.take(i as int)[m] == key@;
                        assert(text::lt(keys[m], keys[i as int]));
                        text::lt_irreflexive(key@);
                    }
                }
                assert(!times.dom().contains(key@));
            }
            if record.state == AttemptState::Preparing {
                listing.add(record.updated_at_ms, key.to_owned(), Ghost(times));
                proof {
                    times = times.insert(key@, record.updated_at_ms);
                }
            }
            proof {
                assert forall|k: Seq<char>|
                    #[trigger] times.dom().contains(k) <==> preparing_times(self@).dom().contains(k)
                        && keys.take(i + 1).contains(k) by {
                    assert(before.dom().contains(k) <==> preparing_times(self@).dom().contains(k)
                        && keys.take(i as int).contains(k));
                    let longer = keys.take(i + 1);
                    if keys.take(i as int).contains(k) {
                        let m = choose|m: int| 0 <= m < i && keys.take(i as int)[m] == k;
                        assert(longer[m] == k);
                    }
                    if k == key@ {
                        assert(longer[i as int] == k);
                    }
                    if longer.contains(k) && k != key@ {
                        let m = choose|m: int| 0 <= m < longer.len() && longer[m] == k;
                        assert(keys.take(i as int)[m] == k);
                    }
                }
            }
            i += 1;
        }
        proof {
            assert(keys.take(n as int) =~= keys);
            assert(times =~= preparing_times(self@)) by {
                assert forall|k: Seq<char>|
                    times.dom().contains(k) <==> preparing_times(self@).dom().contains(k) by {
                    if preparing_times(self@).dom().contains(k) {
                        assert(self.assignments@.dom().contains(k));
                        assert(keys.contains(k));
                    }
                }
            }
            listing.is_the_agenda(times);
        }
        listing
    }

    /// The attempts in preparation that are due first.
    pub fn preparing_assignments(&self, limit: usize) -> (r: Result<
        Vec<AssignmentRecord>,
        RepositoryError,
    >)
        ensures
            match r {
                Ok(list) => limit <= i64::MAX && record_views(list@) == records(
                    self@,
                    agenda::agenda(preparing_times(self@)),
                    limit as int,
                ),
                Err(e) => limit > i64::MAX && e@ == RepositoryErrorView::Corrupt(
                    "batch limit "@ + text::decimal(limit as nat) + " exceeds SQLite range"@,
                ),
            },
    {
        if limit as u64 > 9223372036854775807 {
            let mut out = "batch limit ".to_owned();
            text::push_decimal(&mut out, limit as u64);
            out.append(" exceeds SQLite range");
            return Err(RepositoryError::Corrupt(out));
        }
        let listing = self.preparing();
        proof {
            assert forall|i: int|
                0 <= i < listing.keys().len() implies self@.assignments.dom().contains(
                #[trigger] listing.keys()[i],
            ) by {
                assert(listing.keys().contains(listing.keys()[i]));
            }
        }
        Ok(self.take_records(&listing, limit))
    }

    /// The number of attempts in preparation.
    pub fn preparing_assignment_count(&self) -> (r: usize)
        ensures
            r == agenda::agenda(preparing_times(self@)).len(),
    {
        self.preparing().len()
    }

    fn replayable(&self, worker_id: &str) -> (r: Agenda)
        ensures
            r.keys() == agenda::agenda(replay_times(self@, worker_id@)),
            agenda::is_agenda(replay_times(self@, worker_id@), r.keys()),
    {
        let n = self.assignments.len();
        let ghost keys = self.assignments.keys();
        let ghost wanted = replay_times(self@, worker_id@);
        let ghost mut times = Map::<Seq<char>, u64>::empty();
        let mut listing = Agenda::new();
        let mut i: usize = 0;
        while i < n
            invariant
                i <= n,
                n == keys.len(),
                keys == self.assignments.keys(),
                wanted == replay_times(self@, worker_id@),
                ordered::lists(self.assignments@, keys),
                listing.lists(times),
                forall|k: Seq<char>|
                    #[trigger] times.dom().contains(k) <==> wanted.dom().contains(k) && keys.take(
                        i as int,
                    ).contains(k),
                forall|k: Seq<char>|
                    times.dom().contains(k) ==> #[trigger] times[k] == wanted[k],
            decreases n - i,
        {
            let key = self.assignments.key_at(i);
            let record = self.assignments.value_at(i);
            let ghost before = times;
            proof {
                assert(keys[i as int] == key@);
                assert(keys.take(i + 1) =~= keys.take(i as int).push(key@));
                assert(!keys.take(i as int).contains(key@)) by {
                    if keys.take(i as int).contains(key@) {
                        let m = choose|m: int| 0 <= m < i && keys.take(i as int)[m] == key@;
                        assert(text::lt(keys[m], keys[i as int]));
                        text::lt_irreflexive(key@);
                    }
                }
                assert(!times.dom().contains(key@));
            }
            if text::same(record.worker_id.as_str(), worker_id) && record.state.is_replayable() {
                listing.add(record.created_at_ms, key.to_owned(), Ghost(times));
                proof {
                    times = times.insert(key@, record.created_at_ms);
                }
            }
            proof {
                assert forall|k: Seq<char>|
                    #[trigger] times.dom().contains(k) <==> wanted.dom().contains(k) && keys.take(
                        i + 1,
                    ).contains(k) by {
                    assert(before.dom().contains(k) <==> wanted.dom().contains(k) && keys.take(
                        i as int,
                    ).contains(k));
                    let longer = keys.take(i + 1);
                    if keys.take(i as int).contains(k) {
                        let m = choose|m: int| 0 <= m < i && keys.take(i as int)[m] == k;
                        assert(longer[m] == k);
                    }
                    if k == key@ {
                        assert(longer[i as int] == k);
                    }
                    if longer.contains(k) && k != key@ {
                        let m = choose|m: int| 0 <= m < longer.len() && longer[m] == k;
                        assert(keys.take(i as int)[m] == k);
                    }
                }
            }
            i += 1;
        }
        proof {
            assert(keys.take(n as int) =~= keys);
            assert(times =~= wanted) by {
                assert forall|k: Seq<char>|
                    times.dom().contains(k) <==> wanted.dom().contains(k) by {
                    if wanted.dom().contains(k) {
                        assert(self.assignments@.dom().contains(k));
                        assert(keys.contains(k));
                    }
                }
            }
            listing.is_the_agenda(times);
        }
        listing
    }

    /// The attempts that a reconnecting worker is sent again, oldest first.
    pub fn replayable_assignments(&self, worker_id: &str) -> (r: Vec<AssignmentRecord>)
        ensures
            record_views(r@) == records(
                self@,
                agenda::agenda(replay_times(self@, worker_id@)),
                agenda::agenda(replay_times(self@, worker_id@)).len() as int,
            ),
    {
        let listing = self.replayable(worker_id);
        proof {
            assert forall|i: int|
                0 <= i < listing.keys().len() implies self@.assignments.dom().contains(
                #[trigger] listing.keys()[i],
            ) by {
                assert(listing.keys().contains(listing.keys()[i]));
            }
        }
        let all = listing.len();
        self.take_records(&listing, all)
    }
}

} // verus!
