//! Frames to a worker, committed before they are handed to its connection.
use super::{ConnectedWorkerView, ServiceState, WorkerControlService};
use crate::proto::v1;
use crate::proto::v1::{
    CancelAttempt, CancelAttemptView, ServerMessage, ServerMessageView, ServerToWorker,
    ServerToWorkerView,
};
use crate::repository;
use crate::repository::assignments;
use crate::repository::connections;
use crate::repository::ControlState;
use crate::storage::{
    AssignmentDeliveryPreparation, AssignmentDeliveryPreparationView, RepositoryError,
    RepositoryErrorView, ServerFrameKind, ServerOutboxFrame, ServerOutboxFrameView,
};
use crate::text;
use crate::wire;
use vstd::prelude::*;
use vstd::string::*;

verus! {

pub open spec fn frame_seen(r: Result<Option<ServerToWorker>, RepositoryError>) -> Result<
    Option<ServerToWorkerView>,
    RepositoryErrorView,
> {
    match r {
        Ok(Some(frame)) => Ok(Some(frame@)),
        Ok(None) => Ok(None),
        Err(e) => Err(e@),
    }
}

/// The service once the worker's next server sequence is used up.
pub open spec fn advanced(s: ServiceState, worker_id: Seq<char>) -> ServiceState {
    let worker = s.workers[worker_id];
    ServiceState {
        workers: s.workers.insert(
            worker_id,
            ConnectedWorkerView {
                next_server_sequence: (worker.next_server_sequence + 1) as u64,
                ..worker
            },
        ),
        ..s
    }
}

/// The frame that takes the worker's next server sequence.
pub open spec fn next_frame(
    worker: ConnectedWorkerView,
    message_id: Seq<char>,
    message: ServerMessageView,
) -> ServerToWorkerView {
    ServerToWorkerView {
        sequence: worker.next_server_sequence,
        acknowledges_worker_through: worker.last_worker_sequence,
        message_id,
        message: Some(message),
    }
}

/// The stored trace of a frame about an attempt.
pub open spec fn outbox_frame(
    worker: ConnectedWorkerView,
    worker_id: Seq<char>,
    kind: ServerFrameKind,
    message_id: Seq<char>,
    attempt_id: Seq<char>,
) -> ServerOutboxFrameView {
    ServerOutboxFrameView {
        connection_id: worker.connection_id,
        sequence: worker.next_server_sequence,
        message_id,
        worker_id,
        kind,
        attempt_id: Some(attempt_id),
    }
}

/// What the repository is asked to commit for the delivery of an attempt.
pub open spec fn preparation(
    s: ServiceState,
    worker_id: Seq<char>,
    attempt_id: Seq<char>,
    now_ms: u64,
) -> AssignmentDeliveryPreparationView {
    let worker = s.workers[worker_id];
    AssignmentDeliveryPreparationView {
        frame: outbox_frame(
            worker,
            worker_id,
            ServerFrameKind::Assignment,
            "assignment:"@ + attempt_id,
            attempt_id,
        ),
        lease_id: "lease-"@ + text::decimal(s.lease_counter as nat),
        last_worker_sequence: worker.last_worker_sequence,
        last_server_acknowledged_by_worker: worker.last_server_sequence_acknowledged,
        now_ms,
        lease_duration_ms: s.attempt_lease_ms,
    }
}

/// Prepares an assignment frame: nothing where the worker cannot be reached; otherwise lease,
/// state and frame are committed first, and each try uses up a lease identity.
pub open spec fn assignment_frame(
    s: ServiceState,
    worker_id: Seq<char>,
    attempt_id: Seq<char>,
    now_ms: u64,
) -> (ServiceState, Result<Option<ServerToWorkerView>, RepositoryErrorView>) {
    if !super::reachable(s, worker_id) {
        (s, Ok(None))
    } else {
        let (stored, r) = assignments::deliver(
            s.repository,
            preparation(s, worker_id, attempt_id, now_ms),
        );
        let t = ServiceState {
            repository: stored,
            lease_counter: wrapped(s.lease_counter),
            ..s
        };
        match r {
            Err(e) => (t, Err(e)),
            Ok(contract) => (
                advanced(t, worker_id),
                Ok(
                    Some(
                        next_frame(
                            s.workers[worker_id],
                            "assignment:"@ + attempt_id,
                            ServerMessageView::Assignment(wire::assignment_of(contract)),
                        ),
                    ),
                ),
            ),
        }
    }
}

/// The counter after one more use.
pub open spec fn wrapped(n: u64) -> u64 {
    if n == u64::MAX {
        0
    } else {
        (n + 1) as u64
    }
}

/// The repository once a cancel frame and the counters of its connection are recorded.
pub open spec fn cancel_recorded(
    s: ControlState,
    worker: ConnectedWorkerView,
    worker_id: Seq<char>,
    attempt_id: Seq<char>,
    now_ms: u64,
) -> (ControlState, Result<(), RepositoryErrorView>) {
    let (recorded, r) = connections::record_frame(
        s,
        outbox_frame(
            worker,
            worker_id,
            ServerFrameKind::Cancel,
            "cancel:"@ + attempt_id,
            attempt_id,
        ),
        now_ms,
    );
    match r {
        Err(e) => (recorded, Err(e)),
        Ok(_) => connections::update_sequences(
            recorded,
            worker.connection_id,
            worker.last_worker_sequence,
            worker.next_server_sequence,
            worker.last_server_sequence_acknowledged,
            now_ms,
        ),
    }
}

/// Prepares a cancel frame: nothing where the worker cannot be reached; otherwise the frame and the
/// counters are recorded first.
pub open spec fn cancel_frame(
    s: ServiceState,
    worker_id: Seq<char>,
    attempt_id: Seq<char>,
    reason: Seq<char>,
    now_ms: u64,
) -> (ServiceState, Result<Option<ServerToWorkerView>, RepositoryErrorView>) {
    if !super::reachable(s, worker_id) {
        (s, Ok(None))
    } else {
        let worker = s.workers[worker_id];
        let (stored, r) = cancel_recorded(s.repository, worker, worker_id, attempt_id, now_ms);
        let t = ServiceState { repository: stored, ..s };
        match r {
            Err(e) => (t, Err(e)),
            Ok(_) => (
                advanced(t, worker_id),
                Ok(
                    Some(
                        next_frame(
                            worker,
                            "cancel:"@ + attempt_id,
                            ServerMessageView::Cancel(CancelAttemptView { attempt_id, reason }),
                        ),
                    ),
                ),
            ),
        }
    }
}

/// Prepares an acknowledgement on the connection it belongs to.
pub open spec fn acknowledgement_frame(
    s: ServiceState,
    worker_id: Seq<char>,
    connection_id: Seq<char>,
    now_ms: u64,
) -> (ServiceState, Result<Option<ServerToWorkerView>, RepositoryErrorView>) {
    if !super::reachable(s, worker_id) || s.workers[worker_id].connection_id != connection_id {
        (s, Ok(None))
    } else {
        let worker = s.workers[worker_id];
        let (stored, r) = connections::update_sequences(
            s.repository,
            connection_id,
            worker.last_worker_sequence,
            worker.next_server_sequence,
            worker.last_server_sequence_acknowledged,
            now_ms,
        );
        let t = ServiceState { repository: stored, ..s };
        match r {
            Err(e) => (t, Err(e)),
            Ok(_) => (
                advanced(t, worker_id),
                Ok(Some(next_frame(worker, ""@, ServerMessageView::Acknowledgement))),
            ),
        }
    }
}

impl WorkerControlService {
    fn reachable_worker(&self, worker_id: &str) -> (r: Option<super::ConnectedWorker>)
        ensures
            r is Some <==> super::reachable(self@, worker_id@),
            r matches Some(worker) ==> worker@ == self@.workers[worker_id@],
    {
        match self.workers.get(worker_id) {
            Some(worker) => if worker.connected {
                Some(worker.clone())
            } else {
                None
            },
            None => None,
        }
    }

    fn advance_worker(&mut self, worker_id: &str, worker: super::ConnectedWorker)
        requires
            worker@ == old(self)@.workers[worker_id@],
            worker.next_server_sequence < u64::MAX,
        ensures
            final(self)@ == advanced(old(self)@, worker_id@),
    {
        let mut worker = worker;
        worker.next_server_sequence += 1;
        self.put_worker(worker_id, worker);
    }

    /// Commits the delivery of an attempt and makes its frame; nothing where the worker is away.
    pub fn prepare_assignment(&mut self, worker_id: &str, attempt_id: &str, now_ms: u64) -> (r:
        Result<Option<ServerToWorker>, RepositoryError>)
        ensures
            (final(self)@, frame_seen(r)) == assignment_frame(
                old(self)@,
                worker_id@,
                attempt_id@,
                now_ms,
            ),
    {
        let worker = match self.reachable_worker(worker_id) {
            Some(worker) => worker,
            None => {
                return Ok(None);
            },
        };
        let mut lease_id = "lease-".to_owned();
        text::push_decimal(&mut lease_id, self.lease_counter);
        self.lease_counter = self.lease_counter.wrapping_add(1);
        let message_id = text::concat("assignment:", attempt_id);
        let preparation = AssignmentDeliveryPreparation {
            frame: ServerOutboxFrame {
                connection_id: worker.connection_id.clone(),
                sequence: worker.next_server_sequence,
                message_id: message_id.clone(),
                worker_id: worker_id.to_owned(),
                kind: ServerFrameKind::Assignment,
                attempt_id: Some(attempt_id.to_owned()),
            },
            lease_id,
            last_worker_sequence: worker.last_worker_sequence,
            last_server_acknowledged_by_worker: worker.last_server_sequence_acknowledged,
            now_ms,
            lease_duration_ms: self.attempt_lease_ms,
        };
        assert(preparation@ == self::preparation(old(self)@, worker_id@, attempt_id@, now_ms));
        let contract = match self.repository.prepare_assignment_delivery(&preparation) {
            Ok(contract) => contract,
            Err(error) => {
                return Err(error);
            },
        };
        let frame = ServerToWorker {
            sequence: worker.next_server_sequence,
            acknowledges_worker_through: worker.last_worker_sequence,
            message_id,
            message: Some(ServerMessage::Assignment(wire::contract_to_assignment(&contract))),
        };
        self.advance_worker(worker_id, worker);
        Ok(Some(frame))
    }

    /// Records a cancellation frame and makes it; nothing where the worker is away.
    pub fn prepare_cancel(
        &mut self,
        worker_id: &str,
        attempt_id: &str,
        reason: &str,
        now_ms: u64,
    ) -> (r: Result<Option<ServerToWorker>, RepositoryError>)
        ensures
            (final(self)@, frame_seen(r)) == cancel_frame(
                old(self)@,
                worker_id@,
                attempt_id@,
                reason@,
                now_ms,
            ),
    {
        let worker = match self.reachable_worker(worker_id) {
            Some(worker) => worker,
            None => {
                return Ok(None);
            },
        };
        let message_id = text::concat("cancel:", attempt_id);
        let recorded = ServerOutboxFrame {
            connection_id: worker.connection_id.clone(),
            sequence: worker.next_server_sequence,
            message_id: message_id.clone(),
            worker_id: worker_id.to_owned(),
            kind: ServerFrameKind::Cancel,
            attempt_id: Some(attempt_id.to_owned()),
        };
        self.repository.record_server_frame(&recorded, now_ms)?;
        self.repository.update_connection_sequences(
            worker.connection_id.as_str(),
            worker.last_worker_sequence,
            worker.next_server_sequence,
            worker.last_server_sequence_acknowledged,
            now_ms,
        )?;
        let frame = ServerToWorker {
            sequence: worker.next_server_sequence,
            acknowledges_worker_through: worker.last_worker_sequence,
            message_id,
            message: Some(
                ServerMessage::Cancel(
                    CancelAttempt {
                        attempt_id: attempt_id.to_owned(),
                        reason: reason.to_owned(),
                    },
                ),
            ),
        };
        self.advance_worker(worker_id, worker);
        Ok(Some(frame))
    }

    /// Makes the frame that acknowledges what a worker has sent on a connection.
    pub fn prepare_transport_ack(&mut self, worker_id: &str, connection_id: &str, now_ms: u64) -> (r:
        Result<Option<ServerToWorker>, RepositoryError>)
        ensures
            (final(self)@, frame_seen(r)) == acknowledgement_frame(
                old(self)@,
                worker_id@,
                connection_id@,
                now_ms,
            ),
    {
        let worker = match self.reachable_worker(worker_id) {
            Some(worker) => worker,
            None => {
                return Ok(None);
            },
        };
        if !text::same(worker.connection_id.as_str(), connection_id) {
            return Ok(None);
        }
        self.repository.update_connection_sequences(
            connection_id,
            worker.last_worker_sequence,
            worker.next_server_sequence,
            worker.last_server_sequence_acknowledged,
            now_ms,
        )?;
        let frame = ServerToWorker {
            sequence: worker.next_server_sequence,
            acknowledges_worker_through: worker.last_worker_sequence,
            message_id: "".to_owned(),
            message: Some(ServerMessage::Acknowledgement),
        };
        self.advance_worker(worker_id, worker);
        Ok(Some(frame))
    }
}

} // verus!
