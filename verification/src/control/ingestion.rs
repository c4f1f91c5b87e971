//! Frames from a worker: their order, and what each report changes.
use super::{ConnectedWorkerView, ServiceState, WorkerControlService};
use crate::control::projection;
use crate::digest;
use crate::events;
use crate::proto;
use crate::proto::v1;
use crate::proto::v1::{WorkerMessage, WorkerToServer};
use crate::repository;
use crate::repository::attempts;
use crate::repository::connections;
use crate::repository::ControlState;
use crate::status;
use crate::status::{Code, Status, StatusView};
use crate::storage;
use crate::storage::{
    ArtifactDescriptorView, ArtifactIdentity, AttemptObservation, AttemptObservationView,
    FinishedObservation, FinishedObservationView, ObservedAttempt, ObservedAttemptView,
    RepositoryErrorView,
};
use crate::text;
use crate::wire;
use vstd::prelude::*;
use vstd::string::*;

verus! {

/// Why the first frame of a stream opens no connection. `owner` is whom the transport
/// authenticated, where it did.
pub open spec fn first_frame_error(
    first: Option<WorkerToServer>,
    owner: Option<Seq<char>>,
) -> Option<StatusView> {
    match first {
        None => Some(status::status(Code::InvalidArgument, "worker stream ended before hello"@)),
        Some(frame) => if frame.sequence != 1 {
            Some(status::status(Code::InvalidArgument, "hello must have sequence 1"@))
        } else if frame.acknowledges_server_through != 0 {
            Some(
                status::status(
                    Code::InvalidArgument,
                    "hello cannot acknowledge a server connection that is not open"@,
                ),
            )
        } else if frame.message_id@.len() != 0 {
            Some(status::status(Code::InvalidArgument, "hello cannot carry a message ID"@))
        } else {
            match frame.message {
                Some(WorkerMessage::Hello(hello)) => match proto::hello_problem(hello) {
                    Some(p) => Some(
                        status::status(Code::InvalidArgument, proto::problem_text(p)),
                    ),
                    None => if owner matches Some(o) && o != hello.worker_id@ {
                        Some(
                            status::status(
                                Code::PermissionDenied,
                                "worker hello identity does not match the enrolled client certificate"@,
                            ),
                        )
                    } else {
                        None
                    },
                },
                _ => Some(
                    status::status(Code::InvalidArgument, "first worker message must be hello"@),
                ),
            }
        },
    }
}

/// The hello that a stream starts with.
pub fn first_hello(first: Option<WorkerToServer>, owner: Option<&str>) -> (r: Result<
    v1::WorkerHello,
    Status,
>)
    ensures
        ({
            let claimed = match owner {
                Some(o) => Some(o@),
                None => None,
            };
            match first_frame_error(first, claimed) {
                Some(e) => r matches Err(error) && error@ == e,
                None => r matches Ok(hello) && first->0.message == Some(
                    WorkerMessage::Hello(hello),
                ) && hello.capabilities is Some,
            }
        }),
{
    let frame = match first {
        None => {
            return Err(Status::new(Code::InvalidArgument, "worker stream ended before hello"));
        },
        Some(frame) => frame,
    };
    if frame.sequence != 1 {
        return Err(Status::new(Code::InvalidArgument, "hello must have sequence 1"));
    }
    if frame.acknowledges_server_through != 0 {
        return Err(
            Status::new(
                Code::InvalidArgument,
                "hello cannot acknowledge a server connection that is not open",
            ),
        );
    }
    if !frame.message_id.as_str().is_empty() {
        return Err(Status::new(Code::InvalidArgument, "hello cannot carry a message ID"));
    }
    let hello = match frame.message {
        Some(WorkerMessage::Hello(hello)) => hello,
        _ => {
            return Err(Status::new(Code::InvalidArgument, "first worker message must be hello"));
        },
    };
    if let Err(error) = proto::validate_worker_hello(&hello) {
        let message = error.message();
        return Err(Status::new(Code::InvalidArgument, message.as_str()));
    }
    if let Some(owner) = owner {
        if !text::same(owner, hello.worker_id.as_str()) {
            return Err(
                Status::new(
                    Code::PermissionDenied,
                    "worker hello identity does not match the enrolled client certificate",
                ),
            );
        }
    }
    Ok(hello)
}

/// Why a cumulative acknowledgement is refused: it goes back, or covers what was never sent.
pub open spec fn acknowledgement_error(acknowledged: u64, last: u64, sent: u64) -> Option<
    StatusView,
> {
    if acknowledged < last {
        Some(
            status::status(
                Code::InvalidArgument,
                "worker acknowledgement moved back from "@ + text::decimal(last as nat) + " to "@
                    + text::decimal(acknowledged as nat),
            ),
        )
    } else if acknowledged > sent {
        Some(
            status::status(
                Code::InvalidArgument,
                "worker acknowledged server sequence "@ + text::decimal(acknowledged as nat)
                    + " beyond "@ + text::decimal(sent as nat),
            ),
        )
    } else {
        None
    }
}

/// Checks a cumulative acknowledgement against what was acknowledged and sent before.
pub fn validate_worker_acknowledgement(acknowledged: u64, last: u64, sent: u64) -> (r: Result<
    (),
    Status,
>)
    ensures
        match acknowledgement_error(acknowledged, last, sent) {
            Some(e) => r matches Err(error) && error@ == e,
            None => r is Ok,
        },
{
    if acknowledged < last {
        let mut message = "worker acknowledgement moved back from ".to_owned();
        text::push_decimal(&mut message, last);
        message.append(" to ");
        text::push_decimal(&mut message, acknowledged);
        return Err(Status { code: Code::InvalidArgument, message });
    }
    if acknowledged > sent {
        let mut message = "worker acknowledged server sequence ".to_owned();
        text::push_decimal(&mut message, acknowledged);
        message.append(" beyond ");
        text::push_decimal(&mut message, sent);
        return Err(Status { code: Code::InvalidArgument, message });
    }
    Ok(())
}

/// The newest server sequence that was used.
pub open spec fn sent_through(worker: ConnectedWorkerView) -> u64 {
    if worker.next_server_sequence == 0 {
        0
    } else {
        (worker.next_server_sequence - 1) as u64
    }
}

pub open spec fn superseded() -> StatusView {
    status::status(Code::Aborted, "worker connection was superseded"@)
}

/// Why a message identity is refused on a connection that has them.
pub open spec fn message_id_error(frame: WorkerToServer) -> Option<StatusView> {
    match wire::durable_message_id(frame.message) {
        Some(expected) => if frame.message_id@ != expected {
            Some(
                status::status(
                    Code::InvalidArgument,
                    "worker message ID must be "@ + expected,
                ),
            )
        } else {
            None
        },
        None => if frame.message_id@.len() != 0 {
            Some(
                status::status(
                    Code::InvalidArgument,
                    "ephemeral worker frame cannot carry a message ID"@,
                ),
            )
        } else {
            None
        },
    }
}

/// Why a frame is refused before what it says is looked at.
pub open spec fn frame_error(
    s: ServiceState,
    worker_id: Seq<char>,
    connection_id: Seq<char>,
    frame: WorkerToServer,
) -> Option<StatusView> {
    if !s.workers.dom().contains(worker_id) {
        Some(status::status(Code::FailedPrecondition, "worker is not registered"@))
    } else {
        let worker = s.workers[worker_id];
        let due = events::successor(worker.last_worker_sequence);
        if worker.connection_id != connection_id || !worker.connected {
            Some(superseded())
        } else if frame.sequence != due {
            Some(
                status::status(
                    Code::InvalidArgument,
                    "worker sequence gap: expected "@ + text::decimal(due as nat) + ", got "@
                        + text::decimal(frame.sequence as nat),
                ),
            )
        } else {
            match acknowledgement_error(
                frame.acknowledges_server_through,
                worker.last_server_sequence_acknowledged,
                sent_through(worker),
            ) {
                Some(e) => Some(e),
                None => if worker.protocol_minor >= 2 {
                    message_id_error(frame)
                } else {
                    None
                },
            }
        }
    }
}

/// The stored form of an artifact that a result names.
pub open spec fn result_artifact(artifact: Option<v1::ArtifactRef>) -> Option<
    ArtifactDescriptorView,
> {
    match artifact {
        Some(a) => Some(wire::descriptor_of(a@)),
        None => None,
    }
}

pub open spec fn result_of(finished: v1::ExecutionFinished) -> FinishedObservationView {
    FinishedObservationView {
        outcome: wire::attempt_outcome(finished.outcome),
        exit_code: finished.exit_code,
        elapsed_ms: finished.elapsed_ms,
        receipt: result_artifact(finished.receipt),
        stdout: result_artifact(finished.stdout),
        stderr: result_artifact(finished.stderr),
        detail: finished.detail@,
    }
}

/// Keeps a report about an attempt.
pub open spec fn observe(
    s: ServiceState,
    worker_id: Seq<char>,
    assignment_id: Seq<char>,
    attempt_id: Seq<char>,
    now_ms: u64,
    observation: AttemptObservationView,
) -> (ServiceState, Result<(), StatusView>) {
    let (stored, r) = attempts::observe(
        s.repository,
        ObservedAttemptView {
            assignment_id,
            attempt_id,
            worker_id,
            observed_at_ms: now_ms,
            observation,
        },
    );
    (
        ServiceState { repository: stored, ..s },
        match r {
            Ok(_) => Ok(()),
            Err(e) => Err(status::repository(e)),
        },
    )
}

pub open spec fn active_ids(attempts: Seq<v1::ActiveAttempt>) -> Seq<Seq<char>> {
    Seq::new(attempts.len(), |i: int| attempts[i].attempt_id@)
}

/// What a worker message changes. `refusal` is why the artifacts of a result cannot be accepted,
/// where that is so.
pub open spec fn observe_message(
    s: ServiceState,
    worker_id: Seq<char>,
    message: Option<WorkerMessage>,
    refusal: Option<StatusView>,
    now_ms: u64,
) -> (ServiceState, Result<(), StatusView>) {
    match message {
        None => (
            s,
            Err(status::status(Code::InvalidArgument, "worker message payload is missing"@)),
        ),
        Some(WorkerMessage::Hello(_)) => (
            s,
            Err(status::status(Code::InvalidArgument, "hello is only valid as the first frame"@)),
        ),
        Some(WorkerMessage::Status(_)) => (s, Ok(())),
        Some(WorkerMessage::Heartbeat(m)) => {
            let (stored, r) = attempts::renew_all(
                s.repository,
                worker_id,
                active_ids(m.active_attempts@),
                now_ms,
                s.attempt_lease_ms,
            );
            (
                ServiceState { repository: stored, ..s },
                match r {
                    Ok(_) => Ok(()),
                    Err(e) => Err(status::repository(e)),
                },
            )
        },
        Some(WorkerMessage::AssignmentAccepted(m)) => observe(
            s,
            worker_id,
            m.assignment_id@,
            m.attempt_id@,
            now_ms,
            AttemptObservationView::Accepted { already_known: m.already_known },
        ),
        Some(WorkerMessage::AssignmentRejected(m)) => observe(
            s,
            worker_id,
            m.assignment_id@,
            m.attempt_id@,
            now_ms,
            AttemptObservationView::Rejected { reason: m.reason, detail: m.detail@ },
        ),
        Some(WorkerMessage::CancellationAcknowledged(m)) => observe(
            s,
            worker_id,
            m.assignment_id@,
            m.attempt_id@,
            now_ms,
            AttemptObservationView::CancellationAcknowledged {
                already_terminal: m.already_terminal,
            },
        ),
        Some(WorkerMessage::ExecutionStarted(m)) => {
            let kept = observe(
                s,
                worker_id,
                m.assignment_id@,
                m.attempt_id@,
                now_ms,
                AttemptObservationView::Started,
            );
            projection::chained(
                kept,
                projection::command_started(kept.0, worker_id, m.attempt_id@, now_ms),
            )
        },
        Some(WorkerMessage::ExecutionFinished(m)) => match refusal {
            Some(e) => (s, Err(e)),
            None => {
                let kept = observe(
                    s,
                    worker_id,
                    m.assignment_id@,
                    m.attempt_id@,
                    now_ms,
                    AttemptObservationView::Finished(result_of(m)),
                );
                projection::chained(
                    kept,
                    projection::command_finished(kept.0, worker_id, m, now_ms),
                )
            },
        },
        Some(WorkerMessage::OutputChunk(m)) => projection::output_shown(
            s,
            worker_id,
            m,
            text::lossy_text(m.payload@),
            !vstd::utf8::valid_utf8(m.payload@),
            now_ms,
        ),
    }
}

/// Drops the frames that an acknowledgement covers.
pub open spec fn compact(s: ControlState, connection_id: Seq<char>, through: u64, now_ms: u64) -> (
    ControlState,
    Result<(), RepositoryErrorView>,
) {
    if !storage::storable(through) {
        (s, Err(storage::out_of_range(through)))
    } else if !storage::storable(now_ms) {
        (s, Err(storage::out_of_range(now_ms)))
    } else {
        (
            ControlState {
                frames: connections::compacted(s.frames, connection_id, through),
                ..s
            },
            Ok(()),
        )
    }
}

/// Counts a frame whose report was kept, provided that its connection is still the worker's, and
/// drops the frames that it acknowledges.
pub open spec fn settle(
    s: ServiceState,
    worker_id: Seq<char>,
    connection_id: Seq<char>,
    frame: WorkerToServer,
    now_ms: u64,
) -> (ServiceState, Result<(), StatusView>) {
    if !s.workers.dom().contains(worker_id) || s.workers[worker_id].connection_id != connection_id
        || !s.workers[worker_id].connected || frame.sequence != events::successor(
        s.workers[worker_id].last_worker_sequence,
    ) {
        (s, Err(superseded()))
    } else {
        let worker = s.workers[worker_id];
        let (fewer, dropped) = compact(
            s.repository,
            connection_id,
            frame.acknowledges_server_through,
            now_ms,
        );
        let (counted, kept) = connections::update_sequences(
            fewer,
            connection_id,
            frame.sequence,
            sent_through(worker),
            frame.acknowledges_server_through,
            now_ms,
        );
        let t = ServiceState {
            workers: s.workers.insert(
                worker_id,
                ConnectedWorkerView {
                    last_worker_sequence: frame.sequence,
                    last_server_sequence_acknowledged: frame.acknowledges_server_through,
                    ..worker
                },
            ),
            repository: if dropped is Ok {
                counted
            } else {
                fewer
            },
            ..s
        };
        (
            t,
            match (dropped, kept) {
                (Err(e), _) => Err(status::repository(e)),
                (_, Err(e)) => Err(status::repository(e)),
                _ => Ok(()),
            },
        )
    }
}

/// A frame is answered with an acknowledgement: its message is durable and the connection has
/// message identities.
pub open spec fn answered(worker: ConnectedWorkerView, frame: WorkerToServer) -> bool {
    worker.protocol_minor >= 2 && wire::durable_message_id(frame.message) is Some
}

/// Takes in one frame: it is checked, its report is kept, and it is counted, in that order and
/// up to the first failure.
pub open spec fn ingest(
    s: ServiceState,
    worker_id: Seq<char>,
    connection_id: Seq<char>,
    frame: WorkerToServer,
    refusal: Option<StatusView>,
    now_ms: u64,
) -> (ServiceState, Result<bool, StatusView>) {
    match frame_error(s, worker_id, connection_id, frame) {
        Some(e) => (s, Err(e)),
        None => {
            let (observed, r) = observe_message(s, worker_id, frame.message, refusal, now_ms);
            match r {
                Err(e) => (observed, Err(e)),
                Ok(_) => {
                    let (settled, done) = settle(
                        observed,
                        worker_id,
                        connection_id,
                        frame,
                        now_ms,
                    );
                    (
                        settled,
                        match done {
                            Err(e) => Err(e),
                            Ok(_) => Ok(answered(s.workers[worker_id], frame)),
                        },
                    )
                },
            }
        },
    }
}

fn ids_of(attempts: &Vec<v1::ActiveAttempt>) -> (r: Vec<String>)
    ensures
        text::views(r@) == active_ids(attempts@),
{
    let mut out: Vec<String> = Vec::new();
    let mut i: usize = 0;
    while i < attempts.len()
        invariant
            i <= attempts@.len(),
            out@.len() == i,
            forall|k: int| 0 <= k < i ==> (#[trigger] out@[k])@ == attempts@[k].attempt_id@,
        decreases attempts@.len() - i,
    {
        out.push(attempts[i].attempt_id.clone());
        i += 1;
    }
    assert(text::views(out@) =~= active_ids(attempts@));
    out
}

fn stored_artifact(artifact: &Option<v1::ArtifactRef>) -> (r: Option<ArtifactIdentity>)
    ensures
        storage::optional_artifact_identity(r) == result_artifact(*artifact),
{
    match artifact {
        Some(a) => Some(wire::artifact_to_identity(a)),
        None => None,
    }
}

fn stored_result(finished: &v1::ExecutionFinished) -> (r: FinishedObservation)
    ensures
        r@ == result_of(*finished),
{
    FinishedObservation {
        outcome: wire::to_attempt_outcome(finished.outcome),
        exit_code: finished.exit_code,
        elapsed_ms: finished.elapsed_ms,
        receipt: stored_artifact(&finished.receipt),
        stdout: stored_artifact(&finished.stdout),
        stderr: stored_artifact(&finished.stderr),
        detail: finished.detail.clone(),
    }
}

pub open spec fn optional_status(refusal: Option<Status>) -> Option<StatusView> {
    match refusal {
        Some(s) => Some(s@),
        None => None,
    }
}

impl WorkerControlService {
    fn observe(
        &mut self,
        worker_id: &str,
        assignment_id: &str,
        attempt_id: &str,
        now_ms: u64,
        observation: AttemptObservation,
    ) -> (r: Result<(), Status>)
        ensures
            (final(self)@, status::seen(r)) == observe(
                old(self)@,
                worker_id@,
                assignment_id@,
                attempt_id@,
                now_ms,
                observation@,
            ),
    {
        let observed = ObservedAttempt {
            assignment_id: assignment_id.to_owned(),
            attempt_id: attempt_id.to_owned(),
            worker_id: worker_id.to_owned(),
            observed_at_ms: now_ms,
            observation,
        };
        match self.repository.observe_attempt(&observed) {
            Ok(_) => Ok(()),
            Err(error) => Err(status::repository_status(error)),
        }
    }

    /// Why a frame is refused before what it says is looked at.
    pub fn check_frame(&self, worker_id: &str, connection_id: &str, frame: &WorkerToServer) -> (r:
        Result<(), Status>)
        ensures
            match frame_error(self@, worker_id@, connection_id@, *frame) {
                Some(e) => r matches Err(error) && error@ == e,
                None => r is Ok,
            },
    {
        let worker = match self.workers.get(worker_id) {
            Some(worker) => worker,
            None => {
                return Err(Status::new(Code::FailedPrecondition, "worker is not registered"));
            },
        };
        if !text::same(worker.connection_id.as_str(), connection_id) || !worker.connected {
            return Err(Status::new(Code::Aborted, "worker connection was superseded"));
        }
        let due = worker.last_worker_sequence.saturating_add(1);
        if frame.sequence != due {
            let mut message = "worker sequence gap: expected ".to_owned();
            text::push_decimal(&mut message, due);
            message.append(", got ");
            text::push_decimal(&mut message, frame.sequence);
            return Err(Status { code: Code::InvalidArgument, message });
        }
        validate_worker_acknowledgement(
            frame.acknowledges_server_through,
            worker.last_server_sequence_acknowledged,
            worker.next_server_sequence.saturating_sub(1),
        )?;
        if worker.protocol_minor >= 2 {
            match wire::expected_worker_message_id(&frame.message) {
                Some(expected) => {
                    if !text::same(frame.message_id.as_str(), expected.as_str()) {
                        return Err(
                            Status {
                                code: Code::InvalidArgument,
                                message: text::concat(
                                    "worker message ID must be ",
                                    expected.as_str(),
                                ),
                            },
                        );
                    }
                },
                None => {
                    if !frame.message_id.as_str().is_empty() {
                        return Err(
                            Status::new(
                                Code::InvalidArgument,
                                "ephemeral worker frame cannot carry a message ID",
                            ),
                        );
                    }
                },
            }
        }
        Ok(())
    }

    /// Keeps what a worker message reports. `refusal` is why the artifacts of a result cannot be
    /// accepted, where that is so.
    pub fn observe_message(
        &mut self,
        worker_id: &str,
        message: &Option<WorkerMessage>,
        refusal: Option<Status>,
        now_ms: u64,
    ) -> (r: Result<(), Status>)
        ensures
            (final(self)@, status::seen(r)) == observe_message(
                old(self)@,
                worker_id@,
                *message,
                optional_status(refusal),
                now_ms,
            ),
    {
        match message {
            None => Err(Status::new(Code::InvalidArgument, "worker message payload is missing")),
            Some(WorkerMessage::Hello(_)) => Err(
                Status::new(Code::InvalidArgument, "hello is only valid as the first frame"),
            ),
            Some(WorkerMessage::Status(_)) => Ok(()),
            Some(WorkerMessage::Heartbeat(m)) => {
                let ids = ids_of(&m.active_attempts);
                match self.repository.renew_active_leases(
                    worker_id,
                    &ids,
                    now_ms,
                    self.attempt_lease_ms,
                ) {
                    Ok(_) => Ok(()),
                    Err(error) => Err(status::repository_status(error)),
                }
            },
            Some(WorkerMessage::AssignmentAccepted(m)) => self.observe(
                worker_id,
                m.assignment_id.as_str(),
                m.attempt_id.as_str(),
                now_ms,
                AttemptObservation::Accepted { already_known: m.already_known },
            ),
            Some(WorkerMessage::AssignmentRejected(m)) => self.observe(
                worker_id,
                m.assignment_id.as_str(),
                m.attempt_id.as_str(),
                now_ms,
                AttemptObservation::Rejected { reason: m.reason, detail: m.detail.clone() },
            ),
            Some(WorkerMessage::CancellationAcknowledged(m)) => self.observe(
                worker_id,
                m.assignment_id.as_str(),
                m.attempt_id.as_str(),
                now_ms,
                AttemptObservation::CancellationAcknowledged {
                    already_terminal: m.already_terminal,
                },
            ),
            Some(WorkerMessage::ExecutionStarted(m)) => {
                self.observe(
                    worker_id,
                    m.assignment_id.as_str(),
                    m.attempt_id.as_str(),
                    now_ms,
                    AttemptObservation::Started,
                )?;
                self.record_command_started(worker_id, m.attempt_id.as_str(), now_ms)
            },
            Some(WorkerMessage::ExecutionFinished(m)) => {
                if let Some(refusal) = refusal {
                    return Err(refusal);
                }
                let result = stored_result(m);
                self.observe(
                    worker_id,
                    m.assignment_id.as_str(),
                    m.attempt_id.as_str(),
                    now_ms,
                    AttemptObservation::Finished(result),
                )?;
                self.record_command_finished(worker_id, m, now_ms)
            },
            Some(WorkerMessage::OutputChunk(m)) => self.observe_output(worker_id, m, now_ms),
        }
    }

    /// Counts a frame whose report was kept.
    pub fn settle_frame(
        &mut self,
        worker_id: &str,
        connection_id: &str,
        frame: &WorkerToServer,
        now_ms: u64,
    ) -> (r: Result<(), Status>)
        ensures
            (final(self)@, status::seen(r)) == settle(
                old(self)@,
                worker_id@,
                connection_id@,
                *frame,
                now_ms,
            ),
    {
        let worker = match self.workers.get(worker_id) {
            Some(worker) => worker,
            None => {
                return Err(Status::new(Code::Aborted, "worker connection was superseded"));
            },
        };
        if !text::same(worker.connection_id.as_str(), connection_id) || !worker.connected
            || frame.sequence != worker.last_worker_sequence.saturating_add(1) {
            return Err(Status::new(Code::Aborted, "worker connection was superseded"));
        }
        let mut worker = worker.clone();
        worker.last_worker_sequence = frame.sequence;
        worker.last_server_sequence_acknowledged = frame.acknowledges_server_through;
        let sent = worker.next_server_sequence.saturating_sub(1);
        self.put_worker(worker_id, worker);
        if let Err(error) = self.repository.compact_server_frames(
            connection_id,
            frame.acknowledges_server_through,
            now_ms,
        ) {
            return Err(status::repository_status(error));
        }
        match self.repository.update_connection_sequences(
            connection_id,
            frame.sequence,
            sent,
            frame.acknowledges_server_through,
            now_ms,
        ) {
            Ok(_) => Ok(()),
            Err(error) => Err(status::repository_status(error)),
        }
    }

    /// Takes in one worker frame and says whether it is answered with an acknowledgement.
    pub fn ingest(
        &mut self,
        worker_id: &str,
        connection_id: &str,
        frame: &WorkerToServer,
        refusal: Option<Status>,
        now_ms: u64,
    ) -> (r: Result<bool, Status>)
        ensures
            (final(self)@, status::seen(r)) == ingest(
                old(self)@,
                worker_id@,
                connection_id@,
                *frame,
                optional_status(refusal),
                now_ms,
            ),
    {
        self.check_frame(worker_id, connection_id, frame)?;
        let durable = wire::expected_worker_message_id(&frame.message).is_some();
        let identified = match self.workers.get(worker_id) {
            Some(worker) => worker.protocol_minor >= 2,
            None => false,
        };
        self.observe_message(worker_id, &frame.message, refusal, now_ms)?;
        self.settle_frame(worker_id, connection_id, frame, now_ms)?;
        Ok(identified && durable)
    }
}

} // verus!
