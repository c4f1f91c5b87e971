//! What the control service does with each request and each frame.
use super::admission;
use super::admission::{
    ArtifactReferenceKind, BundleLookup, CancelDeliveryView, CancelOutcome, DeliveryView,
    EnqueueErrorView, GrantArtifactReferenceView,
};
use super::delivery;
use super::ingestion;
use super::projection;
use super::reconciliation;
use super::reconciliation::{ReconcileStepView, ReportView};
use super::ServiceState;
use crate::events::{Authority, EventView, OutputStream, Visibility};
use crate::interaction;
use crate::interaction::AppendOutcomeView;
use crate::proto;
use crate::proto::v1;
use crate::proto::v1::{ServerMessageView, ServerToWorkerView, WorkerMessage, WorkerToServer};
use crate::repository::assignments;
use crate::repository::attempts;
use crate::status;
use crate::status::{Code, StatusView};
use crate::storage::{
    AssignmentContractView, AssignmentRecordView, AttemptObservationView, AttemptOutcome,
    AttemptState, ExecutionKind, FinishedObservationView, ObservedAttemptView, RepositoryErrorView,
    ServerFrameKind,
};
use crate::text;
use crate::wire;
use vstd::prelude::*;

verus! {

/// A worker that says hello on a fresh connection is reachable through it, and both sides start
/// counting behind the hello; an older connection of that worker is superseded.
pub proof fn workers_are_reachable_once_connected(
    s: ServiceState,
    hello: v1::WorkerHello,
    connection_id: Seq<char>,
    now_ms: u64,
)
    requires
        !s.repository.connections.dom().contains(connection_id),
        now_ms <= i64::MAX,
    ensures
        ({
            let (t, r) = super::connect(s, hello, connection_id, now_ms);
            let worker = t.workers[hello.worker_id@];
            &&& r is Ok
            &&& t.workers.dom().contains(hello.worker_id@)
            &&& worker.connection_id == connection_id
            &&& worker.connected
            &&& worker.protocol_minor == hello.protocol_minor
            &&& worker.next_server_sequence == 2
            &&& worker.last_worker_sequence == 1
            &&& worker.last_server_sequence_acknowledged == 0
            &&& t.repository.connections.dom().contains(connection_id)
            &&& t.repository.connections[connection_id].worker_id == hello.worker_id@
            &&& t.repository.assignments == s.repository.assignments
            &&& t.interactions == s.interactions
            &&& forall|k: Seq<char>|
                k != hello.worker_id@ && #[trigger] s.workers.dom().contains(k) ==> t.workers[k]
                    == s.workers[k]
        }),
{
}

/// A worker that cannot be written to is not reachable until it connects again; nothing else
/// changes.
pub proof fn lost_workers_are_not_reachable(s: ServiceState, worker_id: Seq<char>)
    ensures
        !super::reachable(super::send_failed(s, worker_id), worker_id),
        super::send_failed(s, worker_id).repository == s.repository,
        super::send_failed(s, worker_id).interactions == s.interactions,
        super::reachable(s, worker_id) <==> s.workers.dom().contains(worker_id)
            && s.workers[worker_id].connected,
{
}

/// The worker is connected, its connection is open, and its counters and the lease to come can be
/// stored.
pub open spec fn served(s: ServiceState, worker_id: Seq<char>, now_ms: u64) -> bool {
    let worker = s.workers[worker_id];
    &&& s.workers.dom().contains(worker_id)
    &&& worker.connected
    &&& s.repository.connections.dom().contains(worker.connection_id)
    &&& s.repository.connections[worker.connection_id].worker_id == worker_id
    &&& s.repository.connections[worker.connection_id].disconnected_at_ms is None
    &&& worker.next_server_sequence <= i64::MAX
    &&& worker.last_worker_sequence <= i64::MAX
    &&& worker.last_server_sequence_acknowledged <= i64::MAX
    &&& now_ms + s.attempt_lease_ms <= i64::MAX
    &&& forall|i: int|
        0 <= i < s.repository.frames.len() ==> (#[trigger] s.repository.frames[i]).frame.connection_id
            != worker.connection_id || s.repository.frames[i].frame.sequence
            != worker.next_server_sequence
}

/// A ready attempt goes to its reachable worker in the next frame of the connection, under a lease,
/// and the frame is kept until it is acknowledged; an unreachable worker is sent nothing.
pub proof fn ready_attempts_go_to_their_workers(
    s: ServiceState,
    worker_id: Seq<char>,
    attempt_id: Seq<char>,
    now_ms: u64,
)
    requires
        s.repository.assignments.dom().contains(attempt_id),
        s.repository.assignments[attempt_id].worker_id == worker_id,
        s.repository.assignments[attempt_id].state == AttemptState::Dispatchable,
        !s.repository.leases.dom().contains(attempt_id),
    ensures
        !(s.workers.dom().contains(worker_id) && s.workers[worker_id].connected)
            ==> delivery::assignment_frame(s, worker_id, attempt_id, now_ms) == (
            s,
            Ok::<Option<ServerToWorkerView>, RepositoryErrorView>(None),
        ),
        served(s, worker_id, now_ms) ==> {
            let (t, r) = delivery::assignment_frame(s, worker_id, attempt_id, now_ms);
            let worker = s.workers[worker_id];
            &&& r is Ok
            &&& r->Ok_0 is Some
            &&& r->Ok_0->0.sequence == worker.next_server_sequence
            &&& r->Ok_0->0.acknowledges_worker_through == worker.last_worker_sequence
            &&& r->Ok_0->0.message_id == "assignment:"@ + attempt_id
            &&& r->Ok_0->0.message == Some(
                ServerMessageView::Assignment(
                    wire::assignment_of(s.repository.assignments[attempt_id].contract),
                ),
            )
            &&& t.workers[worker_id].next_server_sequence == worker.next_server_sequence + 1
            &&& t.workers[worker_id].last_worker_sequence == worker.last_worker_sequence
            &&& t.workers[worker_id].connected
            &&& t.repository.assignments[attempt_id].state == AttemptState::Sent
            &&& t.repository.leases[attempt_id].expires_at_ms == now_ms + s.attempt_lease_ms
            &&& t.repository.leases[attempt_id].worker_id == worker_id
            &&& t.repository.frames.len() == s.repository.frames.len() + 1
            &&& t.repository.frames.last().frame.connection_id == worker.connection_id
            &&& t.repository.frames.last().frame.sequence == worker.next_server_sequence
            &&& t.repository.frames.last().frame.attempt_id == Some(attempt_id)
            &&& t.repository.frames.last().frame.kind == ServerFrameKind::Assignment
            &&& t.interactions == s.interactions
        },
{
}

/// The request names a network policy that is known, where it has limits.
pub open spec fn policy_is_known(assignment: v1::AssignmentView) -> bool {
    assignment.execution is Some && (assignment.execution->0.limits is None
        || assignment.execution->0.limits->0.network == 1
        || assignment.execution->0.limits->0.network == 2)
}

/// A valid request for a new attempt is kept; it is sent where its worker can be reached, and waits
/// ready where not.
pub proof fn valid_requests_are_sent_or_wait(
    s: ServiceState,
    worker_id: Seq<char>,
    assignment: v1::AssignmentView,
    input: Option<Seq<char>>,
    now_ms: u64,
)
    requires
        proto::assignment_problem(assignment) is None,
        policy_is_known(assignment),
        !s.repository.assignments.dom().contains(assignment.attempt_id),
        !s.repository.leases.dom().contains(assignment.attempt_id),
        input is None || assignment.execution->0.executor_kind != 2,
        now_ms <= i64::MAX,
        projection::run_started(s, wire::contract_of(assignment), now_ms).1 is Ok,
    ensures
        ({
            let (t, r) = admission::enqueue(s, worker_id, assignment, input, now_ms);
            let record = t.repository.assignments[assignment.attempt_id];
            &&& t.repository.assignments.dom().contains(assignment.attempt_id)
            &&& record.worker_id == worker_id
            &&& wire::assignment_of(record.contract) == assignment
            &&& !(s.workers.dom().contains(worker_id) && s.workers[worker_id].connected) ==> r
                == Ok::<DeliveryView, EnqueueErrorView>(DeliveryView::Pending) && record.state
                == AttemptState::Dispatchable
            &&& served(s, worker_id, now_ms) ==> {
                &&& r is Ok
                &&& r->Ok_0 is Send
                &&& r->Ok_0->Send_0.sequence == s.workers[worker_id].next_server_sequence
                &&& r->Ok_0->Send_0.message == Some(ServerMessageView::Assignment(assignment))
                &&& record.state == AttemptState::Sent
                &&& t.repository.leases[assignment.attempt_id].expires_at_ms == now_ms
                    + s.attempt_lease_ms
            }
        }),
{
    wire::valid_assignments_are_convertible(assignment);
    wire::assignments_survive_storage(assignment);
}

/// An invalid request is refused with its first fault and leaves no trace, whoever asks.
pub proof fn invalid_requests_leave_no_trace(
    s: ServiceState,
    owner_id: Seq<char>,
    worker_id: Seq<char>,
    assignment: v1::AssignmentView,
    input: Option<Seq<char>>,
    now_ms: u64,
)
    requires
        proto::assignment_problem(assignment) is Some,
    ensures
        admission::enqueue(s, worker_id, assignment, input, now_ms) == (
            s,
            Err::<DeliveryView, EnqueueErrorView>(
                EnqueueErrorView::Invalid(proto::assignment_problem(assignment)->0),
            ),
        ),
        admission::enqueue_for_owner(s, owner_id, worker_id, assignment, input, now_ms) == (
            s,
            Err::<DeliveryView, EnqueueErrorView>(
                EnqueueErrorView::Invalid(proto::assignment_problem(assignment)->0),
            ),
        ),
{
}

/// A CUDA fixture whose input cannot be read by its worker is kept and not released; other
/// executors need no such input.
pub proof fn fixtures_wait_for_their_input(
    s: ServiceState,
    worker_id: Seq<char>,
    assignment: v1::AssignmentView,
    detail: Seq<char>,
    now_ms: u64,
)
    requires
        proto::assignment_problem(assignment) is None,
        policy_is_known(assignment),
        !s.repository.assignments.dom().contains(assignment.attempt_id),
        assignment.execution->0.executor_kind == 2,
        now_ms <= i64::MAX,
    ensures
        ({
            let (t, r) = admission::enqueue(s, worker_id, assignment, Some(detail), now_ms);
            &&& r == Err::<DeliveryView, EnqueueErrorView>(EnqueueErrorView::Artifact(detail))
            &&& t.repository.assignments[assignment.attempt_id].state == AttemptState::Preparing
            &&& t.interactions == s.interactions
            &&& t.workers == s.workers
        }),
{
}

/// A request that is already under way is a repetition and is not sent again; a changed one under
/// the same attempt conflicts.
pub proof fn known_requests_are_not_sent_again(
    s: ServiceState,
    worker_id: Seq<char>,
    assignment: v1::AssignmentView,
    input: Option<Seq<char>>,
    now_ms: u64,
)
    requires
        proto::assignment_problem(assignment) is None,
        s.repository.assignments.dom().contains(assignment.attempt_id),
        input is None,
        now_ms <= i64::MAX,
        projection::run_started(s, wire::contract_of(assignment), now_ms).1 is Ok,
    ensures
        ({
            let (t, r) = admission::enqueue(s, worker_id, assignment, input, now_ms);
            let known = s.repository.assignments[assignment.attempt_id];
            let same = known.worker_id == worker_id && known.contract == wire::contract_of(
                assignment,
            );
            &&& same && known.state != AttemptState::Preparing ==> r == Ok::<
                DeliveryView,
                EnqueueErrorView,
            >(DeliveryView::Duplicate) && t.repository == s.repository && t.workers == s.workers
            &&& !same ==> t == s && r == Err::<DeliveryView, EnqueueErrorView>(
                EnqueueErrorView::Repository(
                    RepositoryErrorView::ConflictingAttempt(assignment.attempt_id),
                ),
            )
        }),
{
}

/// Whoever asks for work may read the run of its task from there on; who may not be granted that is
/// refused, and nothing is queued.
pub proof fn owners_read_the_runs_they_ask_for(
    s: ServiceState,
    owner_id: Seq<char>,
    worker_id: Seq<char>,
    assignment: v1::AssignmentView,
    input: Option<Seq<char>>,
    now_ms: u64,
)
    requires
        proto::assignment_problem(assignment) is None,
        !text::blank(owner_id),
        now_ms <= i64::MAX,
    ensures
        ({
            let t = admission::enqueue_for_owner(
                s,
                owner_id,
                worker_id,
                assignment,
                input,
                now_ms,
            ).0;
            let r = admission::enqueue_for_owner(
                s,
                owner_id,
                worker_id,
                assignment,
                input,
                now_ms,
            ).1;
            let known = s.interactions.grants.dom().contains(assignment.task_id)
                && s.interactions.grants[assignment.task_id].dom().contains(owner_id);
            let revoked = known
                && s.interactions.grants[assignment.task_id][owner_id].revoked_at_ms is Some;
            &&& revoked ==> t == s && r is Err
            &&& !revoked ==> t.interactions.grants.dom().contains(assignment.task_id)
                && t.interactions.grants[assignment.task_id].dom().contains(owner_id)
                && t.interactions.grants[assignment.task_id][owner_id].revoked_at_ms is None
        }),
{
}

/// The input of a CUDA fixture is granted to its worker exactly where the bundle is published with
/// the declared size; other executors are granted nothing.
pub proof fn published_inputs_are_granted(
    worker_id: Seq<char>,
    contract: AssignmentContractView,
    lookup: BundleLookup,
    now_ms: u64,
)
    ensures
        ({
            let r = admission::input_reference(worker_id, contract, lookup, now_ms);
            let bundle = contract.execution.bundle;
            let fixture = contract.execution.executor_kind == ExecutionKind::CudaFixture;
            &&& !fixture ==> r == Ok::<Option<GrantArtifactReferenceView>, EnqueueErrorView>(None)
            &&& fixture ==> (r is Ok <==> lookup == BundleLookup::Published(bundle.size_bytes))
            &&& fixture && r is Ok ==> {
                let grant = r->Ok_0->0;
                &&& r->Ok_0 is Some
                &&& grant.owner_id == worker_id
                &&& grant.digest == bundle.digest
                &&& grant.reference_key == "input:"@ + contract.attempt_id + ":bundle"@
                &&& grant.kind == ArtifactReferenceKind::AssignmentInput
                &&& grant.now_ms == now_ms
                &&& grant.retained_until_ms is None
            }
            &&& r is Err ==> r->Err_0 is Artifact
        }),
{
}

/// Cancelling settles what was not sent and what has ended; what a worker holds is asked back in the
/// next frame to that worker, with the reason, where it can be reached.
pub proof fn cancellations_reach_the_worker(
    s: ServiceState,
    attempt_id: Seq<char>,
    reason: Seq<char>,
    now_ms: u64,
)
    requires
        s.repository.assignments.dom().contains(attempt_id),
        now_ms <= i64::MAX,
    ensures
        ({
            let (t, r) = admission::cancel(s, attempt_id, reason, now_ms);
            let record = s.repository.assignments[attempt_id];
            let held = record.state == AttemptState::Sent || record.state == AttemptState::Accepted
                || record.state == AttemptState::Running || record.state
                == AttemptState::CancelRequested;
            let worker = s.workers[record.worker_id];
            &&& record.state == AttemptState::Preparing || record.state
                == AttemptState::Dispatchable ==> r == Ok::<CancelDeliveryView, RepositoryErrorView>(
                CancelDeliveryView::Settled(CancelOutcome::CancelledBeforeSend),
            ) && t.repository.assignments[attempt_id].state == AttemptState::Cancelled
            &&& record.state == AttemptState::Finished || record.state == AttemptState::Rejected
                || record.state == AttemptState::LeaseExpired || record.state
                == AttemptState::Cancelled ==> t == s && r == Ok::<
                CancelDeliveryView,
                RepositoryErrorView,
            >(CancelDeliveryView::Settled(CancelOutcome::AlreadyTerminal))
            &&& held && !(s.workers.dom().contains(record.worker_id) && worker.connected) ==> r
                == Ok::<CancelDeliveryView, RepositoryErrorView>(
                CancelDeliveryView::Settled(CancelOutcome::Pending),
            ) && t.repository.assignments[attempt_id].state == AttemptState::CancelRequested
            &&& held && served(s, record.worker_id, now_ms) ==> {
                &&& r is Ok
                &&& r->Ok_0 is Send
                &&& r->Ok_0->worker_id == record.worker_id
                &&& r->Ok_0->frame.sequence == worker.next_server_sequence
                &&& r->Ok_0->frame.message_id == "cancel:"@ + attempt_id
                &&& r->Ok_0->frame.message == Some(
                    ServerMessageView::Cancel(v1::CancelAttemptView { attempt_id, reason }),
                )
                &&& t.repository.assignments[attempt_id].state == AttemptState::CancelRequested
                &&& t.repository.assignments[attempt_id].cancellation_reason == Some(reason)
                &&& t.workers[record.worker_id].next_server_sequence
                    == worker.next_server_sequence + 1
                &&& t.repository.frames.len() == s.repository.frames.len() + 1
                &&& t.repository.frames.last().frame.kind == ServerFrameKind::Cancel
            }
        }),
{
}

/// An acknowledgement goes over the worker's present connection only, in its next frame.
pub proof fn acknowledgements_use_the_present_connection(
    s: ServiceState,
    worker_id: Seq<char>,
    connection_id: Seq<char>,
    now_ms: u64,
)
    ensures
        ({
            let (t, r) = delivery::acknowledgement_frame(s, worker_id, connection_id, now_ms);
            let worker = s.workers[worker_id];
            &&& !s.workers.dom().contains(worker_id) || !worker.connected || worker.connection_id
                != connection_id ==> t == s && r == Ok::<
                Option<ServerToWorkerView>,
                RepositoryErrorView,
            >(None)
            &&& served(s, worker_id, now_ms) && worker.connection_id == connection_id ==> {
                &&& r is Ok
                &&& r->Ok_0 is Some
                &&& r->Ok_0->0.sequence == worker.next_server_sequence
                &&& r->Ok_0->0.acknowledges_worker_through == worker.last_worker_sequence
                &&& r->Ok_0->0.message_id.len() == 0
                &&& r->Ok_0->0.message == Some(ServerMessageView::Acknowledgement)
                &&& t.workers[worker_id].next_server_sequence == worker.next_server_sequence + 1
            }
        }),
{
    reveal_strlit("");
}

/// What was expired goes on with another worker: its replacement is released and sent, or waits
/// ready for its worker.
pub proof fn expired_work_is_sent_on(
    s: ServiceState,
    expired_id: Seq<char>,
    worker_id: Seq<char>,
    replacement_id: Seq<char>,
    input: Option<Seq<char>>,
    now_ms: u64,
)
    requires
        !s.repository.reassignments.dom().contains(expired_id),
        s.repository.assignments.dom().contains(expired_id),
        s.repository.assignments[expired_id].state == AttemptState::LeaseExpired,
        s.repository.assignments[expired_id].contract.execution.executor_kind
            != ExecutionKind::CudaFixture,
        !s.repository.assignments.dom().contains(replacement_id),
        !s.repository.leases.dom().contains(replacement_id),
        replacement_id.len() > 0,
        'a' <= replacement_id[0] <= 'z',
        now_ms <= i64::MAX,
        proto::assignment_problem(
            wire::assignment_of(
                AssignmentContractView {
                    attempt_id: replacement_id,
                    attempt_number: if s.repository.assignments[expired_id].contract.attempt_number
                        == u32::MAX {
                        u32::MAX
                    } else {
                        (s.repository.assignments[expired_id].contract.attempt_number + 1) as u32
                    },
                    ..s.repository.assignments[expired_id].contract
                },
            ),
        ) is None,
        projection::run_started(s, s.repository.assignments[expired_id].contract, now_ms).1 is Ok,
    ensures
        ({
            let (t, r) = admission::take_over(
                s,
                expired_id,
                worker_id,
                replacement_id,
                input,
                now_ms,
            );
            let record = t.repository.assignments[replacement_id];
            &&& t.repository.assignments[expired_id] == s.repository.assignments[expired_id]
            &&& t.repository.reassignments[expired_id].attempt_id == replacement_id
            &&& record.worker_id == worker_id
            &&& record.contract.task_id
                == s.repository.assignments[expired_id].contract.task_id
            &&& record.contract.execution
                == s.repository.assignments[expired_id].contract.execution
            &&& !(s.workers.dom().contains(worker_id) && s.workers[worker_id].connected) ==> r
                == Ok::<DeliveryView, EnqueueErrorView>(DeliveryView::Pending) && record.state
                == AttemptState::Dispatchable
            &&& served(s, worker_id, now_ms) ==> r is Ok && r->Ok_0 is Send && record.state
                == AttemptState::Sent
        }),
{
    assert(!text::white(replacement_id[0]));
}

/// A stream of frames begins with a hello of its worker: the first frame, without acknowledgement
/// and identity, valid, and by the enrolled owner.
pub proof fn streams_begin_with_a_hello(first: Option<WorkerToServer>, owner: Option<Seq<char>>)
    ensures
        ingestion::first_frame_error(first, owner) is None <==> {
            &&& first is Some
            &&& first->0.sequence == 1
            &&& first->0.acknowledges_server_through == 0
            &&& first->0.message_id@.len() == 0
            &&& first->0.message is Some
            &&& first->0.message->0 is Hello
            &&& proto::hello_problem(first->0.message->0->Hello_0) is None
            &&& owner is None || owner == Some(first->0.message->0->Hello_0.worker_id@)
        },
        ingestion::first_frame_error(first, owner) matches Some(e) ==> e.code
            == Code::InvalidArgument || (e.code == Code::PermissionDenied && owner is Some),
{
}

/// An acknowledgement neither goes back nor ahead of what was sent.
pub proof fn acknowledgements_stay_in_range(acknowledged: u64, last: u64, sent: u64)
    ensures
        ingestion::acknowledgement_error(acknowledged, last, sent) is None <==> last <= acknowledged
            <= sent,
        ingestion::acknowledgement_error(acknowledged, last, sent) matches Some(e) ==> e.code
            == Code::InvalidArgument,
{
}

/// The message of a report that must not be lost carries the identity of its attempt; others carry
/// none.
pub open spec fn identity_fits(frame: WorkerToServer) -> bool {
    match frame.message {
        Some(WorkerMessage::AssignmentAccepted(m)) => frame.message_id@
            == "assignment-accepted:"@ + m.attempt_id@,
        Some(WorkerMessage::AssignmentRejected(m)) => frame.message_id@
            == "assignment-rejected:"@ + m.attempt_id@,
        Some(WorkerMessage::ExecutionStarted(m)) => frame.message_id@
            == "execution-started:"@ + m.attempt_id@,
        Some(WorkerMessage::ExecutionFinished(m)) => frame.message_id@
            == "execution-finished:"@ + m.attempt_id@,
        Some(WorkerMessage::CancellationAcknowledged(m)) => frame.message_id@
            == "cancellation-acknowledged:"@ + m.attempt_id@,
        _ => frame.message_id@.len() == 0,
    }
}

/// A frame is taken in exactly where it comes over the worker's present connection, next in order,
/// acknowledges in range, and, from the second minor version on, names its report.
pub proof fn frames_come_in_order(
    s: ServiceState,
    worker_id: Seq<char>,
    connection_id: Seq<char>,
    frame: WorkerToServer,
)
    ensures
        ({
            let worker = s.workers[worker_id];
            let e = ingestion::frame_error(s, worker_id, connection_id, frame);
            &&& !s.workers.dom().contains(worker_id) ==> e is Some && e->0.code
                == Code::FailedPrecondition
            &&& s.workers.dom().contains(worker_id) && (worker.connection_id != connection_id
                || !worker.connected) ==> e is Some && e->0.code == Code::Aborted
            &&& s.workers.dom().contains(worker_id) && worker.connection_id == connection_id
                && worker.connected && worker.last_worker_sequence < u64::MAX
                && worker.next_server_sequence > 0 ==> {
                &&& e is None <==> frame.sequence == worker.last_worker_sequence + 1
                    && worker.last_server_sequence_acknowledged
                    <= frame.acknowledges_server_through < worker.next_server_sequence && (
                worker.protocol_minor >= 2 ==> identity_fits(frame))
                &&& e is Some ==> e->0.code == Code::InvalidArgument
            }
        }),
{
}

/// Each report of a worker is kept for its attempt as it was made.
pub proof fn reports_are_observed(
    s: ServiceState,
    worker_id: Seq<char>,
    message: WorkerMessage,
    refusal: Option<StatusView>,
    now_ms: u64,
)
    ensures
        match message {
            WorkerMessage::AssignmentAccepted(m) => heard(
                s,
                ingestion::observe_message(s, worker_id, Some(message), refusal, now_ms),
                ObservedAttemptView {
                    assignment_id: m.assignment_id@,
                    attempt_id: m.attempt_id@,
                    worker_id,
                    observed_at_ms: now_ms,
                    observation: AttemptObservationView::Accepted {
                        already_known: m.already_known,
                    },
                },
            ),
            WorkerMessage::AssignmentRejected(m) => heard(
                s,
                ingestion::observe_message(s, worker_id, Some(message), refusal, now_ms),
                ObservedAttemptView {
                    assignment_id: m.assignment_id@,
                    attempt_id: m.attempt_id@,
                    worker_id,
                    observed_at_ms: now_ms,
                    observation: AttemptObservationView::Rejected {
                        reason: m.reason,
                        detail: m.detail@,
                    },
                },
            ),
            WorkerMessage::CancellationAcknowledged(m) => heard(
                s,
                ingestion::observe_message(s, worker_id, Some(message), refusal, now_ms),
                ObservedAttemptView {
                    assignment_id: m.assignment_id@,
                    attempt_id: m.attempt_id@,
                    worker_id,
                    observed_at_ms: now_ms,
                    observation: AttemptObservationView::CancellationAcknowledged {
                        already_terminal: m.already_terminal,
                    },
                },
            ),
            WorkerMessage::ExecutionStarted(m) => kept(
                s,
                ingestion::observe_message(s, worker_id, Some(message), refusal, now_ms),
                ObservedAttemptView {
                    assignment_id: m.assignment_id@,
                    attempt_id: m.attempt_id@,
                    worker_id,
                    observed_at_ms: now_ms,
                    observation: AttemptObservationView::Started,
                },
            ),
            WorkerMessage::ExecutionFinished(m) => refusal is None ==> kept(
                s,
                ingestion::observe_message(s, worker_id, Some(message), refusal, now_ms),
                ObservedAttemptView {
                    assignment_id: m.assignment_id@,
                    attempt_id: m.attempt_id@,
                    worker_id,
                    observed_at_ms: now_ms,
                    observation: AttemptObservationView::Finished(ingestion::result_of(m)),
                },
            ),
            WorkerMessage::Status(_) => ingestion::observe_message(
                s,
                worker_id,
                Some(message),
                refusal,
                now_ms,
            ) == (s, Ok::<(), StatusView>(())),
            WorkerMessage::Hello(_) => ingestion::observe_message(
                s,
                worker_id,
                Some(message),
                refusal,
                now_ms,
            ).0 == s && ingestion::observe_message(
                s,
                worker_id,
                Some(message),
                refusal,
                now_ms,
            ).1 is Err,
            WorkerMessage::Heartbeat(m) => ingestion::observe_message(
                s,
                worker_id,
                Some(message),
                refusal,
                now_ms,
            ).0.repository == attempts::renew_all(
                s.repository,
                worker_id,
                Seq::new(m.active_attempts@.len(), |i: int| m.active_attempts@[i].attempt_id@),
                now_ms,
                s.attempt_lease_ms,
            ).0,
            WorkerMessage::OutputChunk(_) => ingestion::observe_message(
                s,
                worker_id,
                Some(message),
                refusal,
                now_ms,
            ).0.repository == s.repository,
        },
        ingestion::observe_message(s, worker_id, None, refusal, now_ms).0 == s,
        ingestion::observe_message(s, worker_id, None, refusal, now_ms).1 is Err,
{
}

/// The report was observed and nothing else happened.
pub open spec fn heard(
    s: ServiceState,
    done: (ServiceState, Result<(), StatusView>),
    o: ObservedAttemptView,
) -> bool {
    &&& kept(s, done, o)
    &&& done.1 is Ok <==> attempts::observe(s.repository, o).1 is Ok
    &&& done.0.interactions == s.interactions
}

/// The report was observed.
pub open spec fn kept(
    s: ServiceState,
    done: (ServiceState, Result<(), StatusView>),
    o: ObservedAttemptView,
) -> bool {
    &&& done.0.repository == attempts::observe(s.repository, o).0
    &&& attempts::observe(s.repository, o).1 is Err ==> done.1 is Err
    &&& done.0.workers == s.workers
    &&& done.0.lease_counter == s.lease_counter
}

/// A result whose artifacts are refused is not observed at all.
pub proof fn refused_results_are_not_observed(
    s: ServiceState,
    worker_id: Seq<char>,
    m: v1::ExecutionFinished,
    refusal: StatusView,
    now_ms: u64,
)
    ensures
        ingestion::observe_message(
            s,
            worker_id,
            Some(WorkerMessage::ExecutionFinished(m)),
            Some(refusal),
            now_ms,
        ) == (s, Err::<(), StatusView>(refusal)),
{
}

/// A result is stored with the outcome, the exit code, the time and the artifacts that were
/// reported.
pub proof fn results_are_stored_as_reported(m: v1::ExecutionFinished)
    ensures
        ({
            let f: FinishedObservationView = ingestion::result_of(m);
            &&& f.outcome == if m.outcome == 1 {
                AttemptOutcome::Succeeded
            } else if m.outcome == 2 {
                AttemptOutcome::CandidateFailed
            } else if m.outcome == 3 {
                AttemptOutcome::TimedOut
            } else {
                AttemptOutcome::Other(m.outcome)
            }
            &&& f.exit_code == m.exit_code
            &&& f.elapsed_ms == m.elapsed_ms
            &&& f.detail == m.detail@
            &&& f.receipt is Some <==> m.receipt is Some
            &&& f.stdout is Some <==> m.stdout is Some
            &&& f.stderr is Some <==> m.stderr is Some
            &&& m.receipt is Some ==> f.receipt->0.digest == m.receipt->0.digest@
                && f.receipt->0.size_bytes == m.receipt->0.size_bytes
            &&& m.stdout is Some ==> f.stdout->0.digest == m.stdout->0.digest@
                && f.stdout->0.size_bytes == m.stdout->0.size_bytes
            &&& m.stderr is Some ==> f.stderr->0.digest == m.stderr->0.digest@
                && f.stderr->0.size_bytes == m.stderr->0.size_bytes
        }),
{
}

/// Behind a frame its connection stands at its number, has acknowledged what it acknowledged, and
/// keeps exactly the frames that are still to be acknowledged.
pub proof fn frames_move_the_counters(
    s: ServiceState,
    worker_id: Seq<char>,
    connection_id: Seq<char>,
    frame: WorkerToServer,
    now_ms: u64,
)
    requires
        s.workers.dom().contains(worker_id),
        s.workers[worker_id].connection_id == connection_id,
        s.workers[worker_id].connected,
        s.workers[worker_id].last_worker_sequence < u64::MAX,
        s.workers[worker_id].next_server_sequence <= i64::MAX,
        frame.sequence == s.workers[worker_id].last_worker_sequence + 1,
        frame.sequence <= i64::MAX,
        frame.acknowledges_server_through <= i64::MAX,
        now_ms <= i64::MAX,
    ensures
        ({
            let (t, r) = ingestion::settle(s, worker_id, connection_id, frame, now_ms);
            &&& r is Ok
            &&& t.workers[worker_id].last_worker_sequence == frame.sequence
            &&& t.workers[worker_id].last_server_sequence_acknowledged
                == frame.acknowledges_server_through
            &&& t.workers[worker_id].next_server_sequence
                == s.workers[worker_id].next_server_sequence
            &&& t.workers[worker_id].connected
            &&& t.repository.frames == crate::repository::connections::compacted(
                s.repository.frames,
                connection_id,
                frame.acknowledges_server_through,
            )
            &&& t.repository.assignments == s.repository.assignments
            &&& t.interactions == s.interactions
        }),
{
}

/// A frame is answered where its report must not be lost, by workers of the second minor version on.
pub proof fn durable_reports_are_answered(
    s: ServiceState,
    worker_id: Seq<char>,
    connection_id: Seq<char>,
    frame: WorkerToServer,
    refusal: Option<StatusView>,
    now_ms: u64,
)
    requires
        ingestion::ingest(s, worker_id, connection_id, frame, refusal, now_ms).1 is Ok,
    ensures
        ingestion::ingest(s, worker_id, connection_id, frame, refusal, now_ms).1->Ok_0
            == (s.workers[worker_id].protocol_minor >= 2 && (match frame.message {
            Some(WorkerMessage::AssignmentAccepted(_)) => true,
            Some(WorkerMessage::AssignmentRejected(_)) => true,
            Some(WorkerMessage::ExecutionStarted(_)) => true,
            Some(WorkerMessage::ExecutionFinished(_)) => true,
            Some(WorkerMessage::CancellationAcknowledged(_)) => true,
            _ => false,
        })),
        ingestion::frame_error(s, worker_id, connection_id, frame) is None,
        ingestion::observe_message(s, worker_id, frame.message, refusal, now_ms).1 is Ok,
{
}

/// A run is started by the first assignment of its task, unless it has begun already.
pub proof fn runs_start_with_their_first_assignment(
    s: ServiceState,
    contract: AssignmentContractView,
    now_ms: u64,
)
    ensures
        ({
            let (t, r) = projection::run_started(s, contract, now_ms);
            let known = interaction::envelopes(
                interaction::events_behind(s.interactions, contract.task_id, 0),
            );
            &&& t.repository == s.repository
            &&& t.workers == s.workers
            &&& known.len() > 0 ==> t == s && r is Ok && r->Ok_0 == AppendOutcomeView::Duplicate(
                known[0],
            )
            &&& known.len() == 0 && r is Ok && r->Ok_0 is Inserted ==> {
                let envelope = r->Ok_0->Inserted_0;
                &&& envelope.run_id == contract.task_id
                &&& envelope.task_id == Some(contract.task_id)
                &&& envelope.event == (EventView::RunStarted { task: contract.task_id })
                &&& envelope.emitted_at_unix_ms == now_ms
                &&& envelope.authority == Authority::Observed
                &&& envelope.visibility == Visibility::User
            }
        }),
{
}

/// A started execution is shown as the assignment's own command on its worker.
pub proof fn commands_are_shown_as_assigned(contract: AssignmentContractView, worker_id: Seq<char>)
    ensures
        ({
            let e = projection::command_event(contract, worker_id);
            &&& e is CommandStarted
            &&& e->command == text::joined(contract.execution.argv, " "@)
            &&& e->cwd == Some(contract.execution.working_directory)
            &&& e->execution_site == worker_id
            &&& e->description is Some
        }),
{
}

/// A finished execution is shown with its exit code, or none as minus one, its time, and whether it
/// ran out of time.
pub proof fn ends_are_shown_as_reported(m: v1::ExecutionFinished)
    ensures
        ({
            let e = projection::completion_event(m);
            &&& e is CommandCompleted
            &&& m.exit_code is Some ==> e->exit_code == m.exit_code->0
            &&& m.exit_code is None ==> e->exit_code == -1
            &&& e->elapsed_ms == m.elapsed_ms
            &&& e->timed_out <==> m.outcome == 3
            &&& e->output_artifact is Some <==> m.stdout is Some
            &&& m.stdout is Some ==> e->output_artifact->0.digest == m.stdout->0.digest@
                && e->output_artifact->0.reference == "stdout"@
        }),
{
}

/// Output is shown only for an attempt that its worker runs, and only of a known stream.
pub proof fn running_attempts_show_output(
    s: ServiceState,
    worker_id: Seq<char>,
    output: v1::OutputChunk,
)
    ensures
        ({
            let id = output.attempt_id@;
            let known = s.repository.assignments.dom().contains(id);
            let record = s.repository.assignments[id];
            let e = projection::output_error(s, worker_id, output);
            &&& e is None <==> known && record.worker_id == worker_id && record.state
                == AttemptState::Running && (output.stream == 1 || output.stream == 2)
            &&& !known ==> e->0.code == Code::FailedPrecondition
            &&& known && record.worker_id != worker_id ==> e->0.code == Code::PermissionDenied
            &&& known && record.worker_id == worker_id && record.state != AttemptState::Running
                ==> e->0.code == Code::FailedPrecondition
            &&& known && record.worker_id == worker_id && record.state == AttemptState::Running
                && e is Some ==> e->0.code == Code::InvalidArgument
        }),
        projection::event_stream(output.stream) == if output.stream == 1 {
            Some(OutputStream::Stdout)
        } else if output.stream == 2 {
            Some(OutputStream::Stderr)
        } else {
            None
        },
{
}

/// Output is shown as it was decoded, and marked where the worker or the decoding changed it; what
/// was left out before it is told.
pub proof fn output_is_shown_where_it_belongs(
    output: v1::OutputChunk,
    shown: Seq<char>,
    replaced: bool,
    expected: u64,
)
    ensures
        ({
            let e = projection::output_event(output, shown, replaced);
            &&& e is CommandOutput
            &&& e->byte_offset == output.byte_offset
            &&& e->CommandOutput_text == shown
            &&& e->display_sanitized <==> output.display_sanitized || replaced
            &&& output.stream == 1 ==> e->stream == OutputStream::Stdout
            &&& output.stream == 2 ==> e->stream == OutputStream::Stderr
        }),
        projection::gap_event(output, expected) is Warning,
{
}

/// What a worker causes is told as an observed fact of the attempt, in the run of its task.
pub proof fn workers_tell_their_own_attempt(
    contract: AssignmentContractView,
    worker_id: Seq<char>,
    at_ms: u64,
    event: EventView,
)
    ensures
        ({
            let frame = wire::worker_frame(contract, worker_id, at_ms, event);
            &&& frame.run_id == contract.task_id
            &&& frame.task_id == Some(contract.task_id)
            &&& frame.operation_id == Some(contract.attempt_id)
            &&& frame.producer.instance == worker_id
            &&& frame.producer.component == "alloyport-worker"@
            &&& frame.emitted_at_unix_ms == at_ms
            &&& frame.authority == Authority::Observed
            &&& !(event is CommandOutput) ==> frame.event == event
        }),
{
}

/// An abandoned preparation is taken up again: released and sent, or ready for its worker; one whose
/// input cannot be read is put off with the reason, and one that is no longer being prepared is left
/// alone.
pub proof fn abandoned_preparations_are_taken_up(
    s: ServiceState,
    record: AssignmentRecordView,
    input: Option<Seq<char>>,
    now_ms: u64,
)
    requires
        s.repository.assignments.dom().contains(record.contract.attempt_id),
        s.repository.assignments[record.contract.attempt_id] == record,
        !s.repository.leases.dom().contains(record.contract.attempt_id),
        now_ms <= i64::MAX,
        projection::run_started(s, record.contract, now_ms).1 is Ok,
    ensures
        ({
            let (t, r) = reconciliation::reconcile(s, record, input, now_ms);
            let after = t.repository.assignments[record.contract.attempt_id];
            let blocked = record.contract.execution.executor_kind == ExecutionKind::CudaFixture
                && input is Some;
            let preparing = record.state == AttemptState::Preparing;
            let reachable = s.workers.dom().contains(record.worker_id)
                && s.workers[record.worker_id].connected;
            &&& r is Ok
            &&& blocked ==> r->Ok_0 == ReconcileStepView::Failed(input->0) && after.state
                == record.state
            &&& blocked && preparing ==> after.updated_at_ms == now_ms
            &&& !blocked && !preparing ==> r->Ok_0 == ReconcileStepView::Unchanged && after
                == record
            &&& !blocked && preparing && !reachable ==> r->Ok_0 == ReconcileStepView::Pending
                && after.state == AttemptState::Dispatchable
            &&& !blocked && preparing && served(s, record.worker_id, now_ms) ==> r->Ok_0 is Send
                && after.state == AttemptState::Sent
        }),
{
}

/// A report counts every assignment that was taken up, whether it was sent or waits, and names every
/// failure.
pub proof fn recoveries_are_counted(
    report: ReportView,
    attempt_id: Seq<char>,
    detail: Seq<char>,
    frame: ServerToWorkerView,
)
    ensures
        ({
            let failed = reconciliation::counted(
                report,
                attempt_id,
                ReconcileStepView::Failed(detail),
                true,
            );
            let unchanged = reconciliation::counted(
                report,
                attempt_id,
                ReconcileStepView::Unchanged,
                true,
            );
            let undelivered = reconciliation::counted(
                report,
                attempt_id,
                ReconcileStepView::Undelivered(detail),
                true,
            );
            let pending = reconciliation::counted(
                report,
                attempt_id,
                ReconcileStepView::Pending,
                true,
            );
            let sent = reconciliation::counted(
                report,
                attempt_id,
                ReconcileStepView::Send(frame),
                true,
            );
            let unsent = reconciliation::counted(
                report,
                attempt_id,
                ReconcileStepView::Send(frame),
                false,
            );
            let note = reconciliation::FailureView { attempt_id, detail };
            &&& failed.recovered == report.recovered && failed.failures == report.failures.push(note)
            &&& unchanged == report
            &&& undelivered.recovered == report.recovered + 1 && undelivered.failures
                == report.failures.push(note) && undelivered.sent == report.sent
            &&& pending.recovered == report.recovered + 1 && pending.pending_delivery
                == report.pending_delivery + 1 && pending.sent == report.sent
            &&& sent.recovered == report.recovered + 1 && sent.sent == report.sent + 1
                && sent.pending_delivery == report.pending_delivery
            &&& unsent.recovered == report.recovered + 1 && unsent.sent == report.sent
                && unsent.pending_delivery == report.pending_delivery + 1
            &&& failed.scanned == report.scanned && sent.scanned == report.scanned
            &&& reconciliation::opened(7).scanned == 7 && reconciliation::opened(7).recovered == 0
        }),
{
}

/// Two passes together counted what each counted.
pub proof fn passes_add_up(a: ReportView, b: ReportView)
    ensures
        reconciliation::joined(a, b).scanned == a.scanned + b.scanned,
        reconciliation::joined(a, b).recovered == a.recovered + b.recovered,
        reconciliation::joined(a, b).sent == a.sent + b.sent,
        reconciliation::joined(a, b).pending_delivery == a.pending_delivery + b.pending_delivery,
        reconciliation::joined(a, b).failures.len() == a.failures.len() + b.failures.len(),
{
}

/// What the control service refuses is told by the code of its reason.
pub proof fn refusals_have_their_codes(
    detail: Seq<char>,
    from: AttemptState,
    to: AttemptState,
    error: status::ArtifactStoreError,
)
    ensures
        status::repository(RepositoryErrorView::NotFound(detail)).code == Code::NotFound,
        status::repository(RepositoryErrorView::IdentityMismatch(detail)).code
            == Code::PermissionDenied,
        status::repository(RepositoryErrorView::InvalidIdentity(detail)).code
            == Code::InvalidArgument,
        status::repository(RepositoryErrorView::InvalidTransition { from, to }).code
            == Code::FailedPrecondition,
        status::repository(RepositoryErrorView::Storage(detail)).code == Code::Internal,
        status::repository(RepositoryErrorView::Corrupt(detail)).code == Code::Internal,
        status::repository(RepositoryErrorView::ConflictingAttempt(detail)).code == Code::Internal,
        status::interaction(interaction::InteractionErrorView::Storage(detail)).code
            == Code::Internal,
        status::interaction(interaction::InteractionErrorView::InvalidFrame(detail)).code
            == Code::InvalidArgument,
        status::interaction(interaction::InteractionErrorView::ConflictingDedupKey(detail)).code
            == Code::InvalidArgument,
        status::upload_code(status::UploadError::NotFound) == Code::NotFound,
        status::upload_code(status::UploadError::OwnerMismatch) == Code::PermissionDenied,
        status::upload_code(status::UploadError::OffsetConflict) == Code::Aborted,
        status::upload_code(status::UploadError::QuotaExceeded) == Code::ResourceExhausted,
        status::upload_code(status::UploadError::ChunkTooLarge) == Code::ResourceExhausted,
        status::upload_code(status::UploadError::SizeLimitExceeded) == Code::ResourceExhausted,
        status::upload_code(status::UploadError::InvalidRequest) == Code::InvalidArgument,
        status::upload_code(status::UploadError::ConflictingUploadKey) == Code::InvalidArgument,
        status::upload_code(status::UploadError::ConflictingReferenceKey) == Code::InvalidArgument,
        status::upload_code(status::UploadError::ReferenceRevoked) == Code::FailedPrecondition,
        status::upload_code(status::UploadError::GarbageCollectionPending)
            == Code::FailedPrecondition,
        status::upload_code(status::UploadError::Expired) == Code::FailedPrecondition,
        status::upload_code(status::UploadError::Incomplete) == Code::FailedPrecondition,
        status::upload_code(status::UploadError::InvalidState) == Code::FailedPrecondition,
        status::upload_code(status::UploadError::Storage) == Code::Internal,
        status::upload_code(status::UploadError::Io) == Code::Internal,
        status::upload_code(status::UploadError::Corrupt) == Code::Internal,
        status::artifact_code(status::ArtifactStoreError::DigestMismatch) == Code::DataLoss,
        status::artifact_code(status::ArtifactStoreError::SizeMismatch) == Code::DataLoss,
        status::artifact_code(status::ArtifactStoreError::IntegrityViolation) == Code::DataLoss,
        status::artifact_code(status::ArtifactStoreError::SizeLimitExceeded)
            == Code::ResourceExhausted,
        status::artifact_code(status::ArtifactStoreError::Io) == Code::Internal,
        status::upload_code(status::UploadError::Artifact(error)) == status::artifact_code(error),
{
}

/// A fixture that is taken over waits for its input as well: without it the replacement stays in
/// preparation, and nobody is told of it.
pub proof fn replaced_fixtures_wait_for_their_input(
    s: ServiceState,
    expired_id: Seq<char>,
    worker_id: Seq<char>,
    replacement_id: Seq<char>,
    detail: Seq<char>,
    now_ms: u64,
)
    requires
        !s.repository.reassignments.dom().contains(expired_id),
        s.repository.assignments.dom().contains(expired_id),
        s.repository.assignments[expired_id].state == AttemptState::LeaseExpired,
        s.repository.assignments[expired_id].contract.execution.executor_kind
            == ExecutionKind::CudaFixture,
        !s.repository.assignments.dom().contains(replacement_id),
        replacement_id.len() > 0,
        'a' <= replacement_id[0] <= 'z',
        now_ms <= i64::MAX,
        proto::assignment_problem(
            wire::assignment_of(
                AssignmentContractView {
                    attempt_id: replacement_id,
                    attempt_number: if s.repository.assignments[expired_id].contract.attempt_number
                        == u32::MAX {
                        u32::MAX
                    } else {
                        (s.repository.assignments[expired_id].contract.attempt_number + 1) as u32
                    },
                    ..s.repository.assignments[expired_id].contract
                },
            ),
        ) is None,
    ensures
        ({
            let (t, r) = admission::take_over(
                s,
                expired_id,
                worker_id,
                replacement_id,
                Some(detail),
                now_ms,
            );
            &&& r == Err::<DeliveryView, EnqueueErrorView>(EnqueueErrorView::Artifact(detail))
            &&& t.repository.assignments[replacement_id].state == AttemptState::Preparing
            &&& t.interactions == s.interactions
            &&& t.workers == s.workers
        }),
{
    assert(!text::white(replacement_id[0]));
}

/// Nothing is shown of an attempt that is not known.
pub proof fn unknown_attempts_are_not_shown(
    s: ServiceState,
    worker_id: Seq<char>,
    attempt_id: Seq<char>,
    now_ms: u64,
)
    requires
        !s.repository.assignments.dom().contains(attempt_id),
    ensures
        projection::command_started(s, worker_id, attempt_id, now_ms).0 == s,
        projection::command_started(s, worker_id, attempt_id, now_ms).1 matches Err(e) && e.code
            == Code::FailedPrecondition,
{
}

/// A frame out of place is a fault of its sender: a message without content, a second hello, and a
/// first frame that is no proper hello are invalid, and a hello in another worker's name is not
/// permitted.
pub proof fn senders_are_told_their_faults(
    s: ServiceState,
    worker_id: Seq<char>,
    hello: v1::WorkerHello,
    first: WorkerToServer,
    owner: Seq<char>,
    refusal: Option<StatusView>,
    now_ms: u64,
)
    ensures
        ingestion::observe_message(s, worker_id, None, refusal, now_ms).1 matches Err(e) && e.code
            == Code::InvalidArgument,
        ingestion::observe_message(
            s,
            worker_id,
            Some(WorkerMessage::Hello(hello)),
            refusal,
            now_ms,
        ).1 matches Err(e) && e.code == Code::InvalidArgument,
        ingestion::first_frame_error(None, Some(owner)) matches Some(e) && e.code
            == Code::InvalidArgument,
        ingestion::first_frame_error(Some(first), None) matches Some(e) ==> e.code
            == Code::InvalidArgument,
        ingestion::first_frame_error(Some(first), None) is None
            && first.message->0->Hello_0.worker_id@ != owner ==> (ingestion::first_frame_error(
            Some(first),
            Some(owner),
        ) matches Some(e) && e.code == Code::PermissionDenied),
        ingestion::first_frame_error(Some(first), None) is Some ==> ingestion::first_frame_error(
            Some(first),
            Some(owner),
        ) == ingestion::first_frame_error(Some(first), None),
{
}

/// A worker is registered with its connection as it introduced itself, at the time it did.
pub proof fn workers_are_registered_as_introduced(
    s: ServiceState,
    hello: v1::WorkerHello,
    connection_id: Seq<char>,
    now_ms: u64,
)
    requires
        !s.repository.connections.dom().contains(connection_id),
        now_ms <= i64::MAX,
    ensures
        ({
            let t = super::connect(s, hello, connection_id, now_ms).0;
            let row = t.repository.connections[connection_id];
            let worker = t.repository.workers[hello.worker_id@];
            &&& row.instance_id == hello.instance_id@
            &&& row.connected_at_ms == now_ms
            &&& row.disconnected_at_ms is None
            &&& worker.registration == wire::registration_of(hello)
            &&& worker.last_seen_at_ms == now_ms
        }),
{
}

/// A run of which nothing is known yet is begun under a key of its own task, and what comes of that
/// is the answer.
pub proof fn unknown_runs_are_begun(s: ServiceState, contract: AssignmentContractView, now_ms: u64)
    requires
        interaction::events_behind(s.interactions, contract.task_id, 0).len() == 0,
    ensures
        ({
            let (t, r) = projection::run_started(s, contract, now_ms);
            let key = "task:"@ + contract.task_id + ":run-started"@;
            let (log, begun) = interaction::append(
                s.interactions,
                key,
                projection::start_frame(contract.task_id, now_ms),
            );
            &&& t.interactions == log
            &&& r == begun
        }),
{
}

} // verus!
