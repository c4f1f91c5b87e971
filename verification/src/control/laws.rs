//! What holds of the control service across its operations.
use super::{admission, delivery, ingestion, projection, reconciliation};
use super::admission::{DeliveryView, EnqueueErrorView};
use super::ServiceState;
use crate::events;
use crate::events::ProducerEventView;
use crate::interaction;
use crate::interaction::{AppendOutcomeView, StoredEventView};
use crate::ordered;
use crate::proto::v1;
use crate::proto::v1::{WorkerMessage, WorkerToServer};
use crate::repository;
use crate::status;
use crate::status::StatusView;
use crate::storage::{
    AssignmentContractView, AssignmentRecordView, AttemptState, ConnectionRegistrationView,
    ServerFrameKind, ServerOutboxFrameView,
};
use crate::wire;
use crate::text;
use vstd::prelude::*;

verus! {

/// The repository and the log of the service are sound.
pub open spec fn sound(s: ServiceState) -> bool {
    &&& repository::laws::sound(s.repository)
    &&& interaction::laws::sound(s.interactions)
}

/// From `s` to `t` soundness is kept and so is every attempt.
pub open spec fn keeps(s: ServiceState, t: ServiceState) -> bool {
    &&& sound(t)
    &&& repository::laws::keeps_attempts(s.repository, t.repository)
}

/// A fresh service is sound.
pub proof fn fresh_is_sound(attempt_lease_ms: u64)
    ensures
        sound(super::fresh(attempt_lease_ms)),
{
    repository::laws::empty_is_sound();
    interaction::laws::empty_is_sound();
}

proof fn keeps_on(s: ServiceState, t: ServiceState, u: ServiceState)
    requires
        keeps(s, t),
        keeps(t, u),
    ensures
        keeps(s, u),
{
    repository::laws::keeping_is_transitive(s.repository, t.repository, u.repository);
}

proof fn showing_keeps(s: ServiceState, dedup_key: Seq<char>, frame: ProducerEventView)
    requires
        sound(s),
    ensures
        keeps(s, projection::show(s, dedup_key, frame).0),
{
    interaction::laws::append_is_sound(s.interactions, dedup_key, frame);
}

proof fn starting_keeps(s: ServiceState, contract: AssignmentContractView, now_ms: u64)
    requires
        sound(s),
    ensures
        keeps(s, projection::run_started(s, contract, now_ms).0),
{
    interaction::laws::append_is_sound(
        s.interactions,
        "task:"@ + contract.task_id + ":run-started"@,
        projection::start_frame(contract.task_id, now_ms),
    );
}

/// An event of another part of the server keeps the service sound and every attempt.
pub proof fn publishing_keeps(s: ServiceState, dedup_key: Seq<char>, frame: ProducerEventView)
    requires
        sound(s),
    ensures
        keeps(s, super::publish(s, dedup_key, frame).0),
{
    interaction::laws::append_is_sound(s.interactions, dedup_key, frame);
}

/// Expiring leases keeps the service sound and every attempt.
pub proof fn reaping_keeps(s: ServiceState, now_ms: u64)
    requires
        sound(s),
    ensures
        keeps(s, super::reaped(s, now_ms)),
{
    repository::laws::expiry_is_sound(s.repository, now_ms);
    repository::laws::expiry_keeps_attempts(s.repository, now_ms);
}

/// A checked hello keeps the service sound and every attempt.
pub proof fn connecting_keeps(
    s: ServiceState,
    hello: v1::WorkerHello,
    connection_id: Seq<char>,
    now_ms: u64,
)
    requires
        sound(s),
    ensures
        keeps(s, super::connect(s, hello, connection_id, now_ms).0),
{
    repository::laws::registration_is_sound(
        s.repository,
        wire::registration_of(hello),
        ConnectionRegistrationView {
            connection_id,
            worker_id: hello.worker_id@,
            instance_id: hello.instance_id@,
            connected_at_ms: now_ms,
        },
    );
}

/// Making frames keeps the service sound and every attempt.
pub proof fn delivering_keeps(
    s: ServiceState,
    worker_id: Seq<char>,
    attempt_id: Seq<char>,
    connection_id: Seq<char>,
    reason: Seq<char>,
    now_ms: u64,
)
    requires
        sound(s),
    ensures
        keeps(s, delivery::assignment_frame(s, worker_id, attempt_id, now_ms).0),
        keeps(s, delivery::cancel_frame(s, worker_id, attempt_id, reason, now_ms).0),
        keeps(s, delivery::acknowledgement_frame(s, worker_id, connection_id, now_ms).0),
{
    let worker = s.workers[worker_id];
    let p = delivery::preparation(s, worker_id, attempt_id, now_ms);
    repository::laws::delivery_is_sound(s.repository, p);
    repository::laws::delivery_keeps_attempts(s.repository, p);
    let frame = delivery::outbox_frame(
        worker,
        worker_id,
        ServerFrameKind::Cancel,
        "cancel:"@ + attempt_id,
        attempt_id,
    );
    repository::laws::frames_are_sound(
        s.repository,
        frame,
        connection_id,
        worker.last_worker_sequence,
        worker.next_server_sequence,
        worker.last_server_sequence_acknowledged,
        now_ms,
    );
    let recorded = repository::connections::record_frame(s.repository, frame, now_ms).0;
    repository::laws::frames_are_sound(
        recorded,
        frame,
        worker.connection_id,
        worker.last_worker_sequence,
        worker.next_server_sequence,
        worker.last_server_sequence_acknowledged,
        now_ms,
    );
}

proof fn readying_keeps(
    s: ServiceState,
    worker_id: Seq<char>,
    contract: AssignmentContractView,
    attempt_id: Seq<char>,
    now_ms: u64,
)
    requires
        sound(s),
    ensures
        ({
            let started = projection::run_started(s, contract, now_ms).0;
            let released = repository::assignments::release(
                started.repository,
                attempt_id,
                worker_id,
                now_ms,
            ).0;
            keeps(s, ServiceState { repository: released, ..started })
        }),
{
    starting_keeps(s, contract, now_ms);
    let started = projection::run_started(s, contract, now_ms).0;
    repository::laws::preparation_is_sound(started.repository, attempt_id, worker_id, now_ms);
    repository::laws::preparation_keeps_attempts(started.repository, attempt_id, worker_id, now_ms);
    let released = repository::assignments::release(
        started.repository,
        attempt_id,
        worker_id,
        now_ms,
    ).0;
    keeps_on(s, started, ServiceState { repository: released, ..started });
}

proof fn releasing_keeps(
    s: ServiceState,
    worker_id: Seq<char>,
    contract: AssignmentContractView,
    stored: crate::storage::StoreAssignmentOutcome,
    input: Option<Seq<char>>,
    now_ms: u64,
)
    requires
        sound(s),
    ensures
        keeps(s, admission::release(s, worker_id, contract, stored, input, now_ms).0),
{
    starting_keeps(s, contract, now_ms);
    readying_keeps(s, worker_id, contract, contract.attempt_id, now_ms);
    let ready = admission::make_ready(s, worker_id, contract, now_ms).0;
    delivering_keeps(ready, worker_id, contract.attempt_id, seq![], seq![], now_ms);
    keeps_on(
        s,
        ready,
        admission::dispatch(ready, worker_id, contract.attempt_id, now_ms).0,
    );
}

/// Queueing an assignment keeps the service sound and every attempt.
pub proof fn enqueueing_keeps(
    s: ServiceState,
    worker_id: Seq<char>,
    assignment: v1::AssignmentView,
    input: Option<Seq<char>>,
    now_ms: u64,
)
    requires
        sound(s),
    ensures
        keeps(s, admission::enqueue(s, worker_id, assignment, input, now_ms).0),
{
    let contract = wire::contract_of(assignment);
    repository::laws::admission_is_sound(s.repository, worker_id, contract, now_ms);
    repository::laws::admission_keeps_attempts(s.repository, worker_id, contract, now_ms);
    let (kept, r) = admission::admission(s, worker_id, assignment, now_ms);
    if r is Ok {
        releasing_keeps(kept, worker_id, r->Ok_0.0, r->Ok_0.1, input, now_ms);
        keeps_on(
            s,
            kept,
            admission::release(kept, worker_id, r->Ok_0.0, r->Ok_0.1, input, now_ms).0,
        );
    }
}

/// Queueing an assignment for an owner keeps the service sound and every attempt.
pub proof fn enqueueing_for_an_owner_keeps(
    s: ServiceState,
    owner_id: Seq<char>,
    worker_id: Seq<char>,
    assignment: v1::AssignmentView,
    input: Option<Seq<char>>,
    now_ms: u64,
)
    requires
        sound(s),
    ensures
        keeps(
            s,
            admission::enqueue_for_owner(s, owner_id, worker_id, assignment, input, now_ms).0,
        ),
{
    interaction::laws::grants_are_sound(s.interactions, assignment.task_id, owner_id, now_ms);
    let log = interaction::grant(s.interactions, assignment.task_id, owner_id, now_ms).0;
    let t = ServiceState { interactions: log, ..s };
    enqueueing_keeps(t, worker_id, assignment, input, now_ms);
    keeps_on(s, t, admission::enqueue(t, worker_id, assignment, input, now_ms).0);
}

/// Taking over an expired attempt keeps the service sound and every attempt.
pub proof fn taking_over_keeps(
    s: ServiceState,
    expired_id: Seq<char>,
    worker_id: Seq<char>,
    replacement_id: Seq<char>,
    input: Option<Seq<char>>,
    now_ms: u64,
)
    requires
        sound(s),
    ensures
        keeps(
            s,
            admission::take_over(s, expired_id, worker_id, replacement_id, input, now_ms).0,
        ),
{
    repository::laws::reassignment_is_sound(
        s.repository,
        expired_id,
        worker_id,
        replacement_id,
        now_ms,
    );
    repository::laws::reassignment_keeps_attempts(
        s.repository,
        expired_id,
        worker_id,
        replacement_id,
        now_ms,
    );
    let (stored, r) = repository::assignments::reassign(
        s.repository,
        expired_id,
        worker_id,
        replacement_id,
        now_ms,
    );
    let t = ServiceState { repository: stored, ..s };
    if r is Ok {
        let contract = r->Ok_0.assignment.contract;
        starting_keeps(t, contract, now_ms);
        let started = projection::run_started(t, contract, now_ms).0;
        keeps_on(s, t, started);
        readying_keeps(t, worker_id, contract, replacement_id, now_ms);
        let released = repository::assignments::release(
            started.repository,
            replacement_id,
            worker_id,
            now_ms,
        ).0;
        let u = ServiceState { repository: released, ..started };
        keeps_on(s, t, u);
        delivering_keeps(u, worker_id, replacement_id, seq![], seq![], now_ms);
        keeps_on(s, u, admission::dispatch(u, worker_id, replacement_id, now_ms).0);
    }
}

/// A cancellation keeps the service sound and every attempt.
pub proof fn cancelling_keeps(
    s: ServiceState,
    attempt_id: Seq<char>,
    reason: Seq<char>,
    now_ms: u64,
)
    requires
        sound(s),
    ensures
        keeps(s, admission::cancel(s, attempt_id, reason, now_ms).0),
{
    repository::laws::cancellation_is_sound(s.repository, attempt_id, reason, now_ms);
    repository::laws::cancellation_keeps_attempts(s.repository, attempt_id, reason, now_ms);
    let (stored, r) = repository::attempts::cancel(s.repository, attempt_id, reason, now_ms);
    let t = ServiceState { repository: stored, ..s };
    if r is Ok {
        delivering_keeps(t, r->Ok_0.worker_id, attempt_id, seq![], reason, now_ms);
        keeps_on(
            s,
            t,
            delivery::cancel_frame(t, r->Ok_0.worker_id, attempt_id, reason, now_ms).0,
        );
    }
}

/// A try at an abandoned preparation keeps the service sound and every attempt.
pub proof fn reconciling_keeps(
    s: ServiceState,
    record: AssignmentRecordView,
    input: Option<Seq<char>>,
    now_ms: u64,
)
    requires
        sound(s),
    ensures
        keeps(s, reconciliation::reconcile(s, record, input, now_ms).0),
{
    let id = record.contract.attempt_id;
    repository::laws::preparation_is_sound(s.repository, id, record.worker_id, now_ms);
    repository::laws::preparation_keeps_attempts(s.repository, id, record.worker_id, now_ms);
    starting_keeps(s, record.contract, now_ms);
    let started = projection::run_started(s, record.contract, now_ms).0;
    repository::laws::preparation_is_sound(started.repository, id, record.worker_id, now_ms);
    repository::laws::preparation_keeps_attempts(started.repository, id, record.worker_id, now_ms);
    readying_keeps(s, record.worker_id, record.contract, id, now_ms);
    let released = repository::assignments::release(
        started.repository,
        id,
        record.worker_id,
        now_ms,
    ).0;
    let t = ServiceState { repository: released, ..started };
    delivering_keeps(t, record.worker_id, id, seq![], seq![], now_ms);
    keeps_on(s, t, delivery::assignment_frame(t, record.worker_id, id, now_ms).0);
    let deferred = repository::assignments::defer(
        started.repository,
        id,
        record.worker_id,
        now_ms,
    ).0;
    keeps_on(s, started, ServiceState { repository: deferred, ..started });
}

proof fn finishing_keeps(
    s: ServiceState,
    worker_id: Seq<char>,
    finished: v1::ExecutionFinished,
    now_ms: u64,
)
    requires
        sound(s),
    ensures
        keeps(s, projection::command_finished(s, worker_id, finished, now_ms).0),
{
    let id = finished.attempt_id@;
    let a = projection::command_started(s, worker_id, id, now_ms).0;
    beginning_keeps(s, worker_id, id, now_ms);
    let b = projection::artifact_shown(
        a,
        worker_id,
        id,
        v1::optional_artifact_ref(finished.stdout),
        "stdout"@,
        now_ms,
    ).0;
    artifacts_keep(a, worker_id, id, v1::optional_artifact_ref(finished.stdout), "stdout"@, now_ms);
    keeps_on(s, a, b);
    let c = projection::artifact_shown(
        b,
        worker_id,
        id,
        v1::optional_artifact_ref(finished.stderr),
        "stderr"@,
        now_ms,
    ).0;
    artifacts_keep(b, worker_id, id, v1::optional_artifact_ref(finished.stderr), "stderr"@, now_ms);
    keeps_on(s, b, c);
    let d = projection::artifact_shown(
        c,
        worker_id,
        id,
        v1::optional_artifact_ref(finished.receipt),
        "receipt"@,
        now_ms,
    ).0;
    artifacts_keep(
        c,
        worker_id,
        id,
        v1::optional_artifact_ref(finished.receipt),
        "receipt"@,
        now_ms,
    );
    keeps_on(s, c, d);
    let key = "attempt:"@ + id + ":command-completed"@;
    let frame = wire::worker_frame(
        s.repository.assignments[id].contract,
        worker_id,
        now_ms,
        projection::completion_event(finished),
    );
    showing_keeps(d, key, frame);
    keeps_on(s, d, projection::show(d, key, frame).0);
}

proof fn beginning_keeps(
    s: ServiceState,
    worker_id: Seq<char>,
    attempt_id: Seq<char>,
    now_ms: u64,
)
    requires
        sound(s),
    ensures
        keeps(s, projection::command_started(s, worker_id, attempt_id, now_ms).0),
{
    let contract = s.repository.assignments[attempt_id].contract;
    showing_keeps(
        s,
        "attempt:"@ + attempt_id + ":command-started"@,
        wire::worker_frame(
            contract,
            worker_id,
            now_ms,
            projection::command_event(contract, worker_id),
        ),
    );
}

proof fn artifacts_keep(
    s: ServiceState,
    worker_id: Seq<char>,
    attempt_id: Seq<char>,
    artifact: Option<v1::ArtifactRefView>,
    name: Seq<char>,
    now_ms: u64,
)
    requires
        sound(s),
    ensures
        keeps(
            s,
            projection::artifact_shown(s, worker_id, attempt_id, artifact, name, now_ms).0,
        ),
{
    if artifact is Some {
        showing_keeps(
            s,
            "attempt:"@ + attempt_id + ":artifact:"@ + name,
            wire::worker_frame(
                s.repository.assignments[attempt_id].contract,
                worker_id,
                now_ms,
                events::EventView::ArtifactProduced {
                    artifact: wire::shown_artifact(artifact->0, name),
                },
            ),
        );
    }
}

proof fn output_keeps(
    s: ServiceState,
    worker_id: Seq<char>,
    output: v1::OutputChunk,
    shown: Seq<char>,
    replaced: bool,
    now_ms: u64,
)
    requires
        sound(s),
    ensures
        keeps(s, projection::output_shown(s, worker_id, output, shown, replaced, now_ms).0),
{
    if projection::output_error(s, worker_id, output) is None {
        let contract = s.repository.assignments[output.attempt_id@].contract;
        let frame = wire::worker_frame(
            contract,
            worker_id,
            now_ms,
            projection::output_event(output, shown, replaced),
        );
        interaction::laws::output_is_sound(
            s.interactions,
            projection::output_key(output),
            output.attempt_id@,
            output.stream,
            output.byte_offset,
            output.payload@,
            frame,
        );
        let (log, r) = interaction::append_output(
            s.interactions,
            projection::output_key(output),
            output.attempt_id@,
            output.stream,
            output.byte_offset,
            output.payload@,
            frame,
        );
        let t = ServiceState { interactions: log, ..s };
        if r is Ok {
            let expected = (output.byte_offset - r->Ok_0.missing_bytes_before) as u64;
            showing_keeps(
                t,
                projection::gap_key(output, expected),
                wire::worker_frame(
                    contract,
                    worker_id,
                    now_ms,
                    projection::gap_event(output, expected),
                ),
            );
        }
    }
}

proof fn observing_keeps(
    s: ServiceState,
    worker_id: Seq<char>,
    message: Option<WorkerMessage>,
    refusal: Option<StatusView>,
    now_ms: u64,
)
    requires
        sound(s),
    ensures
        keeps(s, ingestion::observe_message(s, worker_id, message, refusal, now_ms).0),
        ingestion::observe_message(s, worker_id, message, refusal, now_ms).0.workers == s.workers,
{
    match message {
        Some(WorkerMessage::Heartbeat(m)) => {
            let ids = ingestion::active_ids(m.active_attempts@);
            repository::laws::heartbeat_is_sound(
                s.repository,
                worker_id,
                ids,
                now_ms,
                s.attempt_lease_ms,
            );
            repository::laws::heartbeat_keeps_attempts(
                s.repository,
                worker_id,
                ids,
                now_ms,
                s.attempt_lease_ms,
            );
        },
        Some(WorkerMessage::AssignmentAccepted(m)) => {
            reporting_keeps(
                s,
                worker_id,
                m.assignment_id@,
                m.attempt_id@,
                now_ms,
                crate::storage::AttemptObservationView::Accepted {
                    already_known: m.already_known,
                },
            );
        },
        Some(WorkerMessage::AssignmentRejected(m)) => {
            reporting_keeps(
                s,
                worker_id,
                m.assignment_id@,
                m.attempt_id@,
                now_ms,
                crate::storage::AttemptObservationView::Rejected {
                    reason: m.reason,
                    detail: m.detail@,
                },
            );
        },
        Some(WorkerMessage::CancellationAcknowledged(m)) => {
            reporting_keeps(
                s,
                worker_id,
                m.assignment_id@,
                m.attempt_id@,
                now_ms,
                crate::storage::AttemptObservationView::CancellationAcknowledged {
                    already_terminal: m.already_terminal,
                },
            );
        },
        Some(WorkerMessage::ExecutionStarted(m)) => {
            let o = crate::storage::AttemptObservationView::Started;
            reporting_keeps(s, worker_id, m.assignment_id@, m.attempt_id@, now_ms, o);
            let kept = ingestion::observe(
                s,
                worker_id,
                m.assignment_id@,
                m.attempt_id@,
                now_ms,
                o,
            ).0;
            beginning_keeps(kept, worker_id, m.attempt_id@, now_ms);
            keeps_on(
                s,
                kept,
                projection::command_started(kept, worker_id, m.attempt_id@, now_ms).0,
            );
        },
        Some(WorkerMessage::ExecutionFinished(m)) => {
            let o = crate::storage::AttemptObservationView::Finished(ingestion::result_of(m));
            reporting_keeps(s, worker_id, m.assignment_id@, m.attempt_id@, now_ms, o);
            let kept = ingestion::observe(
                s,
                worker_id,
                m.assignment_id@,
                m.attempt_id@,
                now_ms,
                o,
            ).0;
            finishing_keeps(kept, worker_id, m, now_ms);
            keeps_on(s, kept, projection::command_finished(kept, worker_id, m, now_ms).0);
        },
        Some(WorkerMessage::OutputChunk(m)) => {
            output_keeps(
                s,
                worker_id,
                m,
                text::lossy_text(m.payload@),
                !vstd::utf8::valid_utf8(m.payload@),
                now_ms,
            );
        },
        _ => {},
    }
}

proof fn reporting_keeps(
    s: ServiceState,
    worker_id: Seq<char>,
    assignment_id: Seq<char>,
    attempt_id: Seq<char>,
    now_ms: u64,
    observation: crate::storage::AttemptObservationView,
)
    requires
        sound(s),
    ensures
        keeps(
            s,
            ingestion::observe(s, worker_id, assignment_id, attempt_id, now_ms, observation).0,
        ),
{
    let o = crate::storage::ObservedAttemptView {
        assignment_id,
        attempt_id,
        worker_id,
        observed_at_ms: now_ms,
        observation,
    };
    repository::laws::observation_is_sound(s.repository, o);
    repository::laws::observation_keeps_attempts(s.repository, o);
}

proof fn settling_keeps(
    s: ServiceState,
    worker_id: Seq<char>,
    connection_id: Seq<char>,
    frame: WorkerToServer,
    now_ms: u64,
)
    requires
        sound(s),
    ensures
        keeps(s, ingestion::settle(s, worker_id, connection_id, frame, now_ms).0),
{
    let unused = arbitrary::<ServerOutboxFrameView>();
    let through = frame.acknowledges_server_through;
    repository::laws::frames_are_sound(
        s.repository,
        unused,
        connection_id,
        frame.sequence,
        0,
        through,
        now_ms,
    );
    let fewer = ingestion::compact(s.repository, connection_id, through, now_ms).0;
    repository::laws::frames_are_sound(
        fewer,
        unused,
        connection_id,
        frame.sequence,
        ingestion::sent_through(s.workers[worker_id]),
        through,
        now_ms,
    );
}

/// Taking in a worker's frame keeps the service sound and every attempt.
pub proof fn ingesting_keeps(
    s: ServiceState,
    worker_id: Seq<char>,
    connection_id: Seq<char>,
    frame: WorkerToServer,
    refusal: Option<StatusView>,
    now_ms: u64,
)
    requires
        sound(s),
    ensures
        keeps(
            s,
            ingestion::ingest(s, worker_id, connection_id, frame, refusal, now_ms).0,
        ),
{
    observing_keeps(s, worker_id, frame.message, refusal, now_ms);
    let observed = ingestion::observe_message(
        s,
        worker_id,
        frame.message,
        refusal,
        now_ms,
    ).0;
    settling_keeps(observed, worker_id, connection_id, frame, now_ms);
    keeps_on(
        s,
        observed,
        ingestion::settle(observed, worker_id, connection_id, frame, now_ms).0,
    );
}

/// A frame is taken in once: sent again it is refused, and nothing changes.
pub proof fn frames_are_taken_in_once(
    s: ServiceState,
    worker_id: Seq<char>,
    connection_id: Seq<char>,
    frame: WorkerToServer,
    refusal: Option<StatusView>,
    first_ms: u64,
    again_ms: u64,
)
    requires
        sound(s),
        ingestion::ingest(s, worker_id, connection_id, frame, refusal, first_ms).1 is Ok,
    ensures
        ({
            let t = ingestion::ingest(
                s,
                worker_id,
                connection_id,
                frame,
                refusal,
                first_ms,
            ).0;
            let (u, r) = ingestion::ingest(
                t,
                worker_id,
                connection_id,
                frame,
                refusal,
                again_ms,
            );
            &&& u == t
            &&& r is Err
            &&& t.workers[worker_id].last_worker_sequence == frame.sequence
        }),
{
    observing_keeps(s, worker_id, frame.message, refusal, first_ms);
}

/// Each frame for a worker takes the next server sequence, and no two take the same.
pub proof fn server_sequences_are_used_once(
    s: ServiceState,
    worker_id: Seq<char>,
    attempt_id: Seq<char>,
    now_ms: u64,
)
    requires
        delivery::assignment_frame(s, worker_id, attempt_id, now_ms).1 matches Ok(Some(_)),
    ensures
        ({
            let (t, r) = delivery::assignment_frame(s, worker_id, attempt_id, now_ms);
            let frame = r->Ok_0->0;
            &&& frame.sequence == s.workers[worker_id].next_server_sequence
            &&& t.workers[worker_id].next_server_sequence == frame.sequence + 1
            &&& repository::assignments::occupied(
                t.repository.frames,
                s.workers[worker_id].connection_id,
                frame.sequence,
            )
        }),
{
    let p = delivery::preparation(s, worker_id, attempt_id, now_ms);
    repository::laws::delivery_grants_a_lease(s.repository, p);
}

proof fn started_runs_have_events(s: ServiceState, contract: AssignmentContractView, now_ms: u64)
    requires
        sound(s),
        projection::run_started(s, contract, now_ms).1 is Ok,
    ensures
        interaction::events_behind(
            projection::run_started(s, contract, now_ms).0.interactions,
            contract.task_id,
            0,
        ).len() > 0,
{
    let task = contract.task_id;
    let known = interaction::events_behind(s.interactions, task, 0);
    let (t, r) = projection::run_started(s, contract, now_ms);
    let behind = |row: StoredEventView|
        row.envelope.run_id == task && row.envelope.sequence > 0;
    let of_run = |row: StoredEventView| row.envelope.run_id == task;
    let key = "task:"@ + task + ":run-started"@;
    if known.len() == 0 {
        assert(interaction::envelopes(known).len() == 0);
        let rows = s.interactions.events;
        let wanted = |row: StoredEventView|
            row.envelope.run_id == task && row.dedup_key == key;
        ordered::first_found(rows, wanted);
        assert(interaction::laws::run_numbered(
            interaction::events_of(s.interactions, task),
            interaction::next_sequence(s.interactions, task),
        ));
        match interaction::keyed(rows, task, key) {
            Some(i) => {
                ordered::kept_members(rows, of_run, rows[i]);
                let own = interaction::events_of(s.interactions, task);
                assert(own.contains(rows[i]));
                let j = choose|j: int| 0 <= j < own.len() && own[j] == rows[i];
                assert(own[j].envelope.sequence == j + 1);
                ordered::kept_members(rows, behind, rows[i]);
                assert(rows.contains(rows[i]));
                assert(known.contains(rows[i]));
                assert(false);
            },
            None => {
                let row = t.interactions.events.last();
                assert(t.interactions.events.contains(row)) by {
                    assert(t.interactions.events[t.interactions.events.len() - 1] == row);
                }
                ordered::kept_members(t.interactions.events, behind, row);
                let now = interaction::events_behind(t.interactions, task, 0);
                assert(now.contains(row));
                let j = choose|j: int| 0 <= j < now.len() && now[j] == row;
            },
        }
    } else {
        assert(interaction::envelopes(known).len() > 0);
    }
}

/// A run that an assignment starts is started once: asking again changes nothing.
pub proof fn runs_are_started_once(
    s: ServiceState,
    contract: AssignmentContractView,
    first_ms: u64,
    again_ms: u64,
)
    requires
        sound(s),
        projection::run_started(s, contract, first_ms).1 is Ok,
    ensures
        ({
            let t = projection::run_started(s, contract, first_ms).0;
            &&& projection::run_started(t, contract, again_ms).0 == t
            &&& projection::run_started(t, contract, again_ms).1 matches Ok(
                AppendOutcomeView::Duplicate(_),
            )
        }),
{
    started_runs_have_events(s, contract, first_ms);
    let t = projection::run_started(s, contract, first_ms).0;
    assert(interaction::envelopes(
        interaction::events_behind(t.interactions, contract.task_id, 0),
    ).len() > 0);
}

/// An assignment that was queued is not sent again by queueing it again: the answer is that it is
/// a repetition, and nothing changes.
pub proof fn queued_assignments_are_not_sent_again(
    s: ServiceState,
    worker_id: Seq<char>,
    assignment: v1::AssignmentView,
    input: Option<Seq<char>>,
    first_ms: u64,
    again_ms: u64,
)
    requires
        sound(s),
        admission::enqueue(s, worker_id, assignment, input, first_ms).1 is Ok,
    ensures
        ({
            let t = admission::enqueue(s, worker_id, assignment, input, first_ms).0;
            admission::enqueue(t, worker_id, assignment, input, again_ms) == (
                t,
                Ok::<DeliveryView, EnqueueErrorView>(DeliveryView::Duplicate),
            )
        }),
{
    let contract = wire::contract_of(assignment);
    let id = contract.attempt_id;
    let kept = admission::admission(s, worker_id, assignment, first_ms).0;
    repository::laws::admission_is_sound(s.repository, worker_id, contract, first_ms);
    assert(sound(kept));
    started_runs_have_events(kept, contract, first_ms);
    let started = projection::run_started(kept, contract, first_ms).0;
    let t = admission::enqueue(s, worker_id, assignment, input, first_ms).0;
    assert(t.interactions == started.interactions);
    assert(interaction::envelopes(
        interaction::events_behind(t.interactions, contract.task_id, 0),
    ).len() > 0);
    assert(t.repository.assignments[id].state != AttemptState::Preparing);
    assert(t.repository.assignments[id].contract == contract);
    assert(t.repository.assignments[id].worker_id == worker_id);
}

} // verus!
