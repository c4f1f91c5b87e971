//! What each request to the repository does, state by state.
use super::assignments;
use super::attempts;
use super::connections;
use super::ControlState;
use crate::storage::{
    AssignmentContractView, AssignmentDeliveryPreparationView, AttemptObservationView, AttemptState,
    CancellationRecordView, CancellationStoreOutcome, ConnectionRegistrationView,
    FinishedObservationView, ObservationDisposition, ObservedAttemptView, OutboxRowView,
    RepositoryErrorView, ServerFrameKind, ServerOutboxFrameView, StoreAssignmentOutcome,
    StoredObservationView, WorkerRegistrationView,
};
use crate::text;
use vstd::prelude::*;

verus! {

/// The report comes from the worker and for the assignment of a known attempt, at a time that can be
/// stored.
pub open spec fn genuine(s: ControlState, o: ObservedAttemptView) -> bool {
    &&& s.assignments.dom().contains(o.attempt_id)
    &&& s.assignments[o.attempt_id].worker_id == o.worker_id
    &&& s.assignments[o.attempt_id].contract.assignment_id == o.assignment_id
    &&& o.observed_at_ms <= i64::MAX
}

/// The attempt has a lease that ran out by the time of the report.
pub open spec fn overdue(s: ControlState, o: ObservedAttemptView) -> bool {
    s.leases.dom().contains(o.attempt_id) && s.leases[o.attempt_id].expires_at_ms
        <= o.observed_at_ms
}

/// From `s` to `t` nothing changes but one attempt, its lease and the kept reports, of which there
/// is one more.
pub open spec fn concerns(s: ControlState, t: ControlState, o: ObservedAttemptView, d: ObservationDisposition) -> bool {
    &&& t.observations == s.observations.push(
        StoredObservationView {
            attempt_id: o.attempt_id,
            worker_id: o.worker_id,
            observed_at_ms: o.observed_at_ms,
            disposition: d,
            observation: o.observation,
        },
    )
    &&& t.frames == s.frames
    &&& t.connections == s.connections
    &&& t.workers == s.workers
    &&& t.reassignments == s.reassignments
    &&& forall|k: Seq<char>|
        k != o.attempt_id ==> (#[trigger] t.assignments.dom().contains(k)
            <==> s.assignments.dom().contains(k)) && (s.assignments.dom().contains(k)
            ==> t.assignments[k] == s.assignments[k])
    &&& forall|k: Seq<char>|
        k != o.attempt_id ==> (#[trigger] t.leases.dom().contains(k) <==> s.leases.dom().contains(
            k,
        )) && (s.leases.dom().contains(k) ==> t.leases[k] == s.leases[k])
}

/// The report is applied: the attempt stands in `state` from its time on, and its lease is as it
/// was.
pub open spec fn applies(s: ControlState, o: ObservedAttemptView, state: AttemptState) -> bool {
    let (t, r) = attempts::observe(s, o);
    &&& r == Ok::<ObservationDisposition, RepositoryErrorView>(ObservationDisposition::Applied)
    &&& concerns(s, t, o, ObservationDisposition::Applied)
    &&& t.assignments.dom().contains(o.attempt_id)
    &&& t.assignments[o.attempt_id].state == state
    &&& t.assignments[o.attempt_id].updated_at_ms == o.observed_at_ms
    &&& t.leases == s.leases
}

/// The report is kept as a repetition and moves nothing.
pub open spec fn repeats(s: ControlState, o: ObservedAttemptView) -> bool {
    let (t, r) = attempts::observe(s, o);
    &&& r == Ok::<ObservationDisposition, RepositoryErrorView>(ObservationDisposition::Duplicate)
    &&& concerns(s, t, o, ObservationDisposition::Duplicate)
    &&& t.assignments == s.assignments
    &&& t.leases == s.leases
}

/// The report is kept as one that came too late, and the attempt stands in `state`.
pub open spec fn lags(s: ControlState, o: ObservedAttemptView, state: AttemptState) -> bool {
    let (t, r) = attempts::observe(s, o);
    &&& r == Ok::<ObservationDisposition, RepositoryErrorView>(ObservationDisposition::Stale)
    &&& concerns(s, t, o, ObservationDisposition::Stale)
    &&& t.assignments.dom().contains(o.attempt_id)
    &&& t.assignments[o.attempt_id].state == state
}

/// The report is refused and leaves no trace.
pub open spec fn refuses(s: ControlState, o: ObservedAttemptView, to: AttemptState) -> bool {
    attempts::observe(s, o) == (
        s,
        Err::<ObservationDisposition, RepositoryErrorView>(
            RepositoryErrorView::InvalidTransition { from: s.assignments[o.attempt_id].state, to },
        ),
    )
}

/// A worker that takes a delivered attempt has it; an attempt that is under way is taken already,
/// and one that was never delivered or has gone is not to be taken.
pub proof fn delivered_attempts_are_accepted(s: ControlState, o: ObservedAttemptView)
    requires
        genuine(s, o),
        o.observation is Accepted,
    ensures
        match s.assignments[o.attempt_id].state {
            AttemptState::Sent => applies(s, o, AttemptState::Accepted),
            AttemptState::Accepted => repeats(s, o),
            AttemptState::Running => repeats(s, o),
            AttemptState::CancelRequested => repeats(s, o),
            AttemptState::Finished => repeats(s, o),
            AttemptState::LeaseExpired => lags(s, o, AttemptState::LeaseExpired),
            AttemptState::Preparing => refuses(s, o, AttemptState::Accepted),
            AttemptState::Dispatchable => refuses(s, o, AttemptState::Accepted),
            AttemptState::Rejected => refuses(s, o, AttemptState::Accepted),
            AttemptState::Cancelled => refuses(s, o, AttemptState::Accepted),
        },
{
}

/// A worker may decline an attempt that was delivered or is being cancelled, and no other.
pub proof fn delivered_attempts_are_declined(s: ControlState, o: ObservedAttemptView)
    requires
        genuine(s, o),
        o.observation is Rejected,
    ensures
        match s.assignments[o.attempt_id].state {
            AttemptState::Sent => applies(s, o, AttemptState::Rejected),
            AttemptState::CancelRequested => applies(s, o, AttemptState::Rejected),
            AttemptState::Rejected => repeats(s, o),
            AttemptState::Finished => repeats(s, o),
            AttemptState::LeaseExpired => lags(s, o, AttemptState::LeaseExpired),
            AttemptState::Preparing => refuses(s, o, AttemptState::Rejected),
            AttemptState::Dispatchable => refuses(s, o, AttemptState::Rejected),
            AttemptState::Accepted => refuses(s, o, AttemptState::Rejected),
            AttemptState::Running => refuses(s, o, AttemptState::Rejected),
            AttemptState::Cancelled => refuses(s, o, AttemptState::Rejected),
        },
{
}

/// An attempt runs once its worker has accepted it.
pub proof fn accepted_attempts_run(s: ControlState, o: ObservedAttemptView)
    requires
        genuine(s, o),
        o.observation is Started,
    ensures
        match s.assignments[o.attempt_id].state {
            AttemptState::Accepted => applies(s, o, AttemptState::Running),
            AttemptState::Running => repeats(s, o),
            AttemptState::Finished => repeats(s, o),
            AttemptState::LeaseExpired => lags(s, o, AttemptState::LeaseExpired),
            AttemptState::Preparing => refuses(s, o, AttemptState::Running),
            AttemptState::Dispatchable => refuses(s, o, AttemptState::Running),
            AttemptState::Sent => refuses(s, o, AttemptState::Running),
            AttemptState::Rejected => refuses(s, o, AttemptState::Running),
            AttemptState::CancelRequested => refuses(s, o, AttemptState::Running),
            AttemptState::Cancelled => refuses(s, o, AttemptState::Running),
        },
{
}

/// An attempt that was accepted ends with its result while its lease lasts, running or not,
/// cancelled or not.
pub proof fn timely_results_end_attempts(s: ControlState, o: ObservedAttemptView)
    requires
        genuine(s, o),
        o.observation is Finished,
        !overdue(s, o),
    ensures
        match s.assignments[o.attempt_id].state {
            AttemptState::Accepted => applies(s, o, AttemptState::Finished),
            AttemptState::Running => applies(s, o, AttemptState::Finished),
            AttemptState::CancelRequested => applies(s, o, AttemptState::Finished),
            AttemptState::Finished => repeats(s, o),
            AttemptState::LeaseExpired => lags(s, o, AttemptState::LeaseExpired),
            AttemptState::Rejected => lags(s, o, AttemptState::Rejected),
            AttemptState::Preparing => refuses(s, o, AttemptState::Finished),
            AttemptState::Dispatchable => refuses(s, o, AttemptState::Finished),
            AttemptState::Sent => refuses(s, o, AttemptState::Finished),
            AttemptState::Cancelled => refuses(s, o, AttemptState::Finished),
        },
{
}

/// A result that comes once the lease has run out counts for nothing: the attempt that its worker
/// held has expired, and so has the lease; a result that was known is a repetition.
pub proof fn overdue_results_count_for_nothing(s: ControlState, o: ObservedAttemptView)
    requires
        genuine(s, o),
        o.observation is Finished,
        overdue(s, o),
    ensures
        match s.assignments[o.attempt_id].state {
            AttemptState::Sent => lags(s, o, AttemptState::LeaseExpired),
            AttemptState::Accepted => lags(s, o, AttemptState::LeaseExpired),
            AttemptState::Running => lags(s, o, AttemptState::LeaseExpired),
            AttemptState::CancelRequested => lags(s, o, AttemptState::LeaseExpired),
            AttemptState::LeaseExpired => lags(s, o, AttemptState::LeaseExpired),
            AttemptState::Finished => repeats(s, o),
            other => lags(s, o, other),
        },
        s.assignments[o.attempt_id].state != AttemptState::Finished ==> {
            let lease = attempts::observe(s, o).0.leases[o.attempt_id];
            &&& lease.expires_at_ms == s.leases[o.attempt_id].expires_at_ms
            &&& lease.expired_at_ms == match s.leases[o.attempt_id].expired_at_ms {
                Some(first) => Some(first),
                None => Some(o.observed_at_ms),
            }
        },
{
}

/// A worker acknowledges a cancellation that was asked for; the attempt goes on to wait for its
/// end.
pub proof fn cancellations_are_acknowledged(s: ControlState, o: ObservedAttemptView)
    requires
        genuine(s, o),
        o.observation is CancellationAcknowledged,
    ensures
        attempts::observe(s, o).0.assignments == s.assignments,
        attempts::observe(s, o).0.leases == s.leases,
        match s.assignments[o.attempt_id].state {
            AttemptState::CancelRequested => attempts::observe(s, o).1 == Ok::<
                ObservationDisposition,
                RepositoryErrorView,
            >(ObservationDisposition::Applied) && concerns(
                s,
                attempts::observe(s, o).0,
                o,
                ObservationDisposition::Applied,
            ),
            AttemptState::Finished => repeats(s, o),
            AttemptState::Cancelled => repeats(s, o),
            AttemptState::LeaseExpired => lags(s, o, AttemptState::LeaseExpired),
            _ => refuses(s, o, AttemptState::CancelRequested),
        },
{
}

/// A worker speaks for its own attempts only, and only within their assignments.
pub proof fn strangers_are_not_heard(s: ControlState, o: ObservedAttemptView)
    ensures
        !s.assignments.dom().contains(o.attempt_id) ==> attempts::observe(s, o) == (
            s,
            Err::<ObservationDisposition, RepositoryErrorView>(
                RepositoryErrorView::NotFound(o.attempt_id),
            ),
        ),
        s.assignments.dom().contains(o.attempt_id) && (s.assignments[o.attempt_id].worker_id
            != o.worker_id || s.assignments[o.attempt_id].contract.assignment_id
            != o.assignment_id) ==> attempts::observe(s, o) == (
            s,
            Err::<ObservationDisposition, RepositoryErrorView>(
                RepositoryErrorView::IdentityMismatch(o.attempt_id),
            ),
        ),
        o.observed_at_ms > i64::MAX ==> attempts::observe(s, o).0 == s && attempts::observe(
            s,
            o,
        ).1 is Err,
{
}

/// The end of an attempt is what its latest result says, whatever other reports came behind.
pub proof fn ends_are_the_latest_results(
    s: ControlState,
    o: ObservedAttemptView,
    attempt_id: Seq<char>,
)
    requires
        attempts::observe(s, o).1 is Ok,
    ensures
        (o.attempt_id == attempt_id && attempts::observe(
            s,
            o,
        ).0.assignments[attempt_id].state == AttemptState::Finished) ==> match o.observation {
            AttemptObservationView::Finished(f) => attempts::finished(
                attempts::observe(s, o).0,
                attempt_id,
            ) == Ok::<Option<FinishedObservationView>, RepositoryErrorView>(Some(f)),
            _ => attempts::finished(attempts::observe(s, o).0, attempt_id) == attempts::finished(
                s,
                attempt_id,
            ),
        },
        o.attempt_id != attempt_id ==> attempts::finished(
            attempts::observe(s, o).0,
            attempt_id,
        ) == attempts::finished(s, attempt_id),
        attempts::observe(s, o).0.assignments[o.attempt_id].state != AttemptState::Finished
            ==> attempts::finished(attempts::observe(s, o).0, o.attempt_id) == Ok::<
            Option<FinishedObservationView>,
            RepositoryErrorView,
        >(None),
{
    let t = attempts::observe(s, o).0;
    assert(t.observations.drop_last() =~= s.observations);
}

/// One more report is one more of its attempt.
pub proof fn kept_reports_are_counted(s: ControlState, o: ObservedAttemptView, attempt_id: Seq<char>)
    requires
        attempts::observe(s, o).1 is Ok,
    ensures
        attempts::observed(attempts::observe(s, o).0.observations, attempt_id)
            == attempts::observed(s.observations, attempt_id) + (if o.attempt_id == attempt_id {
            1nat
        } else {
            0nat
        }),
        attempts::observed(seq![], attempt_id) == 0,
{
    let t = attempts::observe(s, o).0;
    assert(t.observations.drop_last() =~= s.observations);
}

/// A heartbeat extends the lease of an attempt that its worker still holds in time.
pub proof fn heartbeats_extend_live_leases(
    s: ControlState,
    worker_id: Seq<char>,
    attempt_id: Seq<char>,
    now_ms: u64,
    lease_duration_ms: u64,
)
    requires
        s.assignments.dom().contains(attempt_id),
        s.assignments[attempt_id].worker_id == worker_id,
        s.assignments[attempt_id].state == AttemptState::Sent || s.assignments[attempt_id].state
            == AttemptState::Accepted || s.assignments[attempt_id].state == AttemptState::Running
            || s.assignments[attempt_id].state == AttemptState::CancelRequested,
        s.leases.dom().contains(attempt_id),
        s.leases[attempt_id].expired_at_ms is None,
        s.leases[attempt_id].expires_at_ms > now_ms,
        now_ms + lease_duration_ms <= i64::MAX,
    ensures
        ({
            let (t, r) = attempts::renew_all(
                s,
                worker_id,
                seq![attempt_id],
                now_ms,
                lease_duration_ms,
            );
            &&& r is Ok
            &&& t.leases[attempt_id].expires_at_ms == now_ms + lease_duration_ms
            &&& t.leases[attempt_id].renewed_at_ms == now_ms
            &&& t.leases[attempt_id].expired_at_ms is None
            &&& t.leases[attempt_id].granted_at_ms == s.leases[attempt_id].granted_at_ms
            &&& t.leases[attempt_id].lease_id == s.leases[attempt_id].lease_id
            &&& t.assignments == s.assignments
        }),
{
    let ids = seq![attempt_id];
    let until = (now_ms + lease_duration_ms) as u64;
    assert(attempts::renewals_error(s, worker_id, ids, 0, now_ms, until) is None);
    assert(attempts::renewals_error(s, worker_id, ids, 1, now_ms, until) is None);
    assert(attempts::renew(s, ids, 0, now_ms, until) == s);
}

/// A heartbeat does not revive a lease that has run out: it and its attempt expire instead.
pub proof fn heartbeats_revive_nothing(
    s: ControlState,
    worker_id: Seq<char>,
    attempt_id: Seq<char>,
    now_ms: u64,
    lease_duration_ms: u64,
)
    requires
        s.assignments.dom().contains(attempt_id),
        s.assignments[attempt_id].worker_id == worker_id,
        s.assignments[attempt_id].state == AttemptState::Sent || s.assignments[attempt_id].state
            == AttemptState::Accepted || s.assignments[attempt_id].state == AttemptState::Running
            || s.assignments[attempt_id].state == AttemptState::CancelRequested,
        s.leases.dom().contains(attempt_id),
        s.leases[attempt_id].expired_at_ms is Some || s.leases[attempt_id].expires_at_ms <= now_ms,
        now_ms <= i64::MAX,
    ensures
        ({
            let (t, r) = attempts::renew_all(
                s,
                worker_id,
                seq![attempt_id],
                now_ms,
                lease_duration_ms,
            );
            &&& r is Ok
            &&& t.assignments[attempt_id].state == AttemptState::LeaseExpired
            &&& t.leases[attempt_id].expired_at_ms is Some
            &&& t.leases[attempt_id].expires_at_ms == s.leases[attempt_id].expires_at_ms
        }),
{
    let ids = seq![attempt_id];
    let until = attempts::saturating(now_ms, lease_duration_ms);
    assert(attempts::renewals_error(s, worker_id, ids, 0, now_ms, until) is None);
    assert(attempts::renewals_error(s, worker_id, ids, 1, now_ms, until) is None);
    assert(attempts::renew(s, ids, 0, now_ms, until) == s);
}

/// A heartbeat that names an attempt of another worker, or one that nobody knows, renews nothing.
pub proof fn heartbeats_name_their_own_attempts(
    s: ControlState,
    worker_id: Seq<char>,
    attempt_ids: Seq<Seq<char>>,
    i: int,
    now_ms: u64,
    lease_duration_ms: u64,
)
    requires
        0 <= i < attempt_ids.len(),
        !s.assignments.dom().contains(attempt_ids[i]) || s.assignments[attempt_ids[i]].worker_id
            != worker_id,
    ensures
        attempts::renew_all(s, worker_id, attempt_ids, now_ms, lease_duration_ms).0 == s,
        attempts::renew_all(s, worker_id, attempt_ids, now_ms, lease_duration_ms).1 is Err,
{
    let until = attempts::saturating(now_ms, lease_duration_ms);
    some_renewal_fails(s, worker_id, attempt_ids, i, attempt_ids.len(), now_ms, until);
}

proof fn some_renewal_fails(
    s: ControlState,
    worker_id: Seq<char>,
    attempt_ids: Seq<Seq<char>>,
    i: int,
    n: nat,
    now_ms: u64,
    until_ms: u64,
)
    requires
        0 <= i < n <= attempt_ids.len(),
        attempts::renewal_error(s, worker_id, attempt_ids[i], now_ms, until_ms) is Some,
    ensures
        attempts::renewals_error(s, worker_id, attempt_ids, n, now_ms, until_ms) is Some,
    decreases n,
{
    if i < n - 1 {
        some_renewal_fails(s, worker_id, attempt_ids, i, (n - 1) as nat, now_ms, until_ms);
    }
}

/// Time expires exactly the attempts that a worker holds under a lease that has run out; nothing
/// else moves.
pub proof fn time_expires_held_attempts(s: ControlState, attempt_id: Seq<char>, now_ms: u64)
    requires
        s.assignments.dom().contains(attempt_id),
    ensures
        ({
            let t = attempts::expire_due(s, now_ms);
            let state = s.assignments[attempt_id].state;
            let out = s.leases.dom().contains(attempt_id) && s.leases[attempt_id].expired_at_ms
                is None && s.leases[attempt_id].expires_at_ms <= now_ms && (state
                == AttemptState::Sent || state == AttemptState::Accepted || state
                == AttemptState::Running || state == AttemptState::CancelRequested);
            &&& out ==> {
                &&& t.assignments[attempt_id].state == AttemptState::LeaseExpired
                &&& t.assignments[attempt_id].updated_at_ms == now_ms
                &&& t.leases[attempt_id].expired_at_ms == Some(now_ms)
                &&& t.leases[attempt_id].expires_at_ms == s.leases[attempt_id].expires_at_ms
            }
            &&& !out ==> t.assignments[attempt_id] == s.assignments[attempt_id] && (
            s.leases.dom().contains(attempt_id) ==> t.leases[attempt_id] == s.leases[attempt_id])
            &&& t.assignments.dom().contains(attempt_id)
            &&& t.assignments[attempt_id].contract == s.assignments[attempt_id].contract
            &&& t.frames == s.frames
            &&& t.observations == s.observations
            &&& t.connections == s.connections
            &&& attempts::due(s, attempt_id, now_ms) == out
        }),
{
}

/// Cancelling stops what was not sent, asks the worker to stop what was, and leaves what has ended.
pub proof fn cancellation_stops_or_asks(
    s: ControlState,
    attempt_id: Seq<char>,
    reason: Seq<char>,
    now_ms: u64,
)
    requires
        s.assignments.dom().contains(attempt_id),
        now_ms <= i64::MAX,
    ensures
        ({
            let (t, r) = attempts::cancel(s, attempt_id, reason, now_ms);
            let before = s.assignments[attempt_id];
            let after = t.assignments[attempt_id];
            let (state, outcome) = match before.state {
                AttemptState::Preparing => (
                    AttemptState::Cancelled,
                    CancellationStoreOutcome::CancelledBeforeSend,
                ),
                AttemptState::Dispatchable => (
                    AttemptState::Cancelled,
                    CancellationStoreOutcome::CancelledBeforeSend,
                ),
                AttemptState::Sent => (
                    AttemptState::CancelRequested,
                    CancellationStoreOutcome::Requested,
                ),
                AttemptState::Accepted => (
                    AttemptState::CancelRequested,
                    CancellationStoreOutcome::Requested,
                ),
                AttemptState::Running => (
                    AttemptState::CancelRequested,
                    CancellationStoreOutcome::Requested,
                ),
                AttemptState::CancelRequested => (
                    AttemptState::CancelRequested,
                    CancellationStoreOutcome::Duplicate,
                ),
                AttemptState::Finished => (
                    AttemptState::Finished,
                    CancellationStoreOutcome::AlreadyTerminal,
                ),
                AttemptState::Rejected => (
                    AttemptState::Rejected,
                    CancellationStoreOutcome::AlreadyTerminal,
                ),
                AttemptState::LeaseExpired => (
                    AttemptState::LeaseExpired,
                    CancellationStoreOutcome::AlreadyTerminal,
                ),
                AttemptState::Cancelled => (
                    AttemptState::Cancelled,
                    CancellationStoreOutcome::AlreadyTerminal,
                ),
            };
            &&& r == Ok::<CancellationRecordView, RepositoryErrorView>(
                CancellationRecordView { worker_id: before.worker_id, outcome },
            )
            &&& after.state == state
            &&& after.contract == before.contract
            &&& after.worker_id == before.worker_id
            &&& outcome == CancellationStoreOutcome::AlreadyTerminal ==> t == s
            &&& outcome != CancellationStoreOutcome::AlreadyTerminal ==> after.cancellation_reason
                == Some(reason) && after.updated_at_ms == now_ms
            &&& t.leases == s.leases
            &&& t.frames == s.frames
            &&& forall|k: Seq<char>|
                k != attempt_id && #[trigger] s.assignments.dom().contains(k) ==> t.assignments[k]
                    == s.assignments[k]
        }),
{
}

/// What nobody knows cannot be cancelled.
pub proof fn unknown_attempts_are_not_cancelled(
    s: ControlState,
    attempt_id: Seq<char>,
    reason: Seq<char>,
    now_ms: u64,
)
    requires
        !s.assignments.dom().contains(attempt_id),
    ensures
        attempts::cancel(s, attempt_id, reason, now_ms) == (
            s,
            Err::<CancellationRecordView, RepositoryErrorView>(
                RepositoryErrorView::NotFound(attempt_id),
            ),
        ),
{
}

/// A new attempt is admitted for its worker with its contract, and waits to be prepared.
pub proof fn new_attempts_wait_for_preparation(
    s: ControlState,
    worker_id: Seq<char>,
    contract: AssignmentContractView,
    at_ms: u64,
)
    requires
        !s.assignments.dom().contains(contract.attempt_id),
        at_ms <= i64::MAX,
    ensures
        ({
            let (t, r) = assignments::store(s, worker_id, contract, at_ms);
            let record = t.assignments[contract.attempt_id];
            &&& r == Ok::<StoreAssignmentOutcome, RepositoryErrorView>(
                StoreAssignmentOutcome::Inserted,
            )
            &&& t.assignments.dom() == s.assignments.dom().insert(contract.attempt_id)
            &&& record.state == AttemptState::Preparing
            &&& record.worker_id == worker_id
            &&& record.contract == contract
            &&& record.created_at_ms == at_ms
            &&& record.updated_at_ms == at_ms
            &&& record.cancellation_reason is None
            &&& t.leases == s.leases
            &&& t.frames == s.frames
            &&& forall|k: Seq<char>|
                k != contract.attempt_id && #[trigger] s.assignments.dom().contains(k)
                    ==> t.assignments[k] == s.assignments[k]
        }),
{
}

/// An attempt that was being prepared can be sent once it is released; a later release, or one of an
/// attempt that was cancelled meanwhile, changes nothing.
pub proof fn prepared_attempts_are_released(
    s: ControlState,
    attempt_id: Seq<char>,
    worker_id: Seq<char>,
    at_ms: u64,
)
    requires
        s.assignments.dom().contains(attempt_id),
        s.assignments[attempt_id].worker_id == worker_id,
        at_ms <= i64::MAX,
    ensures
        ({
            let (t, r) = assignments::release(s, attempt_id, worker_id, at_ms);
            let preparing = s.assignments[attempt_id].state == AttemptState::Preparing;
            &&& r == Ok::<bool, RepositoryErrorView>(preparing)
            &&& !preparing ==> t == s
            &&& preparing ==> {
                &&& t.assignments[attempt_id].state == AttemptState::Dispatchable
                &&& t.assignments[attempt_id].updated_at_ms == at_ms
                &&& t.assignments[attempt_id].contract == s.assignments[attempt_id].contract
                &&& t.assignments[attempt_id].worker_id == worker_id
                &&& t.leases == s.leases
            }
        }),
{
}

/// Only its own worker's attempt is released.
pub proof fn foreign_attempts_are_not_released(
    s: ControlState,
    attempt_id: Seq<char>,
    worker_id: Seq<char>,
    at_ms: u64,
)
    ensures
        !s.assignments.dom().contains(attempt_id) ==> assignments::release(
            s,
            attempt_id,
            worker_id,
            at_ms,
        ) == (s, Err::<bool, RepositoryErrorView>(RepositoryErrorView::NotFound(attempt_id))),
        s.assignments.dom().contains(attempt_id) && s.assignments[attempt_id].worker_id
            != worker_id ==> assignments::release(s, attempt_id, worker_id, at_ms) == (
            s,
            Err::<bool, RepositoryErrorView>(RepositoryErrorView::IdentityMismatch(attempt_id)),
        ),
{
}

/// A preparation that failed waits for its next time, as it was otherwise.
pub proof fn failed_preparations_wait(
    s: ControlState,
    attempt_id: Seq<char>,
    worker_id: Seq<char>,
    retry_at_ms: u64,
)
    requires
        retry_at_ms <= i64::MAX,
    ensures
        ({
            let (t, r) = assignments::defer(s, attempt_id, worker_id, retry_at_ms);
            let waits = s.assignments.dom().contains(attempt_id)
                && s.assignments[attempt_id].worker_id == worker_id
                && s.assignments[attempt_id].state == AttemptState::Preparing;
            &&& r == Ok::<bool, RepositoryErrorView>(waits)
            &&& !waits ==> t == s
            &&& waits ==> t.assignments[attempt_id].state == AttemptState::Preparing
                && t.assignments[attempt_id].updated_at_ms == retry_at_ms
                && t.assignments[attempt_id].contract == s.assignments[attempt_id].contract
                && t.assignments[attempt_id].created_at_ms
                == s.assignments[attempt_id].created_at_ms
        }),
{
}

/// What an expired attempt was for goes on under a new attempt: the same work and the next number,
/// to be prepared afresh; the expired attempt stays as it is.
pub proof fn expired_work_goes_on(
    s: ControlState,
    expired_id: Seq<char>,
    worker_id: Seq<char>,
    replacement_id: Seq<char>,
    at_ms: u64,
)
    requires
        !s.reassignments.dom().contains(expired_id),
        s.assignments.dom().contains(expired_id),
        s.assignments[expired_id].state == AttemptState::LeaseExpired,
        !s.assignments.dom().contains(replacement_id),
        replacement_id.len() > 0,
        'a' <= replacement_id[0] <= 'z',
        at_ms <= i64::MAX,
    ensures
        ({
            let (t, r) = assignments::reassign(s, expired_id, worker_id, replacement_id, at_ms);
            let old = s.assignments[expired_id];
            let new = t.assignments[replacement_id];
            &&& r is Ok
            &&& r->Ok_0.outcome == StoreAssignmentOutcome::Inserted
            &&& r->Ok_0.assignment == new
            &&& t.assignments.dom() == s.assignments.dom().insert(replacement_id)
            &&& t.assignments[expired_id] == old
            &&& new.state == AttemptState::Preparing
            &&& new.worker_id == worker_id
            &&& new.created_at_ms == at_ms
            &&& new.cancellation_reason is None
            &&& new.contract.attempt_id == replacement_id
            &&& new.contract.assignment_id == old.contract.assignment_id
            &&& new.contract.task_id == old.contract.task_id
            &&& new.contract.candidate_id == old.contract.candidate_id
            &&& new.contract.idempotency_key == old.contract.idempotency_key
            &&& new.contract.execution == old.contract.execution
            &&& new.contract.required_features == old.contract.required_features
            &&& old.contract.attempt_number < u32::MAX ==> new.contract.attempt_number
                == old.contract.attempt_number + 1
            &&& t.reassignments.dom().contains(expired_id)
            &&& t.reassignments[expired_id].attempt_id == replacement_id
            &&& t.reassignments[expired_id].worker_id == worker_id
        }),
{
    assert(!crate::text::white(replacement_id[0]));
}

/// Only an attempt whose lease has expired is taken over, once, and by a new attempt.
pub proof fn only_expired_work_is_taken_over(
    s: ControlState,
    expired_id: Seq<char>,
    worker_id: Seq<char>,
    replacement_id: Seq<char>,
    at_ms: u64,
)
    ensures
        assignments::reassign(s, expired_id, worker_id, replacement_id, at_ms).1 is Err
            ==> assignments::reassign(s, expired_id, worker_id, replacement_id, at_ms).0 == s,
        !s.reassignments.dom().contains(expired_id) && !s.assignments.dom().contains(expired_id)
            ==> assignments::reassign(s, expired_id, worker_id, replacement_id, at_ms).1 is Err
            && assignments::reassign(s, expired_id, worker_id, replacement_id, at_ms).1->Err_0
            == RepositoryErrorView::NotFound(expired_id),
        !s.reassignments.dom().contains(expired_id) && s.assignments.dom().contains(expired_id)
            && s.assignments[expired_id].state != AttemptState::LeaseExpired
            ==> assignments::reassign(s, expired_id, worker_id, replacement_id, at_ms).1 is Err
            && assignments::reassign(s, expired_id, worker_id, replacement_id, at_ms).1->Err_0
            == (RepositoryErrorView::InvalidTransition {
            from: s.assignments[expired_id].state,
            to: AttemptState::Dispatchable,
        }),
        !s.reassignments.dom().contains(expired_id) && (replacement_id == expired_id
            || s.assignments.dom().contains(replacement_id)) ==> assignments::reassign(
            s,
            expired_id,
            worker_id,
            replacement_id,
            at_ms,
        ).1 is Err,
        s.reassignments.dom().contains(expired_id) && (s.reassignments[expired_id].attempt_id
            != replacement_id || s.reassignments[expired_id].worker_id != worker_id)
            ==> assignments::reassign(s, expired_id, worker_id, replacement_id, at_ms).1 is Err
            && assignments::reassign(s, expired_id, worker_id, replacement_id, at_ms).1->Err_0
            == RepositoryErrorView::ConflictingAttempt(expired_id),
{
}

/// A frame of the given attempt can be handed to an open connection of its worker: numbers and times
/// can be stored and the place in the outbox is free.
pub open spec fn can_be_sent(s: ControlState, p: AssignmentDeliveryPreparationView, id: Seq<char>) -> bool {
    &&& p.frame.attempt_id == Some(id)
    &&& p.frame.kind == ServerFrameKind::Assignment
    &&& s.assignments.dom().contains(id)
    &&& s.assignments[id].worker_id == p.frame.worker_id
    &&& s.connections.dom().contains(p.frame.connection_id)
    &&& s.connections[p.frame.connection_id].worker_id == p.frame.worker_id
    &&& s.connections[p.frame.connection_id].disconnected_at_ms is None
    &&& p.now_ms + p.lease_duration_ms <= i64::MAX
    &&& p.frame.sequence <= i64::MAX
    &&& p.last_worker_sequence <= i64::MAX
    &&& p.last_server_acknowledged_by_worker <= i64::MAX
    &&& forall|i: int|
        0 <= i < s.frames.len() ==> (#[trigger] s.frames[i]).frame.connection_id
            != p.frame.connection_id || s.frames[i].frame.sequence != p.frame.sequence
}

/// An attempt that is ready is sent under a new lease, and its frame waits for acknowledgement.
pub proof fn ready_attempts_are_sent(
    s: ControlState,
    p: AssignmentDeliveryPreparationView,
    id: Seq<char>,
)
    requires
        can_be_sent(s, p, id),
        s.assignments[id].state == AttemptState::Dispatchable,
        !s.leases.dom().contains(id),
    ensures
        ({
            let (t, r) = assignments::deliver(s, p);
            &&& r == Ok::<AssignmentContractView, RepositoryErrorView>(s.assignments[id].contract)
            &&& t.assignments[id].state == AttemptState::Sent
            &&& t.assignments[id].updated_at_ms == p.now_ms
            &&& t.assignments[id].contract == s.assignments[id].contract
            &&& t.leases.dom().contains(id)
            &&& t.leases[id].attempt_id == id
            &&& t.leases[id].lease_id == p.lease_id
            &&& t.leases[id].worker_id == p.frame.worker_id
            &&& t.leases[id].granted_at_ms == p.now_ms
            &&& t.leases[id].renewed_at_ms == p.now_ms
            &&& t.leases[id].expires_at_ms == p.now_ms + p.lease_duration_ms
            &&& t.leases[id].expired_at_ms is None
            &&& t.frames == s.frames.push(OutboxRowView { frame: p.frame, created_at_ms: p.now_ms })
            &&& t.connections[p.frame.connection_id].last_server_sequence == p.frame.sequence
            &&& t.connections[p.frame.connection_id].last_worker_sequence == p.last_worker_sequence
            &&& t.connections[p.frame.connection_id].last_server_acknowledged_by_worker
                == p.last_server_acknowledged_by_worker
        }),
{
}

/// An attempt that is under way is sent again without a change of its state, under its old lease,
/// which is extended; where that lease has run out, the attempt expires and is not sent.
pub proof fn attempts_under_way_are_sent_again(
    s: ControlState,
    p: AssignmentDeliveryPreparationView,
    id: Seq<char>,
)
    requires
        can_be_sent(s, p, id),
        s.assignments[id].state == AttemptState::Sent || s.assignments[id].state
            == AttemptState::Accepted || s.assignments[id].state == AttemptState::Running
            || s.assignments[id].state == AttemptState::CancelRequested,
        s.leases.dom().contains(id),
    ensures
        s.leases[id].expires_at_ms > p.now_ms ==> {
            let (t, r) = assignments::deliver(s, p);
            &&& r == Ok::<AssignmentContractView, RepositoryErrorView>(s.assignments[id].contract)
            &&& t.assignments[id].state == s.assignments[id].state
            &&& t.leases[id].lease_id == s.leases[id].lease_id
            &&& t.leases[id].granted_at_ms == s.leases[id].granted_at_ms
            &&& t.leases[id].expires_at_ms == p.now_ms + p.lease_duration_ms
            &&& t.frames == s.frames.push(OutboxRowView { frame: p.frame, created_at_ms: p.now_ms })
        },
        s.leases[id].expires_at_ms <= p.now_ms ==> {
            let (t, r) = assignments::deliver(s, p);
            &&& r == Err::<AssignmentContractView, RepositoryErrorView>(
                RepositoryErrorView::InvalidTransition {
                    from: AttemptState::LeaseExpired,
                    to: AttemptState::Sent,
                },
            )
            &&& t.assignments[id].state == AttemptState::LeaseExpired
            &&& t.leases[id].expired_at_ms is Some
            &&& t.frames == s.frames
        },
{
}

/// What waits to be prepared, has ended or belongs to another worker is not sent, nor anything to a
/// connection that is closed or to a place of the outbox that is taken.
pub proof fn what_cannot_be_sent_is_not(
    s: ControlState,
    p: AssignmentDeliveryPreparationView,
    id: Seq<char>,
)
    requires
        p.frame.attempt_id == Some(id),
    ensures
        s.assignments.dom().contains(id) && (s.assignments[id].state == AttemptState::Preparing
            || s.assignments[id].state == AttemptState::Finished || s.assignments[id].state
            == AttemptState::Rejected || s.assignments[id].state == AttemptState::LeaseExpired
            || s.assignments[id].state == AttemptState::Cancelled) ==> assignments::deliver(
            s,
            p,
        ).1 is Err && assignments::deliver(s, p).0 == s,
        !s.assignments.dom().contains(id) || s.assignments[id].worker_id != p.frame.worker_id
            ==> assignments::deliver(s, p).1 is Err && assignments::deliver(s, p).0 == s,
        !s.connections.dom().contains(p.frame.connection_id)
            || s.connections[p.frame.connection_id].disconnected_at_ms is Some
            || s.connections[p.frame.connection_id].worker_id != p.frame.worker_id
            ==> assignments::deliver(s, p).1 is Err && assignments::deliver(s, p).0.frames
            == s.frames,
        (exists|i: int|
            0 <= i < s.frames.len() && (#[trigger] s.frames[i]).frame.connection_id
                == p.frame.connection_id && s.frames[i].frame.sequence == p.frame.sequence)
            ==> assignments::deliver(s, p).1 is Err && assignments::deliver(s, p).0.frames
            == s.frames,
{
}

/// A worker is listed for replay with exactly its own attempts that are ready or under way; the
/// attempts that wait for preparation are listed apart.
pub proof fn replays_hold_unfinished_work(s: ControlState, worker_id: Seq<char>, id: Seq<char>)
    ensures
        assignments::replay_times(s, worker_id).dom().contains(id) <==> s.assignments.dom().contains(
            id,
        ) && s.assignments[id].worker_id == worker_id && (s.assignments[id].state
            == AttemptState::Dispatchable || s.assignments[id].state == AttemptState::Sent
            || s.assignments[id].state == AttemptState::Accepted || s.assignments[id].state
            == AttemptState::Running || s.assignments[id].state == AttemptState::CancelRequested),
        assignments::replay_times(s, worker_id).dom().contains(id) ==> assignments::replay_times(
            s,
            worker_id,
        )[id] == s.assignments[id].created_at_ms,
        assignments::preparing_times(s).dom().contains(id) <==> s.assignments.dom().contains(id)
            && s.assignments[id].state == AttemptState::Preparing,
        assignments::preparing_times(s).dom().contains(id) ==> assignments::preparing_times(s)[id]
            == s.assignments[id].updated_at_ms,
{
}

/// A worker that connects under a fresh identity is known with what it said, and its connection
/// starts at the first frame of either side.
pub proof fn workers_connect_afresh(
    s: ControlState,
    registration: WorkerRegistrationView,
    connection: ConnectionRegistrationView,
)
    requires
        connection.connected_at_ms <= i64::MAX,
        !s.connections.dom().contains(connection.connection_id),
        connection.worker_id == registration.worker_id,
    ensures
        ({
            let (t, r) = connections::register(s, registration, connection);
            let row = t.connections[connection.connection_id];
            let worker = t.workers[registration.worker_id];
            &&& r is Ok
            &&& t.connections.dom().contains(connection.connection_id)
            &&& t.workers.dom().contains(registration.worker_id)
            &&& row.worker_id == connection.worker_id
            &&& row.instance_id == connection.instance_id
            &&& row.connected_at_ms == connection.connected_at_ms
            &&& row.disconnected_at_ms is None
            &&& row.last_worker_sequence == 1
            &&& row.last_server_sequence == 1
            &&& row.last_server_acknowledged_by_worker == 0
            &&& worker.registration == registration
            &&& worker.last_seen_at_ms == connection.connected_at_ms
            &&& worker.registered_at_ms == if s.workers.dom().contains(registration.worker_id) {
                s.workers[registration.worker_id].registered_at_ms
            } else {
                connection.connected_at_ms
            }
            &&& t.assignments == s.assignments
            &&& t.leases == s.leases
            &&& t.frames == s.frames
        }),
{
}

/// The identity of a connection is used once.
pub proof fn connection_identities_are_used_once(
    s: ControlState,
    registration: WorkerRegistrationView,
    connection: ConnectionRegistrationView,
)
    requires
        s.connections.dom().contains(connection.connection_id),
    ensures
        connections::register(s, registration, connection).0 == s,
        connections::register(s, registration, connection).1 is Err,
{
}

/// The counters of a connection are those that were last given for it, and its worker was heard.
pub proof fn counters_are_the_last_given(
    s: ControlState,
    connection_id: Seq<char>,
    worker_sequence: u64,
    server_sequence: u64,
    acknowledged: u64,
    at_ms: u64,
)
    requires
        s.connections.dom().contains(connection_id),
        worker_sequence <= i64::MAX,
        server_sequence <= i64::MAX,
        acknowledged <= i64::MAX,
        at_ms <= i64::MAX,
    ensures
        ({
            let (t, r) = connections::update_sequences(
                s,
                connection_id,
                worker_sequence,
                server_sequence,
                acknowledged,
                at_ms,
            );
            let row = t.connections[connection_id];
            let worker_id = s.connections[connection_id].worker_id;
            &&& r is Ok
            &&& row.last_worker_sequence == worker_sequence
            &&& row.last_server_sequence == server_sequence
            &&& row.last_server_acknowledged_by_worker == acknowledged
            &&& row.worker_id == worker_id
            &&& row.disconnected_at_ms == s.connections[connection_id].disconnected_at_ms
            &&& s.workers.dom().contains(worker_id) ==> t.workers[worker_id].last_seen_at_ms
                == at_ms && t.workers[worker_id].registration == s.workers[worker_id].registration
            &&& t.assignments == s.assignments
            &&& t.frames == s.frames
        }),
{
}

/// A connection closes once, and the first time counts.
pub proof fn connections_close_once(s: ControlState, connection_id: Seq<char>, at_ms: u64)
    requires
        s.connections.dom().contains(connection_id),
        at_ms <= i64::MAX,
    ensures
        ({
            let (t, r) = connections::close(s, connection_id, at_ms);
            &&& r is Ok
            &&& t.connections[connection_id].disconnected_at_ms == match s.connections[connection_id].disconnected_at_ms {
                Some(first) => Some(first),
                None => Some(at_ms),
            }
            &&& t.assignments == s.assignments
            &&& t.leases == s.leases
            &&& t.frames == s.frames
        }),
{
}

/// A frame waits until it is acknowledged: it is kept at a place of its own, and goes exactly when
/// its connection acknowledges it or a later one.
pub proof fn frames_wait_for_acknowledgement(
    s: ControlState,
    frame: ServerOutboxFrameView,
    now_ms: u64,
    connection_id: Seq<char>,
    through: u64,
)
    requires
        frame.sequence <= i64::MAX,
        now_ms <= i64::MAX,
        forall|i: int|
            0 <= i < s.frames.len() ==> (#[trigger] s.frames[i]).frame.connection_id
                != frame.connection_id || s.frames[i].frame.sequence != frame.sequence,
    ensures
        ({
            let (t, r) = connections::record_frame(s, frame, now_ms);
            let row = OutboxRowView { frame, created_at_ms: now_ms };
            &&& r is Ok
            &&& t.frames == s.frames.push(row)
            &&& t.assignments == s.assignments
            &&& connections::compacted(t.frames, connection_id, through).contains(row) <==> !(
            connection_id == frame.connection_id && frame.sequence <= through)
        }),
{
    let t = connections::record_frame(s, frame, now_ms).0;
    let row = OutboxRowView { frame, created_at_ms: now_ms };
    assert(t.frames[s.frames.len() as int] == row);
    super::laws::compaction_drops_only_acknowledged_frames(t.frames, connection_id, through, row);
}

/// A place of the outbox is used once.
pub proof fn outbox_places_are_used_once(
    s: ControlState,
    frame: ServerOutboxFrameView,
    now_ms: u64,
    i: int,
)
    requires
        0 <= i < s.frames.len(),
        s.frames[i].frame.connection_id == frame.connection_id,
        s.frames[i].frame.sequence == frame.sequence,
    ensures
        connections::record_frame(s, frame, now_ms).0 == s,
        connections::record_frame(s, frame, now_ms).1 is Err,
{
}

/// Sweeping takes the frames of connections that closed before the given time, and no others.
pub proof fn sweeping_takes_frames_of_the_gone(s: ControlState, before_ms: u64, row: OutboxRowView)
    requires
        s.frames.contains(row),
    ensures
        connections::swept(s, before_ms).contains(row) <==> !(s.connections.dom().contains(
            row.frame.connection_id,
        ) && s.connections[row.frame.connection_id].disconnected_at_ms is Some
            && s.connections[row.frame.connection_id].disconnected_at_ms->0 < before_ms),
{
    super::laws::sweeping_spares_recent_connections(s, before_ms, row);
}

/// An attempt that is known is stored again only for the same worker and with the same contract,
/// and never changed by it.
pub proof fn known_attempts_are_stored_once(
    s: ControlState,
    worker_id: Seq<char>,
    contract: AssignmentContractView,
    at_ms: u64,
)
    requires
        s.assignments.dom().contains(contract.attempt_id),
    ensures
        ({
            let (t, r) = assignments::store(s, worker_id, contract, at_ms);
            let known = s.assignments[contract.attempt_id];
            &&& t == s
            &&& known.worker_id == worker_id && known.contract == contract ==> r == Ok::<
                StoreAssignmentOutcome,
                RepositoryErrorView,
            >(StoreAssignmentOutcome::Duplicate)
            &&& known.worker_id != worker_id || known.contract != contract ==> r == Err::<
                StoreAssignmentOutcome,
                RepositoryErrorView,
            >(RepositoryErrorView::ConflictingAttempt(contract.attempt_id))
        }),
{
}

/// A number that cannot be stored is refused wherever it would be, and changes nothing.
pub proof fn unstorable_numbers_are_refused(
    s: ControlState,
    worker_id: Seq<char>,
    contract: AssignmentContractView,
    frame: ServerOutboxFrameView,
    at_ms: u64,
)
    requires
        at_ms > i64::MAX,
        !s.assignments.dom().contains(contract.attempt_id),
    ensures
        assignments::store(s, worker_id, contract, at_ms).0 == s,
        assignments::store(s, worker_id, contract, at_ms).1 is Err,
        connections::record_frame(s, frame, at_ms).0 == s,
        connections::record_frame(s, frame, at_ms).1 is Err,
        connections::record_frame(s, ServerOutboxFrameView { sequence: at_ms, ..frame }, 0).0 == s,
        connections::record_frame(s, ServerOutboxFrameView { sequence: at_ms, ..frame }, 0).1
            is Err,
{
}

/// A delivery whose time, end of lease or counters cannot be stored is not made.
pub proof fn unstorable_deliveries_are_not_made(
    s: ControlState,
    p: AssignmentDeliveryPreparationView,
)
    requires
        p.now_ms + p.lease_duration_ms > i64::MAX || p.frame.sequence > i64::MAX
            || p.last_worker_sequence > i64::MAX || p.last_server_acknowledged_by_worker > i64::MAX,
    ensures
        assignments::deliver(s, p).1 is Err,
        assignments::deliver(s, p).0.frames == s.frames,
{
}

/// A heartbeat leaves an attempt alone that is over, or that waits, or that has no lease.
pub proof fn heartbeats_leave_idle_attempts_alone(
    s: ControlState,
    worker_id: Seq<char>,
    attempt_id: Seq<char>,
    now_ms: u64,
    lease_duration_ms: u64,
)
    requires
        s.assignments.dom().contains(attempt_id),
        s.assignments[attempt_id].worker_id == worker_id,
        !s.leases.dom().contains(attempt_id) || s.assignments[attempt_id].state
            == AttemptState::Finished || s.assignments[attempt_id].state == AttemptState::Rejected
            || s.assignments[attempt_id].state == AttemptState::LeaseExpired
            || s.assignments[attempt_id].state == AttemptState::Cancelled
            || s.assignments[attempt_id].state == AttemptState::Preparing,
    ensures
        attempts::renew_all(s, worker_id, seq![attempt_id], now_ms, lease_duration_ms).0 == s,
        attempts::renew_all(s, worker_id, seq![attempt_id], now_ms, lease_duration_ms).1 is Ok,
{
    let ids = seq![attempt_id];
    let until = attempts::saturating(now_ms, lease_duration_ms);
    assert(attempts::renewals_error(s, worker_id, ids, 0, now_ms, until) is None);
    assert(attempts::renewals_error(s, worker_id, ids, 1, now_ms, until) is None);
    assert(attempts::renew(s, ids, 0, now_ms, until) == s);
    assert(attempts::renew(s, ids, 1, now_ms, until) == s);
}

/// Work is taken over only by an attempt with a name of its own, at a time that can be stored.
pub proof fn successors_are_named(
    s: ControlState,
    expired_id: Seq<char>,
    worker_id: Seq<char>,
    replacement_id: Seq<char>,
    at_ms: u64,
)
    requires
        !s.reassignments.dom().contains(expired_id),
        text::blank(replacement_id) || at_ms > i64::MAX,
    ensures
        assignments::reassign(s, expired_id, worker_id, replacement_id, at_ms).0 == s,
        assignments::reassign(s, expired_id, worker_id, replacement_id, at_ms).1 is Err,
{
}

/// A listing holds the records of the first names, as many as were asked for and no more than there
/// are.
pub proof fn listings_are_cut(s: ControlState, ids: Seq<Seq<char>>, n: int, i: int)
    requires
        n >= 0,
    ensures
        n <= ids.len() ==> assignments::records(s, ids, n).len() == n,
        n > ids.len() ==> assignments::records(s, ids, n).len() == ids.len(),
        0 <= i < assignments::records(s, ids, n).len() ==> assignments::records(s, ids, n)[i]
            == s.assignments[ids[i]],
{
}

} // verus!
