//! What holds of the control repository across its operations.
use super::assignments;
use super::attempts;
use super::connections;
use super::ControlState;
use crate::ordered;
use crate::storage;
use crate::storage::{
    AssignmentContractView, AssignmentDeliveryPreparationView, AttemptState,
    ConnectionRegistrationView, ObservationDisposition, ObservedAttemptView, OutboxRowView, RepositoryErrorView,
    ServerOutboxFrameView, StoreAssignmentOutcome, StoredObservationView, WorkerRegistrationView,
};
use vstd::prelude::*;

verus! {

/// From `s` to `t` no attempt is lost, no contract, worker or admission time changes, and an
/// attempt that has come to its end stays where it ended.
pub open spec fn keeps_attempts(s: ControlState, t: ControlState) -> bool {
    forall|k: Seq<char>| #[trigger]
        s.assignments.dom().contains(k) ==> {
            &&& t.assignments.dom().contains(k)
            &&& t.assignments[k].contract == s.assignments[k].contract
            &&& t.assignments[k].worker_id == s.assignments[k].worker_id
            &&& t.assignments[k].created_at_ms == s.assignments[k].created_at_ms
            &&& s.assignments[k].state.terminal() ==> t.assignments[k].state
                == s.assignments[k].state
        }
}

/// Admission keeps every attempt.
pub proof fn admission_keeps_attempts(
    s: ControlState,
    worker_id: Seq<char>,
    contract: AssignmentContractView,
    at_ms: u64,
)
    ensures
        keeps_attempts(s, assignments::store(s, worker_id, contract, at_ms).0),
{
}

/// Releasing and deferring a preparation keep every attempt.
pub proof fn preparation_keeps_attempts(
    s: ControlState,
    attempt_id: Seq<char>,
    worker_id: Seq<char>,
    at_ms: u64,
)
    ensures
        keeps_attempts(s, assignments::release(s, attempt_id, worker_id, at_ms).0),
        keeps_attempts(s, assignments::defer(s, attempt_id, worker_id, at_ms).0),
{
}

/// Reassignment keeps every attempt, the expired one too.
pub proof fn reassignment_keeps_attempts(
    s: ControlState,
    expired_id: Seq<char>,
    worker_id: Seq<char>,
    replacement_id: Seq<char>,
    at_ms: u64,
)
    ensures
        keeps_attempts(s, assignments::reassign(s, expired_id, worker_id, replacement_id, at_ms).0),
{
}

/// Delivery keeps every attempt.
pub proof fn delivery_keeps_attempts(s: ControlState, p: AssignmentDeliveryPreparationView)
    ensures
        keeps_attempts(s, assignments::deliver(s, p).0),
{
}

/// A worker report keeps every attempt: a late one revives nothing.
pub proof fn observation_keeps_attempts(s: ControlState, o: ObservedAttemptView)
    ensures
        keeps_attempts(s, attempts::observe(s, o).0),
{
}

/// Cancellation keeps every attempt: it revives no expired work.
pub proof fn cancellation_keeps_attempts(
    s: ControlState,
    attempt_id: Seq<char>,
    reason: Seq<char>,
    now_ms: u64,
)
    ensures
        keeps_attempts(s, attempts::cancel(s, attempt_id, reason, now_ms).0),
{
}

/// Expiry keeps every attempt.
pub proof fn expiry_keeps_attempts(s: ControlState, now_ms: u64)
    ensures
        keeps_attempts(s, attempts::expire_due(s, now_ms)),
{
}

proof fn renewals_keep_attempts(
    s: ControlState,
    attempt_ids: Seq<Seq<char>>,
    n: nat,
    now_ms: u64,
    until_ms: u64,
)
    ensures
        keeps_attempts(s, attempts::renew(s, attempt_ids, n, now_ms, until_ms)),
    decreases n,
{
    if n > 0 {
        let m = (n - 1) as nat;
        renewals_keep_attempts(s, attempt_ids, m, now_ms, until_ms);
        let t = attempts::renew(s, attempt_ids, m, now_ms, until_ms);
        let u = attempts::renew_one(t, attempt_ids[n - 1], now_ms, until_ms);
        assert(keeps_attempts(t, u));
        assert forall|k: Seq<char>| #[trigger] s.assignments.dom().contains(k) implies {
            &&& u.assignments.dom().contains(k)
            &&& u.assignments[k].contract == s.assignments[k].contract
            &&& u.assignments[k].worker_id == s.assignments[k].worker_id
            &&& u.assignments[k].created_at_ms == s.assignments[k].created_at_ms
            &&& s.assignments[k].state.terminal() ==> u.assignments[k].state
                == s.assignments[k].state
        } by {
            assert(t.assignments.dom().contains(k));
        }
    }
}

/// A heartbeat keeps every attempt: it revives no lease that has run out.
pub proof fn heartbeat_keeps_attempts(
    s: ControlState,
    worker_id: Seq<char>,
    attempt_ids: Seq<Seq<char>>,
    now_ms: u64,
    lease_duration_ms: u64,
)
    ensures
        keeps_attempts(
            s,
            attempts::renew_all(s, worker_id, attempt_ids, now_ms, lease_duration_ms).0,
        ),
{
    renewals_keep_attempts(
        s,
        attempt_ids,
        attempt_ids.len(),
        now_ms,
        attempts::saturating(now_ms, lease_duration_ms),
    );
}

/// Admitting an attempt again changes nothing and is answered as a repetition.
pub proof fn admission_is_idempotent(
    s: ControlState,
    worker_id: Seq<char>,
    contract: AssignmentContractView,
    first_ms: u64,
    again_ms: u64,
)
    requires
        assignments::store(s, worker_id, contract, first_ms).1 is Ok,
    ensures
        ({
            let t = assignments::store(s, worker_id, contract, first_ms).0;
            assignments::store(t, worker_id, contract, again_ms) == (
                t,
                Ok::<StoreAssignmentOutcome, RepositoryErrorView>(
                    StoreAssignmentOutcome::Duplicate,
                ),
            )
        }),
{
}

/// A known attempt with other content, or for another worker, is refused and nothing changes.
pub proof fn changed_contracts_conflict(
    s: ControlState,
    worker_id: Seq<char>,
    contract: AssignmentContractView,
    at_ms: u64,
)
    requires
        s.assignments.dom().contains(contract.attempt_id),
        s.assignments[contract.attempt_id].contract != contract
            || s.assignments[contract.attempt_id].worker_id != worker_id,
    ensures
        assignments::store(s, worker_id, contract, at_ms) == (
            s,
            Err::<StoreAssignmentOutcome, _>(
                RepositoryErrorView::ConflictingAttempt(contract.attempt_id),
            ),
        ),
{
}

/// Taking over an expired attempt again gives the same replacement and changes nothing; the
/// replacement counts one attempt more, and the expired attempt is left as it was.
pub proof fn reassignment_is_idempotent(
    s: ControlState,
    expired_id: Seq<char>,
    worker_id: Seq<char>,
    replacement_id: Seq<char>,
    first_ms: u64,
    again_ms: u64,
)
    requires
        !s.reassignments.dom().contains(expired_id),
        assignments::reassign(s, expired_id, worker_id, replacement_id, first_ms).1 is Ok,
    ensures
        ({
            let (t, first) = assignments::reassign(
                s,
                expired_id,
                worker_id,
                replacement_id,
                first_ms,
            );
            let (u, again) = assignments::reassign(
                t,
                expired_id,
                worker_id,
                replacement_id,
                again_ms,
            );
            &&& u == t
            &&& again is Ok
            &&& again->Ok_0.outcome == StoreAssignmentOutcome::Duplicate
            &&& again->Ok_0.assignment == first->Ok_0.assignment
            &&& first->Ok_0.assignment.contract.attempt_number == assignments::next_number(
                s.assignments[expired_id].contract.attempt_number,
            )
            &&& t.assignments[expired_id] == s.assignments[expired_id]
        }),
{
}

/// A refused delivery leaves no trace, but that a lease found to have run out expires its attempt.
pub proof fn refused_delivery_leaves_no_trace(s: ControlState, p: AssignmentDeliveryPreparationView)
    requires
        assignments::deliver(s, p).1 is Err,
    ensures
        assignments::deliver(s, p).0 == s || assignments::deliver(s, p).0 == super::expire(
            s,
            p.frame.attempt_id->0,
            p.now_ms,
        ),
        assignments::deliver(s, p).0.frames == s.frames,
        assignments::deliver(s, p).0.connections == s.connections,
{
}

/// A delivered attempt has a lease that runs for the given time, and its frame waits for an
/// acknowledgement.
pub proof fn delivery_grants_a_lease(s: ControlState, p: AssignmentDeliveryPreparationView)
    requires
        assignments::deliver(s, p).1 is Ok,
    ensures
        ({
            let t = assignments::deliver(s, p).0;
            let id = p.frame.attempt_id->0;
            &&& t.leases.dom().contains(id)
            &&& t.leases[id].expires_at_ms == attempts::saturating(p.now_ms, p.lease_duration_ms)
            &&& t.leases[id].expired_at_ms is None
            &&& t.assignments[id].state.held()
            &&& assignments::occupied(t.frames, p.frame.connection_id, p.frame.sequence)
        }),
{
    let t = assignments::deliver(s, p).0;
    let row = t.frames[t.frames.len() - 1];
    assert(row.frame.connection_id == p.frame.connection_id);
}

/// Deferring one preparation behind another's time lists it behind the other.
pub proof fn deferral_rotates(s: ControlState, a: Seq<char>, b: Seq<char>, worker_id: Seq<char>, at_ms: u64)
    requires
        a != b,
        assignments::preparing_times(s).dom().contains(b),
        assignments::deferrable(s, a, worker_id),
        storage::storable(at_ms),
        s.assignments[b].updated_at_ms < at_ms,
    ensures
        ({
            let t = assignments::defer(s, a, worker_id, at_ms).0;
            let times = assignments::preparing_times(t);
            &&& times.dom().contains(a)
            &&& times.dom().contains(b)
            &&& crate::agenda::earlier(times, b, a)
            &&& !crate::agenda::earlier(times, a, b)
        }),
{
}

/// A cumulative acknowledgement drops exactly the frames of its connection that it reaches.
pub proof fn compaction_drops_only_acknowledged_frames(
    frames: Seq<OutboxRowView>,
    connection_id: Seq<char>,
    through: u64,
    row: OutboxRowView,
)
    ensures
        connections::compacted(frames, connection_id, through).contains(row) <==> frames.contains(
            row,
        ) && connections::unacknowledged(row, connection_id, through),
{
    ordered::kept_members(
        frames,
        |r: OutboxRowView| connections::unacknowledged(r, connection_id, through),
        row,
    );
}

/// Frames of open connections, and of those closed at or behind the cutoff, are never swept.
pub proof fn sweeping_spares_recent_connections(
    s: ControlState,
    before_ms: u64,
    row: OutboxRowView,
)
    ensures
        connections::swept(s, before_ms).contains(row) <==> s.frames.contains(row)
            && !connections::orphaned(s, row, before_ms),
{
    ordered::kept_members(s.frames, |r: OutboxRowView| !connections::orphaned(s, r, before_ms), row);
}

/// The attempt has never been sent, or was cancelled before it was.
pub open spec fn unsent(state: AttemptState) -> bool {
    ||| state == AttemptState::Preparing
    ||| state == AttemptState::Dispatchable
    ||| state == AttemptState::Cancelled
}

/// What holds of every repository that operations have built: rows stand under their own
/// identities, exactly the attempts that were sent have leases and each lease is its worker's,
/// every finished attempt has its end on record, an outbox place is taken once, and only expired
/// attempts have successors.
pub open spec fn sound(s: ControlState) -> bool {
    &&& forall|k: Seq<char>| #[trigger]
        s.assignments.dom().contains(k) ==> s.assignments[k].contract.attempt_id == k && (
        s.leases.dom().contains(k) <==> !unsent(s.assignments[k].state))
    &&& forall|k: Seq<char>| #[trigger]
        s.leases.dom().contains(k) ==> s.leases[k].attempt_id == k && s.assignments.dom().contains(k)
            && s.leases[k].worker_id == s.assignments[k].worker_id
    &&& forall|k: Seq<char>| #[trigger]
        s.assignments.dom().contains(k) && s.assignments[k].state == AttemptState::Finished
            ==> attempts::last_finished(s.observations, k) is Some
    &&& forall|i: int, j: int|
        0 <= i < j < s.frames.len() ==> (#[trigger] s.frames[i]).frame.connection_id != (
        #[trigger] s.frames[j]).frame.connection_id || s.frames[i].frame.sequence
            != s.frames[j].frame.sequence
    &&& forall|k: Seq<char>| #[trigger]
        s.reassignments.dom().contains(k) ==> s.assignments.dom().contains(k)
            && s.assignments[k].state == AttemptState::LeaseExpired && s.assignments.dom().contains(
            s.reassignments[k].attempt_id,
        )
}

/// An empty repository is sound.
pub proof fn empty_is_sound()
    ensures
        sound(super::empty_state()),
{
}

proof fn one_more_observation(
    observations: Seq<StoredObservationView>,
    row: StoredObservationView,
    k: Seq<char>,
)
    ensures
        attempts::last_finished(observations, k) is Some ==> attempts::last_finished(
            observations.push(row),
            k,
        ) is Some,
        (row.observation is Finished && row.attempt_id == k) ==> attempts::last_finished(
            observations.push(row),
            k,
        ) is Some,
{
    assert(observations.push(row).drop_last() =~= observations);
    assert(observations.push(row).last() == row);
}

/// Admission keeps the repository sound.
pub proof fn admission_is_sound(
    s: ControlState,
    worker_id: Seq<char>,
    contract: AssignmentContractView,
    at_ms: u64,
)
    requires
        sound(s),
    ensures
        sound(assignments::store(s, worker_id, contract, at_ms).0),
{
}

/// Releasing and deferring keep the repository sound.
pub proof fn preparation_is_sound(
    s: ControlState,
    attempt_id: Seq<char>,
    worker_id: Seq<char>,
    at_ms: u64,
)
    requires
        sound(s),
    ensures
        sound(assignments::release(s, attempt_id, worker_id, at_ms).0),
        sound(assignments::defer(s, attempt_id, worker_id, at_ms).0),
{
}

/// Reassignment keeps the repository sound.
pub proof fn reassignment_is_sound(
    s: ControlState,
    expired_id: Seq<char>,
    worker_id: Seq<char>,
    replacement_id: Seq<char>,
    at_ms: u64,
)
    requires
        sound(s),
    ensures
        sound(assignments::reassign(s, expired_id, worker_id, replacement_id, at_ms).0),
{
}

proof fn expire_is_sound(s: ControlState, attempt_id: Seq<char>, now_ms: u64)
    requires
        sound(s),
    ensures
        sound(super::expire(s, attempt_id, now_ms)),
{
}

/// Delivery keeps the repository sound.
pub proof fn delivery_is_sound(s: ControlState, p: AssignmentDeliveryPreparationView)
    requires
        sound(s),
    ensures
        sound(assignments::deliver(s, p).0),
{
    let t = assignments::deliver(s, p).0;
    if assignments::deliver(s, p).1 is Ok {
        assert forall|i: int, j: int| 0 <= i < j < t.frames.len() implies (
        #[trigger] t.frames[i]).frame.connection_id != (#[trigger] t.frames[j]).frame.connection_id
            || t.frames[i].frame.sequence != t.frames[j].frame.sequence by {
            if j == t.frames.len() - 1 {
                assert(t.frames[i] == s.frames[i]);
            } else {
                assert(t.frames[i] == s.frames[i] && t.frames[j] == s.frames[j]);
            }
        }
    } else if t != s {
        expire_is_sound(s, p.frame.attempt_id->0, p.now_ms);
    }
}

/// A worker report keeps the repository sound.
pub proof fn observation_is_sound(s: ControlState, o: ObservedAttemptView)
    requires
        sound(s),
    ensures
        sound(attempts::observe(s, o).0),
{
    let (t, r) = attempts::observe(s, o);
    if r is Ok {
        let next = attempts::moved(s, o);
        let row = t.observations.last();
        expire_is_sound(s, o.attempt_id, o.observed_at_ms);
        assert forall|k: Seq<char>| #[trigger]
            t.assignments.dom().contains(k) && t.assignments[k].state
                == AttemptState::Finished implies attempts::last_finished(
            t.observations,
            k,
        ) is Some by {
            assert(s.assignments.dom().contains(k));
            one_more_observation(s.observations, row, k);
        }
    }
}

proof fn renew_is_sound(
    s: ControlState,
    attempt_ids: Seq<Seq<char>>,
    n: nat,
    now_ms: u64,
    until_ms: u64,
)
    requires
        sound(s),
    ensures
        sound(attempts::renew(s, attempt_ids, n, now_ms, until_ms)),
    decreases n,
{
    if n > 0 {
        let m = (n - 1) as nat;
        renew_is_sound(s, attempt_ids, m, now_ms, until_ms);
        let t = attempts::renew(s, attempt_ids, m, now_ms, until_ms);
        expire_is_sound(t, attempt_ids[n - 1], now_ms);
    }
}

/// A heartbeat keeps the repository sound.
pub proof fn heartbeat_is_sound(
    s: ControlState,
    worker_id: Seq<char>,
    attempt_ids: Seq<Seq<char>>,
    now_ms: u64,
    lease_duration_ms: u64,
)
    requires
        sound(s),
    ensures
        sound(attempts::renew_all(s, worker_id, attempt_ids, now_ms, lease_duration_ms).0),
{
    renew_is_sound(
        s,
        attempt_ids,
        attempt_ids.len(),
        now_ms,
        attempts::saturating(now_ms, lease_duration_ms),
    );
}

/// Expiry keeps the repository sound.
pub proof fn expiry_is_sound(s: ControlState, now_ms: u64)
    requires
        sound(s),
    ensures
        sound(attempts::expire_due(s, now_ms)),
{
}

/// Cancellation keeps the repository sound.
pub proof fn cancellation_is_sound(
    s: ControlState,
    attempt_id: Seq<char>,
    reason: Seq<char>,
    now_ms: u64,
)
    requires
        sound(s),
    ensures
        sound(attempts::cancel(s, attempt_id, reason, now_ms).0),
{
}

proof fn kept_rows_stay_apart(
    s: Seq<OutboxRowView>,
    keep: spec_fn(OutboxRowView) -> bool,
    i: int,
    j: int,
)
    requires
        forall|i: int, j: int|
            0 <= i < j < s.len() ==> (#[trigger] s[i]).frame.connection_id != (
            #[trigger] s[j]).frame.connection_id || s[i].frame.sequence != s[j].frame.sequence,
        0 <= i < j < ordered::kept(s, keep).len(),
    ensures
        ordered::kept(s, keep)[i].frame.connection_id != ordered::kept(
            s,
            keep,
        )[j].frame.connection_id || ordered::kept(s, keep)[i].frame.sequence != ordered::kept(
            s,
            keep,
        )[j].frame.sequence,
    decreases s.len(),
{
    let rest = s.drop_last();
    let k = ordered::kept(rest, keep);
    assert forall|a: int, b: int| 0 <= a < b < rest.len() implies (
    #[trigger] rest[a]).frame.connection_id != (#[trigger] rest[b]).frame.connection_id
        || rest[a].frame.sequence != rest[b].frame.sequence by {
        assert(rest[a] == s[a] && rest[b] == s[b]);
    }
    if j < k.len() {
        kept_rows_stay_apart(rest, keep, i, j);
    } else {
        ordered::kept_members(rest, keep, k[i]);
        assert(k.contains(k[i]));
        let a = choose|a: int| 0 <= a < rest.len() && rest[a] == k[i];
        assert(s[a] == k[i]);
        assert(s[s.len() - 1] == s.last());
    }
}

/// Recording a frame, counting and compaction keep the repository sound.
pub proof fn frames_are_sound(
    s: ControlState,
    frame: ServerOutboxFrameView,
    connection_id: Seq<char>,
    worker_sequence: u64,
    server_sequence: u64,
    through: u64,
    at_ms: u64,
)
    requires
        sound(s),
    ensures
        sound(connections::record_frame(s, frame, at_ms).0),
        sound(
            connections::update_sequences(
                s,
                connection_id,
                worker_sequence,
                server_sequence,
                through,
                at_ms,
            ).0,
        ),
        sound(
            ControlState {
                frames: connections::compacted(s.frames, connection_id, through),
                ..s
            },
        ),
{
    let t = connections::record_frame(s, frame, at_ms).0;
    if t != s {
        assert forall|i: int, j: int| 0 <= i < j < t.frames.len() implies (
        #[trigger] t.frames[i]).frame.connection_id != (#[trigger] t.frames[j]).frame.connection_id
            || t.frames[i].frame.sequence != t.frames[j].frame.sequence by {
            assert(t.frames[i] == s.frames[i]);
            if j < s.frames.len() {
                assert(t.frames[j] == s.frames[j]);
            }
        }
    }
    let fewer = connections::compacted(s.frames, connection_id, through);
    assert forall|i: int, j: int| 0 <= i < j < fewer.len() implies (
    #[trigger] fewer[i]).frame.connection_id != (#[trigger] fewer[j]).frame.connection_id
        || fewer[i].frame.sequence != fewer[j].frame.sequence by {
        kept_rows_stay_apart(
            s.frames,
            |row: OutboxRowView| connections::unacknowledged(row, connection_id, through),
            i,
            j,
        );
    }
}

/// A registration touches no attempt, so it keeps the repository sound.
pub proof fn registration_is_sound(
    s: ControlState,
    registration: WorkerRegistrationView,
    connection: ConnectionRegistrationView,
)
    requires
        sound(s),
    ensures
        sound(connections::register(s, registration, connection).0),
        keeps_attempts(s, connections::register(s, registration, connection).0),
{
}

/// What keeps attempts in two steps keeps them.
pub proof fn keeping_is_transitive(s: ControlState, t: ControlState, u: ControlState)
    requires
        keeps_attempts(s, t),
        keeps_attempts(t, u),
    ensures
        keeps_attempts(s, u),
{
    assert forall|k: Seq<char>| #[trigger] s.assignments.dom().contains(k) implies {
        &&& u.assignments.dom().contains(k)
        &&& u.assignments[k].contract == s.assignments[k].contract
        &&& u.assignments[k].worker_id == s.assignments[k].worker_id
        &&& u.assignments[k].created_at_ms == s.assignments[k].created_at_ms
        &&& s.assignments[k].state.terminal() ==> u.assignments[k].state
            == s.assignments[k].state
    } by {
        assert(t.assignments.dom().contains(k));
    }
}

/// In a sound repository the end of a finished attempt can always be read.
pub proof fn finished_attempts_have_their_end(s: ControlState, attempt_id: Seq<char>)
    requires
        sound(s),
    ensures
        attempts::finished(s, attempt_id) is Ok,
        (s.assignments.dom().contains(attempt_id) && s.assignments[attempt_id].state
            == AttemptState::Finished) ==> attempts::finished(s, attempt_id)->Ok_0 is Some,
{
}

/// A report of the end that comes once the lease has run out is kept as stale and finishes
/// nothing.
pub proof fn late_results_are_stale(s: ControlState, o: ObservedAttemptView)
    requires
        super::identity_error(s, o.attempt_id, o.worker_id, Some(o.assignment_id)) is None,
        o.observation is Finished,
        s.assignments[o.attempt_id].state == AttemptState::LeaseExpired || (
        s.assignments[o.attempt_id].state.held() && (attempts::lease_expiry(s, o.attempt_id) matches Some(
            expiry,
        ) && expiry <= o.observed_at_ms)),
        storage::storable(o.observed_at_ms),
    ensures
        attempts::observe(s, o).1 == Ok::<ObservationDisposition, RepositoryErrorView>(
            ObservationDisposition::Stale,
        ),
        attempts::observe(s, o).0.assignments[o.attempt_id].state == AttemptState::LeaseExpired,
        attempts::observe(s, o).0.observations.len() == s.observations.len() + 1,
{
}

} // verus!
