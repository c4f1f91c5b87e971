//! Observations, leases and cancellation of attempts.
use super::{ControlRepository, ControlState};
use crate::ordered;
use crate::storage;
use crate::storage::{
    AssignmentRecordView, AttemptObservation, AttemptObservationView, AttemptState,
    CancellationRecord, CancellationRecordView, CancellationStoreOutcome, FinishedObservation,
    FinishedObservationView, LeaseRecordView, ObservationDisposition, ObservedAttempt,
    ObservedAttemptView, RepositoryError, RepositoryErrorView, StoredObservation,
    StoredObservationView,
};
use crate::text;
use vstd::prelude::*;
use vstd::string::*;

verus! {

/// The moves that a worker report makes.
pub open spec fn allowed(from: AttemptState, to: AttemptState) -> bool {
    match (from, to) {
        (AttemptState::Sent, AttemptState::Accepted) => true,
        (AttemptState::Sent, AttemptState::Rejected) => true,
        (AttemptState::Accepted, AttemptState::Running) => true,
        (AttemptState::Accepted, AttemptState::Finished) => true,
        (AttemptState::Running, AttemptState::Finished) => true,
        (AttemptState::CancelRequested, AttemptState::Finished) => true,
        (AttemptState::CancelRequested, AttemptState::Rejected) => true,
        _ => false,
    }
}

pub fn transition_allowed(from: AttemptState, to: AttemptState) -> (r: bool)
    ensures
        r == allowed(from, to),
{
    match (from, to) {
        (AttemptState::Sent, AttemptState::Accepted) => true,
        (AttemptState::Sent, AttemptState::Rejected) => true,
        (AttemptState::Accepted, AttemptState::Running) => true,
        (AttemptState::Accepted, AttemptState::Finished) => true,
        (AttemptState::Running, AttemptState::Finished) => true,
        (AttemptState::CancelRequested, AttemptState::Finished) => true,
        (AttemptState::CancelRequested, AttemptState::Rejected) => true,
        _ => false,
    }
}

/// A report that comes too late to count: the attempt has expired or was rejected, or it ends
/// after its lease ran out.
pub open spec fn late(
    current: AttemptState,
    target: AttemptState,
    lease_expiry: Option<u64>,
    at_ms: u64,
) -> bool {
    ||| current == AttemptState::LeaseExpired
    ||| current == AttemptState::Rejected && target == AttemptState::Finished
    ||| target == AttemptState::Finished && current != AttemptState::Finished && (lease_expiry
        matches Some(expiry) && expiry <= at_ms)
}

/// A report of something that is already known.
pub open spec fn known(current: AttemptState, target: AttemptState) -> bool {
    ||| current == target
    ||| current == AttemptState::Finished
    ||| current == AttemptState::Running && target == AttemptState::Accepted
    ||| current == AttemptState::CancelRequested && target == AttemptState::Accepted
}

/// What becomes of a report.
pub open spec fn disposition(
    current: AttemptState,
    target: Option<AttemptState>,
    lease_expiry: Option<u64>,
    at_ms: u64,
) -> Result<ObservationDisposition, RepositoryErrorView> {
    match target {
        None => match current {
            AttemptState::CancelRequested => Ok(ObservationDisposition::Applied),
            AttemptState::Finished => Ok(ObservationDisposition::Duplicate),
            AttemptState::Cancelled => Ok(ObservationDisposition::Duplicate),
            AttemptState::LeaseExpired => Ok(ObservationDisposition::Stale),
            _ => Err(
                RepositoryErrorView::InvalidTransition {
                    from: current,
                    to: AttemptState::CancelRequested,
                },
            ),
        },
        Some(to) => if late(current, to, lease_expiry, at_ms) {
            Ok(ObservationDisposition::Stale)
        } else if known(current, to) {
            Ok(ObservationDisposition::Duplicate)
        } else if allowed(current, to) {
            Ok(ObservationDisposition::Applied)
        } else {
            Err(RepositoryErrorView::InvalidTransition { from: current, to })
        },
    }
}

fn is_late(
    current: AttemptState,
    target: AttemptState,
    lease_expiry: Option<u64>,
    at_ms: u64,
) -> (r: bool)
    ensures
        r == late(current, target, lease_expiry, at_ms),
{
    let run_out = match lease_expiry {
        Some(expiry) => expiry <= at_ms,
        None => false,
    };
    current == AttemptState::LeaseExpired || (current == AttemptState::Rejected && target
        == AttemptState::Finished) || (target == AttemptState::Finished && current
        != AttemptState::Finished && run_out)
}

/// What becomes of a report, from the state and the lease of its attempt.
pub fn classify_observation(
    current: AttemptState,
    target: Option<AttemptState>,
    lease_expiry: Option<u64>,
    at_ms: u64,
) -> (r: Result<ObservationDisposition, RepositoryError>)
    ensures
        super::seen(r) == disposition(current, target, lease_expiry, at_ms),
{
    match target {
        None => match current {
            AttemptState::CancelRequested => Ok(ObservationDisposition::Applied),
            AttemptState::Finished | AttemptState::Cancelled => Ok(
                ObservationDisposition::Duplicate,
            ),
            AttemptState::LeaseExpired => Ok(ObservationDisposition::Stale),
            _ => Err(
                RepositoryError::InvalidTransition {
                    from: current,
                    to: AttemptState::CancelRequested,
                },
            ),
        },
        Some(to) => {
            if is_late(current, to, lease_expiry, at_ms) {
                Ok(ObservationDisposition::Stale)
            } else if current == to || current == AttemptState::Finished || (current
                == AttemptState::Running && to == AttemptState::Accepted) || (current
                == AttemptState::CancelRequested && to == AttemptState::Accepted) {
                Ok(ObservationDisposition::Duplicate)
            } else if transition_allowed(current, to) {
                Ok(ObservationDisposition::Applied)
            } else {
                Err(RepositoryError::InvalidTransition { from: current, to })
            }
        },
    }
}

/// When the lease of an attempt runs out.
pub open spec fn lease_expiry(s: ControlState, attempt_id: Seq<char>) -> Option<u64> {
    if s.leases.dom().contains(attempt_id) {
        Some(s.leases[attempt_id].expires_at_ms)
    } else {
        None
    }
}

/// The attempt and its lease behind a report that was not refused.
pub open spec fn moved(s: ControlState, o: ObservedAttemptView) -> ControlState {
    let record = s.assignments[o.attempt_id];
    match storage::target(o.observation) {
        None => s,
        Some(to) => if late(
            record.state,
            to,
            lease_expiry(s, o.attempt_id),
            o.observed_at_ms,
        ) {
            super::expire(s, o.attempt_id, o.observed_at_ms)
        } else if known(record.state, to) {
            s
        } else {
            ControlState {
                assignments: s.assignments.insert(
                    o.attempt_id,
                    AssignmentRecordView { state: to, updated_at_ms: o.observed_at_ms, ..record },
                ),
                ..s
            }
        },
    }
}

/// The effect and the answer of a report. A report that is not refused is kept, whatever its
/// disposition; a refused one leaves no trace.
pub open spec fn observe(s: ControlState, o: ObservedAttemptView) -> (
    ControlState,
    Result<ObservationDisposition, RepositoryErrorView>,
) {
    match super::identity_error(s, o.attempt_id, o.worker_id, Some(o.assignment_id)) {
        Some(e) => (s, Err(e)),
        None => match disposition(
            s.assignments[o.attempt_id].state,
            storage::target(o.observation),
            lease_expiry(s, o.attempt_id),
            o.observed_at_ms,
        ) {
            Err(e) => (s, Err(e)),
            Ok(d) => if !storage::storable(o.observed_at_ms) {
                (s, Err(storage::out_of_range(o.observed_at_ms)))
            } else {
                let next = moved(s, o);
                (
                    ControlState {
                        observations: next.observations.push(
                            StoredObservationView {
                                attempt_id: o.attempt_id,
                                worker_id: o.worker_id,
                                observed_at_ms: o.observed_at_ms,
                                disposition: d,
                                observation: o.observation,
                            },
                        ),
                        ..next
                    },
                    Ok(d),
                )
            },
        },
    }
}

/// How many observations concern an attempt.
pub open spec fn observed(observations: Seq<StoredObservationView>, attempt_id: Seq<char>) -> nat {
    ordered::kept(observations, |row: StoredObservationView| row.attempt_id == attempt_id).len()
}

/// The latest report of the end of an attempt.
pub open spec fn last_finished(
    observations: Seq<StoredObservationView>,
    attempt_id: Seq<char>,
) -> Option<FinishedObservationView>
    decreases observations.len(),
{
    if observations.len() == 0 {
        None
    } else {
        let last = observations.last();
        match last.observation {
            AttemptObservationView::Finished(finished) => if last.attempt_id == attempt_id {
                Some(finished)
            } else {
                last_finished(observations.drop_last(), attempt_id)
            },
            _ => last_finished(observations.drop_last(), attempt_id),
        }
    }
}

/// What is known of the end of an attempt.
pub open spec fn finished(s: ControlState, attempt_id: Seq<char>) -> Result<
    Option<FinishedObservationView>,
    RepositoryErrorView,
> {
    if s.assignments.dom().contains(attempt_id) && s.assignments[attempt_id].state
        == AttemptState::Finished {
        match last_finished(s.observations, attempt_id) {
            Some(f) => Ok(Some(f)),
            None => Err(
                RepositoryErrorView::Corrupt(
                    "finished attempt "@ + attempt_id + " has no terminal observation"@,
                ),
            ),
        }
    } else {
        Ok(None)
    }
}

/// The lease of one attempt that its worker still reports.
pub open spec fn renew_one(
    s: ControlState,
    attempt_id: Seq<char>,
    now_ms: u64,
    until_ms: u64,
) -> ControlState {
    if !s.assignments.dom().contains(attempt_id) || !s.assignments[attempt_id].state.replayable()
        || !s.leases.dom().contains(attempt_id) {
        s
    } else {
        let lease = s.leases[attempt_id];
        if lease.expired_at_ms is Some || lease.expires_at_ms <= now_ms {
            super::expire(s, attempt_id, now_ms)
        } else {
            ControlState {
                leases: s.leases.insert(
                    attempt_id,
                    LeaseRecordView { renewed_at_ms: now_ms, expires_at_ms: until_ms, ..lease },
                ),
                ..s
            }
        }
    }
}

/// The leases of the first `n` reported attempts.
pub open spec fn renew(
    s: ControlState,
    attempt_ids: Seq<Seq<char>>,
    n: nat,
    now_ms: u64,
    until_ms: u64,
) -> ControlState
    decreases n,
{
    if n == 0 {
        s
    } else {
        renew_one(
            renew(s, attempt_ids, (n - 1) as nat, now_ms, until_ms),
            attempt_ids[n - 1],
            now_ms,
            until_ms,
        )
    }
}

/// Why the lease of a reported attempt cannot be renewed.
pub open spec fn renewal_error(
    s: ControlState,
    worker_id: Seq<char>,
    attempt_id: Seq<char>,
    now_ms: u64,
    until_ms: u64,
) -> Option<RepositoryErrorView> {
    match super::identity_error(s, attempt_id, worker_id, None) {
        Some(e) => Some(e),
        None => if !s.assignments[attempt_id].state.replayable() || !s.leases.dom().contains(
            attempt_id,
        ) {
            None
        } else if !storage::storable(now_ms) {
            Some(storage::out_of_range(now_ms))
        } else if s.leases[attempt_id].expired_at_ms is None && s.leases[attempt_id].expires_at_ms
            > now_ms && !storage::storable(until_ms) {
            Some(storage::out_of_range(until_ms))
        } else {
            None
        },
    }
}

/// The first refusal among the first `n` reported attempts.
pub open spec fn renewals_error(
    s: ControlState,
    worker_id: Seq<char>,
    attempt_ids: Seq<Seq<char>>,
    n: nat,
    now_ms: u64,
    until_ms: u64,
) -> Option<RepositoryErrorView>
    decreases n,
{
    if n == 0 {
        None
    } else {
        match renewals_error(s, worker_id, attempt_ids, (n - 1) as nat, now_ms, until_ms) {
            Some(e) => Some(e),
            None => renewal_error(s, worker_id, attempt_ids[n - 1], now_ms, until_ms),
        }
    }
}

proof fn first_renewal_error_stays(
    s: ControlState,
    worker_id: Seq<char>,
    attempt_ids: Seq<Seq<char>>,
    n: nat,
    m: nat,
    now_ms: u64,
    until_ms: u64,
)
    requires
        n <= m,
        renewals_error(s, worker_id, attempt_ids, n, now_ms, until_ms) is Some,
    ensures
        renewals_error(s, worker_id, attempt_ids, m, now_ms, until_ms) == renewals_error(
            s,
            worker_id,
            attempt_ids,
            n,
            now_ms,
            until_ms,
        ),
    decreases m,
{
    if n < m {
        first_renewal_error_stays(
            s,
            worker_id,
            attempt_ids,
            n,
            (m - 1) as nat,
            now_ms,
            until_ms,
        );
    }
}

/// `a` and `b` added up, at most the largest number.
pub open spec fn saturating(a: u64, b: u64) -> u64 {
    if a + b > u64::MAX {
        u64::MAX
    } else {
        (a + b) as u64
    }
}

/// The effect and the answer of a heartbeat that reports some attempts: all leases are renewed, or
/// none is touched.
pub open spec fn renew_all(
    s: ControlState,
    worker_id: Seq<char>,
    attempt_ids: Seq<Seq<char>>,
    now_ms: u64,
    lease_duration_ms: u64,
) -> (ControlState, Result<(), RepositoryErrorView>) {
    let until = saturating(now_ms, lease_duration_ms);
    match renewals_error(s, worker_id, attempt_ids, attempt_ids.len(), now_ms, until) {
        Some(e) => (s, Err(e)),
        None => (renew(s, attempt_ids, attempt_ids.len(), now_ms, until), Ok(())),
    }
}

/// The lease of the attempt has run out and nobody has said so yet.
pub open spec fn due(s: ControlState, attempt_id: Seq<char>, now_ms: u64) -> bool {
    &&& s.leases.dom().contains(attempt_id)
    &&& s.leases[attempt_id].expired_at_ms is None
    &&& s.leases[attempt_id].expires_at_ms <= now_ms
    &&& s.assignments.dom().contains(attempt_id)
    &&& s.assignments[attempt_id].state.held()
}

/// The repository once the leases of the attempts in `gone` have run out.
pub open spec fn expire_set(s: ControlState, gone: Set<Seq<char>>, now_ms: u64) -> ControlState {
    ControlState {
        leases: Map::new(
            |k: Seq<char>| s.leases.dom().contains(k),
            |k: Seq<char>|
                if gone.contains(k) {
                    LeaseRecordView { expired_at_ms: Some(now_ms), ..s.leases[k] }
                } else {
                    s.leases[k]
                },
        ),
        assignments: Map::new(
            |k: Seq<char>| s.assignments.dom().contains(k),
            |k: Seq<char>|
                if gone.contains(k) {
                    AssignmentRecordView {
                        state: AttemptState::LeaseExpired,
                        updated_at_ms: now_ms,
                        ..s.assignments[k]
                    }
                } else {
                    s.assignments[k]
                },
        ),
        ..s
    }
}

/// Every attempt whose lease has run out expires, and no other.
pub open spec fn expire_due(s: ControlState, now_ms: u64) -> ControlState {
    expire_set(s, Set::new(|k: Seq<char>| due(s, k, now_ms)), now_ms)
}

proof fn expire_set_grows(s: ControlState, gone: Set<Seq<char>>, k: Seq<char>, now_ms: u64)
    requires
        due(s, k, now_ms),
        !gone.contains(k),
    ensures
        super::expire(expire_set(s, gone, now_ms), k, now_ms) == expire_set(s, gone.insert(k), now_ms),
{
    let a = super::expire(expire_set(s, gone, now_ms), k, now_ms);
    let b = expire_set(s, gone.insert(k), now_ms);
    assert(a.leases =~= b.leases);
    assert(a.assignments =~= b.assignments);
}

/// What a cancellation does with an attempt in the given state.
pub open spec fn cancelled(state: AttemptState) -> (AttemptState, CancellationStoreOutcome) {
    match state {
        AttemptState::Preparing => (
            AttemptState::Cancelled,
            CancellationStoreOutcome::CancelledBeforeSend,
        ),
        AttemptState::Dispatchable => (
            AttemptState::Cancelled,
            CancellationStoreOutcome::CancelledBeforeSend,
        ),
        AttemptState::Sent => (AttemptState::CancelRequested, CancellationStoreOutcome::Requested),
        AttemptState::Accepted => (
            AttemptState::CancelRequested,
            CancellationStoreOutcome::Requested,
        ),
        AttemptState::Running => (
            AttemptState::CancelRequested,
            CancellationStoreOutcome::Requested,
        ),
        AttemptState::CancelRequested => (
            AttemptState::CancelRequested,
            CancellationStoreOutcome::Duplicate,
        ),
        _ => (state, CancellationStoreOutcome::AlreadyTerminal),
    }
}

/// The effect and the answer of a cancellation request.
pub open spec fn cancel(s: ControlState, attempt_id: Seq<char>, reason: Seq<char>, now_ms: u64) -> (
    ControlState,
    Result<CancellationRecordView, RepositoryErrorView>,
) {
    if !s.assignments.dom().contains(attempt_id) {
        (s, Err(RepositoryErrorView::NotFound(attempt_id)))
    } else {
        let record = s.assignments[attempt_id];
        let (next, outcome) = cancelled(record.state);
        let answer = CancellationRecordView { worker_id: record.worker_id, outcome };
        if outcome == CancellationStoreOutcome::AlreadyTerminal {
            (s, Ok(answer))
        } else if !storage::storable(now_ms) {
            (s, Err(storage::out_of_range(now_ms)))
        } else {
            (
                ControlState {
                    assignments: s.assignments.insert(
                        attempt_id,
                        AssignmentRecordView {
                            state: next,
                            updated_at_ms: now_ms,
                            cancellation_reason: Some(reason),
                            ..record
                        },
                    ),
                    ..s
                },
                Ok(answer),
            )
        }
    }
}

/// What a cancellation does with an attempt in the given state.
pub fn cancel_state(state: AttemptState) -> (r: (AttemptState, CancellationStoreOutcome))
    ensures
        r == cancelled(state),
{
    match state {
        AttemptState::Preparing | AttemptState::Dispatchable => (
            AttemptState::Cancelled,
            CancellationStoreOutcome::CancelledBeforeSend,
        ),
        AttemptState::Sent | AttemptState::Accepted | AttemptState::Running => (
            AttemptState::CancelRequested,
            CancellationStoreOutcome::Requested,
        ),
        AttemptState::CancelRequested => (
            AttemptState::CancelRequested,
            CancellationStoreOutcome::Duplicate,
        ),
        AttemptState::Finished | AttemptState::Rejected | AttemptState::LeaseExpired
        | AttemptState::Cancelled => (state, CancellationStoreOutcome::AlreadyTerminal),
    }
}

/// The view of a cancellation answer.
pub open spec fn cancellation_seen(r: Result<CancellationRecord, RepositoryError>) -> Result<
    CancellationRecordView,
    RepositoryErrorView,
> {
    match r {
        Ok(record) => Ok(record@),
        Err(e) => Err(e@),
    }
}

/// The view of a finished answer.
pub open spec fn finished_seen(r: Result<Option<FinishedObservation>, RepositoryError>) -> Result<
    Option<FinishedObservationView>,
    RepositoryErrorView,
> {
    match r {
        Ok(Some(f)) => Ok(Some(f@)),
        Ok(None) => Ok(None),
        Err(e) => Err(e@),
    }
}

impl ControlRepository {
    /// Takes in one worker report.
    pub fn observe_attempt(&mut self, observation: &ObservedAttempt) -> (r: Result<
        ObservationDisposition,
        RepositoryError,
    >)
        ensures
            (final(self)@, super::seen(r)) == observe(old(self)@, observation@),
    {
        let attempt_id = observation.attempt_id.as_str();
        let current = match self.identify(
            attempt_id,
            observation.worker_id.as_str(),
            Some(observation.assignment_id.as_str()),
        ) {
            Ok(record) => record.state,
            Err(error) => {
                return Err(error);
            },
        };
        let expiry = match self.lease(attempt_id) {
            Some(lease) => Some(lease.expires_at_ms),
            None => None,
        };
        let target = observation.observation.target_state();
        let at_ms = observation.observed_at_ms;
        let judged = match classify_observation(current, target, expiry, at_ms) {
            Ok(judged) => judged,
            Err(error) => {
                return Err(error);
            },
        };
        match storage::to_i64(at_ms) {
            Ok(_) => {},
            Err(error) => {
                return Err(error);
            },
        }
        match target {
            None => {},
            Some(to) => {
                if is_late(current, to, expiry, at_ms) {
                    self.expire_one(attempt_id, at_ms);
                } else if judged == ObservationDisposition::Applied {
                    match self.assignments.get(attempt_id) {
                        Some(record) => {
                            let mut record = record.clone();
                            record.state = to;
                            record.updated_at_ms = at_ms;
                            self.put_assignment(attempt_id, record);
                        },
                        None => {},
                    }
                }
            },
        }
        let ghost next = self@;
        let row = StoredObservation {
            attempt_id: observation.attempt_id.clone(),
            worker_id: observation.worker_id.clone(),
            observed_at_ms: at_ms,
            disposition: judged,
            observation: observation.observation.clone(),
        };
        self.observations.push(row);
        assert(self@.observations =~= next.observations.push(row@));
        Ok(judged)
    }

    /// The number of observations that are recorded of an attempt, whatever became of them.
    pub fn observation_count(&self, attempt_id: &str) -> (r: usize)
        ensures
            r == observed(self@.observations, attempt_id@),
    {
        let ghost rows = self@.observations;
        let ghost keep = |row: StoredObservationView| row.attempt_id == attempt_id@;
        let mut count: usize = 0;
        let mut i: usize = 0;
        assert(ordered::kept(rows.take(0), keep).len() == 0);
        while i < self.observations.len()
            invariant
                i <= self.observations@.len(),
                rows == self@.observations,
                rows.len() == self.observations@.len(),
                keep == (|row: StoredObservationView| row.attempt_id == attempt_id@),
                count == ordered::kept(rows.take(i as int), keep).len(),
                count <= i,
            decreases self.observations@.len() - i,
        {
            let row = &self.observations[i];
            let ghost longer = rows.take(i + 1);
            assert(longer.last() == row@);
            assert(longer.drop_last() =~= rows.take(i as int));
            if text::same(row.attempt_id.as_str(), attempt_id) {
                count += 1;
            }
            i += 1;
        }
        assert(rows.take(rows.len() as int) =~= rows);
        count
    }

    /// What the worker reported of the end of a finished attempt.
    pub fn finished_observation(&self, attempt_id: &str) -> (r: Result<
        Option<FinishedObservation>,
        RepositoryError,
    >)
        ensures
            finished_seen(r) == finished(self@, attempt_id@),
    {
        let ended = match self.assignments.get(attempt_id) {
            Some(record) => record.state == AttemptState::Finished,
            None => false,
        };
        if !ended {
            return Ok(None);
        }
        let ghost all = self@.observations;
        let mut i: usize = self.observations.len();
        assert(all.take(i as int) =~= all);
        while i > 0
            invariant
                i <= self.observations@.len(),
                all == self@.observations,
                all.len() == self.observations@.len(),
                self@.assignments.dom().contains(attempt_id@),
                self@.assignments[attempt_id@].state == AttemptState::Finished,
                last_finished(all, attempt_id@) == last_finished(
                    all.take(i as int),
                    attempt_id@,
                ),
            decreases i,
        {
            i -= 1;
            let row = &self.observations[i];
            proof {
                let longer = all.take(i + 1);
                assert(longer.last() == row@);
                assert(longer.drop_last() =~= all.take(i as int));
            }
            if let AttemptObservation::Finished(finished) = &row.observation {
                if text::same(row.attempt_id.as_str(), attempt_id) {
                    return Ok(Some(finished.clone()));
                }
            }
        }
        Err(
            RepositoryError::Corrupt(
                text::enclosed("finished attempt ", attempt_id, " has no terminal observation"),
            ),
        )
    }

    fn renew_lease(&mut self, attempt_id: &str, now_ms: u64, until_ms: u64)
        ensures
            final(self)@ == renew_one(old(self)@, attempt_id@, now_ms, until_ms),
    {
        let replayable = match self.assignments.get(attempt_id) {
            Some(record) => record.state.is_replayable(),
            None => false,
        };
        if !replayable {
            return ;
        }
        let renewed = match self.leases.get(attempt_id) {
            None => {
                return ;
            },
            Some(lease) => {
                if lease.expired_at_ms.is_some() || lease.expires_at_ms <= now_ms {
                    None
                } else {
                    let mut lease = lease.clone();
                    lease.renewed_at_ms = now_ms;
                    lease.expires_at_ms = until_ms;
                    Some(lease)
                }
            },
        };
        match renewed {
            Some(lease) => self.put_lease(attempt_id, lease),
            None => self.expire_one(attempt_id, now_ms),
        }
    }

    fn check_renewal(&self, worker_id: &str, attempt_id: &str, now_ms: u64, until_ms: u64) -> (r:
        Result<(), RepositoryError>)
        ensures
            match renewal_error(self@, worker_id@, attempt_id@, now_ms, until_ms) {
                Some(e) => r matches Err(error) && error@ == e,
                None => r is Ok,
            },
    {
        let replayable = match self.identify(attempt_id, worker_id, None) {
            Ok(record) => record.state.is_replayable(),
            Err(error) => {
                return Err(error);
            },
        };
        if !replayable {
            return Ok(());
        }
        match self.leases.get(attempt_id) {
            None => Ok(()),
            Some(lease) => {
                match storage::to_i64(now_ms) {
                    Ok(_) => {},
                    Err(error) => {
                        return Err(error);
                    },
                }
                if lease.expired_at_ms.is_none() && lease.expires_at_ms > now_ms {
                    match storage::to_i64(until_ms) {
                        Ok(_) => Ok(()),
                        Err(error) => Err(error),
                    }
                } else {
                    Ok(())
                }
            },
        }
    }

    /// Renews the leases of the attempts that a worker reports; one that has run out expires.
    pub fn renew_active_leases(
        &mut self,
        worker_id: &str,
        attempt_ids: &Vec<String>,
        now_ms: u64,
        lease_duration_ms: u64,
    ) -> (r: Result<(), RepositoryError>)
        ensures
            (final(self)@, super::seen(r)) == renew_all(
                old(self)@,
                worker_id@,
                text::views(attempt_ids@),
                now_ms,
                lease_duration_ms,
            ),
    {
        let ghost s = self@;
        let ghost ids = text::views(attempt_ids@);
        let until_ms = now_ms.saturating_add(lease_duration_ms);
        let mut i: usize = 0;
        while i < attempt_ids.len()
            invariant
                i <= attempt_ids@.len(),
                self@ == s,
                ids == text::views(attempt_ids@),
                renewals_error(s, worker_id@, ids, i as nat, now_ms, until_ms) is None,
                until_ms == saturating(now_ms, lease_duration_ms),
                *old(self) == *self,
                s == old(self)@,
            decreases attempt_ids@.len() - i,
        {
            let checked = self.check_renewal(
                worker_id,
                attempt_ids[i].as_str(),
                now_ms,
                until_ms,
            );
            assert(ids[i as int] == attempt_ids@[i as int]@);
            if checked.is_err() {
                proof {
                    first_renewal_error_stays(
                        s,
                        worker_id@,
                        ids,
                        (i + 1) as nat,
                        ids.len(),
                        now_ms,
                        until_ms,
                    );
                }
                return checked;
            }
            i += 1;
        }
        let mut k: usize = 0;
        while k < attempt_ids.len()
            invariant
                k <= attempt_ids@.len(),
                ids == text::views(attempt_ids@),
                self@ == renew(s, ids, k as nat, now_ms, until_ms),
            decreases attempt_ids@.len() - k,
        {
            assert(ids[k as int] == attempt_ids@[k as int]@);
            self.renew_lease(attempt_ids[k].as_str(), now_ms, until_ms);
            k += 1;
        }
        Ok(())
    }

    fn is_due(&self, attempt_id: &str, now_ms: u64) -> (r: bool)
        ensures
            r == due(self@, attempt_id@, now_ms),
    {
        let run_out = match self.leases.get(attempt_id) {
            Some(lease) => lease.expired_at_ms.is_none() && lease.expires_at_ms <= now_ms,
            None => false,
        };
        run_out && match self.assignments.get(attempt_id) {
            Some(record) => record.state.is_held(),
            None => false,
        }
    }

    /// Expires every attempt whose lease has run out and names them in order.
    pub fn expire_leases(&mut self, now_ms: u64) -> (r: Result<Vec<String>, RepositoryError>)
        ensures
            !storage::storable(now_ms) ==> final(self)@ == old(self)@ && (r matches Err(e) && e@
                == storage::out_of_range(now_ms)),
            storage::storable(now_ms) ==> {
                &&& final(self)@ == expire_due(old(self)@, now_ms)
                &&& r matches Ok(ids) && ordered::increasing(text::views(ids@)) && forall|
                    k: Seq<char>,
                | #[trigger] text::views(ids@).contains(k) <==> due(old(self)@, k, now_ms)
            },
    {
        match storage::to_i64(now_ms) {
            Ok(_) => {},
            Err(error) => {
                return Err(error);
            },
        }
        let ghost s = self@;
        let n = self.leases.len();
        let ghost keys = self.leases.keys();
        let mut ids: Vec<String> = Vec::new();
        let mut i: usize = 0;
        while i < n
            invariant
                i <= n,
                n == keys.len(),
                keys == self.leases.keys(),
                self@ == s,
                *self == *old(self),
                ordered::lists(self.leases@, keys),
                ordered::increasing(text::views(ids@)),
                forall|k: int|
                    0 <= k < ids@.len() ==> keys.take(i as int).contains(
                        #[trigger] text::views(ids@)[k],
                    ) && due(s, text::views(ids@)[k], now_ms),
                forall|j: int|
                    0 <= j < i && due(s, #[trigger] keys[j], now_ms) ==> text::views(
                        ids@,
                    ).contains(keys[j]),
            decreases n - i,
        {
            let key = self.leases.key_at(i);
            let ghost before = text::views(ids@);
            let is_due = self.is_due(key, now_ms);
            if is_due {
                ids.push(key.to_owned());
            }
            proof {
                let after = text::views(ids@);
                assert(keys[i as int] == key@);
                assert(keys.take(i + 1) =~= keys.take(i as int).push(key@));
                assert forall|x: Seq<char>| keys.take(i as int).contains(x) implies keys.take(
                    i + 1,
                ).contains(x) by {
                    let m = choose|m: int| 0 <= m < i && keys.take(i as int)[m] == x;
                    assert(keys.take(i + 1)[m] == x);
                }
                if is_due {
                    assert(after =~= before.push(key@));
                    assert(keys.take(i + 1)[i as int] == key@);
                    assert forall|a: int, b: int| 0 <= a < b < after.len() implies text::lt(
                        #[trigger] after[a],
                        #[trigger] after[b],
                    ) by {
                        if b == after.len() - 1 {
                            assert(before[a] == after[a]);
                            assert(keys.take(i as int).contains(before[a]));
                            let m = choose|m: int|
                                0 <= m < i && keys.take(i as int)[m] == before[a];
                            assert(keys[m] == after[a]);
                            assert(text::lt(keys[m], keys[i as int]));
                        } else {
                            assert(before[a] == after[a] && before[b] == after[b]);
                        }
                    }
                    assert forall|k: int| 0 <= k < after.len() implies keys.take(i + 1).contains(
                        #[trigger] after[k],
                    ) && due(s, after[k], now_ms) by {
                        if k < before.len() {
                            assert(before[k] == after[k]);
                        }
                    }
                    assert forall|j: int|
                        0 <= j < i + 1 && due(s, #[trigger] keys[j], now_ms) implies after.contains(
                        keys[j],
                    ) by {
                        if j < i {
                            let m = choose|m: int| 0 <= m < before.len() && before[m] == keys[j];
                            assert(after[m] == keys[j]);
                        } else {
                            assert(after[before.len() as int] == key@);
                        }
                    }
                }
            }
            i += 1;
        }
        let ghost listed = text::views(ids@);
        proof {
            assert forall|k: Seq<char>| #[trigger] listed.contains(k) <==> due(s, k, now_ms) by {
                if due(s, k, now_ms) {
                    assert(self.leases@.dom().contains(k));
                    assert(keys.contains(k));
                    let j = choose|j: int| 0 <= j < keys.len() && keys[j] == k;
                    assert(due(s, keys[j], now_ms));
                }
                if listed.contains(k) {
                    let m = choose|m: int| 0 <= m < listed.len() && listed[m] == k;
                    assert(due(s, listed[m], now_ms));
                }
            }
            let none = expire_set(s, listed.take(0).to_set(), now_ms);
            assert(none.leases =~= s.leases);
            assert(none.assignments =~= s.assignments);
        }
        let mut k: usize = 0;
        while k < ids.len()
            invariant
                k <= ids@.len(),
                listed == text::views(ids@),
                ordered::increasing(listed),
                forall|m: int| 0 <= m < listed.len() ==> due(s, #[trigger] listed[m], now_ms),
                self@ == expire_set(s, listed.take(k as int).to_set(), now_ms),
            decreases ids@.len() - k,
        {
            self.expire_one(ids[k].as_str(), now_ms);
            proof {
                let gone = listed.take(k as int).to_set();
                let id = listed[k as int];
                assert(!gone.contains(id)) by {
                    if gone.contains(id) {
                        let m = choose|m: int|
                            0 <= m < k && listed.take(k as int)[m] == id;
                        assert(text::lt(listed[m], listed[k as int]));
                        text::lt_irreflexive(id);
                    }
                }
                expire_set_grows(s, gone, id, now_ms);
                assert(listed.take(k + 1) =~= listed.take(k as int).push(id));
                let longer = listed.take(k + 1);
                assert(longer.to_set() =~= gone.insert(id)) by {
                    assert forall|x: Seq<char>|
                        longer.to_set().contains(x) <==> gone.insert(id).contains(x) by {
                        if gone.contains(x) {
                            let m = choose|m: int|
                                0 <= m < k && listed.take(k as int)[m] == x;
                            assert(longer[m] == x);
                        }
                        if x == id {
                            assert(longer[k as int] == x);
                        }
                        if longer.contains(x) {
                            let m = choose|m: int| 0 <= m < longer.len() && longer[m] == x;
                            if m < k {
                                assert(listed.take(k as int)[m] == x);
                            }
                        }
                    }
                }
            }
            k += 1;
        }
        proof {
            assert(listed.take(ids@.len() as int) =~= listed);
            assert(listed.to_set() =~= Set::new(|k: Seq<char>| due(s, k, now_ms)));
        }
        Ok(ids)
    }

    /// Records that an attempt is to be cancelled.
    pub fn request_cancellation(&mut self, attempt_id: &str, reason: &str, now_ms: u64) -> (r:
        Result<CancellationRecord, RepositoryError>)
        ensures
            (final(self)@, cancellation_seen(r)) == cancel(
                old(self)@,
                attempt_id@,
                reason@,
                now_ms,
            ),
    {
        let mut record = match self.assignments.get(attempt_id) {
            Some(record) => record.clone(),
            None => {
                return Err(RepositoryError::NotFound(attempt_id.to_owned()));
            },
        };
        let (next_state, outcome) = cancel_state(record.state);
        let answer = CancellationRecord { worker_id: record.worker_id.clone(), outcome };
        if outcome != CancellationStoreOutcome::AlreadyTerminal {
            match storage::to_i64(now_ms) {
                Ok(_) => {},
                Err(error) => {
                    return Err(error);
                },
            }
            record.state = next_state;
            record.updated_at_ms = now_ms;
            record.cancellation_reason = Some(reason.to_owned());
            self.put_assignment(attempt_id, record);
        }
        Ok(answer)
    }
}

} // verus!
