//! The worker control service: who is connected, what they were sent, and what they report.
pub mod admission;
pub mod authorization;
pub mod conduct;
pub mod delivery;
pub mod ingestion;
pub mod laws;
pub mod projection;
pub mod reconciliation;

use crate::events;
use crate::events::ProducerEvent;
use crate::interaction;
use crate::interaction::store::MemoryInteractionStore;
use crate::interaction::{
    AppendOutcome, InteractionError, InteractionErrorView, InteractionEventWriter,
    InteractionRunAccessStore, InteractionState, RunGrantOutcome, RunRevokeOutcome,
};
use crate::ordered;
use crate::ordered::TextMap;
use crate::proto::v1;
use crate::repository;
use crate::repository::attempts;
use crate::repository::connections;
use crate::repository::{ControlRepository, ControlState};
use crate::storage;
use crate::storage::{
    ConnectionRegistration, ConnectionRegistrationView, RepositoryError, RepositoryErrorView,
};
use crate::text;
use crate::wire;
use vstd::prelude::*;
use vstd::string::*;

verus! {

/// A worker's control connection as the service tracks it.
#[derive(Debug, PartialEq, Eq)]
pub struct ConnectedWorker {
    pub connection_id: String,
    pub protocol_minor: u32,
    pub connected: bool,
    pub next_server_sequence: u64,
    pub last_worker_sequence: u64,
    pub last_server_sequence_acknowledged: u64,
}

pub ghost struct ConnectedWorkerView {
    pub connection_id: Seq<char>,
    pub protocol_minor: u32,
    pub connected: bool,
    pub next_server_sequence: u64,
    pub last_worker_sequence: u64,
    pub last_server_sequence_acknowledged: u64,
}

impl View for ConnectedWorker {
    type V = ConnectedWorkerView;

    open spec fn view(&self) -> ConnectedWorkerView {
        ConnectedWorkerView {
            connection_id: self.connection_id@,
            protocol_minor: self.protocol_minor,
            connected: self.connected,
            next_server_sequence: self.next_server_sequence,
            last_worker_sequence: self.last_worker_sequence,
            last_server_sequence_acknowledged: self.last_server_sequence_acknowledged,
        }
    }
}

impl Clone for ConnectedWorker {
    fn clone(&self) -> (r: Self)
        ensures
            r == *self,
    {
        ConnectedWorker {
            connection_id: self.connection_id.clone(),
            protocol_minor: self.protocol_minor,
            connected: self.connected,
            next_server_sequence: self.next_server_sequence,
            last_worker_sequence: self.last_worker_sequence,
            last_server_sequence_acknowledged: self.last_server_sequence_acknowledged,
        }
    }
}

/// Tracks attempts, delivers them, and shows what becomes of them.
#[derive(Debug)]
pub struct WorkerControlService {
    repository: ControlRepository,
    interactions: MemoryInteractionStore,
    workers: TextMap<ConnectedWorker>,
    lease_counter: u64,
    attempt_lease_ms: u64,
}

/// All that the service knows.
pub ghost struct ServiceState {
    pub repository: ControlState,
    pub interactions: InteractionState,
    pub workers: Map<Seq<char>, ConnectedWorkerView>,
    pub lease_counter: u64,
    pub attempt_lease_ms: u64,
}

impl View for WorkerControlService {
    type V = ServiceState;

    closed spec fn view(&self) -> ServiceState {
        ServiceState {
            repository: self.repository@,
            interactions: self.interactions@,
            workers: ordered::values(self.workers@),
            lease_counter: self.lease_counter,
            attempt_lease_ms: self.attempt_lease_ms,
        }
    }
}

/// A service that knows nothing yet.
pub open spec fn fresh(attempt_lease_ms: u64) -> ServiceState {
    ServiceState {
        repository: repository::empty_state(),
        interactions: interaction::empty_log(),
        workers: Map::empty(),
        lease_counter: 1,
        attempt_lease_ms,
    }
}

/// The connection that a hello opens: the hello and the server's answer to it are counted.
pub open spec fn opened(connection_id: Seq<char>, protocol_minor: u32) -> ConnectedWorkerView {
    ConnectedWorkerView {
        connection_id,
        protocol_minor,
        connected: true,
        next_server_sequence: 2,
        last_worker_sequence: 1,
        last_server_sequence_acknowledged: 0,
    }
}

/// The effect and the answer of a checked hello on a new connection.
pub open spec fn connect(
    s: ServiceState,
    hello: v1::WorkerHello,
    connection_id: Seq<char>,
    now_ms: u64,
) -> (ServiceState, Result<(), RepositoryErrorView>) {
    let (stored, r) = connections::register(
        s.repository,
        wire::registration_of(hello),
        ConnectionRegistrationView {
            connection_id,
            worker_id: hello.worker_id@,
            instance_id: hello.instance_id@,
            connected_at_ms: now_ms,
        },
    );
    match r {
        Err(e) => (ServiceState { repository: stored, ..s }, Err(e)),
        Ok(_) => (
            ServiceState {
                repository: stored,
                workers: s.workers.insert(
                    hello.worker_id@,
                    opened(connection_id, hello.protocol_minor),
                ),
                ..s
            },
            Ok(()),
        ),
    }
}

/// The worker's connection once a frame could not be sent on it.
pub open spec fn send_failed(s: ServiceState, worker_id: Seq<char>) -> ServiceState {
    if s.workers.dom().contains(worker_id) {
        ServiceState {
            workers: s.workers.insert(
                worker_id,
                ConnectedWorkerView { connected: false, ..s.workers[worker_id] },
            ),
            ..s
        }
    } else {
        s
    }
}

/// The worker has a connection that is still open.
pub open spec fn reachable(s: ServiceState, worker_id: Seq<char>) -> bool {
    s.workers.dom().contains(worker_id) && s.workers[worker_id].connected
}

/// Appends an event of another part of the server to the log.
pub open spec fn publish(
    s: ServiceState,
    dedup_key: Seq<char>,
    frame: events::ProducerEventView,
) -> (ServiceState, Result<interaction::AppendOutcomeView, InteractionErrorView>) {
    let (log, appended) = interaction::append(s.interactions, dedup_key, frame);
    (ServiceState { interactions: log, ..s }, appended)
}

/// The service once the leases that are due have expired.
pub open spec fn reaped(s: ServiceState, now_ms: u64) -> ServiceState {
    ServiceState { repository: attempts::expire_due(s.repository, now_ms), ..s }
}

impl WorkerControlService {
    pub fn new(attempt_lease_ms: u64) -> (r: Self)
        ensures
            r@ == fresh(attempt_lease_ms),
    {
        let r = WorkerControlService {
            repository: ControlRepository::new(),
            interactions: MemoryInteractionStore::new(),
            workers: TextMap::new(),
            lease_counter: 1,
            attempt_lease_ms,
        };
        assert(r@.workers =~= Map::<Seq<char>, ConnectedWorkerView>::empty());
        r
    }

    /// The stored attempts, leases and connections.
    pub fn repository(&self) -> (r: &ControlRepository)
        ensures
            r@ == self@.repository,
    {
        &self.repository
    }

    /// The canonical events and grants.
    pub fn interactions(&self) -> (r: &MemoryInteractionStore)
        ensures
            r@ == self@.interactions,
    {
        &self.interactions
    }

    /// A worker's connection.
    pub fn worker(&self, worker_id: &str) -> (r: Option<&ConnectedWorker>)
        ensures
            r is Some <==> self@.workers.dom().contains(worker_id@),
            r matches Some(worker) ==> worker@ == self@.workers[worker_id@],
    {
        self.workers.get(worker_id)
    }

    fn put_worker(&mut self, worker_id: &str, worker: ConnectedWorker)
        ensures
            final(self)@ == (ServiceState {
                workers: old(self)@.workers.insert(worker_id@, worker@),
                ..old(self)@
            }),
    {
        let ghost before = self.workers@;
        let _ = self.workers.insert(worker_id.to_owned(), worker);
        proof {
            ordered::values_insert(before, worker_id@, worker);
        }
    }

    /// Registers a worker whose hello was checked, on a new connection.
    pub fn register(&mut self, hello: &v1::WorkerHello, connection_id: &str, now_ms: u64) -> (r:
        Result<(), RepositoryError>)
        requires
            hello.capabilities is Some,
        ensures
            (final(self)@, repository::seen(r)) == connect(
                old(self)@,
                *hello,
                connection_id@,
                now_ms,
            ),
    {
        let registration = wire::hello_to_registration(hello);
        let connection = ConnectionRegistration {
            connection_id: connection_id.to_owned(),
            worker_id: hello.worker_id.clone(),
            instance_id: hello.instance_id.clone(),
            connected_at_ms: now_ms,
        };
        self.repository.register_worker(&registration, &connection)?;
        self.put_worker(
            hello.worker_id.as_str(),
            ConnectedWorker {
                connection_id: connection_id.to_owned(),
                protocol_minor: hello.protocol_minor,
                connected: true,
                next_server_sequence: 2,
                last_worker_sequence: 1,
                last_server_sequence_acknowledged: 0,
            },
        );
        Ok(())
    }

    /// Expires the leases that are due, and names their attempts in order.
    pub fn expire_leases(&mut self, now_ms: u64) -> (r: Result<Vec<String>, RepositoryError>)
        ensures
            !storage::storable(now_ms) ==> final(self)@ == old(self)@ && (r matches Err(e) && e@
                == storage::out_of_range(now_ms)),
            storage::storable(now_ms) ==> {
                &&& final(self)@ == reaped(old(self)@, now_ms)
                &&& r matches Ok(ids) && ordered::increasing(text::views(ids@)) && forall|
                    k: Seq<char>,
                | #[trigger]
                    text::views(ids@).contains(k) <==> attempts::due(
                        old(self)@.repository,
                        k,
                        now_ms,
                    )
            },
    {
        self.repository.expire_leases(now_ms)
    }

    /// Marks a worker whose response stream is closed.
    pub fn mark_send_failed(&mut self, worker_id: &str)
        ensures
            final(self)@ == send_failed(old(self)@, worker_id@),
    {
        if let Some(worker) = self.workers.get(worker_id) {
            let mut worker = worker.clone();
            worker.connected = false;
            self.put_worker(worker_id, worker);
        }
    }

    /// Appends or idempotently replays an event of another part of the server.
    pub fn append_interaction_event(&mut self, dedup_key: &str, frame: &ProducerEvent) -> (r: Result<
        AppendOutcome,
        InteractionError,
    >)
        ensures
            (final(self)@, interaction::seen(r)) == publish(old(self)@, dedup_key@, frame@),
    {
        self.interactions.append(dedup_key, frame)
    }

    /// Adds an idempotent public-read grant for a run, at the given time.
    pub fn grant_interaction_access_at(&mut self, run_id: &str, owner_id: &str, now_ms: u64) -> (r:
        Result<RunGrantOutcome, InteractionError>)
        ensures
            ({
                let (log, granted) = interaction::grant(
                    old(self)@.interactions,
                    run_id@,
                    owner_id@,
                    now_ms,
                );
                &&& final(self)@ == (ServiceState { interactions: log, ..old(self)@ })
                &&& interaction::plain(r) == granted
            }),
    {
        self.interactions.grant_run_access(run_id, owner_id, now_ms)
    }

    /// Revokes an existing public-read grant idempotently, at the given time.
    pub fn revoke_interaction_access_at(&mut self, run_id: &str, owner_id: &str, now_ms: u64) -> (r:
        Result<RunRevokeOutcome, InteractionError>)
        ensures
            ({
                let (log, revoked) = interaction::revoke(
                    old(self)@.interactions,
                    run_id@,
                    owner_id@,
                    now_ms,
                );
                &&& final(self)@ == (ServiceState { interactions: log, ..old(self)@ })
                &&& interaction::plain(r) == revoked
            }),
    {
        self.interactions.revoke_run_access(run_id, owner_id, now_ms)
    }

    /// Adds an idempotent public-read grant for an existing or planned run.
    pub fn grant_interaction_access(&mut self, run_id: &str, owner_id: &str) -> (r: Result<
        RunGrantOutcome,
        InteractionError,
    >)
        ensures
            exists|now_ms: u64|
                ({
                    let (log, granted) = #[trigger] interaction::grant(
                        old(self)@.interactions,
                        run_id@,
                        owner_id@,
                        now_ms,
                    );
                    &&& final(self)@ == (ServiceState { interactions: log, ..old(self)@ })
                    &&& interaction::plain(r) == granted
                }),
            interaction::grant_of(old(self)@.interactions, run_id@, owner_id@) matches Some(known)
                && interaction::grant_error(run_id@, owner_id@) is None && known.revoked_at_ms
                is None ==> interaction::plain(r) == Ok::<RunGrantOutcome, InteractionErrorView>(
                RunGrantOutcome::Duplicate,
            ),
    {
        let now_ms = crate::events::unix_time_ms();
        let r = self.grant_interaction_access_at(run_id, owner_id, now_ms);
        proof {
            let witness = interaction::grant(old(self)@.interactions, run_id@, owner_id@, now_ms);
            assert(self@ == (ServiceState { interactions: witness.0, ..old(self)@ }));
        }
        r
    }

    /// Revokes an existing public-read grant idempotently.
    pub fn revoke_interaction_access(&mut self, run_id: &str, owner_id: &str) -> (r: Result<
        RunRevokeOutcome,
        InteractionError,
    >)
        ensures
            exists|now_ms: u64|
                ({
                    let (log, revoked) = #[trigger] interaction::revoke(
                        old(self)@.interactions,
                        run_id@,
                        owner_id@,
                        now_ms,
                    );
                    &&& final(self)@ == (ServiceState { interactions: log, ..old(self)@ })
                    &&& interaction::plain(r) == revoked
                }),
            interaction::grant_of(old(self)@.interactions, run_id@, owner_id@) is None
                && interaction::grant_error(run_id@, owner_id@) is None ==> interaction::plain(r)
                == Err::<RunRevokeOutcome, InteractionErrorView>(
                InteractionErrorView::MissingRunGrant { run_id: run_id@, owner_id: owner_id@ },
            ),
    {
        let now_ms = crate::events::unix_time_ms();
        let r = self.revoke_interaction_access_at(run_id, owner_id, now_ms);
        proof {
            let witness = interaction::revoke(old(self)@.interactions, run_id@, owner_id@, now_ms);
            assert(self@ == (ServiceState { interactions: witness.0, ..old(self)@ }));
        }
        r
    }
}

} // verus!
