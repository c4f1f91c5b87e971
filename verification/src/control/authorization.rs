//! Streams of a resolved connection, whose credential is looked at again before anything is taken
//! in or handed out.
use super::delivery;
use super::ingestion;
use super::{ServiceState, WorkerControlService};
use crate::events::{EventEnvelope, EventEnvelopeView};
use crate::identity;
use crate::identity::{IdentityErrorView, IdentityRegistry, IdentityState};
use crate::interaction;
use crate::interaction::{InteractionEventReader, InteractionState};
use crate::proto::v1;
use crate::proto::v1::{ServerToWorker, ServerToWorkerView, WorkerToServer};
use crate::status;
use crate::status::{ResolvedConnectionIdentity, Status, StatusView};
use vstd::prelude::*;
use vstd::string::*;

verus! {

/// Whom a stream was resolved to: an owner and the fingerprint of their certificate. A stream that
/// needs no certificate has nobody.
pub type Holder = Option<(Seq<char>, Seq<char>)>;

pub open spec fn holder(identity: Option<&ResolvedConnectionIdentity>) -> Holder {
    match identity {
        Some(i) => Some((i.owner_id@, i.fingerprint@)),
        None => None,
    }
}

/// Whether the credential behind a stream is still good.
pub open spec fn credential(enrollments: IdentityState, holder: Holder) -> Result<(), StatusView> {
    match holder {
        Some((owner_id, fingerprint)) => status::still_valid(enrollments, owner_id, fingerprint),
        None => Ok(()),
    }
}

/// Looks at the credential behind a stream again.
pub fn recheck<R: IdentityRegistry>(
    registry: &R,
    identity: Option<&ResolvedConnectionIdentity>,
) -> (r: Result<(), Status>)
    ensures
        status::seen(r) == credential(registry.enrollments(), holder(identity)),
{
    match identity {
        Some(identity) => status::revalidate(registry, identity),
        None => Ok(()),
    }
}

/// Why a stream registers no worker: what is wrong with its first frame, else with its credential.
pub open spec fn stream_error(
    enrollments: IdentityState,
    holder: Holder,
    first: Option<WorkerToServer>,
) -> Option<StatusView> {
    let owner = match holder {
        Some((owner_id, _)) => Some(owner_id),
        None => None,
    };
    match ingestion::first_frame_error(first, owner) {
        Some(e) => Some(e),
        None => match credential(enrollments, holder) {
            Err(e) => Some(e),
            Ok(_) => None,
        },
    }
}

/// The hello that opens a connection. The credential that the stream was resolved to is looked at
/// once more when the hello is known to be good.
pub fn open_control_stream<R: IdentityRegistry>(
    registry: &R,
    identity: Option<&ResolvedConnectionIdentity>,
    first: Option<WorkerToServer>,
) -> (r: Result<v1::WorkerHello, Status>)
    ensures
        match stream_error(registry.enrollments(), holder(identity), first) {
            Some(e) => r matches Err(error) && error@ == e,
            None => r matches Ok(hello) && first->0.message == Some(
                v1::WorkerMessage::Hello(hello),
            ) && hello.capabilities is Some,
        },
{
    let owner = match identity {
        Some(identity) => Some(identity.owner_id.as_str()),
        None => None,
    };
    let hello = ingestion::first_hello(first, owner)?;
    recheck(registry, identity)?;
    Ok(hello)
}

/// Opens a stream and registers its worker.
pub open spec fn accept_stream(
    s: ServiceState,
    enrollments: IdentityState,
    holder: Holder,
    first: Option<WorkerToServer>,
    connection_id: Seq<char>,
    now_ms: u64,
) -> (ServiceState, Result<(), StatusView>) {
    match stream_error(enrollments, holder, first) {
        Some(e) => (s, Err(e)),
        None => {
            let (t, r) = super::connect(
                s,
                first->0.message->0->Hello_0,
                connection_id,
                now_ms,
            );
            (
                t,
                match r {
                    Ok(_) => Ok(()),
                    Err(e) => Err(status::repository(e)),
                },
            )
        },
    }
}

/// Takes in a frame, provided that the credential behind its stream is still good.
pub open spec fn ingest(
    s: ServiceState,
    enrollments: IdentityState,
    holder: Holder,
    worker_id: Seq<char>,
    connection_id: Seq<char>,
    frame: WorkerToServer,
    refusal: Option<StatusView>,
    now_ms: u64,
) -> (ServiceState, Result<bool, StatusView>) {
    match credential(enrollments, holder) {
        Err(e) => (s, Err(e)),
        Ok(_) => ingestion::ingest(s, worker_id, connection_id, frame, refusal, now_ms),
    }
}

/// Prepares an assignment for a stream, provided that its credential is still good.
pub open spec fn deliver(
    s: ServiceState,
    enrollments: IdentityState,
    holder: Holder,
    worker_id: Seq<char>,
    attempt_id: Seq<char>,
    now_ms: u64,
) -> (ServiceState, Result<Option<ServerToWorkerView>, StatusView>) {
    match credential(enrollments, holder) {
        Err(e) => (s, Err(e)),
        Ok(_) => {
            let (t, r) = delivery::assignment_frame(s, worker_id, attempt_id, now_ms);
            (
                t,
                match r {
                    Ok(frame) => Ok(frame),
                    Err(e) => Err(status::repository(e)),
                },
            )
        },
    }
}

pub open spec fn delivered(r: Result<Option<ServerToWorker>, Status>) -> Result<
    Option<ServerToWorkerView>,
    StatusView,
> {
    match r {
        Ok(Some(frame)) => Ok(Some(frame@)),
        Ok(None) => Ok(None),
        Err(e) => Err(e@),
    }
}

/// The next events of a run for a follower whose credential is still good.
pub open spec fn follow(
    log: InteractionState,
    enrollments: IdentityState,
    holder: Holder,
    run_id: Seq<char>,
    after: u64,
    limit: usize,
) -> Result<Seq<EventEnvelopeView>, StatusView> {
    match credential(enrollments, holder) {
        Err(e) => Err(e),
        Ok(_) => match interaction::page(log, run_id, after, limit) {
            Ok(rows) => Ok(rows),
            Err(e) => Err(status::interaction(e)),
        },
    }
}

impl WorkerControlService {
    /// Opens a stream and registers its worker on a new connection.
    pub fn accept_stream<R: IdentityRegistry>(
        &mut self,
        registry: &R,
        identity: Option<&ResolvedConnectionIdentity>,
        first: Option<WorkerToServer>,
        connection_id: &str,
        now_ms: u64,
    ) -> (r: Result<v1::WorkerHello, Status>)
        ensures
            ({
                let (t, answer) = accept_stream(
                    old(self)@,
                    registry.enrollments(),
                    holder(identity),
                    first,
                    connection_id@,
                    now_ms,
                );
                &&& final(self)@ == t
                &&& match answer {
                    Ok(_) => r matches Ok(hello) && first->0.message == Some(
                        v1::WorkerMessage::Hello(hello),
                    ),
                    Err(e) => r matches Err(error) && error@ == e,
                }
            }),
    {
        let hello = open_control_stream(registry, identity, first)?;
        match self.register(&hello, connection_id, now_ms) {
            Ok(()) => Ok(hello),
            Err(error) => Err(status::repository_status(error)),
        }
    }

    /// Takes in one worker frame of a stream whose credential is still good, and says whether it is
    /// answered with an acknowledgement.
    pub fn ingest_authorized<R: IdentityRegistry>(
        &mut self,
        registry: &R,
        identity: Option<&ResolvedConnectionIdentity>,
        worker_id: &str,
        connection_id: &str,
        frame: &WorkerToServer,
        refusal: Option<Status>,
        now_ms: u64,
    ) -> (r: Result<bool, Status>)
        ensures
            (final(self)@, status::seen(r)) == ingest(
                old(self)@,
                registry.enrollments(),
                holder(identity),
                worker_id@,
                connection_id@,
                *frame,
                ingestion::optional_status(refusal),
                now_ms,
            ),
    {
        recheck(registry, identity)?;
        self.ingest(worker_id, connection_id, frame, refusal, now_ms)
    }

    /// Prepares an assignment for a stream whose credential is still good.
    pub fn deliver_authorized<R: IdentityRegistry>(
        &mut self,
        registry: &R,
        identity: Option<&ResolvedConnectionIdentity>,
        worker_id: &str,
        attempt_id: &str,
        now_ms: u64,
    ) -> (r: Result<Option<ServerToWorker>, Status>)
        ensures
            (final(self)@, delivered(r)) == deliver(
                old(self)@,
                registry.enrollments(),
                holder(identity),
                worker_id@,
                attempt_id@,
                now_ms,
            ),
    {
        recheck(registry, identity)?;
        match self.prepare_assignment(worker_id, attempt_id, now_ms) {
            Ok(frame) => Ok(frame),
            Err(error) => Err(status::repository_status(error)),
        }
    }

    /// The next events of a run for a follower whose credential is still good.
    pub fn follow_authorized<R: IdentityRegistry>(
        &self,
        registry: &R,
        identity: Option<&ResolvedConnectionIdentity>,
        run_id: &str,
        after_sequence: u64,
        limit: usize,
    ) -> (r: Result<Vec<EventEnvelope>, Status>)
        ensures
            match follow(
                self@.interactions,
                registry.enrollments(),
                holder(identity),
                run_id@,
                after_sequence,
                limit,
            ) {
                Ok(rows) => r matches Ok(found) && interaction::envelope_views(found@) == rows,
                Err(e) => r matches Err(error) && error@ == e,
            },
    {
        recheck(registry, identity)?;
        match self.interactions().events_after(run_id, after_sequence, limit) {
            Ok(events) => Ok(events),
            Err(error) => Err(status::interaction_status(&error)),
        }
    }
}

/// A worker is registered only under the name that its certificate is enrolled for, and only while
/// that certificate is active.
pub proof fn registered_workers_are_enrolled(
    s: ServiceState,
    enrollments: IdentityState,
    owner_id: Seq<char>,
    fingerprint: Seq<char>,
    first: Option<WorkerToServer>,
    connection_id: Seq<char>,
    now_ms: u64,
)
    ensures
        ({
            let (t, r) = accept_stream(
                s,
                enrollments,
                Some((owner_id, fingerprint)),
                first,
                connection_id,
                now_ms,
            );
            &&& r is Ok ==> {
                &&& first matches Some(frame)
                &&& frame.message matches Some(v1::WorkerMessage::Hello(hello))
                &&& hello.worker_id@ == owner_id
                &&& identity::resolve(enrollments, fingerprint) == Ok::<
                    Seq<char>,
                    IdentityErrorView,
                >(owner_id)
            }
            &&& stream_error(enrollments, Some((owner_id, fingerprint)), first) is Some ==> t == s
        }),
{
}

/// Once its certificate is revoked, a stream that was open registers nothing, takes nothing in and
/// gets nothing out, and the service stays as it is.
pub proof fn revoked_streams_stand_still(
    s: ServiceState,
    before: IdentityState,
    owner_id: Seq<char>,
    fingerprint: Seq<char>,
    revoked_at_ms: u64,
    worker_id: Seq<char>,
    connection_id: Seq<char>,
    frame: WorkerToServer,
    refusal: Option<StatusView>,
    attempt_id: Seq<char>,
    run_id: Seq<char>,
    after: u64,
    limit: usize,
    now_ms: u64,
)
    requires
        identity::revoke(before, fingerprint, revoked_at_ms).1 is Ok,
    ensures
        ({
            let enrollments = identity::revoke(before, fingerprint, revoked_at_ms).0;
            let holder: Holder = Some((owner_id, fingerprint));
            let e = status::identity_failure(IdentityErrorView::Revoked(fingerprint));
            &&& accept_stream(s, enrollments, holder, Some(frame), connection_id, now_ms).0 == s
            &&& accept_stream(s, enrollments, holder, Some(frame), connection_id, now_ms).1 is Err
            &&& ingest(
                s,
                enrollments,
                holder,
                worker_id,
                connection_id,
                frame,
                refusal,
                now_ms,
            ) == (s, Err::<bool, StatusView>(e))
            &&& deliver(s, enrollments, holder, worker_id, attempt_id, now_ms) == (
                s,
                Err::<Option<ServerToWorkerView>, StatusView>(e),
            )
            &&& follow(s.interactions, enrollments, holder, run_id, after, limit) == Err::<
                Seq<EventEnvelopeView>,
                StatusView,
            >(e)
        }),
{
    status::revoked_connections_are_refused(before, owner_id, fingerprint, revoked_at_ms);
}

/// While its certificate stands for its owner, a stream does what it would do without being looked
/// at again; and a stream that nobody vouches for is not looked at.
pub proof fn valid_streams_are_not_held_up(
    s: ServiceState,
    enrollments: IdentityState,
    holder: Holder,
    worker_id: Seq<char>,
    connection_id: Seq<char>,
    frame: WorkerToServer,
    refusal: Option<StatusView>,
    attempt_id: Seq<char>,
    run_id: Seq<char>,
    after: u64,
    limit: usize,
    now_ms: u64,
)
    requires
        holder matches Some((owner_id, fingerprint)) ==> identity::resolve(enrollments, fingerprint)
            == Ok::<Seq<char>, IdentityErrorView>(owner_id),
    ensures
        ingest(s, enrollments, holder, worker_id, connection_id, frame, refusal, now_ms)
            == ingestion::ingest(s, worker_id, connection_id, frame, refusal, now_ms),
        ({
            let (t, r) = deliver(s, enrollments, holder, worker_id, attempt_id, now_ms);
            let (u, sent) = delivery::assignment_frame(s, worker_id, attempt_id, now_ms);
            &&& t == u
            &&& sent matches Ok(found) ==> r == Ok::<Option<ServerToWorkerView>, StatusView>(found)
            &&& sent matches Err(e) ==> r == Err::<Option<ServerToWorkerView>, StatusView>(
                status::repository(e),
            )
        }),
        match interaction::page(s.interactions, run_id, after, limit) {
            Ok(rows) => follow(s.interactions, enrollments, holder, run_id, after, limit) == Ok::<
                Seq<EventEnvelopeView>,
                StatusView,
            >(rows),
            Err(e) => follow(s.interactions, enrollments, holder, run_id, after, limit) == Err::<
                Seq<EventEnvelopeView>,
                StatusView,
            >(status::interaction(e)),
        },
{
}

/// A certificate that no longer stands for the owner of its stream stops it, whatever the stream
/// asks for, and nothing is changed or handed out.
pub proof fn invalid_streams_stand_still(
    s: ServiceState,
    enrollments: IdentityState,
    owner_id: Seq<char>,
    fingerprint: Seq<char>,
    worker_id: Seq<char>,
    connection_id: Seq<char>,
    frame: WorkerToServer,
    refusal: Option<StatusView>,
    attempt_id: Seq<char>,
    run_id: Seq<char>,
    after: u64,
    limit: usize,
    now_ms: u64,
)
    requires
        identity::resolve(enrollments, fingerprint) != Ok::<Seq<char>, IdentityErrorView>(owner_id),
    ensures
        ({
            let holder: Holder = Some((owner_id, fingerprint));
            &&& ingest(s, enrollments, holder, worker_id, connection_id, frame, refusal, now_ms).0
                == s
            &&& ingest(s, enrollments, holder, worker_id, connection_id, frame, refusal, now_ms).1
                is Err
            &&& deliver(s, enrollments, holder, worker_id, attempt_id, now_ms).0 == s
            &&& deliver(s, enrollments, holder, worker_id, attempt_id, now_ms).1 is Err
            &&& follow(s.interactions, enrollments, holder, run_id, after, limit) is Err
            &&& accept_stream(s, enrollments, holder, Some(frame), connection_id, now_ms).0 == s
            &&& accept_stream(s, enrollments, holder, Some(frame), connection_id, now_ms).1 is Err
        }),
{
}

/// A stream is accepted exactly when its first frame is a proper hello, its certificate is valid,
/// and the worker can be connected; it is then connected as it says.
pub proof fn accepted_streams_are_connected(
    s: ServiceState,
    enrollments: IdentityState,
    holder: Holder,
    first: Option<WorkerToServer>,
    connection_id: Seq<char>,
    now_ms: u64,
)
    requires
        stream_error(enrollments, holder, first) is None,
    ensures
        ({
            let (t, r) = accept_stream(s, enrollments, holder, first, connection_id, now_ms);
            let (u, connected) = super::connect(
                s,
                first->0.message->0->Hello_0,
                connection_id,
                now_ms,
            );
            &&& t == u
            &&& r is Ok <==> connected is Ok
            &&& connected matches Err(e) ==> r == Err::<(), StatusView>(status::repository(e))
        }),
{
}

/// A stream is refused for its first frame, or for its certificate, and for nothing else.
pub proof fn streams_are_refused_for_a_reason(
    enrollments: IdentityState,
    holder: Holder,
    owner: Option<Seq<char>>,
    first: Option<WorkerToServer>,
)
    requires
        holder matches Some((owner_id, _)) ==> owner == Some(owner_id),
        holder is None ==> owner is None,
    ensures
        stream_error(enrollments, holder, first) is None <==> ingestion::first_frame_error(
            first,
            owner,
        ) is None && (holder matches Some((owner_id, fingerprint)) ==> identity::resolve(
            enrollments,
            fingerprint,
        ) == Ok::<Seq<char>, IdentityErrorView>(owner_id)),
        ingestion::first_frame_error(first, owner) is Some ==> stream_error(
            enrollments,
            holder,
            first,
        ) == ingestion::first_frame_error(first, owner),
{
}

} // verus!
