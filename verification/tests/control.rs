use alloyport::attempts::builds::{BuildStanding, WorkerBuildAttemptAdapter};
use alloyport::attempts::Publication;
use alloyport::control::admission::{
    grant_cuda_assignment_input, ArtifactReferenceKind, BundleLookup, CancelDelivery, CancelOutcome, Delivery,
    EnqueueOutcome,
};
use alloyport::control::authorization::open_control_stream;
use alloyport::control::ingestion::{first_hello, validate_worker_acknowledgement};
use alloyport::control::reconciliation::{startup_passes, ReconciliationPass};
use alloyport::control::WorkerControlService;
use alloyport::digest::Sha256Digest;
use alloyport::events::{Authority, Event, EventEnvelope, Producer, ProducerEvent, Visibility};
use alloyport::identity::{IdentityError, IdentityRegistry, MemoryIdentityRegistry};
use alloyport::interaction::{InteractionError, InteractionEventReader};
use alloyport::proto::v1;
use alloyport::reducer::RunReducer;
use alloyport::status::{
    artifact_status, identity_status, interaction_status, repository_status, resolve_identity,
    revalidate, upload_status, ArtifactStoreError, Code, UploadError,
};
use alloyport::storage::{
    ArtifactDescriptor, AssignmentContract, AttemptOutcome, AttemptState, ExecutionContract, ExecutionKind,
    RepositoryError,
};
use alloyport::wire::{assignment_to_contract, contract_to_assignment, expected_worker_message_id};

fn parsed(byte: char) -> Sha256Digest {
    Sha256Digest::parse(&format!("sha256:{}", byte.to_string().repeat(64))).expect("digest")
}

fn contract(task_id: &str) -> AssignmentContract {
    AssignmentContract {
        assignment_id: "assignment-1".to_owned(),
        attempt_id: "attempt-1".to_owned(),
        attempt_number: 1,
        idempotency_key: "key-1".to_owned(),
        task_id: task_id.to_owned(),
        candidate_id: "candidate-1".to_owned(),
        execution: ExecutionContract {
            executor_kind: ExecutionKind::AscendBuild,
            argv: vec!["fixture".to_owned()],
            working_directory: ".".to_owned(),
            environment: Vec::new(),
            timeout_ms: 1_000,
            bundle: ArtifactDescriptor {
                digest: parsed('a'),
                size_bytes: 1,
                media_type: "application/octet-stream".to_owned(),
            },
            image: ArtifactDescriptor {
                digest: parsed('b'),
                size_bytes: 0,
                media_type: "application/vnd.oci.image.manifest.v1+json".to_owned(),
            },
            limits: None,
        },
        required_features: Vec::new(),
    }
}

fn replays(events: &Vec<EventEnvelope>) {
    let mut reducer = RunReducer::new();
    for event in events {
        reducer.apply(event).expect("the stream must replay");
    }
}

#[test]
fn an_assignment_does_not_restart_a_run_its_owner_already_started() {
    let mut service = WorkerControlService::new(100);
    let task = "task-attach-1";

    let mut start = ProducerEvent::new(
        task,
        Producer::new("alloyport-server", "management"),
        Event::RunStarted {
            task: "migrate something".to_owned(),
        },
    );
    start.task_id = Some(task.to_owned());
    start.emitted_at_unix_ms = 1;
    start.authority = Authority::Observed;
    start.visibility = Visibility::User;
    service
        .append_interaction_event("migration-captured", &start)
        .expect("owner start");

    service
        .record_run_started(&contract(task), 2)
        .expect("assignment start");

    let events: Vec<EventEnvelope> = service.interactions().events(task).expect("events");
    assert_eq!(events.len(), 1, "the run must be started exactly once");
    replays(&events);
}

#[test]
fn an_assignment_still_starts_a_run_nobody_owns() {
    let mut service = WorkerControlService::new(100);
    let task = "task-attach-2";
    service
        .record_run_started(&contract(task), 1)
        .expect("assignment start");
    let events: Vec<EventEnvelope> = service.interactions().events(task).expect("events");
    assert_eq!(events.len(), 1);
    replays(&events);
}

#[test]
fn repository_error_codes_are_stable() {
    assert_eq!(
        repository_status(RepositoryError::NotFound("a-1".to_owned())).code,
        Code::NotFound
    );
    assert_eq!(
        repository_status(RepositoryError::IdentityMismatch("a-1".to_owned())).code,
        Code::PermissionDenied
    );
    assert_eq!(
        repository_status(RepositoryError::InvalidIdentity("bad".to_owned())).code,
        Code::InvalidArgument
    );
    assert_eq!(
        repository_status(RepositoryError::InvalidTransition {
            from: AttemptState::Sent,
            to: AttemptState::Preparing,
        })
        .code,
        Code::FailedPrecondition
    );
    assert_eq!(
        repository_status(RepositoryError::Corrupt("bad row".to_owned())).code,
        Code::Internal
    );
}

#[test]
fn interaction_error_codes_are_stable() {
    for error in [
        InteractionError::InvalidFrame("bad".to_owned()),
        InteractionError::ConflictingDedupKey("key".to_owned()),
        InteractionError::InvalidCursor {
            run_id: "run-1".to_owned(),
            after_sequence: 2,
            latest_sequence: 1,
        },
        InteractionError::RevokedRunGrant {
            run_id: "run-1".to_owned(),
            owner_id: "owner-1".to_owned(),
        },
    ] {
        assert_eq!(interaction_status(&error).code, Code::InvalidArgument);
    }
    assert_eq!(
        interaction_status(&InteractionError::LockPoisoned).code,
        Code::Internal
    );
}

#[test]
fn upload_and_artifact_error_codes_are_stable() {
    let cases = [
        (UploadError::NotFound, Code::NotFound),
        (UploadError::OwnerMismatch, Code::PermissionDenied),
        (UploadError::OffsetConflict, Code::Aborted),
        (UploadError::QuotaExceeded, Code::ResourceExhausted),
        (UploadError::InvalidRequest, Code::InvalidArgument),
        (UploadError::InvalidState, Code::FailedPrecondition),
        (
            UploadError::Artifact(ArtifactStoreError::DigestMismatch),
            Code::DataLoss,
        ),
        (UploadError::Io, Code::Internal),
    ];
    for (error, expected) in cases {
        assert_eq!(upload_status(error, "fixture").code, expected);
    }
    assert_eq!(
        artifact_status(ArtifactStoreError::DigestMismatch, "fixture").code,
        Code::DataLoss
    );
}

#[test]
fn identity_error_codes_are_stable() {
    let digest = Sha256Digest::digest_bytes(b"certificate");
    assert_eq!(
        identity_status(&IdentityError::NotEnrolled(digest.clone())).code,
        Code::Unauthenticated
    );
    assert_eq!(
        identity_status(&IdentityError::Revoked(digest)).code,
        Code::PermissionDenied
    );
    assert_eq!(
        identity_status(&IdentityError::Corrupt("bad row".to_owned())).code,
        Code::Internal
    );
}

#[test]
fn a_revoked_connection_is_refused() {
    let mut registry = MemoryIdentityRegistry::new();
    let certificate = Sha256Digest::digest_bytes(b"certificate");
    registry.enroll("worker-1", &certificate, 1).unwrap();
    let identity = resolve_identity(&registry, Ok(certificate.clone())).expect("enrolled");
    assert_eq!(identity.owner_id, "worker-1");
    assert_eq!(revalidate(&registry, &identity), Ok(()));
    registry.revoke(&certificate, 2).unwrap();
    assert_eq!(
        revalidate(&registry, &identity).expect_err("revoked").code,
        Code::PermissionDenied
    );
    let unread = Err(IdentityError::Certificate("bad".to_owned()));
    assert!(resolve_identity(&registry, unread).is_err());
}

fn hello() -> v1::WorkerHello {
    v1::WorkerHello {
        protocol_major: 1,
        protocol_minor: 6,
        worker_id: "worker-1".to_owned(),
        instance_id: "instance-1".to_owned(),
        worker_version: "0.1.0".to_owned(),
        features: vec!["fixture".to_owned()],
        capabilities: Some(v1::WorkerCapabilities {
            backend: v1::Backend::Ascend.number(),
            architecture: "Ascend950PR".to_owned(),
            device_count: 1,
            max_concurrency: 1,
            driver_version: "1".to_owned(),
            toolkit_version: "1".to_owned(),
            container_runtime: "docker".to_owned(),
            devices: Vec::new(),
        }),
        active_attempts: Vec::new(),
    }
}

fn connected() -> WorkerControlService {
    let mut service = WorkerControlService::new(100);
    service
        .register(&hello(), "connection-1", 1_000)
        .expect("registered");
    service
}

fn frame(
    sequence: u64,
    message_id: &str,
    acknowledges: u64,
    message: v1::WorkerMessage,
) -> v1::WorkerToServer {
    v1::WorkerToServer {
        sequence,
        acknowledges_server_through: acknowledges,
        message_id: message_id.to_owned(),
        message: Some(message),
    }
}

fn sent(delivery: Delivery) -> v1::ServerToWorker {
    match delivery {
        Delivery::Send(frame) => frame,
        other => panic!("not sent: {:?}", other),
    }
}

#[test]
fn due_leases_expire_and_their_attempts_are_named() {
    let mut service = connected();
    let assignment = contract_to_assignment(&contract("task-1"));
    sent(
        service
            .enqueue_assignment("worker-1", &assignment, None, 1_001)
            .expect("admitted"),
    );
    assert_eq!(service.finish_send("worker-1", true), EnqueueOutcome::Sent);
    assert_eq!(service.expire_leases(1_100), Ok(Vec::new()));
    assert_eq!(
        service.expire_leases(1_101),
        Ok(vec!["attempt-1".to_owned()])
    );
    assert_eq!(service.expire_leases(1_102), Ok(Vec::new()));
    assert!(service.expire_leases(u64::MAX).is_err());
}

#[test]
fn an_invalid_assignment_is_refused_whatever_its_network_policy() {
    let mut service = connected();
    let mut assignment = contract_to_assignment(&contract("task-1"));
    assignment.task_id = String::new();
    if let Some(execution) = &mut assignment.execution {
        execution.limits = Some(v1::ResourceLimits {
            cpu_millis: 1,
            memory_bytes: 1,
            disk_bytes: 1,
            process_count: 1,
            output_bytes: 1,
            device_count: 0,
            network: 99,
        });
    }
    assert_eq!(
        service
            .enqueue_assignment("worker-1", &assignment, None, 1_001)
            .expect_err("invalid")
            .message(),
        "invalid assignment.task_id: missing"
    );
    assert!(service.repository().assignment("attempt-1").is_none());
}

#[test]
fn an_assignment_runs_from_admission_to_its_result() {
    let mut service = connected();
    let assignment = contract_to_assignment(&contract("task-1"));
    let frame_sent = sent(
        service
            .enqueue_assignment("worker-1", &assignment, None, 1_001)
            .expect("admitted"),
    );
    assert_eq!(frame_sent.message_id, "assignment:attempt-1");
    assert_eq!(
        frame_sent.message,
        Some(v1::ServerMessage::Assignment(contract_to_assignment(
            &contract("task-1")
        )))
    );
    assert_eq!(service.finish_send("worker-1", true), EnqueueOutcome::Sent);
    let lease = service.repository().lease("attempt-1").expect("lease");
    assert_eq!((lease.granted_at_ms, lease.expires_at_ms), (1_001, 1_101));

    let accepted = v1::WorkerMessage::AssignmentAccepted(v1::AssignmentAccepted {
        assignment_id: "assignment-1".to_owned(),
        attempt_id: "attempt-1".to_owned(),
        already_known: false,
    });
    assert_eq!(
        service.ingest(
            "worker-1",
            "connection-1",
            &frame(2, "assignment-accepted:attempt-1", 0, accepted),
            None,
            1_002
        ),
        Ok(true)
    );
    let started = v1::WorkerMessage::ExecutionStarted(v1::ExecutionStarted {
        assignment_id: "assignment-1".to_owned(),
        attempt_id: "attempt-1".to_owned(),
    });
    service
        .ingest(
            "worker-1",
            "connection-1",
            &frame(3, "execution-started:attempt-1", 0, started),
            None,
            1_003,
        )
        .expect("started");
    let output = v1::WorkerMessage::OutputChunk(v1::OutputChunk {
        attempt_id: "attempt-1".to_owned(),
        stream: v1::OutputStream::Stdout.number(),
        byte_offset: 0,
        payload: b"TOKEN=abc\xff\n".to_vec(),
        display_sanitized: false,
    });
    service
        .ingest(
            "worker-1",
            "connection-1",
            &frame(4, "", 0, output),
            None,
            1_004,
        )
        .expect("output");
    let finished = v1::WorkerMessage::ExecutionFinished(v1::ExecutionFinished {
        assignment_id: "assignment-1".to_owned(),
        attempt_id: "attempt-1".to_owned(),
        outcome: v1::AttemptOutcome::Succeeded.number(),
        exit_code: Some(0),
        elapsed_ms: 5,
        receipt: None,
        stdout: None,
        stderr: None,
        detail: "done".to_owned(),
    });
    service
        .ingest(
            "worker-1",
            "connection-1",
            &frame(5, "execution-finished:attempt-1", 0, finished),
            None,
            1_005,
        )
        .expect("finished");
    let record = service.repository().assignment("attempt-1").expect("kept");
    assert_eq!(record.state, AttemptState::Finished);
    let events = service.interactions().events("task-1").expect("events");
    replays(&events);
    let shown = events
        .iter()
        .find_map(|event| match &event.event {
            Event::CommandOutput { text, .. } => Some(text.clone()),
            _ => None,
        })
        .expect("output is shown");
    assert_eq!(shown, "TOKEN=[REDACTED]\n");
}

#[test]
fn frames_out_of_order_are_refused_and_change_nothing() {
    let mut service = connected();
    let status = v1::WorkerMessage::Status(v1::WorkerStatus {
        detail: "x".to_owned(),
    });
    let gap = frame(9, "", 0, status);
    let refused = service
        .ingest("worker-1", "connection-1", &gap, None, 1_001)
        .expect_err("gap");
    assert_eq!(refused.message, "worker sequence gap: expected 2, got 9");
    let other = service
        .ingest("worker-1", "connection-9", &gap, None, 1_001)
        .expect_err("superseded");
    assert_eq!(other.code, Code::Aborted);
    let unknown = service
        .ingest("worker-9", "connection-1", &gap, None, 1_001)
        .expect_err("unknown");
    assert_eq!(unknown.message, "worker is not registered");
    assert_eq!(
        service.worker("worker-1").map(|worker| worker.last_worker_sequence),
        Some(1)
    );
}

#[test]
fn the_first_frame_is_a_matching_hello() {
    let first = || frame(1, "", 0, v1::WorkerMessage::Hello(hello()));
    assert_eq!(
        first_hello(Some(first()), Some("worker-1")).expect("accepted"),
        hello()
    );
    assert!(first_hello(Some(first()), None).is_ok());
    assert_eq!(
        first_hello(Some(first()), Some("worker-2"))
            .expect_err("another owner")
            .code,
        Code::PermissionDenied
    );
    assert!(first_hello(None, None).is_err());
    let mut late = first();
    late.sequence = 2;
    assert!(first_hello(Some(late), None).is_err());
    let status = v1::WorkerMessage::Status(v1::WorkerStatus {
        detail: String::new(),
    });
    assert!(first_hello(Some(frame(1, "", 0, status)), None).is_err());
}

#[test]
fn a_revoked_worker_is_neither_registered_nor_heard_nor_served() {
    let mut registry = MemoryIdentityRegistry::new();
    let leaf = Sha256Digest::digest_bytes(b"leaf");
    registry.enroll("worker-1", &leaf, 1).unwrap();
    let identity = resolve_identity(&registry, Ok(leaf.clone())).expect("enrolled");
    let first = || Some(frame(1, "", 0, v1::WorkerMessage::Hello(hello())));
    assert_eq!(
        open_control_stream(&registry, Some(&identity), first()),
        Ok(hello())
    );
    let mut service = WorkerControlService::new(100);
    service
        .accept_stream(&registry, Some(&identity), first(), "connection-1", 1_000)
        .expect("registered");
    let status = || {
        v1::WorkerMessage::Status(v1::WorkerStatus {
            detail: "x".to_owned(),
        })
    };
    assert_eq!(
        service.ingest_authorized(
            &registry,
            Some(&identity),
            "worker-1",
            "connection-1",
            &frame(2, "", 0, status()),
            None,
            1_001
        ),
        Ok(false)
    );
    assert_eq!(
        service.follow_authorized(&registry, Some(&identity), "task-1", 0, 5),
        Ok(Vec::new())
    );
    registry.revoke(&leaf, 2).unwrap();
    let code = |refused: Option<Code>| assert_eq!(refused, Some(Code::PermissionDenied));
    code(
        service
            .ingest_authorized(
                &registry,
                Some(&identity),
                "worker-1",
                "connection-1",
                &frame(3, "", 0, status()),
                None,
                1_002,
            )
            .err()
            .map(|e| e.code),
    );
    assert_eq!(
        service
            .worker("worker-1")
            .map(|worker| worker.last_worker_sequence),
        Some(2)
    );
    code(
        service
            .deliver_authorized(&registry, Some(&identity), "worker-1", "attempt-1", 1_002)
            .err()
            .map(|e| e.code),
    );
    code(
        service
            .follow_authorized(&registry, Some(&identity), "task-1", 0, 5)
            .err()
            .map(|e| e.code),
    );
    let mut fresh = WorkerControlService::new(100);
    code(
        fresh
            .accept_stream(&registry, Some(&identity), first(), "connection-2", 1_003)
            .err()
            .map(|e| e.code),
    );
    assert!(fresh.worker("worker-1").is_none());
    assert!(fresh
        .accept_stream(&registry, None, first(), "connection-2", 1_003)
        .is_ok());
}

#[test]
fn other_outcomes_and_digests_are_kept_as_they_came() {
    let mut service = connected();
    let assignment = contract_to_assignment(&contract("task-1"));
    sent(
        service
            .enqueue_assignment("worker-1", &assignment, None, 1_001)
            .expect("admitted"),
    );
    let accepted = v1::WorkerMessage::AssignmentAccepted(v1::AssignmentAccepted {
        assignment_id: "assignment-1".to_owned(),
        attempt_id: "attempt-1".to_owned(),
        already_known: false,
    });
    let started = v1::WorkerMessage::ExecutionStarted(v1::ExecutionStarted {
        assignment_id: "assignment-1".to_owned(),
        attempt_id: "attempt-1".to_owned(),
    });
    let finished = v1::WorkerMessage::ExecutionFinished(v1::ExecutionFinished {
        assignment_id: "assignment-1".to_owned(),
        attempt_id: "attempt-1".to_owned(),
        outcome: 4,
        exit_code: None,
        elapsed_ms: 5,
        receipt: Some(v1::ArtifactRef {
            digest: "not canonical".to_owned(),
            size_bytes: 3,
            media_type: "text/plain".to_owned(),
        }),
        stdout: None,
        stderr: None,
        detail: "lost".to_owned(),
    });
    for (sequence, id, message) in [
        (2, "assignment-accepted:attempt-1", accepted),
        (3, "execution-started:attempt-1", started),
        (4, "execution-finished:attempt-1", finished),
    ] {
        service
            .ingest(
                "worker-1",
                "connection-1",
                &frame(sequence, id, 0, message),
                None,
                1_000 + sequence,
            )
            .expect("kept");
    }
    let kept = service
        .repository()
        .finished_observation("attempt-1")
        .expect("readable")
        .expect("finished");
    assert_eq!(kept.outcome, AttemptOutcome::Other(4));
    assert_eq!(
        kept.receipt.map(|receipt| receipt.digest),
        Some("not canonical".to_owned())
    );
}

#[test]
fn acknowledgements_neither_fall_back_nor_run_ahead() {
    assert_eq!(validate_worker_acknowledgement(3, 2, 5), Ok(()));
    assert!(validate_worker_acknowledgement(1, 2, 5).is_err());
    assert!(validate_worker_acknowledgement(6, 2, 5).is_err());
}

#[test]
fn work_for_an_absent_worker_waits_for_it() {
    let mut service = WorkerControlService::new(100);
    let assignment = contract_to_assignment(&contract("task-1"));
    assert_eq!(
        service
            .enqueue_assignment("worker-1", &assignment, None, 1_001)
            .expect("admitted"),
        Delivery::Pending
    );
    assert_eq!(
        service
            .enqueue_assignment("worker-1", &assignment, None, 1_002)
            .expect("the same again"),
        Delivery::Duplicate
    );
    service
        .register(&hello(), "connection-1", 1_003)
        .expect("registered");
    let frame = service
        .prepare_assignment("worker-1", "attempt-1", 1_004)
        .expect("prepared")
        .expect("sent");
    assert_eq!(frame.message_id, "assignment:attempt-1");

    match service.cancel_attempt("attempt-1", "stop", 1_005) {
        Ok(CancelDelivery::Send { worker_id, frame }) => {
            assert_eq!(worker_id, "worker-1");
            assert_eq!(frame.message_id, "cancel:attempt-1");
        }
        other => panic!("not sent: {:?}", other),
    }
}

#[test]
fn unsent_work_is_cancelled_at_once() {
    let mut service = WorkerControlService::new(100);
    let assignment = contract_to_assignment(&contract("task-1"));
    service
        .admit_assignment("worker-1", &assignment, 1_001)
        .expect("admitted");
    assert_eq!(
        service.cancel_attempt("attempt-1", "stop", 1_002),
        Ok(CancelDelivery::Settled(CancelOutcome::CancelledBeforeSend))
    );
}

#[test]
fn preparing_assignments_are_recovered_in_passes() {
    let mut service = WorkerControlService::new(100);
    let assignment = contract_to_assignment(&contract("task-1"));
    service
        .admit_assignment("worker-1", &assignment, 1_001)
        .expect("admitted");
    let pass = ReconciliationPass::begin(&service, 10).expect("a pass");
    let record = pass.current().expect("one assignment").clone();
    let step = service
        .reconcile_preparing_assignment(&record, None, 1_002)
        .expect("reconciled");
    let report = pass.advance(step, false).finish();
    assert_eq!((report.scanned, report.recovered), (1, 1));
    assert_eq!(
        service.repository().assignment("attempt-1").map(|a| a.state),
        Some(AttemptState::Dispatchable)
    );
    assert_eq!(startup_passes(7, 3), 3);
}

#[test]
fn contracts_cross_the_wire_unchanged() {
    let kept = contract("task-1");
    assert_eq!(assignment_to_contract(&contract_to_assignment(&kept)), kept);
    let accepted = v1::WorkerMessage::AssignmentAccepted(v1::AssignmentAccepted {
        assignment_id: "a".to_owned(),
        attempt_id: "b".to_owned(),
        already_known: true,
    });
    assert_eq!(
        expected_worker_message_id(&Some(accepted)),
        Some("assignment-accepted:b".to_owned())
    );
    assert_eq!(expected_worker_message_id(&None), None);
}

#[test]
fn a_build_is_pending_until_its_worker_reports() {
    let mut service = connected();
    let adapter = WorkerBuildAttemptAdapter::new("worker-1").expect("adapter");
    let contract = contract("task-1");
    let delivery = adapter
        .dispatch(&mut service, &contract, &Publication::Published, None, 1_001)
        .expect("dispatched");
    sent(delivery);
    assert!(matches!(
        adapter.observe(service.repository(), &contract),
        Ok(BuildStanding::Pending { .. })
    ));
    assert!(adapter
        .dispatch(&mut service, &contract, &Publication::NoMetadata, None, 1_002)
        .is_err());
    assert!(WorkerBuildAttemptAdapter::new("").is_err());
}

#[test]
fn only_cuda_fixtures_are_granted_their_input() {
    let build = contract("task-1");
    assert!(matches!(
        grant_cuda_assignment_input("worker-1", &build, &BundleLookup::NoService, 5),
        Ok(None)
    ));
    let mut fixture = contract("task-1");
    fixture.execution.executor_kind = ExecutionKind::CudaFixture;
    let refused = |lookup: BundleLookup| {
        grant_cuda_assignment_input("worker-1", &fixture, &lookup, 5)
            .expect_err("not granted")
            .message()
    };
    assert_ne!(refused(BundleLookup::NoService), refused(BundleLookup::Missing));
    assert!(refused(BundleLookup::Failed("locked".to_owned())).contains("locked"));
    assert!(!refused(BundleLookup::Published(9)).is_empty());
    let grant = grant_cuda_assignment_input("worker-1", &fixture, &BundleLookup::Published(1), 5)
        .expect("published")
        .expect("granted");
    assert_eq!(grant.owner_id, "worker-1");
    assert_eq!(grant.digest, fixture.execution.bundle.digest.as_str());
    assert_eq!(grant.kind, ArtifactReferenceKind::AssignmentInput);
    assert_eq!(grant.now_ms, 5);
}
