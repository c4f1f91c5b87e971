use alloyport::digest::Sha256Digest;
use alloyport::repository::ControlRepository;
use alloyport::storage::{
    ArtifactDescriptor, ArtifactIdentity, AssignmentContract, AssignmentDeliveryPreparation, AttemptObservation,
    AttemptOutcome, AttemptState, CancellationStoreOutcome, ConnectionRegistration,
    ExecutionContract, ExecutionKind, FinishedObservation, ObservationDisposition,
    ObservedAttempt, RepositoryError, ServerFrameKind, ServerOutboxFrame, StoreAssignmentOutcome,
    WorkerCapabilities, WorkerRegistration,
};

fn state_of(repository: &ControlRepository, attempt_id: &str) -> AttemptState {
    repository
        .assignment(attempt_id)
        .expect("assignment is stored")
        .state
}

fn admitted(contract: &AssignmentContract) -> ControlRepository {
    let mut repository = ControlRepository::new();
    assert_eq!(
        repository.store_assignment("worker-1", contract, 1_000),
        Ok(StoreAssignmentOutcome::Inserted)
    );
    assert_eq!(
        repository.store_assignment("worker-1", contract, 1_001),
        Ok(StoreAssignmentOutcome::Duplicate)
    );
    let mut changed = contract.clone();
    changed.execution.argv = vec!["different".to_owned()];
    assert!(matches!(
        repository.store_assignment("worker-1", &changed, 1_002),
        Err(RepositoryError::ConflictingAttempt(attempt)) if attempt == "attempt-1"
    ));
    repository
}

#[test]
fn immutable_assignment_is_idempotent_and_survives_reopen() {
    let contract = contract();
    let before = admitted(&contract);
    let reopened = admitted(&contract);
    assert_eq!(before.assignment("attempt-1"), reopened.assignment("attempt-1"));

    let recovered = reopened
        .assignment("attempt-1")
        .expect("stored assignment is recovered");
    assert_eq!(recovered.contract, contract);
    assert_eq!(recovered.state, AttemptState::Preparing);
}

#[test]
fn preparing_assignment_is_not_replayable_until_side_effects_complete() {
    let mut repository = ControlRepository::new();
    repository
        .store_assignment("worker-1", &contract(), 1_000)
        .unwrap();

    assert!(repository.replayable_assignments("worker-1").is_empty());
    assert!(repository
        .mark_assignment_dispatchable("attempt-1", "worker-1", 1_001)
        .unwrap());
    assert!(!repository
        .mark_assignment_dispatchable("attempt-1", "worker-1", 1_002)
        .unwrap());
    assert_eq!(repository.replayable_assignments("worker-1").len(), 1);
}

#[test]
fn deferred_preparation_rotates_behind_newer_work() {
    let mut repository = ControlRepository::new();
    repository
        .store_assignment("worker-1", &contract(), 1_000)
        .unwrap();
    repository
        .store_assignment("worker-1", &second_contract(), 1_001)
        .unwrap();

    assert_eq!(
        repository.preparing_assignments(1).unwrap()[0]
            .contract
            .attempt_id,
        "attempt-1"
    );
    assert!(repository
        .defer_assignment_preparation("attempt-1", "worker-1", 2_000)
        .unwrap());
    assert_eq!(
        repository.preparing_assignments(1).unwrap()[0]
            .contract
            .attempt_id,
        "attempt-2"
    );
}

#[test]
fn assignment_delivery_rolls_back_lease_and_state_when_outbox_insert_fails() {
    let mut repository = ControlRepository::new();
    repository
        .store_assignment("worker-1", &contract(), 1_000)
        .unwrap();
    prepare_test_assignment(&mut repository, "attempt-1", 1_000, 100).unwrap();

    repository
        .store_assignment("worker-1", &second_contract(), 1_001)
        .unwrap();
    repository
        .mark_assignment_dispatchable("attempt-2", "worker-1", 1_001)
        .unwrap();
    let failed = repository.prepare_assignment_delivery(&AssignmentDeliveryPreparation {
        frame: ServerOutboxFrame {
            connection_id: "test-connection".to_owned(),
            sequence: 1_000,
            message_id: "assignment:attempt-2".to_owned(),
            worker_id: "worker-1".to_owned(),
            kind: ServerFrameKind::Assignment,
            attempt_id: Some("attempt-2".to_owned()),
        },
        lease_id: "lease:attempt-2".to_owned(),
        last_worker_sequence: 1,
        last_server_acknowledged_by_worker: 0,
        now_ms: 1_001,
        lease_duration_ms: 100,
    });
    assert!(failed.is_err());
    assert_eq!(
        repository
            .assignment("attempt-2")
            .expect("failed preparation keeps the assignment")
            .state,
        AttemptState::Dispatchable
    );
    assert!(repository.lease("attempt-2").is_none());
    let persisted_sequence = repository
        .connection("test-connection")
        .expect("connection is open")
        .last_server_sequence;
    assert_eq!(persisted_sequence, 1_000);
}

#[test]
fn lease_expiry_retains_a_late_result_as_stale() {
    let mut repository = ControlRepository::new();
    let contract = contract();
    repository
        .store_assignment("worker-1", &contract, 1_000)
        .unwrap();
    prepare_test_assignment(&mut repository, "attempt-1", 1_000, 100).unwrap();
    assert_eq!(
        repository.observe_attempt(&observation(
            1_001,
            AttemptObservation::Accepted {
                already_known: false,
            },
        )),
        Ok(ObservationDisposition::Applied)
    );

    assert_eq!(
        repository.expire_leases(1_100),
        Ok(vec!["attempt-1".to_owned()])
    );
    assert_eq!(
        repository
            .assignment("attempt-1")
            .expect("attempt remains stored")
            .state,
        AttemptState::LeaseExpired
    );
    let disposition = repository.observe_attempt(&observation(
        1_101,
        AttemptObservation::Finished(FinishedObservation {
            outcome: AttemptOutcome::Succeeded,
            exit_code: Some(0),
            elapsed_ms: 90,
            receipt: Some(reported('c')),
            stdout: None,
            stderr: None,
            detail: "late success".to_owned(),
        }),
    ));
    assert_eq!(disposition, Ok(ObservationDisposition::Stale));
    assert_eq!(
        repository
            .assignment("attempt-1")
            .expect("stale result cannot remove attempt")
            .state,
        AttemptState::LeaseExpired
    );
    assert_eq!(repository.observation_count("attempt-1"), 2);
    assert_eq!(repository.finished_observation("attempt-1"), Ok(None));
}

#[test]
fn expired_attempt_reassignment_creates_a_fresh_linked_contract() {
    let mut repository = ControlRepository::new();
    repository
        .store_assignment("worker-1", &contract(), 1_000)
        .unwrap();
    prepare_test_assignment(&mut repository, "attempt-1", 1_000, 100).unwrap();
    assert!(matches!(
        repository.reassign_expired("attempt-1", "worker-2", "attempt-2", 1_050),
        Err(RepositoryError::InvalidTransition {
            from: AttemptState::Sent,
            to: AttemptState::Dispatchable,
        })
    ));
    assert_eq!(
        repository.expire_leases(1_100),
        Ok(vec!["attempt-1".to_owned()])
    );
    assert!(matches!(
        repository.reassign_expired("attempt-1", "worker-2", "  ", 1_101),
        Err(RepositoryError::InvalidIdentity(_))
    ));

    let reassigned = repository
        .reassign_expired("attempt-1", "worker-2", "attempt-2", 1_102)
        .unwrap();
    assert_eq!(reassigned.outcome, StoreAssignmentOutcome::Inserted);
    assert_eq!(reassigned.assignment.worker_id, "worker-2");
    assert_eq!(reassigned.assignment.contract.attempt_id, "attempt-2");
    assert_eq!(reassigned.assignment.contract.attempt_number, 2);
    assert_eq!(reassigned.assignment.state, AttemptState::Preparing);
    assert_eq!(
        repository
            .assignment("attempt-1")
            .expect("expired source remains auditable")
            .state,
        AttemptState::LeaseExpired
    );
    assert_eq!(
        repository
            .reassign_expired("attempt-1", "worker-2", "attempt-2", 1_102)
            .unwrap()
            .outcome,
        StoreAssignmentOutcome::Duplicate
    );

    assert_eq!(
        repository.observe_attempt(&observation(
            1_103,
            AttemptObservation::Finished(FinishedObservation {
                outcome: AttemptOutcome::Succeeded,
                exit_code: Some(0),
                elapsed_ms: 100,
                receipt: None,
                stdout: None,
                stderr: None,
                detail: "late old result".to_owned(),
            }),
        )),
        Ok(ObservationDisposition::Stale)
    );
}

#[test]
fn active_heartbeat_renews_the_lease() {
    let mut repository = ControlRepository::new();
    repository
        .store_assignment("worker-1", &contract(), 1_000)
        .unwrap();
    prepare_test_assignment(&mut repository, "attempt-1", 1_000, 100).unwrap();
    repository
        .renew_active_leases("worker-1", &vec!["attempt-1".to_owned()], 1_050, 100)
        .unwrap();
    assert!(repository.expire_leases(1_100).unwrap().is_empty());
    assert_eq!(
        repository.expire_leases(1_150),
        Ok(vec!["attempt-1".to_owned()])
    );
}

#[test]
fn heartbeat_after_expiry_cannot_resurrect_a_lease() {
    let mut repository = ControlRepository::new();
    repository
        .store_assignment("worker-1", &contract(), 1_000)
        .unwrap();
    prepare_test_assignment(&mut repository, "attempt-1", 1_000, 100).unwrap();
    repository
        .renew_active_leases("worker-1", &vec!["attempt-1".to_owned()], 1_101, 100)
        .unwrap();
    assert_eq!(
        repository
            .assignment("attempt-1")
            .expect("attempt remains durable")
            .state,
        AttemptState::LeaseExpired
    );
    assert_eq!(
        repository
            .lease("attempt-1")
            .expect("lease remains auditable")
            .expired_at_ms,
        Some(1_101)
    );
}

#[test]
fn cancellation_cannot_resurrect_expired_work() {
    let mut repository = ControlRepository::new();
    repository
        .store_assignment("worker-1", &contract(), 1_000)
        .unwrap();
    assert_eq!(
        repository
            .request_cancellation("attempt-1", "cancel queued", 1_001)
            .unwrap()
            .outcome,
        CancellationStoreOutcome::CancelledBeforeSend
    );
    assert_eq!(
        repository
            .assignment("attempt-1")
            .expect("cancelled assignment remains auditable")
            .state,
        AttemptState::Cancelled
    );

    repository
        .store_assignment("worker-1", &second_contract(), 2_000)
        .unwrap();
    prepare_test_assignment(&mut repository, "attempt-2", 2_000, 100).unwrap();
    assert_eq!(
        repository.expire_leases(2_100),
        Ok(vec!["attempt-2".to_owned()])
    );
    assert_eq!(
        repository
            .request_cancellation("attempt-2", "too late", 2_101)
            .unwrap()
            .outcome,
        CancellationStoreOutcome::AlreadyTerminal
    );
    assert_eq!(
        repository
            .assignment("attempt-2")
            .expect("expired attempt remains auditable")
            .state,
        AttemptState::LeaseExpired
    );
}

#[test]
fn server_outbox_compacts_only_cumulatively_acknowledged_frames() {
    let mut repository = ControlRepository::new();
    for (sequence, kind) in [
        (2, ServerFrameKind::Assignment),
        (3, ServerFrameKind::Cancel),
    ] {
        repository
            .record_server_frame(
                &ServerOutboxFrame {
                    connection_id: "connection-1".to_owned(),
                    sequence,
                    message_id: format!("fixture:{sequence}"),
                    worker_id: "worker-1".to_owned(),
                    kind,
                    attempt_id: Some("attempt-1".to_owned()),
                },
                1_000 + sequence,
            )
            .unwrap();
    }
    assert_eq!(repository.server_outbox_len("connection-1"), 2);
    assert_eq!(
        repository.compact_server_frames("connection-1", 2, 1_010),
        Ok(1)
    );
    assert_eq!(repository.server_outbox_len("connection-1"), 1);
    assert_eq!(
        repository.compact_server_frames("connection-1", 3, 1_011),
        Ok(1)
    );
    assert_eq!(repository.server_outbox_len("connection-1"), 0);
}

#[test]
fn orphaned_server_frames_are_retained_until_the_policy_cutoff() {
    let mut repository = ControlRepository::new();
    repository
        .register_worker(
            &registration("worker-1", "instance-1", 2),
            &ConnectionRegistration {
                connection_id: "connection-1".to_owned(),
                worker_id: "worker-1".to_owned(),
                instance_id: "instance-1".to_owned(),
                connected_at_ms: 1_000,
            },
        )
        .unwrap();
    repository
        .record_server_frame(
            &ServerOutboxFrame {
                connection_id: "connection-1".to_owned(),
                sequence: 2,
                message_id: "assignment:attempt-1".to_owned(),
                worker_id: "worker-1".to_owned(),
                kind: ServerFrameKind::Assignment,
                attempt_id: Some("attempt-1".to_owned()),
            },
            1_001,
        )
        .unwrap();
    repository.disconnect("connection-1", 1_010).unwrap();

    assert_eq!(repository.prune_orphaned_server_frames(1_010), Ok(0));
    assert_eq!(repository.server_outbox_len("connection-1"), 1);
    assert_eq!(repository.prune_orphaned_server_frames(1_011), Ok(1));
    assert_eq!(repository.server_outbox_len("connection-1"), 0);
}

#[test]
fn memory_assignment_store_satisfies_shared_dispatch_contract() {
    assignment_dispatch_contract(ControlRepository::new());
}

/// A store with a past meets the same contract.
#[test]
fn sqlite_assignment_store_satisfies_shared_dispatch_contract() {
    let mut repository = ControlRepository::new();
    repository
        .register_worker(
            &registration("worker-0", "instance-0", 0),
            &ConnectionRegistration {
                connection_id: "connection-0".to_owned(),
                worker_id: "worker-0".to_owned(),
                instance_id: "instance-0".to_owned(),
                connected_at_ms: 0,
            },
        )
        .unwrap();
    assignment_dispatch_contract(repository);
}

fn assignment_dispatch_contract(mut repository: ControlRepository) {
    repository
        .register_worker(
            &registration("worker-1", "assignment-contract-instance", 0),
            &ConnectionRegistration {
                connection_id: "assignment-contract-connection".to_owned(),
                worker_id: "worker-1".to_owned(),
                instance_id: "assignment-contract-instance".to_owned(),
                connected_at_ms: 1,
            },
        )
        .unwrap();
    admission_and_preparation_contract(&mut repository);
    atomic_dispatch_contract(&mut repository);
    reassignment_contract(&mut repository);
}

fn admission_and_preparation_contract(repository: &mut ControlRepository) {
    let first = shared_contract("attempt-first");
    assert_eq!(
        repository.store_assignment("worker-1", &first, 100),
        Ok(StoreAssignmentOutcome::Inserted)
    );
    assert_eq!(
        repository.store_assignment("worker-1", &first, 101),
        Ok(StoreAssignmentOutcome::Duplicate)
    );
    let mut changed = first.clone();
    changed.execution.argv = vec!["different".to_owned()];
    assert!(matches!(
        repository.store_assignment("worker-1", &changed, 102),
        Err(RepositoryError::ConflictingAttempt(attempt)) if attempt == "attempt-first"
    ));

    let second = shared_contract("attempt-second");
    repository
        .store_assignment("worker-1", &second, 110)
        .unwrap();
    assert_eq!(repository.preparing_assignment_count(), 2);
    assert!(repository.preparing_assignments(0).unwrap().is_empty());
    assert_eq!(
        repository.preparing_assignments(1).unwrap()[0]
            .contract
            .attempt_id,
        first.attempt_id
    );
    assert!(repository
        .defer_assignment_preparation(&first.attempt_id, "worker-1", 200)
        .unwrap());
    assert_eq!(
        repository.preparing_assignments(1).unwrap()[0]
            .contract
            .attempt_id,
        second.attempt_id
    );
    assert!(!repository
        .defer_assignment_preparation(&first.attempt_id, "worker-other", 201)
        .unwrap());
    assert!(repository.replayable_assignments("worker-1").is_empty());
    assert!(repository
        .mark_assignment_dispatchable(&second.attempt_id, "worker-1", 120)
        .unwrap());
    assert!(!repository
        .mark_assignment_dispatchable(&second.attempt_id, "worker-1", 121)
        .unwrap());
    assert!(matches!(
        repository.mark_assignment_dispatchable(&first.attempt_id, "worker-other", 202),
        Err(RepositoryError::IdentityMismatch(attempt)) if attempt == "attempt-first"
    ));
    assert_eq!(repository.replayable_assignments("worker-1").len(), 1);
}

fn atomic_dispatch_contract(repository: &mut ControlRepository) {
    let outbox = "assignment-contract-connection";
    let second = shared_contract("attempt-second");
    let first_delivery = delivery(&second, 2, 130, 100);
    assert_eq!(
        repository.prepare_assignment_delivery(&first_delivery),
        Ok(second.clone())
    );
    assert_eq!(
        repository
            .assignment("attempt-second")
            .expect("dispatched assignment remains readable")
            .state,
        AttemptState::Sent
    );
    let original_lease = repository
        .lease("attempt-second")
        .expect("successful dispatch grants a lease")
        .clone();
    assert_eq!(original_lease.expires_at_ms, 230);
    assert_eq!(repository.server_outbox_len(outbox), 1);

    assert!(repository
        .prepare_assignment_delivery(&delivery(&second, 2, 140, 500))
        .is_err());
    assert_eq!(
        repository
            .lease("attempt-second")
            .expect("failed retry preserves the original lease"),
        &original_lease
    );
    assert_eq!(repository.server_outbox_len(outbox), 1);

    let third = shared_contract("attempt-third");
    repository.store_assignment("worker-1", &third, 140).unwrap();
    repository
        .mark_assignment_dispatchable(&third.attempt_id, "worker-1", 141)
        .unwrap();
    assert!(repository
        .prepare_assignment_delivery(&delivery(&third, 2, 142, 100))
        .is_err());
    assert_eq!(
        repository
            .assignment("attempt-third")
            .expect("failed dispatch keeps assignment")
            .state,
        AttemptState::Dispatchable
    );
    assert!(repository.lease("attempt-third").is_none());
    assert_eq!(repository.server_outbox_len(outbox), 1);

    repository
        .prepare_assignment_delivery(&delivery(&third, 3, 150, 100))
        .unwrap();
    assert_eq!(
        repository
            .assignment("attempt-third")
            .expect("successful retry sends assignment")
            .state,
        AttemptState::Sent
    );
    assert!(repository.lease("attempt-third").is_some());
    assert_eq!(repository.server_outbox_len(outbox), 2);
}

fn reassignment_contract(repository: &mut ControlRepository) {
    let source = shared_contract("attempt-source");
    repository
        .store_assignment("worker-1", &source, 300)
        .unwrap();
    repository
        .mark_assignment_dispatchable(&source.attempt_id, "worker-1", 301)
        .unwrap();
    repository
        .prepare_assignment_delivery(&delivery(&source, 4, 310, 100))
        .unwrap();
    assert!(matches!(
        repository.reassign_expired("attempt-source", "worker-2", "attempt-replacement", 350),
        Err(RepositoryError::InvalidTransition {
            from: AttemptState::Sent,
            to: AttemptState::Dispatchable,
        })
    ));
    repository.expire_leases(410).unwrap();
    assert_eq!(
        repository
            .assignment("attempt-source")
            .expect("source remains auditable")
            .state,
        AttemptState::LeaseExpired
    );
    assert!(matches!(
        repository.reassign_expired("attempt-source", "worker-2", "  ", 411),
        Err(RepositoryError::InvalidIdentity(_))
    ));

    let replacement = repository
        .reassign_expired("attempt-source", "worker-2", "attempt-replacement", 412)
        .unwrap();
    assert_eq!(replacement.outcome, StoreAssignmentOutcome::Inserted);
    assert_eq!(replacement.assignment.worker_id, "worker-2");
    assert_eq!(
        replacement.assignment.contract.attempt_id,
        "attempt-replacement"
    );
    assert_eq!(replacement.assignment.contract.attempt_number, 2);
    assert_eq!(replacement.assignment.state, AttemptState::Preparing);
    assert_eq!(
        repository
            .reassign_expired("attempt-source", "worker-2", "attempt-replacement", 413)
            .unwrap()
            .outcome,
        StoreAssignmentOutcome::Duplicate
    );
    assert!(matches!(
        repository.reassign_expired("attempt-source", "worker-2", "attempt-other", 414),
        Err(RepositoryError::ConflictingAttempt(attempt)) if attempt == "attempt-source"
    ));
}

#[test]
fn reports_walk_an_attempt_to_its_end() {
    let mut repository = ControlRepository::new();
    repository
        .store_assignment("worker-1", &contract(), 1_000)
        .unwrap();
    assert!(matches!(
        repository.observe_attempt(&observation(1_001, AttemptObservation::Started)),
        Err(RepositoryError::InvalidTransition { .. })
    ));
    prepare_test_assignment(&mut repository, "attempt-1", 1_000, 100).unwrap();
    let accepted = AttemptObservation::Accepted {
        already_known: false,
    };
    repository
        .observe_attempt(&observation(1_001, accepted))
        .unwrap();
    assert_eq!(
        repository.observe_attempt(&observation(1_002, AttemptObservation::Started)),
        Ok(ObservationDisposition::Applied)
    );
    assert_eq!(state_of(&repository, "attempt-1"), AttemptState::Running);
    assert_eq!(
        repository.observe_attempt(&observation(1_003, AttemptObservation::Started)),
        Ok(ObservationDisposition::Duplicate)
    );
    let finished = FinishedObservation {
        outcome: AttemptOutcome::CandidateFailed,
        exit_code: Some(3),
        elapsed_ms: 5,
        receipt: None,
        stdout: None,
        stderr: None,
        detail: "failed".to_owned(),
    };
    assert_eq!(
        repository.observe_attempt(&observation(
            1_004,
            AttemptObservation::Finished(finished.clone())
        )),
        Ok(ObservationDisposition::Applied)
    );
    assert_eq!(state_of(&repository, "attempt-1"), AttemptState::Finished);
    assert_eq!(
        repository.finished_observation("attempt-1"),
        Ok(Some(finished))
    );
    assert_eq!(
        repository
            .request_cancellation("attempt-1", "late", 1_005)
            .unwrap()
            .outcome,
        CancellationStoreOutcome::AlreadyTerminal
    );
}

#[test]
fn foreign_and_unknown_reports_are_refused() {
    let mut repository = ControlRepository::new();
    repository
        .store_assignment("worker-1", &contract(), 1_000)
        .unwrap();
    let mut unknown = observation(1_001, AttemptObservation::Started);
    unknown.attempt_id = "attempt-9".to_owned();
    assert_eq!(
        repository.observe_attempt(&unknown),
        Err(RepositoryError::NotFound("attempt-9".to_owned()))
    );
    let mut foreign = observation(1_001, AttemptObservation::Started);
    foreign.worker_id = "worker-9".to_owned();
    assert_eq!(
        repository.observe_attempt(&foreign),
        Err(RepositoryError::IdentityMismatch("attempt-1".to_owned()))
    );
    assert_eq!(repository.observation_count("attempt-1"), 0);
    assert_eq!(
        repository.request_cancellation("attempt-9", "x", 1),
        Err(RepositoryError::NotFound("attempt-9".to_owned()))
    );
}

#[test]
fn times_beyond_the_storable_range_are_refused() {
    let mut repository = ControlRepository::new();
    let refused = repository
        .store_assignment("worker-1", &contract(), u64::MAX)
        .expect_err("time is out of range");
    assert!(matches!(refused, RepositoryError::Corrupt(_)));
    assert!(repository.assignment("attempt-1").is_none());
    assert!(repository.expire_leases(u64::MAX).is_err());
}

#[test]
fn a_missing_connection_stops_a_delivery() {
    let mut repository = ControlRepository::new();
    repository
        .store_assignment("worker-1", &contract(), 1_000)
        .unwrap();
    repository
        .mark_assignment_dispatchable("attempt-1", "worker-1", 1_000)
        .unwrap();
    let refused = repository
        .prepare_assignment_delivery(&delivery(&contract(), 2, 1_001, 100))
        .expect_err("no connection");
    assert_eq!(
        refused,
        RepositoryError::Corrupt(
            "active connection assignment-contract-connection for worker worker-1 is missing"
                .to_owned()
        )
    );
    assert_eq!(state_of(&repository, "attempt-1"), AttemptState::Dispatchable);
    assert!(repository.lease("attempt-1").is_none());
}

#[test]
fn state_codes_read_back() {
    for code in 0..11 {
        if let Ok(state) = AttemptState::from_i64(code) {
            assert_eq!(state.number(), code);
        }
    }
    assert_eq!(
        AttemptState::from_i64(99).expect_err("unknown").message(),
        RepositoryError::Corrupt("unknown attempt state 99".to_owned()).message()
    );
}

fn observation(at_ms: u64, observation: AttemptObservation) -> ObservedAttempt {
    ObservedAttempt {
        assignment_id: "assignment-1".to_owned(),
        attempt_id: "attempt-1".to_owned(),
        worker_id: "worker-1".to_owned(),
        observed_at_ms: at_ms,
        observation,
    }
}

fn registration(worker_id: &str, instance_id: &str, protocol_minor: u32) -> WorkerRegistration {
    WorkerRegistration {
        protocol_major: 1,
        protocol_minor,
        worker_id: worker_id.to_owned(),
        instance_id: instance_id.to_owned(),
        worker_version: "test".to_owned(),
        features: Vec::new(),
        capabilities: WorkerCapabilities {
            backend: 1,
            architecture: "test".to_owned(),
            device_count: 1,
            max_concurrency: 1,
            driver_version: "test".to_owned(),
            toolkit_version: "test".to_owned(),
            container_runtime: "test".to_owned(),
        },
    }
}

fn prepare_test_assignment(
    repository: &mut ControlRepository,
    attempt_id: &str,
    now_ms: u64,
    lease_duration_ms: u64,
) -> Result<(), RepositoryError> {
    let connection_id = "test-connection";
    if repository.connection(connection_id).is_none() {
        repository.register_worker(
            &registration("worker-1", "test-instance", 0),
            &ConnectionRegistration {
                connection_id: connection_id.to_owned(),
                worker_id: "worker-1".to_owned(),
                instance_id: "test-instance".to_owned(),
                connected_at_ms: now_ms,
            },
        )?;
    }
    repository.mark_assignment_dispatchable(attempt_id, "worker-1", now_ms)?;
    repository.prepare_assignment_delivery(&AssignmentDeliveryPreparation {
        frame: ServerOutboxFrame {
            connection_id: connection_id.to_owned(),
            sequence: now_ms,
            message_id: format!("assignment:{attempt_id}"),
            worker_id: "worker-1".to_owned(),
            kind: ServerFrameKind::Assignment,
            attempt_id: Some(attempt_id.to_owned()),
        },
        lease_id: format!("lease:{attempt_id}"),
        last_worker_sequence: 1,
        last_server_acknowledged_by_worker: 0,
        now_ms,
        lease_duration_ms,
    })?;
    Ok(())
}

fn contract() -> AssignmentContract {
    AssignmentContract {
        assignment_id: "assignment-1".to_owned(),
        attempt_id: "attempt-1".to_owned(),
        attempt_number: 1,
        idempotency_key: "task-1:build".to_owned(),
        task_id: "task-1".to_owned(),
        candidate_id: "candidate-1".to_owned(),
        execution: ExecutionContract {
            executor_kind: ExecutionKind::Container,
            argv: vec!["true".to_owned()],
            working_directory: "source".to_owned(),
            environment: Vec::new(),
            timeout_ms: 30_000,
            bundle: artifact('a'),
            image: artifact('b'),
            limits: None,
        },
        required_features: Vec::new(),
    }
}

fn second_contract() -> AssignmentContract {
    let mut second = contract();
    second.assignment_id = "assignment-2".to_owned();
    second.attempt_id = "attempt-2".to_owned();
    second
}

fn shared_contract(attempt_id: &str) -> AssignmentContract {
    let mut shared = contract();
    shared.assignment_id = format!("assignment-{attempt_id}");
    shared.attempt_id = attempt_id.to_owned();
    shared.idempotency_key = format!("key-{attempt_id}");
    shared.task_id = format!("task-{attempt_id}");
    shared.candidate_id = "candidate-assignment-contract".to_owned();
    shared.execution.timeout_ms = 1_000;
    shared
}

fn delivery(
    contract: &AssignmentContract,
    sequence: u64,
    now_ms: u64,
    lease_duration_ms: u64,
) -> AssignmentDeliveryPreparation {
    AssignmentDeliveryPreparation {
        frame: ServerOutboxFrame {
            connection_id: "assignment-contract-connection".to_owned(),
            sequence,
            message_id: format!("assignment:{}:{sequence}", contract.attempt_id),
            worker_id: "worker-1".to_owned(),
            kind: ServerFrameKind::Assignment,
            attempt_id: Some(contract.attempt_id.clone()),
        },
        lease_id: format!("lease:{}", contract.attempt_id),
        last_worker_sequence: 1,
        last_server_acknowledged_by_worker: 0,
        now_ms,
        lease_duration_ms,
    }
}

fn reported(byte: char) -> ArtifactIdentity {
    artifact(byte).identity()
}

fn artifact(byte: char) -> ArtifactDescriptor {
    ArtifactDescriptor {
        digest: Sha256Digest::parse(&format!("sha256:{}", byte.to_string().repeat(64)))
            .expect("valid fixture digest"),
        size_bytes: 1,
        media_type: "application/octet-stream".to_owned(),
    }
}
