use alloyport::attempts::builds::{
    observe_stored, receipt_bytes, receipt_descriptor, terminal, validate_worker_receipt,
    AscendBuildEnvironment, BuildReceipt, BuildStanding,
};
use alloyport::attempts::correctness::{
    document_bytes, finish_pair, run_evidence, terminal_run, CorrectnessReceipt, CorrectnessWorkerTarget,
    FinishedPair, PairDispatch, PairStanding, ReductionCorrectnessAttemptSpec, ReductionCorrectnessExperiment,
    ReductionExecutionBundle, ReductionRunReceipt, ReductionRunRole,
    WorkerCorrectnessAttemptAdapter, REDUCTION_EXECUTION_BUNDLE_MEDIA_TYPE,
};
use alloyport::attempts::{AttemptError, Publication, StoredAttempt};
use alloyport::control::admission::Delivery;
use alloyport::control::WorkerControlService;
use alloyport::digest::Sha256Digest;
use alloyport::events::{millis, stamped, Event, Producer, ProducerEvent};
use alloyport::migrations::{dispatcher_event, event_content_key};
use alloyport::storage::{
    ArtifactDescriptor, ArtifactIdentity, AssignmentContract, AssignmentRecord, AttemptOutcome, AttemptState,
    ExecutionContract, ExecutionKind, FinishedObservation, NetworkPolicy, ResourceContract,
};

fn digest(label: &str) -> Sha256Digest {
    Sha256Digest::digest_bytes(label.as_bytes())
}

fn descriptor(label: &str, media_type: &str) -> ArtifactDescriptor {
    ArtifactDescriptor {
        digest: digest(label),
        size_bytes: label.len() as u64,
        media_type: media_type.to_owned(),
    }
}

fn identity(label: &str, media_type: &str) -> ArtifactIdentity {
    descriptor(label, media_type).identity()
}

fn contract() -> AssignmentContract {
    AssignmentContract {
        assignment_id: "assignment-1".to_owned(),
        attempt_id: "attempt-1".to_owned(),
        attempt_number: 1,
        idempotency_key: "key".to_owned(),
        task_id: "task-1".to_owned(),
        candidate_id: "candidate-1".to_owned(),
        execution: ExecutionContract {
            executor_kind: ExecutionKind::AscendBuild,
            argv: vec!["build".to_owned()],
            working_directory: ".".to_owned(),
            environment: Vec::new(),
            timeout_ms: 1_000,
            bundle: descriptor("bundle", "application/octet-stream"),
            image: descriptor("image", "application/vnd.oci.image.manifest.v1+json"),
            limits: None,
        },
        required_features: Vec::new(),
    }
}

fn finished(outcome: AttemptOutcome) -> FinishedObservation {
    FinishedObservation {
        outcome,
        exit_code: Some(0),
        elapsed_ms: 5,
        receipt: Some(identity("receipt", "application/json")),
        stdout: Some(identity("stdout", "application/json")),
        stderr: None,
        detail: "done".to_owned(),
    }
}

fn stored(state: AttemptState, ended: Option<FinishedObservation>) -> StoredAttempt {
    StoredAttempt {
        record: AssignmentRecord {
            worker_id: "worker-1".to_owned(),
            contract: contract(),
            state,
            created_at_ms: 1,
            updated_at_ms: 2,
            cancellation_reason: None,
        },
        finished: ended,
    }
}

#[test]
fn a_build_stands_as_its_attempt_does() {
    assert!(matches!(
        observe_stored(stored(AttemptState::Running, None)),
        Ok(BuildStanding::Pending { .. })
    ));
    assert_eq!(
        observe_stored(stored(AttemptState::LeaseExpired, None)),
        Err(AttemptError::Unavailable(
            "build attempt lease expired".to_owned()
        ))
    );
    assert_eq!(
        observe_stored(stored(AttemptState::Finished, None)),
        Err(AttemptError::Integrity(
            "finished build attempt lacks terminal observation".to_owned()
        ))
    );
    assert!(matches!(
        observe_stored(stored(AttemptState::Rejected, None)),
        Err(AttemptError::Rejected(_))
    ));
    assert_eq!(
        observe_stored(stored(
            AttemptState::Finished,
            Some(finished(AttemptOutcome::Succeeded))
        )),
        Ok(BuildStanding::Ended {
            finished: finished(AttemptOutcome::Succeeded)
        })
    );
}

#[test]
fn receipts_are_read_as_they_were_published() {
    let published = receipt_descriptor(&finished(AttemptOutcome::Succeeded)).expect("a receipt");
    assert_eq!(published, identity("receipt", "application/json"));
    let mut bare = finished(AttemptOutcome::Succeeded);
    bare.receipt = None;
    assert_eq!(
        receipt_descriptor(&bare),
        Err(AttemptError::Integrity(
            "build attempt lacks worker receipt".to_owned()
        ))
    );
    assert_eq!(
        receipt_bytes(&published, Ok(7), Ok(b"receipt".to_vec())),
        Ok(b"receipt".to_vec())
    );
    assert_eq!(
        receipt_bytes(&published, Ok(7), Ok(b"changed".to_vec())),
        Err(AttemptError::Integrity(
            "worker receipt bytes changed".to_owned()
        ))
    );
    assert!(receipt_bytes(&published, Err("gone".to_owned()), Ok(Vec::new())).is_err());
}

fn build_receipt() -> BuildReceipt {
    BuildReceipt {
        schema_version: 2,
        assignment_id: "assignment-1".to_owned(),
        attempt_id: "attempt-1".to_owned(),
        task_id: "task-1".to_owned(),
        candidate_id: "candidate-1".to_owned(),
        bundle_digest: digest("bundle").as_str().to_owned(),
        image_digest: digest("image").as_str().to_owned(),
        environment: AscendBuildEnvironment {
            architecture: "Ascend950PR".to_owned(),
            cann_version: "9".to_owned(),
            driver_version: "25".to_owned(),
            firmware_version: "9".to_owned(),
        },
        outcome: AttemptOutcome::Succeeded.as_str_name().to_owned(),
        exit_code: Some(0),
        elapsed_ms: 5,
    }
}

#[test]
fn a_build_receipt_binds_its_attempt() {
    let ended = finished(AttemptOutcome::Succeeded);
    assert_eq!(
        validate_worker_receipt(&build_receipt(), &contract(), &ended),
        Ok(())
    );
    for change in [
        |receipt: &mut BuildReceipt| receipt.bundle_digest = digest("other").as_str().to_owned(),
        |receipt: &mut BuildReceipt| receipt.candidate_id = "candidate-2".to_owned(),
        |receipt: &mut BuildReceipt| receipt.exit_code = Some(1),
        |receipt: &mut BuildReceipt| receipt.elapsed_ms = 6,
        |receipt: &mut BuildReceipt| receipt.outcome = "other".to_owned(),
    ] {
        let mut changed = build_receipt();
        change(&mut changed);
        assert_eq!(
            validate_worker_receipt(&changed, &contract(), &ended),
            Err(AttemptError::Integrity(
                "worker receipt does not match the terminal build observation".to_owned()
            ))
        );
    }
    let reported = terminal(&contract(), finished(AttemptOutcome::Succeeded), Ok(build_receipt()))
        .expect("a matching receipt");
    assert_eq!(reported.attempt_id, "attempt-1");
    assert_eq!(reported.environment.architecture, "Ascend950PR");
    assert!(terminal(
        &contract(),
        finished(AttemptOutcome::Succeeded),
        Err("bad JSON".to_owned())
    )
    .is_err());
}

#[test]
fn structured_documents_keep_their_size_and_identity() {
    let published = identity("stdout", "application/json");
    assert_eq!(
        document_bytes(&published, 100, Ok(6), Ok(b"stdout".to_vec())),
        Ok(b"stdout".to_vec())
    );
    assert_eq!(
        document_bytes(&published, 5, Ok(6), Ok(b"stdout".to_vec())),
        Err(AttemptError::Integrity(
            "structured correctness Artifact descriptor is invalid".to_owned()
        ))
    );
    assert_eq!(
        document_bytes(&published, 100, Ok(7), Ok(b"stdout".to_vec())),
        Err(AttemptError::Integrity(
            "structured correctness Artifact size changed".to_owned()
        ))
    );
    assert_eq!(
        document_bytes(&published, 100, Ok(6), Ok(b"stdouT".to_vec())),
        Err(AttemptError::Integrity(
            "structured correctness Artifact identity changed".to_owned()
        ))
    );
    let (receipt, stdout) =
        run_evidence(&finished(AttemptOutcome::Succeeded)).expect("both documents");
    assert_eq!(receipt, identity("receipt", "application/json"));
    assert_eq!(stdout, published);
    let mut silent = finished(AttemptOutcome::Succeeded);
    silent.stdout = None;
    assert!(run_evidence(&silent).is_err());
    assert_eq!(
        run_evidence(&finished(AttemptOutcome::Other(9))),
        Err(AttemptError::Unavailable("done".to_owned()))
    );
    assert_eq!(
        run_evidence(&finished(AttemptOutcome::CandidateFailed)),
        Err(AttemptError::Rejected("done".to_owned()))
    );
}

fn experiment() -> ReductionCorrectnessExperiment {
    ReductionCorrectnessExperiment {
        task_id: "task-1".to_owned(),
        candidate_id: "candidate-1".to_owned(),
        migration_spec_digest: digest("migration"),
        manifest_digest: digest("manifest"),
        source_gate_receipt_digest: digest("source-gate"),
        build_gate_receipt_digest: digest("build-gate"),
        corpus_digest: digest("corpus"),
        policy_digest: digest("policy"),
        experiment_digest: digest("experiment"),
    }
}

fn spec() -> ReductionCorrectnessAttemptSpec {
    ReductionCorrectnessAttemptSpec {
        experiment: experiment(),
        reference_bundle: descriptor("reference", REDUCTION_EXECUTION_BUNDLE_MEDIA_TYPE),
        candidate_bundle: descriptor("candidate", REDUCTION_EXECUTION_BUNDLE_MEDIA_TYPE),
    }
}

fn target(worker_id: &str) -> CorrectnessWorkerTarget {
    CorrectnessWorkerTarget::new(
        worker_id,
        descriptor("image", "application/vnd.oci.image.manifest.v1+json"),
        ResourceContract {
            cpu_millis: 1_000,
            memory_bytes: 1 << 30,
            disk_bytes: 1 << 30,
            process_count: 64,
            output_bytes: 1 << 20,
            device_count: 1,
            network: NetworkPolicy::Disabled,
        },
        60_000,
    )
    .expect("a safe target")
}

fn adapter() -> WorkerCorrectnessAttemptAdapter {
    WorkerCorrectnessAttemptAdapter::new(target("cuda-worker"), target("ascend-worker"))
        .expect("two workers")
}

#[test]
fn a_pair_is_pending_until_both_have_ended() {
    let mut service = WorkerControlService::new(100);
    let spec = spec();
    assert_eq!(
        adapter().observe_pair(service.repository(), &spec),
        Err(AttemptError::Integrity(
            "dispatched correctness assignment is missing".to_owned()
        ))
    );
    let published = Publication::Published;
    let dispatched = adapter()
        .dispatch_pair(&mut service, &spec, &published, &published, (None, None), 5)
        .expect("a pair");
    assert_eq!(
        dispatched,
        PairDispatch {
            reference: Delivery::Pending,
            candidate: Ok(Delivery::Pending),
        }
    );
    assert!(matches!(
        adapter().observe_dispatched(service.repository(), &spec, dispatched.candidate),
        Ok(PairStanding::Pending { .. })
    ));
    assert!(matches!(
        adapter().observe_pair(service.repository(), &spec),
        Ok(PairStanding::Pending { .. })
    ));
}

#[test]
fn a_refused_reference_leaves_the_candidate_alone() {
    let spec = spec();
    let (reference, candidate) = adapter().assignments(&spec).expect("a pair");
    let mut service = WorkerControlService::new(100);
    let published = Publication::Published;
    let unreadable = Publication::Unreadable("no disk".to_owned());
    assert!(adapter()
        .dispatch_pair(&mut service, &spec, &unreadable, &published, (None, None), 5)
        .is_err());
    let kept = service.repository();
    assert!(kept.assignment(&reference.attempt_id).is_none());
    assert!(kept.assignment(&candidate.attempt_id).is_none());

    let mut service = WorkerControlService::new(100);
    let dispatched = adapter()
        .dispatch_pair(&mut service, &spec, &published, &unreadable, (None, None), 5)
        .expect("the reference is queued");
    assert_eq!(dispatched.reference, Delivery::Pending);
    let kept = service.repository();
    assert!(kept.assignment(&reference.attempt_id).is_some());
    assert!(kept.assignment(&candidate.attempt_id).is_none());
    let refusal = AttemptError::Rejected(format!(
        "execution bundle {} is not readable in the controller store: no disk",
        digest("candidate").as_str()
    ));
    assert_eq!(
        adapter().observe_dispatched(kept, &spec, dispatched.candidate),
        Err(refusal)
    );
}

#[test]
fn an_accepted_run_is_bound_to_its_assignment() {
    let spec = spec();
    let (reference, _) = adapter().assignments(&spec).expect("a pair");
    let ended = finished(AttemptOutcome::Succeeded);
    let worker = || CorrectnessReceipt {
        schema_version: 3,
        assignment_id: reference.assignment_id.clone(),
        attempt_id: reference.attempt_id.clone(),
        task_id: reference.task_id.clone(),
        candidate_id: reference.candidate_id.clone(),
        bundle_digest: reference.execution.bundle.digest.as_str().to_owned(),
        image_digest: reference.execution.image.digest.as_str().to_owned(),
        outcome: AttemptOutcome::Succeeded.as_str_name().to_owned(),
        exit_code: Some(0),
        elapsed_ms: 5,
        stdout_digest: digest("stdout"),
    };
    let bundle = || ReductionExecutionBundle {
        role: ReductionRunRole::CudaReference,
        experiment: experiment(),
        implementation_digest: digest("implementation"),
    };
    let run = |implementation: &str| ReductionRunReceipt {
        role: ReductionRunRole::CudaReference,
        experiment_digest: digest("experiment"),
        candidate_id: None,
        corpus_digest: digest("corpus"),
        implementation_digest: digest(implementation),
    };
    let settle = |run: ReductionRunReceipt| {
        terminal_run(
            &spec,
            ReductionRunRole::CudaReference,
            &reference,
            &ended,
            Ok(worker()),
            Ok(bundle()),
            Ok(run),
        )
    };
    assert_eq!(
        settle(run("implementation")),
        Ok(identity("stdout", "application/json"))
    );
    let accepted = || settle(run("implementation"));
    let refused = || settle(run("another"));
    assert_eq!(
        finish_pair(accepted(), accepted()),
        Ok(FinishedPair {
            reference_run: identity("stdout", "application/json"),
            candidate_run: identity("stdout", "application/json"),
        })
    );
    let late = || Err(AttemptError::Unavailable("late".to_owned()));
    assert_eq!(
        finish_pair(late(), refused()),
        Err(AttemptError::Unavailable("late".to_owned()))
    );
    assert_eq!(
        finish_pair(accepted(), late()),
        Err(AttemptError::Unavailable("late".to_owned()))
    );
    assert_eq!(
        settle(run("another")),
        Err(AttemptError::Integrity(
            "structured run receipt does not match its correctness assignment".to_owned()
        ))
    );
}

#[test]
fn the_dispatcher_speaks_for_its_task() {
    let failed = |error: &str| Event::RunFailed {
        error: error.to_owned(),
    };
    let frame = dispatcher_event("task-1", failed("boom"), 7);
    assert_eq!(frame.run_id, "task-1");
    assert_eq!(frame.task_id, Some("task-1".to_owned()));
    assert_eq!(frame.producer.instance, "migration-dispatcher");
    assert_eq!(frame.emitted_at_unix_ms, 7);
    let key = event_content_key(&failed("boom"));
    assert_eq!(key.len(), 16);
    assert_eq!(key, &digest("boom").hexadecimal()[..16]);
    assert_ne!(key, event_content_key(&failed("bang")));
}

#[test]
fn grants_read_the_clock() {
    let mut service = WorkerControlService::new(100);
    assert!(service.grant_interaction_access("task-1", "owner").is_ok());
    assert!(service.revoke_interaction_access("task-1", "owner").is_ok());
    assert_eq!(stamped(Some(12)), 12);
    assert_eq!(stamped(Some(u128::MAX)), 0);
    assert_eq!(stamped(None), 0);
    assert_eq!(millis(3, 999_999), 3_000);
    assert_eq!(millis(3, 1_999_999), 3_001);
    assert_eq!(millis(u64::MAX, 999_999_999), u128::from(u64::MAX) * 1_000 + 999);
    let emitted = ProducerEvent::new(
        "task-1",
        Producer::new("component", "instance"),
        Event::RunFailed {
            error: "boom".to_owned(),
        },
    );
    assert!(emitted.emitted_at_unix_ms > 1_600_000_000_000);
}
