use alloyport::attempts::correctness::{
    assignment, validate_structured_run, CorrectnessWorkerTarget,
    ReductionCorrectnessAttemptSpec, ReductionCorrectnessExperiment, ReductionExecutionBundle,
    ReductionRunReceipt, ReductionRunRole, WorkerCorrectnessAttemptAdapter,
    ASCEND_REDUCTION_CORRECTNESS_FEATURE, CUDA_REDUCTION_CORRECTNESS_FEATURE,
    REDUCTION_EXECUTION_BUNDLE_MEDIA_TYPE, RUNNER_ARGV,
};
use alloyport::attempts::AttemptError;
use alloyport::contexts::{ContextLimits, ModelContextStore};
use alloyport::controller::{
    tools_json, ControllerEpisodeApplication, ControllerEpisodeSpec, ResolvedDeployment,
};
use alloyport::digest::Sha256Digest;
use alloyport::episodes::EpisodeRepository;
use alloyport::json::JsonValue;
use alloyport::storage::{
    ArtifactDescriptor, ExecutionKind, NetworkPolicy, ResourceContract,
};
use alloyport::tools::{
    candidate_episode_tool_definitions, episode_tools, READ_BUILD_DIAGNOSTICS_TOOL, READ_REFERENCE_TOOL,
    REQUEST_ASCEND_BUILD_TOOL, REQUEST_REDUCTION_CORRECTNESS_TOOL, REQUEST_SOURCE_GATE_TOOL,
    SUBMIT_CANDIDATE_BUNDLE_TOOL,
};
use std::collections::BTreeSet;

fn digest(label: &str) -> Sha256Digest {
    Sha256Digest::digest_bytes(label.as_bytes())
}

#[test]
fn candidate_episode_catalog_is_closed_and_grants_authority_only_through_gates() {
    let tools = candidate_episode_tool_definitions();
    assert!(tools.iter().all(|tool| tool.strict));
    assert_eq!(
        tools
            .iter()
            .map(|tool| tool.name.as_str())
            .collect::<BTreeSet<_>>(),
        BTreeSet::from([
            SUBMIT_CANDIDATE_BUNDLE_TOOL,
            REQUEST_SOURCE_GATE_TOOL,
            REQUEST_ASCEND_BUILD_TOOL,
            READ_BUILD_DIAGNOSTICS_TOOL,
            READ_REFERENCE_TOOL,
            REQUEST_REDUCTION_CORRECTNESS_TOOL,
        ])
    );
    for tool in tools {
        let schema: serde_json::Value =
            serde_json::from_str(&tool.input_schema).expect("a JSON schema");
        assert_eq!(schema["type"], "object");
        assert_eq!(schema["additionalProperties"], false);
        assert!(schema["required"].is_array());
    }
}

#[test]
fn a_withheld_corpus_is_not_offered() {
    let names = |has_reference: bool| -> Vec<String> {
        episode_tools(has_reference)
            .into_iter()
            .map(|tool| tool.name)
            .collect()
    };
    assert_eq!(episode_tools(true), candidate_episode_tool_definitions());
    assert_eq!(names(true).len(), 6);
    assert_eq!(
        names(false),
        vec![
            SUBMIT_CANDIDATE_BUNDLE_TOOL,
            REQUEST_SOURCE_GATE_TOOL,
            REQUEST_ASCEND_BUILD_TOOL,
            READ_BUILD_DIAGNOSTICS_TOOL,
            REQUEST_REDUCTION_CORRECTNESS_TOOL,
        ]
    );
}

#[test]
fn the_catalog_is_one_json_list() {
    let rendered = tools_json(&candidate_episode_tool_definitions()).expect("valid schemas");
    let read: serde_json::Value = serde_json::from_str(&rendered).expect("JSON");
    assert_eq!(read.as_array().map(|list| list.len()), Some(6));
    assert_eq!(read[0]["strict"], true);
}

fn spec() -> ControllerEpisodeSpec {
    ControllerEpisodeSpec {
        episode_id: "episode-controller-composition".to_owned(),
        task_id: "task-controller-composition".to_owned(),
        search_run_id: "search-controller-composition".to_owned(),
        parent_candidate_id: None,
        subtask_contract_digest: digest("subtask"),
        context_projection_digest: digest("context"),
        input_artifact_root_digest: digest("input-root"),
        runtime_model_alias: None,
        prompt_revision: "candidate-authoring-v1".to_owned(),
        tools: Vec::new(),
        loop_policy: JsonValue::parse(
            "{\"max_model_turns\":1,\"max_model_attempts\":1,\"max_ambiguous_model_attempts\":0,\
             \"max_tool_calls_per_turn\":1,\"max_total_tool_operations\":1,\
             \"max_stop_feedback_turns\":0}",
        )
        .expect("policy"),
        loop_policy_digest: digest("loop-policy"),
        data_boundary_policy_digest: digest("data-boundary"),
        budget_snapshot_digest: digest("budget"),
        request_budget_digest: digest("request-budget"),
        system_prompt: "You are AlloyPort.".to_owned(),
        initial_user_text: "Author one candidate.".to_owned(),
    }
}

fn deployment() -> ResolvedDeployment {
    ResolvedDeployment {
        alias: "configured-default".to_owned(),
        resolved_model_digest: digest("resolved"),
        deployment_digest: digest("deployment"),
        model_profile_digest: digest("profile"),
    }
}

fn contexts() -> ModelContextStore {
    ModelContextStore::new(ContextLimits {
        max_continuation_bytes: 8 * 1024 * 1024,
        max_tool_result_bytes: 8 * 1024 * 1024,
    })
}

#[test]
fn controller_episode_rejects_conflicting_recovery_context() {
    let mut contexts = contexts();
    let _application = ControllerEpisodeApplication::open(spec(), deployment(), &mut contexts)
        .expect("a fresh episode opens");
    let mut conflicting = spec();
    conflicting.system_prompt = "changed prompt".to_owned();
    assert!(ControllerEpisodeApplication::open(conflicting, deployment(), &mut contexts).is_err());
}

#[test]
fn a_recovered_episode_keeps_its_runtime() {
    let mut contexts = contexts();
    let mut repository = EpisodeRepository::new();
    let first = ControllerEpisodeApplication::open(spec(), deployment(), &mut contexts)
        .expect("a fresh episode opens");
    first.claim(&mut repository, b"first".to_vec());
    let again = ControllerEpisodeApplication::open(spec(), deployment(), &mut contexts)
        .expect("the same episode recovers");
    assert!(again.runtime().same(first.runtime()));
    let found = again
        .claim(&mut repository, b"second".to_vec())
        .expect("the first snapshot stands");
    assert_eq!(found.state.snapshot, b"first".to_vec());
    assert_eq!(again.confirm(first.runtime()), Ok(()));

    let mut other = deployment();
    other.deployment_digest = digest("another deployment");
    let moved = ControllerEpisodeApplication::open(spec(), other, &mut contexts)
        .expect("the context is the same");
    assert!(moved.confirm(first.runtime()).is_err());
}

fn descriptor(label: &str, media_type: &str) -> ArtifactDescriptor {
    ArtifactDescriptor {
        digest: digest(label),
        size_bytes: 128,
        media_type: media_type.to_owned(),
    }
}

fn target(worker_id: &str, image: &str) -> CorrectnessWorkerTarget {
    CorrectnessWorkerTarget::new(
        worker_id,
        descriptor(image, "application/vnd.oci.image.manifest.v1+json"),
        ResourceContract {
            cpu_millis: 1_000,
            memory_bytes: 1024 * 1024 * 1024,
            disk_bytes: 1024 * 1024 * 1024,
            process_count: 64,
            output_bytes: 8 * 1024 * 1024,
            device_count: 1,
            network: NetworkPolicy::Disabled,
        },
        60_000,
    )
    .expect("worker target")
}

fn experiment(task: &str, candidate: &str) -> ReductionCorrectnessExperiment {
    ReductionCorrectnessExperiment {
        task_id: task.to_owned(),
        candidate_id: candidate.to_owned(),
        migration_spec_digest: digest("migration"),
        manifest_digest: digest("manifest"),
        source_gate_receipt_digest: digest("source-gate"),
        build_gate_receipt_digest: digest("build-gate"),
        corpus_digest: digest("corpus"),
        policy_digest: digest("policy"),
        experiment_digest: digest("experiment"),
    }
}

fn attempt_spec(task: &str, candidate: &str) -> ReductionCorrectnessAttemptSpec {
    ReductionCorrectnessAttemptSpec {
        experiment: experiment(task, candidate),
        reference_bundle: descriptor("reference-bundle", REDUCTION_EXECUTION_BUNDLE_MEDIA_TYPE),
        candidate_bundle: descriptor("candidate-bundle", REDUCTION_EXECUTION_BUNDLE_MEDIA_TYPE),
    }
}

#[test]
fn paired_assignments_are_stable_role_separated_and_shell_free() {
    let spec = attempt_spec("task-correctness-adapter", "candidate-correctness-adapter");
    let cuda = target("cuda-worker", "cuda-image");
    let ascend = target("ascend-worker", "ascend-image");
    let reference = assignment(
        &spec,
        ReductionRunRole::CudaReference,
        &spec.reference_bundle,
        &cuda,
    )
    .expect("reference assignment");
    let repeated = assignment(
        &spec,
        ReductionRunRole::CudaReference,
        &spec.reference_bundle,
        &cuda,
    )
    .expect("stable reference assignment");
    let candidate = assignment(
        &spec,
        ReductionRunRole::AscendCandidate,
        &spec.candidate_bundle,
        &ascend,
    )
    .expect("candidate assignment");

    assert_eq!(reference, repeated);
    assert_ne!(reference.assignment_id, candidate.assignment_id);
    assert_eq!(
        reference.execution.executor_kind,
        ExecutionKind::CudaCorrectness
    );
    assert_eq!(
        candidate.execution.executor_kind,
        ExecutionKind::AscendCorrectness
    );
    assert_eq!(reference.execution.argv, [RUNNER_ARGV]);
    assert_eq!(candidate.execution.argv, [RUNNER_ARGV]);
    assert!(reference.execution.environment.is_empty());
    assert!(candidate.execution.environment.is_empty());
    assert_eq!(
        reference.required_features,
        [CUDA_REDUCTION_CORRECTNESS_FEATURE]
    );
    assert_eq!(
        candidate.required_features,
        [ASCEND_REDUCTION_CORRECTNESS_FEATURE]
    );
}

#[test]
fn correctness_target_requires_one_offline_device() {
    let mut limits = target("cuda-worker", "cuda-image").limits();
    limits.network = NetworkPolicy::DependencyFetch;
    assert!(CorrectnessWorkerTarget::new(
        "cuda-worker",
        descriptor("cuda-image", "application/vnd.oci.image.manifest.v1+json"),
        limits,
        60_000,
    )
    .is_err());
}

#[test]
fn structured_run_must_bind_the_assigned_implementation() {
    let spec = attempt_spec("task-correctness-run", "candidate-correctness-run");
    let bundle = ReductionExecutionBundle {
        role: ReductionRunRole::CudaReference,
        experiment: experiment("task-correctness-run", "candidate-correctness-run"),
        implementation_digest: digest("implementation"),
    };
    let run = |implementation: &str| ReductionRunReceipt {
        role: ReductionRunRole::CudaReference,
        experiment_digest: digest("experiment"),
        candidate_id: None,
        corpus_digest: digest("corpus"),
        implementation_digest: digest(implementation),
    };
    validate_structured_run(
        &spec,
        ReductionRunRole::CudaReference,
        &bundle,
        &run("implementation"),
    )
    .expect("matching structured run");
    assert!(validate_structured_run(
        &spec,
        ReductionRunRole::CudaReference,
        &bundle,
        &run("different-implementation"),
    )
    .is_err());
}

#[test]
fn a_pair_of_targets_gives_a_pair_of_assignments() {
    let adapter = WorkerCorrectnessAttemptAdapter::new(
        target("cuda-worker", "cuda-image"),
        target("ascend-worker", "ascend-image"),
    )
    .expect("two targets");
    let spec = attempt_spec("task-1", "candidate-1");
    let (reference, candidate) = adapter.assignments(&spec).expect("a pair");
    assert_ne!(reference.attempt_id, candidate.attempt_id);
    assert_eq!(reference.task_id, "task-1");
    assert_eq!(candidate.candidate_id, "candidate-1");
    assert_eq!(
        WorkerCorrectnessAttemptAdapter::new(
            target("same", "cuda-image"),
            target("same", "ascend-image"),
        ),
        Err(AttemptError::Rejected(
            "CUDA authority and Ascend DUT require distinct workers".to_owned()
        ))
    );
}
