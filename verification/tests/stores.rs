use alloyport::contexts::{
    initial_digest, ContextLimits, ContinuationBasis, ModelContextStore,
    ModelTurnRequest, NativeContinuation, ProviderTurnExchange,
};
use alloyport::digest::Sha256Digest;
use alloyport::episodes::{
    read_row, DurableEpisodeState, EpisodeRepository, EpisodeRepositoryError, EpisodeRow,
};
use alloyport::migrations::{
    accept_existing, check_encoded_project, check_project, check_specification, task_ending, ExistingFile,
    MigrationTaskError, MigrationTaskState, MigrationTaskStore, MigrationTaskSubmission,
    ProjectFile,
};
use alloyport::vault::ArtifactVault;

fn digest(label: &str) -> Sha256Digest {
    Sha256Digest::digest_bytes(label.as_bytes())
}

fn state(id: &str, snapshot: &str) -> DurableEpisodeState {
    DurableEpisodeState {
        episode_id: id.to_owned(),
        snapshot: snapshot.as_bytes().to_vec(),
    }
}

#[test]
fn sqlite_episode_repository_matches_reference_contract() {
    let mut repository = EpisodeRepository::new();
    let id = "episode-sqlite-cas";
    let expected = state(id, "snapshot");
    assert_eq!(
        repository.load(id),
        Err(EpisodeRepositoryError::NotFound(id.to_owned()))
    );
    repository.create(expected.clone()).unwrap();
    assert_eq!(
        repository.create(expected.clone()),
        Err(EpisodeRepositoryError::AlreadyExists(id.to_owned()))
    );
    assert_eq!(repository.save(0, expected.clone()), Ok(1));
    assert_eq!(
        repository.save(0, expected),
        Err(EpisodeRepositoryError::Conflict {
            expected: 0,
            actual: 1,
        })
    );
    assert_eq!(repository.load(id).unwrap().revision, 1);
}

#[test]
fn sqlite_episode_repository_reopens_exact_snapshot() {
    let expected = state("episode-sqlite-reopen", "snapshot");
    let row = {
        let mut repository = EpisodeRepository::new();
        repository.create(expected.clone()).unwrap();
        repository.row("episode-sqlite-reopen").expect("stored")
    };
    let mut reopened = EpisodeRepository::new();
    reopened.restore("episode-sqlite-reopen", row).unwrap();
    let loaded = reopened.load("episode-sqlite-reopen").unwrap();
    assert_eq!(loaded.revision, 0);
    assert_eq!(loaded.state, expected);
}

#[test]
fn sqlite_episode_repository_rejects_malformed_state() {
    let expected = state("episode-sqlite-corrupt", "snapshot");
    let mut repository = EpisodeRepository::new();
    repository.create(expected.clone()).unwrap();
    let mut row = repository.row("episode-sqlite-corrupt").expect("stored");
    row.state = Err("missing field `episode`".to_owned());
    let mut reopened = EpisodeRepository::new();
    assert!(matches!(
        reopened.restore("episode-sqlite-corrupt", row),
        Err(EpisodeRepositoryError::Adapter(_))
    ));
    assert!(reopened.load("episode-sqlite-corrupt").is_err());
    let refused = |revision: i64, id: &str| {
        read_row(
            "episode-sqlite-corrupt",
            EpisodeRow {
                revision,
                state: Ok(state(id, "snapshot")),
            },
        )
    };
    assert_eq!(
        refused(-1, "episode-sqlite-corrupt"),
        Err(EpisodeRepositoryError::Adapter(
            "stored episode revision is negative".to_owned()
        ))
    );
    assert_eq!(
        refused(0, "another"),
        Err(EpisodeRepositoryError::Adapter(
            "stored episode identity does not match its key".to_owned()
        ))
    );
}

#[test]
fn only_one_of_two_writers_saves() {
    let mut repository = EpisodeRepository::new();
    repository.create(state("episode-1", "first")).unwrap();
    assert_eq!(repository.save(0, state("episode-1", "mine")), Ok(1));
    assert!(repository.save(0, state("episode-1", "theirs")).is_err());
    assert_eq!(
        repository.load("episode-1").unwrap().state,
        state("episode-1", "mine")
    );
    assert_eq!(
        repository.save(0, state("episode-2", "x")),
        Err(EpisodeRepositoryError::NotFound("episode-2".to_owned()))
    );
}

fn submission(
    owner_id: &str,
    request_id: &str,
    task_id: &str,
    project_name: &str,
    project_digest: &Sha256Digest,
    created_at_ms: u64,
) -> MigrationTaskSubmission {
    MigrationTaskSubmission {
        owner_id: owner_id.to_owned(),
        request_id: request_id.to_owned(),
        task_id: task_id.to_owned(),
        project_name: project_name.to_owned(),
        project_digest: project_digest.clone(),
        project_size_bytes: 7,
        file_count: 1,
        created_at_ms,
    }
}

#[test]
fn only_a_failed_migration_resumes_and_it_keeps_its_task_identity() -> Result<(), MigrationTaskError>
{
    let mut store = MigrationTaskStore::new();
    let digest = Sha256Digest::digest_bytes(b"project");
    store.submit(&submission(
        "owner-a",
        "request-a",
        "task-a",
        "project-a",
        &digest,
        10,
    ))?;
    store.claim_next().expect("captured task");

    assert!(store.resume("owner-a", "task-a").is_err());

    store.finish("task-a", MigrationTaskState::Failed)?;
    assert!(
        store.claim_next().is_none(),
        "a failed task stays out of the queue"
    );

    let resumed = store.resume("owner-a", "task-a")?;
    assert_eq!(
        resumed.task_id, "task-a",
        "resuming must not mint a new identity"
    );
    assert_eq!(resumed.state, MigrationTaskState::Captured);
    assert_eq!(
        store
            .claim_next()
            .expect("resumed task is queued again")
            .task_id,
        "task-a"
    );

    store.finish("task-a", MigrationTaskState::Failed)?;
    assert!(store.resume("owner-b", "task-a").is_err());
    store.resume("owner-a", "task-a")?;
    store.claim_next();
    store.finish("task-a", MigrationTaskState::Completed)?;
    assert!(store.resume("owner-a", "task-a").is_err());
    Ok(())
}

#[test]
fn claim_resume_cancel_and_finish_are_durable_state_transitions() -> Result<(), MigrationTaskError>
{
    let mut store = MigrationTaskStore::new();
    let digest = Sha256Digest::digest_bytes(b"project");
    let submitted = store.submit(&submission(
        "owner-a",
        "request-a",
        "task-a",
        "project-a",
        &digest,
        10,
    ))?;
    assert_eq!(submitted.state, MigrationTaskState::Captured);

    let claimed = store.claim_next().expect("captured task");
    assert_eq!(claimed.owner_id, "owner-a");
    assert_eq!(claimed.state, MigrationTaskState::Running);
    let resumed = store.claim_next().expect("running task resumes first");
    assert_eq!(resumed.task_id, "task-a");
    store.finish("task-a", MigrationTaskState::Completed)?;
    assert!(store.claim_next().is_none());

    store.submit(&submission(
        "owner-a",
        "request-b",
        "task-b",
        "project-b",
        &digest,
        11,
    ))?;
    store.cancel("owner-a", "task-b")?;
    assert!(store.is_cancelled("task-b")?);
    assert!(store.claim_next().is_none());
    Ok(())
}

#[test]
fn one_request_identity_is_idempotent_and_changed_bytes_conflict() -> Result<(), MigrationTaskError>
{
    let mut store = MigrationTaskStore::new();
    let digest = Sha256Digest::digest_bytes(b"project");
    let first = store.submit(&submission(
        "owner-a",
        "request-a",
        "task-a",
        "project-a",
        &digest,
        10,
    ))?;
    let repeat = store.submit(&submission(
        "owner-a",
        "request-a",
        "task-a",
        "project-a",
        &digest,
        99,
    ))?;
    assert_eq!(first, repeat, "a repeat must not mint a second task");
    let conflict = store.submit(&submission(
        "owner-a",
        "request-a",
        "task-a",
        "project-a",
        &Sha256Digest::digest_bytes(b"different project"),
        10,
    ));
    assert!(matches!(conflict, Err(MigrationTaskError::Conflict)));
    Ok(())
}

#[test]
fn captured_projects_are_checked_before_they_are_unpacked() {
    let bytes = b"project".to_vec();
    assert_eq!(check_encoded_project(&bytes, &digest("project")), Ok(()));
    assert!(check_encoded_project(&bytes, &digest("other")).is_err());
    let file = |path: &str| ProjectFile {
        path: path.to_owned(),
        path_problem: None,
        contents: b"x".to_vec(),
    };
    let files = vec![file("migration-spec-v1.json"), file("src/a.cu")];
    assert_eq!(check_project(&files, 2), Ok(()));
    assert!(check_project(&files, 1).is_err());
    assert_eq!(check_project(&vec![file("src/a.cu")], 1), Ok(()));
    assert_eq!(check_specification(true), Ok(()));
    assert_eq!(
        check_specification(false),
        Err("project root must contain migration-spec-v1.json".to_owned())
    );
    let mut outside = file("../outside");
    outside.path_problem = Some("it leaves the bundle".to_owned());
    assert_eq!(
        check_project(&vec![outside, file("migration-spec-v1.json")], 2),
        Err("invalid stored project path: it leaves the bundle".to_owned())
    );
    let mut late = file("a");
    late.path_problem = Some("bad".to_owned());
    assert_eq!(
        check_project(&vec![file("b"), file("b"), late], 3),
        Err("stored project paths are not unique and sorted".to_owned())
    );
    let kept = ExistingFile::Regular(b"x".to_vec());
    assert_eq!(accept_existing("src/a.cu", &kept, b"x"), Ok(()));
    assert!(accept_existing("src/a.cu", &kept, b"y").is_err());
    assert!(accept_existing("src/a.cu", &ExistingFile::Unsafe, b"x").is_err());
}

#[test]
fn a_cancelled_task_does_not_report_a_failure() {
    let (state, _, _) = task_ending(true, Err("boom".to_owned()));
    assert_ne!(state, Some(MigrationTaskState::Failed));
    let (state, _, _) = task_ending(false, Err("boom".to_owned()));
    assert_eq!(state, Some(MigrationTaskState::Failed));
    let (state, _, _) = task_ending(false, Ok(()));
    assert_eq!(state, Some(MigrationTaskState::Completed));
}

#[test]
fn kept_artifacts_read_back_within_their_limit() {
    let mut vault = ArtifactVault::new();
    let kept = vault.ingest(b"content");
    assert_eq!(
        kept.as_str(),
        "sha256:ed7002b439e9ac845f22357d822bac1444730fbdb6016d3ec9432297b9ec9f73"
    );
    assert_eq!(vault.ingest(b"content"), kept);
    assert!(vault.contains(kept.as_str()));
    assert_eq!(vault.open(kept.as_str(), 7), Ok(b"content".to_vec()));
    assert!(vault.open(kept.as_str(), 6).is_err());
    assert!(vault.open("sha256:none", 7).is_err());
}

const TOOLS: &[u8] = b"[{\"name\":\"submit_candidate_bundle\",\"description\":\"Submit one generated source bundle.\",\"input_schema\":{\"type\":\"object\"},\"strict\":true}]";

fn limits() -> ContextLimits {
    ContextLimits {
        max_continuation_bytes: 1024 * 1024,
        max_tool_result_bytes: 1024 * 1024,
    }
}

fn request(episode_id: &str, turn_index: u32, input_digest: Sha256Digest) -> ModelTurnRequest {
    ModelTurnRequest {
        attempt_id: format!("model-attempt-context-{turn_index}"),
        episode_id: episode_id.to_owned(),
        turn_index,
        input_digest,
    }
}

fn continuation() -> NativeContinuation {
    NativeContinuation {
        canonical_bytes: b"{\"native_history\":{\"messages\":[]},\"pending_call_ids\":[\"call-a\",\"call-b\"],\"protocol\":\"openai_chat_completions\",\"schema_version\":1}".to_vec(),
        pending_call_ids: vec!["call-a".to_owned(), "call-b".to_owned()],
    }
}

fn exchange() -> ProviderTurnExchange {
    let native_continuation = continuation();
    ProviderTurnExchange {
        raw_exchange_digest: Sha256Digest::digest_bytes(b"response"),
        native_continuation_digest: Sha256Digest::digest_bytes(
            &native_continuation.canonical_bytes,
        ),
        request_body: b"request".to_vec(),
        response_body: b"response".to_vec(),
        native_continuation,
        provider_request_id: Some("provider-request-context".to_owned()),
        actual_model: Some("configured-model".to_owned()),
    }
}

fn derived(basis: &ContinuationBasis) -> Sha256Digest {
    digest(&format!(
        "{} {}",
        basis.continuation.as_str(),
        basis.results.join(" ")
    ))
}

fn recorded(episode_id: &str) -> (ModelContextStore, Sha256Digest, Sha256Digest) {
    let mut store = ModelContextStore::new(limits());
    let initial = store
        .create_episode(
            episode_id,
            "You author candidates.",
            "Port the reduction fixture.",
            TOOLS,
        )
        .unwrap();
    let first = request(episode_id, 1, initial);
    let loaded = store.load(&first, &digest("unused")).unwrap();
    assert_eq!(
        loaded.initial_user_text.as_deref(),
        Some("Port the reduction fixture.")
    );
    let exchange = exchange();
    store.commit(&first, &exchange).unwrap();
    assert!(store.artifacts().contains(digest("request").as_str()));
    assert!(store.artifacts().contains(digest("response").as_str()));

    let result_a = store.keep_artifact(br#"{"candidate":"a"}"#);
    let result_b = store.keep_artifact(br#"{"candidate":"b"}"#);
    for (native_call_id, result_digest) in [("call-a", &result_a), ("call-b", &result_b)] {
        let next = match store.basis_with(episode_id, native_call_id, result_digest) {
            Some(basis) => derived(&basis),
            None => digest("unused"),
        };
        store
            .record_tool_result(episode_id, native_call_id, result_digest, &next)
            .unwrap();
    }
    store.commit(&first, &exchange).unwrap();
    (store, result_a, result_b)
}

#[test]
fn context_store_reopens_exact_continuation_and_tool_results() {
    let episode_id = "episode-model-context";
    let (store, result_a, result_b) = recorded(episode_id);
    let latest = store
        .episode(episode_id)
        .expect("episode is stored")
        .latest_input_digest
        .clone();
    let basis = ContinuationBasis {
        continuation: Sha256Digest::digest_bytes(&continuation().canonical_bytes),
        results: vec![
            result_a.as_str().to_owned(),
            result_b.as_str().to_owned(),
        ],
    };
    assert_eq!(latest, derived(&basis).as_str());
    assert_eq!(store.continuation_basis(episode_id), Some(basis));

    let (reopened, _, _) = recorded(episode_id);
    let latest = Sha256Digest::parse(&latest).expect("digest");
    let basis = reopened.continuation_basis(episode_id).expect("a basis");
    let next = request(episode_id, 2, latest);
    assert!(reopened.load(&next, &digest("another input")).is_err());
    let loaded = reopened.load(&next, &derived(&basis)).unwrap();
    assert!(loaded.initial_user_text.is_none());
    assert_eq!(loaded.continuation, Some(continuation()));
    assert_eq!(
        loaded
            .tool_results
            .iter()
            .map(|result| (result.native_call_id.as_str(), result.output.as_str()))
            .collect::<Vec<_>>(),
        [
            ("call-a", r#"{"candidate":"a"}"#),
            ("call-b", r#"{"candidate":"b"}"#)
        ]
    );
}

#[test]
fn context_store_rejects_wrong_input_and_unrelated_result() {
    let episode_id = "episode-model-context-invalid";
    let mut store = ModelContextStore::new(limits());
    store
        .create_episode(episode_id, "system", "user", TOOLS)
        .unwrap();
    assert!(store
        .load(&request(episode_id, 1, digest("wrong")), &digest("wrong"))
        .is_err());
    let result = store.keep_artifact(b"result");
    assert!(store
        .record_tool_result(episode_id, "unrelated-call", &result, &digest("unused"))
        .is_err());
}

#[test]
fn an_input_has_a_basis_once_every_call_has_its_result() {
    let episode_id = "episode-basis";
    let mut store = ModelContextStore::new(limits());
    let initial = store
        .create_episode(episode_id, "system", "user", TOOLS)
        .unwrap();
    assert_eq!(store.continuation_basis(episode_id), None);
    store
        .commit(&request(episode_id, 1, initial.clone()), &exchange())
        .unwrap();
    let result_a = store.keep_artifact(b"a");
    let result_b = store.keep_artifact(b"b");
    assert_eq!(store.basis_with(episode_id, "call-a", &result_a), None);
    store
        .record_tool_result(episode_id, "call-a", &result_a, &digest("unused"))
        .unwrap();
    let kept = store.episode(episode_id).expect("episode is stored");
    assert_eq!(kept.latest_input_digest, initial.as_str());
    assert_eq!(store.continuation_basis(episode_id), None);
    assert_eq!(store.basis_with(episode_id, "call-a", &result_b), None);
    assert_eq!(store.basis_with(episode_id, "call-c", &result_b), None);
    assert_eq!(store.basis_with("episode-absent", "call-b", &result_b), None);
    let basis = store.basis_with(episode_id, "call-b", &result_b);
    assert_eq!(
        basis.as_ref().map(|basis| basis.results.clone()),
        Some(vec![
            result_a.as_str().to_owned(),
            result_b.as_str().to_owned()
        ])
    );
    store
        .record_tool_result(episode_id, "call-b", &result_b, &digest("next input"))
        .unwrap();
    assert_eq!(store.continuation_basis(episode_id), basis);
    let kept = store.episode(episode_id).expect("episode is stored");
    assert_eq!(kept.latest_input_digest, digest("next input").as_str());
}

#[test]
fn the_same_episode_is_created_once_and_changed_prompts_conflict() {
    let mut store = ModelContextStore::new(limits());
    let first = store.create_episode("episode-1", "s", "u", b"[]").unwrap();
    assert_eq!(
        store.create_episode("episode-1", "s", "u", b"[]"),
        Ok(first.clone())
    );
    assert_eq!(first, initial_digest("s", "u", b"[]"));
    assert!(store.create_episode("episode-1", "s", "v", b"[]").is_err());
    assert_ne!(initial_digest("s", "u", b"[]"), initial_digest("su", "", b"[]"));
}

#[test]
fn a_second_exchange_for_one_turn_must_be_the_first() {
    let episode_id = "episode-model-context";
    let (mut store, _, _) = recorded(episode_id);
    let initial = Sha256Digest::parse(
        &store.episode(episode_id).unwrap().initial_input_digest,
    )
    .unwrap();
    let mut changed = exchange();
    changed.response_body = b"another response".to_vec();
    changed.raw_exchange_digest = digest("another response");
    assert!(store
        .commit(&request(episode_id, 1, initial), &changed)
        .is_err());
}
