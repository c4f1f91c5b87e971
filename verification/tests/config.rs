use alloyport::candidate_config::{
    read_regular_file, read_reference_sources, real_directory, render_context_projection,
    require_safe_output_file, CandidateEpisodeConfig, CandidateEpisodeFileConfig, CodecLimits,
    DirectoryFacts, EpisodeFileConfig, FileFacts, FileKind, ImageFileConfig, InputObservations,
    MigrationFacts, ResolvedModelFacts, ResourceFileConfig, SourceFacts, TargetFileConfig,
    MAX_REFERENCE_BYTES, OCI_IMAGE_CONFIG_MEDIA_TYPE,
};
use alloyport::digest::Sha256Digest;
use alloyport::json::JsonValue;
use alloyport::ordered::TextMap;
use alloyport::tools::episode_tools;

fn digest(label: &str) -> Sha256Digest {
    Sha256Digest::digest_bytes(label.as_bytes())
}

fn image(label: &str) -> ImageFileConfig {
    ImageFileConfig {
        digest: digest(label),
        size_bytes: 1,
        media_type: OCI_IMAGE_CONFIG_MEDIA_TYPE.to_owned(),
    }
}

fn target(worker_id: &str, label: &str, device_count: u32) -> TargetFileConfig {
    TargetFileConfig {
        worker_id: worker_id.to_owned(),
        image: image(label),
        timeout_ms: 120_000,
        limits: ResourceFileConfig {
            cpu_millis: 4000,
            memory_bytes: 8_589_934_592,
            disk_bytes: 1_073_741_824,
            process_count: 128,
            output_bytes: 8_388_608,
            device_count,
        },
    }
}

fn json(text: &str) -> JsonValue {
    JsonValue::parse(text).expect("JSON")
}

fn file() -> CandidateEpisodeFileConfig {
    CandidateEpisodeFileConfig {
        schema_version: 1,
        model_catalog: "catalog.json".to_owned(),
        migration_spec: "/fixture/migration-spec-v1.json".to_owned(),
        reference_root: "/fixture".to_owned(),
        reference_corpus_root: None,
        reference_corpus_ledger: None,
        workspace_root: "workspace".to_owned(),
        episode_database: "episode.sqlite3".to_owned(),
        generation_strategy: json("\"direct_ascend_c\""),
        episode: EpisodeFileConfig {
            episode_id: "episode-test".to_owned(),
            task_id: "task-test".to_owned(),
            search_run_id: "search-test".to_owned(),
            parent_candidate_id: None,
            runtime_model_alias: None,
            prompt_revision: "candidate-v1".to_owned(),
            loop_policy: json(
                "{\"max_model_turns\":8,\"max_model_attempts\":12,\
                 \"max_ambiguous_model_attempts\":1,\"max_tool_calls_per_turn\":4,\
                 \"max_total_tool_operations\":16,\"max_stop_feedback_turns\":2}",
            ),
            system_prompt: "system.txt".to_owned(),
            initial_user_text: "user.txt".to_owned(),
        },
        build: target("ascend-build-1", "build-image", 0),
        cuda: target("cuda-correctness-1", "cuda-image", 1),
        ascend: target("ascend-build-1", "ascend-image", 1),
        codec_limits: None,
        worker_poll_interval_ms: 1000,
        worker_ready_timeout_ms: 10000,
    }
}

fn directory(path: &str) -> DirectoryFacts {
    DirectoryFacts {
        inspected: Ok(FileKind::Directory),
        canonical: Ok(path.to_owned()),
    }
}

fn text_file(path: &str, contents: &str) -> FileFacts {
    FileFacts {
        path: path.to_owned(),
        inspected: Ok((FileKind::Regular, contents.len() as u64)),
        read: Ok(contents.as_bytes().to_vec()),
    }
}

fn source(path: &str, contents: &str) -> SourceFacts {
    SourceFacts {
        path: path.to_owned(),
        inspected: Ok((FileKind::Regular, contents.len() as u64)),
        canonical: Ok(format!("/fixture/{path}")),
        read: Ok(contents.as_bytes().to_vec()),
    }
}

const KERNEL: &str = "extern \"C\" int alloyport_reduce_sum_f32(const float*, float*, int);\n";

fn observations() -> InputObservations {
    InputObservations {
        catalog_file: text_file("/deploy/catalog.json", "{}"),
        migration_file: text_file("/fixture/migration-spec-v1.json", "{}"),
        catalog: Ok(()),
        migration: Ok(MigrationFacts {
            rendered: "{\"schema_version\":1}".to_owned(),
            digest: digest("migration"),
        }),
        reference_root: directory("/fixture"),
        corpus_root: directory("/fixture"),
        corpus: Ok(()),
        workspace_root: directory("/deploy/workspace"),
        database_parent: directory("/deploy"),
        database_entry: None,
        default_limits: CodecLimits {
            max_response_bytes: 8_388_608,
            max_request_bytes: 8_388_608,
            max_continuation_bytes: 8_388_608,
            max_tool_argument_bytes: 1_048_576,
            max_tool_result_bytes: 1_048_576,
            max_narrative_bytes: 1_048_576,
            max_tool_calls: 64,
        },
        limits: Ok(()),
        system_prompt: text_file("/deploy/system.txt", "You are a migration agent."),
        initial_user_text: text_file(
            "/deploy/user.txt",
            "Produce the gated reduction candidate.",
        ),
        sources: vec![source("input/src/reduce_sum_kernel.cu", KERNEL)],
        loop_policy: Ok(()),
        resolved: Ok(ResolvedModelFacts {
            data_boundary: json("\"external_provider\""),
            max_output_tokens: 4096,
            transport_policy: json("{\"max_request_bytes\":8388608}"),
        }),
    }
}

fn load(file: CandidateEpisodeFileConfig) -> Result<CandidateEpisodeConfig, String> {
    CandidateEpisodeConfig::from_file(
        file,
        "/deploy",
        &observations(),
        &None,
        &None,
        digest("loop-policy"),
    )
}

#[test]
fn strict_config_preflights_without_provider_dispatch() {
    let config = load(file()).expect("a complete configuration");
    assert_eq!(config.workers.required_workers.len(), 3);
    assert_eq!(
        config.workers.required_workers[0].id,
        config.workers.required_workers[2].id
    );
    assert_eq!(config.workspace_root, "/deploy/workspace");
    assert!(config
        .episode
        .initial_user_text
        .contains("extern \"C\" int alloyport_reduce_sum_f32"));
    assert!(config
        .episode
        .initial_user_text
        .contains("BEGIN SOURCE input/src/reduce_sum_kernel.cu"));
    assert_ne!(config.episode.context_projection_digest, digest("context"));
}

#[test]
fn the_corpus_decides_which_tools_are_offered() {
    let withheld = load(file()).expect("a complete configuration");
    assert!(!withheld.has_reference);
    assert_eq!(withheld.into_episode().tools, episode_tools(false));
    let mut offered = file();
    offered.reference_corpus_root = Some("corpus".to_owned());
    assert!(load(offered).is_err());
    let mut offered = file();
    offered.reference_corpus_root = Some("corpus".to_owned());
    offered.reference_corpus_ledger = Some("corpus/ledger.json".to_owned());
    let offered = load(offered).expect("a configuration with a corpus");
    assert!(offered.has_reference);
    assert_eq!(offered.into_episode().tools, episode_tools(true));
}

#[test]
fn unknown_fields_and_placeholder_images_fail_closed() {
    let placeholder = ImageFileConfig {
        digest: Sha256Digest::parse(
            "sha256:0000000000000000000000000000000000000000000000000000000000000000",
        )
        .expect("digest"),
        size_bytes: 1,
        media_type: OCI_IMAGE_CONFIG_MEDIA_TYPE.to_owned(),
    };
    assert!(placeholder.into_descriptor().is_err());
}

#[test]
fn each_part_of_a_configuration_is_required() {
    let refused = |change: fn(&mut CandidateEpisodeFileConfig)| {
        let mut changed = file();
        change(&mut changed);
        load(changed).expect_err("refused")
    };
    assert_eq!(
        refused(|f| f.schema_version = 2),
        "unsupported candidate Episode config schema 2; expected 1"
    );
    assert_eq!(
        refused(|f| f.worker_poll_interval_ms = 0),
        "worker polling must be positive and fit inside the ready timeout"
    );
    assert_eq!(
        refused(|f| f.cuda.worker_id = "ascend-build-1".to_owned()),
        "CUDA correctness must use a worker distinct from Ascend execution"
    );
    assert_eq!(
        refused(|f| f.build.worker_id = " ".to_owned()),
        "build worker ID must be nonempty"
    );
    assert_eq!(
        refused(|f| f.ascend.limits.device_count = 2),
        "correctness worker target is incomplete or unsafe"
    );
}

#[test]
fn what_was_read_decides() {
    let with = |change: fn(&mut InputObservations)| {
        let mut seen = observations();
        change(&mut seen);
        CandidateEpisodeConfig::from_file(file(), "/deploy", &seen, &None, &None, digest("p"))
    };
    assert!(with(|_| ()).is_ok());
    assert_eq!(
        with(|seen| seen.catalog = Err("no catalog".to_owned())),
        Err("no catalog".to_owned())
    );
    assert_eq!(
        with(|seen| {
            seen.catalog_file.inspected = Ok((FileKind::Symlink, 2));
            seen.catalog = Err("no catalog".to_owned());
        }),
        Err("runtime model catalog must be a regular non-symlink file".to_owned())
    );
    assert_eq!(
        with(|seen| seen.catalog_file.inspected = Err("denied".to_owned())),
        Err("cannot inspect runtime model catalog /deploy/catalog.json: denied".to_owned())
    );
    assert_eq!(
        with(|seen| seen.catalog_file.read = Err("gone".to_owned())),
        Err("cannot read runtime model catalog /deploy/catalog.json: gone".to_owned())
    );
    assert_eq!(
        with(|seen| {
            seen.migration_file.inspected = Ok((FileKind::Regular, MAX_REFERENCE_BYTES + 1));
            seen.migration = Err("no migration".to_owned());
        }),
        Err("MigrationSpec exceeds its configured bound".to_owned())
    );
    assert_eq!(
        with(|seen| seen.migration_file.inspected = Ok((FileKind::Directory, 0))),
        Err("MigrationSpec must be a regular non-symlink file".to_owned())
    );
    assert_eq!(
        with(|seen| seen.migration = Err("no migration".to_owned())),
        Err("no migration".to_owned())
    );
    assert!(with(|seen| seen.workspace_root = directory("/deploy")).is_err());
    assert!(with(|seen| seen.system_prompt.read = Ok(vec![0xff])).is_err());
    assert!(with(|seen| seen.sources[0].canonical = Ok("/etc/passwd".to_owned())).is_err());
    let refused = CandidateEpisodeConfig::from_file(
        file(),
        "/deploy",
        &observations(),
        &Some("build bounds are invalid".to_owned()),
        &None,
        digest("p"),
    );
    assert_eq!(refused, Err("build bounds are invalid".to_owned()));
}

#[test]
fn files_are_regular_and_bounded() {
    let small = text_file("/f", "abc");
    assert_eq!(read_regular_file(&small, "file", 3), Ok(b"abc".to_vec()));
    assert!(read_regular_file(&small, "file", 2).is_err());
    let mut linked = text_file("/f", "abc");
    linked.inspected = Ok((FileKind::Symlink, 3));
    assert!(read_regular_file(&linked, "file", 3).is_err());
    assert_eq!(
        real_directory(&directory("/d"), "root"),
        Ok("/d".to_owned())
    );
    let mut linked = directory("/d");
    linked.inspected = Ok(FileKind::Symlink);
    assert!(real_directory(&linked, "root").is_err());
    let parent = directory("/d");
    assert_eq!(
        require_safe_output_file("/d/x", "database", &parent, None),
        Ok(())
    );
    assert!(require_safe_output_file("/d/..", "database", &parent, None).is_err());
    assert!(
        require_safe_output_file("/d/x", "database", &parent, Some(FileKind::Symlink)).is_err()
    );
}

#[test]
fn sources_stay_below_the_root_and_the_bound() {
    let list = vec![source("a.cu", "x"), source("b.cu", "y")];
    let read = read_reference_sources(&list, "/fixture").expect("two sources");
    assert_eq!(read.get("b.cu"), Some(&b"y".to_vec()));
    let mut large = source("a.cu", "x");
    large.inspected = Ok((FileKind::Regular, MAX_REFERENCE_BYTES + 1));
    assert!(read_reference_sources(&vec![large], "/fixture").is_err());
    assert!(read_reference_sources(&list, "/elsewhere").is_err());
}

#[test]
fn the_projection_begins_with_the_operator() {
    let mut sources: TextMap<Vec<u8>> = TextMap::new();
    sources.insert("a.cu".to_owned(), b"body".to_vec());
    let projection =
        render_context_projection("Please port.", "{}", &sources).expect("valid sources");
    assert!(projection.text.starts_with("Please port."));
    assert!(projection.text.contains("body"));
    let mut binary: TextMap<Vec<u8>> = TextMap::new();
    binary.insert("a.cu".to_owned(), vec![0xff]);
    assert!(render_context_projection("Please port.", "{}", &binary).is_err());
}

#[test]
fn a_template_is_fitted_to_one_task() {
    let fitted = file().fit_task("task-9", "/project", "/work", "/run");
    assert_eq!(fitted.episode.task_id, "task-9");
    assert_eq!(fitted.episode.episode_id, "episode-task-9");
    assert_eq!(fitted.reference_root, "/project");
}
