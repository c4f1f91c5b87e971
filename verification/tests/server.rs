use alloyport::artifact::{
    authorize_referenced_artifact, begin_upload, check_download_offset, mtls_owner, parse_digest,
    session_to_proto, start_download, ArtifactIdentity, BeginUploadRequest, DownloadCursor,
    UploadSession, UploadState, UploadStream, DOWNLOAD_CHUNK_BYTES, MAX_UPLOAD_TTL_MS,
};
use alloyport::assembly::{assemble, startup_notice, ArtifactAccess, InteractionAccess};
use alloyport::bootstrap::{
    directories, identities, identity_files, prepare_root, server_names, worker_instruction,
    workers, CertificateUse, Destination, CLI_CONFIG, PUBLIC_MODE, SECRET_MODE, SERVER_CONFIG,
};
use alloyport::control::reconciliation::{
    PreparationReconciliationFailure, PreparationReconciliationReport,
};
use alloyport::digest::Sha256Digest;
use alloyport::identity::{IdentityRegistry, MemoryIdentityRegistry};
use alloyport::identity_admin::{administer, AdminRequest};
use alloyport::paths::{has_file_name, join, starts_with};
use alloyport::server_config::{
    config_locator, listen_text, positive_environment_u64, tls_paths_from_environment, Environment,
    Locator, Place, ServerConfig, ServerFile, Variable, DEFAULT_MAX_ARTIFACT_BYTES,
};
use alloyport::status::{resolve_identity, Code, UploadError};

fn upload(ttl_ms: u64) -> BeginUploadRequest {
    BeginUploadRequest {
        upload_key: "key".to_owned(),
        expected_digest: Sha256Digest::digest_bytes(b"x").as_str().to_owned(),
        expected_size_bytes: 1,
        media_type: "text/plain".to_owned(),
        ttl_ms,
    }
}

#[test]
fn upload_sessions_end_within_policy() {
    let begun = begin_upload("owner", upload(1_000), 5).expect("accepted");
    assert_eq!(begun.expires_at_ms, 1_005);
    assert_eq!(begun.owner_id, "owner");
    for ttl in [0, MAX_UPLOAD_TTL_MS + 1] {
        let refused = begin_upload("owner", upload(ttl), 5).expect_err("outside policy");
        assert_eq!(refused.code, Code::InvalidArgument);
        assert_eq!(refused.message, "upload TTL is outside policy");
    }
    assert!(begin_upload("owner", upload(MAX_UPLOAD_TTL_MS), 5).is_ok());
    assert_eq!(
        parse_digest("sha256:xyz").expect_err("bad digest").code,
        Code::InvalidArgument
    );
}

#[test]
fn artifact_owners_are_their_certificates() {
    let chain = vec![b"hello".to_vec()];
    assert_eq!(
        mtls_owner(Some(Some(&chain))),
        Ok(
            "mtls:sha256:2cf24dba5fb0a30e26e83b2ac5b9e29e1b161e5c1fa7425e73043362938b9824"
                .to_owned()
        )
    );
    for missing in [None, Some(None), Some(Some(&Vec::new()))] {
        assert_eq!(
            mtls_owner(missing).expect_err("no certificate").code,
            Code::Unauthenticated
        );
    }
    assert_eq!(authorize_referenced_artifact(Ok(true)), Ok(()));
    assert_eq!(
        authorize_referenced_artifact(Ok(false))
            .expect_err("not referenced")
            .code,
        Code::PermissionDenied
    );
    let failed = Err((UploadError::Storage, "locked".to_owned()));
    assert_eq!(
        authorize_referenced_artifact(failed).expect_err("storage").code,
        Code::Internal
    );
}

#[test]
fn one_upload_stream_serves_one_session() {
    let mut stream = UploadStream::new();
    assert!(stream.accept("").is_err());
    assert_eq!(stream.accept("upload-1"), Ok(()));
    assert_eq!(stream.accept("upload-1"), Ok(()));
    assert_eq!(
        stream.accept("upload-2").expect_err("another session").message,
        "one upload stream cannot mix session IDs"
    );
    assert_eq!(stream.finish(), Ok("upload-1".to_owned()));
    assert_eq!(
        UploadStream::new().finish().expect_err("empty").message,
        "upload stream is empty"
    );
}

#[test]
fn downloads_stay_inside_the_artifact() {
    assert_eq!(check_download_offset(10, 10), Ok(()));
    assert_eq!(
        check_download_offset(10, 11).expect_err("beyond").code,
        Code::OutOfRange
    );
    assert_eq!(start_download(10, 4, 100, Ok(4)), Ok(6));
    assert_eq!(start_download(10, 4, 3, Ok(4)), Ok(3));
    assert_eq!(
        start_download(10, 4, 3, Ok(2)).expect_err("truncated").code,
        Code::DataLoss
    );
    let mut cursor = DownloadCursor {
        offset: 4,
        left: 100_000,
    };
    assert_eq!(cursor.wanted(), DOWNLOAD_CHUNK_BYTES);
    let chunk = cursor.advance(vec![1, 2, 3]).expect("a chunk");
    assert_eq!((chunk.offset, chunk.data), (4, vec![1, 2, 3]));
    assert_eq!((cursor.offset, cursor.left), (7, 99_997));
    assert_eq!(cursor.advance(Vec::new()), None);
}

#[test]
fn sessions_keep_their_fields_on_the_wire() {
    let message = session_to_proto(UploadSession {
        upload_id: "upload-1".to_owned(),
        upload_key: "key".to_owned(),
        expected_digest: Sha256Digest::digest_bytes(b"x"),
        expected_size_bytes: 1,
        media_type: "text/plain".to_owned(),
        committed_offset: 1,
        state: UploadState::Completed,
        expires_at_ms: 9,
        artifact: Some(ArtifactIdentity {
            digest: Sha256Digest::digest_bytes(b"x"),
            size_bytes: 1,
        }),
    });
    assert_eq!(message.upload_id, "upload-1");
    assert_eq!(
        message.artifact.map(|artifact| artifact.digest),
        Some(message.expected_digest)
    );
}

fn environment() -> Environment {
    Environment {
        listen: Some(Ok(true)),
        tls_certificate: false,
        tls_private_key: false,
        tls_client_ca: false,
        artifact_root: false,
        database: false,
        identity_database: false,
        max_chunk_bytes: Variable::Absent,
        max_artifact_bytes: Variable::Absent,
        total_quota_bytes: Variable::Absent,
        per_owner_quota_bytes: Variable::Absent,
        shutdown_timeout_seconds: Variable::Absent,
    }
}

#[test]
fn a_plain_server_stays_on_the_loopback() {
    let config = ServerConfig::from_environment(&environment()).expect("defaults");
    assert!(!config.has_tls);
    assert_eq!(config.database, Place::Default);
    assert_eq!(config.max_artifact_bytes, DEFAULT_MAX_ARTIFACT_BYTES);
    assert_eq!(config.max_chunk_bytes, 1_048_576);

    let mut open = environment();
    open.listen = Some(Ok(false));
    assert_eq!(
        ServerConfig::from_environment(&open),
        Err("plaintext worker control is restricted to loopback".to_owned())
    );
    open.tls_certificate = true;
    open.tls_private_key = true;
    open.tls_client_ca = true;
    assert!(ServerConfig::from_environment(&open).expect("TLS").has_tls);
    open.tls_client_ca = false;
    assert!(ServerConfig::from_environment(&open).is_err());
    assert_eq!(tls_paths_from_environment(false, false, false), Ok(false));
}

fn server_file() -> ServerFile {
    ServerFile {
        schema_version: 1,
        listen: None,
        tls: false,
        artifact_root: false,
        database: true,
        identity_database: false,
        max_chunk_bytes: None,
        max_artifact_bytes: Some(5),
        total_quota_bytes: None,
        per_owner_quota_bytes: None,
        shutdown_timeout_seconds: Some(7),
    }
}

#[test]
fn environment_values_override_file_values_and_defaults() {
    let mut environment = environment();
    environment.listen = None;
    let file = Some(server_file());
    let config = ServerConfig::load(&environment, &file).expect("file");
    assert_eq!(config.database, Place::File);
    assert_eq!(config.artifact_root, Place::Default);
    assert_eq!(config.identity_database, Place::BelowArtifactRoot);
    assert_eq!(config.max_artifact_bytes, 5);
    assert_eq!(config.shutdown_timeout_seconds, 7);
    assert_eq!(config.max_chunk_bytes, 1_048_576);

    environment.database = true;
    environment.max_artifact_bytes = Variable::Text("9".to_owned());
    let config = ServerConfig::load(&environment, &file).expect("both");
    assert_eq!(config.database, Place::Given);
    assert_eq!(config.max_artifact_bytes, 9);
    assert_eq!(config.shutdown_timeout_seconds, 7);

    assert_eq!(
        ServerConfig::load(&environment, &None),
        ServerConfig::from_environment(&environment)
    );
}

#[test]
fn a_configuration_file_is_held_to_the_same_rules() {
    let environment = environment();
    let mut file = server_file();
    file.shutdown_timeout_seconds = Some(0);
    assert_eq!(
        ServerConfig::load(&environment, &Some(file)),
        Err("ALLOYPORT_SHUTDOWN_TIMEOUT_SECONDS must be greater than zero".to_owned())
    );
    let mut file = server_file();
    file.schema_version = 2;
    assert_eq!(
        ServerConfig::load(&environment, &Some(file)),
        Err("unsupported server config schema 2; expected 1".to_owned())
    );
    let mut open = self::environment();
    open.listen = None;
    let mut file = server_file();
    file.listen = Some(Ok(false));
    assert_eq!(
        ServerConfig::load(&open, &Some(file)),
        Err("plaintext worker control is restricted to loopback".to_owned())
    );
    let mut file = server_file();
    file.listen = Some(Ok(false));
    file.tls = true;
    assert!(ServerConfig::load(&open, &Some(file)).expect("TLS").has_tls);
    let mut file = server_file();
    file.listen = Some(Err("no address".to_owned()));
    assert_eq!(
        ServerConfig::load(&open, &Some(file)),
        Err("no address".to_owned())
    );
}

#[test]
fn the_command_line_locates_the_configuration_first() {
    assert_eq!(config_locator(true, true), Locator::Argument);
    assert_eq!(config_locator(false, true), Locator::Environment);
    assert_eq!(config_locator(false, false), Locator::Nowhere);
}

#[test]
fn a_bundle_enrolls_every_client() {
    for identity in identities() {
        assert_eq!(
            identity.enrolled,
            identity.purpose == CertificateUse::ClientAuthentication
        );
        assert!(directories().contains(&identity.directory));
    }
}

#[test]
fn a_hash_is_spelled_in_lower_case_digits() {
    let mut hash = [0u8; 32];
    hash[0] = 0x0a;
    hash[31] = 0xff;
    assert_eq!(
        Sha256Digest::of_hash(&hash).as_str(),
        "sha256:0a000000000000000000000000000000000000000000000000000000000000ff"
    );
}

#[test]
fn bounds_are_positive_decimal_numbers() {
    let read = |value: &str| {
        positive_environment_u64("BOUND", &Variable::Text(value.to_owned()), 7)
    };
    assert_eq!(read("12"), Ok(12));
    assert_eq!(read("+12"), Ok(12));
    assert_eq!(read("0"), Err("BOUND must be greater than zero".to_owned()));
    assert!(read("").is_err());
    assert!(read("-1").is_err());
    assert!(read("18446744073709551616").is_err());
    assert_eq!(read("18446744073709551615"), Ok(u64::MAX));
    assert_eq!(
        positive_environment_u64("BOUND", &Variable::Absent, 7),
        Ok(7)
    );
    assert!(
        positive_environment_u64("BOUND", &Variable::Unreadable("bad".to_owned()), 7).is_err()
    );
}

#[test]
fn remote_servers_require_enrollment() {
    let mut config = ServerConfig::from_environment(&environment()).expect("defaults");
    let local = assemble(&config);
    assert!(!local.requires_enrollment);
    assert_eq!(local.interaction_access, InteractionAccess::Enrolled);
    assert_eq!(local.artifact_access, ArtifactAccess::Enrolled);
    config.has_tls = true;
    let remote = assemble(&config);
    assert!(remote.requires_enrollment);
    assert_eq!(remote.interaction_access, InteractionAccess::Enrolled);
}

#[test]
fn calls_for_events_and_artifacts_need_a_certificate() {
    let config = ServerConfig::from_environment(&environment()).expect("defaults");
    assert!(!config.has_tls);
    let plan = assemble(&config);
    let mut registry = MemoryIdentityRegistry::new();
    let empty = Vec::new();
    for chain in [None, Some(None), Some(Some(&empty))] {
        let refused = plan
            .authorize_interaction(&registry, chain)
            .expect_err("no certificate");
        assert_eq!(refused.code, Code::Unauthenticated);
        let refused = plan
            .authorize_artifact(&registry, chain)
            .expect_err("no certificate");
        assert_eq!(refused.code, Code::Unauthenticated);
    }
    let chain = vec![b"leaf".to_vec()];
    assert!(plan.authorize_interaction(&registry, Some(Some(&chain))).is_err());
    let leaf = Sha256Digest::digest_bytes(b"leaf");
    registry.enroll("reader", &leaf, 1).expect("enrolled");
    let caller = plan
        .authorize_interaction(&registry, Some(Some(&chain)))
        .expect("enrolled");
    assert_eq!(caller.owner_id, "reader");
    assert_eq!(
        plan.authorize_artifact(&registry, Some(Some(&chain))),
        Ok(caller)
    );
}

#[test]
fn an_upload_stops_when_its_certificate_is_revoked_or_replaced() {
    let mut registry = MemoryIdentityRegistry::new();
    let leaf = Sha256Digest::digest_bytes(b"leaf");
    registry.enroll("owner", &leaf, 1).expect("enrolled");
    let identity = resolve_identity(&registry, Ok(leaf.clone())).expect("resolved");
    let mut stream = UploadStream::new();
    assert_eq!(
        stream.accept_authorized(&registry, &identity, "upload-1"),
        Ok(())
    );
    assert!(stream
        .accept_authorized(&registry, &identity, "upload-2")
        .is_err());
    registry
        .rotate("owner", &leaf, &Sha256Digest::digest_bytes(b"next"), 2)
        .expect("rotated");
    assert!(stream
        .accept_authorized(&registry, &identity, "upload-1")
        .is_err());
    let next = Sha256Digest::digest_bytes(b"next");
    let identity = resolve_identity(&registry, Ok(next.clone())).expect("resolved");
    assert_eq!(
        stream.accept_authorized(&registry, &identity, "upload-1"),
        Ok(())
    );
    registry.revoke(&next, 3).expect("revoked");
    assert_eq!(
        stream
            .accept_authorized(&registry, &identity, "upload-1")
            .expect_err("revoked")
            .code,
        Code::PermissionDenied
    );
    assert_eq!(stream.finish(), Ok("upload-1".to_owned()));
}

#[test]
fn a_server_without_settings_has_the_default_places() {
    let mut nothing = environment();
    nothing.listen = None;
    let config = ServerConfig::from_environment(&nothing).expect("defaults");
    assert_eq!(listen_text(&None, &None), "127.0.0.1:50051");
    assert_eq!(config.database_path("", ""), "alloyport-control.sqlite3");
    let root = config.artifact_root_path("", "");
    assert_eq!(root, "alloyport-artifacts");
    assert_eq!(
        config.identity_database_path("", "", &root),
        "alloyport-artifacts/identities.sqlite3"
    );
    assert!(!config.has_tls);
    assert_eq!(config.shutdown_timeout_seconds, 10);
    assert_eq!(config.max_artifact_bytes, 8 << 30);
    assert_eq!(config.max_chunk_bytes, 1 << 20);
    assert_eq!(config.total_quota_bytes, 64 << 30);
    assert_eq!(config.per_owner_quota_bytes, 16 << 30);

    nothing.database = true;
    let config = ServerConfig::from_environment(&nothing).expect("given");
    assert_eq!(config.database_path("/srv/db", "state/db"), "/srv/db");
    let config = ServerConfig::load(&environment(), &Some(server_file())).expect("file");
    assert_eq!(config.database_path("/srv/db", "state/db"), "state/db");
    let file = Some("0.0.0.0:1".to_owned());
    assert_eq!(listen_text(&None, &file), "0.0.0.0:1");
    assert_eq!(
        listen_text(&Some("127.0.0.1:2".to_owned()), &file),
        "127.0.0.1:2"
    );
}

#[test]
fn startup_tells_of_deferred_assignments() {
    let mut report = PreparationReconciliationReport::new(3);
    assert_eq!(startup_notice(&report), None);
    report.failures.push(PreparationReconciliationFailure {
        attempt_id: "attempt-1".to_owned(),
        detail: "no store".to_owned(),
    });
    assert_eq!(
        startup_notice(&report),
        Some(
            "deferred 1 of 3 preparing assignments during startup reconciliation".to_owned()
        )
    );
}

#[test]
fn a_bundle_needs_an_empty_destination() {
    assert_eq!(prepare_root(Destination::Absent), Ok(true));
    assert_eq!(prepare_root(Destination::EmptyDirectory), Ok(false));
    assert!(prepare_root(Destination::UsedDirectory).is_err());
    assert!(prepare_root(Destination::NotADirectory).is_err());
}

#[test]
fn a_bundle_has_private_keys_and_public_certificates() {
    let (certificate, key) = identity_files("workers/w", "worker");
    assert_eq!(certificate.path, "workers/w/worker.pem");
    assert_eq!(key.path, "workers/w/worker-key.pem");
    assert_eq!((certificate.mode, key.mode), (PUBLIC_MODE, SECRET_MODE));
    assert_eq!((PUBLIC_MODE, SECRET_MODE), (0o644, 0o600));
    for worker in workers() {
        assert!(directories().contains(&worker.directory));
    }
    assert!(server_names().contains(&"alloyport-server".to_owned()));
    assert_eq!(
        worker_instruction("/srv/alloyport", &workers()[0]),
        "  alloyport-worker bootstrap ascend-build \
         /srv/alloyport/workers/ascend-build-worker-1 ./alloyport-worker \
         https://SERVER_ADDRESS:50051"
    );
}

#[test]
fn bundle_configurations_are_json() {
    let server: serde_json::Value = serde_json::from_str(SERVER_CONFIG).expect("JSON");
    assert_eq!(server["listen"], "0.0.0.0:50051");
    assert_eq!(server["tls"]["client_ca"], "pki/ca.pem");
    let cli: serde_json::Value = serde_json::from_str(CLI_CONFIG).expect("JSON");
    assert_eq!(cli["server"]["tls"]["server_name"], "alloyport-server");
}

const PEM: &[u8] = b"-----BEGIN CERTIFICATE-----\naGVsbG8=\n-----END CERTIFICATE-----\n";

#[test]
fn administration_tells_what_it_did() {
    let mut registry = MemoryIdentityRegistry::new();
    let hello = Sha256Digest::digest_bytes(b"hello");
    assert_eq!(
        administer(
            &mut registry,
            AdminRequest::Enroll {
                owner: "worker-1".to_owned(),
                certificate: PEM.to_vec()
            },
            1
        ),
        Ok(format!("enrolled {} as worker-1", hello.as_str()))
    );
    assert_eq!(
        registry.resolve_fingerprint(&hello),
        Ok("worker-1".to_owned())
    );
    assert_eq!(
        administer(
            &mut registry,
            AdminRequest::Revoke {
                certificate: PEM.to_vec()
            },
            2
        ),
        Ok(format!("revoked {} for worker-1", hello.as_str()))
    );
    assert!(administer(
        &mut registry,
        AdminRequest::Enroll {
            owner: "worker-1".to_owned(),
            certificate: b"nothing".to_vec()
        },
        3
    )
    .is_err());
}

#[test]
fn paths_are_compared_by_their_parts() {
    assert_eq!(join("/srv", "state/x"), "/srv/state/x");
    assert_eq!(join("/srv", "/etc/x"), "/etc/x");
    assert!(starts_with("/srv/state/x", "/srv/state"));
    assert!(!starts_with("/srv/state-x", "/srv/state"));
    assert!(has_file_name("/srv/x.sqlite3"));
    assert!(!has_file_name("/"));
    assert!(!has_file_name("/srv/.."));
}
