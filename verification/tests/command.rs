use alloyport::command::{
    CandidateEpisodeAction, IdentityAction, PathArgument, ServerCommand, USAGE,
};

fn parse(arguments: &[&str]) -> Result<ServerCommand, String> {
    let list: Vec<Option<String>> = arguments.iter().map(|a| Some((*a).to_owned())).collect();
    ServerCommand::parse(&list)
}

fn named(path: &PathArgument, text: &str) -> bool {
    path.text.as_deref() == Some(text)
}

#[test]
fn config_locator_applies_to_serve_and_identity_commands() {
    let serve = parse(&["--config", "server.json"]).expect("serve");
    assert!(matches!(
        serve,
        ServerCommand::Serve {
            config_path: Some(path)
        } if named(&path, "server.json")
    ));
    let identity = parse(&[
        "--config",
        "server.json",
        "identity",
        "revoke",
        "client.pem",
    ])
    .expect("revoke");
    assert!(matches!(
        identity,
        ServerCommand::Identity {
            config_path: Some(path),
            action: IdentityAction::Revoke { certificate }
        } if named(&path, "server.json") && named(&certificate, "client.pem")
    ));
}

#[test]
fn unknown_or_partial_commands_fail_instead_of_starting_the_server() {
    assert!(parse(&["unknown"]).is_err());
    assert!(parse(&["identity", "enroll", "owner"]).is_err());
}

#[test]
fn candidate_run_requires_the_exact_dispatch_authorization() {
    let validate = parse(&["candidate-episode", "validate", "candidate.json"]).expect("validate");
    assert!(matches!(
        validate,
        ServerCommand::CandidateEpisode {
            action: CandidateEpisodeAction::Validate,
            candidate_config_path,
            ..
        } if named(&candidate_config_path, "candidate.json")
    ));
    assert!(parse(&["candidate-episode", "run", "candidate.json"]).is_err());
    let run = parse(&[
        "candidate-episode",
        "run",
        "candidate.json",
        "--authorize-provider-dispatch",
    ])
    .expect("authorized run");
    assert!(matches!(
        run,
        ServerCommand::CandidateEpisode {
            action: CandidateEpisodeAction::RunAuthorized,
            ..
        }
    ));
}

#[test]
fn a_candidate_record_names_one_task_and_one_empty_destination() {
    let command = parse(&[
        "--config",
        "server.json",
        "candidate-record",
        "task-abc",
        "--into",
        "/srv/record",
    ])
    .expect("record");
    assert!(matches!(
        command,
        ServerCommand::CandidateRecord { task_id, into, .. }
            if task_id == "task-abc" && named(&into, "/srv/record")
    ));
    assert!(parse(&["candidate-record", "task-abc", "/srv/record"]).is_err());
    assert!(parse(&["candidate-record", "task-abc"]).is_err());
}

#[test]
fn bootstrap_requires_exactly_one_directory() {
    let command = parse(&["bootstrap", "/srv/alloyport"]).expect("bootstrap");
    assert!(matches!(
        command,
        ServerCommand::Bootstrap { directory } if named(&directory, "/srv/alloyport")
    ));
    assert!(parse(&["bootstrap"]).is_err());
}

#[test]
fn complaints_name_what_is_missing() {
    assert_eq!(
        parse(&["--config"]),
        Err(format!("missing server configuration path; {USAGE}"))
    );
    assert_eq!(
        parse(&["identity"]),
        Err(format!("missing identity action; {USAGE}"))
    );
    assert_eq!(
        parse(&["identity", "rotate", "owner", "old.pem"]),
        Err(format!("missing new certificate PEM path; {USAGE}"))
    );
    assert_eq!(
        parse(&["candidate-episode", "run", "c.json"]),
        Err(format!("missing provider dispatch authorization; {USAGE}"))
    );
    assert_eq!(parse(&["bootstrap", "a", "b"]), Err(USAGE.to_owned()));
    assert_eq!(
        parse(&["--config", "c", "bootstrap", "a"]),
        Err(USAGE.to_owned())
    );
}

#[test]
fn paths_may_be_other_than_text_and_owners_may_not() {
    let enrolled = ServerCommand::parse(&vec![
        Some("identity".to_owned()),
        Some("enroll".to_owned()),
        Some("owner".to_owned()),
        None,
    ])
    .expect("a certificate path need not be text");
    assert!(matches!(
        enrolled,
        ServerCommand::Identity {
            config_path: None,
            action: IdentityAction::Enroll { certificate: PathArgument { index: 3, text: None }, .. }
        }
    ));
    assert_eq!(
        ServerCommand::parse(&vec![
            Some("identity".to_owned()),
            Some("enroll".to_owned()),
            None,
            Some("a.pem".to_owned()),
        ]),
        Err("owner ID must be UTF-8".to_owned())
    );
}
