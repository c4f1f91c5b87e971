use alloyport::candidate_record::{
    episode_database, episode_id, record_line, require_candidates, require_database,
    require_runtime, summary, GateOutcome,
};

#[test]
fn the_episode_database_is_the_one_a_dispatched_task_writes() {
    assert_eq!(
        episode_database("/var/lib/alloyport/migrations", "task-abc"),
        "/var/lib/alloyport/migrations/task-abc/episode.sqlite3"
    );
}

#[test]
fn a_record_line_tells_every_verdict() {
    let outcomes = vec![
        GateOutcome {
            gate: "source".to_owned(),
            verdict: "passed".to_owned(),
        },
        GateOutcome {
            gate: "build".to_owned(),
            verdict: "failed".to_owned(),
        },
    ];
    assert_eq!(summary(&outcomes), ", source passed, build failed");
    assert_eq!(summary(&Vec::new()), ", no gate ran");
    assert_eq!(
        record_line(
            "0123456789abcdef",
            "refs/tags/refs/tags/candidate-1",
            3,
            &outcomes
        ),
        "  0123456789ab candidate-1 3 file(s), source passed, build failed"
    );
    assert_eq!(
        record_line("0123", "refs/heads/main", 0, &Vec::new()),
        "  0123 refs/heads/main 0 file(s), no gate ran"
    );
    assert_eq!(
        record_line("\u{e9}\u{e9}\u{e9}\u{e9}\u{e9}\u{e9}\u{e9}\u{e9}", "main", 0, &Vec::new()),
        "  \u{e9}\u{e9}\u{e9}\u{e9}\u{e9}\u{e9} main 0 file(s), no gate ran"
    );
}

#[test]
fn a_record_needs_a_runtime_a_database_and_a_submission() {
    assert_eq!(episode_id("task-1"), "episode-task-1");
    assert_eq!(require_runtime(Some("r".to_owned())), Ok("r".to_owned()));
    assert!(require_runtime(None).is_err());
    assert_eq!(
        require_database(false, "/x"),
        Err("no Episode database at /x; candidate-record reads what a run already wrote".to_owned())
    );
    assert_eq!(require_database(true, "/x"), Ok(()));
    assert_eq!(
        require_candidates("episode-1", 7, 0),
        Err("episode-1 recorded 7 tool operations and no candidate submission".to_owned())
    );
    assert_eq!(require_candidates("episode-1", 7, 1), Ok(()));
}
