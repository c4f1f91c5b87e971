use alloyport::events::{
    ArtifactRef, Authority, Event, EventEnvelope, EventSequencer, FileChange, FileChangeKind,
    MessageRole, OutputStream, Producer, ProducerEvent, ProtocolError, Visibility,
};
use alloyport::json::{string_literal, JsonValue};
use alloyport::reducer::{ReduceError, RunReducer};
use alloyport::rendering::render_plain;

fn frame(run_id: &str, event: Event) -> ProducerEvent {
    ProducerEvent::new(run_id, Producer::new("test", "one"), event)
}

fn ingest(
    sequencer: &mut EventSequencer,
    reducer: &mut RunReducer,
    frame: ProducerEvent,
) -> EventEnvelope {
    let envelope = sequencer.ingest(frame).expect("valid producer frame");
    reducer.apply(&envelope).expect("valid event lifecycle");
    envelope
}

#[test]
fn jsonl_uses_stable_type_and_escapes_embedded_newlines() {
    let mut sequencer = EventSequencer::new("run-1");
    let envelope = sequencer
        .ingest(frame(
            "run-1",
            Event::Warning {
                message: "first\nsecond".to_owned(),
            },
        ))
        .expect("frame is accepted");
    let line = envelope.to_json_line();

    assert!(line.contains("\"type\":\"warning\""));
    assert!(line.contains("first\\nsecond"));
    assert_eq!(line.lines().count(), 1);
}

#[test]
fn reducer_accepts_nested_tool_and_command_lifecycles() {
    let mut sequencer = EventSequencer::new("run-1");
    let mut reducer = RunReducer::new();
    ingest(
        &mut sequencer,
        &mut reducer,
        frame(
            "run-1",
            Event::RunStarted {
                task: "port extension".to_owned(),
            },
        ),
    );

    let mut tool = frame(
        "run-1",
        Event::ToolStarted {
            name: "verify".to_owned(),
            arguments: JsonValue::null(),
        },
    );
    tool.operation_id = Some("tool-1".to_owned());
    ingest(&mut sequencer, &mut reducer, tool);

    let mut command = frame(
        "run-1",
        Event::CommandStarted {
            command: "cargo test".to_owned(),
            cwd: Some("/work".to_owned()),
            execution_site: "local".to_owned(),
            description: None,
        },
    );
    command.operation_id = Some("command-1".to_owned());
    command.parent_operation_id = Some("tool-1".to_owned());
    ingest(&mut sequencer, &mut reducer, command);

    let mut command_done = frame(
        "run-1",
        Event::CommandCompleted {
            exit_code: 0,
            elapsed_ms: 12,
            timed_out: false,
            output_artifact: None,
        },
    );
    command_done.operation_id = Some("command-1".to_owned());
    ingest(&mut sequencer, &mut reducer, command_done);

    let mut tool_done = frame(
        "run-1",
        Event::ToolCompleted {
            name: "verify".to_owned(),
            output: "PASS".to_owned(),
        },
    );
    tool_done.operation_id = Some("tool-1".to_owned());
    ingest(&mut sequencer, &mut reducer, tool_done);
}

#[test]
fn reducer_rejects_command_output_without_a_start() {
    let mut sequencer = EventSequencer::new("run-1");
    let mut reducer = RunReducer::new();
    ingest(
        &mut sequencer,
        &mut reducer,
        frame(
            "run-1",
            Event::RunStarted {
                task: "port extension".to_owned(),
            },
        ),
    );

    let mut output = frame(
        "run-1",
        Event::CommandOutput {
            stream: OutputStream::Stdout,
            byte_offset: 0,
            text: "oops".to_owned(),
            display_sanitized: false,
        },
    );
    output.operation_id = Some("missing".to_owned());
    let envelope = sequencer.ingest(output).expect("protocol frame is valid");

    assert_eq!(
        reducer.apply(&envelope),
        Err(ReduceError::OperationNotActive("missing".to_owned()))
    );
}

#[test]
fn reducer_rejects_terminal_run_with_an_active_operation() {
    let mut sequencer = EventSequencer::new("run-1");
    let mut reducer = RunReducer::new();
    ingest(
        &mut sequencer,
        &mut reducer,
        frame(
            "run-1",
            Event::RunStarted {
                task: "port extension".to_owned(),
            },
        ),
    );
    let mut message = frame(
        "run-1",
        Event::MessageStarted {
            role: MessageRole::Assistant,
        },
    );
    message.operation_id = Some("message-1".to_owned());
    ingest(&mut sequencer, &mut reducer, message);
    let terminal = sequencer
        .ingest(frame(
            "run-1",
            Event::RunCompleted {
                result: "too early".to_owned(),
            },
        ))
        .expect("protocol frame is valid");

    assert_eq!(
        reducer.apply(&terminal),
        Err(ReduceError::OperationsStillActive(vec![
            "message-1".to_owned()
        ]))
    );
}

#[test]
fn plain_renderer_shows_command_and_diff_evidence() {
    let mut sequencer = EventSequencer::new("run-1");
    let mut command = frame(
        "run-1",
        Event::CommandStarted {
            command: "python verify.py".to_owned(),
            cwd: Some("/work/demo".to_owned()),
            execution_site: "ascend-worker-2".to_owned(),
            description: Some("run correctness oracle".to_owned()),
        },
    );
    command.operation_id = Some("command-1".to_owned());
    let command = sequencer.ingest(command).expect("valid command");
    assert!(render_plain(&command).contains("ascend-worker-2"));

    let delta = sequencer
        .ingest(frame(
            "run-1",
            Event::WorkspaceDelta {
                changes: vec![FileChange {
                    path: "src/kernel.cpp".to_owned(),
                    kind: FileChangeKind::Modified,
                    additions: Some(2),
                    deletions: Some(1),
                    before_digest: None,
                    after_digest: None,
                }],
                diff: Some("@@ -1 +1 @@\n-old\n+new\n".to_owned()),
                commit: Some("abc123".to_owned()),
            },
        ))
        .expect("valid delta");
    let rendered = render_plain(&delta);
    assert!(rendered.contains("src/kernel.cpp +2/-1"));
    assert!(rendered.contains("-old\n+new"));
}

fn envelope(sequence: u64, event: Event) -> EventEnvelope {
    EventEnvelope {
        schema_version: 1,
        event_id: format!("run-1:{}", sequence),
        run_id: "run-1".to_owned(),
        task_id: None,
        turn_id: None,
        operation_id: None,
        parent_operation_id: None,
        producer_sequence: Some(4),
        sequence,
        emitted_at_unix_ms: 1000,
        producer: Producer::new("test", "one"),
        authority: Authority::Observed,
        visibility: Visibility::User,
        event,
    }
}

#[test]
fn a_line_holds_every_field_in_order() {
    let artifact = ArtifactRef {
        digest: "sha256:ab".to_owned(),
        media_type: "text/plain".to_owned(),
        size_bytes: 7,
        reference: "say \"hi\"".to_owned(),
    };
    let mut event = envelope(
        3,
        Event::CommandCompleted {
            exit_code: -9,
            elapsed_ms: 12,
            timed_out: true,
            output_artifact: Some(artifact),
        },
    );
    event.operation_id = Some("command-1".to_owned());
    assert_eq!(
        event.to_json_line(),
        "{\"schema_version\":1,\"event_id\":\"run-1:3\",\"run_id\":\"run-1\",\"task_id\":null,\
         \"turn_id\":null,\"operation_id\":\"command-1\",\"parent_operation_id\":null,\
         \"producer_sequence\":4,\"sequence\":3,\"emitted_at_unix_ms\":1000,\
         \"producer\":{\"component\":\"test\",\"instance\":\"one\"},\"authority\":\"observed\",\
         \"visibility\":\"user\",\"type\":\"command.completed\",\"payload\":{\"exit_code\":-9,\
         \"elapsed_ms\":12,\"timed_out\":true,\"output_artifact\":{\"digest\":\"sha256:ab\",\
         \"media_type\":\"text/plain\",\"size_bytes\":7,\"reference\":\"say \\\"hi\\\"\"}}}"
    );
}

#[test]
fn strings_are_escaped_as_json_asks() {
    assert_eq!(string_literal(""), "\"\"");
    assert_eq!(
        string_literal("a\"b\\c\n\r\t\u{8}\u{c}\u{1}\u{1f}\u{7f}/\u{e9}"),
        "\"a\\\"b\\\\c\\n\\r\\t\\b\\f\\u0001\\u001f\u{7f}/\u{e9}\""
    );
}

#[test]
fn lists_and_empty_contents_have_their_own_json() {
    let change = FileChange {
        path: "a\tb".to_owned(),
        kind: FileChangeKind::Renamed,
        additions: None,
        deletions: Some(2),
        before_digest: None,
        after_digest: Some("sha256:cd".to_owned()),
    };
    let second = FileChange {
        path: "c".to_owned(),
        kind: FileChangeKind::Binary,
        additions: None,
        deletions: None,
        before_digest: None,
        after_digest: None,
    };
    let delta = envelope(
        1,
        Event::WorkspaceDelta {
            changes: vec![change, second],
            diff: None,
            commit: None,
        },
    );
    assert!(delta.to_json_line().ends_with(
        "\"type\":\"workspace.delta\",\"payload\":{\"changes\":[{\"path\":\"a\\tb\",\
         \"kind\":\"renamed\",\"additions\":null,\"deletions\":2,\"before_digest\":null,\
         \"after_digest\":\"sha256:cd\"},{\"path\":\"c\",\"kind\":\"binary\",\"additions\":null,\
         \"deletions\":null,\"before_digest\":null,\"after_digest\":null}],\"diff\":null,\
         \"commit\":null}}"
    ));
    let gate = envelope(
        2,
        Event::GateCompleted {
            gate: "build".to_owned(),
            passed: false,
            evidence: Vec::new(),
        },
    );
    assert!(gate.to_json_line().ends_with(
        "\"payload\":{\"gate\":\"build\",\"passed\":false,\"evidence\":[]}}"
    ));
    let done = envelope(3, Event::MessageCompleted {});
    assert!(done
        .to_json_line()
        .ends_with("\"type\":\"message.completed\",\"payload\":{}}"));
}

#[test]
fn json_values_are_compacted_and_stay_on_one_line() {
    let value = JsonValue::parse("{ \"b\" : [1, 2],\n \"a\" : \"x\\ny\" }").expect("valid JSON");
    assert_eq!(value.as_str(), "{\"a\":\"x\\ny\",\"b\":[1,2]}");
    assert!(JsonValue::parse("{").is_none());
    assert_eq!(JsonValue::null().as_str(), "null");
    let started = envelope(
        1,
        Event::ToolStarted {
            name: "verify".to_owned(),
            arguments: value,
        },
    );
    let line = started.to_json_line();
    assert!(line.contains("\"arguments\":{\"a\":\"x\\ny\",\"b\":[1,2]}"));
    assert_eq!(line.lines().count(), 1);
}

#[test]
fn the_sequencer_numbers_its_run_and_refuses_other_frames() {
    let mut sequencer = EventSequencer::new("run-1");
    let warning = Event::Warning {
        message: "w".to_owned(),
    };
    let mut other = frame("run-2", warning);
    assert_eq!(
        sequencer.ingest(other.clone()),
        Err(ProtocolError::RunMismatch {
            expected: "run-1".to_owned(),
            actual: "run-2".to_owned()
        })
    );
    other.run_id = "run-1".to_owned();
    other.schema_version = 2;
    let refused = sequencer.ingest(other.clone()).expect_err("schema");
    assert_eq!(refused, ProtocolError::UnsupportedSchema(2));
    other.schema_version = 1;
    let first = sequencer.ingest(other.clone()).expect("accepted");
    let second = sequencer.ingest(other).expect("accepted");
    assert_eq!((first.sequence, second.sequence), (1, 2));
    assert_ne!(first.event_id, second.event_id);
    assert!(first.emitted_at_unix_ms > 1_600_000_000_000);
}

#[test]
fn the_reducer_names_each_protocol_violation() {
    let start = || Event::RunStarted {
        task: "t".to_owned(),
    };
    let mut wrong_schema = envelope(1, start());
    wrong_schema.schema_version = 9;
    assert_eq!(
        RunReducer::new().apply(&wrong_schema),
        Err(ReduceError::UnsupportedSchema(9))
    );
    assert_eq!(
        RunReducer::new().apply(&envelope(2, start())),
        Err(ReduceError::UnexpectedSequence {
            expected: 1,
            actual: 2
        })
    );
    let warning = || Event::Warning {
        message: "w".to_owned(),
    };
    assert_eq!(
        RunReducer::new().apply(&envelope(1, warning())),
        Err(ReduceError::RunNotStarted)
    );

    let mut reducer = RunReducer::new();
    assert_eq!(reducer.apply(&envelope(1, start())), Ok(()));
    assert_eq!(
        reducer.apply(&envelope(2, start())),
        Err(ReduceError::InvalidRunStart)
    );
    let mut foreign = envelope(2, warning());
    foreign.run_id = "run-2".to_owned();
    assert_eq!(reducer.apply(&foreign), Err(ReduceError::RunMismatch));
    let gate = || Event::GateStarted {
        gate: "build".to_owned(),
    };
    assert_eq!(
        reducer.apply(&envelope(2, gate())),
        Err(ReduceError::MissingOperationId)
    );
    let mut opened = envelope(2, gate());
    opened.operation_id = Some("gate-1".to_owned());
    assert_eq!(reducer.apply(&opened), Ok(()));
    let mut repeated = envelope(3, gate());
    repeated.operation_id = Some("gate-1".to_owned());
    assert_eq!(
        reducer.apply(&repeated),
        Err(ReduceError::DuplicateOperation("gate-1".to_owned()))
    );

    let mut finished = RunReducer::new();
    assert_eq!(finished.apply(&envelope(1, start())), Ok(()));
    let failed = Event::RunFailed {
        error: "e".to_owned(),
    };
    assert_eq!(finished.apply(&envelope(2, failed)), Ok(()));
    assert_eq!(
        finished.apply(&envelope(3, warning())),
        Err(ReduceError::EventAfterTerminal)
    );
    assert_eq!(
        ReduceError::UnexpectedSequence {
            expected: 1,
            actual: 2
        }
        .message(),
        "expected sequence 1, got 2"
    );
}

#[test]
fn plain_text_of_events_is_exact() {
    let rendered = |event: Event| render_plain(&envelope(1, event));
    assert_eq!(
        rendered(Event::Warning {
            message: "careful".to_owned()
        }),
        "! careful\n"
    );
    assert_eq!(
        rendered(Event::CommandOutput {
            stream: OutputStream::Stderr,
            byte_offset: 0,
            text: "boom".to_owned(),
            display_sanitized: true
        }),
        "[stderr]\nboom"
    );
    assert_eq!(
        rendered(Event::ApprovalRequested {
            action: "write".to_owned(),
            reason: "needed".to_owned(),
            risk: "low".to_owned()
        }),
        "approval required [low]: write\n  needed\n"
    );
}
