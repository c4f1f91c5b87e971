use alloyport::events::{
    Authority, Event, OutputStream, Producer, ProducerEvent, Visibility,
};
use alloyport::interaction::store::MemoryInteractionStore;
use alloyport::interaction::{
    AppendOutcome, InteractionError, InteractionEventReader, InteractionEventWriter,
    InteractionRunAccessStore, RunGrantOutcome, RunRevokeOutcome,
};
use alloyport::sanitizer::{redact_worker_event, sanitize};

fn populated() -> MemoryInteractionStore {
    let mut store = MemoryInteractionStore::new();
    let start = frame(Event::RunStarted {
        task: "fixture".to_owned(),
    });
    let mut replayed_start = start.clone();
    replayed_start.emitted_at_unix_ms = 99;
    replayed_start.producer.instance = "restarted-server".to_owned();
    assert!(matches!(
        store.append("run:start", &replayed_start),
        Ok(AppendOutcome::Inserted(_))
    ));
    assert!(matches!(
        store.append("run:start", &start),
        Ok(AppendOutcome::Duplicate(_))
    ));
    let conflicting = frame(Event::RunStarted {
        task: "changed".to_owned(),
    });
    assert!(matches!(
        store.append("run:start", &conflicting),
        Err(InteractionError::ConflictingDedupKey(_))
    ));

    let output = output_frame(3, "abc");
    let appended = store
        .append_output("output:3", "attempt-1", 1, 3, b"abc", &output)
        .unwrap();
    assert_eq!(appended.missing_bytes_before, 3);
    assert!(matches!(
        store
            .append_output("output:3", "attempt-1", 1, 3, b"abc", &output)
            .unwrap()
            .outcome,
        AppendOutcome::Duplicate(_)
    ));
    assert!(matches!(
        store.append_output("output:3", "attempt-1", 1, 3, b"xyz", &output),
        Err(InteractionError::ConflictingOutput { .. })
    ));
    let overlap = output_frame(4, "overlap");
    assert!(matches!(
        store.append_output("output:4", "attempt-1", 1, 4, b"overlap", &overlap),
        Err(InteractionError::ConflictingOutput { .. })
    ));
    store
}

#[test]
fn durable_sequence_dedup_conflict_gap_and_restart() {
    populated();
    let mut reopened = populated();
    let output = output_frame(3, "abc");
    assert!(matches!(
        reopened
            .append_output("output:3", "attempt-1", 1, 3, b"abc", &output)
            .unwrap()
            .outcome,
        AppendOutcome::Duplicate(_)
    ));
    let events = reopened.events("task-1").unwrap();
    assert_eq!(events.len(), 2);
    assert_eq!(events[0].sequence, 1);
    assert_eq!(events[1].sequence, 2);
    assert_eq!(reopened.latest_sequence("task-1"), Ok(Some(2)));
    assert_eq!(
        reopened
            .events_after("task-1", 1, 1)
            .unwrap()
            .into_iter()
            .map(|event| event.sequence)
            .collect::<Vec<_>>(),
        vec![2]
    );
    assert!(reopened.events_after("task-1", 0, 0).unwrap().is_empty());
}

fn granted() -> MemoryInteractionStore {
    let mut store = MemoryInteractionStore::new();
    assert_eq!(
        store.grant_run_access("task-1", "owner-a", 1),
        Ok(RunGrantOutcome::Granted)
    );
    assert_eq!(
        store.grant_run_access("task-1", "owner-a", 99),
        Ok(RunGrantOutcome::Duplicate)
    );
    assert!(store.can_read_run("task-1", "owner-a").unwrap());
    assert!(!store.can_read_run("task-1", "owner-b").unwrap());
    assert_eq!(
        store.revoke_run_access("task-1", "owner-a", 2),
        Ok(RunRevokeOutcome::Revoked)
    );
    assert_eq!(
        store.revoke_run_access("task-1", "owner-a", 3),
        Ok(RunRevokeOutcome::Duplicate)
    );
    assert!(!store.can_read_run("task-1", "owner-a").unwrap());
    assert!(matches!(
        store.grant_run_access("task-1", "owner-a", 4),
        Err(InteractionError::RevokedRunGrant { .. })
    ));
    store
}

#[test]
fn run_grants_are_durable_idempotent_and_revocation_is_terminal() {
    granted();
    let mut reopened = granted();
    assert!(!reopened.can_read_run("task-1", "owner-a").unwrap());
    assert_eq!(
        reopened.grant_run_access("task-1", "owner-b", 5),
        Ok(RunGrantOutcome::Granted)
    );
    assert!(reopened.can_read_run("task-1", "owner-b").unwrap());
}

#[test]
fn controller_redaction_strips_terminal_controls_and_common_credentials() {
    let event = Event::CommandOutput {
        stream: OutputStream::Stdout,
        byte_offset: 0,
        text: "\u{1b}[31mTOKEN=top-secret\u{1b}[0m\nBearer credential\nordinary secret text"
            .to_owned(),
        display_sanitized: false,
    };
    let event = redact_worker_event(event);
    assert_eq!(
        event,
        Event::CommandOutput {
            stream: OutputStream::Stdout,
            byte_offset: 0,
            text: "TOKEN=[REDACTED]\nBearer [REDACTED]\nordinary secret text".to_owned(),
            display_sanitized: true,
        }
    );
}

#[test]
fn runs_are_numbered_on_their_own() {
    let mut store = MemoryInteractionStore::new();
    let warning = |run: &str, message: &str| {
        frame_for(
            run,
            Event::Warning {
                message: message.to_owned(),
            },
        )
    };
    let first = store.append("a", &warning("task-1", "x")).unwrap();
    let other = store.append("a", &warning("task-2", "y")).unwrap();
    let second = store.append("b", &warning("task-1", "z")).unwrap();
    assert_eq!(first.envelope().sequence, 1);
    assert_eq!(other.envelope().sequence, 1);
    assert_eq!(second.envelope().sequence, 2);
    assert_ne!(first.envelope().event_id, second.envelope().event_id);
    assert_eq!(store.latest_sequence("task-3"), Ok(None));
}

#[test]
fn frames_without_a_key_or_a_run_are_refused() {
    let mut store = MemoryInteractionStore::new();
    let warning = Event::Warning {
        message: "w".to_owned(),
    };
    assert!(matches!(
        store.append("", &frame(warning)),
        Err(InteractionError::InvalidFrame(_))
    ));
    assert!(matches!(
        store.revoke_run_access("task-1", "owner-a", 1),
        Err(InteractionError::MissingRunGrant { .. })
    ));
    assert!(matches!(
        store.grant_run_access("task-1", "owner-a", u64::MAX),
        Err(InteractionError::ValueOutOfRange(u64::MAX))
    ));
}

#[test]
fn shown_text_keeps_lines_and_drops_controls() {
    assert_eq!(sanitize("a\u{7}b\tc\n"), "ab\tc\n");
    assert_eq!(sanitize("plain"), "plain");
    assert_eq!(sanitize("a\u{85}b\u{80}c\u{9f}d\u{a0}e\u{7f}"), "abcd\u{a0}e");
    assert_eq!(sanitize("x\u{9b}31my"), "xy");
    assert_eq!(sanitize("x\u{1b}[31my"), "xy");
}

fn frame(event: Event) -> ProducerEvent {
    frame_for("task-1", event)
}

fn frame_for(run_id: &str, event: Event) -> ProducerEvent {
    let mut frame = ProducerEvent::new(run_id, Producer::new("controller", "server"), event);
    frame.task_id = Some(run_id.to_owned());
    frame.authority = Authority::Observed;
    frame.visibility = Visibility::User;
    frame.emitted_at_unix_ms = 1;
    frame
}

fn output_frame(byte_offset: u64, text: &str) -> ProducerEvent {
    let mut frame = frame(Event::CommandOutput {
        stream: OutputStream::Stdout,
        byte_offset,
        text: text.to_owned(),
        display_sanitized: false,
    });
    frame.operation_id = Some("attempt-1".to_owned());
    frame
}
