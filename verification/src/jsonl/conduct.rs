//! What stands in the line of an event, told from the event.
use crate::events::{
    ArtifactRefView, Authority, EventEnvelopeView, EventView, FileChangeKind, FileChangeView,
    MessageRole, OutputStream, Visibility,
};
use crate::json;
use crate::jsonl;
use crate::text;
use vstd::prelude::*;
use vstd::string::*;

verus! {

/// A text is a JSON string, and one that is not there is null.
spec fn or_null(value: Option<Seq<char>>) -> Seq<char> {
    match value {
        Some(s) => json::string_json(s),
        None => "null"@,
    }
}

/// A count is a JSON number, and one that is not there is null.
spec fn number_or_null(value: Option<u64>) -> Seq<char> {
    match value {
        Some(n) => text::decimal(n as nat),
        None => "null"@,
    }
}

/// The start, the end and the failure of a run are written with the task, the result and the error.
pub proof fn runs_are_written(words: Seq<char>)
    ensures
        jsonl::event_type(EventView::RunStarted { task: words }) == "run.started"@,
        jsonl::payload(EventView::RunStarted { task: words }) == "{\"task\":"@ + json::string_json(
            words,
        ) + "}"@,
        jsonl::event_type(EventView::RunCompleted { result: words }) == "run.completed"@,
        jsonl::payload(EventView::RunCompleted { result: words }) == "{\"result\":"@
            + json::string_json(words) + "}"@,
        jsonl::event_type(EventView::RunFailed { error: words }) == "run.failed"@,
        jsonl::payload(EventView::RunFailed { error: words }) == "{\"error\":"@
            + json::string_json(words) + "}"@,
{
}

/// Turns are written with their number, and with their outcome or their error.
pub proof fn turns_are_written(turn: u32, words: Seq<char>)
    ensures
        jsonl::event_type(EventView::TurnStarted { turn }) == "turn.started"@,
        jsonl::payload(EventView::TurnStarted { turn }) == "{\"turn\":"@ + text::decimal(
            turn as nat,
        ) + "}"@,
        jsonl::event_type(EventView::TurnCompleted { turn, outcome: words }) == "turn.completed"@,
        jsonl::payload(EventView::TurnCompleted { turn, outcome: words }) == "{\"turn\":"@
            + text::decimal(turn as nat) + ",\"outcome\":"@ + json::string_json(words) + "}"@,
        jsonl::event_type(EventView::TurnFailed { turn, error: words }) == "turn.failed"@,
        jsonl::payload(EventView::TurnFailed { turn, error: words }) == "{\"turn\":"@
            + text::decimal(turn as nat) + ",\"error\":"@ + json::string_json(words) + "}"@,
{
    assert(jsonl::payload(EventView::TurnCompleted { turn, outcome: words }) =~= "{\"turn\":"@
        + text::decimal(turn as nat) + ",\"outcome\":"@ + json::string_json(words) + "}"@);
    assert(jsonl::payload(EventView::TurnFailed { turn, error: words }) =~= "{\"turn\":"@
        + text::decimal(turn as nat) + ",\"error\":"@ + json::string_json(words) + "}"@);
}

/// Messages are written with who speaks and what is said; their end says nothing more.
pub proof fn messages_are_written(words: Seq<char>)
    ensures
        jsonl::event_type(EventView::MessageStarted { role: MessageRole::User })
            == "message.started"@,
        jsonl::payload(EventView::MessageStarted { role: MessageRole::Assistant }) == "{\"role\":"@
            + json::string_json("assistant"@) + "}"@,
        jsonl::payload(EventView::MessageStarted { role: MessageRole::User }) == "{\"role\":"@
            + json::string_json("user"@) + "}"@,
        jsonl::payload(EventView::MessageStarted { role: MessageRole::System }) == "{\"role\":"@
            + json::string_json("system"@) + "}"@,
        jsonl::event_type(EventView::MessageDelta { text: words }) == "message.delta"@,
        jsonl::payload(EventView::MessageDelta { text: words }) == "{\"text\":"@
            + json::string_json(words) + "}"@,
        jsonl::event_type(EventView::MessageCompleted {  }) == "message.completed"@,
        jsonl::payload(EventView::MessageCompleted {  }) == "{}"@,
{
    reveal_strlit("{");
    reveal_strlit("}");
    reveal_strlit("{}");
    assert("{"@ + "}"@ =~= "{}"@);
}

/// Plans carry their entries unread, and tools their name with what was handed in, what came out or
/// what went wrong.
pub proof fn tools_are_written(
    name: Seq<char>,
    value: Seq<char>,
    words: Seq<char>,
    output: Option<Seq<char>>,
)
    ensures
        jsonl::event_type(EventView::PlanUpdated { entries: value }) == "plan.updated"@,
        jsonl::payload(EventView::PlanUpdated { entries: value }) == "{\"entries\":"@ + value
            + "}"@,
        jsonl::event_type(EventView::ToolStarted { name, arguments: value }) == "tool.started"@,
        jsonl::payload(EventView::ToolStarted { name, arguments: value }) == "{\"name\":"@
            + json::string_json(name) + ",\"arguments\":"@ + value + "}"@,
        jsonl::event_type(EventView::ToolCompleted { name, output: words }) == "tool.completed"@,
        jsonl::payload(EventView::ToolCompleted { name, output: words }) == "{\"name\":"@
            + json::string_json(name) + ",\"output\":"@ + json::string_json(words) + "}"@,
        jsonl::event_type(EventView::ToolFailed { name, error: words, output }) == "tool.failed"@,
        output matches Some(said) ==> jsonl::payload(
            EventView::ToolFailed { name, error: words, output },
        ) == "{\"name\":"@ + json::string_json(name) + ",\"error\":"@ + json::string_json(words)
            + ",\"output\":"@ + json::string_json(said) + "}"@,
        output is None ==> jsonl::payload(EventView::ToolFailed { name, error: words, output })
            == "{\"name\":"@ + json::string_json(name) + ",\"error\":"@ + json::string_json(words)
            + ",\"output\":"@ + "null"@ + "}"@,
{
    assert(jsonl::payload(EventView::ToolStarted { name, arguments: value }) =~= "{\"name\":"@
        + json::string_json(name) + ",\"arguments\":"@ + value + "}"@);
    assert(jsonl::payload(EventView::ToolCompleted { name, output: words }) =~= "{\"name\":"@
        + json::string_json(name) + ",\"output\":"@ + json::string_json(words) + "}"@);
    assert(jsonl::payload(EventView::ToolFailed { name, error: words, output }) =~= "{\"name\":"@
        + json::string_json(name) + ",\"error\":"@ + json::string_json(words) + ",\"output\":"@
        + or_null(output) + "}"@);
}

/// A command is written with its text, its directory, its site and its description; what is not
/// known is null.
pub proof fn commands_are_written(
    command: Seq<char>,
    cwd: Option<Seq<char>>,
    execution_site: Seq<char>,
    description: Option<Seq<char>>,
)
    ensures
        ({
            let event = EventView::CommandStarted { command, cwd, execution_site, description };
            let cwd_text = match cwd {
                Some(s) => json::string_json(s),
                None => "null"@,
            };
            let description_text = match description {
                Some(s) => json::string_json(s),
                None => "null"@,
            };
            &&& jsonl::event_type(event) == "command.started"@
            &&& jsonl::payload(event) == "{\"command\":"@ + json::string_json(command)
                + ",\"cwd\":"@ + cwd_text + ",\"execution_site\":"@ + json::string_json(
                execution_site,
            ) + ",\"description\":"@ + description_text + "}"@
        }),
{
    let event = EventView::CommandStarted { command, cwd, execution_site, description };
    assert(jsonl::payload(event) =~= "{\"command\":"@ + json::string_json(command) + ",\"cwd\":"@
        + or_null(cwd) + ",\"execution_site\":"@ + json::string_json(execution_site)
        + ",\"description\":"@ + or_null(description) + "}"@);
}

/// Output is written with its stream, its place, its text and whether it was made fit to show.
pub proof fn output_is_written(byte_offset: u64, words: Seq<char>, stream: OutputStream, clean: bool)
    ensures
        ({
            let event = EventView::CommandOutput {
                stream,
                byte_offset,
                text: words,
                display_sanitized: clean,
            };
            let stream_text = if stream == OutputStream::Stdout {
                "stdout"@
            } else {
                "stderr"@
            };
            let clean_text = if clean {
                "true"@
            } else {
                "false"@
            };
            &&& jsonl::event_type(event) == "command.output"@
            &&& jsonl::payload(event) == "{\"stream\":"@ + json::string_json(stream_text)
                + ",\"byte_offset\":"@ + text::decimal(byte_offset as nat) + ",\"text\":"@
                + json::string_json(words) + ",\"display_sanitized\":"@ + clean_text + "}"@
        }),
{
    let event = EventView::CommandOutput {
        stream,
        byte_offset,
        text: words,
        display_sanitized: clean,
    };
    let stream_text = if stream == OutputStream::Stdout {
        "stdout"@
    } else {
        "stderr"@
    };
    let clean_text = if clean {
        "true"@
    } else {
        "false"@
    };
    assert(jsonl::payload(event) =~= "{\"stream\":"@ + json::string_json(stream_text)
        + ",\"byte_offset\":"@ + text::decimal(byte_offset as nat) + ",\"text\":"@
        + json::string_json(words) + ",\"display_sanitized\":"@ + clean_text + "}"@);
}

/// An artifact is an object of its digest, its type, its size and its reference.
pub proof fn artifacts_are_written(a: ArtifactRefView)
    ensures
        jsonl::artifact_object(a) == "{\"digest\":"@ + json::string_json(a.digest)
            + ",\"media_type\":"@ + json::string_json(a.media_type) + ",\"size_bytes\":"@
            + text::decimal(a.size_bytes as nat) + ",\"reference\":"@ + json::string_json(
            a.reference,
        ) + "}"@,
        jsonl::event_type(EventView::ArtifactProduced { artifact: a }) == "artifact.produced"@,
        jsonl::payload(EventView::ArtifactProduced { artifact: a }) == "{\"artifact\":"@
            + jsonl::artifact_object(a) + "}"@,
{
    assert(jsonl::artifact_object(a) =~= "{\"digest\":"@ + json::string_json(a.digest)
        + ",\"media_type\":"@ + json::string_json(a.media_type) + ",\"size_bytes\":"@
        + text::decimal(a.size_bytes as nat) + ",\"reference\":"@ + json::string_json(a.reference)
        + "}"@);
}

/// The end of a command is written with its exit code, its time, whether it ran out of time, and
/// its output where that was kept.
pub proof fn command_ends_are_written(
    exit_code: i32,
    elapsed_ms: u64,
    timed_out: bool,
    output_artifact: Option<ArtifactRefView>,
)
    ensures
        ({
            let event = EventView::CommandCompleted {
                exit_code,
                elapsed_ms,
                timed_out,
                output_artifact,
            };
            let late = if timed_out {
                "true"@
            } else {
                "false"@
            };
            let kept = match output_artifact {
                Some(a) => jsonl::artifact_object(a),
                None => "null"@,
            };
            &&& jsonl::event_type(event) == "command.completed"@
            &&& jsonl::payload(event) == "{\"exit_code\":"@ + text::signed_decimal(exit_code as int)
                + ",\"elapsed_ms\":"@ + text::decimal(elapsed_ms as nat) + ",\"timed_out\":"@ + late
                + ",\"output_artifact\":"@ + kept + "}"@
        }),
{
    let event = EventView::CommandCompleted { exit_code, elapsed_ms, timed_out, output_artifact };
    let late = if timed_out {
        "true"@
    } else {
        "false"@
    };
    let kept = match output_artifact {
        Some(a) => jsonl::artifact_object(a),
        None => "null"@,
    };
    assert(jsonl::payload(event) =~= "{\"exit_code\":"@ + text::signed_decimal(exit_code as int)
        + ",\"elapsed_ms\":"@ + text::decimal(elapsed_ms as nat) + ",\"timed_out\":"@ + late
        + ",\"output_artifact\":"@ + kept + "}"@);
}

/// A change of a file is an object of its path, its kind, its counts and its digests.
pub proof fn changes_are_written(c: FileChangeView)
    ensures
        ({
            let kind = match c.kind {
                FileChangeKind::Added => "added"@,
                FileChangeKind::Modified => "modified"@,
                FileChangeKind::Deleted => "deleted"@,
                FileChangeKind::Renamed => "renamed"@,
                FileChangeKind::Binary => "binary"@,
            };
            let additions = match c.additions {
                Some(n) => text::decimal(n as nat),
                None => "null"@,
            };
            let deletions = match c.deletions {
                Some(n) => text::decimal(n as nat),
                None => "null"@,
            };
            let before = match c.before_digest {
                Some(s) => json::string_json(s),
                None => "null"@,
            };
            let after = match c.after_digest {
                Some(s) => json::string_json(s),
                None => "null"@,
            };
            jsonl::change_object(c) == "{\"path\":"@ + json::string_json(c.path) + ",\"kind\":"@
                + json::string_json(kind) + ",\"additions\":"@ + additions + ",\"deletions\":"@
                + deletions + ",\"before_digest\":"@ + before + ",\"after_digest\":"@ + after
                + "}"@
        }),
{
    let kind = jsonl::kind_label(c.kind);
    assert(jsonl::change_object(c) =~= "{\"path\":"@ + json::string_json(c.path) + ",\"kind\":"@
        + json::string_json(kind) + ",\"additions\":"@ + number_or_null(c.additions)
        + ",\"deletions\":"@ + number_or_null(c.deletions) + ",\"before_digest\":"@ + or_null(
        c.before_digest,
    ) + ",\"after_digest\":"@ + or_null(c.after_digest) + "}"@);
}

/// A change of the workspace is written with every changed file in its order, the diff and the
/// commit.
pub proof fn workspaces_are_written(
    changes: Seq<FileChangeView>,
    diff: Option<Seq<char>>,
    commit: Option<Seq<char>>,
    objects: Seq<Seq<char>>,
)
    requires
        objects.len() == changes.len(),
        forall|i: int|
            0 <= i < changes.len() ==> #[trigger] objects[i] == jsonl::change_object(changes[i]),
    ensures
        ({
            let event = EventView::WorkspaceDelta { changes, diff, commit };
            let diff_text = match diff {
                Some(s) => json::string_json(s),
                None => "null"@,
            };
            let commit_text = match commit {
                Some(s) => json::string_json(s),
                None => "null"@,
            };
            &&& jsonl::event_type(event) == "workspace.delta"@
            &&& jsonl::payload(event) == "{\"changes\":"@ + "["@ + text::joined(objects, ","@)
                + "]"@ + ",\"diff\":"@ + diff_text + ",\"commit\":"@ + commit_text + "}"@
        }),
{
    let event = EventView::WorkspaceDelta { changes, diff, commit };
    assert(jsonl::change_objects(changes) =~= objects);
    assert(jsonl::payload(event) =~= "{\"changes\":"@ + "["@ + text::joined(objects, ","@) + "]"@
        + ",\"diff\":"@ + or_null(diff) + ",\"commit\":"@ + or_null(commit) + "}"@);
}

/// An approval is written with what is asked, why, and at what risk, and its answer with the
/// decision.
pub proof fn approvals_are_written(
    action: Seq<char>,
    reason: Seq<char>,
    risk: Seq<char>,
    decision: Seq<char>,
)
    ensures
        jsonl::event_type(EventView::ApprovalRequested { action, reason, risk })
            == "approval.requested"@,
        jsonl::payload(EventView::ApprovalRequested { action, reason, risk }) == "{\"action\":"@
            + json::string_json(action) + ",\"reason\":"@ + json::string_json(reason)
            + ",\"risk\":"@ + json::string_json(risk) + "}"@,
        jsonl::event_type(EventView::ApprovalResolved { decision }) == "approval.resolved"@,
        jsonl::payload(EventView::ApprovalResolved { decision }) == "{\"decision\":"@
            + json::string_json(decision) + "}"@,
{
    assert(jsonl::payload(EventView::ApprovalRequested { action, reason, risk }) =~= "{\"action\":"@
        + json::string_json(action) + ",\"reason\":"@ + json::string_json(reason) + ",\"risk\":"@
        + json::string_json(risk) + "}"@);
}

/// A gate is written with its name, whether it was passed, and all its evidence in order.
pub proof fn gates_are_written(
    gate: Seq<char>,
    passed: bool,
    evidence: Seq<ArtifactRefView>,
    objects: Seq<Seq<char>>,
)
    requires
        objects.len() == evidence.len(),
        forall|i: int|
            0 <= i < evidence.len() ==> #[trigger] objects[i] == jsonl::artifact_object(
                evidence[i],
            ),
    ensures
        jsonl::event_type(EventView::GateStarted { gate }) == "gate.started"@,
        jsonl::payload(EventView::GateStarted { gate }) == "{\"gate\":"@ + json::string_json(gate)
            + "}"@,
        ({
            let event = EventView::GateCompleted { gate, passed, evidence };
            let verdict = if passed {
                "true"@
            } else {
                "false"@
            };
            &&& jsonl::event_type(event) == "gate.completed"@
            &&& jsonl::payload(event) == "{\"gate\":"@ + json::string_json(gate) + ",\"passed\":"@
                + verdict + ",\"evidence\":"@ + "["@ + text::joined(objects, ","@) + "]"@ + "}"@
        }),
{
    let event = EventView::GateCompleted { gate, passed, evidence };
    let verdict = if passed {
        "true"@
    } else {
        "false"@
    };
    assert(jsonl::artifact_objects(evidence) =~= objects);
    assert(jsonl::payload(event) =~= "{\"gate\":"@ + json::string_json(gate) + ",\"passed\":"@
        + verdict + ",\"evidence\":"@ + "["@ + text::joined(objects, ","@) + "]"@ + "}"@);
}

/// Warnings and errors are written with their message.
pub proof fn remarks_are_written(message: Seq<char>)
    ensures
        jsonl::event_type(EventView::Warning { message }) == "warning"@,
        jsonl::payload(EventView::Warning { message }) == "{\"message\":"@ + json::string_json(
            message,
        ) + "}"@,
        jsonl::event_type(EventView::Error { message }) == "error"@,
        jsonl::payload(EventView::Error { message }) == "{\"message\":"@ + json::string_json(
            message,
        ) + "}"@,
{
}

/// The line of an event says which event it is, where it belongs, who sent it and when, how far it
/// can be believed and who it is for, and ends in its type and its payload.
pub proof fn lines_hold_everything(e: EventEnvelopeView)
    ensures
        ({
            let authority = match e.authority {
                Authority::Narrative => "narrative"@,
                Authority::Reported => "reported"@,
                Authority::Observed => "observed"@,
                Authority::Verified => "verified"@,
            };
            let visibility = match e.visibility {
                Visibility::User => "user"@,
                Visibility::Diagnostic => "diagnostic"@,
            };
            let task_id = match e.task_id {
                Some(v) => json::string_json(v),
                None => "null"@,
            };
            let turn_id = match e.turn_id {
                Some(v) => json::string_json(v),
                None => "null"@,
            };
            let operation_id = match e.operation_id {
                Some(v) => json::string_json(v),
                None => "null"@,
            };
            let parent_operation_id = match e.parent_operation_id {
                Some(v) => json::string_json(v),
                None => "null"@,
            };
            let producer_sequence = match e.producer_sequence {
                Some(v) => text::decimal(v as nat),
                None => "null"@,
            };
            jsonl::line(e) == "{\"schema_version\":"@ + text::decimal(e.schema_version as nat)
                + ",\"event_id\":"@ + json::string_json(e.event_id) + ",\"run_id\":"@
                + json::string_json(e.run_id) + ",\"task_id\":"@ + task_id + ",\"turn_id\":"@ + turn_id
                + ",\"operation_id\":"@ + operation_id + ",\"parent_operation_id\":"@ + parent_operation_id
                + ",\"producer_sequence\":"@ + producer_sequence + ",\"sequence\":"@ + text::decimal(
                e.sequence as nat,
            ) + ",\"emitted_at_unix_ms\":"@ + text::decimal(e.emitted_at_unix_ms as nat)
                + ",\"producer\":"@ + "{\"component\":"@ + json::string_json(e.producer.component)
                + ",\"instance\":"@ + json::string_json(e.producer.instance) + "}"@
                + ",\"authority\":"@ + json::string_json(authority) + ",\"visibility\":"@
                + json::string_json(visibility) + ",\"type\":"@ + json::string_json(
                jsonl::event_type(e.event),
            ) + ",\"payload\":"@ + jsonl::payload(e.event) + "}"@
        }),
{
    let p0 = "{\"schema_version\":"@ + text::decimal(e.schema_version as nat);
    let p1 = p0 + ",\"event_id\":"@ + json::string_json(e.event_id);
    regrouped(p0, ",\"event_id\":"@, json::string_json(e.event_id));
    assert(p1 == p0 + jsonl::text_member(",\"event_id\":"@, e.event_id));
    let p2 = p1 + ",\"run_id\":"@ + json::string_json(e.run_id);
    regrouped(p1, ",\"run_id\":"@, json::string_json(e.run_id));
    assert(p2 == p1 + jsonl::text_member(",\"run_id\":"@, e.run_id));
    let p3 = p2 + ",\"task_id\":"@ + or_null(e.task_id);
    regrouped(p2, ",\"task_id\":"@, or_null(e.task_id));
    assert(p3 == p2 + jsonl::optional_text_member(",\"task_id\":"@, e.task_id));
    let p4 = p3 + ",\"turn_id\":"@ + or_null(e.turn_id);
    regrouped(p3, ",\"turn_id\":"@, or_null(e.turn_id));
    assert(p4 == p3 + jsonl::optional_text_member(",\"turn_id\":"@, e.turn_id));
    let p5 = p4 + ",\"operation_id\":"@ + or_null(e.operation_id);
    regrouped(p4, ",\"operation_id\":"@, or_null(e.operation_id));
    assert(p5 == p4 + jsonl::optional_text_member(",\"operation_id\":"@, e.operation_id));
    let p6 = p5 + ",\"parent_operation_id\":"@ + or_null(e.parent_operation_id);
    regrouped(p5, ",\"parent_operation_id\":"@, or_null(e.parent_operation_id));
    assert(p6 == p5 + jsonl::optional_text_member(",\"parent_operation_id\":"@, e.parent_operation_id));
    let p7 = p6 + ",\"producer_sequence\":"@ + number_or_null(e.producer_sequence);
    regrouped(p6, ",\"producer_sequence\":"@, number_or_null(e.producer_sequence));
    assert(p7 == p6 + jsonl::optional_number_member(",\"producer_sequence\":"@, e.producer_sequence));
    let p8 = p7 + ",\"sequence\":"@ + text::decimal(e.sequence as nat);
    regrouped(p7, ",\"sequence\":"@, text::decimal(e.sequence as nat));
    assert(p8 == p7 + jsonl::number_member(",\"sequence\":"@, e.sequence as nat));
    let p9 = p8 + ",\"emitted_at_unix_ms\":"@ + text::decimal(e.emitted_at_unix_ms as nat);
    regrouped(p8, ",\"emitted_at_unix_ms\":"@, text::decimal(e.emitted_at_unix_ms as nat));
    assert(p9 == p8 + jsonl::number_member(",\"emitted_at_unix_ms\":"@, e.emitted_at_unix_ms as nat));
    let component = json::string_json(e.producer.component);
    let instance = json::string_json(e.producer.instance);
    producer_regrouped(p9, component, instance);
    let q = p9 + ",\"producer\":"@ + "{\"component\":"@ + component + ",\"instance\":"@ + instance
        + "}"@;
    assert(q == p9 + jsonl::producer_member(",\"producer\":"@, e.producer));
    let authority = json::string_json(jsonl::authority_label(e.authority));
    let visibility = json::string_json(jsonl::visibility_label(e.visibility));
    let kind = json::string_json(jsonl::event_type(e.event));
    regrouped(q, ",\"authority\":"@, authority);
    let r = q + ",\"authority\":"@ + authority;
    assert(r == q + jsonl::authority_member(",\"authority\":"@, e.authority));
    regrouped(r, ",\"visibility\":"@, visibility);
    let t = r + ",\"visibility\":"@ + visibility;
    assert(t == r + jsonl::visibility_member(",\"visibility\":"@, e.visibility));
    regrouped(t, ",\"type\":"@, kind);
    let u = t + ",\"type\":"@ + kind;
    assert(u == t + jsonl::text_member(",\"type\":"@, jsonl::event_type(e.event)));
    assert(jsonl::line(e) == u + ",\"payload\":"@ + jsonl::payload(e.event) + "}"@);
}

proof fn regrouped(a: Seq<char>, b: Seq<char>, c: Seq<char>)
    ensures
        a + (b + c) == a + b + c,
{
    assert(a + (b + c) =~= a + b + c);
}

proof fn producer_regrouped(before: Seq<char>, component: Seq<char>, instance: Seq<char>)
    ensures
        before + (",\"producer\":"@ + ("{\"component\":"@ + component) + (",\"instance\":"@
            + instance) + "}"@) == before + ",\"producer\":"@ + "{\"component\":"@ + component
            + ",\"instance\":"@ + instance + "}"@,
{
    let n = ",\"producer\":"@;
    let c = "{\"component\":"@;
    let i = ",\"instance\":"@;
    regrouped(n, c, component);
    regrouped(n + c + component, i, instance);
    regrouped(before, n + c + component + i + instance, "}"@);
    regrouped(before, n + c + component + i, instance);
    regrouped(before, n + c + component, i);
    regrouped(before, n + c, component);
    regrouped(before, n, c);
}

proof fn plain_characters_stay(s: Seq<char>)
    requires
        forall|i: int|
            0 <= i < s.len() ==> ' ' <= #[trigger] s[i] && s[i] != '"' && s[i] != '\\',
    ensures
        json::escaped_text(s) == s,
    decreases s.len(),
{
    if s.len() > 0 {
        plain_characters_stay(s.drop_last());
        assert(s.drop_last() + seq![s.last()] =~= s);
    } else {
        assert(json::escaped_text(s) =~= s);
    }
}

/// A text without quotes, backslashes and control characters is written between quotes as it is.
pub proof fn plain_text_is_quoted(s: Seq<char>)
    requires
        forall|i: int|
            0 <= i < s.len() ==> ' ' <= #[trigger] s[i] && s[i] != '"' && s[i] != '\\',
    ensures
        json::string_json(s) == seq!['"'] + s + seq!['"'],
{
    plain_characters_stay(s);
}

} // verus!
