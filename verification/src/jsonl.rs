//! Canonical events as lines of JSON.
pub mod conduct;

use crate::events;
use crate::events::{
    ArtifactRef, ArtifactRefView, Authority, Event, EventEnvelope, EventEnvelopeView, EventView,
    FileChange, FileChangeKind, FileChangeView, MessageRole, OutputStream, Producer, ProducerView,
    Visibility,
};
use crate::json;
use crate::json::JsonValue;
use crate::text;
use vstd::prelude::*;
use vstd::string::*;

verus! {

pub open spec fn text_member(name: Seq<char>, value: Seq<char>) -> Seq<char> {
    name + json::string_json(value)
}

pub open spec fn optional_text_member(name: Seq<char>, value: Option<Seq<char>>) -> Seq<char> {
    match value {
        Some(s) => name + json::string_json(s),
        None => name + "null"@,
    }
}

pub open spec fn number_member(name: Seq<char>, value: nat) -> Seq<char> {
    name + text::decimal(value)
}

pub open spec fn optional_number_member(name: Seq<char>, value: Option<u64>) -> Seq<char> {
    match value {
        Some(n) => name + text::decimal(n as nat),
        None => name + "null"@,
    }
}

pub open spec fn signed_member(name: Seq<char>, value: int) -> Seq<char> {
    name + text::signed_decimal(value)
}

pub open spec fn flag_member(name: Seq<char>, value: bool) -> Seq<char> {
    name + (if value {
        "true"@
    } else {
        "false"@
    })
}

pub open spec fn value_member(name: Seq<char>, value: Seq<char>) -> Seq<char> {
    name + value
}

pub open spec fn role_label(role: MessageRole) -> Seq<char> {
    match role {
        MessageRole::Assistant => "assistant"@,
        MessageRole::User => "user"@,
        MessageRole::System => "system"@,
    }
}

pub open spec fn role_member(name: Seq<char>, role: MessageRole) -> Seq<char> {
    text_member(name, role_label(role))
}

pub open spec fn stream_label(stream: OutputStream) -> Seq<char> {
    match stream {
        OutputStream::Stdout => "stdout"@,
        OutputStream::Stderr => "stderr"@,
    }
}

pub open spec fn stream_member(name: Seq<char>, stream: OutputStream) -> Seq<char> {
    text_member(name, stream_label(stream))
}

pub open spec fn authority_label(authority: Authority) -> Seq<char> {
    match authority {
        Authority::Narrative => "narrative"@,
        Authority::Reported => "reported"@,
        Authority::Observed => "observed"@,
        Authority::Verified => "verified"@,
    }
}

pub open spec fn authority_member(name: Seq<char>, authority: Authority) -> Seq<char> {
    text_member(name, authority_label(authority))
}

pub open spec fn visibility_label(visibility: Visibility) -> Seq<char> {
    match visibility {
        Visibility::User => "user"@,
        Visibility::Diagnostic => "diagnostic"@,
    }
}

pub open spec fn visibility_member(name: Seq<char>, visibility: Visibility) -> Seq<char> {
    text_member(name, visibility_label(visibility))
}

pub open spec fn kind_label(kind: FileChangeKind) -> Seq<char> {
    match kind {
        FileChangeKind::Added => "added"@,
        FileChangeKind::Modified => "modified"@,
        FileChangeKind::Deleted => "deleted"@,
        FileChangeKind::Renamed => "renamed"@,
        FileChangeKind::Binary => "binary"@,
    }
}

pub open spec fn producer_member(name: Seq<char>, producer: ProducerView) -> Seq<char> {
    name + text_member("{\"component\":"@, producer.component) + text_member(
        ",\"instance\":"@,
        producer.instance,
    ) + "}"@
}

/// The JSON object of an artifact.
pub open spec fn artifact_object(a: ArtifactRefView) -> Seq<char> {
    text_member("{\"digest\":"@, a.digest) + text_member(",\"media_type\":"@, a.media_type)
        + number_member(",\"size_bytes\":"@, a.size_bytes as nat) + text_member(
        ",\"reference\":"@,
        a.reference,
    ) + "}"@
}

/// The JSON object of a changed file.
pub open spec fn change_object(c: FileChangeView) -> Seq<char> {
    text_member("{\"path\":"@, c.path) + text_member(",\"kind\":"@, kind_label(c.kind))
        + optional_number_member(",\"additions\":"@, c.additions) + optional_number_member(
        ",\"deletions\":"@,
        c.deletions,
    ) + optional_text_member(",\"before_digest\":"@, c.before_digest) + optional_text_member(
        ",\"after_digest\":"@,
        c.after_digest,
    ) + "}"@
}

pub open spec fn artifact_member(name: Seq<char>, a: ArtifactRefView) -> Seq<char> {
    name + artifact_object(a)
}

pub open spec fn optional_artifact_member(name: Seq<char>, a: Option<ArtifactRefView>) -> Seq<
    char,
> {
    match a {
        Some(found) => name + artifact_object(found),
        None => name + "null"@,
    }
}

pub open spec fn artifact_objects(list: Seq<ArtifactRefView>) -> Seq<Seq<char>> {
    Seq::new(list.len(), |i: int| artifact_object(list[i]))
}

pub open spec fn artifacts_member(name: Seq<char>, list: Seq<ArtifactRefView>) -> Seq<char> {
    name + "["@ + text::joined(artifact_objects(list), ","@) + "]"@
}

pub open spec fn change_objects(list: Seq<FileChangeView>) -> Seq<Seq<char>> {
    Seq::new(list.len(), |i: int| change_object(list[i]))
}

pub open spec fn changes_member(name: Seq<char>, list: Seq<FileChangeView>) -> Seq<char> {
    name + "["@ + text::joined(change_objects(list), ","@) + "]"@
}

fn push(out: &mut String, s: &str)
    requires
        json::unbroken(old(out)@),
        json::unbroken(s@),
    ensures
        final(out)@ == old(out)@ + s@,
        json::unbroken(final(out)@),
{
    out.append(s);
}

proof fn digits_are_unbroken(n: nat)
    ensures
        json::unbroken(text::decimal(n)),
    decreases n,
{
    if n >= 10 {
        digits_are_unbroken(n / 10);
    }
}

fn push_text_member(out: &mut String, name: &str, value: &str)
    requires
        json::unbroken(old(out)@),
        json::unbroken(name@),
    ensures
        final(out)@ == old(out)@ + text_member(name@, value@),
        json::unbroken(final(out)@),
{
    let ghost before = out@;
    push(out, name);
    push(out, json::string_literal(value).as_str());
    assert(out@ =~= before + text_member(name@, value@));
}

fn push_null_member(out: &mut String, name: &str)
    requires
        json::unbroken(old(out)@),
        json::unbroken(name@),
    ensures
        final(out)@ == old(out)@ + (name@ + "null"@),
        json::unbroken(final(out)@),
{
    let ghost before = out@;
    proof {
        reveal_strlit("null");
    }
    push(out, name);
    push(out, "null");
    assert(out@ =~= before + (name@ + "null"@));
}

fn push_optional_text_member(out: &mut String, name: &str, value: &Option<String>)
    requires
        json::unbroken(old(out)@),
        json::unbroken(name@),
    ensures
        final(out)@ == old(out)@ + optional_text_member(name@, text::optional(*value)),
        json::unbroken(final(out)@),
{
    match value {
        Some(s) => push_text_member(out, name, s.as_str()),
        None => push_null_member(out, name),
    }
}

fn push_number_member(out: &mut String, name: &str, value: u64)
    requires
        json::unbroken(old(out)@),
        json::unbroken(name@),
    ensures
        final(out)@ == old(out)@ + number_member(name@, value as nat),
        json::unbroken(final(out)@),
{
    let ghost before = out@;
    push(out, name);
    text::push_decimal(out, value);
    proof {
        digits_are_unbroken(value as nat);
    }
    assert(out@ =~= before + number_member(name@, value as nat));
}

fn push_optional_number_member(out: &mut String, name: &str, value: Option<u64>)
    requires
        json::unbroken(old(out)@),
        json::unbroken(name@),
    ensures
        final(out)@ == old(out)@ + optional_number_member(name@, value),
        json::unbroken(final(out)@),
{
    match value {
        Some(n) => push_number_member(out, name, n),
        None => push_null_member(out, name),
    }
}

fn push_signed_member(out: &mut String, name: &str, value: i32)
    requires
        json::unbroken(old(out)@),
        json::unbroken(name@),
    ensures
        final(out)@ == old(out)@ + signed_member(name@, value as int),
        json::unbroken(final(out)@),
{
    let ghost before = out@;
    push(out, name);
    text::push_signed(out, value as i64);
    proof {
        if value < 0 {
            digits_are_unbroken((-value) as nat);
        } else {
            digits_are_unbroken(value as nat);
        }
        reveal_strlit("-");
    }
    assert(out@ =~= before + signed_member(name@, value as int));
}

fn push_flag_member(out: &mut String, name: &str, value: bool)
    requires
        json::unbroken(old(out)@),
        json::unbroken(name@),
    ensures
        final(out)@ == old(out)@ + flag_member(name@, value),
        json::unbroken(final(out)@),
{
    let ghost before = out@;
    proof {
        reveal_strlit("true");
        reveal_strlit("false");
    }
    push(out, name);
    push(
        out,
        if value {
            "true"
        } else {
            "false"
        },
    );
    assert(out@ =~= before + flag_member(name@, value));
}

fn push_value_member(out: &mut String, name: &str, value: &JsonValue)
    requires
        json::unbroken(old(out)@),
        json::unbroken(name@),
    ensures
        final(out)@ == old(out)@ + value_member(name@, value@),
        json::unbroken(final(out)@),
{
    let ghost before = out@;
    push(out, name);
    push(out, value.as_str());
    assert(out@ =~= before + value_member(name@, value@));
}

fn push_role_member(out: &mut String, name: &str, role: MessageRole)
    requires
        json::unbroken(old(out)@),
        json::unbroken(name@),
    ensures
        final(out)@ == old(out)@ + role_member(name@, role),
        json::unbroken(final(out)@),
{
    let label = match role {
        MessageRole::Assistant => "assistant",
        MessageRole::User => "user",
        MessageRole::System => "system",
    };
    push_text_member(out, name, label);
}

fn push_stream_member(out: &mut String, name: &str, stream: OutputStream)
    requires
        json::unbroken(old(out)@),
        json::unbroken(name@),
    ensures
        final(out)@ == old(out)@ + stream_member(name@, stream),
        json::unbroken(final(out)@),
{
    let label = match stream {
        OutputStream::Stdout => "stdout",
        OutputStream::Stderr => "stderr",
    };
    push_text_member(out, name, label);
}

fn push_authority_member(out: &mut String, name: &str, authority: Authority)
    requires
        json::unbroken(old(out)@),
        json::unbroken(name@),
    ensures
        final(out)@ == old(out)@ + authority_member(name@, authority),
        json::unbroken(final(out)@),
{
    let label = match authority {
        Authority::Narrative => "narrative",
        Authority::Reported => "reported",
        Authority::Observed => "observed",
        Authority::Verified => "verified",
    };
    push_text_member(out, name, label);
}

fn push_visibility_member(out: &mut String, name: &str, visibility: Visibility)
    requires
        json::unbroken(old(out)@),
        json::unbroken(name@),
    ensures
        final(out)@ == old(out)@ + visibility_member(name@, visibility),
        json::unbroken(final(out)@),
{
    let label = match visibility {
        Visibility::User => "user",
        Visibility::Diagnostic => "diagnostic",
    };
    push_text_member(out, name, label);
}

fn kind_name(kind: FileChangeKind) -> (r: &'static str)
    ensures
        r@ == kind_label(kind),
{
    match kind {
        FileChangeKind::Added => "added",
        FileChangeKind::Modified => "modified",
        FileChangeKind::Deleted => "deleted",
        FileChangeKind::Renamed => "renamed",
        FileChangeKind::Binary => "binary",
    }
}

fn push_producer_member(out: &mut String, name: &str, producer: &Producer)
    requires
        json::unbroken(old(out)@),
        json::unbroken(name@),
    ensures
        final(out)@ == old(out)@ + producer_member(name@, producer@),
        json::unbroken(final(out)@),
{
    let ghost before = out@;
    proof {
        reveal_strlit("{\"component\":");
        reveal_strlit(",\"instance\":");
        reveal_strlit("}");
    }
    push(out, name);
    push_text_member(out, "{\"component\":", producer.component.as_str());
    push_text_member(out, ",\"instance\":", producer.instance.as_str());
    push(out, "}");
    assert(out@ =~= before + producer_member(name@, producer@));
}

fn artifact_text(a: &ArtifactRef) -> (r: String)
    ensures
        r@ == artifact_object(a@),
        json::unbroken(r@),
{
    let mut out = String::new();
    proof {
        reveal_strlit("{\"digest\":");
        reveal_strlit(",\"media_type\":");
        reveal_strlit(",\"size_bytes\":");
        reveal_strlit(",\"reference\":");
        reveal_strlit("}");
    }
    push_text_member(&mut out, "{\"digest\":", a.digest.as_str());
    push_text_member(&mut out, ",\"media_type\":", a.media_type.as_str());
    push_number_member(&mut out, ",\"size_bytes\":", a.size_bytes);
    push_text_member(&mut out, ",\"reference\":", a.reference.as_str());
    push(&mut out, "}");
    assert(out@ =~= artifact_object(a@));
    out
}

fn change_text(c: &FileChange) -> (r: String)
    ensures
        r@ == change_object(c@),
        json::unbroken(r@),
{
    let mut out = String::new();
    proof {
        reveal_strlit("{\"path\":");
        reveal_strlit(",\"kind\":");
        reveal_strlit(",\"additions\":");
        reveal_strlit(",\"deletions\":");
        reveal_strlit(",\"before_digest\":");
        reveal_strlit(",\"after_digest\":");
        reveal_strlit("}");
    }
    push_text_member(&mut out, "{\"path\":", c.path.as_str());
    push_text_member(&mut out, ",\"kind\":", kind_name(c.kind));
    push_optional_number_member(&mut out, ",\"additions\":", c.additions);
    push_optional_number_member(&mut out, ",\"deletions\":", c.deletions);
    push_optional_text_member(&mut out, ",\"before_digest\":", &c.before_digest);
    push_optional_text_member(&mut out, ",\"after_digest\":", &c.after_digest);
    push(&mut out, "}");
    assert(out@ =~= change_object(c@));
    out
}

fn push_artifact_member(out: &mut String, name: &str, a: &ArtifactRef)
    requires
        json::unbroken(old(out)@),
        json::unbroken(name@),
    ensures
        final(out)@ == old(out)@ + artifact_member(name@, a@),
        json::unbroken(final(out)@),
{
    let ghost before = out@;
    push(out, name);
    push(out, artifact_text(a).as_str());
    assert(out@ =~= before + artifact_member(name@, a@));
}

fn push_optional_artifact_member(out: &mut String, name: &str, a: &Option<ArtifactRef>)
    requires
        json::unbroken(old(out)@),
        json::unbroken(name@),
    ensures
        final(out)@ == old(out)@ + optional_artifact_member(name@, events::optional_artifact(*a)),
        json::unbroken(final(out)@),
{
    match a {
        Some(found) => push_artifact_member(out, name, found),
        None => push_null_member(out, name),
    }
}

proof fn joined_is_unbroken(parts: Seq<Seq<char>>)
    requires
        forall|i: int| 0 <= i < parts.len() ==> json::unbroken(#[trigger] parts[i]),
    ensures
        json::unbroken(text::joined(parts, ","@)),
    decreases parts.len(),
{
    reveal_strlit(",");
    if parts.len() > 1 {
        joined_is_unbroken(parts.drop_last());
        assert(json::unbroken(parts[parts.len() - 1]));
    } else if parts.len() == 1 {
        assert(json::unbroken(parts[0]));
    }
}

fn push_list(out: &mut String, name: &str, parts: &Vec<String>)
    requires
        json::unbroken(old(out)@),
        json::unbroken(name@),
        forall|i: int| 0 <= i < parts@.len() ==> json::unbroken(#[trigger] parts@[i]@),
    ensures
        final(out)@ == old(out)@ + (name@ + "["@ + text::joined(text::views(parts@), ","@) + "]"@),
        json::unbroken(final(out)@),
{
    let ghost before = out@;
    proof {
        reveal_strlit("[");
        reveal_strlit("]");
        joined_is_unbroken(text::views(parts@));
    }
    push(out, name);
    push(out, "[");
    text::push_joined(out, parts, ",");
    push(out, "]");
    assert(out@ =~= before + (name@ + "["@ + text::joined(text::views(parts@), ","@) + "]"@));
}

fn push_artifacts_member(out: &mut String, name: &str, list: &Vec<ArtifactRef>)
    requires
        json::unbroken(old(out)@),
        json::unbroken(name@),
    ensures
        final(out)@ == old(out)@ + artifacts_member(name@, events::artifact_views(list@)),
        json::unbroken(final(out)@),
{
    let mut parts: Vec<String> = Vec::new();
    for i in 0..list.len()
        invariant
            parts@.len() == i,
            forall|j: int| 0 <= j < i ==> #[trigger] parts@[j]@ == artifact_object(list@[j]@),
            forall|j: int| 0 <= j < i ==> json::unbroken(#[trigger] parts@[j]@),
    {
        parts.push(artifact_text(&list[i]));
    }
    assert(text::views(parts@) =~= artifact_objects(events::artifact_views(list@)));
    push_list(out, name, &parts);
}

fn push_changes_member(out: &mut String, name: &str, list: &Vec<FileChange>)
    requires
        json::unbroken(old(out)@),
        json::unbroken(name@),
    ensures
        final(out)@ == old(out)@ + changes_member(name@, events::change_views(list@)),
        json::unbroken(final(out)@),
{
    let mut parts: Vec<String> = Vec::new();
    for i in 0..list.len()
        invariant
            parts@.len() == i,
            forall|j: int| 0 <= j < i ==> #[trigger] parts@[j]@ == change_object(list@[j]@),
            forall|j: int| 0 <= j < i ==> json::unbroken(#[trigger] parts@[j]@),
    {
        parts.push(change_text(&list[i]));
    }
    assert(text::views(parts@) =~= change_objects(events::change_views(list@)));
    push_list(out, name, &parts);
}

/// The type of an event on the wire.
pub open spec fn event_type(event: EventView) -> Seq<char> {
    match event {
        EventView::RunStarted { .. } => "run.started"@,
        EventView::TurnStarted { .. } => "turn.started"@,
        EventView::TurnCompleted { .. } => "turn.completed"@,
        EventView::TurnFailed { .. } => "turn.failed"@,
        EventView::RunCompleted { .. } => "run.completed"@,
        EventView::RunFailed { .. } => "run.failed"@,
        EventView::MessageStarted { .. } => "message.started"@,
        EventView::MessageDelta { .. } => "message.delta"@,
        EventView::MessageCompleted { .. } => "message.completed"@,
        EventView::PlanUpdated { .. } => "plan.updated"@,
        EventView::ToolStarted { .. } => "tool.started"@,
        EventView::ToolCompleted { .. } => "tool.completed"@,
        EventView::ToolFailed { .. } => "tool.failed"@,
        EventView::CommandStarted { .. } => "command.started"@,
        EventView::CommandOutput { .. } => "command.output"@,
        EventView::CommandCompleted { .. } => "command.completed"@,
        EventView::WorkspaceDelta { .. } => "workspace.delta"@,
        EventView::ApprovalRequested { .. } => "approval.requested"@,
        EventView::ApprovalResolved { .. } => "approval.resolved"@,
        EventView::GateStarted { .. } => "gate.started"@,
        EventView::GateCompleted { .. } => "gate.completed"@,
        EventView::ArtifactProduced { .. } => "artifact.produced"@,
        EventView::Warning { .. } => "warning"@,
        EventView::Error { .. } => "error"@,
    }
}

/// The JSON object of an event's content.
pub open spec fn payload(event: EventView) -> Seq<char> {
    match event {
        EventView::RunStarted { task } => text_member("{\"task\":"@, task) + "}"@,
        EventView::TurnStarted { turn } => number_member("{\"turn\":"@, turn as nat) + "}"@,
        EventView::TurnCompleted { turn, outcome } => number_member("{\"turn\":"@, turn as nat) + text_member(",\"outcome\":"@, outcome) + "}"@,
        EventView::TurnFailed { turn, error } => number_member("{\"turn\":"@, turn as nat) + text_member(",\"error\":"@, error) + "}"@,
        EventView::RunCompleted { result } => text_member("{\"result\":"@, result) + "}"@,
        EventView::RunFailed { error } => text_member("{\"error\":"@, error) + "}"@,
        EventView::MessageStarted { role } => role_member("{\"role\":"@, role) + "}"@,
        EventView::MessageDelta { text } => text_member("{\"text\":"@, text) + "}"@,
        EventView::MessageCompleted {  } => "{"@ + "}"@,
        EventView::PlanUpdated { entries } => value_member("{\"entries\":"@, entries) + "}"@,
        EventView::ToolStarted { name, arguments } => text_member("{\"name\":"@, name) + value_member(",\"arguments\":"@, arguments) + "}"@,
        EventView::ToolCompleted { name, output } => text_member("{\"name\":"@, name) + text_member(",\"output\":"@, output) + "}"@,
        EventView::ToolFailed { name, error, output } => text_member("{\"name\":"@, name) + text_member(",\"error\":"@, error) + optional_text_member(",\"output\":"@, output) + "}"@,
        EventView::CommandStarted { command, cwd, execution_site, description } => text_member("{\"command\":"@, command) + optional_text_member(",\"cwd\":"@, cwd) + text_member(",\"execution_site\":"@, execution_site) + optional_text_member(",\"description\":"@, description) + "}"@,
        EventView::CommandOutput { stream, byte_offset, text, display_sanitized } => stream_member("{\"stream\":"@, stream) + number_member(",\"byte_offset\":"@, byte_offset as nat) + text_member(",\"text\":"@, text) + flag_member(",\"display_sanitized\":"@, display_sanitized) + "}"@,
        EventView::CommandCompleted { exit_code, elapsed_ms, timed_out, output_artifact } => signed_member("{\"exit_code\":"@, exit_code as int) + number_member(",\"elapsed_ms\":"@, elapsed_ms as nat) + flag_member(",\"timed_out\":"@, timed_out) + optional_artifact_member(",\"output_artifact\":"@, output_artifact) + "}"@,
        EventView::WorkspaceDelta { changes, diff, commit } => changes_member("{\"changes\":"@, changes) + optional_text_member(",\"diff\":"@, diff) + optional_text_member(",\"commit\":"@, commit) + "}"@,
        EventView::ApprovalRequested { action, reason, risk } => text_member("{\"action\":"@, action) + text_member(",\"reason\":"@, reason) + text_member(",\"risk\":"@, risk) + "}"@,
        EventView::ApprovalResolved { decision } => text_member("{\"decision\":"@, decision) + "}"@,
        EventView::GateStarted { gate } => text_member("{\"gate\":"@, gate) + "}"@,
        EventView::GateCompleted { gate, passed, evidence } => text_member("{\"gate\":"@, gate) + flag_member(",\"passed\":"@, passed) + artifacts_member(",\"evidence\":"@, evidence) + "}"@,
        EventView::ArtifactProduced { artifact } => artifact_member("{\"artifact\":"@, artifact) + "}"@,
        EventView::Warning { message } => text_member("{\"message\":"@, message) + "}"@,
        EventView::Error { message } => text_member("{\"message\":"@, message) + "}"@,
    }
}

/// The place of an event's kind in the protocol.
pub open spec fn kind_number(event: EventView) -> int {
    match event {
        EventView::RunStarted { .. } => 0,
        EventView::TurnStarted { .. } => 1,
        EventView::TurnCompleted { .. } => 2,
        EventView::TurnFailed { .. } => 3,
        EventView::RunCompleted { .. } => 4,
        EventView::RunFailed { .. } => 5,
        EventView::MessageStarted { .. } => 6,
        EventView::MessageDelta { .. } => 7,
        EventView::MessageCompleted { .. } => 8,
        EventView::PlanUpdated { .. } => 9,
        EventView::ToolStarted { .. } => 10,
        EventView::ToolCompleted { .. } => 11,
        EventView::ToolFailed { .. } => 12,
        EventView::CommandStarted { .. } => 13,
        EventView::CommandOutput { .. } => 14,
        EventView::CommandCompleted { .. } => 15,
        EventView::WorkspaceDelta { .. } => 16,
        EventView::ApprovalRequested { .. } => 17,
        EventView::ApprovalResolved { .. } => 18,
        EventView::GateStarted { .. } => 19,
        EventView::GateCompleted { .. } => 20,
        EventView::ArtifactProduced { .. } => 21,
        EventView::Warning { .. } => 22,
        EventView::Error { .. } => 23,
    }
}

/// Events of different kinds have different types on the wire.
pub proof fn types_tell_kinds_apart(a: EventView, b: EventView)
    ensures
        event_type(a) == event_type(b) <==> kind_number(a) == kind_number(b),
{
    reveal_strlit("run.started");
    reveal_strlit("turn.started");
    reveal_strlit("turn.completed");
    reveal_strlit("turn.failed");
    reveal_strlit("run.completed");
    reveal_strlit("run.failed");
    reveal_strlit("message.started");
    reveal_strlit("message.delta");
    reveal_strlit("message.completed");
    reveal_strlit("plan.updated");
    reveal_strlit("tool.started");
    reveal_strlit("tool.completed");
    reveal_strlit("tool.failed");
    reveal_strlit("command.started");
    reveal_strlit("command.output");
    reveal_strlit("command.completed");
    reveal_strlit("workspace.delta");
    reveal_strlit("approval.requested");
    reveal_strlit("approval.resolved");
    reveal_strlit("gate.started");
    reveal_strlit("gate.completed");
    reveal_strlit("artifact.produced");
    reveal_strlit("warning");
    reveal_strlit("error");
    if event_type(a) == event_type(b) {
        assert(event_type(a).len() == event_type(b).len());
        assert(event_type(a)[0] == event_type(b)[0]);
        assert(event_type(a)[1] == event_type(b)[1]);
    }
}

fn type_of(event: &Event) -> (r: &'static str)
    ensures
        r@ == event_type(event@),
{
    match event {
        Event::RunStarted { .. } => "run.started",
        Event::TurnStarted { .. } => "turn.started",
        Event::TurnCompleted { .. } => "turn.completed",
        Event::TurnFailed { .. } => "turn.failed",
        Event::RunCompleted { .. } => "run.completed",
        Event::RunFailed { .. } => "run.failed",
        Event::MessageStarted { .. } => "message.started",
        Event::MessageDelta { .. } => "message.delta",
        Event::MessageCompleted { .. } => "message.completed",
        Event::PlanUpdated { .. } => "plan.updated",
        Event::ToolStarted { .. } => "tool.started",
        Event::ToolCompleted { .. } => "tool.completed",
        Event::ToolFailed { .. } => "tool.failed",
        Event::CommandStarted { .. } => "command.started",
        Event::CommandOutput { .. } => "command.output",
        Event::CommandCompleted { .. } => "command.completed",
        Event::WorkspaceDelta { .. } => "workspace.delta",
        Event::ApprovalRequested { .. } => "approval.requested",
        Event::ApprovalResolved { .. } => "approval.resolved",
        Event::GateStarted { .. } => "gate.started",
        Event::GateCompleted { .. } => "gate.completed",
        Event::ArtifactProduced { .. } => "artifact.produced",
        Event::Warning { .. } => "warning",
        Event::Error { .. } => "error",
    }
}

fn push_run_started(out: &mut String, task: &String)
    requires
        json::unbroken(old(out)@),
    ensures
        final(out)@ == old(out)@ + (text_member("{\"task\":"@, task@) + "}"@),
        json::unbroken(final(out)@),
{
    let ghost before = out@;
    proof {
        reveal_strlit("{\"task\":");
        reveal_strlit("}");
    }
    push_text_member(out, "{\"task\":", task.as_str());
    push(out, "}");
    assert(out@ =~= before + (text_member("{\"task\":"@, task@) + "}"@));
}

fn push_turn_started(out: &mut String, turn: &u32)
    requires
        json::unbroken(old(out)@),
    ensures
        final(out)@ == old(out)@ + (number_member("{\"turn\":"@, *turn as nat) + "}"@),
        json::unbroken(final(out)@),
{
    let ghost before = out@;
    proof {
        reveal_strlit("{\"turn\":");
        reveal_strlit("}");
    }
    push_number_member(out, "{\"turn\":", *turn as u64);
    push(out, "}");
    assert(out@ =~= before + (number_member("{\"turn\":"@, *turn as nat) + "}"@));
}

fn push_turn_completed(out: &mut String, turn: &u32, outcome: &String)
    requires
        json::unbroken(old(out)@),
    ensures
        final(out)@ == old(out)@ + (number_member("{\"turn\":"@, *turn as nat) + text_member(",\"outcome\":"@, outcome@) + "}"@),
        json::unbroken(final(out)@),
{
    let ghost before = out@;
    proof {
        reveal_strlit("{\"turn\":");
        reveal_strlit(",\"outcome\":");
        reveal_strlit("}");
    }
    push_number_member(out, "{\"turn\":", *turn as u64);
    push_text_member(out, ",\"outcome\":", outcome.as_str());
    push(out, "}");
    assert(out@ =~= before + (number_member("{\"turn\":"@, *turn as nat) + text_member(",\"outcome\":"@, outcome@) + "}"@));
}

fn push_turn_failed(out: &mut String, turn: &u32, error: &String)
    requires
        json::unbroken(old(out)@),
    ensures
        final(out)@ == old(out)@ + (number_member("{\"turn\":"@, *turn as nat) + text_member(",\"error\":"@, error@) + "}"@),
        json::unbroken(final(out)@),
{
    let ghost before = out@;
    proof {
        reveal_strlit("{\"turn\":");
        reveal_strlit(",\"error\":");
        reveal_strlit("}");
    }
    push_number_member(out, "{\"turn\":", *turn as u64);
    push_text_member(out, ",\"error\":", error.as_str());
    push(out, "}");
    assert(out@ =~= before + (number_member("{\"turn\":"@, *turn as nat) + text_member(",\"error\":"@, error@) + "}"@));
}

fn push_run_completed(out: &mut String, result: &String)
    requires
        json::unbroken(old(out)@),
    ensures
        final(out)@ == old(out)@ + (text_member("{\"result\":"@, result@) + "}"@),
        json::unbroken(final(out)@),
{
    let ghost before = out@;
    proof {
        reveal_strlit("{\"result\":");
        reveal_strlit("}");
    }
    push_text_member(out, "{\"result\":", result.as_str());
    push(out, "}");
    assert(out@ =~= before + (text_member("{\"result\":"@, result@) + "}"@));
}

fn push_run_failed(out: &mut String, error: &String)
    requires
        json::unbroken(old(out)@),
    ensures
        final(out)@ == old(out)@ + (text_member("{\"error\":"@, error@) + "}"@),
        json::unbroken(final(out)@),
{
    let ghost before = out@;
    proof {
        reveal_strlit("{\"error\":");
        reveal_strlit("}");
    }
    push_text_member(out, "{\"error\":", error.as_str());
    push(out, "}");
    assert(out@ =~= before + (text_member("{\"error\":"@, error@) + "}"@));
}

fn push_message_started(out: &mut String, role: &MessageRole)
    requires
        json::unbroken(old(out)@),
    ensures
        final(out)@ == old(out)@ + (role_member("{\"role\":"@, *role) + "}"@),
        json::unbroken(final(out)@),
{
    let ghost before = out@;
    proof {
        reveal_strlit("{\"role\":");
        reveal_strlit("}");
    }
    push_role_member(out, "{\"role\":", *role);
    push(out, "}");
    assert(out@ =~= before + (role_member("{\"role\":"@, *role) + "}"@));
}

fn push_message_delta(out: &mut String, text: &String)
    requires
        json::unbroken(old(out)@),
    ensures
        final(out)@ == old(out)@ + (text_member("{\"text\":"@, text@) + "}"@),
        json::unbroken(final(out)@),
{
    let ghost before = out@;
    proof {
        reveal_strlit("{\"text\":");
        reveal_strlit("}");
    }
    push_text_member(out, "{\"text\":", text.as_str());
    push(out, "}");
    assert(out@ =~= before + (text_member("{\"text\":"@, text@) + "}"@));
}

fn push_plan_updated(out: &mut String, entries: &JsonValue)
    requires
        json::unbroken(old(out)@),
    ensures
        final(out)@ == old(out)@ + (value_member("{\"entries\":"@, entries@) + "}"@),
        json::unbroken(final(out)@),
{
    let ghost before = out@;
    proof {
        reveal_strlit("{\"entries\":");
        reveal_strlit("}");
    }
    push_value_member(out, "{\"entries\":", entries);
    push(out, "}");
    assert(out@ =~= before + (value_member("{\"entries\":"@, entries@) + "}"@));
}

fn push_tool_started(out: &mut String, name: &String, arguments: &JsonValue)
    requires
        json::unbroken(old(out)@),
    ensures
        final(out)@ == old(out)@ + (text_member("{\"name\":"@, name@) + value_member(",\"arguments\":"@, arguments@) + "}"@),
        json::unbroken(final(out)@),
{
    let ghost before = out@;
    proof {
        reveal_strlit("{\"name\":");
        reveal_strlit(",\"arguments\":");
        reveal_strlit("}");
    }
    push_text_member(out, "{\"name\":", name.as_str());
    push_value_member(out, ",\"arguments\":", arguments);
    push(out, "}");
    assert(out@ =~= before + (text_member("{\"name\":"@, name@) + value_member(",\"arguments\":"@, arguments@) + "}"@));
}

fn push_tool_completed(out: &mut String, name: &String, output: &String)
    requires
        json::unbroken(old(out)@),
    ensures
        final(out)@ == old(out)@ + (text_member("{\"name\":"@, name@) + text_member(",\"output\":"@, output@) + "}"@),
        json::unbroken(final(out)@),
{
    let ghost before = out@;
    proof {
        reveal_strlit("{\"name\":");
        reveal_strlit(",\"output\":");
        reveal_strlit("}");
    }
    push_text_member(out, "{\"name\":", name.as_str());
    push_text_member(out, ",\"output\":", output.as_str());
    push(out, "}");
    assert(out@ =~= before + (text_member("{\"name\":"@, name@) + text_member(",\"output\":"@, output@) + "}"@));
}

fn push_tool_failed(out: &mut String, name: &String, error: &String, output: &Option<String>)
    requires
        json::unbroken(old(out)@),
    ensures
        final(out)@ == old(out)@ + (text_member("{\"name\":"@, name@) + text_member(",\"error\":"@, error@) + optional_text_member(",\"output\":"@, text::optional(*output)) + "}"@),
        json::unbroken(final(out)@),
{
    let ghost before = out@;
    proof {
        reveal_strlit("{\"name\":");
        reveal_strlit(",\"error\":");
        reveal_strlit(",\"output\":");
        reveal_strlit("}");
    }
    push_text_member(out, "{\"name\":", name.as_str());
    push_text_member(out, ",\"error\":", error.as_str());
    push_optional_text_member(out, ",\"output\":", output);
    push(out, "}");
    assert(out@ =~= before + (text_member("{\"name\":"@, name@) + text_member(",\"error\":"@, error@) + optional_text_member(",\"output\":"@, text::optional(*output)) + "}"@));
}

fn push_command_started(out: &mut String, command: &String, cwd: &Option<String>, execution_site: &String, description: &Option<String>)
    requires
        json::unbroken(old(out)@),
    ensures
        final(out)@ == old(out)@ + (text_member("{\"command\":"@, command@) + optional_text_member(",\"cwd\":"@, text::optional(*cwd)) + text_member(",\"execution_site\":"@, execution_site@) + optional_text_member(",\"description\":"@, text::optional(*description)) + "}"@),
        json::unbroken(final(out)@),
{
    let ghost before = out@;
    proof {
        reveal_strlit("{\"command\":");
        reveal_strlit(",\"cwd\":");
        reveal_strlit(",\"execution_site\":");
        reveal_strlit(",\"description\":");
        reveal_strlit("}");
    }
    push_text_member(out, "{\"command\":", command.as_str());
    push_optional_text_member(out, ",\"cwd\":", cwd);
    push_text_member(out, ",\"execution_site\":", execution_site.as_str());
    push_optional_text_member(out, ",\"description\":", description);
    push(out, "}");
    assert(out@ =~= before + (text_member("{\"command\":"@, command@) + optional_text_member(",\"cwd\":"@, text::optional(*cwd)) + text_member(",\"execution_site\":"@, execution_site@) + optional_text_member(",\"description\":"@, text::optional(*description)) + "}"@));
}

fn push_command_output(out: &mut String, stream: &OutputStream, byte_offset: &u64, text: &String, display_sanitized: &bool)
    requires
        json::unbroken(old(out)@),
    ensures
        final(out)@ == old(out)@ + (stream_member("{\"stream\":"@, *stream) + number_member(",\"byte_offset\":"@, *byte_offset as nat) + text_member(",\"text\":"@, text@) + flag_member(",\"display_sanitized\":"@, *display_sanitized) + "}"@),
        json::unbroken(final(out)@),
{
    let ghost before = out@;
    proof {
        reveal_strlit("{\"stream\":");
        reveal_strlit(",\"byte_offset\":");
        reveal_strlit(",\"text\":");
        reveal_strlit(",\"display_sanitized\":");
        reveal_strlit("}");
    }
    push_stream_member(out, "{\"stream\":", *stream);
    push_number_member(out, ",\"byte_offset\":", *byte_offset);
    push_text_member(out, ",\"text\":", text.as_str());
    push_flag_member(out, ",\"display_sanitized\":", *display_sanitized);
    push(out, "}");
    assert(out@ =~= before + (stream_member("{\"stream\":"@, *stream) + number_member(",\"byte_offset\":"@, *byte_offset as nat) + text_member(",\"text\":"@, text@) + flag_member(",\"display_sanitized\":"@, *display_sanitized) + "}"@));
}

fn push_command_completed(out: &mut String, exit_code: &i32, elapsed_ms: &u64, timed_out: &bool, output_artifact: &Option<ArtifactRef>)
    requires
        json::unbroken(old(out)@),
    ensures
        final(out)@ == old(out)@ + (signed_member("{\"exit_code\":"@, *exit_code as int) + number_member(",\"elapsed_ms\":"@, *elapsed_ms as nat) + flag_member(",\"timed_out\":"@, *timed_out) + optional_artifact_member(",\"output_artifact\":"@, events::optional_artifact(*output_artifact)) + "}"@),
        json::unbroken(final(out)@),
{
    let ghost before = out@;
    proof {
        reveal_strlit("{\"exit_code\":");
        reveal_strlit(",\"elapsed_ms\":");
        reveal_strlit(",\"timed_out\":");
        reveal_strlit(",\"output_artifact\":");
        reveal_strlit("}");
    }
    push_signed_member(out, "{\"exit_code\":", *exit_code);
    push_number_member(out, ",\"elapsed_ms\":", *elapsed_ms);
    push_flag_member(out, ",\"timed_out\":", *timed_out);
    push_optional_artifact_member(out, ",\"output_artifact\":", output_artifact);
    push(out, "}");
    assert(out@ =~= before + (signed_member("{\"exit_code\":"@, *exit_code as int) + number_member(",\"elapsed_ms\":"@, *elapsed_ms as nat) + flag_member(",\"timed_out\":"@, *timed_out) + optional_artifact_member(",\"output_artifact\":"@, events::optional_artifact(*output_artifact)) + "}"@));
}

fn push_workspace_delta(out: &mut String, changes: &Vec<FileChange>, diff: &Option<String>, commit: &Option<String>)
    requires
        json::unbroken(old(out)@),
    ensures
        final(out)@ == old(out)@ + (changes_member("{\"changes\":"@, events::change_views(changes@)) + optional_text_member(",\"diff\":"@, text::optional(*diff)) + optional_text_member(",\"commit\":"@, text::optional(*commit)) + "}"@),
        json::unbroken(final(out)@),
{
    let ghost before = out@;
    proof {
        reveal_strlit("{\"changes\":");
        reveal_strlit(",\"diff\":");
        reveal_strlit(",\"commit\":");
        reveal_strlit("}");
    }
    push_changes_member(out, "{\"changes\":", changes);
    push_optional_text_member(out, ",\"diff\":", diff);
    push_optional_text_member(out, ",\"commit\":", commit);
    push(out, "}");
    assert(out@ =~= before + (changes_member("{\"changes\":"@, events::change_views(changes@)) + optional_text_member(",\"diff\":"@, text::optional(*diff)) + optional_text_member(",\"commit\":"@, text::optional(*commit)) + "}"@));
}

fn push_approval_requested(out: &mut String, action: &String, reason: &String, risk: &String)
    requires
        json::unbroken(old(out)@),
    ensures
        final(out)@ == old(out)@ + (text_member("{\"action\":"@, action@) + text_member(",\"reason\":"@, reason@) + text_member(",\"risk\":"@, risk@) + "}"@),
        json::unbroken(final(out)@),
{
    let ghost before = out@;
    proof {
        reveal_strlit("{\"action\":");
        reveal_strlit(",\"reason\":");
        reveal_strlit(",\"risk\":");
        reveal_strlit("}");
    }
    push_text_member(out, "{\"action\":", action.as_str());
    push_text_member(out, ",\"reason\":", reason.as_str());
    push_text_member(out, ",\"risk\":", risk.as_str());
    push(out, "}");
    assert(out@ =~= before + (text_member("{\"action\":"@, action@) + text_member(",\"reason\":"@, reason@) + text_member(",\"risk\":"@, risk@) + "}"@));
}

fn push_approval_resolved(out: &mut String, decision: &String)
    requires
        json::unbroken(old(out)@),
    ensures
        final(out)@ == old(out)@ + (text_member("{\"decision\":"@, decision@) + "}"@),
        json::unbroken(final(out)@),
{
    let ghost before = out@;
    proof {
        reveal_strlit("{\"decision\":");
        reveal_strlit("}");
    }
    push_text_member(out, "{\"decision\":", decision.as_str());
    push(out, "}");
    assert(out@ =~= before + (text_member("{\"decision\":"@, decision@) + "}"@));
}

fn push_gate_started(out: &mut String, gate: &String)
    requires
        json::unbroken(old(out)@),
    ensures
        final(out)@ == old(out)@ + (text_member("{\"gate\":"@, gate@) + "}"@),
        json::unbroken(final(out)@),
{
    let ghost before = out@;
    proof {
        reveal_strlit("{\"gate\":");
        reveal_strlit("}");
    }
    push_text_member(out, "{\"gate\":", gate.as_str());
    push(out, "}");
    assert(out@ =~= before + (text_member("{\"gate\":"@, gate@) + "}"@));
}

fn push_gate_completed(out: &mut String, gate: &String, passed: &bool, evidence: &Vec<ArtifactRef>)
    requires
        json::unbroken(old(out)@),
    ensures
        final(out)@ == old(out)@ + (text_member("{\"gate\":"@, gate@) + flag_member(",\"passed\":"@, *passed) + artifacts_member(",\"evidence\":"@, events::artifact_views(evidence@)) + "}"@),
        json::unbroken(final(out)@),
{
    let ghost before = out@;
    proof {
        reveal_strlit("{\"gate\":");
        reveal_strlit(",\"passed\":");
        reveal_strlit(",\"evidence\":");
        reveal_strlit("}");
    }
    push_text_member(out, "{\"gate\":", gate.as_str());
    push_flag_member(out, ",\"passed\":", *passed);
    push_artifacts_member(out, ",\"evidence\":", evidence);
    push(out, "}");
    assert(out@ =~= before + (text_member("{\"gate\":"@, gate@) + flag_member(",\"passed\":"@, *passed) + artifacts_member(",\"evidence\":"@, events::artifact_views(evidence@)) + "}"@));
}

fn push_artifact_produced(out: &mut String, artifact: &ArtifactRef)
    requires
        json::unbroken(old(out)@),
    ensures
        final(out)@ == old(out)@ + (artifact_member("{\"artifact\":"@, artifact@) + "}"@),
        json::unbroken(final(out)@),
{
    let ghost before = out@;
    proof {
        reveal_strlit("{\"artifact\":");
        reveal_strlit("}");
    }
    push_artifact_member(out, "{\"artifact\":", artifact);
    push(out, "}");
    assert(out@ =~= before + (artifact_member("{\"artifact\":"@, artifact@) + "}"@));
}

fn push_warning(out: &mut String, message: &String)
    requires
        json::unbroken(old(out)@),
    ensures
        final(out)@ == old(out)@ + (text_member("{\"message\":"@, message@) + "}"@),
        json::unbroken(final(out)@),
{
    let ghost before = out@;
    proof {
        reveal_strlit("{\"message\":");
        reveal_strlit("}");
    }
    push_text_member(out, "{\"message\":", message.as_str());
    push(out, "}");
    assert(out@ =~= before + (text_member("{\"message\":"@, message@) + "}"@));
}

fn push_error(out: &mut String, message: &String)
    requires
        json::unbroken(old(out)@),
    ensures
        final(out)@ == old(out)@ + (text_member("{\"message\":"@, message@) + "}"@),
        json::unbroken(final(out)@),
{
    let ghost before = out@;
    proof {
        reveal_strlit("{\"message\":");
        reveal_strlit("}");
    }
    push_text_member(out, "{\"message\":", message.as_str());
    push(out, "}");
    assert(out@ =~= before + (text_member("{\"message\":"@, message@) + "}"@));
}

fn push_payload(out: &mut String, event: &Event)
    requires
        json::unbroken(old(out)@),
    ensures
        final(out)@ == old(out)@ + payload(event@),
        json::unbroken(final(out)@),
{
    match event {
        Event::RunStarted { task } => {
            push_run_started(out, task);
        },
        Event::TurnStarted { turn } => {
            push_turn_started(out, turn);
        },
        Event::TurnCompleted { turn, outcome } => {
            push_turn_completed(out, turn, outcome);
        },
        Event::TurnFailed { turn, error } => {
            push_turn_failed(out, turn, error);
        },
        Event::RunCompleted { result } => {
            push_run_completed(out, result);
        },
        Event::RunFailed { error } => {
            push_run_failed(out, error);
        },
        Event::MessageStarted { role } => {
            push_message_started(out, role);
        },
        Event::MessageDelta { text } => {
            push_message_delta(out, text);
        },
        Event::MessageCompleted {  } => {
            let ghost before = out@;
            proof {
                reveal_strlit("{");
                reveal_strlit("}");
            }
            push(out, "{");
            push(out, "}");
            assert(out@ =~= before + ("{"@ + "}"@));
        },
        Event::PlanUpdated { entries } => {
            push_plan_updated(out, entries);
        },
        Event::ToolStarted { name, arguments } => {
            push_tool_started(out, name, arguments);
        },
        Event::ToolCompleted { name, output } => {
            push_tool_completed(out, name, output);
        },
        Event::ToolFailed { name, error, output } => {
            push_tool_failed(out, name, error, output);
        },
        Event::CommandStarted { command, cwd, execution_site, description } => {
            push_command_started(out, command, cwd, execution_site, description);
        },
        Event::CommandOutput { stream, byte_offset, text, display_sanitized } => {
            push_command_output(out, stream, byte_offset, text, display_sanitized);
        },
        Event::CommandCompleted { exit_code, elapsed_ms, timed_out, output_artifact } => {
            push_command_completed(out, exit_code, elapsed_ms, timed_out, output_artifact);
        },
        Event::WorkspaceDelta { changes, diff, commit } => {
            push_workspace_delta(out, changes, diff, commit);
        },
        Event::ApprovalRequested { action, reason, risk } => {
            push_approval_requested(out, action, reason, risk);
        },
        Event::ApprovalResolved { decision } => {
            push_approval_resolved(out, decision);
        },
        Event::GateStarted { gate } => {
            push_gate_started(out, gate);
        },
        Event::GateCompleted { gate, passed, evidence } => {
            push_gate_completed(out, gate, passed, evidence);
        },
        Event::ArtifactProduced { artifact } => {
            push_artifact_produced(out, artifact);
        },
        Event::Warning { message } => {
            push_warning(out, message);
        },
        Event::Error { message } => {
            push_error(out, message);
        },
    }
}

/// One canonical event as one line: an object with the event's type and content at its end.
pub open spec fn line(e: EventEnvelopeView) -> Seq<char> {
    number_member("{\"schema_version\":"@, e.schema_version as nat)
        + text_member(",\"event_id\":"@, e.event_id)
        + text_member(",\"run_id\":"@, e.run_id)
        + optional_text_member(",\"task_id\":"@, e.task_id)
        + optional_text_member(",\"turn_id\":"@, e.turn_id)
        + optional_text_member(",\"operation_id\":"@, e.operation_id)
        + optional_text_member(",\"parent_operation_id\":"@, e.parent_operation_id)
        + optional_number_member(",\"producer_sequence\":"@, e.producer_sequence)
        + number_member(",\"sequence\":"@, e.sequence as nat)
        + number_member(",\"emitted_at_unix_ms\":"@, e.emitted_at_unix_ms as nat)
        + producer_member(",\"producer\":"@, e.producer)
        + authority_member(",\"authority\":"@, e.authority)
        + visibility_member(",\"visibility\":"@, e.visibility)
        + text_member(",\"type\":"@, event_type(e.event)) + ",\"payload\":"@ + payload(e.event) + "}"@
}

impl EventEnvelope {
    /// One line of JSON, without a line break at its end or anywhere in it.
    pub fn to_json_line(&self) -> (r: String)
        ensures
            r@ == line(self@),
            json::unbroken(r@),
    {
        let mut out = String::new();
        proof {
            reveal_strlit("{\"schema_version\":");
            reveal_strlit(",\"event_id\":");
            reveal_strlit(",\"run_id\":");
            reveal_strlit(",\"task_id\":");
            reveal_strlit(",\"turn_id\":");
            reveal_strlit(",\"operation_id\":");
            reveal_strlit(",\"parent_operation_id\":");
            reveal_strlit(",\"producer_sequence\":");
            reveal_strlit(",\"sequence\":");
            reveal_strlit(",\"emitted_at_unix_ms\":");
            reveal_strlit(",\"producer\":");
            reveal_strlit(",\"authority\":");
            reveal_strlit(",\"visibility\":");
            reveal_strlit(",\"type\":");
            reveal_strlit(",\"payload\":");
            reveal_strlit("}");
        }
        push_number_member(&mut out, "{\"schema_version\":", self.schema_version as u64);
        push_text_member(&mut out, ",\"event_id\":", self.event_id.as_str());
        push_text_member(&mut out, ",\"run_id\":", self.run_id.as_str());
        push_optional_text_member(&mut out, ",\"task_id\":", &self.task_id);
        push_optional_text_member(&mut out, ",\"turn_id\":", &self.turn_id);
        push_optional_text_member(&mut out, ",\"operation_id\":", &self.operation_id);
        push_optional_text_member(&mut out, ",\"parent_operation_id\":", &self.parent_operation_id);
        push_optional_number_member(&mut out, ",\"producer_sequence\":", self.producer_sequence);
        push_number_member(&mut out, ",\"sequence\":", self.sequence);
        push_number_member(&mut out, ",\"emitted_at_unix_ms\":", self.emitted_at_unix_ms);
        push_producer_member(&mut out, ",\"producer\":", &self.producer);
        push_authority_member(&mut out, ",\"authority\":", self.authority);
        push_visibility_member(&mut out, ",\"visibility\":", self.visibility);
        push_text_member(&mut out, ",\"type\":", type_of(&self.event));
        push(&mut out, ",\"payload\":");
        push_payload(&mut out, &self.event);
        push(&mut out, "}");
        assert(out@ =~= line(self@));
        out
    }
}

} // verus!
