//! Versioned interaction events and the sequencer that gives them canonical order.
pub mod conduct;

use crate::json::JsonValue;
use crate::text;
use vstd::prelude::*;
use vstd::string::*;

verus! {

/// The only event schema.
pub const SCHEMA_VERSION: u16 = 1;

/// Who emitted an event.
#[derive(Debug, PartialEq, Eq)]
pub struct Producer {
    pub component: String,
    pub instance: String,
}

pub ghost struct ProducerView {
    pub component: Seq<char>,
    pub instance: Seq<char>,
}

impl View for Producer {
    type V = ProducerView;

    open spec fn view(&self) -> ProducerView {
        ProducerView { component: self.component@, instance: self.instance@ }
    }
}

impl Clone for Producer {
    fn clone(&self) -> (r: Self)
        ensures
            r == *self,
    {
        Producer { component: self.component.clone(), instance: self.instance.clone() }
    }
}

impl Producer {
    pub fn new(component: &str, instance: &str) -> (r: Self)
        ensures
            r@ == (ProducerView { component: component@, instance: instance@ }),
    {
        Producer { component: component.to_owned(), instance: instance.to_owned() }
    }
}

/// How far a statement can be relied on.
#[derive(Clone, Copy, Debug, PartialEq, Eq, Structural)]
pub enum Authority {
    Narrative,
    Reported,
    Observed,
    Verified,
}

/// Who is shown an event.
#[derive(Clone, Copy, Debug, PartialEq, Eq, Structural)]
pub enum Visibility {
    User,
    Diagnostic,
}

#[derive(Clone, Copy, Debug, PartialEq, Eq, Structural)]
pub enum MessageRole {
    Assistant,
    User,
    System,
}

#[derive(Clone, Copy, Debug, PartialEq, Eq, Structural)]
pub enum OutputStream {
    Stdout,
    Stderr,
}

#[derive(Clone, Copy, Debug, PartialEq, Eq, Structural)]
pub enum FileChangeKind {
    Added,
    Modified,
    Deleted,
    Renamed,
    Binary,
}

/// One changed file of a workspace.
#[derive(Debug, PartialEq, Eq)]
pub struct FileChange {
    pub path: String,
    pub kind: FileChangeKind,
    pub additions: Option<u64>,
    pub deletions: Option<u64>,
    pub before_digest: Option<String>,
    pub after_digest: Option<String>,
}

pub ghost struct FileChangeView {
    pub path: Seq<char>,
    pub kind: FileChangeKind,
    pub additions: Option<u64>,
    pub deletions: Option<u64>,
    pub before_digest: Option<Seq<char>>,
    pub after_digest: Option<Seq<char>>,
}

impl View for FileChange {
    type V = FileChangeView;

    open spec fn view(&self) -> FileChangeView {
        FileChangeView {
            path: self.path@,
            kind: self.kind,
            additions: self.additions,
            deletions: self.deletions,
            before_digest: text::optional(self.before_digest),
            after_digest: text::optional(self.after_digest),
        }
    }
}

impl Clone for FileChange {
    fn clone(&self) -> (r: Self)
        ensures
            r == *self,
    {
        FileChange {
            path: self.path.clone(),
            kind: self.kind,
            additions: self.additions,
            deletions: self.deletions,
            before_digest: text::copy_optional(&self.before_digest),
            after_digest: text::copy_optional(&self.after_digest),
        }
    }
}

fn same_count(a: Option<u64>, b: Option<u64>) -> (r: bool)
    ensures
        r == (a == b),
{
    match (a, b) {
        (Some(x), Some(y)) => x == y,
        (None, None) => true,
        _ => false,
    }
}

impl FileChange {
    pub fn same(&self, other: &Self) -> (r: bool)
        ensures
            r == (self@ == other@),
    {
        text::same(self.path.as_str(), other.path.as_str()) && self.kind == other.kind
            && same_count(self.additions, other.additions) && same_count(
            self.deletions,
            other.deletions,
        ) && text::same_optional(&self.before_digest, &other.before_digest)
            && text::same_optional(&self.after_digest, &other.after_digest)
    }
}

/// Stored content that an event points at.
#[derive(Debug, PartialEq, Eq)]
pub struct ArtifactRef {
    pub digest: String,
    pub media_type: String,
    pub size_bytes: u64,
    pub reference: String,
}

pub ghost struct ArtifactRefView {
    pub digest: Seq<char>,
    pub media_type: Seq<char>,
    pub size_bytes: u64,
    pub reference: Seq<char>,
}

impl View for ArtifactRef {
    type V = ArtifactRefView;

    open spec fn view(&self) -> ArtifactRefView {
        ArtifactRefView {
            digest: self.digest@,
            media_type: self.media_type@,
            size_bytes: self.size_bytes,
            reference: self.reference@,
        }
    }
}

impl Clone for ArtifactRef {
    fn clone(&self) -> (r: Self)
        ensures
            r == *self,
    {
        ArtifactRef {
            digest: self.digest.clone(),
            media_type: self.media_type.clone(),
            size_bytes: self.size_bytes,
            reference: self.reference.clone(),
        }
    }
}

impl ArtifactRef {
    pub fn same(&self, other: &Self) -> (r: bool)
        ensures
            r == (self@ == other@),
    {
        text::same(self.digest.as_str(), other.digest.as_str()) && text::same(
            self.media_type.as_str(),
            other.media_type.as_str(),
        ) && self.size_bytes == other.size_bytes && text::same(
            self.reference.as_str(),
            other.reference.as_str(),
        )
    }
}

pub open spec fn change_views(changes: Seq<FileChange>) -> Seq<FileChangeView> {
    Seq::new(changes.len(), |i: int| changes[i]@)
}

pub open spec fn artifact_views(artifacts: Seq<ArtifactRef>) -> Seq<ArtifactRefView> {
    Seq::new(artifacts.len(), |i: int| artifacts[i]@)
}

pub open spec fn optional_artifact(artifact: Option<ArtifactRef>) -> Option<ArtifactRefView> {
    match artifact {
        Some(a) => Some(a@),
        None => None,
    }
}

fn copy_optional_artifact(artifact: &Option<ArtifactRef>) -> (r: Option<ArtifactRef>)
    ensures
        r == *artifact,
{
    match artifact {
        Some(a) => Some(a.clone()),
        None => None,
    }
}

fn same_optional_artifact(a: &Option<ArtifactRef>, b: &Option<ArtifactRef>) -> (r: bool)
    ensures
        r == (optional_artifact(*a) == optional_artifact(*b)),
{
    match (a, b) {
        (Some(x), Some(y)) => x.same(y),
        (None, None) => true,
        _ => false,
    }
}

fn copy_changes(changes: &Vec<FileChange>) -> (r: Vec<FileChange>)
    ensures
        change_views(r@) == change_views(changes@),
{
    let mut out: Vec<FileChange> = Vec::new();
    let mut i: usize = 0;
    while i < changes.len()
        invariant
            i <= changes@.len(),
            out@ == changes@.take(i as int),
        decreases changes@.len() - i,
    {
        out.push(changes[i].clone());
        assert(changes@.take(i + 1) =~= changes@.take(i as int).push(changes@[i as int]));
        i += 1;
    }
    assert(changes@.take(changes@.len() as int) =~= changes@);
    out
}

fn same_changes(a: &Vec<FileChange>, b: &Vec<FileChange>) -> (r: bool)
    ensures
        r == (change_views(a@) == change_views(b@)),
{
    if a.len() != b.len() {
        assert(change_views(a@).len() != change_views(b@).len());
        return false;
    }
    let mut i: usize = 0;
    while i < a.len()
        invariant
            i <= a@.len(),
            a@.len() == b@.len(),
            forall|k: int| 0 <= k < i ==> #[trigger] a@[k]@ == b@[k]@,
        decreases a@.len() - i,
    {
        if !a[i].same(&b[i]) {
            assert(change_views(a@)[i as int] != change_views(b@)[i as int]);
            return false;
        }
        i += 1;
    }
    assert(change_views(a@) =~= change_views(b@));
    true
}

fn copy_artifacts(artifacts: &Vec<ArtifactRef>) -> (r: Vec<ArtifactRef>)
    ensures
        artifact_views(r@) == artifact_views(artifacts@),
{
    let mut out: Vec<ArtifactRef> = Vec::new();
    let mut i: usize = 0;
    while i < artifacts.len()
        invariant
            i <= artifacts@.len(),
            out@ == artifacts@.take(i as int),
        decreases artifacts@.len() - i,
    {
        out.push(artifacts[i].clone());
        assert(artifacts@.take(i + 1) =~= artifacts@.take(i as int).push(artifacts@[i as int]));
        i += 1;
    }
    assert(artifacts@.take(artifacts@.len() as int) =~= artifacts@);
    out
}

fn same_artifacts(a: &Vec<ArtifactRef>, b: &Vec<ArtifactRef>) -> (r: bool)
    ensures
        r == (artifact_views(a@) == artifact_views(b@)),
{
    if a.len() != b.len() {
        assert(artifact_views(a@).len() != artifact_views(b@).len());
        return false;
    }
    let mut i: usize = 0;
    while i < a.len()
        invariant
            i <= a@.len(),
            a@.len() == b@.len(),
            forall|k: int| 0 <= k < i ==> #[trigger] a@[k]@ == b@[k]@,
        decreases a@.len() - i,
    {
        if !a[i].same(&b[i]) {
            assert(artifact_views(a@)[i as int] != artifact_views(b@)[i as int]);
            return false;
        }
        i += 1;
    }
    assert(artifact_views(a@) =~= artifact_views(b@));
    true
}

/// What happened in a run.
#[allow(inconsistent_fields)]
#[derive(Debug, PartialEq, Eq)]
pub enum Event {
    RunStarted { task: String },
    TurnStarted { turn: u32 },
    TurnCompleted { turn: u32, outcome: String },
    TurnFailed { turn: u32, error: String },
    RunCompleted { result: String },
    RunFailed { error: String },
    MessageStarted { role: MessageRole },
    MessageDelta { text: String },
    MessageCompleted { },
    PlanUpdated { entries: JsonValue },
    ToolStarted { name: String, arguments: JsonValue },
    ToolCompleted { name: String, output: String },
    ToolFailed { name: String, error: String, output: Option<String> },
    CommandStarted { command: String, cwd: Option<String>, execution_site: String, description: Option<String> },
    CommandOutput { stream: OutputStream, byte_offset: u64, text: String, display_sanitized: bool },
    CommandCompleted { exit_code: i32, elapsed_ms: u64, timed_out: bool, output_artifact: Option<ArtifactRef> },
    WorkspaceDelta { changes: Vec<FileChange>, diff: Option<String>, commit: Option<String> },
    ApprovalRequested { action: String, reason: String, risk: String },
    ApprovalResolved { decision: String },
    GateStarted { gate: String },
    GateCompleted { gate: String, passed: bool, evidence: Vec<ArtifactRef> },
    ArtifactProduced { artifact: ArtifactRef },
    Warning { message: String },
    Error { message: String },
}

/// The content of an [`Event`].
#[allow(inconsistent_fields)]
pub ghost enum EventView {
    RunStarted { task: Seq<char> },
    TurnStarted { turn: u32 },
    TurnCompleted { turn: u32, outcome: Seq<char> },
    TurnFailed { turn: u32, error: Seq<char> },
    RunCompleted { result: Seq<char> },
    RunFailed { error: Seq<char> },
    MessageStarted { role: MessageRole },
    MessageDelta { text: Seq<char> },
    MessageCompleted { },
    PlanUpdated { entries: Seq<char> },
    ToolStarted { name: Seq<char>, arguments: Seq<char> },
    ToolCompleted { name: Seq<char>, output: Seq<char> },
    ToolFailed { name: Seq<char>, error: Seq<char>, output: Option<Seq<char>> },
    CommandStarted { command: Seq<char>, cwd: Option<Seq<char>>, execution_site: Seq<char>, description: Option<Seq<char>> },
    CommandOutput { stream: OutputStream, byte_offset: u64, text: Seq<char>, display_sanitized: bool },
    CommandCompleted { exit_code: i32, elapsed_ms: u64, timed_out: bool, output_artifact: Option<ArtifactRefView> },
    WorkspaceDelta { changes: Seq<FileChangeView>, diff: Option<Seq<char>>, commit: Option<Seq<char>> },
    ApprovalRequested { action: Seq<char>, reason: Seq<char>, risk: Seq<char> },
    ApprovalResolved { decision: Seq<char> },
    GateStarted { gate: Seq<char> },
    GateCompleted { gate: Seq<char>, passed: bool, evidence: Seq<ArtifactRefView> },
    ArtifactProduced { artifact: ArtifactRefView },
    Warning { message: Seq<char> },
    Error { message: Seq<char> },
}

impl View for Event {
    type V = EventView;

    open spec fn view(&self) -> EventView {
        match *self {
            Event::RunStarted { task } => EventView::RunStarted { task: task@ },
            Event::TurnStarted { turn } => EventView::TurnStarted { turn },
            Event::TurnCompleted { turn, outcome } => EventView::TurnCompleted { turn, outcome: outcome@ },
            Event::TurnFailed { turn, error } => EventView::TurnFailed { turn, error: error@ },
            Event::RunCompleted { result } => EventView::RunCompleted { result: result@ },
            Event::RunFailed { error } => EventView::RunFailed { error: error@ },
            Event::MessageStarted { role } => EventView::MessageStarted { role },
            Event::MessageDelta { text } => EventView::MessageDelta { text: text@ },
            Event::MessageCompleted {} => EventView::MessageCompleted {  },
            Event::PlanUpdated { entries } => EventView::PlanUpdated { entries: entries@ },
            Event::ToolStarted { name, arguments } => EventView::ToolStarted { name: name@, arguments: arguments@ },
            Event::ToolCompleted { name, output } => EventView::ToolCompleted { name: name@, output: output@ },
            Event::ToolFailed { name, error, output } => EventView::ToolFailed { name: name@, error: error@, output: text::optional(output) },
            Event::CommandStarted { command, cwd, execution_site, description } => EventView::CommandStarted { command: command@, cwd: text::optional(cwd), execution_site: execution_site@, description: text::optional(description) },
            Event::CommandOutput { stream, byte_offset, text, display_sanitized } => EventView::CommandOutput { stream, byte_offset, text: text@, display_sanitized },
            Event::CommandCompleted { exit_code, elapsed_ms, timed_out, output_artifact } => EventView::CommandCompleted { exit_code, elapsed_ms, timed_out, output_artifact: optional_artifact(output_artifact) },
            Event::WorkspaceDelta { changes, diff, commit } => EventView::WorkspaceDelta { changes: change_views(changes@), diff: text::optional(diff), commit: text::optional(commit) },
            Event::ApprovalRequested { action, reason, risk } => EventView::ApprovalRequested { action: action@, reason: reason@, risk: risk@ },
            Event::ApprovalResolved { decision } => EventView::ApprovalResolved { decision: decision@ },
            Event::GateStarted { gate } => EventView::GateStarted { gate: gate@ },
            Event::GateCompleted { gate, passed, evidence } => EventView::GateCompleted { gate: gate@, passed, evidence: artifact_views(evidence@) },
            Event::ArtifactProduced { artifact } => EventView::ArtifactProduced { artifact: artifact@ },
            Event::Warning { message } => EventView::Warning { message: message@ },
            Event::Error { message } => EventView::Error { message: message@ },
        }
    }
}

impl Clone for Event {
    fn clone(&self) -> (r: Self)
        ensures
            r@ == self@,
    {
        match self {
            Event::RunStarted { task } => Event::RunStarted { task: task.clone() },
            Event::TurnStarted { turn } => Event::TurnStarted { turn: *turn },
            Event::TurnCompleted { turn, outcome } => Event::TurnCompleted { turn: *turn, outcome: outcome.clone() },
            Event::TurnFailed { turn, error } => Event::TurnFailed { turn: *turn, error: error.clone() },
            Event::RunCompleted { result } => Event::RunCompleted { result: result.clone() },
            Event::RunFailed { error } => Event::RunFailed { error: error.clone() },
            Event::MessageStarted { role } => Event::MessageStarted { role: *role },
            Event::MessageDelta { text } => Event::MessageDelta { text: text.clone() },
            Event::MessageCompleted {} => Event::MessageCompleted {  },
            Event::PlanUpdated { entries } => Event::PlanUpdated { entries: entries.clone() },
            Event::ToolStarted { name, arguments } => Event::ToolStarted { name: name.clone(), arguments: arguments.clone() },
            Event::ToolCompleted { name, output } => Event::ToolCompleted { name: name.clone(), output: output.clone() },
            Event::ToolFailed { name, error, output } => Event::ToolFailed { name: name.clone(), error: error.clone(), output: text::copy_optional(output) },
            Event::CommandStarted { command, cwd, execution_site, description } => Event::CommandStarted { command: command.clone(), cwd: text::copy_optional(cwd), execution_site: execution_site.clone(), description: text::copy_optional(description) },
            Event::CommandOutput { stream, byte_offset, text, display_sanitized } => Event::CommandOutput { stream: *stream, byte_offset: *byte_offset, text: text.clone(), display_sanitized: *display_sanitized },
            Event::CommandCompleted { exit_code, elapsed_ms, timed_out, output_artifact } => Event::CommandCompleted { exit_code: *exit_code, elapsed_ms: *elapsed_ms, timed_out: *timed_out, output_artifact: copy_optional_artifact(output_artifact) },
            Event::WorkspaceDelta { changes, diff, commit } => Event::WorkspaceDelta { changes: copy_changes(changes), diff: text::copy_optional(diff), commit: text::copy_optional(commit) },
            Event::ApprovalRequested { action, reason, risk } => Event::ApprovalRequested { action: action.clone(), reason: reason.clone(), risk: risk.clone() },
            Event::ApprovalResolved { decision } => Event::ApprovalResolved { decision: decision.clone() },
            Event::GateStarted { gate } => Event::GateStarted { gate: gate.clone() },
            Event::GateCompleted { gate, passed, evidence } => Event::GateCompleted { gate: gate.clone(), passed: *passed, evidence: copy_artifacts(evidence) },
            Event::ArtifactProduced { artifact } => Event::ArtifactProduced { artifact: artifact.clone() },
            Event::Warning { message } => Event::Warning { message: message.clone() },
            Event::Error { message } => Event::Error { message: message.clone() },
        }
    }
}

impl Event {
    /// Whether both events have the same content.
    pub fn same(&self, other: &Self) -> (r: bool)
        ensures
            r == (self@ == other@),
    {
        match (self, other) {
            (Event::RunStarted { task: x_task }, Event::RunStarted { task: y_task }) => text::same(x_task.as_str(), y_task.as_str()),
            (Event::TurnStarted { turn: x_turn }, Event::TurnStarted { turn: y_turn }) => *x_turn == *y_turn,
            (Event::TurnCompleted { turn: x_turn, outcome: x_outcome }, Event::TurnCompleted { turn: y_turn, outcome: y_outcome }) => *x_turn == *y_turn && text::same(x_outcome.as_str(), y_outcome.as_str()),
            (Event::TurnFailed { turn: x_turn, error: x_error }, Event::TurnFailed { turn: y_turn, error: y_error }) => *x_turn == *y_turn && text::same(x_error.as_str(), y_error.as_str()),
            (Event::RunCompleted { result: x_result }, Event::RunCompleted { result: y_result }) => text::same(x_result.as_str(), y_result.as_str()),
            (Event::RunFailed { error: x_error }, Event::RunFailed { error: y_error }) => text::same(x_error.as_str(), y_error.as_str()),
            (Event::MessageStarted { role: x_role }, Event::MessageStarted { role: y_role }) => *x_role == *y_role,
            (Event::MessageDelta { text: x_text }, Event::MessageDelta { text: y_text }) => text::same(x_text.as_str(), y_text.as_str()),
            (Event::MessageCompleted {}, Event::MessageCompleted {}) => true,
            (Event::PlanUpdated { entries: x_entries }, Event::PlanUpdated { entries: y_entries }) => x_entries.same(y_entries),
            (Event::ToolStarted { name: x_name, arguments: x_arguments }, Event::ToolStarted { name: y_name, arguments: y_arguments }) => text::same(x_name.as_str(), y_name.as_str()) && x_arguments.same(y_arguments),
            (Event::ToolCompleted { name: x_name, output: x_output }, Event::ToolCompleted { name: y_name, output: y_output }) => text::same(x_name.as_str(), y_name.as_str()) && text::same(x_output.as_str(), y_output.as_str()),
            (Event::ToolFailed { name: x_name, error: x_error, output: x_output }, Event::ToolFailed { name: y_name, error: y_error, output: y_output }) => text::same(x_name.as_str(), y_name.as_str()) && text::same(x_error.as_str(), y_error.as_str()) && text::same_optional(x_output, y_output),
            (Event::CommandStarted { command: x_command, cwd: x_cwd, execution_site: x_execution_site, description: x_description }, Event::CommandStarted { command: y_command, cwd: y_cwd, execution_site: y_execution_site, description: y_description }) => text::same(x_command.as_str(), y_command.as_str()) && text::same_optional(x_cwd, y_cwd) && text::same(x_execution_site.as_str(), y_execution_site.as_str()) && text::same_optional(x_description, y_description),
            (Event::CommandOutput { stream: x_stream, byte_offset: x_byte_offset, text: x_text, display_sanitized: x_display_sanitized }, Event::CommandOutput { stream: y_stream, byte_offset: y_byte_offset, text: y_text, display_sanitized: y_display_sanitized }) => *x_stream == *y_stream && *x_byte_offset == *y_byte_offset && text::same(x_text.as_str(), y_text.as_str()) && *x_display_sanitized == *y_display_sanitized,
            (Event::CommandCompleted { exit_code: x_exit_code, elapsed_ms: x_elapsed_ms, timed_out: x_timed_out, output_artifact: x_output_artifact }, Event::CommandCompleted { exit_code: y_exit_code, elapsed_ms: y_elapsed_ms, timed_out: y_timed_out, output_artifact: y_output_artifact }) => *x_exit_code == *y_exit_code && *x_elapsed_ms == *y_elapsed_ms && *x_timed_out == *y_timed_out && same_optional_artifact(x_output_artifact, y_output_artifact),
            (Event::WorkspaceDelta { changes: x_changes, diff: x_diff, commit: x_commit }, Event::WorkspaceDelta { changes: y_changes, diff: y_diff, commit: y_commit }) => same_changes(x_changes, y_changes) && text::same_optional(x_diff, y_diff) && text::same_optional(x_commit, y_commit),
            (Event::ApprovalRequested { action: x_action, reason: x_reason, risk: x_risk }, Event::ApprovalRequested { action: y_action, reason: y_reason, risk: y_risk }) => text::same(x_action.as_str(), y_action.as_str()) && text::same(x_reason.as_str(), y_reason.as_str()) && text::same(x_risk.as_str(), y_risk.as_str()),
            (Event::ApprovalResolved { decision: x_decision }, Event::ApprovalResolved { decision: y_decision }) => text::same(x_decision.as_str(), y_decision.as_str()),
            (Event::GateStarted { gate: x_gate }, Event::GateStarted { gate: y_gate }) => text::same(x_gate.as_str(), y_gate.as_str()),
            (Event::GateCompleted { gate: x_gate, passed: x_passed, evidence: x_evidence }, Event::GateCompleted { gate: y_gate, passed: y_passed, evidence: y_evidence }) => text::same(x_gate.as_str(), y_gate.as_str()) && *x_passed == *y_passed && same_artifacts(x_evidence, y_evidence),
            (Event::ArtifactProduced { artifact: x_artifact }, Event::ArtifactProduced { artifact: y_artifact }) => x_artifact.same(y_artifact),
            (Event::Warning { message: x_message }, Event::Warning { message: y_message }) => text::same(x_message.as_str(), y_message.as_str()),
            (Event::Error { message: x_message }, Event::Error { message: y_message }) => text::same(x_message.as_str(), y_message.as_str()),
            _ => false,
        }
    }
}
/// An event as its producer emits it, without canonical order.
#[derive(Debug, PartialEq, Eq)]
pub struct ProducerEvent {
    pub schema_version: u16,
    pub run_id: String,
    pub task_id: Option<String>,
    pub turn_id: Option<String>,
    pub operation_id: Option<String>,
    pub parent_operation_id: Option<String>,
    pub producer_sequence: Option<u64>,
    pub emitted_at_unix_ms: u64,
    pub producer: Producer,
    pub authority: Authority,
    pub visibility: Visibility,
    pub event: Event,
}

pub ghost struct ProducerEventView {
    pub schema_version: u16,
    pub run_id: Seq<char>,
    pub task_id: Option<Seq<char>>,
    pub turn_id: Option<Seq<char>>,
    pub operation_id: Option<Seq<char>>,
    pub parent_operation_id: Option<Seq<char>>,
    pub producer_sequence: Option<u64>,
    pub emitted_at_unix_ms: u64,
    pub producer: ProducerView,
    pub authority: Authority,
    pub visibility: Visibility,
    pub event: EventView,
}

impl View for ProducerEvent {
    type V = ProducerEventView;

    open spec fn view(&self) -> ProducerEventView {
        ProducerEventView {
            schema_version: self.schema_version,
            run_id: self.run_id@,
            task_id: text::optional(self.task_id),
            turn_id: text::optional(self.turn_id),
            operation_id: text::optional(self.operation_id),
            parent_operation_id: text::optional(self.parent_operation_id),
            producer_sequence: self.producer_sequence,
            emitted_at_unix_ms: self.emitted_at_unix_ms,
            producer: self.producer@,
            authority: self.authority,
            visibility: self.visibility,
            event: self.event@,
        }
    }
}

/// `SystemTime::elapsed` of the Unix epoch: the whole seconds and the nanoseconds of the last one
/// that the clock shows; none where it stands before the epoch. Of the reading nothing is promised
/// but that the nanoseconds stay below a second.
#[verifier::external_body]
fn since_epoch() -> (r: Option<(u64, u32)>)
    ensures
        r matches Some((_, nanos)) ==> nanos < 1_000_000_000,
{
    std::time::UNIX_EPOCH.elapsed().ok().map(|d| (d.as_secs(), d.subsec_nanos()))
}

/// Whole milliseconds of a clock that shows seconds and nanoseconds.
pub fn millis(seconds: u64, nanos: u32) -> (r: u128)
    ensures
        r == seconds * 1000 + nanos / 1_000_000,
{
    seconds as u128 * 1000 + (nanos / 1_000_000) as u128
}

/// A reading of the clock as a time stamp: 0 where there is none or it is too large.
pub open spec fn time_stamp(reading: Option<u128>) -> u64 {
    match reading {
        Some(ms) if ms <= u64::MAX => ms as u64,
        _ => 0,
    }
}

pub fn stamped(reading: Option<u128>) -> (r: u64)
    ensures
        r == time_stamp(reading),
{
    match reading {
        Some(ms) => if ms <= u64::MAX as u128 {
            ms as u64
        } else {
            0
        },
        None => 0,
    }
}

/// The time stamp of a clock reading.
pub(crate) fn unix_time_ms() -> (r: u64)
    ensures
        exists|reading: Option<u128>| r == #[trigger] time_stamp(reading),
{
    let reading = match since_epoch() {
        Some((seconds, nanos)) => Some(millis(seconds, nanos)),
        None => None,
    };
    stamped(reading)
}

impl ProducerEvent {
    /// An observed event for users, emitted now.
    pub fn new(run_id: &str, producer: Producer, event: Event) -> (r: Self)
        ensures
            r@ == emitted(run_id@, producer@, event@, r.emitted_at_unix_ms),
    {
        Self::emitted_at(run_id, producer, event, unix_time_ms())
    }

    /// An observed event for users, emitted at the given time.
    pub fn emitted_at(run_id: &str, producer: Producer, event: Event, at_ms: u64) -> (r: Self)
        ensures
            r@ == emitted(run_id@, producer@, event@, at_ms),
    {
        ProducerEvent {
            schema_version: SCHEMA_VERSION,
            run_id: run_id.to_owned(),
            task_id: None,
            turn_id: None,
            operation_id: None,
            parent_operation_id: None,
            producer_sequence: None,
            emitted_at_unix_ms: at_ms,
            producer,
            authority: Authority::Observed,
            visibility: Visibility::User,
            event,
        }
    }
}

/// A fresh producer frame that is bound to its run and to nothing else.
pub open spec fn emitted(
    run_id: Seq<char>,
    producer: ProducerView,
    event: EventView,
    at_ms: u64,
) -> ProducerEventView {
    ProducerEventView {
        schema_version: SCHEMA_VERSION,
        run_id,
        task_id: None,
        turn_id: None,
        operation_id: None,
        parent_operation_id: None,
        producer_sequence: None,
        emitted_at_unix_ms: at_ms,
        producer,
        authority: Authority::Observed,
        visibility: Visibility::User,
        event,
    }
}

impl Clone for ProducerEvent {
    fn clone(&self) -> (r: Self)
        ensures
            r@ == self@,
    {
        ProducerEvent {
            schema_version: self.schema_version,
            run_id: self.run_id.clone(),
            task_id: text::copy_optional(&self.task_id),
            turn_id: text::copy_optional(&self.turn_id),
            operation_id: text::copy_optional(&self.operation_id),
            parent_operation_id: text::copy_optional(&self.parent_operation_id),
            producer_sequence: self.producer_sequence,
            emitted_at_unix_ms: self.emitted_at_unix_ms,
            producer: self.producer.clone(),
            authority: self.authority,
            visibility: self.visibility,
            event: self.event.clone(),
        }
    }
}

/// An event with its canonical identity and order.
#[derive(Debug, PartialEq, Eq)]
pub struct EventEnvelope {
    pub schema_version: u16,
    pub event_id: String,
    pub run_id: String,
    pub task_id: Option<String>,
    pub turn_id: Option<String>,
    pub operation_id: Option<String>,
    pub parent_operation_id: Option<String>,
    pub producer_sequence: Option<u64>,
    pub sequence: u64,
    pub emitted_at_unix_ms: u64,
    pub producer: Producer,
    pub authority: Authority,
    pub visibility: Visibility,
    pub event: Event,
}

pub ghost struct EventEnvelopeView {
    pub schema_version: u16,
    pub event_id: Seq<char>,
    pub run_id: Seq<char>,
    pub task_id: Option<Seq<char>>,
    pub turn_id: Option<Seq<char>>,
    pub operation_id: Option<Seq<char>>,
    pub parent_operation_id: Option<Seq<char>>,
    pub producer_sequence: Option<u64>,
    pub sequence: u64,
    pub emitted_at_unix_ms: u64,
    pub producer: ProducerView,
    pub authority: Authority,
    pub visibility: Visibility,
    pub event: EventView,
}

impl View for EventEnvelope {
    type V = EventEnvelopeView;

    open spec fn view(&self) -> EventEnvelopeView {
        EventEnvelopeView {
            schema_version: self.schema_version,
            event_id: self.event_id@,
            run_id: self.run_id@,
            task_id: text::optional(self.task_id),
            turn_id: text::optional(self.turn_id),
            operation_id: text::optional(self.operation_id),
            parent_operation_id: text::optional(self.parent_operation_id),
            producer_sequence: self.producer_sequence,
            sequence: self.sequence,
            emitted_at_unix_ms: self.emitted_at_unix_ms,
            producer: self.producer@,
            authority: self.authority,
            visibility: self.visibility,
            event: self.event@,
        }
    }
}

impl Clone for EventEnvelope {
    fn clone(&self) -> (r: Self)
        ensures
            r@ == self@,
    {
        EventEnvelope {
            schema_version: self.schema_version,
            event_id: self.event_id.clone(),
            run_id: self.run_id.clone(),
            task_id: text::copy_optional(&self.task_id),
            turn_id: text::copy_optional(&self.turn_id),
            operation_id: text::copy_optional(&self.operation_id),
            parent_operation_id: text::copy_optional(&self.parent_operation_id),
            producer_sequence: self.producer_sequence,
            sequence: self.sequence,
            emitted_at_unix_ms: self.emitted_at_unix_ms,
            producer: self.producer.clone(),
            authority: self.authority,
            visibility: self.visibility,
            event: self.event.clone(),
        }
    }
}

/// The identity of the event at `sequence` of a run: the run, a colon and twenty digits.
pub open spec fn event_identity(run_id: Seq<char>, sequence: u64) -> Seq<char> {
    run_id + ":"@ + text::zero_padded(text::decimal(sequence as nat), 20)
}

/// `frame` with the identity and the order that `sequence` gives it.
pub open spec fn sequenced(frame: ProducerEventView, sequence: u64) -> EventEnvelopeView {
    EventEnvelopeView {
        schema_version: SCHEMA_VERSION,
        event_id: event_identity(frame.run_id, sequence),
        run_id: frame.run_id,
        task_id: frame.task_id,
        turn_id: frame.turn_id,
        operation_id: frame.operation_id,
        parent_operation_id: frame.parent_operation_id,
        producer_sequence: frame.producer_sequence,
        sequence,
        emitted_at_unix_ms: frame.emitted_at_unix_ms,
        producer: frame.producer,
        authority: frame.authority,
        visibility: frame.visibility,
        event: frame.event,
    }
}

/// No two events share an identity: it tells the run and the sequence.
pub proof fn event_identities_are_distinct(
    first_run: Seq<char>,
    first: u64,
    second_run: Seq<char>,
    second: u64,
)
    requires
        event_identity(first_run, first) == event_identity(second_run, second),
    ensures
        first_run == second_run,
        first == second,
{
    let a = text::decimal(first as nat);
    let b = text::decimal(second as nat);
    let pa = text::zero_padded(a, 20);
    let pb = text::zero_padded(b, 20);
    assert(vstd::arithmetic::power::pow(10, 20) == 100000000000000000000) by {
        reveal_with_fuel(vstd::arithmetic::power::pow, 21);
    }
    text::decimal_is_short(first as nat, 100000000000000000000, 20);
    text::decimal_is_short(second as nat, 100000000000000000000, 20);
    assert(pa.len() == 20 && pb.len() == 20);
    let ia = event_identity(first_run, first);
    let ib = event_identity(second_run, second);
    assert(ia.skip(ia.len() - 20) =~= pa);
    assert(ib.skip(ib.len() - 20) =~= pb);
    reveal_strlit(":");
    assert(ia.take(ia.len() - 21) =~= first_run);
    assert(ib.take(ib.len() - 21) =~= second_run);
    text::decimal_spells(first as nat);
    text::decimal_spells(second as nat);
    text::padding_keeps_the_number(a, (20 - a.len()) as nat);
    text::padding_keeps_the_number(b, (20 - b.len()) as nat);
    assert(text::repeated('0', 0) + a =~= a);
    assert(text::repeated('0', 0) + b =~= b);
}

/// The number after `n`; the last one is its own successor.
pub open spec fn successor(n: u64) -> u64 {
    if n == u64::MAX {
        u64::MAX
    } else {
        (n + 1) as u64
    }
}

/// The identity text of the event at `sequence` of a run.
pub(crate) fn event_id(run_id: &str, sequence: u64) -> (r: String)
    ensures
        r@ == event_identity(run_id@, sequence),
{
    let mut out = run_id.to_owned();
    out.append(":");
    text::push_zero_padded(&mut out, sequence, 20);
    out
}

/// A copy of `frame` in canonical order at `sequence`.
pub(crate) fn sequence_frame(frame: &ProducerEvent, sequence: u64) -> (r: EventEnvelope)
    ensures
        r@ == sequenced(frame@, sequence),
{
    EventEnvelope {
        schema_version: SCHEMA_VERSION,
        event_id: event_id(frame.run_id.as_str(), sequence),
        run_id: frame.run_id.clone(),
        task_id: text::copy_optional(&frame.task_id),
        turn_id: text::copy_optional(&frame.turn_id),
        operation_id: text::copy_optional(&frame.operation_id),
        parent_operation_id: text::copy_optional(&frame.parent_operation_id),
        producer_sequence: frame.producer_sequence,
        sequence,
        emitted_at_unix_ms: frame.emitted_at_unix_ms,
        producer: frame.producer.clone(),
        authority: frame.authority,
        visibility: frame.visibility,
        event: frame.event.clone(),
    }
}

/// Gives the frames of one run their canonical order.
#[derive(Debug)]
pub struct EventSequencer {
    run_id: String,
    next_sequence: u64,
}

/// Why a producer frame is refused.
#[derive(Debug, PartialEq, Eq)]
pub enum ProtocolError {
    UnsupportedSchema(u16),
    RunMismatch { expected: String, actual: String },
}

impl EventSequencer {
    pub closed spec fn run(&self) -> Seq<char> {
        self.run_id@
    }

    /// The sequence that the next accepted frame gets.
    pub closed spec fn next(&self) -> u64 {
        self.next_sequence
    }

    pub fn new(run_id: &str) -> (r: Self)
        ensures
            r.run() == run_id@,
            r.next() == 1,
    {
        EventSequencer { run_id: run_id.to_owned(), next_sequence: 1 }
    }

    /// Validates a producer frame and assigns its canonical identity and order.
    ///
    /// A frame of another schema is refused first, a frame of another run next; a refusal leaves
    /// the sequencer as it was.
    pub fn ingest(&mut self, frame: ProducerEvent) -> (r: Result<EventEnvelope, ProtocolError>)
        ensures
            final(self).run() == old(self).run(),
            frame.schema_version != SCHEMA_VERSION ==> r == Err::<EventEnvelope, ProtocolError>(
                ProtocolError::UnsupportedSchema(frame.schema_version),
            ) && final(self).next() == old(self).next(),
            frame.schema_version == SCHEMA_VERSION && frame.run_id@ != old(self).run() ==> {
                &&& r matches Err(ProtocolError::RunMismatch { expected, actual })
                &&& expected@ == old(self).run()
                &&& actual@ == frame.run_id@
                &&& final(self).next() == old(self).next()
            },
            frame.schema_version == SCHEMA_VERSION && frame.run_id@ == old(self).run() ==> {
                &&& r matches Ok(envelope)
                &&& envelope@ == sequenced(frame@, old(self).next())
                &&& final(self).next() == successor(old(self).next())
            },
    {
        if frame.schema_version != SCHEMA_VERSION {
            return Err(ProtocolError::UnsupportedSchema(frame.schema_version));
        }
        if !text::same(frame.run_id.as_str(), self.run_id.as_str()) {
            return Err(
                ProtocolError::RunMismatch { expected: self.run_id.clone(), actual: frame.run_id },
            );
        }
        let sequence = self.next_sequence;
        self.next_sequence = self.next_sequence.saturating_add(1);
        Ok(
            EventEnvelope {
                schema_version: SCHEMA_VERSION,
                event_id: event_id(self.run_id.as_str(), sequence),
                run_id: self.run_id.clone(),
                task_id: frame.task_id,
                turn_id: frame.turn_id,
                operation_id: frame.operation_id,
                parent_operation_id: frame.parent_operation_id,
                producer_sequence: frame.producer_sequence,
                sequence,
                emitted_at_unix_ms: frame.emitted_at_unix_ms,
                producer: frame.producer,
                authority: frame.authority,
                visibility: frame.visibility,
                event: frame.event,
            },
        )
    }
}

impl ProtocolError {
    /// The text of a refusal.
    pub open spec fn text(&self) -> Seq<char> {
        match *self {
            ProtocolError::UnsupportedSchema(version) => "unsupported event schema version "@
                + text::decimal(version as nat),
            ProtocolError::RunMismatch { expected, actual } => "event run mismatch: expected "@
                + expected@ + ", got "@ + actual@,
        }
    }

    pub fn message(&self) -> (r: String)
        ensures
            r@ == self.text(),
    {
        match self {
            ProtocolError::UnsupportedSchema(version) => {
                let mut out = "unsupported event schema version ".to_owned();
                text::push_decimal(&mut out, *version as u64);
                out
            },
            ProtocolError::RunMismatch { expected, actual } => {
                let mut out = "event run mismatch: expected ".to_owned();
                out.append(expected.as_str());
                out.append(", got ");
                out.append(actual.as_str());
                out
            },
        }
    }
}

} // verus!
