//! What the running server decides: which workers an episode waits for, how an episode is driven,
//! and how the server's tasks are supervised.
pub mod conduct;

use crate::ordered;
use crate::proto::v1;
use crate::text;
use vstd::prelude::*;
use vstd::string::*;

verus! {

/// What a worker is for, which decides both when it is needed and whether it occupies a card.
///
/// A builder compiles, and the episode needs it as soon as the model has something to compile. A
/// verifier executes, and the episode needs it only at the Correctness Gate.
#[derive(Clone, Copy, Debug, PartialEq, Eq, Structural)]
pub enum WorkerRole {
    Builder,
    Verifier,
}

/// One role that an episode needs a worker for.
#[derive(Debug, PartialEq, Eq)]
pub struct RequiredWorker {
    pub id: String,
    pub backend: v1::Backend,
    pub feature: &'static str,
    pub role: WorkerRole,
    /// Whether this role occupies an accelerator.
    pub requires_device: bool,
}

impl Clone for RequiredWorker {
    fn clone(&self) -> (r: Self)
        ensures
            r == *self,
    {
        RequiredWorker {
            id: self.id.clone(),
            backend: self.backend,
            feature: self.feature,
            role: self.role,
            requires_device: self.requires_device,
        }
    }
}

/// A worker as the control service sees it now.
#[derive(Debug, PartialEq, Eq)]
pub struct WorkerSnapshot {
    pub worker_id: String,
    pub instance_id: String,
    pub connection_id: String,
    pub connected: bool,
    pub last_worker_sequence: u64,
    pub backend: i32,
    pub features: Vec<String>,
    pub heartbeat: Option<v1::Heartbeat>,
}

/// The capacity that a role consumes: a card where it executes, a build slot where it compiles.
pub open spec fn slots(required: RequiredWorker, heartbeat: v1::Heartbeat) -> u32 {
    if required.requires_device {
        heartbeat.available_slots
    } else {
        heartbeat.device_free_slots
    }
}

/// Whether a required role can start on this worker right now.
pub open spec fn ready(required: RequiredWorker, snapshot: WorkerSnapshot) -> bool {
    &&& snapshot.connected
    &&& snapshot.heartbeat matches Some(heartbeat) && heartbeat.health
        == v1::WorkerHealth::Ready.code() && slots(required, heartbeat) > 0
    &&& snapshot.backend == required.backend.code()
    &&& text::views(snapshot.features@).contains(required.feature@)
}

pub fn required_worker_ready(required: &RequiredWorker, snapshot: &WorkerSnapshot) -> (r: bool)
    ensures
        r == ready(*required, *snapshot),
{
    let has_capacity = match &snapshot.heartbeat {
        Some(heartbeat) => {
            let slots: u32 = if required.requires_device {
                heartbeat.available_slots
            } else {
                heartbeat.device_free_slots
            };
            heartbeat.health == v1::WorkerHealth::Ready.number() && slots > 0
        },
        None => false,
    };
    snapshot.connected && has_capacity && snapshot.backend == required.backend.number()
        && text::holds(&snapshot.features, required.feature)
}

/// A build never waits for a card: whether a role that occupies no accelerator can start does not
/// depend on the number of free cards.
pub proof fn builds_do_not_wait_for_cards(
    required: RequiredWorker,
    snapshot: WorkerSnapshot,
    heartbeat: v1::Heartbeat,
    cards: u32,
)
    requires
        !required.requires_device,
        snapshot.heartbeat == Some(heartbeat),
    ensures
        ready(required, snapshot) == ready(
            required,
            WorkerSnapshot {
                heartbeat: Some(v1::Heartbeat { available_slots: cards, ..heartbeat }),
                ..snapshot
            },
        ),
{
}

pub open spec fn starts(required: RequiredWorker) -> bool {
    required.role == WorkerRole::Builder
}

/// The roles that an episode waits for before it starts, and those that it defers to the
/// Correctness Gate, each in order.
pub fn split_roles(workers: &Vec<RequiredWorker>) -> (r: (Vec<RequiredWorker>, Vec<RequiredWorker>))
    ensures
        r.0@ == ordered::kept(workers@, |w: RequiredWorker| starts(w)),
        r.1@ == ordered::kept(workers@, |w: RequiredWorker| !starts(w)),
{
    let ghost now = |w: RequiredWorker| starts(w);
    let ghost later = |w: RequiredWorker| !starts(w);
    let mut starting: Vec<RequiredWorker> = Vec::new();
    let mut deferred: Vec<RequiredWorker> = Vec::new();
    for i in 0..workers.len()
        invariant
            now == (|w: RequiredWorker| starts(w)),
            later == (|w: RequiredWorker| !starts(w)),
            starting@ == ordered::kept(workers@.take(i as int), now),
            deferred@ == ordered::kept(workers@.take(i as int), later),
    {
        let ghost longer = workers@.take(i + 1);
        assert(longer.drop_last() =~= workers@.take(i as int));
        match workers[i].role {
            WorkerRole::Builder => {
                starting.push(workers[i].clone());
            },
            WorkerRole::Verifier => {
                deferred.push(workers[i].clone());
            },
        }
    }
    assert(workers@.take(workers@.len() as int) =~= workers@);
    (starting, deferred)
}

/// Every required role is either waited for or deferred, and none is both.
pub proof fn roles_are_split(workers: Seq<RequiredWorker>)
    ensures
        ordered::kept(workers, |w: RequiredWorker| starts(w)).len() + ordered::kept(
            workers,
            |w: RequiredWorker| !starts(w),
        ).len() == workers.len(),
    decreases workers.len(),
{
    if workers.len() > 0 {
        roles_are_split(workers.drop_last());
    }
}

pub open spec fn ids(workers: Seq<RequiredWorker>) -> Seq<Seq<char>> {
    Seq::new(workers.len(), |i: int| workers[i].id@)
}

/// What the operator is told of deferred roles.
pub fn deferral_notice(deferred: &Vec<RequiredWorker>) -> (r: String)
    ensures
        r@ == "deferring "@ + text::decimal(deferred@.len())
            + " verifier role(s) until the Correctness Gate: "@ + text::joined(
            ids(deferred@),
            ", "@,
        ),
{
    let mut names: Vec<String> = Vec::new();
    for i in 0..deferred.len()
        invariant
            names@.len() == i,
            forall|j: int| 0 <= j < i ==> names@[j]@ == deferred@[j].id@,
    {
        names.push(deferred[i].id.clone());
    }
    assert(text::views(names@) =~= ids(deferred@));
    let mut out = "deferring ".to_owned();
    text::push_decimal(&mut out, deferred.len() as u64);
    out.append(" verifier role(s) until the Correctness Gate: ");
    text::push_joined(&mut out, &names, ", ");
    out
}

/// Whether the worker at `i` is not ready, by what was last seen of it.
pub open spec fn waits(
    starting: Seq<RequiredWorker>,
    seen: Seq<Option<WorkerSnapshot>>,
    i: int,
) -> bool {
    !(seen[i] matches Some(snapshot) && ready(starting[i], snapshot))
}

/// The workers that an episode still waits for, in order.
pub open spec fn missing(
    starting: Seq<RequiredWorker>,
    seen: Seq<Option<WorkerSnapshot>>,
    n: int,
) -> Seq<Seq<char>>
    decreases n,
{
    if n <= 0 {
        Seq::empty()
    } else {
        let before = missing(starting, seen, n - 1);
        if waits(starting, seen, n - 1) {
            before.push(starting[n - 1].id@)
        } else {
            before
        }
    }
}

pub fn missing_workers(starting: &Vec<RequiredWorker>, seen: &Vec<Option<WorkerSnapshot>>) -> (r:
    Vec<String>)
    requires
        seen@.len() == starting@.len(),
    ensures
        text::views(r@) == missing(starting@, seen@, starting@.len() as int),
{
    let mut out: Vec<String> = Vec::new();
    assert(text::views(out@) =~= Seq::empty());
    for i in 0..starting.len()
        invariant
            seen@.len() == starting@.len(),
            text::views(out@) == missing(starting@, seen@, i as int),
    {
        let is_ready = match &seen[i] {
            Some(snapshot) => required_worker_ready(&starting[i], snapshot),
            None => false,
        };
        let ghost before = out@;
        if !is_ready {
            out.push(starting[i].id.clone());
            assert(text::views(out@) =~= text::views(before).push(starting@[i as int].id@));
        }
    }
    out
}

/// An episode starts exactly when each of the workers that it waits for is ready.
pub proof fn episodes_start_when_all_are_ready(
    starting: Seq<RequiredWorker>,
    seen: Seq<Option<WorkerSnapshot>>,
    n: int,
)
    requires
        0 <= n <= starting.len(),
        seen.len() == starting.len(),
    ensures
        missing(starting, seen, n).len() == 0 <==> forall|i: int|
            0 <= i < n ==> !#[trigger] waits(starting, seen, i),
    decreases n,
{
    if n > 0 {
        episodes_start_when_all_are_ready(starting, seen, n - 1);
        assert(waits(starting, seen, n - 1) || !waits(starting, seen, n - 1));
    }
}

/// What is done while workers are missing.
#[derive(Debug, PartialEq, Eq)]
pub enum ReadinessStep {
    Begin,
    Poll,
    Fail(String),
}

pub ghost enum ReadinessStepView {
    Begin,
    Poll,
    Fail(Seq<char>),
}

impl View for ReadinessStep {
    type V = ReadinessStepView;

    open spec fn view(&self) -> ReadinessStepView {
        match *self {
            ReadinessStep::Begin => ReadinessStepView::Begin,
            ReadinessStep::Poll => ReadinessStepView::Poll,
            ReadinessStep::Fail(s) => ReadinessStepView::Fail(s@),
        }
    }
}

/// The refusal of a cancelled migration; `cancelled` is what the task store said, if a task is
/// being run.
pub open spec fn cancellation(cancelled: Option<Result<bool, Seq<char>>>) -> Option<Seq<char>> {
    match cancelled {
        None => None,
        Some(Err(error)) => Some(error),
        Some(Ok(true)) => Some("migration cancelled by user"@),
        Some(Ok(false)) => None,
    }
}

pub open spec fn cancellation_view(cancelled: Option<Result<bool, String>>) -> Option<
    Result<bool, Seq<char>>,
> {
    match cancelled {
        None => None,
        Some(Ok(answer)) => Some(Ok(answer)),
        Some(Err(error)) => Some(Err(error@)),
    }
}

pub fn check_cancelled(cancelled: Option<Result<bool, String>>) -> (r: Result<(), String>)
    ensures
        match cancellation(cancellation_view(cancelled)) {
            Some(error) => r matches Err(e) && e@ == error,
            None => r is Ok,
        },
{
    match cancelled {
        None => Ok(()),
        Some(Ok(true)) => Err("migration cancelled by user".to_owned()),
        Some(Ok(false)) => Ok(()),
        Some(Err(error)) => Err(error),
    }
}

/// A submitted migration waits for its workers until it is cancelled; only an operator's own run
/// is bounded.
pub open spec fn is_bounded(cancelled: Option<Result<bool, Seq<char>>>) -> bool {
    cancelled is None
}

/// What one look at the workers leads to.
pub open spec fn readiness(
    starting: Seq<RequiredWorker>,
    seen: Seq<Option<WorkerSnapshot>>,
    cancelled: Option<Result<bool, Seq<char>>>,
    deadline_passed: bool,
) -> ReadinessStepView {
    let absent = missing(starting, seen, starting.len() as int);
    match cancellation(cancelled) {
        Some(error) => ReadinessStepView::Fail(error),
        None => if absent.len() == 0 {
            ReadinessStepView::Begin
        } else if is_bounded(cancelled) && deadline_passed {
            ReadinessStepView::Fail(
                "required workers were not ready before timeout: "@ + text::joined(absent, ", "@),
            )
        } else {
            ReadinessStepView::Poll
        },
    }
}

pub fn readiness_step(
    starting: &Vec<RequiredWorker>,
    seen: &Vec<Option<WorkerSnapshot>>,
    cancelled: Option<Result<bool, String>>,
    deadline_passed: bool,
) -> (r: ReadinessStep)
    requires
        seen@.len() == starting@.len(),
    ensures
        r@ == readiness(starting@, seen@, cancellation_view(cancelled), deadline_passed),
{
    let bounded = cancelled.is_none();
    match check_cancelled(cancelled) {
        Err(error) => ReadinessStep::Fail(error),
        Ok(()) => {
            let absent = missing_workers(starting, seen);
            assert(text::views(absent@).len() == absent@.len());
            if absent.len() == 0 {
                ReadinessStep::Begin
            } else if bounded && deadline_passed {
                let mut out = "required workers were not ready before timeout: ".to_owned();
                text::push_joined(&mut out, &absent, ", ");
                ReadinessStep::Fail(out)
            } else {
                ReadinessStep::Poll
            }
        },
    }
}

/// A submitted migration is never failed by the clock: as long as it is not cancelled it starts or
/// goes on waiting.
pub proof fn submitted_migrations_wait(
    starting: Seq<RequiredWorker>,
    seen: Seq<Option<WorkerSnapshot>>,
    deadline_passed: bool,
)
    ensures
        !(readiness(starting, seen, Some(Ok(false)), deadline_passed) is Fail),
{
}

/// Where an episode stands when it is taken up again.
#[derive(Debug, PartialEq, Eq)]
pub struct EpisodeStatus {
    pub terminal: bool,
    pub label: String,
}

/// What follows once an episode was taken up again.
#[derive(Debug, PartialEq, Eq)]
pub enum ResumeStep {
    /// The operator is told that an ended episode goes on.
    Notice(String),
    Nothing,
    Fail(String),
}

pub ghost enum ResumeStepView {
    Notice(Seq<char>),
    Nothing,
    Fail(Seq<char>),
}

impl View for ResumeStep {
    type V = ResumeStepView;

    open spec fn view(&self) -> ResumeStepView {
        match *self {
            ResumeStep::Notice(s) => ResumeStepView::Notice(s@),
            ResumeStep::Nothing => ResumeStepView::Nothing,
            ResumeStep::Fail(s) => ResumeStepView::Fail(s@),
        }
    }
}

/// An episode that had ended is reopened with a notice, one that had not goes on as it is, and one
/// that cannot be taken up again fails the drive.
pub open spec fn resumed_with(resumed: Result<EpisodeStatus, String>, allowance: Seq<char>) ->
    ResumeStepView {
    match resumed {
        Err(error) => ResumeStepView::Fail(error@),
        Ok(status) => if status.terminal {
            ResumeStepView::Notice(
                "resuming Candidate Episode from terminal state "@ + status.label@
                    + " under allowance "@ + allowance,
            )
        } else {
            ResumeStepView::Nothing
        },
    }
}

/// What follows once an episode was taken up again under an allowance.
pub fn resume_step(resumed: Result<EpisodeStatus, String>, allowance: &str) -> (r: ResumeStep)
    ensures
        r@ == resumed_with(resumed, allowance@),
{
    match resumed {
        Err(error) => ResumeStep::Fail(error),
        Ok(status) => if status.terminal {
            let mut out = text::enclosed(
                "resuming Candidate Episode from terminal state ",
                status.label.as_str(),
                " under allowance ",
            );
            out.append(allowance);
            ResumeStep::Notice(out)
        } else {
            ResumeStep::Nothing
        },
    }
}

/// What one advance of an episode came to.
#[derive(Debug, PartialEq, Eq)]
pub enum AgentLoopAdvance {
    Terminal { succeeded: bool, label: String },
    Suspended,
    Progressed { tool_work_pending: bool },
    ProgressedAfter { delay_millis: u64 },
}

/// What follows an advance.
#[derive(Debug, PartialEq, Eq)]
pub enum DriveStep {
    Complete,
    Fail(String),
    /// Look again after the poll interval.
    Poll,
    Yield,
    /// Leave the provider alone for this long.
    Wait { delay_millis: u64 },
}

pub ghost enum DriveStepView {
    Complete,
    Fail(Seq<char>),
    Poll,
    Yield,
    Wait { delay_millis: u64 },
}

impl View for DriveStep {
    type V = DriveStepView;

    open spec fn view(&self) -> DriveStepView {
        match *self {
            DriveStep::Complete => DriveStepView::Complete,
            DriveStep::Fail(s) => DriveStepView::Fail(s@),
            DriveStep::Poll => DriveStepView::Poll,
            DriveStep::Yield => DriveStepView::Yield,
            DriveStep::Wait { delay_millis } => DriveStepView::Wait { delay_millis },
        }
    }
}

pub open spec fn driven(advance: Result<AgentLoopAdvance, String>) -> DriveStepView {
    match advance {
        Err(error) => DriveStepView::Fail(error@),
        Ok(AgentLoopAdvance::Terminal { succeeded, label }) => if succeeded {
            DriveStepView::Complete
        } else {
            DriveStepView::Fail("Candidate Episode ended in terminal state "@ + label@)
        },
        Ok(AgentLoopAdvance::Suspended) => DriveStepView::Fail(
            "Candidate Episode suspended for operator reconciliation"@,
        ),
        Ok(AgentLoopAdvance::Progressed { tool_work_pending }) => if tool_work_pending {
            DriveStepView::Poll
        } else {
            DriveStepView::Yield
        },
        Ok(AgentLoopAdvance::ProgressedAfter { delay_millis }) => DriveStepView::Wait {
            delay_millis,
        },
    }
}

/// What is done after an advance, or after its failure.
pub fn drive_step(advance: Result<AgentLoopAdvance, String>) -> (r: DriveStep)
    ensures
        r@ == driven(advance),
{
    match advance {
        Err(error) => DriveStep::Fail(error),
        Ok(AgentLoopAdvance::Terminal { succeeded, label }) => if succeeded {
            DriveStep::Complete
        } else {
            DriveStep::Fail(
                text::concat("Candidate Episode ended in terminal state ", label.as_str()),
            )
        },
        Ok(AgentLoopAdvance::Suspended) => DriveStep::Fail(
            "Candidate Episode suspended for operator reconciliation".to_owned(),
        ),
        Ok(AgentLoopAdvance::Progressed { tool_work_pending }) => if tool_work_pending {
            DriveStep::Poll
        } else {
            DriveStep::Yield
        },
        Ok(AgentLoopAdvance::ProgressedAfter { delay_millis }) => DriveStep::Wait { delay_millis },
    }
}

/// The tasks of the server.
#[derive(Clone, Copy, Debug, PartialEq, Eq, Structural)]
pub enum TaskKind {
    GrpcServer,
    LeaseReaper,
    PreparationReconciler,
    CandidateEpisode,
    MigrationDispatcher,
}

pub open spec fn task_label(kind: TaskKind) -> Seq<char> {
    match kind {
        TaskKind::GrpcServer => "gRPC server"@,
        TaskKind::LeaseReaper => "lease reaper"@,
        TaskKind::PreparationReconciler => "assignment preparation reconciler"@,
        TaskKind::CandidateEpisode => "Candidate Episode"@,
        TaskKind::MigrationDispatcher => "migration dispatcher"@,
    }
}

impl TaskKind {
    pub fn label(self) -> (r: &'static str)
        ensures
            r@ == task_label(self),
    {
        match self {
            TaskKind::GrpcServer => "gRPC server",
            TaskKind::LeaseReaper => "lease reaper",
            TaskKind::PreparationReconciler => "assignment preparation reconciler",
            TaskKind::CandidateEpisode => "Candidate Episode",
            TaskKind::MigrationDispatcher => "migration dispatcher",
        }
    }
}

/// How a task ended: with its own result, or by a panic or a cancellation.
#[derive(Debug, PartialEq, Eq)]
pub enum TaskExit {
    Returned { kind: TaskKind, result: Result<(), String> },
    Broken { detail: String },
}

pub ghost enum TaskExitView {
    Returned { kind: TaskKind, result: Result<(), Seq<char>> },
    Broken { detail: Seq<char> },
}

impl View for TaskExit {
    type V = TaskExitView;

    open spec fn view(&self) -> TaskExitView {
        match *self {
            TaskExit::Returned { kind, result } => TaskExitView::Returned {
                kind,
                result: match result {
                    Ok(()) => Ok(()),
                    Err(e) => Err(e@),
                },
            },
            TaskExit::Broken { detail } => TaskExitView::Broken { detail: detail@ },
        }
    }
}

pub open spec fn join_detail(detail: Seq<char>) -> Seq<char> {
    "server task panicked or was cancelled: "@ + detail
}

pub open spec fn failed(kind: TaskKind, error: Seq<char>) -> Seq<char> {
    task_label(kind) + " failed: "@ + error
}

/// What brought the server down, for a task that is not expected to end.
pub open spec fn exit_detail(kind: TaskKind, result: Result<(), Seq<char>>) -> Seq<char> {
    match result {
        Ok(()) => task_label(kind) + " stopped unexpectedly"@,
        Err(error) => failed(kind, error),
    }
}

/// What is told of an ended candidate episode: whether it is an error, and the line.
pub open spec fn candidate_report(result: Result<(), Seq<char>>) -> (bool, Seq<char>) {
    match result {
        Ok(()) => (false, "Candidate Episode job exited; AlloyPort server remains available"@),
        Err(error) => (
            true,
            "Candidate Episode job failed: "@ + error
                + "; AlloyPort server remains available for inspection and new work"@,
        ),
    }
}

pub fn report_candidate_exit(result: &Result<(), String>) -> (r: (bool, String))
    ensures
        (r.0, r.1@) == candidate_report(
            match *result {
                Ok(()) => Ok(()),
                Err(e) => Err(e@),
            },
        ),
{
    match result {
        Ok(()) => (
            false,
            "Candidate Episode job exited; AlloyPort server remains available".to_owned(),
        ),
        Err(error) => (
            true,
            text::enclosed(
                "Candidate Episode job failed: ",
                error.as_str(),
                "; AlloyPort server remains available for inspection and new work",
            ),
        ),
    }
}

/// What the supervisor waited for.
#[derive(Debug, PartialEq, Eq)]
pub enum SupervisorEvent {
    /// The operator asked for a shutdown.
    Interrupt,
    /// No task is left.
    Empty,
    Exit(TaskExit),
}

pub ghost enum SupervisorEventView {
    Interrupt,
    Empty,
    Exit(TaskExitView),
}

impl View for SupervisorEvent {
    type V = SupervisorEventView;

    open spec fn view(&self) -> SupervisorEventView {
        match *self {
            SupervisorEvent::Interrupt => SupervisorEventView::Interrupt,
            SupervisorEvent::Empty => SupervisorEventView::Empty,
            SupervisorEvent::Exit(exit) => SupervisorEventView::Exit(exit@),
        }
    }
}

/// What the supervisor does next.
#[derive(Debug, PartialEq, Eq)]
pub enum SupervisorStep {
    /// Tell the operator of an ended episode, and stay up.
    Report { is_error: bool, line: String },
    /// Shut the tasks down; what brought the server down, if anything did.
    Drain { failure: Option<String> },
    /// Give up at once.
    Abort { error: String },
}

pub ghost enum SupervisorStepView {
    Report { is_error: bool, line: Seq<char> },
    Drain { failure: Option<Seq<char>> },
    Abort { error: Seq<char> },
}

impl View for SupervisorStep {
    type V = SupervisorStepView;

    open spec fn view(&self) -> SupervisorStepView {
        match *self {
            SupervisorStep::Report { is_error, line } => SupervisorStepView::Report {
                is_error,
                line: line@,
            },
            SupervisorStep::Drain { failure } => SupervisorStepView::Drain {
                failure: text::optional(failure),
            },
            SupervisorStep::Abort { error } => SupervisorStepView::Abort { error: error@ },
        }
    }
}

pub open spec fn supervised(event: SupervisorEventView) -> SupervisorStepView {
    match event {
        SupervisorEventView::Interrupt => SupervisorStepView::Drain { failure: None },
        SupervisorEventView::Empty => SupervisorStepView::Abort {
            error: "server task set became empty"@,
        },
        SupervisorEventView::Exit(TaskExitView::Broken { detail }) => SupervisorStepView::Abort {
            error: join_detail(detail),
        },
        SupervisorEventView::Exit(
            TaskExitView::Returned { kind, result },
        ) => if kind == TaskKind::CandidateEpisode {
            SupervisorStepView::Report {
                is_error: candidate_report(result).0,
                line: candidate_report(result).1,
            }
        } else {
            SupervisorStepView::Drain { failure: Some(exit_detail(kind, result)) }
        },
    }
}

/// What the supervisor does about an event.
pub fn supervisor_step(event: SupervisorEvent) -> (r: SupervisorStep)
    ensures
        r@ == supervised(event@),
{
    match event {
        SupervisorEvent::Interrupt => SupervisorStep::Drain { failure: None },
        SupervisorEvent::Empty => SupervisorStep::Abort {
            error: "server task set became empty".to_owned(),
        },
        SupervisorEvent::Exit(TaskExit::Broken { detail }) => SupervisorStep::Abort {
            error: text::concat("server task panicked or was cancelled: ", detail.as_str()),
        },
        SupervisorEvent::Exit(TaskExit::Returned { kind, result }) => {
            if kind == TaskKind::CandidateEpisode {
                let (is_error, line) = report_candidate_exit(&result);
                return SupervisorStep::Report { is_error, line };
            }
            let detail = match result {
                Ok(()) => text::concat(kind.label(), " stopped unexpectedly"),
                Err(error) => text::enclosed(kind.label(), " failed: ", error.as_str()),
            };
            SupervisorStep::Drain { failure: Some(detail) }
        },
    }
}

/// An ended candidate episode never takes the server down.
pub proof fn episodes_do_not_stop_the_server(result: Result<(), Seq<char>>)
    ensures
        supervised(
            SupervisorEventView::Exit(
                TaskExitView::Returned { kind: TaskKind::CandidateEpisode, result },
            ),
        ) is Report,
{
}

/// What a task that ends while the server drains says of a failure.
pub open spec fn drain_failure(exit: TaskExitView) -> Option<Seq<char>> {
    match exit {
        TaskExitView::Returned { result: Ok(()), .. } => None,
        TaskExitView::Returned { kind, result: Err(error) } => Some(failed(kind, error)),
        TaskExitView::Broken { detail } => Some(join_detail(detail)),
    }
}

/// The first failure among the tasks that ended while the server drained.
pub open spec fn drained(exits: Seq<TaskExitView>) -> Option<Seq<char>>
    decreases exits.len(),
{
    if exits.len() == 0 {
        None
    } else if drained(exits.drop_last()) is Some {
        drained(exits.drop_last())
    } else {
        drain_failure(exits.last())
    }
}

pub open spec fn exit_views(exits: Seq<TaskExit>) -> Seq<TaskExitView> {
    Seq::new(exits.len(), |i: int| exits[i]@)
}

fn first_drain_failure(exits: &Vec<TaskExit>) -> (r: Option<String>)
    ensures
        text::optional(r) == drained(exit_views(exits@)),
{
    let mut failure: Option<String> = None;
    let ghost all = exit_views(exits@);
    for i in 0..exits.len()
        invariant
            all == exit_views(exits@),
            text::optional(failure) == drained(all.take(i as int)),
    {
        let ghost longer = all.take(i + 1);
        assert(longer.drop_last() =~= all.take(i as int));
        if failure.is_none() {
            failure =
            match &exits[i] {
                TaskExit::Returned { kind, result } => match result {
                    Ok(()) => None,
                    Err(error) => Some(
                        text::enclosed(kind.label(), " failed: ", error.as_str()),
                    ),
                },
                TaskExit::Broken { detail } => Some(
                    text::concat("server task panicked or was cancelled: ", detail.as_str()),
                ),
            };
        }
    }
    assert(all.take(exits@.len() as int) =~= all);
    failure
}

/// How the server ends: what brought it down, else the first failure of the drain, and a drain that
/// did not finish in time. `timeout` spells the bound on the drain.
pub open spec fn ended(
    failure: Option<Seq<char>>,
    exits: Seq<TaskExitView>,
    in_time: bool,
    timeout: Seq<char>,
) -> Result<(), Seq<char>> {
    if in_time {
        match failure {
            Some(detail) => Err(detail),
            None => match drained(exits) {
                Some(detail) => Err(detail),
                None => Ok(()),
            },
        }
    } else {
        let late = "server tasks did not drain within "@ + timeout;
        match failure {
            Some(detail) => Err(detail + "; "@ + late),
            None => Err(late),
        }
    }
}

pub fn supervision_result(
    failure: Option<String>,
    exits: &Vec<TaskExit>,
    in_time: bool,
    timeout: &str,
) -> (r: Result<(), String>)
    ensures
        match ended(text::optional(failure), exit_views(exits@), in_time, timeout@) {
            Ok(()) => r is Ok,
            Err(error) => r matches Err(e) && e@ == error,
        },
{
    if in_time {
        match failure {
            Some(detail) => Err(detail),
            None => match first_drain_failure(exits) {
                Some(detail) => Err(detail),
                None => Ok(()),
            },
        }
    } else {
        let late = text::concat("server tasks did not drain within ", timeout);
        match failure {
            Some(detail) => Err(text::enclosed(detail.as_str(), "; ", late.as_str())),
            None => Err(late),
        }
    }
}

/// The server ends well only where nothing brought it down, every task drained in time, and none of
/// them failed.
pub proof fn clean_ends_hide_no_failure(
    failure: Option<Seq<char>>,
    exits: Seq<TaskExitView>,
    in_time: bool,
    timeout: Seq<char>,
)
    requires
        ended(failure, exits, in_time, timeout) is Ok,
    ensures
        failure is None,
        in_time,
        forall|i: int| 0 <= i < exits.len() ==> drain_failure(#[trigger] exits[i]) is None,
{
    no_failure_means_none(exits);
}

proof fn no_failure_means_none(exits: Seq<TaskExitView>)
    requires
        drained(exits) is None,
    ensures
        forall|i: int| 0 <= i < exits.len() ==> drain_failure(#[trigger] exits[i]) is None,
    decreases exits.len(),
{
    if exits.len() > 0 {
        no_failure_means_none(exits.drop_last());
        assert forall|i: int| 0 <= i < exits.len() implies drain_failure(
            #[trigger] exits[i],
        ) is None by {
            if i < exits.len() - 1 {
                assert(exits.drop_last()[i] == exits[i]);
            }
        }
    }
}

} // verus!
