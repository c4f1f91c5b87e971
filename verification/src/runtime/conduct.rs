//! What the running server does next, told from what happened.
use crate::ordered;
use crate::proto::v1;
use crate::runtime;
use crate::runtime::{
    AgentLoopAdvance, DriveStepView, EpisodeStatus, ReadinessStepView, RequiredWorker,
    ResumeStepView, SupervisorEventView, SupervisorStepView, TaskExitView, TaskKind, WorkerRole,
    WorkerSnapshot,
};
use crate::text;
use vstd::prelude::*;

verus! {

/// A worker is ready exactly when it is connected, has reported itself ready with a slot free of the
/// sort its role takes, runs the backend and offers the feature.
pub proof fn workers_are_ready(
    required: RequiredWorker,
    snapshot: WorkerSnapshot,
    heartbeat: v1::Heartbeat,
)
    requires
        snapshot.heartbeat == Some(heartbeat),
    ensures
        runtime::ready(required, snapshot) <==> {
            &&& snapshot.connected
            &&& heartbeat.health == v1::WorkerHealth::Ready.code()
            &&& required.requires_device ==> heartbeat.available_slots > 0
            &&& !required.requires_device ==> heartbeat.device_free_slots > 0
            &&& snapshot.backend == required.backend.code()
            &&& exists|i: int|
                0 <= i < snapshot.features@.len() && (#[trigger] snapshot.features@[i])@
                    == required.feature@
        },
{
    let offered = text::views(snapshot.features@);
    if exists|i: int|
        0 <= i < snapshot.features@.len() && (#[trigger] snapshot.features@[i])@
            == required.feature@ {
        let i = choose|i: int|
            0 <= i < snapshot.features@.len() && (#[trigger] snapshot.features@[i])@
                == required.feature@;
        assert(offered[i] == required.feature@);
    }
    if offered.contains(required.feature@) {
        let i = choose|i: int| 0 <= i < offered.len() && offered[i] == required.feature@;
        assert(snapshot.features@[i]@ == required.feature@);
    }
}

/// A worker that has reported nothing is not ready.
pub proof fn silent_workers_are_not_ready(required: RequiredWorker, snapshot: WorkerSnapshot)
    requires
        snapshot.heartbeat is None || !snapshot.connected,
    ensures
        !runtime::ready(required, snapshot),
{
}

/// Builders are waited for at the start, and all others later.
pub proof fn builders_come_first(workers: Seq<RequiredWorker>, w: RequiredWorker)
    ensures
        ordered::kept(workers, |x: RequiredWorker| runtime::starts(x)).contains(w)
            <==> workers.contains(w) && w.role == WorkerRole::Builder,
        ordered::kept(workers, |x: RequiredWorker| !runtime::starts(x)).contains(w)
            <==> workers.contains(w) && w.role == WorkerRole::Verifier,
{
    ordered::kept_members(workers, |x: RequiredWorker| runtime::starts(x), w);
    ordered::kept_members(workers, |x: RequiredWorker| !runtime::starts(x), w);
}

/// Those missing are named, in their order, and no one else is.
pub proof fn missing_workers_are_named(
    starting: Seq<RequiredWorker>,
    seen: Seq<Option<WorkerSnapshot>>,
    n: int,
    id: Seq<char>,
)
    requires
        0 <= n <= starting.len(),
        seen.len() == starting.len(),
    ensures
        runtime::missing(starting, seen, n).contains(id) <==> exists|i: int|
            0 <= i < n && (#[trigger] starting[i]).id@ == id && (seen[i] is None
                || !runtime::ready(starting[i], seen[i]->0)),
    decreases n,
{
    if n > 0 {
        missing_workers_are_named(starting, seen, n - 1, id);
        let before = runtime::missing(starting, seen, n - 1);
        let all = runtime::missing(starting, seen, n);
        let last = starting[n - 1].id@;
        if all.contains(id) {
            let k = choose|k: int| 0 <= k < all.len() && all[k] == id;
            if k < before.len() {
                assert(before[k] == id);
                assert(before.contains(id));
            }
        }
        if before.contains(id) {
            let k = choose|k: int| 0 <= k < before.len() && before[k] == id;
            assert(all[k] == id);
        }
        if last == id && (seen[n - 1] is None || !runtime::ready(
            starting[n - 1],
            seen[n - 1]->0,
        )) {
            assert(all[before.len() as int] == id);
        }
    }
}

/// A task that was cancelled, or of which that cannot be told, fails at once; otherwise it begins as
/// soon as every worker is ready. Until that it polls, and only a task that nobody can cancel gives
/// up at its deadline.
pub proof fn tasks_begin_when_all_are_ready(
    starting: Seq<RequiredWorker>,
    seen: Seq<Option<WorkerSnapshot>>,
    cancelled: Option<Result<bool, Seq<char>>>,
    deadline_passed: bool,
)
    requires
        seen.len() == starting.len(),
    ensures
        ({
            let step = runtime::readiness(starting, seen, cancelled, deadline_passed);
            let all_ready = forall|i: int|
                0 <= i < starting.len() ==> (#[trigger] seen[i]) is Some && runtime::ready(
                    starting[i],
                    seen[i]->0,
                );
            let stopped = cancelled matches Some(answer) && (answer is Err || answer->Ok_0);
            &&& cancelled matches Some(Err(error)) ==> step == ReadinessStepView::Fail(error)
            &&& cancelled == Some(Ok::<bool, Seq<char>>(true)) ==> step == ReadinessStepView::Fail(
                "migration cancelled by user"@,
            )
            &&& step is Begin <==> !stopped && all_ready
            &&& step is Poll <==> !stopped && !all_ready && (cancelled is Some || !deadline_passed)
        }),
{
    let n = starting.len() as int;
    runtime::episodes_start_when_all_are_ready(starting, seen, n);
    if runtime::missing(starting, seen, n).len() == 0 {
        assert forall|i: int| 0 <= i < n implies (#[trigger] seen[i]) is Some && runtime::ready(
            starting[i],
            seen[i]->0,
        ) by {
            assert(!runtime::waits(starting, seen, i));
        }
    } else {
        let i = choose|i: int| 0 <= i < n && #[trigger] runtime::waits(starting, seen, i);
        assert(seen[i] is None || !runtime::ready(starting[i], seen[i]->0));
    }
}

/// Cancelling is told from the answer alone: no question, and no for an answer, let the task go on.
pub proof fn cancellations_are_told(error: Seq<char>)
    ensures
        runtime::cancellation(None) is None,
        runtime::cancellation(Some(Ok(false))) is None,
        runtime::cancellation(Some(Ok(true))) == Some("migration cancelled by user"@),
        runtime::cancellation(Some(Err(error))) == Some(error),
{
}

/// Resuming is announced exactly for an episode that had ended, with its state and its allowance.
pub proof fn resumptions_are_announced(
    resumed: Result<EpisodeStatus, String>,
    allowance: Seq<char>,
)
    ensures
        match runtime::resumed_with(resumed, allowance) {
            ResumeStepView::Fail(words) => resumed matches Err(error) && words == error@,
            ResumeStepView::Notice(words) => resumed matches Ok(status) && status.terminal && words
                == "resuming Candidate Episode from terminal state "@ + status.label@
                + " under allowance "@ + allowance,
            ResumeStepView::Nothing => resumed matches Ok(status) && !status.terminal,
        },
{
}

/// An episode is complete exactly when it ended well. It polls while tools work, yields while they
/// do not, waits as long as it was told, and fails in every other case.
pub proof fn episodes_are_driven(advance: Result<AgentLoopAdvance, String>)
    ensures
        match runtime::driven(advance) {
            DriveStepView::Complete => advance matches Ok(
                AgentLoopAdvance::Terminal { succeeded, .. },
            ) && succeeded,
            DriveStepView::Poll => advance matches Ok(
                AgentLoopAdvance::Progressed { tool_work_pending },
            ) && tool_work_pending,
            DriveStepView::Yield => advance matches Ok(
                AgentLoopAdvance::Progressed { tool_work_pending },
            ) && !tool_work_pending,
            DriveStepView::Wait { delay_millis } => advance matches Ok(
                AgentLoopAdvance::ProgressedAfter { delay_millis: asked },
            ) && asked == delay_millis,
            DriveStepView::Fail(words) => match advance {
                Err(error) => words == error@,
                Ok(AgentLoopAdvance::Terminal { succeeded, label }) => !succeeded && words
                    == "Candidate Episode ended in terminal state "@ + label@,
                Ok(AgentLoopAdvance::Suspended) => words
                    == "Candidate Episode suspended for operator reconciliation"@,
                _ => false,
            },
        },
{
}

/// Each task has its name.
pub proof fn tasks_are_named()
    ensures
        runtime::task_label(TaskKind::GrpcServer) == "gRPC server"@,
        runtime::task_label(TaskKind::LeaseReaper) == "lease reaper"@,
        runtime::task_label(TaskKind::PreparationReconciler)
            == "assignment preparation reconciler"@,
        runtime::task_label(TaskKind::CandidateEpisode) == "Candidate Episode"@,
        runtime::task_label(TaskKind::MigrationDispatcher) == "migration dispatcher"@,
{
}

/// An interrupt drains the server without a failure, an empty server and a broken task abort it, an
/// episode that ends is only reported, and any other task that ends drains the server with the
/// reason.
pub proof fn the_server_is_supervised(event: SupervisorEventView)
    ensures
        match event {
            SupervisorEventView::Interrupt => runtime::supervised(event) matches
                SupervisorStepView::Drain { failure } && failure is None,
            SupervisorEventView::Empty => runtime::supervised(event) matches
                SupervisorStepView::Abort { error } && error == "server task set became empty"@,
            SupervisorEventView::Exit(TaskExitView::Broken { detail }) => runtime::supervised(event)
                matches SupervisorStepView::Abort { error } && error
                == "server task panicked or was cancelled: "@ + detail,
            SupervisorEventView::Exit(TaskExitView::Returned { kind, result }) => if kind
                == TaskKind::CandidateEpisode {
                runtime::supervised(event) matches SupervisorStepView::Report { is_error, line }
                    && is_error == (result is Err) && match result {
                    Ok(_) => line
                        == "Candidate Episode job exited; AlloyPort server remains available"@,
                    Err(error) => line == "Candidate Episode job failed: "@ + error
                        + "; AlloyPort server remains available for inspection and new work"@,
                }
            } else {
                runtime::supervised(event) matches SupervisorStepView::Drain { failure }
                    && failure == Some(
                    match result {
                        Ok(_) => runtime::task_label(kind) + " stopped unexpectedly"@,
                        Err(error) => runtime::task_label(kind) + " failed: "@ + error,
                    },
                )
            },
        },
{
}

/// While the server drains, only a task that failed or broke counts, and the first one that did is
/// told.
pub proof fn the_first_failure_counts(exits: Seq<TaskExitView>, k: int)
    requires
        0 <= k < exits.len(),
        !(exits[k] matches TaskExitView::Returned { result: Ok(_), .. }),
        forall|i: int|
            0 <= i < k ==> (#[trigger] exits[i] matches TaskExitView::Returned {
                result: Ok(_),
                ..
            }),
    ensures
        runtime::drained(exits) == Some(
            match exits[k] {
                TaskExitView::Broken { detail } => "server task panicked or was cancelled: "@
                    + detail,
                TaskExitView::Returned { kind, result } => runtime::task_label(kind) + " failed: "@
                    + result->Err_0,
            },
        ),
    decreases exits.len(),
{
    let before = exits.drop_last();
    if k == exits.len() - 1 {
        clean_exits_are_silent(before);
    } else {
        assert(before[k] == exits[k]);
        the_first_failure_counts(before, k);
    }
}

proof fn clean_exits_are_silent(exits: Seq<TaskExitView>)
    requires
        forall|i: int|
            0 <= i < exits.len() ==> (#[trigger] exits[i] matches TaskExitView::Returned {
                result: Ok(_),
                ..
            }),
    ensures
        runtime::drained(exits) is None,
    decreases exits.len(),
{
    if exits.len() > 0 {
        clean_exits_are_silent(exits.drop_last());
        assert(exits[exits.len() - 1] matches TaskExitView::Returned { result: Ok(_), .. });
    }
}

/// The server ends well exactly when nothing failed and all its tasks ended well in time. What made
/// it drain is told first, and that it did not drain in time is told as well.
pub proof fn the_server_ends(
    failure: Option<Seq<char>>,
    exits: Seq<TaskExitView>,
    in_time: bool,
    timeout: Seq<char>,
)
    ensures
        ({
            let end = runtime::ended(failure, exits, in_time, timeout);
            &&& end is Ok <==> failure is None && in_time && runtime::drained(exits) is None
            &&& in_time && failure is Some ==> end == Err::<(), Seq<char>>(failure->0)
            &&& in_time && failure is None && runtime::drained(exits) is Some ==> end == Err::<
                (),
                Seq<char>,
            >(runtime::drained(exits)->0)
            &&& !in_time && failure is None ==> end == Err::<(), Seq<char>>(
                "server tasks did not drain within "@ + timeout,
            )
            &&& !in_time && failure is Some ==> end == Err::<(), Seq<char>>(
                failure->0 + "; "@ + ("server tasks did not drain within "@ + timeout),
            )
        }),
{
}

} // verus!
