use alloyport::proto::v1::{Backend, Heartbeat, WorkerHealth};
use alloyport::runtime::{
    check_cancelled, deferral_notice, drive_step, missing_workers, readiness_step,
    required_worker_ready, resume_step, split_roles, supervision_result, supervisor_step,
    AgentLoopAdvance, DriveStep, EpisodeStatus, ReadinessStep, RequiredWorker, ResumeStep,
    SupervisorEvent, SupervisorStep, TaskExit, TaskKind, WorkerRole, WorkerSnapshot,
};

fn snapshot(available_slots: u32, device_free_slots: u32) -> WorkerSnapshot {
    WorkerSnapshot {
        worker_id: "ascend-worker-1".to_owned(),
        instance_id: "instance-1".to_owned(),
        connection_id: "connection-1".to_owned(),
        connected: true,
        last_worker_sequence: 1,
        backend: Backend::Ascend.number(),
        features: vec![
            "ascend-build-v1".to_owned(),
            "ascend-correctness".to_owned(),
        ],
        heartbeat: Some(Heartbeat {
            active_attempts: Vec::new(),
            available_slots,
            health: WorkerHealth::Ready.number(),
            devices: Vec::new(),
            device_leases: Vec::new(),
            device_free_slots,
        }),
    }
}

fn required(feature: &'static str, requires_device: bool) -> RequiredWorker {
    RequiredWorker {
        id: "ascend-worker-1".to_owned(),
        backend: Backend::Ascend,
        feature,
        role: if requires_device {
            WorkerRole::Verifier
        } else {
            WorkerRole::Builder
        },
        requires_device,
    }
}

#[test]
fn a_builder_starts_on_a_worker_whose_cards_are_all_busy() {
    let busy_cards = snapshot(0, 1);
    assert!(
        required_worker_ready(&required("ascend-build-v1", false), &busy_cards),
        "a build opens no card and must not wait for one"
    );
    assert!(
        !required_worker_ready(&required("ascend-correctness", true), &busy_cards),
        "an execution needs a card and must still wait"
    );
}

#[test]
fn a_builder_waits_when_the_worker_is_at_its_concurrency_limit() {
    let full = snapshot(0, 0);
    assert!(!required_worker_ready(
        &required("ascend-build-v1", false),
        &full
    ));
}

#[test]
fn capacity_is_not_the_only_requirement() {
    let free = snapshot(1, 1);
    assert!(!required_worker_ready(
        &required("ascend-nonexistent", true),
        &free
    ));
    let mut offline = snapshot(1, 1);
    offline.connected = false;
    assert!(!required_worker_ready(
        &required("ascend-build-v1", false),
        &offline
    ));
}

#[test]
fn an_episode_starts_on_its_builder_and_defers_its_verifiers() {
    let workers = vec![
        required("ascend-build-v1", false),
        required("cuda-reduction-correctness-v1", true),
    ];
    let (starting, deferred) = split_roles(&workers);
    assert_eq!(starting.len(), 1);
    assert_eq!(starting[0].feature, "ascend-build-v1");
    assert_eq!(deferred.len(), 1);
    assert_eq!(deferred[0].feature, "cuda-reduction-correctness-v1");
    assert_eq!(
        deferral_notice(&deferred),
        "deferring 1 verifier role(s) until the Correctness Gate: ascend-worker-1"
    );
}

#[test]
fn a_degraded_worker_is_never_ready() {
    let mut degraded = snapshot(4, 4);
    if let Some(heartbeat) = degraded.heartbeat.as_mut() {
        heartbeat.health = WorkerHealth::Degraded.number();
    }
    assert!(!required_worker_ready(
        &required("ascend-build-v1", false),
        &degraded
    ));
    let mut silent = snapshot(4, 4);
    silent.heartbeat = None;
    assert!(!required_worker_ready(
        &required("ascend-build-v1", false),
        &silent
    ));
}

#[test]
fn only_an_operators_own_run_times_out_waiting() {
    let starting = vec![required("ascend-build-v1", false)];
    let nobody = vec![None];
    assert_eq!(missing_workers(&starting, &nobody), vec!["ascend-worker-1"]);
    assert_eq!(
        readiness_step(&starting, &nobody, None, false),
        ReadinessStep::Poll
    );
    assert_eq!(
        readiness_step(&starting, &nobody, None, true),
        ReadinessStep::Fail(
            "required workers were not ready before timeout: ascend-worker-1".to_owned()
        )
    );
    assert_eq!(
        readiness_step(&starting, &nobody, Some(Ok(false)), true),
        ReadinessStep::Poll
    );
    assert_eq!(
        readiness_step(&starting, &vec![Some(snapshot(0, 1))], Some(Ok(false)), true),
        ReadinessStep::Begin
    );
    assert_eq!(
        readiness_step(&starting, &vec![Some(snapshot(0, 1))], Some(Ok(true)), false),
        ReadinessStep::Fail("migration cancelled by user".to_owned())
    );
}

#[test]
fn a_store_that_cannot_answer_stops_the_run() {
    assert_eq!(check_cancelled(None), Ok(()));
    assert_eq!(
        check_cancelled(Some(Err("database is locked".to_owned()))),
        Err("database is locked".to_owned())
    );
}

#[test]
fn an_ended_episode_is_taken_up_again_with_a_notice() {
    let status = |terminal: bool| EpisodeStatus {
        terminal,
        label: "Incomplete".to_owned(),
    };
    assert_eq!(
        resume_step(Ok(status(true)), "Turns(5)"),
        ResumeStep::Notice(
            "resuming Candidate Episode from terminal state Incomplete under allowance Turns(5)"
                .to_owned()
        )
    );
    assert_eq!(resume_step(Ok(status(false)), "Turns(5)"), ResumeStep::Nothing);
    assert_eq!(
        resume_step(Err("locked".to_owned()), "Turns(5)"),
        ResumeStep::Fail("locked".to_owned())
    );
}

#[test]
fn each_advance_has_its_own_consequence() {
    assert_eq!(
        drive_step(Ok(AgentLoopAdvance::Terminal {
            succeeded: true,
            label: "Succeeded".to_owned()
        })),
        DriveStep::Complete
    );
    assert_eq!(
        drive_step(Ok(AgentLoopAdvance::Terminal {
            succeeded: false,
            label: "Incomplete".to_owned()
        })),
        DriveStep::Fail("Candidate Episode ended in terminal state Incomplete".to_owned())
    );
    assert_eq!(
        drive_step(Ok(AgentLoopAdvance::Suspended)),
        DriveStep::Fail("Candidate Episode suspended for operator reconciliation".to_owned())
    );
    assert_eq!(
        drive_step(Ok(AgentLoopAdvance::Progressed {
            tool_work_pending: true
        })),
        DriveStep::Poll
    );
    assert_eq!(
        drive_step(Ok(AgentLoopAdvance::Progressed {
            tool_work_pending: false
        })),
        DriveStep::Yield
    );
    assert_eq!(
        drive_step(Ok(AgentLoopAdvance::ProgressedAfter { delay_millis: 3000 })),
        DriveStep::Wait { delay_millis: 3000 }
    );
    assert_eq!(
        drive_step(Err("reducer".to_owned())),
        DriveStep::Fail("reducer".to_owned())
    );
}

#[test]
fn an_ended_episode_is_reported_and_the_server_stays() {
    let step = supervisor_step(SupervisorEvent::Exit(TaskExit::Returned {
        kind: TaskKind::CandidateEpisode,
        result: Err("out of turns".to_owned()),
    }));
    assert_eq!(
        step,
        SupervisorStep::Report {
            is_error: true,
            line: "Candidate Episode job failed: out of turns; AlloyPort server remains available for inspection and new work".to_owned()
        }
    );
    assert_eq!(
        supervisor_step(SupervisorEvent::Exit(TaskExit::Returned {
            kind: TaskKind::LeaseReaper,
            result: Ok(()),
        })),
        SupervisorStep::Drain {
            failure: Some("lease reaper stopped unexpectedly".to_owned())
        }
    );
    assert_eq!(
        supervisor_step(SupervisorEvent::Interrupt),
        SupervisorStep::Drain { failure: None }
    );
    assert_eq!(
        supervisor_step(SupervisorEvent::Empty),
        SupervisorStep::Abort {
            error: "server task set became empty".to_owned()
        }
    );
    assert_eq!(
        supervisor_step(SupervisorEvent::Exit(TaskExit::Broken {
            detail: "boom".to_owned()
        })),
        SupervisorStep::Abort {
            error: "server task panicked or was cancelled: boom".to_owned()
        }
    );
}

#[test]
fn the_first_failure_of_a_drain_is_the_result() {
    let exits = vec![
        TaskExit::Returned {
            kind: TaskKind::GrpcServer,
            result: Ok(()),
        },
        TaskExit::Returned {
            kind: TaskKind::MigrationDispatcher,
            result: Err("disk full".to_owned()),
        },
        TaskExit::Broken {
            detail: "late".to_owned(),
        },
    ];
    assert_eq!(
        supervision_result(None, &exits, true, "10s"),
        Err("migration dispatcher failed: disk full".to_owned())
    );
    assert_eq!(
        supervision_result(Some("gRPC server failed: x".to_owned()), &exits, true, "10s"),
        Err("gRPC server failed: x".to_owned())
    );
    assert_eq!(supervision_result(None, &Vec::new(), true, "10s"), Ok(()));
    assert_eq!(
        supervision_result(None, &Vec::new(), false, "10s"),
        Err("server tasks did not drain within 10s".to_owned())
    );
    assert_eq!(
        supervision_result(Some("a".to_owned()), &exits, false, "10s"),
        Err("a; server tasks did not drain within 10s".to_owned())
    );
}
