//! What users are shown of an attempt, as canonical events.
use super::{ServiceState, WorkerControlService};
use crate::events;
use crate::events::{
    Event, EventView, OutputStream, Producer, ProducerEvent, ProducerEventView, ProducerView,
};
use crate::interaction;
use crate::interaction::{
    AppendOutcome, AppendOutcomeView, InteractionError, InteractionErrorView,
    InteractionEventReader, InteractionEventWriter,
};
use crate::proto::v1;
use crate::status;
use crate::status::{Code, Status, StatusView};
use crate::storage::{AssignmentContract, AssignmentContractView, AttemptState};
use crate::text;
use crate::wire;
use vstd::prelude::*;
use vstd::string::*;

verus! {

/// The frame that starts a run on behalf of the controller.
pub open spec fn start_frame(task_id: Seq<char>, now_ms: u64) -> ProducerEventView {
    ProducerEventView {
        task_id: Some(task_id),
        ..events::emitted(
            task_id,
            ProducerView { component: "alloyport-server"@, instance: "controller"@ },
            EventView::RunStarted { task: task_id },
            now_ms,
        )
    }
}

/// Starts a run, unless it has any event already.
pub open spec fn run_started(s: ServiceState, contract: AssignmentContractView, now_ms: u64) -> (
    ServiceState,
    Result<AppendOutcomeView, InteractionErrorView>,
) {
    let known = interaction::envelopes(
        interaction::events_behind(s.interactions, contract.task_id, 0),
    );
    if known.len() > 0 {
        (s, Ok(AppendOutcomeView::Duplicate(known[0])))
    } else {
        let (log, r) = interaction::append(
            s.interactions,
            "task:"@ + contract.task_id + ":run-started"@,
            start_frame(contract.task_id, now_ms),
        );
        (ServiceState { interactions: log, ..s }, r)
    }
}

/// Appends what a worker did for an attempt.
pub open spec fn show(
    s: ServiceState,
    dedup_key: Seq<char>,
    frame: ProducerEventView,
) -> (ServiceState, Result<(), StatusView>) {
    let (log, r) = interaction::append(s.interactions, dedup_key, frame);
    (
        ServiceState { interactions: log, ..s },
        match r {
            Ok(_) => Ok(()),
            Err(e) => Err(status::interaction(e)),
        },
    )
}

pub open spec fn command_event(contract: AssignmentContractView, worker_id: Seq<char>) -> EventView {
    EventView::CommandStarted {
        command: text::joined(contract.execution.argv, " "@),
        cwd: Some(contract.execution.working_directory),
        execution_site: worker_id,
        description: Some("worker assignment execution"@),
    }
}

/// Shows that a worker started the command of an attempt.
pub open spec fn command_started(
    s: ServiceState,
    worker_id: Seq<char>,
    attempt_id: Seq<char>,
    now_ms: u64,
) -> (ServiceState, Result<(), StatusView>) {
    if !s.repository.assignments.dom().contains(attempt_id) {
        (s, Err(status::status(Code::FailedPrecondition, "started attempt is unknown"@)))
    } else {
        let contract = s.repository.assignments[attempt_id].contract;
        show(
            s,
            "attempt:"@ + attempt_id + ":command-started"@,
            wire::worker_frame(contract, worker_id, now_ms, command_event(contract, worker_id)),
        )
    }
}

/// Shows an artifact that an attempt left behind, if it did.
pub open spec fn artifact_shown(
    s: ServiceState,
    worker_id: Seq<char>,
    attempt_id: Seq<char>,
    artifact: Option<v1::ArtifactRefView>,
    name: Seq<char>,
    now_ms: u64,
) -> (ServiceState, Result<(), StatusView>) {
    match artifact {
        None => (s, Ok(())),
        Some(a) => show(
            s,
            "attempt:"@ + attempt_id + ":artifact:"@ + name,
            wire::worker_frame(
                s.repository.assignments[attempt_id].contract,
                worker_id,
                now_ms,
                EventView::ArtifactProduced { artifact: wire::shown_artifact(a, name) },
            ),
        ),
    }
}

pub open spec fn completion_event(finished: v1::ExecutionFinished) -> EventView {
    EventView::CommandCompleted {
        exit_code: match finished.exit_code {
            Some(code) => code,
            None => -1i32,
        },
        elapsed_ms: finished.elapsed_ms,
        timed_out: finished.outcome == v1::AttemptOutcome::TimedOut.code(),
        output_artifact: match finished.stdout {
            Some(a) => Some(wire::shown_artifact(a@, "stdout"@)),
            None => None,
        },
    }
}

/// The second step where the first succeeded.
pub open spec fn chained(
    first: (ServiceState, Result<(), StatusView>),
    second: (ServiceState, Result<(), StatusView>),
) -> (ServiceState, Result<(), StatusView>) {
    if first.1 is Ok {
        second
    } else {
        first
    }
}

/// Shows the artifacts of an attempt and that its command ended, one after another up to the
/// first failure.
pub open spec fn command_finished(
    s: ServiceState,
    worker_id: Seq<char>,
    finished: v1::ExecutionFinished,
    now_ms: u64,
) -> (ServiceState, Result<(), StatusView>) {
    let id = finished.attempt_id@;
    let begun = command_started(s, worker_id, id, now_ms);
    let out = artifact_shown(
        begun.0,
        worker_id,
        id,
        v1::optional_artifact_ref(finished.stdout),
        "stdout"@,
        now_ms,
    );
    let err = artifact_shown(
        out.0,
        worker_id,
        id,
        v1::optional_artifact_ref(finished.stderr),
        "stderr"@,
        now_ms,
    );
    let receipt = artifact_shown(
        err.0,
        worker_id,
        id,
        v1::optional_artifact_ref(finished.receipt),
        "receipt"@,
        now_ms,
    );
    let ended = show(
        receipt.0,
        "attempt:"@ + id + ":command-completed"@,
        wire::worker_frame(
            s.repository.assignments[id].contract,
            worker_id,
            now_ms,
            completion_event(finished),
        ),
    );
    chained(begun, chained(out, chained(err, chained(receipt, ended))))
}

/// The events' stream behind a wire number.
pub open spec fn event_stream(number: i32) -> Option<OutputStream> {
    match v1::OutputStream::decoded(number) {
        v1::OutputStream::Stdout => Some(OutputStream::Stdout),
        v1::OutputStream::Stderr => Some(OutputStream::Stderr),
        v1::OutputStream::Unspecified => None,
    }
}

pub open spec fn stream_label(stream: OutputStream) -> Seq<char> {
    match stream {
        OutputStream::Stdout => "Stdout"@,
        OutputStream::Stderr => "Stderr"@,
    }
}

/// Why output of a worker is not shown at all.
pub open spec fn output_error(
    s: ServiceState,
    worker_id: Seq<char>,
    output: v1::OutputChunk,
) -> Option<StatusView> {
    let id = output.attempt_id@;
    if !s.repository.assignments.dom().contains(id) {
        Some(status::status(Code::FailedPrecondition, "output attempt is unknown"@))
    } else if s.repository.assignments[id].worker_id != worker_id {
        Some(
            status::status(
                Code::PermissionDenied,
                "attempt "@ + id + " belongs to another worker"@,
            ),
        )
    } else if s.repository.assignments[id].state != AttemptState::Running {
        Some(
            status::status(
                Code::FailedPrecondition,
                "output attempt "@ + id + " is not running"@,
            ),
        )
    } else if event_stream(output.stream) is None {
        Some(status::status(Code::InvalidArgument, "output stream is unspecified"@))
    } else {
        None
    }
}

pub open spec fn output_key(output: v1::OutputChunk) -> Seq<char> {
    "attempt:"@ + output.attempt_id@ + ":output:"@ + text::signed_decimal(output.stream as int)
        + ":"@ + text::decimal(output.byte_offset as nat)
}

/// The event that shows an output preview as the given text.
pub open spec fn output_event(output: v1::OutputChunk, shown: Seq<char>, replaced: bool) -> EventView {
    EventView::CommandOutput {
        stream: event_stream(output.stream)->0,
        byte_offset: output.byte_offset,
        text: shown,
        display_sanitized: output.display_sanitized || replaced,
    }
}

pub open spec fn gap_key(output: v1::OutputChunk, expected: u64) -> Seq<char> {
    "attempt:"@ + output.attempt_id@ + ":output-gap:"@ + text::signed_decimal(output.stream as int)
        + ":"@ + text::decimal(expected as nat) + ":"@ + text::decimal(output.byte_offset as nat)
}

pub open spec fn gap_event(output: v1::OutputChunk, expected: u64) -> EventView {
    EventView::Warning {
        message: "live "@ + stream_label(event_stream(output.stream)->0)
            + " preview omitted bytes "@ + text::decimal(expected as nat) + ".."@ + text::decimal(
            output.byte_offset as nat,
        ) + "; complete output remains in the terminal Artifact"@,
    }
}

/// Shows an output preview as the given text, and warns of bytes that are missing in front of it.
pub open spec fn output_shown(
    s: ServiceState,
    worker_id: Seq<char>,
    output: v1::OutputChunk,
    shown: Seq<char>,
    replaced: bool,
    now_ms: u64,
) -> (ServiceState, Result<(), StatusView>) {
    match output_error(s, worker_id, output) {
        Some(e) => (s, Err(e)),
        None => {
            let contract = s.repository.assignments[output.attempt_id@].contract;
            let (log, r) = interaction::append_output(
                s.interactions,
                output_key(output),
                output.attempt_id@,
                output.stream,
                output.byte_offset,
                output.payload@,
                wire::worker_frame(
                    contract,
                    worker_id,
                    now_ms,
                    output_event(output, shown, replaced),
                ),
            );
            let t = ServiceState { interactions: log, ..s };
            match r {
                Err(e) => (t, Err(status::interaction(e))),
                Ok(appended) => if appended.missing_bytes_before == 0 {
                    (t, Ok(()))
                } else {
                    let expected = (output.byte_offset - appended.missing_bytes_before) as u64;
                    show(
                        t,
                        gap_key(output, expected),
                        wire::worker_frame(
                            contract,
                            worker_id,
                            now_ms,
                            gap_event(output, expected),
                        ),
                    )
                },
            }
        },
    }
}

fn stream_of(number: i32) -> (r: Option<OutputStream>)
    ensures
        r == event_stream(number),
{
    match v1::OutputStream::decode(number) {
        v1::OutputStream::Stdout => Some(OutputStream::Stdout),
        v1::OutputStream::Stderr => Some(OutputStream::Stderr),
        v1::OutputStream::Unspecified => None,
    }
}

fn stream_name(stream: OutputStream) -> (r: &'static str)
    ensures
        r@ == stream_label(stream),
{
    match stream {
        OutputStream::Stdout => "Stdout",
        OutputStream::Stderr => "Stderr",
    }
}

fn attempt_key(attempt_id: &str, behind: &str) -> (r: String)
    ensures
        r@ == "attempt:"@ + attempt_id@ + behind@,
{
    text::enclosed("attempt:", attempt_id, behind)
}

impl WorkerControlService {
    /// Starts a run, unless something that owns it already did.
    ///
    /// A run may have an owner that started it before any assignment, and a run with two starts
    /// cannot be replayed. A run that nothing else starts still needs one.
    pub fn record_run_started(&mut self, contract: &AssignmentContract, now_ms: u64) -> (r: Result<
        AppendOutcome,
        InteractionError,
    >)
        ensures
            (final(self)@, interaction::seen(r)) == run_started(old(self)@, contract@, now_ms),
    {
        let known = self.interactions.events_after(contract.task_id.as_str(), 0, 1)?;
        let ghost all = interaction::envelopes(
            interaction::events_behind(self@.interactions, contract.task_id@, 0),
        );
        assert(interaction::envelope_views(known@).len() == known@.len());
        if known.len() > 0 {
            assert(interaction::envelope_views(known@)[0] == known@[0]@);
            assert(all.take(1)[0] == all[0]);
            return Ok(AppendOutcome::Duplicate(known[0].clone()));
        }
        let mut frame = ProducerEvent::emitted_at(
            contract.task_id.as_str(),
            Producer::new("alloyport-server", "controller"),
            Event::RunStarted { task: contract.task_id.clone() },
            now_ms,
        );
        frame.task_id = Some(contract.task_id.clone());
        let key = text::enclosed("task:", contract.task_id.as_str(), ":run-started");
        self.interactions.append(key.as_str(), &frame)
    }

    fn show_event(&mut self, dedup_key: &str, frame: &ProducerEvent) -> (r: Result<(), Status>)
        ensures
            (final(self)@, status::seen(r)) == show(old(self)@, dedup_key@, frame@),
    {
        match self.interactions.append(dedup_key, frame) {
            Ok(_) => Ok(()),
            Err(error) => Err(status::interaction_status(&error)),
        }
    }

    /// Shows that a worker started the command of an attempt.
    pub fn record_command_started(&mut self, worker_id: &str, attempt_id: &str, now_ms: u64) -> (r:
        Result<(), Status>)
        ensures
            (final(self)@, status::seen(r)) == command_started(
                old(self)@,
                worker_id@,
                attempt_id@,
                now_ms,
            ),
    {
        let frame = match self.repository.assignment(attempt_id) {
            None => {
                return Err(Status::new(Code::FailedPrecondition, "started attempt is unknown"));
            },
            Some(assignment) => {
                let contract = &assignment.contract;
                let mut command = "".to_owned();
                text::push_joined(&mut command, &contract.execution.argv, " ");
                proof {
                    reveal_strlit("");
                    assert(command@ =~= text::joined(contract@.execution.argv, " "@));
                }
                wire::worker_event(
                    contract,
                    worker_id,
                    now_ms,
                    Event::CommandStarted {
                        command,
                        cwd: Some(contract.execution.working_directory.clone()),
                        execution_site: worker_id.to_owned(),
                        description: Some("worker assignment execution".to_owned()),
                    },
                )
            },
        };
        let key = attempt_key(attempt_id, ":command-started");
        self.show_event(key.as_str(), &frame)
    }

    fn record_artifact(
        &mut self,
        worker_id: &str,
        attempt_id: &str,
        artifact: &Option<v1::ArtifactRef>,
        name: &str,
        now_ms: u64,
    ) -> (r: Result<(), Status>)
        requires
            old(self)@.repository.assignments.dom().contains(attempt_id@),
        ensures
            (final(self)@, status::seen(r)) == artifact_shown(
                old(self)@,
                worker_id@,
                attempt_id@,
                v1::optional_artifact_ref(*artifact),
                name@,
                now_ms,
            ),
    {
        let artifact = match artifact {
            None => {
                return Ok(());
            },
            Some(artifact) => artifact,
        };
        let frame = match self.repository.assignment(attempt_id) {
            None => {
                return Ok(());
            },
            Some(assignment) => wire::worker_event(
                &assignment.contract,
                worker_id,
                now_ms,
                Event::ArtifactProduced { artifact: wire::event_artifact(artifact, name) },
            ),
        };
        let mut key = attempt_key(attempt_id, ":artifact:");
        key.append(name);
        self.show_event(key.as_str(), &frame)
    }

    /// Shows the artifacts of an attempt and that its command ended.
    pub fn record_command_finished(
        &mut self,
        worker_id: &str,
        finished: &v1::ExecutionFinished,
        now_ms: u64,
    ) -> (r: Result<(), Status>)
        ensures
            (final(self)@, status::seen(r)) == command_finished(
                old(self)@,
                worker_id@,
                *finished,
                now_ms,
            ),
    {
        let id = finished.attempt_id.as_str();
        self.record_command_started(worker_id, id, now_ms)?;
        self.record_artifact(worker_id, id, &finished.stdout, "stdout", now_ms)?;
        self.record_artifact(worker_id, id, &finished.stderr, "stderr", now_ms)?;
        self.record_artifact(worker_id, id, &finished.receipt, "receipt", now_ms)?;
        let frame = match self.repository.assignment(id) {
            None => {
                return Err(Status::new(Code::FailedPrecondition, "finished attempt is unknown"));
            },
            Some(assignment) => wire::worker_event(
                &assignment.contract,
                worker_id,
                now_ms,
                Event::CommandCompleted {
                    exit_code: match finished.exit_code {
                        Some(code) => code,
                        None => -1,
                    },
                    elapsed_ms: finished.elapsed_ms,
                    timed_out: finished.outcome == v1::AttemptOutcome::TimedOut.number(),
                    output_artifact: match &finished.stdout {
                        Some(artifact) => Some(wire::event_artifact(artifact, "stdout")),
                        None => None,
                    },
                },
            ),
        };
        let key = attempt_key(id, ":command-completed");
        self.show_event(key.as_str(), &frame)
    }

    /// Shows an output preview as the given text.
    pub fn record_output(
        &mut self,
        worker_id: &str,
        output: &v1::OutputChunk,
        shown: String,
        replaced: bool,
        now_ms: u64,
    ) -> (r: Result<(), Status>)
        ensures
            (final(self)@, status::seen(r)) == output_shown(
                old(self)@,
                worker_id@,
                *output,
                shown@,
                replaced,
                now_ms,
            ),
    {
        let id = output.attempt_id.as_str();
        let contract = match self.repository.assignment(id) {
            None => {
                return Err(Status::new(Code::FailedPrecondition, "output attempt is unknown"));
            },
            Some(assignment) => {
                if !text::same(assignment.worker_id.as_str(), worker_id) {
                    let detail = text::enclosed("attempt ", id, " belongs to another worker");
                    return Err(Status::new(Code::PermissionDenied, detail.as_str()));
                }
                if assignment.state != AttemptState::Running {
                    let detail = text::enclosed("output attempt ", id, " is not running");
                    return Err(Status::new(Code::FailedPrecondition, detail.as_str()));
                }
                assignment.contract.clone()
            },
        };
        let stream = match stream_of(output.stream) {
            Some(stream) => stream,
            None => {
                return Err(Status::new(Code::InvalidArgument, "output stream is unspecified"));
            },
        };
        let frame = wire::worker_event(
            &contract,
            worker_id,
            now_ms,
            Event::CommandOutput {
                stream,
                byte_offset: output.byte_offset,
                text: shown,
                display_sanitized: output.display_sanitized || replaced,
            },
        );
        let mut key = attempt_key(id, ":output:");
        text::push_signed(&mut key, output.stream as i64);
        key.append(":");
        text::push_decimal(&mut key, output.byte_offset);
        assert(key@ == output_key(*output));
        let appended = match self.interactions.append_output(
            key.as_str(),
            id,
            output.stream,
            output.byte_offset,
            output.payload.as_slice(),
            &frame,
        ) {
            Ok(appended) => appended,
            Err(error) => {
                return Err(status::interaction_status(&error));
            },
        };
        if appended.missing_bytes_before == 0 {
            return Ok(());
        }
        let expected: u64 = output.byte_offset - appended.missing_bytes_before;
        let mut message = text::enclosed("live ", stream_name(stream), " preview omitted bytes ");
        text::push_decimal(&mut message, expected);
        message.append("..");
        text::push_decimal(&mut message, output.byte_offset);
        message.append("; complete output remains in the terminal Artifact");
        let warning = wire::worker_event(&contract, worker_id, now_ms, Event::Warning { message });
        let mut key = attempt_key(id, ":output-gap:");
        text::push_signed(&mut key, output.stream as i64);
        key.append(":");
        text::push_decimal(&mut key, expected);
        key.append(":");
        text::push_decimal(&mut key, output.byte_offset);
        assert(key@ == gap_key(*output, expected));
        self.show_event(key.as_str(), &warning)
    }

    /// Shows an output preview of a running attempt, with whatever text its bytes hold.
    pub fn observe_output(&mut self, worker_id: &str, output: &v1::OutputChunk, now_ms: u64) -> (r:
        Result<(), Status>)
        ensures
            (final(self)@, status::seen(r)) == output_shown(
                old(self)@,
                worker_id@,
                *output,
                text::lossy_text(output.payload@),
                !vstd::utf8::valid_utf8(output.payload@),
                now_ms,
            ),
    {
        let (shown, replaced) = text::lossy_text_of(output.payload.as_slice());
        self.record_output(worker_id, output, shown, replaced, now_ms)
    }
}

} // verus!
