//! Stateful validation of one run's canonical event stream.
pub mod streams;

use crate::events;
use crate::events::{Event, EventEnvelope, EventEnvelopeView, EventView, SCHEMA_VERSION};
use crate::ordered;
use crate::ordered::TextMap;
use crate::text;
use vstd::prelude::*;
use vstd::string::*;

verus! {

/// What an operation does, from its start event to its end event.
#[derive(Clone, Copy, Debug, PartialEq, Eq, Structural)]
pub enum OperationKind {
    Message,
    Tool,
    Command,
    Approval,
    Gate,
}

/// The part an event plays in the lifecycle of a run.
#[derive(Clone, Copy, Debug, PartialEq, Eq, Structural)]
pub enum EventRole {
    RunStart,
    RunEnd,
    Start(OperationKind),
    Within(OperationKind),
    Finish(OperationKind),
    Free,
}

/// The role of an event.
pub open spec fn role(event: EventView) -> EventRole {
    match event {
        EventView::RunStarted { .. } => EventRole::RunStart,
        EventView::RunCompleted { .. } => EventRole::RunEnd,
        EventView::RunFailed { .. } => EventRole::RunEnd,
        EventView::MessageStarted { .. } => EventRole::Start(OperationKind::Message),
        EventView::MessageDelta { .. } => EventRole::Within(OperationKind::Message),
        EventView::MessageCompleted {} => EventRole::Finish(OperationKind::Message),
        EventView::ToolStarted { .. } => EventRole::Start(OperationKind::Tool),
        EventView::ToolCompleted { .. } => EventRole::Finish(OperationKind::Tool),
        EventView::ToolFailed { .. } => EventRole::Finish(OperationKind::Tool),
        EventView::CommandStarted { .. } => EventRole::Start(OperationKind::Command),
        EventView::CommandOutput { .. } => EventRole::Within(OperationKind::Command),
        EventView::CommandCompleted { .. } => EventRole::Finish(OperationKind::Command),
        EventView::ApprovalRequested { .. } => EventRole::Start(OperationKind::Approval),
        EventView::ApprovalResolved { .. } => EventRole::Finish(OperationKind::Approval),
        EventView::GateStarted { .. } => EventRole::Start(OperationKind::Gate),
        EventView::GateCompleted { .. } => EventRole::Finish(OperationKind::Gate),
        _ => EventRole::Free,
    }
}

/// The role of an event.
pub fn role_of(event: &Event) -> (r: EventRole)
    ensures
        r == role(event@),
{
    match event {
        Event::RunStarted { .. } => EventRole::RunStart,
        Event::RunCompleted { .. } | Event::RunFailed { .. } => EventRole::RunEnd,
        Event::MessageStarted { .. } => EventRole::Start(OperationKind::Message),
        Event::MessageDelta { .. } => EventRole::Within(OperationKind::Message),
        Event::MessageCompleted {} => EventRole::Finish(OperationKind::Message),
        Event::ToolStarted { .. } => EventRole::Start(OperationKind::Tool),
        Event::ToolCompleted { .. } | Event::ToolFailed { .. } => EventRole::Finish(
            OperationKind::Tool,
        ),
        Event::CommandStarted { .. } => EventRole::Start(OperationKind::Command),
        Event::CommandOutput { .. } => EventRole::Within(OperationKind::Command),
        Event::CommandCompleted { .. } => EventRole::Finish(OperationKind::Command),
        Event::ApprovalRequested { .. } => EventRole::Start(OperationKind::Approval),
        Event::ApprovalResolved { .. } => EventRole::Finish(OperationKind::Approval),
        Event::GateStarted { .. } => EventRole::Start(OperationKind::Gate),
        Event::GateCompleted { .. } => EventRole::Finish(OperationKind::Gate),
        Event::TurnStarted { .. } | Event::TurnCompleted { .. } | Event::TurnFailed { .. }
        | Event::PlanUpdated { .. } | Event::WorkspaceDelta { .. } | Event::ArtifactProduced { .. }
        | Event::Warning { .. } | Event::Error { .. } => EventRole::Free,
    }
}

/// Why an event cannot follow the events before it.
#[derive(Debug, PartialEq, Eq)]
pub enum ReduceError {
    UnsupportedSchema(u16),
    UnexpectedSequence { expected: u64, actual: u64 },
    RunMismatch,
    InvalidRunStart,
    RunNotStarted,
    EventAfterTerminal,
    MissingOperationId,
    DuplicateOperation(String),
    OperationNotActive(String),
    OperationsStillActive(Vec<String>),
}

pub ghost enum ReduceErrorView {
    UnsupportedSchema(u16),
    UnexpectedSequence { expected: u64, actual: u64 },
    RunMismatch,
    InvalidRunStart,
    RunNotStarted,
    EventAfterTerminal,
    MissingOperationId,
    DuplicateOperation(Seq<char>),
    OperationNotActive(Seq<char>),
    OperationsStillActive(Seq<Seq<char>>),
}

impl View for ReduceError {
    type V = ReduceErrorView;

    open spec fn view(&self) -> ReduceErrorView {
        match *self {
            ReduceError::UnsupportedSchema(version) => ReduceErrorView::UnsupportedSchema(version),
            ReduceError::UnexpectedSequence { expected, actual } =>
                ReduceErrorView::UnexpectedSequence { expected, actual },
            ReduceError::RunMismatch => ReduceErrorView::RunMismatch,
            ReduceError::InvalidRunStart => ReduceErrorView::InvalidRunStart,
            ReduceError::RunNotStarted => ReduceErrorView::RunNotStarted,
            ReduceError::EventAfterTerminal => ReduceErrorView::EventAfterTerminal,
            ReduceError::MissingOperationId => ReduceErrorView::MissingOperationId,
            ReduceError::DuplicateOperation(id) => ReduceErrorView::DuplicateOperation(id@),
            ReduceError::OperationNotActive(id) => ReduceErrorView::OperationNotActive(id@),
            ReduceError::OperationsStillActive(ids) => ReduceErrorView::OperationsStillActive(
                text::views(ids@),
            ),
        }
    }
}

/// What a reducer knows of its run.
pub ghost struct RunState {
    pub run_id: Option<Seq<char>>,
    pub next_sequence: u64,
    pub started: bool,
    pub terminal: bool,
    pub active: Map<Seq<char>, OperationKind>,
}

/// The operation that an event names is active with the given kind.
pub open spec fn runs(state: RunState, id: Seq<char>, kind: OperationKind) -> bool {
    state.active.dom().contains(id) && state.active[id] == kind
}

/// The envelope carries the schema, the position and the run that are due.
pub open spec fn due(state: RunState, envelope: EventEnvelopeView) -> bool {
    &&& envelope.schema_version == SCHEMA_VERSION
    &&& envelope.sequence == state.next_sequence
    &&& state.run_id matches Some(run_id) ==> run_id == envelope.run_id
}

/// What an event with the given role meets in a run that it belongs to.
pub open spec fn lifecycle(
    state: RunState,
    envelope: EventEnvelopeView,
) -> Result<(), ReduceErrorView> {
    match role(envelope.event) {
        EventRole::RunStart => if state.started || envelope.sequence != 1 {
            Err(ReduceErrorView::InvalidRunStart)
        } else {
            Ok(())
        },
        EventRole::RunEnd => if state.active.dom() =~= Set::empty() {
            Ok(())
        } else {
            Err(ReduceErrorView::OperationsStillActive(ordered::key_order(state.active)))
        },
        EventRole::Start(kind) => match envelope.operation_id {
            None => Err(ReduceErrorView::MissingOperationId),
            Some(id) => if state.active.dom().contains(id) {
                Err(ReduceErrorView::DuplicateOperation(id))
            } else {
                Ok(())
            },
        },
        EventRole::Within(kind) | EventRole::Finish(kind) => match envelope.operation_id {
            None => Err(ReduceErrorView::MissingOperationId),
            Some(id) => if runs(state, id, kind) {
                Ok(())
            } else {
                Err(ReduceErrorView::OperationNotActive(id))
            },
        },
        EventRole::Free => Ok(()),
    }
}

/// Whether a run accepts an event, and else why not; the first reason in order counts.
pub open spec fn verdict(
    state: RunState,
    envelope: EventEnvelopeView,
) -> Result<(), ReduceErrorView> {
    if envelope.schema_version != SCHEMA_VERSION {
        Err(ReduceErrorView::UnsupportedSchema(envelope.schema_version))
    } else if envelope.sequence != state.next_sequence {
        Err(
            ReduceErrorView::UnexpectedSequence {
                expected: state.next_sequence,
                actual: envelope.sequence,
            },
        )
    } else if !due(state, envelope) {
        Err(ReduceErrorView::RunMismatch)
    } else if state.terminal {
        Err(ReduceErrorView::EventAfterTerminal)
    } else if !state.started && role(envelope.event) != EventRole::RunStart {
        Err(ReduceErrorView::RunNotStarted)
    } else {
        lifecycle(state, envelope)
    }
}

/// The operations that are active behind an event.
pub open spec fn active_after(
    state: RunState,
    envelope: EventEnvelopeView,
) -> Map<Seq<char>, OperationKind> {
    match (role(envelope.event), envelope.operation_id, verdict(state, envelope)) {
        (EventRole::Start(kind), Some(id), Ok(_)) => state.active.insert(id, kind),
        (EventRole::Start(kind), Some(id), Err(ReduceErrorView::DuplicateOperation(_))) =>
            state.active.insert(id, kind),
        (EventRole::Finish(kind), Some(id), Ok(_)) => state.active.remove(id),
        _ => state.active,
    }
}

/// The state behind an event. The first event that is due binds the run, accepted or not, and a
/// repeated start leaves the operation active with the newer kind.
pub open spec fn after(state: RunState, envelope: EventEnvelopeView) -> RunState {
    if !due(state, envelope) {
        state
    } else {
        let accepted = verdict(state, envelope) is Ok;
        RunState {
            run_id: Some(envelope.run_id),
            next_sequence: if accepted {
                events::successor(state.next_sequence)
            } else {
                state.next_sequence
            },
            started: state.started || (accepted && role(envelope.event) == EventRole::RunStart),
            terminal: state.terminal || (accepted && role(envelope.event) == EventRole::RunEnd),
            active: active_after(state, envelope),
        }
    }
}

/// Checks that a stream of canonical events is one well-formed run.
#[derive(Debug)]
pub struct RunReducer {
    run_id: Option<String>,
    next_sequence: u64,
    started: bool,
    terminal: bool,
    active_operations: TextMap<OperationKind>,
}

impl View for RunReducer {
    type V = RunState;

    closed spec fn view(&self) -> RunState {
        RunState {
            run_id: text::optional(self.run_id),
            next_sequence: self.next_sequence,
            started: self.started,
            terminal: self.terminal,
            active: self.active_operations@,
        }
    }
}

fn operation_id(envelope: &EventEnvelope) -> (r: Result<&str, ReduceError>)
    ensures
        r is Ok <==> envelope@.operation_id is Some,
        r matches Ok(id) ==> Some(id@) == envelope@.operation_id,
        r matches Err(e) ==> e@ == ReduceErrorView::MissingOperationId,
{
    match &envelope.operation_id {
        Some(id) => Ok(id.as_str()),
        None => Err(ReduceError::MissingOperationId),
    }
}

/// The view of a result without a value.
pub open spec fn refusal(r: Result<(), ReduceError>) -> Result<(), ReduceErrorView> {
    match r {
        Ok(_) => Ok(()),
        Err(e) => Err(e@),
    }
}

impl RunReducer {
    pub fn new() -> (r: Self)
        ensures
            r@ == (RunState {
                run_id: None,
                next_sequence: 1,
                started: false,
                terminal: false,
                active: Map::empty(),
            }),
    {
        RunReducer {
            run_id: None,
            next_sequence: 1,
            started: false,
            terminal: false,
            active_operations: TextMap::new(),
        }
    }

    /// Applies one canonical event and checks the lifecycle of the run.
    pub fn apply(&mut self, envelope: &EventEnvelope) -> (r: Result<(), ReduceError>)
        ensures
            refusal(r) == verdict(old(self)@, envelope@),
            final(self)@ == after(old(self)@, envelope@),
    {
        if envelope.schema_version != SCHEMA_VERSION {
            return Err(ReduceError::UnsupportedSchema(envelope.schema_version));
        }
        if envelope.sequence != self.next_sequence {
            return Err(
                ReduceError::UnexpectedSequence {
                    expected: self.next_sequence,
                    actual: envelope.sequence,
                },
            );
        }
        match &self.run_id {
            Some(run_id) => {
                if !text::same(run_id.as_str(), envelope.run_id.as_str()) {
                    return Err(ReduceError::RunMismatch);
                }
            },
            None => {
                self.run_id = Some(envelope.run_id.clone());
            },
        }
        if self.terminal {
            return Err(ReduceError::EventAfterTerminal);
        }
        let part = role_of(&envelope.event);
        if !self.started && part != EventRole::RunStart {
            return Err(ReduceError::RunNotStarted);
        }
        match part {
            EventRole::RunStart => {
                if self.started || envelope.sequence != 1 {
                    return Err(ReduceError::InvalidRunStart);
                }
                self.started = true;
            },
            EventRole::RunEnd => {
                if !self.active_operations.is_empty() {
                    return Err(
                        ReduceError::OperationsStillActive(self.active_operations.sorted_keys()),
                    );
                }
                self.terminal = true;
            },
            EventRole::Start(kind) => {
                match self.start_operation(envelope, kind) {
                    Ok(_) => {},
                    Err(error) => {
                        return Err(error);
                    },
                }
            },
            EventRole::Within(kind) => {
                match self.require_operation(envelope, kind) {
                    Ok(_) => {},
                    Err(error) => {
                        return Err(error);
                    },
                }
            },
            EventRole::Finish(kind) => {
                match self.finish_operation(envelope, kind) {
                    Ok(_) => {},
                    Err(error) => {
                        return Err(error);
                    },
                }
            },
            EventRole::Free => {},
        }
        self.next_sequence = self.next_sequence.saturating_add(1);
        Ok(())
    }

    fn start_operation(&mut self, envelope: &EventEnvelope, kind: OperationKind) -> (r: Result<
        (),
        ReduceError,
    >)
        ensures
            final(self)@ == (RunState { active: final(self)@.active, ..old(self)@ }),
            envelope@.operation_id is None ==> refusal(r) == Err::<(), _>(
                ReduceErrorView::MissingOperationId,
            ) && final(self)@.active == old(self)@.active,
            envelope@.operation_id matches Some(id) ==> {
                &&& final(self)@.active == old(self)@.active.insert(id, kind)
                &&& refusal(r) == if old(self)@.active.dom().contains(id) {
                    Err::<(), _>(ReduceErrorView::DuplicateOperation(id))
                } else {
                    Ok(())
                }
            },
    {
        let id = match operation_id(envelope) {
            Ok(id) => id,
            Err(error) => {
                return Err(error);
            },
        };
        if self.active_operations.insert(id.to_owned(), kind).is_some() {
            return Err(ReduceError::DuplicateOperation(id.to_owned()));
        }
        Ok(())
    }

    fn require_operation(&self, envelope: &EventEnvelope, expected: OperationKind) -> (r: Result<
        (),
        ReduceError,
    >)
        ensures
            envelope@.operation_id is None ==> refusal(r) == Err::<(), _>(
                ReduceErrorView::MissingOperationId,
            ),
            envelope@.operation_id matches Some(id) ==> refusal(r) == if runs(self@, id, expected) {
                Ok::<(), ReduceErrorView>(())
            } else {
                Err(ReduceErrorView::OperationNotActive(id))
            },
    {
        let id = match operation_id(envelope) {
            Ok(id) => id,
            Err(error) => {
                return Err(error);
            },
        };
        match self.active_operations.get(id) {
            Some(actual) => {
                if *actual == expected {
                    return Ok(());
                }
            },
            None => {},
        }
        Err(ReduceError::OperationNotActive(id.to_owned()))
    }

    fn finish_operation(
        &mut self,
        envelope: &EventEnvelope,
        expected: OperationKind,
    ) -> (r: Result<(), ReduceError>)
        ensures
            final(self)@ == (RunState { active: final(self)@.active, ..old(self)@ }),
            envelope@.operation_id is None ==> refusal(r) == Err::<(), _>(
                ReduceErrorView::MissingOperationId,
            ) && final(self)@.active == old(self)@.active,
            envelope@.operation_id matches Some(id) ==> if runs(old(self)@, id, expected) {
                r is Ok && final(self)@.active == old(self)@.active.remove(id)
            } else {
                refusal(r) == Err::<(), _>(ReduceErrorView::OperationNotActive(id))
                    && final(self)@.active == old(self)@.active
            },
    {
        match self.require_operation(envelope, expected) {
            Ok(_) => {},
            Err(error) => {
                return Err(error);
            },
        }
        match operation_id(envelope) {
            Ok(id) => {
                let _ = self.active_operations.remove(id);
                Ok(())
            },
            Err(error) => Err(error),
        }
    }
}

impl ReduceErrorView {
    /// The text of a refusal.
    pub open spec fn text(self) -> Seq<char> {
        match self {
            ReduceErrorView::UnsupportedSchema(version) => "unsupported schema "@ + text::decimal(
                version as nat,
            ),
            ReduceErrorView::UnexpectedSequence { expected, actual } => "expected sequence "@
                + text::decimal(expected as nat) + ", got "@ + text::decimal(actual as nat),
            ReduceErrorView::RunMismatch => "event belongs to a different run"@,
            ReduceErrorView::InvalidRunStart => "run.started must be the first event"@,
            ReduceErrorView::RunNotStarted => "run has not started"@,
            ReduceErrorView::EventAfterTerminal => "event follows a terminal run event"@,
            ReduceErrorView::MissingOperationId => "operation event has no operation_id"@,
            ReduceErrorView::DuplicateOperation(id) => "operation "@ + id + " already exists"@,
            ReduceErrorView::OperationNotActive(id) => "operation "@ + id + " is not active"@,
            ReduceErrorView::OperationsStillActive(ids) => "run ended with active operations: "@
                + text::joined(ids, ", "@),
        }
    }
}

impl ReduceError {
    /// The text of a refusal.
    pub fn message(&self) -> (r: String)
        ensures
            r@ == self@.text(),
    {
        match self {
            ReduceError::UnsupportedSchema(version) => {
                let mut out = "unsupported schema ".to_owned();
                text::push_decimal(&mut out, *version as u64);
                out
            },
            ReduceError::UnexpectedSequence { expected, actual } => {
                let mut out = "expected sequence ".to_owned();
                text::push_decimal(&mut out, *expected);
                out.append(", got ");
                text::push_decimal(&mut out, *actual);
                out
            },
            ReduceError::RunMismatch => "event belongs to a different run".to_owned(),
            ReduceError::InvalidRunStart => "run.started must be the first event".to_owned(),
            ReduceError::RunNotStarted => "run has not started".to_owned(),
            ReduceError::EventAfterTerminal => "event follows a terminal run event".to_owned(),
            ReduceError::MissingOperationId => "operation event has no operation_id".to_owned(),
            ReduceError::DuplicateOperation(id) => {
                let mut out = "operation ".to_owned();
                out.append(id.as_str());
                out.append(" already exists");
                out
            },
            ReduceError::OperationNotActive(id) => {
                let mut out = "operation ".to_owned();
                out.append(id.as_str());
                out.append(" is not active");
                out
            },
            ReduceError::OperationsStillActive(ids) => {
                let mut out = "run ended with active operations: ".to_owned();
                text::push_joined(&mut out, ids, ", ");
                out
            },
        }
    }
}

/// A state that some stream of events leads to from a fresh reducer: nothing is active before the
/// run has started nor once it has ended, and only a started run ends.
pub open spec fn reachable(state: RunState) -> bool {
    &&& !state.started ==> state.active.dom() =~= Set::empty()
    &&& state.terminal ==> state.started && state.active.dom() =~= Set::empty()
}

/// Every event keeps a reachable state reachable.
pub proof fn events_keep_states_reachable(state: RunState, envelope: EventEnvelopeView)
    requires
        reachable(state),
    ensures
        reachable(after(state, envelope)),
{
}

/// A run that has ended accepts no further event and stays ended.
pub proof fn a_terminal_run_refuses_every_event(state: RunState, envelope: EventEnvelopeView)
    requires
        state.terminal,
    ensures
        verdict(state, envelope) is Err,
        after(state, envelope).terminal,
        after(state, envelope).active == state.active,
        after(state, envelope).next_sequence == state.next_sequence,
{
}

/// A run starts at most once.
pub proof fn a_run_starts_once(state: RunState, envelope: EventEnvelopeView)
    requires
        state.started,
        role(envelope.event) == EventRole::RunStart,
    ensures
        verdict(state, envelope) is Err,
{
}

/// Finishing an operation right behind its start restores the active operations.
pub proof fn finish_undoes_start(
    state: RunState,
    start: EventEnvelopeView,
    finish: EventEnvelopeView,
    kind: OperationKind,
)
    requires
        role(start.event) == EventRole::Start(kind),
        role(finish.event) == EventRole::Finish(kind),
        start.operation_id == finish.operation_id,
        verdict(state, start) is Ok,
        verdict(after(state, start), finish) is Ok,
    ensures
        after(after(state, start), finish).active == state.active,
{
    let id = start.operation_id->0;
    assert(state.active.insert(id, kind).remove(id) =~= state.active);
}

/// A refused event moves neither the position nor the lifecycle of the run; only a repeated start
/// touches the active operations, and it adds none.
pub proof fn a_refused_event_changes_no_lifecycle(state: RunState, envelope: EventEnvelopeView)
    requires
        verdict(state, envelope) is Err,
    ensures
        after(state, envelope).next_sequence == state.next_sequence,
        after(state, envelope).started == state.started,
        after(state, envelope).terminal == state.terminal,
        after(state, envelope).active.dom() == state.active.dom(),
        !(verdict(state, envelope) matches Err(ReduceErrorView::DuplicateOperation(_)))
            ==> after(state, envelope).active == state.active,
{
    assert(after(state, envelope).active.dom() =~= state.active.dom());
}

/// What a sequencer hands out is due in a reducer that stands at the same position of that run,
/// and an accepted event keeps both in step.
pub proof fn sequenced_events_are_due(
    state: RunState,
    frame: events::ProducerEventView,
    next: u64,
)
    requires
        next == state.next_sequence,
        state.run_id matches Some(run_id) ==> run_id == frame.run_id,
    ensures
        due(state, events::sequenced(frame, next)),
        verdict(state, events::sequenced(frame, next)) is Ok ==> after(
            state,
            events::sequenced(frame, next),
        ).next_sequence == events::successor(next),
{
}

} // verus!
