//! What whole streams of events come to.
use super::{ReduceErrorView, RunState};
use crate::events::{EventEnvelopeView, EventView};
use crate::ordered;
use vstd::prelude::*;

verus! {

/// An event that begins something which has to come to an end.
pub open spec fn begins(event: EventView) -> bool {
    ||| event is MessageStarted
    ||| event is ToolStarted
    ||| event is CommandStarted
    ||| event is ApprovalRequested
    ||| event is GateStarted
}

/// An event that ends what another began.
pub open spec fn ends(event: EventView) -> bool {
    ||| event is MessageCompleted
    ||| event is ToolCompleted
    ||| event is ToolFailed
    ||| event is CommandCompleted
    ||| event is ApprovalResolved
    ||| event is GateCompleted
}

/// `end` is the end of what `start` began.
pub open spec fn answers(start: EventView, end: EventView) -> bool {
    ||| start is MessageStarted && end is MessageCompleted
    ||| start is ToolStarted && (end is ToolCompleted || end is ToolFailed)
    ||| start is CommandStarted && end is CommandCompleted
    ||| start is ApprovalRequested && end is ApprovalResolved
    ||| start is GateStarted && end is GateCompleted
}

/// `part` belongs inside what `start` began.
pub open spec fn continues(start: EventView, part: EventView) -> bool {
    ||| start is MessageStarted && part is MessageDelta
    ||| start is CommandStarted && part is CommandOutput
}

/// The end of a whole run.
pub open spec fn concludes(event: EventView) -> bool {
    event is RunCompleted || event is RunFailed
}

/// The event is the next of the run that the state stands for.
pub open spec fn next_of(state: RunState, envelope: EventEnvelopeView) -> bool {
    &&& envelope.schema_version == 1
    &&& envelope.sequence == state.next_sequence
    &&& state.run_id is None || state.run_id == Some(envelope.run_id)
}

/// The run is under way: started and not at its end.
pub open spec fn under_way(state: RunState) -> bool {
    state.started && !state.terminal
}

/// A run begins with `run.started` as its first event, and with no other.
pub proof fn runs_begin_with_their_start(state: RunState, envelope: EventEnvelopeView)
    requires
        next_of(state, envelope),
        !state.started,
        !state.terminal,
    ensures
        envelope.event is RunStarted && envelope.sequence == 1 ==> super::verdict(state, envelope)
            is Ok && super::after(state, envelope).started && !super::after(
            state,
            envelope,
        ).terminal && super::after(state, envelope).active == state.active && super::after(
            state,
            envelope,
        ).run_id == Some(envelope.run_id),
        envelope.event is RunStarted && envelope.sequence != 1 ==> super::verdict(state, envelope)
            == Err::<(), ReduceErrorView>(ReduceErrorView::InvalidRunStart),
        !(envelope.event is RunStarted) ==> super::verdict(state, envelope) == Err::<
            (),
            ReduceErrorView,
        >(ReduceErrorView::RunNotStarted) && !super::after(state, envelope).started,
{
}

/// What begins under a fresh name is active from there on; a name that is active is not begun
/// again, and what begins has a name.
pub proof fn begun_operations_are_active(state: RunState, envelope: EventEnvelopeView)
    requires
        next_of(state, envelope),
        under_way(state),
        begins(envelope.event),
    ensures
        match envelope.operation_id {
            None => super::verdict(state, envelope) == Err::<(), ReduceErrorView>(
                ReduceErrorView::MissingOperationId,
            ),
            Some(id) => if state.active.dom().contains(id) {
                super::verdict(state, envelope) == Err::<(), ReduceErrorView>(
                    ReduceErrorView::DuplicateOperation(id),
                )
            } else {
                &&& super::verdict(state, envelope) is Ok
                &&& super::after(state, envelope).active.dom() == state.active.dom().insert(id)
                &&& under_way(super::after(state, envelope))
            },
        },
{
}

/// What has begun ends with its own end, which is accepted and leaves active what was active
/// before; any other end is refused and ends nothing.
pub proof fn begun_operations_end(
    state: RunState,
    start: EventEnvelopeView,
    end: EventEnvelopeView,
)
    requires
        under_way(state),
        begins(start.event),
        ends(end.event),
        super::verdict(state, start) is Ok,
        next_of(super::after(state, start), end),
        end.operation_id == start.operation_id,
    ensures
        answers(start.event, end.event) ==> super::verdict(super::after(state, start), end) is Ok
            && super::after(super::after(state, start), end).active == state.active && under_way(
            super::after(super::after(state, start), end),
        ),
        !answers(start.event, end.event) ==> super::verdict(super::after(state, start), end)
            == Err::<(), ReduceErrorView>(
            ReduceErrorView::OperationNotActive(start.operation_id->0),
        ) && super::after(super::after(state, start), end).active == super::after(
            state,
            start,
        ).active,
{
    let id = start.operation_id->0;
    let t = super::after(state, start);
    assert(t.active.dom().contains(id));
    assert(t.active.remove(id) =~= state.active);
}

/// What has begun goes on with its own parts, and stays active.
pub proof fn begun_operations_go_on(
    state: RunState,
    start: EventEnvelopeView,
    part: EventEnvelopeView,
)
    requires
        under_way(state),
        begins(start.event),
        part.event is MessageDelta || part.event is CommandOutput,
        super::verdict(state, start) is Ok,
        next_of(super::after(state, start), part),
        part.operation_id == start.operation_id,
    ensures
        super::verdict(super::after(state, start), part) is Ok <==> continues(
            start.event,
            part.event,
        ),
        super::after(super::after(state, start), part).active == super::after(state, start).active,
{
}

/// Nothing ends or goes on that is not active.
pub proof fn what_is_not_active_does_not_end(state: RunState, envelope: EventEnvelopeView)
    requires
        next_of(state, envelope),
        under_way(state),
        ends(envelope.event) || envelope.event is MessageDelta || envelope.event is CommandOutput,
    ensures
        match envelope.operation_id {
            None => super::verdict(state, envelope) == Err::<(), ReduceErrorView>(
                ReduceErrorView::MissingOperationId,
            ),
            Some(id) => !state.active.dom().contains(id) ==> super::verdict(state, envelope)
                == Err::<(), ReduceErrorView>(ReduceErrorView::OperationNotActive(id)),
        },
        ends(envelope.event) && super::verdict(state, envelope) is Ok ==> super::after(
            state,
            envelope,
        ).active.dom() == state.active.dom().remove(envelope.operation_id->0),
{
}

/// A run ends where nothing is active, and is over; else what is still active is named.
pub proof fn runs_end_where_nothing_is_active(state: RunState, envelope: EventEnvelopeView)
    requires
        next_of(state, envelope),
        under_way(state),
        concludes(envelope.event),
    ensures
        (forall|id: Seq<char>| !state.active.dom().contains(id)) ==> super::verdict(state, envelope)
            is Ok && super::after(state, envelope).terminal,
        (exists|id: Seq<char>| state.active.dom().contains(id)) ==> !super::after(
            state,
            envelope,
        ).terminal && (super::verdict(state, envelope) matches Err(
            ReduceErrorView::OperationsStillActive(ids),
        ) && (state.active.dom().finite() ==> forall|id: Seq<char>|
            ids.contains(id) <==> state.active.dom().contains(id))),
{
    if forall|id: Seq<char>| !state.active.dom().contains(id) {
        assert(state.active.dom() =~= Set::empty());
    }
    if state.active.dom().finite() {
        ordered::key_order_lists(state.active);
    }
}

/// Turns, plans, changes, artifacts, warnings and errors are told at any time of a run, and leave
/// what is active as it is.
pub proof fn remarks_are_made_at_any_time(state: RunState, envelope: EventEnvelopeView)
    requires
        next_of(state, envelope),
        under_way(state),
        envelope.event is TurnStarted || envelope.event is TurnCompleted || envelope.event
            is TurnFailed || envelope.event is PlanUpdated || envelope.event is WorkspaceDelta
            || envelope.event is ArtifactProduced || envelope.event is Warning || envelope.event
            is Error,
    ensures
        super::verdict(state, envelope) is Ok,
        super::after(state, envelope).active == state.active,
        under_way(super::after(state, envelope)),
{
}

/// A second start, an event behind the end, an event of another run, of another place or of another
/// schema is refused, whatever it tells.
pub proof fn events_out_of_place_are_refused(state: RunState, envelope: EventEnvelopeView)
    ensures
        envelope.schema_version != 1 ==> super::verdict(state, envelope) == Err::<
            (),
            ReduceErrorView,
        >(ReduceErrorView::UnsupportedSchema(envelope.schema_version)),
        envelope.schema_version == 1 && envelope.sequence != state.next_sequence
            ==> super::verdict(state, envelope) == Err::<(), ReduceErrorView>(
            ReduceErrorView::UnexpectedSequence {
                expected: state.next_sequence,
                actual: envelope.sequence,
            },
        ),
        envelope.schema_version == 1 && envelope.sequence == state.next_sequence && state.run_id
            is Some && state.run_id != Some(envelope.run_id) ==> super::verdict(state, envelope)
            == Err::<(), ReduceErrorView>(ReduceErrorView::RunMismatch),
        next_of(state, envelope) && state.terminal ==> super::verdict(state, envelope) == Err::<
            (),
            ReduceErrorView,
        >(ReduceErrorView::EventAfterTerminal),
        next_of(state, envelope) && under_way(state) && envelope.event is RunStarted
            ==> super::verdict(state, envelope) == Err::<(), ReduceErrorView>(
            ReduceErrorView::InvalidRunStart,
        ),
        super::verdict(state, envelope) is Ok && state.next_sequence < u64::MAX ==> super::after(
            state,
            envelope,
        ).next_sequence == state.next_sequence + 1,
        super::verdict(state, envelope) is Err ==> super::after(state, envelope).next_sequence
            == state.next_sequence,
{
}

/// The state behind a stream, from the beginning of a run.
pub open spec fn replayed(stream: Seq<EventEnvelopeView>) -> RunState
    decreases stream.len(),
{
    if stream.len() == 0 {
        RunState {
            run_id: None,
            next_sequence: 1,
            started: false,
            terminal: false,
            active: Map::empty(),
        }
    } else {
        super::after(replayed(stream.drop_last()), stream.last())
    }
}

/// Every event of the stream is accepted behind those before it.
pub open spec fn well_formed(stream: Seq<EventEnvelopeView>) -> bool
    decreases stream.len(),
{
    stream.len() > 0 ==> well_formed(stream.drop_last()) && super::verdict(
        replayed(stream.drop_last()),
        stream.last(),
    ) is Ok
}

/// The operation begins at place `i` of the stream and does not end behind it.
pub open spec fn left_open(stream: Seq<EventEnvelopeView>, id: Seq<char>, i: int) -> bool {
    &&& 0 <= i < stream.len()
    &&& begins(stream[i].event)
    &&& stream[i].operation_id == Some(id)
    &&& forall|j: int|
        i < j < stream.len() ==> !(ends((#[trigger] stream[j]).event) && stream[j].operation_id
            == Some(id))
}

/// What is active behind a stream is exactly what began in it and did not end.
pub proof fn active_is_what_was_left_open(stream: Seq<EventEnvelopeView>, id: Seq<char>)
    requires
        well_formed(stream),
    ensures
        replayed(stream).active.dom().contains(id) <==> exists|i: int| left_open(stream, id, i),
    decreases stream.len(),
{
    if stream.len() > 0 {
        let before = stream.drop_last();
        let last = stream.last();
        let n = stream.len() - 1;
        active_is_what_was_left_open(before, id);
        assert forall|j: int| 0 <= j < n implies #[trigger] before[j] == stream[j] by {}
        let state = replayed(before);
        if begins(last.event) && last.operation_id == Some(id) {
            assert(left_open(stream, id, n));
        } else if ends(last.event) && last.operation_id == Some(id) {
            assert(!replayed(stream).active.dom().contains(id));
            assert forall|i: int| !left_open(stream, id, i) by {
                if 0 <= i < n {
                    assert(stream[n] == last);
                }
            }
        } else {
            assert(replayed(stream).active.dom().contains(id) == state.active.dom().contains(id));
            assert forall|i: int| left_open(stream, id, i) <==> left_open(before, id, i) by {
                if left_open(before, id, i) {
                    assert forall|j: int| i < j < stream.len() implies !(ends(
                        (#[trigger] stream[j]).event,
                    ) && stream[j].operation_id == Some(id)) by {
                        if j < n {
                            assert(before[j] == stream[j]);
                        }
                    }
                }
                if left_open(stream, id, i) {
                    assert(i != n);
                    assert forall|j: int| i < j < before.len() implies !(ends(
                        (#[trigger] before[j]).event,
                    ) && before[j].operation_id == Some(id)) by {
                        assert(before[j] == stream[j]);
                    }
                }
            }
            if exists|i: int| left_open(stream, id, i) {
                let i = choose|i: int| left_open(stream, id, i);
                assert(left_open(before, id, i));
            }
            if exists|i: int| left_open(before, id, i) {
                let i = choose|i: int| left_open(before, id, i);
                assert(left_open(stream, id, i));
            }
        }
    }
}

proof fn positions_follow(stream: Seq<EventEnvelopeView>)
    requires
        well_formed(stream),
        stream.len() < u64::MAX,
    ensures
        replayed(stream).next_sequence == stream.len() + 1,
        replayed(stream).started == (stream.len() > 0),
        stream.len() > 0 ==> replayed(stream).run_id == Some(stream[0].run_id),
        stream.len() == 0 ==> replayed(stream).run_id is None,
        replayed(stream).terminal ==> exists|i: int|
            0 <= i < stream.len() && concludes((#[trigger] stream[i]).event),
    decreases stream.len(),
{
    if stream.len() > 0 {
        let before = stream.drop_last();
        positions_follow(before);
        let n = stream.len() - 1;
        if stream.len() > 1 {
            assert(before[0] == stream[0]);
        }
        if replayed(before).terminal {
            let i = choose|i: int| 0 <= i < before.len() && concludes((#[trigger] before[i]).event);
            assert(stream[i] == before[i]);
        } else if replayed(stream).terminal {
            assert(concludes(stream[n].event));
        }
    }
}

/// A run in which everything that began has ended may end: the next event of that run that
/// concludes it is accepted, and the run is over.
pub proof fn completed_work_lets_runs_end(stream: Seq<EventEnvelopeView>, end: EventEnvelopeView)
    requires
        well_formed(stream),
        0 < stream.len() < u64::MAX,
        forall|i: int| 0 <= i < stream.len() ==> !concludes((#[trigger] stream[i]).event),
        forall|i: int|
            0 <= i < stream.len() && begins((#[trigger] stream[i]).event) ==> exists|j: int|
                i < j < stream.len() && ends((#[trigger] stream[j]).event) && stream[j].operation_id
                    == stream[i].operation_id,
        concludes(end.event),
        end.schema_version == 1,
        end.run_id == stream[0].run_id,
        end.sequence == stream.len() + 1,
    ensures
        well_formed(stream.push(end)),
        replayed(stream.push(end)).terminal,
{
    positions_follow(stream);
    let state = replayed(stream);
    assert forall|id: Seq<char>| !state.active.dom().contains(id) by {
        active_is_what_was_left_open(stream, id);
        if exists|i: int| left_open(stream, id, i) {
            let i = choose|i: int| left_open(stream, id, i);
            let j = choose|j: int|
                i < j < stream.len() && ends((#[trigger] stream[j]).event)
                    && stream[j].operation_id == stream[i].operation_id;
            assert(stream[j].operation_id == Some(id));
        }
    }
    assert(stream.push(end).drop_last() =~= stream);
    runs_end_where_nothing_is_active(state, end);
}

/// A run in which something is still open does not end.
pub proof fn open_work_keeps_runs_open(
    stream: Seq<EventEnvelopeView>,
    end: EventEnvelopeView,
    id: Seq<char>,
    i: int,
)
    requires
        well_formed(stream),
        left_open(stream, id, i),
        concludes(end.event),
    ensures
        !well_formed(stream.push(end)),
{
    active_is_what_was_left_open(stream, id);
    assert(stream.push(end).drop_last() =~= stream);
    assert(replayed(stream).active.dom().contains(id));
}

} // verus!
