//! What sequencing makes of an event, told from the event.
use crate::events;
use crate::events::{
    Authority, EventView, ProducerEventView, ProducerView, ProtocolError, Visibility,
};
use crate::text;
use vstd::prelude::*;
use vstd::string::*;

verus! {

/// A new event is of the first schema, belongs to its run and to nothing else yet, was observed,
/// and is meant for the user.
pub proof fn events_begin_bare(
    run_id: Seq<char>,
    producer: ProducerView,
    event: EventView,
    at_ms: u64,
)
    ensures
        ({
            let e = events::emitted(run_id, producer, event, at_ms);
            &&& e.schema_version == 1
            &&& e.run_id == run_id
            &&& e.task_id is None
            &&& e.turn_id is None
            &&& e.operation_id is None
            &&& e.parent_operation_id is None
            &&& e.producer_sequence is None
            &&& e.emitted_at_unix_ms == at_ms
            &&& e.producer == producer
            &&& e.authority == Authority::Observed
            &&& e.visibility == Visibility::User
            &&& e.event == event
        }),
{
}

/// Sequencing adds an identity and a number and changes nothing that the producer said.
pub proof fn sequencing_only_numbers(frame: ProducerEventView, sequence: u64)
    ensures
        ({
            let e = events::sequenced(frame, sequence);
            &&& e.schema_version == 1
            &&& e.sequence == sequence
            &&& e.run_id == frame.run_id
            &&& e.task_id == frame.task_id
            &&& e.turn_id == frame.turn_id
            &&& e.operation_id == frame.operation_id
            &&& e.parent_operation_id == frame.parent_operation_id
            &&& e.producer_sequence == frame.producer_sequence
            &&& e.emitted_at_unix_ms == frame.emitted_at_unix_ms
            &&& e.producer == frame.producer
            &&& e.authority == frame.authority
            &&& e.visibility == frame.visibility
            &&& e.event == frame.event
        }),
{
}

/// An event's identity is its run, a colon and twenty digits that spell its number.
pub proof fn identities_spell_their_number(run_id: Seq<char>, sequence: u64)
    ensures
        ({
            let id = events::event_identity(run_id, sequence);
            let n = run_id.len() as int;
            &&& id.len() == n + 21
            &&& id.take(n) == run_id
            &&& id[n] == ':'
            &&& text::number(id.skip(n + 1)) == sequence
        }),
{
    let digits = text::decimal(sequence as nat);
    let padded = text::zero_padded(digits, 20);
    let id = events::event_identity(run_id, sequence);
    assert(vstd::arithmetic::power::pow(10, 20) == 100000000000000000000) by {
        reveal_with_fuel(vstd::arithmetic::power::pow, 21);
    }
    text::decimal_is_short(sequence as nat, 100000000000000000000, 20);
    reveal_strlit(":");
    assert(id.take(run_id.len() as int) =~= run_id);
    assert(id.skip((run_id.len() + 1) as int) =~= padded);
    text::decimal_spells(sequence as nat);
    text::padding_keeps_the_number(digits, (20 - digits.len()) as nat);
    assert(text::repeated('0', 0) + digits =~= digits);
}

/// Numbers go up by one until there is no next one.
pub proof fn numbers_go_up(n: u64)
    ensures
        n < u64::MAX ==> events::successor(n) == n + 1,
        n == u64::MAX ==> events::successor(n) == n,
{
}

/// A time that is known and small enough is kept; any other is zero.
pub proof fn times_are_kept(ms: u128)
    ensures
        ms <= u64::MAX ==> events::time_stamp(Some(ms)) == ms,
        ms > u64::MAX ==> events::time_stamp(Some(ms)) == 0,
        events::time_stamp(None) == 0,
{
}

/// A refusal names the schema, or both runs.
pub proof fn refusals_are_told(version: u16, expected: String, actual: String)
    ensures
        ProtocolError::UnsupportedSchema(version).text() == "unsupported event schema version "@
            + text::decimal(version as nat),
        (ProtocolError::RunMismatch { expected, actual }).text() == "event run mismatch: expected "@
            + expected@ + ", got "@ + actual@,
{
}

} // verus!
