//! What holds of batches of events.

use crate::error::ErrorView;
use crate::event_log::{
    EntityRef, EventEnvelope, EventPosition, EventRow, EventSource, Returned, StoredEvent,
};
use crate::events::RuntimeEvent;
use crate::sql::SqlView;
use crate::value::{SqlType, ValueView};
use vstd::prelude::*;

verus! {

/// The chunks of a batch, one after the other, from the events that were
/// inserted on.
pub open spec fn chunks(events: Seq<EventEnvelope>, inserted: int) -> Seq<EventEnvelope>
    decreases events.len() - inserted,
{
    if inserted < 0 || inserted >= events.len() {
        Seq::empty()
    } else {
        let next = inserted + crate::event_log::chunk_len(events.len() as int, inserted);
        events.subrange(inserted, next) + chunks(events, next)
    }
}

proof fn chunks_make_up_the_rest(events: Seq<EventEnvelope>, inserted: int)
    requires
        0 <= inserted <= events.len(),
    ensures
        chunks(events, inserted) == events.skip(inserted),
    decreases events.len() - inserted,
{
    if inserted < events.len() {
        let next = inserted + crate::event_log::chunk_len(events.len() as int, inserted);
        chunks_make_up_the_rest(events, next);
        assert(events.subrange(inserted, next) + events.skip(next) =~= events.skip(inserted));
    } else {
        assert(events.skip(inserted) =~= Seq::empty());
    }
}

/// The chunks of a batch hold every event of it once, in its order.
pub proof fn chunks_make_up_the_batch(events: Seq<EventEnvelope>)
    ensures
        chunks(events, 0) == events,
{
    chunks_make_up_the_rest(events, 0);
    assert(events.skip(0) =~= events);
}

/// An event that was answered has a position, and it is one that was answered
/// for it.
pub proof fn an_answered_event_has_its_position(returned: Seq<Returned>, id: Seq<char>, i: int)
    requires
        0 <= i < returned.len(),
        returned[i].event_id@ == id,
    ensures
        crate::event_log::position_for(returned, id) is Some,
        exists|j: int|
            0 <= j < returned.len() && (#[trigger] returned[j]).event_id@ == id
                && crate::event_log::position_for(returned, id) == Some(returned[j].position),
    decreases returned.len(),
{
    if returned.last().event_id@ != id {
        let rest = returned.drop_last();
        an_answered_event_has_its_position(rest, id, i);
        let j = choose|j: int|
            0 <= j < rest.len() && (#[trigger] rest[j]).event_id@ == id
                && crate::event_log::position_for(rest, id) == Some(rest[j].position);
        assert(returned[j] == rest[j]);
    } else {
        assert(returned[returned.len() - 1] == returned.last());
    }
}

/// A batch whose every event was answered gets all its positions: none is
/// missing.
pub proof fn an_answered_batch_has_all_positions(
    events: Seq<EventEnvelope>,
    returned: Seq<Returned>,
    missing: int,
)
    requires
        forall|i: int|
            0 <= i < events.len() ==> exists|j: int|
                0 <= j < returned.len() && #[trigger] returned[j].event_id@ == (
                #[trigger] events[i]).event_id@,
    ensures
        !crate::event_log::is_first_missing(returned, events, missing),
{
    if crate::event_log::is_first_missing(returned, events, missing) {
        let j = choose|j: int|
            0 <= j < returned.len() && #[trigger] returned[j].event_id@
                == events[missing].event_id@;
        an_answered_event_has_its_position(returned, events[missing].event_id@, j);
    }
}

/// The columns in which an event is read, as they are written.
pub open spec fn read_columns() -> Seq<char> {
    "position, event_id, source_type, source_meta, ownership, causation_id, correlation_id, payload, stored_at"@
}

proof fn first_numbers()
    ensures
        crate::text::decimal(1) == "1"@,
        crate::text::decimal(2) == "2"@,
        crate::text::decimal(3) == "3"@,
{
    reveal_strlit("1");
    reveal_strlit("2");
    reveal_strlit("3");
    assert(crate::text::decimal(1) =~= "1"@);
    assert(crate::text::decimal(2) =~= "2"@);
    assert(crate::text::decimal(3) =~= "3"@);
}

proof fn head_of_the_queries()
    ensures
        "SELECT position, event_id, source_type, source_meta, ownership, causation_id, correlation_id, payload, stored_at FROM event_log WHERE position > "@
            == "SELECT "@ + read_columns() + " FROM event_log WHERE "@ + "position > "@,
{
    reveal_strlit(
        "SELECT position, event_id, source_type, source_meta, ownership, causation_id, correlation_id, payload, stored_at FROM event_log WHERE position > ",
    );
    reveal_strlit(
        "position, event_id, source_type, source_meta, ownership, causation_id, correlation_id, payload, stored_at",
    );
    reveal_strlit("SELECT ");
    reveal_strlit(" FROM event_log WHERE ");
    reveal_strlit("position > ");
    assert("SELECT position, event_id, source_type, source_meta, ownership, causation_id, correlation_id, payload, stored_at FROM event_log WHERE position > "@
        =~= "SELECT "@ + read_columns() + " FROM event_log WHERE "@ + "position > "@);
}

/// The log is read from the events after a position on, in the order of their
/// positions, and no more of them than asked for. Reading from the start asks for
/// the positions above zero.
pub proof fn the_log_is_read_in_order(after: Option<EventPosition>, limit: usize)
    ensures
        ({
            let query = crate::event_log::stream_query(after, limit);
            &&& query.text == "SELECT "@ + read_columns() + " FROM event_log WHERE "@
                + "position > "@ + "$"@ + "1"@ + " ORDER BY position ASC LIMIT "@ + "$"@ + "2"@
            &&& query.params.len() == 2
            &&& after is None ==> query.params[0] == ValueView::Int8(0)
            &&& after is Some && after->Some_0.0 <= i64::MAX ==> query.params[0]
                == ValueView::Int8(after->Some_0.0 as i64)
            &&& query.params[1] == ValueView::Int8(limit as i64)
        }),
{
    first_numbers();
    head_of_the_queries();
    assert(Seq::<char>::empty() + (
    "SELECT "@ + read_columns() + " FROM event_log WHERE "@ + "position > "@) =~= "SELECT "@
        + read_columns() + " FROM event_log WHERE "@ + "position > "@);
}

/// The events about a thing are those after a position whose payload holds its id
/// in the field of its kind. They are read in the order of the log, and no more
/// of them than asked for.
pub proof fn the_events_about_a_thing_are_read_in_order(
    entity: EntityRef,
    after: Option<EventPosition>,
    limit: usize,
)
    ensures
        ({
            let query = crate::event_log::entity_query(entity, after, limit);
            let (field, id) = match entity {
                EntityRef::Session(id) => ("session_id"@, id@),
                EntityRef::Run(id) => ("run_id"@, id@),
                EntityRef::Task(id) => ("task_id"@, id@),
                EntityRef::Approval(id) => ("approval_id"@, id@),
                EntityRef::Checkpoint(id) => ("checkpoint_id"@, id@),
                EntityRef::Mailbox(id) => ("message_id"@, id@),
                EntityRef::ToolInvocation(id) => ("invocation_id"@, id@),
                EntityRef::Signal(id) => ("signal_id"@, id@),
                EntityRef::IngestJob(id) => ("job_id"@, id@),
                EntityRef::EvalRun(id) => ("eval_run_id"@, id@),
                EntityRef::PromptAsset(id) => ("prompt_asset_id"@, id@),
                EntityRef::PromptVersion(id) => ("prompt_version_id"@, id@),
                EntityRef::PromptRelease(id) => ("prompt_release_id"@, id@),
            };
            &&& query.text == "SELECT "@ + read_columns() + " FROM event_log WHERE "@
                + "position > "@ + "$"@ + "1"@ + " AND payload->>'"@ + field + "' = "@ + "$"@
                + "2"@ + " ORDER BY position ASC LIMIT "@ + "$"@ + "3"@
            &&& query.params.len() == 3
            &&& after is None ==> query.params[0] == ValueView::Int8(0)
            &&& after is Some && after->Some_0.0 <= i64::MAX ==> query.params[0]
                == ValueView::Int8(after->Some_0.0 as i64)
            &&& query.params[1] == ValueView::Text(id)
            &&& query.params[2] == ValueView::Int8(limit as i64)
        }),
{
    first_numbers();
    head_of_the_queries();
    assert(Seq::<char>::empty() + (
    "SELECT "@ + read_columns() + " FROM event_log WHERE "@ + "position > "@) =~= "SELECT "@
        + read_columns() + " FROM event_log WHERE "@ + "position > "@);
}

/// An event that a command caused is found by the command's id.
pub proof fn an_event_is_found_by_its_cause(causation_id: Seq<char>)
    ensures
        ({
            let query = crate::event_log::causation_query(causation_id);
            &&& query.text == "SELECT position FROM event_log WHERE causation_id = "@ + "$"@ + "1"@
                + " LIMIT 1"@
            &&& query.params == seq![ValueView::Text(causation_id)]
        }),
{
    first_numbers();
    assert(Seq::<char>::empty() + "SELECT position FROM event_log WHERE causation_id = "@
        =~= "SELECT position FROM event_log WHERE causation_id = "@);
    assert(crate::event_log::causation_query(causation_id).params =~= seq![
        ValueView::Text(causation_id),
    ]);
}

/// The values of an event stand in the order of the columns that an insert names:
/// its id, the kind of its source, its source, its owner, what caused it, what it
/// belongs with, its payload and the time.
pub proof fn the_values_of_an_event_stand_in_order(sql: SqlView, e: EventEnvelope, now: i64)
    ensures
        ({
            let n = sql.params.len();
            let values = sql.event_values(e, now);
            &&& values.text == sql.text + "("@ + "$"@ + crate::text::decimal(n + 1) + ", "@ + "$"@
                + crate::text::decimal(n + 2) + ", "@ + "$"@ + crate::text::decimal(n + 3) + ", "@
                + "$"@ + crate::text::decimal(n + 4) + ", "@ + "$"@ + crate::text::decimal(n + 5)
                + ", "@ + "$"@ + crate::text::decimal(n + 6) + ", "@ + "$"@ + crate::text::decimal(
                n + 7,
            ) + ", "@ + "$"@ + crate::text::decimal(n + 8) + ")"@
            &&& values.params.len() == n + 8
            &&& values.params[n as int] == ValueView::Text(e.event_id@)
            &&& values.params[(n + 1) as int] == ValueView::Text(
                match e.source {
                    EventSource::Operator { .. } => "operator"@,
                    EventSource::Runtime => "runtime"@,
                    EventSource::Scheduler => "scheduler"@,
                    EventSource::ExternalWorker { .. } => "external_worker"@,
                    EventSource::System => "system"@,
                },
            )
            &&& values.params[(n + 2) as int] == ValueView::Json(e.source_json@)
            &&& values.params[(n + 3) as int] == ValueView::Json(e.ownership_json@)
            &&& values.params[(n + 4) as int] == match e.causation_id {
                Some(id) => ValueView::Text(id@),
                None => ValueView::Null(SqlType::Text),
            }
            &&& values.params[(n + 5) as int] == match e.correlation_id {
                Some(id) => ValueView::Text(id@),
                None => ValueView::Null(SqlType::Text),
            }
            &&& values.params[(n + 6) as int] == ValueView::Json(e.payload_json@)
            &&& values.params[(n + 7) as int] == ValueView::Int8(now)
        }),
{
}

/// A batch is inserted by chunks of up to a hundred events: an insert names the
/// columns, holds the values of each event of the chunk in turn, and asks for the
/// position and the id of each.
pub proof fn a_chunk_is_one_insert(events: Seq<EventEnvelope>, now: i64, total: int, inserted: int)
    requires
        0 <= inserted < total,
    ensures
        crate::event_log::chunk_insert(events, now).text == SqlView::new().text(
            "INSERT INTO event_log (event_id, source_type, source_meta, ownership, causation_id, correlation_id, payload, stored_at) VALUES "@,
        ).events_values(events, events.len(), now).text + " RETURNING position, event_id"@,
        crate::event_log::chunk_len(total, inserted) == if total - inserted < 100 {
            total - inserted
        } else {
            100
        },
{
}

/// How a batch is refused: by the first id that stands in it twice, by a chunk or
/// a batch that was not answered in full, or by an event that was not answered.
pub proof fn the_refusals_of_a_batch(id: Seq<char>, returned: nat, events: nat)
    ensures
        crate::event_log::duplicate_id(id) == ErrorView::Internal(
            "duplicate event_id "@ + id + " in single append batch"@,
        ),
        crate::event_log::chunk_mismatch(returned, events) == ErrorView::Internal(
            "event_log batch INSERT returned "@ + crate::text::decimal(returned) + " rows for "@
                + crate::text::decimal(events) + " events in chunk"@,
        ),
        crate::event_log::batch_mismatch(returned, events) == ErrorView::Internal(
            "event_log batch INSERT returned "@ + crate::text::decimal(returned) + " rows for "@
                + crate::text::decimal(events) + " events"@,
        ),
        crate::event_log::not_returned(id) == ErrorView::Internal(
            "event_log batch INSERT did not return event_id "@ + id,
        ),
{
}

/// Where an id was answered twice, the later answer counts, and an answer for one
/// id says nothing of another.
pub proof fn the_last_answer_counts(returned: Seq<Returned>, answer: Returned, id: Seq<char>)
    ensures
        crate::event_log::position_for(returned.push(answer), answer.event_id@) == Some(
            answer.position,
        ),
        id != answer.event_id@ ==> crate::event_log::position_for(returned.push(answer), id)
            == crate::event_log::position_for(returned, id),
        crate::event_log::position_for(Seq::empty(), id) is None,
{
    assert(returned.push(answer).drop_last() =~= returned);
}

/// A batch in which two events have one id has a first event that repeats an id,
/// and it is none after them.
pub proof fn a_repeated_id_is_found(ids: Seq<Seq<char>>, j: int, k: int)
    requires
        0 <= j < k < ids.len(),
        ids[j] == ids[k],
    ensures
        exists|i: int| #[trigger] crate::event_log::is_first_repeat(ids, i) && i <= k,
    decreases k,
{
    assert(crate::event_log::repeats_earlier(ids, k));
    if !crate::event_log::is_first_repeat(ids, k) {
        let earlier = choose|i: int|
            0 <= i < k && #[trigger] crate::event_log::repeats_earlier(ids, i);
        let same = choose|i: int| 0 <= i < earlier && #[trigger] ids[i] == ids[earlier];
        a_repeated_id_is_found(ids, same, earlier);
    }
}

/// The first event that repeats an id has the id of an event before it, and no two
/// events before it have one id.
pub proof fn the_first_repeat_is_a_repeat(ids: Seq<Seq<char>>, i: int)
    requires
        crate::event_log::is_first_repeat(ids, i),
    ensures
        exists|j: int| 0 <= j < i && #[trigger] ids[j] == ids[i],
        forall|a: int, b: int| 0 <= a < b < i ==> #[trigger] ids[a] != #[trigger] ids[b],
{
    assert forall|a: int, b: int| 0 <= a < b < i implies #[trigger] ids[a]
        != #[trigger] ids[b] by {
        assert(!crate::event_log::repeats_earlier(ids, b));
    }
}

/// A row of the log with a column that did not decode holds no event: the decoder's
/// message is passed on, of the source before the owner and of the owner before the
/// payload.
pub proof fn a_column_that_did_not_decode_is_refused(row: EventRow, message: String)
    ensures
        row.source == Err::<EventSource, String>(message) ==> row.event() == Err::<
            StoredEvent,
            ErrorView,
        >(ErrorView::Serialization(message@)),
        row.source is Ok && row.ownership == Err::<(), String>(message) ==> row.event() == Err::<
            StoredEvent,
            ErrorView,
        >(ErrorView::Serialization(message@)),
        row.source is Ok && row.ownership is Ok && row.payload == Err::<RuntimeEvent, String>(
            message,
        ) ==> row.event() == Err::<StoredEvent, ErrorView>(ErrorView::Serialization(message@)),
        row.source is Ok && row.ownership is Ok && row.payload is Ok ==> row.event() is Ok,
{
}

/// The values of the events of a chunk stand one after the other, separated by
/// commas, in the order of the events.
pub proof fn the_events_of_a_chunk_stand_in_order(
    sql: SqlView,
    events: Seq<EventEnvelope>,
    n: nat,
    now: i64,
)
    requires
        n < events.len(),
    ensures
        ({
            let before = sql.events_values(events, n, now);
            let after = sql.events_values(events, n + 1, now);
            &&& sql.events_values(events, 0, now) == sql
            &&& n == 0 ==> after == before.event_values(events[0], now)
            &&& n > 0 ==> after == (SqlView {
                text: before.text + ", "@,
                params: before.params,
            }).event_values(events[n as int], now)
        }),
{
}

} // verus!
