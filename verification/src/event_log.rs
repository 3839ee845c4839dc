//! The event log: how a batch is appended and how events are read back.

use crate::error::{ErrorView, StoreError};
use crate::events::RuntimeEvent;
use crate::plan::Moment;
use crate::sql::{Sql, SqlView};
use crate::text::push_decimal;
use crate::value::{json, opt_text, text, SqlValue, ValueView};
use vstd::prelude::*;
use vstd::string::*;

verus! {

/// How many events one insert holds at most.
pub const BATCH_INSERT_CHUNK: usize = 100;

/// A position in the event log.
#[derive(Clone, Copy, Debug, PartialEq, Eq, Structural)]
pub struct EventPosition(pub u64);

/// Where an event comes from.
#[derive(Debug, PartialEq, Eq)]
pub enum EventSource {
    Operator { operator_id: String },
    Runtime,
    Scheduler,
    ExternalWorker { worker: String },
    System,
}

impl EventSource {
    /// The name of the kind of source.
    pub open spec fn spec_type(self) -> Seq<char> {
        match self {
            EventSource::Operator { .. } => "operator"@,
            EventSource::Runtime => "runtime"@,
            EventSource::Scheduler => "scheduler"@,
            EventSource::ExternalWorker { .. } => "external_worker"@,
            EventSource::System => "system"@,
        }
    }
}

/// The name of the kind of source.
pub fn source_type_str(source: &EventSource) -> (r: &'static str)
    ensures
        r@ == source.spec_type(),
{
    match source {
        EventSource::Operator { .. } => "operator",
        EventSource::Runtime => "runtime",
        EventSource::Scheduler => "scheduler",
        EventSource::ExternalWorker { .. } => "external_worker",
        EventSource::System => "system",
    }
}

/// An event with what is logged beside it. The JSON texts are the encodings of
/// the source, of the owner and of the payload.
#[derive(Debug, PartialEq, Eq)]
pub struct EventEnvelope {
    pub event_id: String,
    pub source: EventSource,
    pub source_json: String,
    pub ownership_json: String,
    pub causation_id: Option<String>,
    pub correlation_id: Option<String>,
    pub payload: RuntimeEvent,
    pub payload_json: String,
}

/// An event that was read from the log.
#[derive(Debug, PartialEq, Eq)]
pub struct StoredEvent {
    pub position: EventPosition,
    pub envelope: EventEnvelope,
    pub stored_at: u64,
}

/// The thing that an event is about.
#[derive(Debug, PartialEq, Eq)]
pub enum EntityRef {
    Session(String),
    Run(String),
    Task(String),
    Approval(String),
    Checkpoint(String),
    Mailbox(String),
    ToolInvocation(String),
    Signal(String),
    IngestJob(String),
    EvalRun(String),
    PromptAsset(String),
    PromptVersion(String),
    PromptRelease(String),
}

impl EntityRef {
    /// Whether two things are of one kind.
    pub open spec fn same_kind(self, other: EntityRef) -> bool {
        match (self, other) {
            (EntityRef::Session(_), EntityRef::Session(_)) => true,
            (EntityRef::Run(_), EntityRef::Run(_)) => true,
            (EntityRef::Task(_), EntityRef::Task(_)) => true,
            (EntityRef::Approval(_), EntityRef::Approval(_)) => true,
            (EntityRef::Checkpoint(_), EntityRef::Checkpoint(_)) => true,
            (EntityRef::Mailbox(_), EntityRef::Mailbox(_)) => true,
            (EntityRef::ToolInvocation(_), EntityRef::ToolInvocation(_)) => true,
            (EntityRef::Signal(_), EntityRef::Signal(_)) => true,
            (EntityRef::IngestJob(_), EntityRef::IngestJob(_)) => true,
            (EntityRef::EvalRun(_), EntityRef::EvalRun(_)) => true,
            (EntityRef::PromptAsset(_), EntityRef::PromptAsset(_)) => true,
            (EntityRef::PromptVersion(_), EntityRef::PromptVersion(_)) => true,
            (EntityRef::PromptRelease(_), EntityRef::PromptRelease(_)) => true,
            _ => false,
        }
    }

    /// The payload field that names the thing, and its id.
    pub open spec fn filter(self) -> (Seq<char>, Seq<char>) {
        match self {
            EntityRef::Session(id) => ("session_id"@, id@),
            EntityRef::Run(id) => ("run_id"@, id@),
            EntityRef::Task(id) => ("task_id"@, id@),
            EntityRef::Approval(id) => ("approval_id"@, id@),
            EntityRef::Checkpoint(id) => ("checkpoint_id"@, id@),
            EntityRef::Mailbox(id) => ("message_id"@, id@),
            EntityRef::ToolInvocation(id) => ("invocation_id"@, id@),
            EntityRef::Signal(id) => ("signal_id"@, id@),
            EntityRef::IngestJob(id) => ("job_id"@, id@),
            EntityRef::EvalRun(id) => ("eval_run_id"@, id@),
            EntityRef::PromptAsset(id) => ("prompt_asset_id"@, id@),
            EntityRef::PromptVersion(id) => ("prompt_version_id"@, id@),
            EntityRef::PromptRelease(id) => ("prompt_release_id"@, id@),
        }
    }
}

/// The payload field that names the thing, and its id.
pub fn entity_ref_filter(entity: &EntityRef) -> (r: (&'static str, String))
    ensures
        (r.0@, r.1@) == entity.filter(),
{
    match entity {
        EntityRef::Session(id) => ("session_id", id.clone()),
        EntityRef::Run(id) => ("run_id", id.clone()),
        EntityRef::Task(id) => ("task_id", id.clone()),
        EntityRef::Approval(id) => ("approval_id", id.clone()),
        EntityRef::Checkpoint(id) => ("checkpoint_id", id.clone()),
        EntityRef::Mailbox(id) => ("message_id", id.clone()),
        EntityRef::ToolInvocation(id) => ("invocation_id", id.clone()),
        EntityRef::Signal(id) => ("signal_id", id.clone()),
        EntityRef::IngestJob(id) => ("job_id", id.clone()),
        EntityRef::EvalRun(id) => ("eval_run_id", id.clone()),
        EntityRef::PromptAsset(id) => ("prompt_asset_id", id.clone()),
        EntityRef::PromptVersion(id) => ("prompt_version_id", id.clone()),
        EntityRef::PromptRelease(id) => ("prompt_release_id", id.clone()),
    }
}

/// Each kind of thing is found by the payload field that holds its id, and the
/// id is looked for as it is given.
pub proof fn a_thing_is_found_by_its_own_field(entity: EntityRef)
    ensures
        match entity {
            EntityRef::Session(id) => entity.filter() == ("session_id"@, id@),
            EntityRef::Run(id) => entity.filter() == ("run_id"@, id@),
            EntityRef::Task(id) => entity.filter() == ("task_id"@, id@),
            EntityRef::Approval(id) => entity.filter() == ("approval_id"@, id@),
            EntityRef::Checkpoint(id) => entity.filter() == ("checkpoint_id"@, id@),
            EntityRef::Mailbox(id) => entity.filter() == ("message_id"@, id@),
            EntityRef::ToolInvocation(id) => entity.filter() == ("invocation_id"@, id@),
            EntityRef::Signal(id) => entity.filter() == ("signal_id"@, id@),
            EntityRef::IngestJob(id) => entity.filter() == ("job_id"@, id@),
            EntityRef::EvalRun(id) => entity.filter() == ("eval_run_id"@, id@),
            EntityRef::PromptAsset(id) => entity.filter() == ("prompt_asset_id"@, id@),
            EntityRef::PromptVersion(id) => entity.filter() == ("prompt_version_id"@, id@),
            EntityRef::PromptRelease(id) => entity.filter() == ("prompt_release_id"@, id@),
        },
{
}

/// Things of two kinds are never found by the same payload field.
pub proof fn things_of_two_kinds_have_two_fields(one: EntityRef, other: EntityRef)
    ensures
        one.filter().0 == other.filter().0 ==> one.same_kind(other),
{
    reveal_strlit("session_id");
    reveal_strlit("run_id");
    reveal_strlit("task_id");
    reveal_strlit("approval_id");
    reveal_strlit("checkpoint_id");
    reveal_strlit("message_id");
    reveal_strlit("invocation_id");
    reveal_strlit("signal_id");
    reveal_strlit("job_id");
    reveal_strlit("eval_run_id");
    reveal_strlit("prompt_asset_id");
    reveal_strlit("prompt_version_id");
    reveal_strlit("prompt_release_id");
    if one.filter().0 == other.filter().0 && !one.same_kind(other) {
        let a = one.filter().0;
        let b = other.filter().0;
        assert(a.len() == b.len());
        assert(a[0] == b[0]);
        assert(a[1] == b[1]);
        assert(a[2] == b[2]);
        assert(a[7] == b[7] || a.len() < 8);
    }
}

/// The ids of events, in order.
pub open spec fn event_ids(events: Seq<EventEnvelope>) -> Seq<Seq<char>> {
    events.map_values(|e: EventEnvelope| e.event_id@)
}

/// Whether the event at `i` repeats an id of an event before it.
pub open spec fn repeats_earlier(ids: Seq<Seq<char>>, i: int) -> bool {
    exists|j: int| 0 <= j < i && #[trigger] ids[j] == ids[i]
}

/// The first event that repeats an id, if one does.
pub open spec fn is_first_repeat(ids: Seq<Seq<char>>, i: int) -> bool {
    &&& 0 <= i < ids.len()
    &&& repeats_earlier(ids, i)
    &&& forall|k: int| 0 <= k < i ==> !#[trigger] repeats_earlier(ids, k)
}

/// The message about a repeated id.
pub open spec fn duplicate_id(id: Seq<char>) -> ErrorView {
    ErrorView::Internal("duplicate event_id "@ + id + " in single append batch"@)
}

fn repeats(events: &Vec<EventEnvelope>, i: usize) -> (r: bool)
    requires
        i < events.len(),
    ensures
        r == repeats_earlier(event_ids(events@), i as int),
{
    let ghost ids = event_ids(events@);
    let mut j: usize = 0;
    while j < i
        invariant
            j <= i < events.len(),
            ids == event_ids(events@),
            forall|k: int| 0 <= k < j ==> #[trigger] ids[k] != ids[i as int],
        decreases i - j,
    {
        if events[j].event_id == events[i].event_id {
            assert(ids[j as int] == ids[i as int]);
            return true;
        }
        assert(ids[j as int] != ids[i as int]);
        j = j + 1;
    }
    false
}

/// Refuses a batch in which an id occurs twice, and names the first such id.
pub fn check_batch(events: &Vec<EventEnvelope>) -> (r: Result<(), StoreError>)
    ensures
        match r {
            Ok(_) => event_ids(events@).no_duplicates(),
            Err(e) => exists|i: int|
                #[trigger] is_first_repeat(event_ids(events@), i) && e@ == duplicate_id(
                    event_ids(events@)[i],
                ),
        },
{
    let ghost ids = event_ids(events@);
    let mut i: usize = 0;
    while i < events.len()
        invariant
            i <= events.len(),
            ids == event_ids(events@),
            forall|k: int| 0 <= k < i ==> !#[trigger] repeats_earlier(ids, k),
        decreases events.len() - i,
    {
        if repeats(events, i) {
            let mut message: String = "duplicate event_id ".to_owned();
            message.append(&events[i].event_id);
            message.append(" in single append batch");
            assert(is_first_repeat(ids, i as int));
            return Err(StoreError::Internal(message));
        }
        i = i + 1;
    }
    assert forall|a: int, b: int| 0 <= a < ids.len() && 0 <= b < ids.len() && a != b implies ids[a]
        != ids[b] by {
        if a < b {
            assert(!repeats_earlier(ids, b));
        } else {
            assert(!repeats_earlier(ids, a));
        }
    }
    Ok(())
}

/// How many values are bound for one logged event.
pub const EVENT_VALUES: usize = 8;

impl SqlView {
    /// With the values of one logged event.
    pub open spec fn event_values(self, e: EventEnvelope, now: i64) -> SqlView {
        self.text("("@)
            .param(ValueView::Text(e.event_id@))
            .text(", "@)
            .param(ValueView::Text(e.source.spec_type()))
            .text(", "@)
            .param(ValueView::Json(e.source_json@))
            .text(", "@)
            .param(ValueView::Json(e.ownership_json@))
            .text(", "@)
            .param(ValueView::opt_text(e.causation_id))
            .text(", "@)
            .param(ValueView::opt_text(e.correlation_id))
            .text(", "@)
            .param(ValueView::Json(e.payload_json@))
            .text(", "@)
            .param(ValueView::Int8(now))
            .text(")"@)
    }

    /// With the values of the first `n` events, separated by commas.
    pub open spec fn events_values(self, events: Seq<EventEnvelope>, n: nat, now: i64) -> SqlView
        decreases n,
    {
        if n == 0 {
            self
        } else {
            self.events_values(events, (n - 1) as nat, now).comma((n - 1) as nat).event_values(
                events[n - 1],
                now,
            )
        }
    }
}

/// The insert of a chunk of events, which answers with the position and the id
/// of each.
pub open spec fn chunk_insert(events: Seq<EventEnvelope>, now: i64) -> SqlView {
    SqlView::new().text(
        "INSERT INTO event_log (event_id, source_type, source_meta, ownership, causation_id, correlation_id, payload, stored_at) VALUES "@,
    ).events_values(events, events.len(), now).text(" RETURNING position, event_id"@)
}

impl Sql {
    fn event_values(&mut self, e: &EventEnvelope, now: i64)
        ensures
            final(self)@ == old(self)@.event_values(*e, now),
    {
        self.text("(");
        self.param(text(&e.event_id));
        self.text(", ");
        self.param(text(source_type_str(&e.source)));
        self.text(", ");
        self.param(json(&e.source_json));
        self.text(", ");
        self.param(json(&e.ownership_json));
        self.text(", ");
        self.param(opt_text(&e.causation_id));
        self.text(", ");
        self.param(opt_text(&e.correlation_id));
        self.text(", ");
        self.param(json(&e.payload_json));
        self.text(", ");
        self.param(SqlValue::Int8(now));
        self.text(")");
    }
}

/// What the database answered with for an inserted event.
#[derive(Debug, PartialEq, Eq)]
pub struct Returned {
    pub position: i64,
    pub event_id: String,
}

/// A batch that is being appended: how many of its events were inserted, and
/// what the database answered with.
#[derive(Debug, PartialEq, Eq)]
pub struct Append {
    pub inserted: usize,
    pub returned: Vec<Returned>,
}

/// How many events the next chunk of a batch holds.
pub open spec fn chunk_len(total: int, inserted: int) -> int {
    if total - inserted < BATCH_INSERT_CHUNK {
        total - inserted
    } else {
        BATCH_INSERT_CHUNK as int
    }
}

/// The message about a chunk for which not every event was answered.
pub open spec fn chunk_mismatch(returned: nat, chunk: nat) -> ErrorView {
    ErrorView::Internal(
        "event_log batch INSERT returned "@ + crate::text::decimal(returned) + " rows for "@
            + crate::text::decimal(chunk) + " events in chunk"@,
    )
}

/// The message about a batch for which not every event was answered.
pub open spec fn batch_mismatch(returned: nat, events: nat) -> ErrorView {
    ErrorView::Internal(
        "event_log batch INSERT returned "@ + crate::text::decimal(returned) + " rows for "@
            + crate::text::decimal(events) + " events"@,
    )
}

/// The message about an event that was not answered.
pub open spec fn not_returned(id: Seq<char>) -> ErrorView {
    ErrorView::Internal("event_log batch INSERT did not return event_id "@ + id)
}

/// The last position that was answered for an id, if one was.
pub open spec fn position_for(returned: Seq<Returned>, id: Seq<char>) -> Option<i64>
    decreases returned.len(),
{
    if returned.len() == 0 {
        None
    } else if returned.last().event_id@ == id {
        Some(returned.last().position)
    } else {
        position_for(returned.drop_last(), id)
    }
}

impl Append {
    /// Whether the batch of so many events can go on: what was inserted is part
    /// of the batch, and each inserted event was answered.
    pub open spec fn wf(self, total: int) -> bool {
        self.inserted <= total && self.returned@.len() == self.inserted
    }

    /// Starts appending a batch, or refuses one in which an id occurs twice.
    pub fn begin(events: &Vec<EventEnvelope>) -> (r: Result<Append, StoreError>)
        ensures
            match r {
                Ok(a) => {
                    &&& event_ids(events@).no_duplicates()
                    &&& a.wf(events@.len() as int)
                    &&& a.inserted == 0
                },
                Err(e) => exists|i: int|
                    #[trigger] is_first_repeat(event_ids(events@), i) && e@ == duplicate_id(
                        event_ids(events@)[i],
                    ),
            },
    {
        match check_batch(events) {
            Ok(_) => Ok(Append { inserted: 0, returned: Vec::new() }),
            Err(e) => Err(e),
        }
    }

    /// The insert of the next chunk; none once every event was inserted.
    pub fn next_chunk(&self, events: &Vec<EventEnvelope>, now: i64) -> (r: Option<Sql>)
        requires
            self.wf(events@.len() as int),
        ensures
            match r {
                None => self.inserted == events@.len(),
                Some(sql) => self.inserted < events@.len() && sql@ == chunk_insert(
                    events@.subrange(
                        self.inserted as int,
                        self.inserted + chunk_len(events@.len() as int, self.inserted as int),
                    ),
                    now,
                ),
            },
    {
        if self.inserted == events.len() {
            return None;
        }
        let rest: usize = events.len() - self.inserted;
        let n: usize = if rest < BATCH_INSERT_CHUNK {
            rest
        } else {
            BATCH_INSERT_CHUNK
        };
        let ghost chunk = events@.subrange(self.inserted as int, self.inserted + n);
        let mut out = Sql::new();
        out.text(
            "INSERT INTO event_log (event_id, source_type, source_meta, ownership, causation_id, correlation_id, payload, stored_at) VALUES ",
        );
        let ghost head = out@;
        let mut i: usize = 0;
        while i < n
            invariant
                i <= n,
                self.inserted + n <= events.len(),
                events.len() == events@.len(),
                chunk == events@.subrange(self.inserted as int, self.inserted + n),
                out@ == head.events_values(chunk, i as nat, now),
            decreases n - i,
        {
            out.comma(i);
            let next: usize = self.inserted + i;
            out.event_values(&events[next], now);
            i = i + 1;
        }
        out.text(" RETURNING position, event_id");
        Some(out)
    }

    /// Takes up what the database answered with for the chunk. Every event of
    /// the chunk has to be answered.
    pub fn accept(&mut self, events: &Vec<EventEnvelope>, answer: Vec<Returned>) -> (r: Result<
        (),
        StoreError,
    >)
        requires
            old(self).wf(events@.len() as int),
        ensures
            final(self).wf(events@.len() as int),
            ({
                let n = chunk_len(events@.len() as int, old(self).inserted as int);
                match r {
                    Ok(_) => {
                        &&& answer@.len() == n
                        &&& final(self).inserted == old(self).inserted + n
                        &&& final(self).returned@ == old(self).returned@ + answer@
                    },
                    Err(e) => {
                        &&& answer@.len() != n
                        &&& e@ == chunk_mismatch(answer@.len(), n as nat)
                        &&& *final(self) == *old(self)
                    },
                }
            }),
    {
        let rest: usize = events.len() - self.inserted;
        let n: usize = if rest < BATCH_INSERT_CHUNK {
            rest
        } else {
            BATCH_INSERT_CHUNK
        };
        if answer.len() != n {
            let mut message: String = "event_log batch INSERT returned ".to_owned();
            push_decimal(&mut message, answer.len() as u64);
            message.append(" rows for ");
            push_decimal(&mut message, n as u64);
            message.append(" events in chunk");
            return Err(StoreError::Internal(message));
        }
        let mut more = answer;
        self.returned.append(&mut more);
        self.inserted = self.inserted + n;
        Ok(())
    }

    /// The positions of the events, in the order of the batch, whatever order
    /// the database answered in.
    pub fn positions(&self, events: &Vec<EventEnvelope>) -> (r: Result<
        Vec<EventPosition>,
        StoreError,
    >)
        ensures
            match r {
                Ok(positions) => {
                    &&& self.returned@.len() == events@.len()
                    &&& positions@.len() == events@.len()
                    &&& forall|i: int|
                        0 <= i < events@.len() ==> match position_for(
                            self.returned@,
                            (#[trigger] events@[i]).event_id@,
                        ) {
                            Some(p) => positions@[i] == EventPosition(p as u64),
                            None => false,
                        }
                },
                Err(e) => {
                    ||| self.returned@.len() != events@.len() && e@ == batch_mismatch(
                        self.returned@.len(),
                        events@.len(),
                    )
                    ||| self.returned@.len() == events@.len() && exists|i: int|
                        #[trigger] is_first_missing(self.returned@, events@, i) && e@
                            == not_returned(events@[i].event_id@)
                },
            },
    {
        if self.returned.len() != events.len() {
            let mut message: String = "event_log batch INSERT returned ".to_owned();
            push_decimal(&mut message, self.returned.len() as u64);
            message.append(" rows for ");
            push_decimal(&mut message, events.len() as u64);
            message.append(" events");
            return Err(StoreError::Internal(message));
        }
        let mut out: Vec<EventPosition> = Vec::new();
        let mut i: usize = 0;
        while i < events.len()
            invariant
                i <= events.len(),
                self.returned@.len() == events@.len(),
                out@.len() == i,
                forall|k: int|
                    0 <= k < i ==> match position_for(
                        self.returned@,
                        (#[trigger] events@[k]).event_id@,
                    ) {
                        Some(p) => out@[k] == EventPosition(p as u64),
                        None => false,
                    },
            decreases events.len() - i,
        {
            match find_position(&self.returned, &events[i].event_id) {
                Some(p) => out.push(EventPosition(p as u64)),
                None => {
                    let mut message: String =
                        "event_log batch INSERT did not return event_id ".to_owned();
                    message.append(&events[i].event_id);
                    assert(is_first_missing(self.returned@, events@, i as int));
                    return Err(StoreError::Internal(message));
                },
            }
            i = i + 1;
        }
        Ok(out)
    }
}

/// Whether the event at `i` is the first that was not answered.
pub open spec fn is_first_missing(
    returned: Seq<Returned>,
    events: Seq<EventEnvelope>,
    i: int,
) -> bool {
    &&& 0 <= i < events.len()
    &&& position_for(returned, events[i].event_id@) is None
    &&& forall|k: int|
        0 <= k < i ==> position_for(returned, (#[trigger] events[k]).event_id@) is Some
}

fn find_position(returned: &Vec<Returned>, id: &String) -> (r: Option<i64>)
    ensures
        r == position_for(returned@, id@),
{
    let mut i: usize = returned.len();
    assert(returned@.take(i as int) =~= returned@);
    while i > 0
        invariant
            i <= returned.len(),
            position_for(returned@, id@) == position_for(returned@.take(i as int), id@),
        decreases i,
    {
        assert(returned@.take(i as int).drop_last() =~= returned@.take(i - 1));
        if returned[i - 1].event_id == *id {
            return Some(returned[i - 1].position);
        }
        i = i - 1;
    }
    None
}

/// When an appended event is projected: at the time under which it is stored.
pub fn append_moment(event: &EventEnvelope, now: i64) -> (r: Moment)
    ensures
        r.now == now,
        r.event_time_ms == if now < 0 {
            0
        } else {
            now as int
        },
        r.event_id@ == event.event_id@,
{
    let event_time_ms: u64 = if now < 0 {
        0
    } else {
        now as u64
    };
    Moment { now, event_time_ms, event_id: event.event_id.clone() }
}

/// When a stored event is projected again: as of the time under which it was
/// stored.
pub fn replay_moment(event: &StoredEvent, now: i64) -> (r: Moment)
    ensures
        r.now == now,
        r.event_time_ms == event.stored_at,
        r.event_id@ == event.envelope.event_id@,
{
    Moment {
        now,
        event_time_ms: event.stored_at,
        event_id: event.envelope.event_id.clone(),
    }
}

/// The position after which reading starts.
pub open spec fn after_position(after: Option<EventPosition>) -> i64 {
    match after {
        Some(p) => p.0 as i64,
        None => 0,
    }
}

fn start_after(after: Option<EventPosition>) -> (r: i64)
    ensures
        r == after_position(after),
{
    match after {
        Some(p) => p.0 as i64,
        None => 0,
    }
}

/// The query of [`read_stream`].
pub open spec fn stream_query(after: Option<EventPosition>, limit: usize) -> SqlView {
    SqlView::new().text(
        "SELECT position, event_id, source_type, source_meta, ownership, causation_id, correlation_id, payload, stored_at FROM event_log WHERE position > "@,
    ).param(ValueView::Int8(after_position(after))).text(" ORDER BY position ASC LIMIT "@).param(
        ValueView::Int8(limit as i64),
    )
}

/// Reads the events after a position, in the order of the log.
pub fn read_stream(after: Option<EventPosition>, limit: usize) -> (r: Sql)
    ensures
        r@ == stream_query(after, limit),
{
    let mut out = Sql::new();
    out.text(
        "SELECT position, event_id, source_type, source_meta, ownership, causation_id, correlation_id, payload, stored_at FROM event_log WHERE position > ",
    );
    out.param(SqlValue::Int8(start_after(after)));
    out.text(" ORDER BY position ASC LIMIT ");
    out.param(SqlValue::Int8(limit as i64));
    out
}

/// The query of [`read_by_entity`].
pub open spec fn entity_query(
    entity: EntityRef,
    after: Option<EventPosition>,
    limit: usize,
) -> SqlView {
    SqlView::new().text(
        "SELECT position, event_id, source_type, source_meta, ownership, causation_id, correlation_id, payload, stored_at FROM event_log WHERE position > "@,
    ).param(ValueView::Int8(after_position(after))).text(" AND payload->>'"@).text(
        entity.filter().0,
    ).text("' = "@).param(ValueView::Text(entity.filter().1)).text(
        " ORDER BY position ASC LIMIT "@,
    ).param(ValueView::Int8(limit as i64))
}

/// Reads the events about a thing after a position, in the order of the log.
pub fn read_by_entity(entity: &EntityRef, after: Option<EventPosition>, limit: usize) -> (r: Sql)
    ensures
        r@ == entity_query(*entity, after, limit),
{
    let (field, id) = entity_ref_filter(entity);
    let mut out = Sql::new();
    out.text(
        "SELECT position, event_id, source_type, source_meta, ownership, causation_id, correlation_id, payload, stored_at FROM event_log WHERE position > ",
    );
    out.param(SqlValue::Int8(start_after(after)));
    out.text(" AND payload->>'");
    out.text(field);
    out.text("' = ");
    out.param(SqlValue::Text(id));
    out.text(" ORDER BY position ASC LIMIT ");
    out.param(SqlValue::Int8(limit as i64));
    out
}

/// The greatest position in the log.
pub const HEAD_POSITION_SQL: &'static str = "SELECT MAX(position) FROM event_log";

/// The head of the log, from the greatest position that was read: none where
/// none was read or it is not positive.
pub fn head_position(greatest: Option<i64>) -> (r: Option<EventPosition>)
    ensures
        r == match greatest {
            Some(p) => if p > 0 {
                Some(EventPosition(p as u64))
            } else {
                None
            },
            None => None,
        },
{
    match greatest {
        Some(p) => if p > 0 {
            Some(EventPosition(p as u64))
        } else {
            None
        },
        None => None,
    }
}

/// The query of [`find_by_causation_id`].
pub open spec fn causation_query(causation_id: Seq<char>) -> SqlView {
    SqlView::new().text("SELECT position FROM event_log WHERE causation_id = "@).param(
        ValueView::Text(causation_id),
    ).text(" LIMIT 1"@)
}

/// Finds an event that a command caused.
pub fn find_by_causation_id(causation_id: &str) -> (r: Sql)
    ensures
        r@ == causation_query(causation_id@),
{
    let mut out = Sql::new();
    out.text("SELECT position FROM event_log WHERE causation_id = ");
    out.param(text(causation_id));
    out.text(" LIMIT 1");
    out
}

/// The position that a row holds, as the log counts positions.
pub fn found_position(position: Option<i64>) -> (r: Option<EventPosition>)
    ensures
        r == match position {
            Some(p) => Some(EventPosition(p as u64)),
            None => None,
        },
{
    match position {
        Some(p) => Some(EventPosition(p as u64)),
        None => None,
    }
}

/// A row of the event log. Each JSON column is decoded, or the decoder's
/// message is kept.
pub struct EventRow {
    pub position: i64,
    pub event_id: String,
    pub source: Result<EventSource, String>,
    pub source_json: String,
    pub ownership: Result<(), String>,
    pub ownership_json: String,
    pub causation_id: Option<String>,
    pub correlation_id: Option<String>,
    pub payload: Result<RuntimeEvent, String>,
    pub payload_json: String,
    pub stored_at: i64,
}

impl EventRow {
    /// The event that the row holds, or why it holds none. A column that did not
    /// decode is refused: the source first, then the owner, then the payload.
    pub open spec fn event(self) -> Result<StoredEvent, ErrorView> {
        match (self.source, self.ownership, self.payload) {
            (Err(m), _, _) => Err(ErrorView::Serialization(m@)),
            (Ok(_), Err(m), _) => Err(ErrorView::Serialization(m@)),
            (Ok(_), Ok(_), Err(m)) => Err(ErrorView::Serialization(m@)),
            (Ok(source), Ok(_), Ok(payload)) => Ok(
                StoredEvent {
                    position: EventPosition(self.position as u64),
                    envelope: EventEnvelope {
                        event_id: self.event_id,
                        source,
                        source_json: self.source_json,
                        ownership_json: self.ownership_json,
                        causation_id: self.causation_id,
                        correlation_id: self.correlation_id,
                        payload,
                        payload_json: self.payload_json,
                    },
                    stored_at: self.stored_at as u64,
                },
            ),
        }
    }

    /// Whether the row holds the values that were bound for an event.
    pub open spec fn is_of(self, values: Seq<ValueView>) -> bool {
        &&& values.len() == EVENT_VALUES
        &&& values[0] == ValueView::Text(self.event_id@)
        &&& values[2] == ValueView::Json(self.source_json@)
        &&& values[3] == ValueView::Json(self.ownership_json@)
        &&& values[4] == ValueView::opt_text(self.causation_id)
        &&& values[5] == ValueView::opt_text(self.correlation_id)
        &&& values[6] == ValueView::Json(self.payload_json@)
        &&& values[7] == ValueView::Int8(self.stored_at)
    }

    /// Whether the JSON columns of the row decode to what an event holds.
    pub open spec fn decodes_to(self, e: EventEnvelope) -> bool {
        &&& self.source == Ok::<EventSource, String>(e.source)
        &&& self.ownership is Ok
        &&& self.payload == Ok::<RuntimeEvent, String>(e.payload)
    }

    /// The event that the row holds.
    pub fn into_stored_event(self) -> (r: Result<StoredEvent, StoreError>)
        ensures
            match r {
                Ok(stored) => self.event() == Ok::<StoredEvent, ErrorView>(stored),
                Err(e) => self.event() == Err::<StoredEvent, ErrorView>(e@),
            },
    {
        let source = match self.source {
            Ok(s) => s,
            Err(m) => return Err(StoreError::Serialization(m)),
        };
        if let Err(m) = self.ownership {
            return Err(StoreError::Serialization(m));
        }
        let payload = match self.payload {
            Ok(p) => p,
            Err(m) => return Err(StoreError::Serialization(m)),
        };
        Ok(
            StoredEvent {
                position: EventPosition(self.position as u64),
                envelope: EventEnvelope {
                    event_id: self.event_id,
                    source,
                    source_json: self.source_json,
                    ownership_json: self.ownership_json,
                    causation_id: self.causation_id,
                    correlation_id: self.correlation_id,
                    payload,
                    payload_json: self.payload_json,
                },
                stored_at: self.stored_at as u64,
            },
        )
    }
}

/// An event that was logged is read back: a row that holds the values that were
/// bound for it, and whose JSON columns decode to what was encoded, gives the
/// same event, with the row's position and the time at which it was stored.
pub proof fn a_logged_event_is_read_back(e: EventEnvelope, now: i64, row: EventRow)
    requires
        row.is_of(SqlView::new().event_values(e, now).params),
        row.decodes_to(e),
        0 <= row.position,
        0 <= now,
    ensures
        match row.event() {
            Ok(stored) => {
                &&& stored.position.0 == row.position
                &&& stored.stored_at == now
                &&& stored.envelope.event_id@ == e.event_id@
                &&& stored.envelope.source == e.source
                &&& stored.envelope.source_json@ == e.source_json@
                &&& stored.envelope.ownership_json@ == e.ownership_json@
                &&& stored.envelope.causation_id.deep_view() == e.causation_id.deep_view()
                &&& stored.envelope.correlation_id.deep_view() == e.correlation_id.deep_view()
                &&& stored.envelope.payload == e.payload
                &&& stored.envelope.payload_json@ == e.payload_json@
            },
            Err(_) => false,
        },
{
    let values = SqlView::new().event_values(e, now).params;
    assert(values =~= event_params(e, now));
}

/// The values that are bound for an event, in the order of the insert.
spec fn event_params(e: EventEnvelope, now: i64) -> Seq<ValueView> {
    seq![
        ValueView::Text(e.event_id@),
        ValueView::Text(e.source.spec_type()),
        ValueView::Json(e.source_json@),
        ValueView::Json(e.ownership_json@),
        ValueView::opt_text(e.causation_id),
        ValueView::opt_text(e.correlation_id),
        ValueView::Json(e.payload_json@),
        ValueView::Int8(now),
    ]
}

/// The insert of a chunk binds the values of each of its events, in the order of
/// the chunk, and nothing else.
pub proof fn a_chunk_binds_the_values_of_its_events(
    events: Seq<EventEnvelope>,
    now: i64,
    i: int,
)
    requires
        0 <= i < events.len(),
    ensures
        chunk_insert(events, now).params.len() == EVENT_VALUES * events.len(),
        chunk_insert(events, now).params.subrange(EVENT_VALUES * i, EVENT_VALUES * (i + 1))
            == SqlView::new().event_values(events[i], now).params,
{
    let head = SqlView::new().text(
        "INSERT INTO event_log (event_id, source_type, source_meta, ownership, causation_id, correlation_id, payload, stored_at) VALUES "@,
    );
    events_bind_their_values(head, events, events.len(), now, i);
}

proof fn events_bind_their_values(
    head: SqlView,
    events: Seq<EventEnvelope>,
    n: nat,
    now: i64,
    i: int,
)
    requires
        head.params.len() == 0,
        n <= events.len(),
    ensures
        head.events_values(events, n, now).params.len() == EVENT_VALUES * n,
        0 <= i < n ==> head.events_values(events, n, now).params.subrange(
            EVENT_VALUES * i,
            EVENT_VALUES * (i + 1),
        ) == SqlView::new().event_values(events[i], now).params,
    decreases n,
{
    if n > 0 {
        let m = (n - 1) as nat;
        events_bind_their_values(head, events, m, now, i);
        let before = head.events_values(events, m, now);
        let all = head.events_values(events, n, now).params;
        assert(all =~= before.params + event_params(events[m as int], now));
        let one = SqlView::new().event_values(events[i], now).params;
        if i == m {
            assert(one =~= event_params(events[i], now));
            assert(all.subrange(EVENT_VALUES * i, EVENT_VALUES * (i + 1)) =~= one);
        } else if 0 <= i < m {
            assert(all.subrange(EVENT_VALUES * i, EVENT_VALUES * (i + 1)) =~= one) by {
                assert(before.params.subrange(EVENT_VALUES * i, EVENT_VALUES * (i + 1)) =~= one);
            }
        }
    }
}

/// The database answers each event of a batch once: the positions that come
/// out are those that were answered for the events, in the order of the batch.
pub proof fn positions_do_not_depend_on_the_order_of_the_answer(
    a: Seq<Returned>,
    b: Seq<Returned>,
    id: Seq<char>,
)
    requires
        a.to_multiset() == b.to_multiset(),
        forall|i: int, j: int|
            0 <= i < a.len() && 0 <= j < a.len() && i != j ==> (#[trigger] a[i]).event_id@ != (
            #[trigger] a[j]).event_id@,
    ensures
        position_for(a, id) == position_for(b, id),
{
    answered_position(a, id);
    answered_position(b, id);
    a.to_multiset_ensures();
    b.to_multiset_ensures();
    assert forall|r: Returned| a.contains(r) == b.contains(r) by {
        assert(a.contains(r) <==> a.to_multiset().count(r) > 0);
        assert(b.contains(r) <==> b.to_multiset().count(r) > 0);
    }
    match (position_for(a, id), position_for(b, id)) {
        (Some(p), Some(q)) => {
            let i = choose|i: int| 0 <= i < a.len() && a[i].event_id@ == id && a[i].position == p;
            let j = choose|j: int| 0 <= j < b.len() && b[j].event_id@ == id && b[j].position == q;
            assert(b.contains(b[j]));
            assert(a.contains(b[j]));
            let k = choose|k: int| 0 <= k < a.len() && a[k] == b[j];
            assert(k == i);
        },
        (Some(p), None) => {
            let i = choose|i: int| 0 <= i < a.len() && a[i].event_id@ == id && a[i].position == p;
            assert(a.contains(a[i]));
            assert(b.contains(a[i]));
        },
        (None, Some(q)) => {
            let j = choose|j: int| 0 <= j < b.len() && b[j].event_id@ == id && b[j].position == q;
            assert(b.contains(b[j]));
            assert(a.contains(b[j]));
        },
        (None, None) => {},
    }
}

proof fn answered_position(returned: Seq<Returned>, id: Seq<char>)
    ensures
        match position_for(returned, id) {
            Some(p) => exists|i: int|
                0 <= i < returned.len() && (#[trigger] returned[i]).event_id@ == id
                    && returned[i].position == p,
            None => forall|i: int|
                0 <= i < returned.len() ==> (#[trigger] returned[i]).event_id@ != id,
        },
    decreases returned.len(),
{
    if returned.len() > 0 {
        answered_position(returned.drop_last(), id);
        if returned.last().event_id@ == id {
            assert(returned[returned.len() - 1].event_id@ == id);
        } else {
            let rest = returned.drop_last();
            match position_for(rest, id) {
                Some(p) => {
                    let i = choose|i: int|
                        0 <= i < rest.len() && rest[i].event_id@ == id && rest[i].position == p;
                    assert(returned[i].event_id@ == id);
                },
                None => {
                    assert forall|i: int| 0 <= i < returned.len() implies (
                    #[trigger] returned[i]).event_id@ != id by {
                        if i < rest.len() {
                            assert(rest[i].event_id@ != id);
                        }
                    }
                },
            }
        }
    }
}

} // verus!
