//! Rebuilding projections: the tables are emptied, and the event log is
//! replayed batch by batch.

use crate::error::{ErrorView, StoreError};
use crate::event_log::{read_stream, EventPosition, StoredEvent};
use crate::model::Database;
use crate::schema::Table;
use crate::sql::Sql;
use crate::statement::{Filter, FilterView, Statement, StatementView};
use vstd::prelude::*;
use vstd::string::*;

verus! {

/// How many events one batch of a replay holds at most.
pub const REPLAY_BATCH: usize = 500;

/// The tables that a full rebuild empties: every table that an event writes,
/// those that refer to others first.
pub open spec fn rebuilt_tables() -> Seq<Table> {
    seq![
        Table::ApprovalDelegations,
        Table::ToolCallApprovals,
        Table::ToolInvocationCacheHits,
        Table::ToolInvocationProgress,
        Table::ToolRecoveryPauses,
        Table::CheckpointStrategies,
        Table::SessionOutcomes,
        Table::WorkspaceSnapshots,
        Table::SubagentSpawns,
        Table::PauseSchedules,
        Table::PlanReviews,
        Table::Outcomes,
        Table::UserMessages,
        Table::LlmCompletions,
        Table::RecoveryAttempts,
        Table::RecoveryCompletions,
        Table::RecoverySummaries,
        Table::DecisionRecords,
        Table::DecisionCacheWarmups,
        Table::RunCosts,
        Table::RunCostAlerts,
        Table::SessionCosts,
        Table::ProjectCosts,
        Table::WorkspaceCosts,
        Table::ProviderCalls,
        Table::RouteDecisions,
        Table::RoutePolicies,
        Table::ProviderBindings,
        Table::ProviderConnections,
        Table::ProviderBudgets,
        Table::EvalRuns,
        Table::EvalBaselines,
        Table::EvalRubrics,
        Table::EvalDatasetEntries,
        Table::EvalDatasets,
        Table::TriggerFires,
        Table::Triggers,
        Table::RunTemplates,
        Table::SignalIngestions,
        Table::ChannelMessages,
        Table::Channels,
        Table::ScheduledTasks,
        Table::ExternalWorkers,
        Table::ToolInvocations,
        Table::MailboxMessages,
        Table::Checkpoints,
        Table::Approvals,
        Table::Tasks,
        Table::Runs,
        Table::Sessions,
        Table::PromptReleases,
        Table::PromptVersions,
        Table::PromptAssets,
        Table::IngestJobs,
        Table::KnowledgeIngestJobs,
        Table::ProjectKnowledgeProviders,
        Table::SoulPatches,
        Table::GuardrailEvaluations,
        Table::GuardrailPolicies,
        Table::AuditLogEntries,
        Table::CredentialRotations,
        Table::Credentials,
        Table::Notifications,
        Table::NotificationPreferences,
        Table::OperatorTenantRoles,
        Table::WorkspaceMembers,
        Table::OperatorProfiles,
        Table::ResourceShares,
        Table::RetentionPolicies,
        Table::EntitlementOverrides,
        Table::Licenses,
        Table::TenantQuotaViolations,
        Table::TenantQuotas,
        Table::DefaultSettings,
        Table::Projects,
        Table::Workspaces,
        Table::Tenants,
    ]
}

/// The tables that a full rebuild empties: every table that an event writes,
/// those that refer to others first.
pub fn projection_tables() -> (r: Vec<Table>)
    ensures
        r@ == rebuilt_tables(),
{
    vec![
        Table::ApprovalDelegations,
        Table::ToolCallApprovals,
        Table::ToolInvocationCacheHits,
        Table::ToolInvocationProgress,
        Table::ToolRecoveryPauses,
        Table::CheckpointStrategies,
        Table::SessionOutcomes,
        Table::WorkspaceSnapshots,
        Table::SubagentSpawns,
        Table::PauseSchedules,
        Table::PlanReviews,
        Table::Outcomes,
        Table::UserMessages,
        Table::LlmCompletions,
        Table::RecoveryAttempts,
        Table::RecoveryCompletions,
        Table::RecoverySummaries,
        Table::DecisionRecords,
        Table::DecisionCacheWarmups,
        Table::RunCosts,
        Table::RunCostAlerts,
        Table::SessionCosts,
        Table::ProjectCosts,
        Table::WorkspaceCosts,
        Table::ProviderCalls,
        Table::RouteDecisions,
        Table::RoutePolicies,
        Table::ProviderBindings,
        Table::ProviderConnections,
        Table::ProviderBudgets,
        Table::EvalRuns,
        Table::EvalBaselines,
        Table::EvalRubrics,
        Table::EvalDatasetEntries,
        Table::EvalDatasets,
        Table::TriggerFires,
        Table::Triggers,
        Table::RunTemplates,
        Table::SignalIngestions,
        Table::ChannelMessages,
        Table::Channels,
        Table::ScheduledTasks,
        Table::ExternalWorkers,
        Table::ToolInvocations,
        Table::MailboxMessages,
        Table::Checkpoints,
        Table::Approvals,
        Table::Tasks,
        Table::Runs,
        Table::Sessions,
        Table::PromptReleases,
        Table::PromptVersions,
        Table::PromptAssets,
        Table::IngestJobs,
        Table::KnowledgeIngestJobs,
        Table::ProjectKnowledgeProviders,
        Table::SoulPatches,
        Table::GuardrailEvaluations,
        Table::GuardrailPolicies,
        Table::AuditLogEntries,
        Table::CredentialRotations,
        Table::Credentials,
        Table::Notifications,
        Table::NotificationPreferences,
        Table::OperatorTenantRoles,
        Table::WorkspaceMembers,
        Table::OperatorProfiles,
        Table::ResourceShares,
        Table::RetentionPolicies,
        Table::EntitlementOverrides,
        Table::Licenses,
        Table::TenantQuotaViolations,
        Table::TenantQuotas,
        Table::DefaultSettings,
        Table::Projects,
        Table::Workspaces,
        Table::Tenants,
    ]
}

/// A delete of every row of a table.
pub open spec fn emptying(table: Table) -> StatementView {
    FilterView::new().delete(table)
}

/// The deletes that a full rebuild starts with.
pub open spec fn emptyings() -> Seq<StatementView> {
    rebuilt_tables().map_values(|t: Table| emptying(t))
}

/// A delete of every row of a table.
pub fn empty_table(table: Table) -> (r: Statement)
    ensures
        r@ == emptying(table),
{
    Filter::new().delete(table)
}

/// The error for a table that could not be emptied.
pub fn truncation_failure(table: Table, cause: &str) -> (r: StoreError)
    ensures
        r@ == ErrorView::Internal("truncate "@ + table.spec_name() + ": "@ + cause@),
{
    let mut message: String = "truncate ".to_owned();
    message.append(table.name());
    message.append(": ");
    message.append(cause);
    StoreError::Internal(message)
}

/// What a rebuild did.
#[derive(Clone, Debug, PartialEq, Eq)]
pub struct RebuildReport {
    pub events_replayed: u64,
    pub errors: u64,
    pub last_position: Option<EventPosition>,
}

impl RebuildReport {
    /// Whether every event was projected.
    pub fn is_clean(&self) -> (r: bool)
        ensures
            r == (self.errors == 0),
    {
        self.errors == 0
    }
}

/// A replay under way: the position up to which events were read, what was
/// counted, and whether the end of the log was reached.
#[derive(Debug, PartialEq, Eq)]
pub struct Replay {
    pub cursor: Option<EventPosition>,
    pub events_replayed: u64,
    pub errors: u64,
    pub finished: bool,
}

/// How many of the outcomes are failures.
pub open spec fn failures(failed: Seq<bool>) -> nat
    decreases failed.len(),
{
    if failed.len() == 0 {
        0
    } else if failed.last() {
        failures(failed.drop_last()) + 1
    } else {
        failures(failed.drop_last())
    }
}

/// The cursor after a batch.
pub open spec fn cursor_after(
    cursor: Option<EventPosition>,
    batch: Seq<StoredEvent>,
) -> Option<EventPosition> {
    if batch.len() == 0 {
        cursor
    } else {
        Some(batch.last().position)
    }
}

/// Whether a batch is the last one: it is shorter than a batch may be.
pub open spec fn is_last(batch: Seq<StoredEvent>) -> bool {
    batch.len() < REPLAY_BATCH
}

impl Replay {
    /// Whether the replay is another one after a batch, of whose events those
    /// failed that `failed` tells.
    pub open spec fn absorbs(
        self,
        batch: Seq<StoredEvent>,
        failed: Seq<bool>,
        next: Replay,
    ) -> bool {
        &&& next.cursor == cursor_after(self.cursor, batch)
        &&& next.events_replayed == self.events_replayed + batch.len()
        &&& next.errors == self.errors + failures(failed)
        &&& next.finished == is_last(batch)
    }

    /// A replay of the whole log.
    pub fn from_start() -> (r: Replay)
        ensures
            r == (Replay { cursor: None, events_replayed: 0, errors: 0, finished: false }),
    {
        Replay { cursor: None, events_replayed: 0, errors: 0, finished: false }
    }

    /// A replay of the events after a position.
    pub fn after(position: EventPosition) -> (r: Replay)
        ensures
            r == (Replay {
                cursor: Some(position),
                events_replayed: 0,
                errors: 0,
                finished: false,
            }),
    {
        Replay { cursor: Some(position), events_replayed: 0, errors: 0, finished: false }
    }

    /// The tables to empty before the replay: all projected ones where it starts
    /// with the log, none where it goes on from a position.
    pub fn tables_to_empty(&self) -> (r: Vec<Table>)
        ensures
            r@ == if self.cursor is None {
                rebuilt_tables()
            } else {
                Seq::empty()
            },
    {
        match self.cursor {
            None => projection_tables(),
            Some(_) => Vec::new(),
        }
    }

    /// The query for the next batch; none once the end of the log was reached.
    pub fn next_batch(&self) -> (r: Option<Sql>)
        ensures
            match r {
                None => self.finished,
                Some(sql) => !self.finished && sql@ == crate::event_log::stream_query(
                    self.cursor,
                    REPLAY_BATCH,
                ),
            },
    {
        if self.finished {
            None
        } else {
            Some(read_stream(self.cursor, REPLAY_BATCH))
        }
    }

    /// Counts a batch whose events were projected or, where `failed` says so,
    /// could not be. A failure does not end the replay.
    pub fn absorb(&mut self, batch: &Vec<StoredEvent>, failed: &Vec<bool>)
        requires
            failed@.len() == batch@.len(),
            old(self).errors <= old(self).events_replayed,
            old(self).events_replayed + batch@.len() <= u64::MAX,
        ensures
            old(self).absorbs(batch@, failed@, *final(self)),
            final(self).errors <= final(self).events_replayed,
    {
        let mut i: usize = 0;
        let ghost before = *self;
        while i < failed.len()
            invariant
                i <= failed@.len(),
                failed@.len() == batch@.len(),
                before == *old(self),
                before.errors <= before.events_replayed,
                before.events_replayed + batch@.len() <= u64::MAX,
                self.cursor == before.cursor,
                self.finished == before.finished,
                self.events_replayed == before.events_replayed + i,
                self.errors == before.errors + failures(failed@.take(i as int)),
                failures(failed@.take(i as int)) <= i,
            decreases failed.len() - i,
        {
            assert(failed@.take(i + 1).drop_last() =~= failed@.take(i as int));
            if failed[i] {
                self.errors = self.errors + 1;
            }
            self.events_replayed = self.events_replayed + 1;
            i = i + 1;
        }
        assert(failed@.take(i as int) =~= failed@);
        if batch.len() > 0 {
            self.cursor = Some(batch[batch.len() - 1].position);
        }
        self.finished = batch.len() < REPLAY_BATCH;
    }

    /// What was done so far.
    pub fn report(&self) -> (r: RebuildReport)
        ensures
            r == (RebuildReport {
                events_replayed: self.events_replayed,
                errors: self.errors,
                last_position: self.cursor,
            }),
    {
        RebuildReport {
            events_replayed: self.events_replayed,
            errors: self.errors,
            last_position: self.cursor,
        }
    }
}

/// A log that is read in order: positions are positive and increase.
pub open spec fn in_order(log: Seq<StoredEvent>) -> bool {
    &&& forall|i: int|
        0 <= i < log.len() ==> 0 < (#[trigger] log[i]).position.0 && log[i].position.0 <= i64::MAX
    &&& forall|i: int, j: int|
        0 <= i < j < log.len() ==> (#[trigger] log[i]).position.0 < (
        #[trigger] log[j]).position.0
}

/// The events of a log after a position.
pub open spec fn rest(log: Seq<StoredEvent>, cursor: Option<EventPosition>) -> Seq<StoredEvent> {
    log.filter(|e: StoredEvent| e.position.0 > crate::event_log::after_position(cursor))
}

/// What the query for a batch reads from a log.
pub open spec fn batch_of(
    log: Seq<StoredEvent>,
    cursor: Option<EventPosition>,
) -> Seq<StoredEvent> {
    let rest = rest(log, cursor);
    if rest.len() <= REPLAY_BATCH {
        rest
    } else {
        rest.take(REPLAY_BATCH as int)
    }
}

/// Whether these are the batches that a replay of the log reads, from a cursor
/// to the end.
pub open spec fn is_replay(
    log: Seq<StoredEvent>,
    cursor: Option<EventPosition>,
    batches: Seq<Seq<StoredEvent>>,
) -> bool
    decreases batches.len(),
{
    &&& batches.len() > 0
    &&& batches[0] == batch_of(log, cursor)
    &&& if is_last(batches[0]) {
        batches.len() == 1
    } else {
        is_replay(log, cursor_after(cursor, batches[0]), batches.drop_first())
    }
}

/// A replay reads every event after its start exactly once, in the order of
/// the log.
pub proof fn a_replay_reads_every_event_once(
    log: Seq<StoredEvent>,
    cursor: Option<EventPosition>,
    batches: Seq<Seq<StoredEvent>>,
)
    requires
        in_order(log),
        cursor is Some ==> cursor->Some_0.0 <= i64::MAX,
        is_replay(log, cursor, batches),
    ensures
        batches.flatten() == rest(log, cursor),
    decreases batches.len(),
{
    let n = rest_is_a_suffix(log, cursor);
    let all = rest(log, cursor);
    let first = batches[0];
    if is_last(first) {
        assert(first == all);
        assert(batches =~= seq![first]);
        assert(batches.drop_first().len() == 0);
        assert(batches.flatten() =~= first + batches.drop_first().flatten());
        assert(batches.drop_first().flatten() =~= Seq::empty());
    } else {
        let k = REPLAY_BATCH as int;
        assert(first =~= all.take(k));
        let next = cursor_after(cursor, first);
        assert(first.last() == log[n + k - 1]);
        let m = rest_is_a_suffix(log, next);
        assert(m == n + k) by {
            if m < n + k {
                assert(log[n + k - 1].position.0 > crate::event_log::after_position(next));
            }
            if m > n + k {
                assert(log[n + k - 1].position.0 < log[n + k].position.0);
            }
        }
        a_replay_reads_every_event_once(log, next, batches.drop_first());
        assert(batches.flatten() =~= first + batches.drop_first().flatten());
        assert(all =~= first + log.skip(m));
    }
}

/// A replay of the whole log reads the log.
pub proof fn a_full_replay_reads_the_log(
    log: Seq<StoredEvent>,
    batches: Seq<Seq<StoredEvent>>,
)
    requires
        in_order(log),
        is_replay(log, None, batches),
    ensures
        batches.flatten() == log,
{
    a_replay_reads_every_event_once(log, None, batches);
    let n = rest_is_a_suffix(log, None);
    assert(n == 0) by {
        if n > 0 {
            assert(log[0].position.0 > 0);
        }
    }
    assert(log.skip(0) =~= log);
}

proof fn failures_are_those_that_failed(failed: Seq<bool>)
    ensures
        failures(failed) == failed.filter(|f: bool| f).len(),
    decreases failed.len(),
{
    reveal(Seq::filter);
    if failed.len() > 0 {
        failures_are_those_that_failed(failed.drop_last());
    }
}

/// What a batch changes: its events are counted, and those that failed once more;
/// the cursor moves to its last event, and the replay ends with a batch of fewer
/// than five hundred events.
pub proof fn what_a_batch_changes(
    replay: Replay,
    batch: Seq<StoredEvent>,
    failed: Seq<bool>,
    next: Replay,
)
    requires
        replay.absorbs(batch, failed, next),
    ensures
        next.events_replayed == replay.events_replayed + batch.len(),
        next.errors == replay.errors + failed.filter(|f: bool| f).len(),
        batch.len() > 0 ==> next.cursor == Some(batch[batch.len() - 1].position),
        batch.len() == 0 ==> next.cursor == replay.cursor,
        next.finished <==> batch.len() < 500,
{
    failures_are_those_that_failed(failed);
}

/// Whether these are the states of a replay, the first before the batches and
/// then one after each of them.
pub open spec fn are_states(
    states: Seq<Replay>,
    batches: Seq<Seq<StoredEvent>>,
    failed: Seq<Seq<bool>>,
) -> bool {
    &&& states.len() == batches.len() + 1
    &&& failed.len() == batches.len()
    &&& forall|i: int|
        #![trigger batches[i]]
        0 <= i < batches.len() ==> failed[i].len() == batches[i].len() && states[i].absorbs(
            batches[i],
            failed[i],
            states[i + 1],
        )
}

/// A replay reports what it did: it reads every event after its start once and
/// in order, counts them and the failures among them, and a failure ends
/// nothing. Its last position is that of the last event that it read, or its
/// start where it read none; a replay from there reads nothing.
pub proof fn a_replay_reports_what_it_did(
    log: Seq<StoredEvent>,
    cursor: Option<EventPosition>,
    states: Seq<Replay>,
    batches: Seq<Seq<StoredEvent>>,
    failed: Seq<Seq<bool>>,
)
    requires
        in_order(log),
        cursor is Some ==> cursor->Some_0.0 <= i64::MAX,
        is_replay(log, cursor, batches),
        are_states(states, batches, failed),
        states[0] == (Replay { cursor, events_replayed: 0, errors: 0, finished: false }),
    ensures
        batches.flatten() == rest(log, cursor),
        in_order(rest(log, cursor)),
        states.last().events_replayed == rest(log, cursor).len(),
        states.last().errors == failures(failed.flatten()),
        states.last().cursor == cursor_after(cursor, rest(log, cursor)),
        forall|i: int|
            0 <= i < states.len() ==> ((#[trigger] states[i]).finished <==> i == states.len() - 1),
        rest(log, states.last().cursor).len() == 0,
{
    a_replay_reads_every_event_once(log, cursor, batches);
    states_count_what_is_read(log, states, batches, failed);
    let n = rest_is_a_suffix(log, cursor);
    let read = rest(log, cursor);
    assert forall|i: int| 0 <= i < read.len() implies 0 < (#[trigger] read[i]).position.0
        && read[i].position.0 <= i64::MAX by {
        assert(read[i] == log[n + i]);
    }
    assert forall|i: int, j: int| 0 <= i < j < read.len() implies (#[trigger] read[i]).position.0
        < (#[trigger] read[j]).position.0 by {
        assert(read[i] == log[n + i] && read[j] == log[n + j]);
    }
    nothing_follows_what_was_read(log, cursor);
}

/// A replay that goes on where one ended finds nothing to do, and ends there
/// too.
pub proof fn a_second_replay_reads_nothing(
    log: Seq<StoredEvent>,
    ended: Option<EventPosition>,
    states: Seq<Replay>,
    batches: Seq<Seq<StoredEvent>>,
    failed: Seq<Seq<bool>>,
)
    requires
        in_order(log),
        exists|cursor: Option<EventPosition>|
            (cursor is Some ==> cursor->Some_0.0 <= i64::MAX) && ended == #[trigger] cursor_after(
                cursor,
                rest(log, cursor),
            ),
        is_replay(log, ended, batches),
        are_states(states, batches, failed),
        states[0] == (Replay {
            cursor: ended,
            events_replayed: 0,
            errors: 0,
            finished: false,
        }),
    ensures
        states.last() == (Replay {
            cursor: ended,
            events_replayed: 0,
            errors: 0,
            finished: true,
        }),
{
    let cursor = choose|cursor: Option<EventPosition>|
        (cursor is Some ==> cursor->Some_0.0 <= i64::MAX) && ended == #[trigger] cursor_after(
            cursor,
            rest(log, cursor),
        );
    let n = rest_is_a_suffix(log, cursor);
    nothing_follows_what_was_read(log, cursor);
    assert(batches[0].len() == 0);
    assert(states[0].absorbs(batches[0], failed[0], states[1]));
}

/// Behind the last event after a position there is none.
proof fn nothing_follows_what_was_read(log: Seq<StoredEvent>, cursor: Option<EventPosition>)
    requires
        in_order(log),
        cursor is Some ==> cursor->Some_0.0 <= i64::MAX,
    ensures
        rest(log, cursor_after(cursor, rest(log, cursor))).len() == 0,
{
    let n = rest_is_a_suffix(log, cursor);
    let read = rest(log, cursor);
    if read.len() > 0 {
        assert(read.last() == log[log.len() - 1]);
        let m = rest_is_a_suffix(log, cursor_after(cursor, read));
        if m < log.len() - 1 {
            assert(log[m].position.0 < log[log.len() - 1].position.0);
        }
    }
}

proof fn states_count_what_is_read(
    log: Seq<StoredEvent>,
    states: Seq<Replay>,
    batches: Seq<Seq<StoredEvent>>,
    failed: Seq<Seq<bool>>,
)
    requires
        in_order(log),
        are_states(states, batches, failed),
        states[0].cursor is Some ==> states[0].cursor->Some_0.0 <= i64::MAX,
        is_replay(log, states[0].cursor, batches),
    ensures
        ({
            let read = rest(log, states[0].cursor);
            let last = states.last();
            &&& last.events_replayed == states[0].events_replayed + read.len()
            &&& last.errors == states[0].errors + failures(failed.flatten())
            &&& last.cursor == cursor_after(states[0].cursor, read)
        }),
        forall|i: int|
            0 < i < states.len() ==> ((#[trigger] states[i]).finished <==> i == states.len() - 1),
    decreases batches.len(),
{
    let first = batches[0];
    assert(states[0].absorbs(first, failed[0], states[1]));
    let later = failed.drop_first();
    assert(failed.flatten() =~= failed[0] + later.flatten());
    failures_add_up(failed[0], later.flatten());
    if is_last(first) {
        assert(later.flatten() =~= Seq::empty());
    } else {
        let next = states.drop_first();
        let follow = batches.drop_first();
        assert(next[0] == states[1]);
        assert forall|i: int|
            #![trigger follow[i]]
            0 <= i < follow.len() implies later[i].len() == follow[i].len() && next[i].absorbs(
            follow[i],
            later[i],
            next[i + 1],
        ) by {
            assert(follow[i] == batches[i + 1]);
        }
        let n = rest_is_a_suffix(log, states[0].cursor);
        assert(first.last() == log[n + first.len() - 1]);
        assert(is_replay(log, next[0].cursor, follow));
        states_count_what_is_read(log, next, follow, later);
        a_replay_reads_every_event_once(log, states[0].cursor, batches);
        a_replay_reads_every_event_once(log, next[0].cursor, follow);
        assert(batches.flatten() =~= first + follow.flatten());
        assert forall|i: int| 0 < i < states.len() implies ((#[trigger] states[i]).finished <==> i
            == states.len() - 1) by {
            if i > 1 {
                assert(states[i] == next[i - 1]);
            }
        }
    }
}

proof fn failures_add_up(some: Seq<bool>, more: Seq<bool>)
    ensures
        failures(some + more) == failures(some) + failures(more),
    decreases more.len(),
{
    if more.len() == 0 {
        assert(some + more =~= some);
    } else {
        failures_add_up(some, more.drop_last());
        assert((some + more).drop_last() =~= some + more.drop_last());
    }
}

/// The events after a position are the end of the log, behind those up to it.
proof fn rest_is_a_suffix(log: Seq<StoredEvent>, cursor: Option<EventPosition>) -> (n: int)
    requires
        in_order(log),
        cursor is Some ==> cursor->Some_0.0 <= i64::MAX,
    ensures
        0 <= n <= log.len(),
        rest(log, cursor) == log.skip(n),
        forall|i: int|
            0 <= i < n ==> (#[trigger] log[i]).position.0 <= crate::event_log::after_position(
                cursor,
            ),
        forall|i: int|
            n <= i < log.len() ==> (#[trigger] log[i]).position.0
                > crate::event_log::after_position(cursor),
    decreases log.len(),
{
    reveal(Seq::filter);
    if log.len() == 0 {
        assert(log.skip(0) =~= Seq::empty());
        0
    } else {
        let front = log.drop_last();
        assert(in_order(front)) by {
            assert forall|i: int| 0 <= i < front.len() implies 0 < (#[trigger] front[i]).position.0
                && front[i].position.0 <= i64::MAX by {
                assert(front[i] == log[i]);
            }
            assert forall|i: int, j: int| 0 <= i < j < front.len() implies (
            #[trigger] front[i]).position.0 < (#[trigger] front[j]).position.0 by {
                assert(front[i] == log[i] && front[j] == log[j]);
            }
        }
        let n = rest_is_a_suffix(front, cursor);
        assert forall|i: int| 0 <= i < front.len() implies front[i] == log[i] by {}
        if log.last().position.0 > crate::event_log::after_position(cursor) {
            assert(rest(log, cursor) =~= front.skip(n).push(log.last()));
            assert(log.skip(n) =~= front.skip(n).push(log.last()));
            n
        } else {
            assert forall|i: int| 0 <= i < log.len() implies (#[trigger] log[i]).position.0
                <= crate::event_log::after_position(cursor) by {
                if i < log.len() - 1 {
                    assert(log[i].position.0 < log[log.len() - 1].position.0);
                }
            }
            assert(n == front.len()) by {
                if n < front.len() {
                    assert(front[n] == log[n]);
                }
            }
            assert(rest(log, cursor) =~= log.skip(log.len() as int));
            log.len() as int
        }
    }
}

/// Emptying a table leaves no row in it, and every other table as it was.
pub proof fn emptying_leaves_the_other_tables(db: Database, table: Table, other: Table)
    ensures
        crate::model::after(db, emptying(table)).rows(other) == if other == table {
            Seq::empty()
        } else {
            db.rows(other)
        },
{
    let tests = FilterView::new().tests;
    let keep = |row: crate::model::Row| !crate::model::passes_all(db, row, tests);
    assert(db.rows(table).filter(keep) =~= Seq::empty()) by {
        nothing_is_kept(db.rows(table), keep);
    }
}

proof fn nothing_is_kept(rows: Seq<crate::model::Row>, keep: spec_fn(crate::model::Row) -> bool)
    requires
        forall|row: crate::model::Row| !#[trigger] keep(row),
    ensures
        rows.filter(keep).len() == 0,
    decreases rows.len(),
{
    reveal(Seq::filter);
    if rows.len() > 0 {
        nothing_is_kept(rows.drop_last(), keep);
    }
}

/// The outcome of a full rebuild does not depend on what the rebuilt tables
/// held: from two databases that differ in those alone, the same statements
/// lead to the same database.
pub proof fn a_full_rebuild_forgets_the_rebuilt_tables(
    db: Database,
    other: Database,
    replayed: Seq<StatementView>,
)
    requires
        db.defaults == other.defaults,
        forall|table: Table|
            !rebuilt_tables().contains(table) ==> (#[trigger] db.tables.contains_key(table)
                <==> other.tables.contains_key(table)) && db.rows(table) == other.rows(table),
    ensures
        crate::model::after_all(crate::model::after_all(db, emptyings()), replayed)
            == crate::model::after_all(crate::model::after_all(other, emptyings()), replayed),
{
    let n = rebuilt_tables().len() as int;
    assert(emptyings().take(n) =~= emptyings());
    assert(rebuilt_tables().take(n) =~= rebuilt_tables());
    let a = crate::model::after_all(db, emptyings());
    let b = crate::model::after_all(other, emptyings());
    assert forall|table: Table|
        (#[trigger] a.tables.contains_key(table) <==> b.tables.contains_key(table)) && a.rows(table)
            == b.rows(table) by {
        emptied_up_to(db, table, n);
        emptied_up_to(other, table, n);
    }
    assert forall|table: Table| a.tables.contains_key(table) implies #[trigger] a.tables[table]
        == b.tables[table] by {
        assert(a.rows(table) == a.tables[table]);
        assert(b.rows(table) == b.tables[table]);
    }
    assert(a.tables =~= b.tables);
    emptied_up_to(db, Table::Runs, n);
    emptied_up_to(other, Table::Runs, n);
}

/// A full rebuild starts from empty tables: after the deletes, none of the
/// rebuilt tables holds a row, and every other table is as it was.
pub proof fn a_full_rebuild_starts_from_empty_tables(db: Database, table: Table)
    ensures
        crate::model::after_all(db, emptyings()).rows(table) == if rebuilt_tables().contains(
            table,
        ) {
            Seq::empty()
        } else {
            db.rows(table)
        },
{
    let n = rebuilt_tables().len() as int;
    emptied_up_to(db, table, n);
    assert(emptyings().take(n) =~= emptyings());
    assert(rebuilt_tables().take(n) =~= rebuilt_tables());
}

proof fn emptied_up_to(db: Database, table: Table, n: int)
    requires
        0 <= n <= rebuilt_tables().len(),
    ensures
        crate::model::after_all(db, emptyings().take(n)).rows(table)
            == if rebuilt_tables().take(n).contains(table) {
            Seq::empty()
        } else {
            db.rows(table)
        },
        crate::model::after_all(db, emptyings().take(n)).tables.contains_key(table)
            <==> rebuilt_tables().take(n).contains(table) || db.tables.contains_key(table),
        crate::model::after_all(db, emptyings().take(n)).defaults == db.defaults,
    decreases n,
{
    if n > 0 {
        let earlier = emptyings().take(n - 1);
        emptied_up_to(db, table, n - 1);
        assert(emptyings().take(n).drop_last() =~= earlier);
        let here = rebuilt_tables()[n - 1];
        assert(emptyings().take(n).last() == emptying(here));
        emptying_leaves_the_other_tables(
            crate::model::after_all(db, earlier),
            here,
            table,
        );
        let tables = rebuilt_tables();
        assert(tables.take(n)[n - 1] == here);
        let before = tables.take(n - 1);
        let now = tables.take(n);
        if before.contains(table) {
            let i = choose|i: int| 0 <= i < before.len() && before[i] == table;
            assert(now[i] == table);
        }
        if now.contains(table) && table != here {
            let i = choose|i: int| 0 <= i < now.len() && now[i] == table;
            assert(before[i] == table);
        }
    }
}

} // verus!
