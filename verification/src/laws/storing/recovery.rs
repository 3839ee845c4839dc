//! What the events store: recovery.

use crate::laws::rows::{group_filters, group_rows};
use crate::model::{Database, Datum, Row};
use crate::plan::{Moment, Planned};
use crate::projections::recovery::{
    DecisionCacheWarmup, DecisionRecorded, RecoveryAttempted, RecoveryCompleted,
    RecoverySummaryEmitted,
};
use crate::schema::{Column, Table};
use crate::statement::ConflictView;
use vstd::prelude::*;

verus! {

/// What a [`RecoveryAttempted`] event stores.
pub proof fn recovery_attempted_is_stored(
    e: RecoveryAttempted,
    at: Moment,
    db: Database,
    was: Row,
    other: Column,
)
    ensures
        ({
            let s = e.writes(at).statements()[0];
            let new = crate::laws::rows::left_by(db, s, None);
            &&& e.writes(at) is Writes
            &&& e.writes(at).statements().len() == 1
            &&& s is Insert && s.table() == Table::RecoveryAttempts
            &&& crate::model::value(new, Column::EventId) == Datum::Text(at.event_id@)
            &&& crate::model::value(new, Column::TenantId) == Datum::Text(e.project.tenant_id@)
            &&& crate::model::value(new, Column::WorkspaceId)
                == Datum::Text(e.project.workspace_id@)
            &&& crate::model::value(new, Column::ProjectId) == Datum::Text(e.project.project_id@)
            &&& crate::model::value(new, Column::RunId)
                == crate::laws::storing::optional_text(e.run_id)
            &&& crate::model::value(new, Column::TaskId)
                == crate::laws::storing::optional_text(e.task_id)
            &&& crate::model::value(new, Column::Reason) == Datum::Text(e.reason@)
            &&& crate::model::value(new, Column::BootId)
                == crate::laws::storing::optional_text(e.boot_id)
            &&& crate::model::value(new, Column::RecordedAtMs) == Datum::Int(at.now as int)
            &&& other is EventId || other is TenantId || other is WorkspaceId || other is ProjectId
                || other is RunId || other is TaskId || other is Reason || other is BootId
                || other is RecordedAtMs
                || crate::model::value(new, other) == db.default_of(Table::RecoveryAttempts, other)
            &&& s->Insert_conflict == ConflictView::Ignore(seq![Column::EventId])
        }),
{
    broadcast use {group_rows, group_filters};
}

/// What a [`RecoveryCompleted`] event stores.
pub proof fn recovery_completed_is_stored(
    e: RecoveryCompleted,
    at: Moment,
    db: Database,
    was: Row,
    other: Column,
)
    ensures
        ({
            let s = e.writes(at).statements()[0];
            let new = crate::laws::rows::left_by(db, s, None);
            &&& e.writes(at) is Writes
            &&& e.writes(at).statements().len() == 1
            &&& s is Insert && s.table() == Table::RecoveryCompletions
            &&& crate::model::value(new, Column::EventId) == Datum::Text(at.event_id@)
            &&& crate::model::value(new, Column::TenantId) == Datum::Text(e.project.tenant_id@)
            &&& crate::model::value(new, Column::WorkspaceId)
                == Datum::Text(e.project.workspace_id@)
            &&& crate::model::value(new, Column::ProjectId) == Datum::Text(e.project.project_id@)
            &&& crate::model::value(new, Column::RunId)
                == crate::laws::storing::optional_text(e.run_id)
            &&& crate::model::value(new, Column::TaskId)
                == crate::laws::storing::optional_text(e.task_id)
            &&& crate::model::value(new, Column::Recovered) == Datum::Bool(e.recovered)
            &&& crate::model::value(new, Column::BootId)
                == crate::laws::storing::optional_text(e.boot_id)
            &&& crate::model::value(new, Column::RecordedAtMs) == Datum::Int(at.now as int)
            &&& other is EventId || other is TenantId || other is WorkspaceId || other is ProjectId
                || other is RunId || other is TaskId || other is Recovered || other is BootId
                || other is RecordedAtMs
                || crate::model::value(new, other)
                    == db.default_of(Table::RecoveryCompletions, other)
            &&& s->Insert_conflict == ConflictView::Ignore(seq![Column::EventId])
        }),
{
    broadcast use {group_rows, group_filters};
}

/// What a [`RecoverySummaryEmitted`] event stores.
pub proof fn recovery_summary_emitted_is_stored(
    e: RecoverySummaryEmitted,
    at: Moment,
    db: Database,
    was: Row,
    other: Column,
)
    ensures
        e.summary_at_ms > i64::MAX
            ==> e.writes(at)
                == Planned::Refused(
                    crate::laws::storing::too_great(
                        "RecoverySummaryEmitted.summary_at_ms"@,
                        e.summary_at_ms as nat,
                        "i64::MAX"@,
                    ),
                ),
        e.summary_at_ms <= i64::MAX && e.startup_ms > i64::MAX
            ==> e.writes(at)
                == Planned::Refused(
                    crate::laws::storing::too_great(
                        "RecoverySummaryEmitted.startup_ms"@,
                        e.startup_ms as nat,
                        "i64::MAX"@,
                    ),
                ),
        e.summary_at_ms <= i64::MAX && e.startup_ms <= i64::MAX ==> ({
            let s = e.writes(at).statements()[0];
            let new = crate::laws::rows::left_by(db, s, None);
            &&& e.writes(at) is Writes
            &&& e.writes(at).statements().len() == 1
            &&& s is Insert && s.table() == Table::RecoverySummaries
            &&& crate::model::value(new, Column::BootId) == Datum::Text(e.boot_id@)
            &&& crate::model::value(new, Column::TenantId)
                == Datum::Text(e.sentinel_project.tenant_id@)
            &&& crate::model::value(new, Column::WorkspaceId)
                == Datum::Text(e.sentinel_project.workspace_id@)
            &&& crate::model::value(new, Column::ProjectId)
                == Datum::Text(e.sentinel_project.project_id@)
            &&& crate::model::value(new, Column::RecoveredRuns)
                == Datum::Int(e.recovered_runs as i64 as int)
            &&& crate::model::value(new, Column::RecoveredTasks)
                == Datum::Int(e.recovered_tasks as i64 as int)
            &&& crate::model::value(new, Column::RecoveredSandboxes)
                == Datum::Int(e.recovered_sandboxes as i64 as int)
            &&& crate::model::value(new, Column::PreservedSandboxes)
                == Datum::Int(e.preserved_sandboxes as i64 as int)
            &&& crate::model::value(new, Column::OrphanedSandboxesCleaned)
                == Datum::Int(e.orphaned_sandboxes_cleaned as i64 as int)
            &&& crate::model::value(new, Column::DecisionCacheEntries)
                == Datum::Int(e.decision_cache_entries as i64 as int)
            &&& crate::model::value(new, Column::StalePendingCleared)
                == Datum::Int(e.stale_pending_cleared as i64 as int)
            &&& crate::model::value(new, Column::ToolResultCacheEntries)
                == Datum::Int(e.tool_result_cache_entries as i64 as int)
            &&& crate::model::value(new, Column::MemoryProjectionEntries)
                == Datum::Int(e.memory_projection_entries as i64 as int)
            &&& crate::model::value(new, Column::GraphNodesRecovered)
                == Datum::Int(e.graph_nodes_recovered as i64 as int)
            &&& crate::model::value(new, Column::GraphEdgesRecovered)
                == Datum::Int(e.graph_edges_recovered as i64 as int)
            &&& crate::model::value(new, Column::WebhookDedupEntries)
                == Datum::Int(e.webhook_dedup_entries as i64 as int)
            &&& crate::model::value(new, Column::TriggerProjections)
                == Datum::Int(e.trigger_projections as i64 as int)
            &&& crate::model::value(new, Column::StartupMs)
                == Datum::Int(e.startup_ms as i64 as int)
            &&& crate::model::value(new, Column::SummaryAtMs)
                == Datum::Int(e.summary_at_ms as i64 as int)
            &&& other is BootId || other is TenantId || other is WorkspaceId || other is ProjectId
                || other is RecoveredRuns || other is RecoveredTasks || other is RecoveredSandboxes
                || other is PreservedSandboxes || other is OrphanedSandboxesCleaned
                || other is DecisionCacheEntries || other is StalePendingCleared
                || other is ToolResultCacheEntries || other is MemoryProjectionEntries
                || other is GraphNodesRecovered || other is GraphEdgesRecovered
                || other is WebhookDedupEntries || other is TriggerProjections || other is StartupMs
                || other is SummaryAtMs
                || crate::model::value(new, other) == db.default_of(Table::RecoverySummaries, other)
            &&& s->Insert_conflict == ConflictView::Ignore(seq![Column::BootId])
        }),
{
    broadcast use {group_rows, group_filters};
}

/// What a [`DecisionRecorded`] event stores.
pub proof fn decision_recorded_is_stored(
    e: DecisionRecorded,
    at: Moment,
    db: Database,
    was: Row,
    other: Column,
)
    ensures
        e.expires_at > i64::MAX
            ==> e.writes(at)
                == Planned::Refused(
                    crate::laws::storing::too_great(
                        "DecisionRecorded.expires_at"@,
                        e.expires_at as nat,
                        "i64::MAX"@,
                    ),
                ),
        e.expires_at <= i64::MAX && e.decided_at > i64::MAX
            ==> e.writes(at)
                == Planned::Refused(
                    crate::laws::storing::too_great(
                        "DecisionRecorded.decided_at"@,
                        e.decided_at as nat,
                        "i64::MAX"@,
                    ),
                ),
        e.expires_at <= i64::MAX && e.decided_at <= i64::MAX ==> ({
            let s = e.writes(at).statements()[0];
            let new = crate::laws::rows::left_by(db, s, None);
            &&& e.writes(at) is Writes
            &&& e.writes(at).statements().len() == 1
            &&& s is Insert && s.table() == Table::DecisionRecords
            &&& crate::model::value(new, Column::DecisionId) == Datum::Text(e.decision_id@)
            &&& crate::model::value(new, Column::TenantId) == Datum::Text(e.project.tenant_id@)
            &&& crate::model::value(new, Column::WorkspaceId)
                == Datum::Text(e.project.workspace_id@)
            &&& crate::model::value(new, Column::ProjectId) == Datum::Text(e.project.project_id@)
            &&& crate::model::value(new, Column::DecisionKeyJson)
                == Datum::Text(e.decision_key_json@)
            &&& crate::model::value(new, Column::OutcomeKind) == Datum::Text(e.outcome.spec_name())
            &&& crate::model::value(new, Column::Cached) == Datum::Bool(e.cached)
            &&& crate::model::value(new, Column::ExpiresAt)
                == Datum::Int(e.expires_at as i64 as int)
            &&& crate::model::value(new, Column::DecidedAt)
                == Datum::Int(e.decided_at as i64 as int)
            &&& crate::model::value(new, Column::EventJson) == Datum::Text(e.event_json@)
            &&& crate::model::value(new, Column::RecordedAtMs) == Datum::Int(at.now as int)
            &&& other is DecisionId || other is TenantId || other is WorkspaceId
                || other is ProjectId || other is DecisionKeyJson || other is OutcomeKind
                || other is Cached || other is ExpiresAt || other is DecidedAt || other is EventJson
                || other is RecordedAtMs
                || crate::model::value(new, other) == db.default_of(Table::DecisionRecords, other)
            &&& s->Insert_conflict == ConflictView::Ignore(seq![Column::DecisionId])
        }),
{
    broadcast use {group_rows, group_filters};
}

/// What a [`DecisionCacheWarmup`] event stores.
pub proof fn decision_cache_warmup_is_stored(
    e: DecisionCacheWarmup,
    at: Moment,
    db: Database,
    was: Row,
    other: Column,
)
    ensures
        e.warmed_at > i64::MAX
            ==> e.writes(at)
                == Planned::Refused(
                    crate::laws::storing::too_great(
                        "DecisionCacheWarmup.warmed_at"@,
                        e.warmed_at as nat,
                        "i64::MAX"@,
                    ),
                ),
        e.warmed_at <= i64::MAX ==> ({
            let s = e.writes(at).statements()[0];
            let new = crate::laws::rows::left_by(db, s, None);
            &&& e.writes(at) is Writes
            &&& e.writes(at).statements().len() == 1
            &&& s is Insert && s.table() == Table::DecisionCacheWarmups
            &&& crate::model::value(new, Column::WarmedAt) == Datum::Int(e.warmed_at as i64 as int)
            &&& crate::model::value(new, Column::Cached) == Datum::Int(e.cached as i64 as int)
            &&& crate::model::value(new, Column::ExpiredAndDropped)
                == Datum::Int(e.expired_and_dropped as i64 as int)
            &&& other is WarmedAt || other is Cached || other is ExpiredAndDropped
                || crate::model::value(new, other)
                    == db.default_of(Table::DecisionCacheWarmups, other)
            &&& s->Insert_conflict == ConflictView::Ignore(seq![Column::WarmedAt])
        }),
{
    broadcast use {group_rows, group_filters};
}

} // verus!
