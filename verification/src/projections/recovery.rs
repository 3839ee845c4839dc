//! What recovery and decision events write.

use crate::domain::ProjectKey;
use crate::error::{ErrorView, StoreError};
use crate::plan::{one, Moment, Planned};
use crate::schema::{Column, Table};
use crate::statement::{only, Cells, RowView, Statement};
use crate::text::fits_i64;
use crate::value::{opt_text, text, SqlValue, ValueView};
use crate::vocabulary::DecisionOutcome;
use vstd::prelude::*;

verus! {

/// A recovery was attempted.
#[derive(Debug, PartialEq, Eq)]
pub struct RecoveryAttempted {
    pub project: ProjectKey,
    pub run_id: Option<String>,
    pub task_id: Option<String>,
    pub reason: String,
    pub boot_id: Option<String>,
}

impl RecoveryAttempted {
    /// What the event writes.
    pub open spec fn writes(self, at: Moment) -> Planned {
        Planned::Writes(
            seq![
                RowView::new()
                    .put(Column::EventId, ValueView::Text(at.event_id@))
                    .put(Column::TenantId, ValueView::Text(self.project.tenant_id@))
                    .put(Column::WorkspaceId, ValueView::Text(self.project.workspace_id@))
                    .put(Column::ProjectId, ValueView::Text(self.project.project_id@))
                    .put(Column::RunId, ValueView::opt_text(self.run_id))
                    .put(Column::TaskId, ValueView::opt_text(self.task_id))
                    .put(Column::Reason, ValueView::Text(self.reason@))
                    .put(Column::BootId, ValueView::opt_text(self.boot_id))
                    .put(Column::RecordedAtMs, ValueView::Int8(at.now))
                    .insert_new(Table::RecoveryAttempts, seq![Column::EventId]),
            ],
        )
    }

    /// Plans what the event writes.
    pub fn plan(&self, at: &Moment) -> (r: Result<Vec<Statement>, StoreError>)
        ensures
            Planned::of(r) == self.writes(*at),
    {
        let mut row = Cells::new();
        row.put(Column::EventId, text(&at.event_id));
        row.put(Column::TenantId, text(&self.project.tenant_id));
        row.put(Column::WorkspaceId, text(&self.project.workspace_id));
        row.put(Column::ProjectId, text(&self.project.project_id));
        row.put(Column::RunId, opt_text(&self.run_id));
        row.put(Column::TaskId, opt_text(&self.task_id));
        row.put(Column::Reason, text(&self.reason));
        row.put(Column::BootId, opt_text(&self.boot_id));
        row.put(Column::RecordedAtMs, SqlValue::Int8(at.now));
        one(row.insert_new(Table::RecoveryAttempts, only(Column::EventId)))
    }
}

/// A recovery ended.
#[derive(Debug, PartialEq, Eq)]
pub struct RecoveryCompleted {
    pub project: ProjectKey,
    pub run_id: Option<String>,
    pub task_id: Option<String>,
    pub recovered: bool,
    pub boot_id: Option<String>,
}

impl RecoveryCompleted {
    /// What the event writes.
    pub open spec fn writes(self, at: Moment) -> Planned {
        Planned::Writes(
            seq![
                RowView::new()
                    .put(Column::EventId, ValueView::Text(at.event_id@))
                    .put(Column::TenantId, ValueView::Text(self.project.tenant_id@))
                    .put(Column::WorkspaceId, ValueView::Text(self.project.workspace_id@))
                    .put(Column::ProjectId, ValueView::Text(self.project.project_id@))
                    .put(Column::RunId, ValueView::opt_text(self.run_id))
                    .put(Column::TaskId, ValueView::opt_text(self.task_id))
                    .put(Column::Recovered, ValueView::Bool(self.recovered))
                    .put(Column::BootId, ValueView::opt_text(self.boot_id))
                    .put(Column::RecordedAtMs, ValueView::Int8(at.now))
                    .insert_new(Table::RecoveryCompletions, seq![Column::EventId]),
            ],
        )
    }

    /// Plans what the event writes.
    pub fn plan(&self, at: &Moment) -> (r: Result<Vec<Statement>, StoreError>)
        ensures
            Planned::of(r) == self.writes(*at),
    {
        let mut row = Cells::new();
        row.put(Column::EventId, text(&at.event_id));
        row.put(Column::TenantId, text(&self.project.tenant_id));
        row.put(Column::WorkspaceId, text(&self.project.workspace_id));
        row.put(Column::ProjectId, text(&self.project.project_id));
        row.put(Column::RunId, opt_text(&self.run_id));
        row.put(Column::TaskId, opt_text(&self.task_id));
        row.put(Column::Recovered, SqlValue::Bool(self.recovered));
        row.put(Column::BootId, opt_text(&self.boot_id));
        row.put(Column::RecordedAtMs, SqlValue::Int8(at.now));
        one(row.insert_new(Table::RecoveryCompletions, only(Column::EventId)))
    }
}

/// A boot summed up what it recovered.
#[derive(Debug, PartialEq, Eq)]
pub struct RecoverySummaryEmitted {
    pub summary_at_ms: u64,
    pub startup_ms: u64,
    pub boot_id: String,
    pub sentinel_project: ProjectKey,
    pub recovered_runs: u32,
    pub recovered_tasks: u32,
    pub recovered_sandboxes: u32,
    pub preserved_sandboxes: u32,
    pub orphaned_sandboxes_cleaned: u32,
    pub decision_cache_entries: u32,
    pub stale_pending_cleared: u32,
    pub tool_result_cache_entries: u32,
    pub memory_projection_entries: u32,
    pub graph_nodes_recovered: u32,
    pub graph_edges_recovered: u32,
    pub webhook_dedup_entries: u32,
    pub trigger_projections: u32,
}

impl RecoverySummaryEmitted {
    /// What the event writes.
    pub open spec fn writes(self, at: Moment) -> Planned {
        if self.summary_at_ms > i64::MAX {
            Planned::Refused(
                ErrorView::exceeds(
                    "RecoverySummaryEmitted.summary_at_ms"@,
                    self.summary_at_ms as nat,
                    "i64::MAX"@,
                ),
            )
        } else if self.startup_ms > i64::MAX {
            Planned::Refused(
                ErrorView::exceeds(
                    "RecoverySummaryEmitted.startup_ms"@,
                    self.startup_ms as nat,
                    "i64::MAX"@,
                ),
            )
        } else {
            Planned::Writes(
                seq![
                    RowView::new()
                        .put(Column::BootId, ValueView::Text(self.boot_id@))
                        .put(Column::TenantId, ValueView::Text(self.sentinel_project.tenant_id@))
                        .put(
                            Column::WorkspaceId,
                            ValueView::Text(self.sentinel_project.workspace_id@),
                        )
                        .put(Column::ProjectId, ValueView::Text(self.sentinel_project.project_id@))
                        .put(Column::RecoveredRuns, ValueView::Int8(self.recovered_runs as i64))
                        .put(Column::RecoveredTasks, ValueView::Int8(self.recovered_tasks as i64))
                        .put(
                            Column::RecoveredSandboxes,
                            ValueView::Int8(self.recovered_sandboxes as i64),
                        )
                        .put(
                            Column::PreservedSandboxes,
                            ValueView::Int8(self.preserved_sandboxes as i64),
                        )
                        .put(
                            Column::OrphanedSandboxesCleaned,
                            ValueView::Int8(self.orphaned_sandboxes_cleaned as i64),
                        )
                        .put(
                            Column::DecisionCacheEntries,
                            ValueView::Int8(self.decision_cache_entries as i64),
                        )
                        .put(
                            Column::StalePendingCleared,
                            ValueView::Int8(self.stale_pending_cleared as i64),
                        )
                        .put(
                            Column::ToolResultCacheEntries,
                            ValueView::Int8(self.tool_result_cache_entries as i64),
                        )
                        .put(
                            Column::MemoryProjectionEntries,
                            ValueView::Int8(self.memory_projection_entries as i64),
                        )
                        .put(
                            Column::GraphNodesRecovered,
                            ValueView::Int8(self.graph_nodes_recovered as i64),
                        )
                        .put(
                            Column::GraphEdgesRecovered,
                            ValueView::Int8(self.graph_edges_recovered as i64),
                        )
                        .put(
                            Column::WebhookDedupEntries,
                            ValueView::Int8(self.webhook_dedup_entries as i64),
                        )
                        .put(
                            Column::TriggerProjections,
                            ValueView::Int8(self.trigger_projections as i64),
                        )
                        .put(Column::StartupMs, ValueView::Int8(self.startup_ms as i64))
                        .put(Column::SummaryAtMs, ValueView::Int8(self.summary_at_ms as i64))
                        .insert_new(Table::RecoverySummaries, seq![Column::BootId]),
                ],
            )
        }
    }

    /// Plans what the event writes.
    pub fn plan(&self, at: &Moment) -> (r: Result<Vec<Statement>, StoreError>)
        ensures
            Planned::of(r) == self.writes(*at),
    {
        let recorded_at: i64 = match fits_i64(
            "RecoverySummaryEmitted.summary_at_ms",
            self.summary_at_ms,
        ) {
            Ok(v) => v,
            Err(e) => return Err(e),
        };
        let startup_ms: i64 = match fits_i64("RecoverySummaryEmitted.startup_ms", self.startup_ms) {
            Ok(v) => v,
            Err(e) => return Err(e),
        };
        let mut row = Cells::new();
        row.put(Column::BootId, text(&self.boot_id));
        row.put(Column::TenantId, text(&self.sentinel_project.tenant_id));
        row.put(Column::WorkspaceId, text(&self.sentinel_project.workspace_id));
        row.put(Column::ProjectId, text(&self.sentinel_project.project_id));
        row.put(Column::RecoveredRuns, SqlValue::Int8(self.recovered_runs as i64));
        row.put(Column::RecoveredTasks, SqlValue::Int8(self.recovered_tasks as i64));
        row.put(Column::RecoveredSandboxes, SqlValue::Int8(self.recovered_sandboxes as i64));
        row.put(Column::PreservedSandboxes, SqlValue::Int8(self.preserved_sandboxes as i64));
        row.put(
            Column::OrphanedSandboxesCleaned,
            SqlValue::Int8(self.orphaned_sandboxes_cleaned as i64),
        );
        row.put(Column::DecisionCacheEntries, SqlValue::Int8(self.decision_cache_entries as i64));
        row.put(Column::StalePendingCleared, SqlValue::Int8(self.stale_pending_cleared as i64));
        row.put(
            Column::ToolResultCacheEntries,
            SqlValue::Int8(self.tool_result_cache_entries as i64),
        );
        row.put(
            Column::MemoryProjectionEntries,
            SqlValue::Int8(self.memory_projection_entries as i64),
        );
        row.put(Column::GraphNodesRecovered, SqlValue::Int8(self.graph_nodes_recovered as i64));
        row.put(Column::GraphEdgesRecovered, SqlValue::Int8(self.graph_edges_recovered as i64));
        row.put(Column::WebhookDedupEntries, SqlValue::Int8(self.webhook_dedup_entries as i64));
        row.put(Column::TriggerProjections, SqlValue::Int8(self.trigger_projections as i64));
        row.put(Column::StartupMs, SqlValue::Int8(startup_ms));
        row.put(Column::SummaryAtMs, SqlValue::Int8(recorded_at));
        one(row.insert_new(Table::RecoverySummaries, only(Column::BootId)))
    }
}

/// A decision was recorded.
#[derive(Debug, PartialEq, Eq)]
pub struct DecisionRecorded {
    pub decision_key_json: String,
    pub outcome: DecisionOutcome,
    pub expires_at: u64,
    pub decided_at: u64,
    pub decision_id: String,
    pub project: ProjectKey,
    pub cached: bool,
    pub event_json: String,
}

impl DecisionRecorded {
    /// What the event writes.
    pub open spec fn writes(self, at: Moment) -> Planned {
        if self.expires_at > i64::MAX {
            Planned::Refused(
                ErrorView::exceeds(
                    "DecisionRecorded.expires_at"@,
                    self.expires_at as nat,
                    "i64::MAX"@,
                ),
            )
        } else if self.decided_at > i64::MAX {
            Planned::Refused(
                ErrorView::exceeds(
                    "DecisionRecorded.decided_at"@,
                    self.decided_at as nat,
                    "i64::MAX"@,
                ),
            )
        } else {
            Planned::Writes(
                seq![
                    RowView::new()
                        .put(Column::DecisionId, ValueView::Text(self.decision_id@))
                        .put(Column::TenantId, ValueView::Text(self.project.tenant_id@))
                        .put(Column::WorkspaceId, ValueView::Text(self.project.workspace_id@))
                        .put(Column::ProjectId, ValueView::Text(self.project.project_id@))
                        .put(Column::DecisionKeyJson, ValueView::Text(self.decision_key_json@))
                        .put(Column::OutcomeKind, ValueView::Text(self.outcome.spec_name()))
                        .put(Column::Cached, ValueView::Bool(self.cached))
                        .put(Column::ExpiresAt, ValueView::Int8(self.expires_at as i64))
                        .put(Column::DecidedAt, ValueView::Int8(self.decided_at as i64))
                        .put(Column::EventJson, ValueView::Text(self.event_json@))
                        .put(Column::RecordedAtMs, ValueView::Int8(at.now))
                        .insert_new(Table::DecisionRecords, seq![Column::DecisionId]),
                ],
            )
        }
    }

    /// Plans what the event writes.
    pub fn plan(&self, at: &Moment) -> (r: Result<Vec<Statement>, StoreError>)
        ensures
            Planned::of(r) == self.writes(*at),
    {
        let expires_at: i64 = match fits_i64("DecisionRecorded.expires_at", self.expires_at) {
            Ok(v) => v,
            Err(e) => return Err(e),
        };
        let decided_at: i64 = match fits_i64("DecisionRecorded.decided_at", self.decided_at) {
            Ok(v) => v,
            Err(e) => return Err(e),
        };
        let mut row = Cells::new();
        row.put(Column::DecisionId, text(&self.decision_id));
        row.put(Column::TenantId, text(&self.project.tenant_id));
        row.put(Column::WorkspaceId, text(&self.project.workspace_id));
        row.put(Column::ProjectId, text(&self.project.project_id));
        row.put(Column::DecisionKeyJson, text(&self.decision_key_json));
        row.put(Column::OutcomeKind, text(self.outcome.name()));
        row.put(Column::Cached, SqlValue::Bool(self.cached));
        row.put(Column::ExpiresAt, SqlValue::Int8(expires_at));
        row.put(Column::DecidedAt, SqlValue::Int8(decided_at));
        row.put(Column::EventJson, text(&self.event_json));
        row.put(Column::RecordedAtMs, SqlValue::Int8(at.now));
        one(row.insert_new(Table::DecisionRecords, only(Column::DecisionId)))
    }
}

/// The decision cache was warmed up.
#[derive(Debug, PartialEq, Eq)]
pub struct DecisionCacheWarmup {
    pub warmed_at: u64,
    pub cached: u32,
    pub expired_and_dropped: u32,
}

impl DecisionCacheWarmup {
    /// What the event writes.
    pub open spec fn writes(self, at: Moment) -> Planned {
        if self.warmed_at > i64::MAX {
            Planned::Refused(
                ErrorView::exceeds(
                    "DecisionCacheWarmup.warmed_at"@,
                    self.warmed_at as nat,
                    "i64::MAX"@,
                ),
            )
        } else {
            Planned::Writes(
                seq![
                    RowView::new()
                        .put(Column::WarmedAt, ValueView::Int8(self.warmed_at as i64))
                        .put(Column::Cached, ValueView::Int8(self.cached as i64))
                        .put(
                            Column::ExpiredAndDropped,
                            ValueView::Int8(self.expired_and_dropped as i64),
                        )
                        .insert_new(Table::DecisionCacheWarmups, seq![Column::WarmedAt]),
                ],
            )
        }
    }

    /// Plans what the event writes.
    pub fn plan(&self, at: &Moment) -> (r: Result<Vec<Statement>, StoreError>)
        ensures
            Planned::of(r) == self.writes(*at),
    {
        let warmed_at: i64 = match fits_i64("DecisionCacheWarmup.warmed_at", self.warmed_at) {
            Ok(v) => v,
            Err(e) => return Err(e),
        };
        let mut row = Cells::new();
        row.put(Column::WarmedAt, SqlValue::Int8(warmed_at));
        row.put(Column::Cached, SqlValue::Int8(self.cached as i64));
        row.put(Column::ExpiredAndDropped, SqlValue::Int8(self.expired_and_dropped as i64));
        one(row.insert_new(Table::DecisionCacheWarmups, only(Column::WarmedAt)))
    }
}

} // verus!
