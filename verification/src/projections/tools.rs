//! What tool invocation events write.

use crate::domain::ProjectKey;
use crate::error::{ErrorView, StoreError};
use crate::plan::{none, one, Found, Moment, Planned};
use crate::schema::{Column, Table};
use crate::statement::{
    only, Cells, Changes, ChangesView, Filter, FilterView, Guard, GuardView, RowView, Source,
    SourceView, Statement,
};
use crate::text::fits_i64;
use crate::value::{json, opt_json, opt_text, text, SqlValue, ValueView};
use crate::vocabulary::ToolInvocationOutcomeKind;
use vstd::prelude::*;

verus! {

/// The name of the state that an invocation with this outcome ends in.
pub fn tool_invocation_terminal_state_str(outcome: ToolInvocationOutcomeKind) -> (r: String)
    ensures
        r@ == outcome.spec_terminal_state().spec_name(),
{
    outcome.terminal_state().name().to_owned()
}

/// A tool invocation started.
#[derive(Debug, PartialEq, Eq)]
pub struct ToolInvocationStarted {
    pub target_json: String,
    pub execution_class: String,
    pub invocation_id: String,
    pub project: ProjectKey,
    pub session_id: Option<String>,
    pub run_id: Option<String>,
    pub task_id: Option<String>,
    pub requested_at_ms: u64,
    pub started_at_ms: u64,
    pub args_json: Option<String>,
}

impl ToolInvocationStarted {
    /// What the event writes.
    pub open spec fn writes(self, at: Moment) -> Planned {
        Planned::Writes(
            seq![
                RowView::new()
                    .put(Column::InvocationId, ValueView::Text(self.invocation_id@))
                    .put(Column::TenantId, ValueView::Text(self.project.tenant_id@))
                    .put(Column::WorkspaceId, ValueView::Text(self.project.workspace_id@))
                    .put(Column::ProjectId, ValueView::Text(self.project.project_id@))
                    .put(Column::SessionId, ValueView::opt_text(self.session_id))
                    .put(Column::RunId, ValueView::opt_text(self.run_id))
                    .put(Column::TaskId, ValueView::opt_text(self.task_id))
                    .put(Column::Target, ValueView::Json(self.target_json@))
                    .put(Column::ExecutionClass, ValueView::Text(self.execution_class@))
                    .put(Column::State, ValueView::Text("started"@))
                    .put(Column::RequestedAtMs, ValueView::Int8(self.requested_at_ms as i64))
                    .put(Column::StartedAtMs, ValueView::Int8(self.started_at_ms as i64))
                    .put(Column::ArgsJson, ValueView::opt_json(self.args_json))
                    .put(Column::Version, ValueView::Int8(1))
                    .put(Column::CreatedAt, ValueView::Int8(at.now))
                    .put(Column::UpdatedAt, ValueView::Int8(at.now))
                    .insert(Table::ToolInvocations),
            ],
        )
    }

    /// Plans what the event writes.
    pub fn plan(&self, at: &Moment) -> (r: Result<Vec<Statement>, StoreError>)
        ensures
            Planned::of(r) == self.writes(*at),
    {
        let mut row = Cells::new();
        row.put(Column::InvocationId, text(&self.invocation_id));
        row.put(Column::TenantId, text(&self.project.tenant_id));
        row.put(Column::WorkspaceId, text(&self.project.workspace_id));
        row.put(Column::ProjectId, text(&self.project.project_id));
        row.put(Column::SessionId, opt_text(&self.session_id));
        row.put(Column::RunId, opt_text(&self.run_id));
        row.put(Column::TaskId, opt_text(&self.task_id));
        row.put(Column::Target, json(&self.target_json));
        row.put(Column::ExecutionClass, text(&self.execution_class));
        row.put(Column::State, text("started"));
        row.put(Column::RequestedAtMs, SqlValue::Int8(self.requested_at_ms as i64));
        row.put(Column::StartedAtMs, SqlValue::Int8(self.started_at_ms as i64));
        row.put(Column::ArgsJson, opt_json(&self.args_json));
        row.put(Column::Version, SqlValue::Int8(1));
        row.put(Column::CreatedAt, SqlValue::Int8(at.now));
        row.put(Column::UpdatedAt, SqlValue::Int8(at.now));
        one(row.insert(Table::ToolInvocations))
    }
}

/// A tool invocation completed. A missing preview keeps the stored one.
#[derive(Debug, PartialEq, Eq)]
pub struct ToolInvocationCompleted {
    pub outcome: ToolInvocationOutcomeKind,
    pub invocation_id: String,
    pub finished_at_ms: u64,
    pub output_preview: Option<String>,
}

impl ToolInvocationCompleted {
    /// What the event writes.
    pub open spec fn writes(self, at: Moment) -> Planned {
        Planned::Writes(
            seq![
                ChangesView::new()
                    .put(Column::State, ValueView::Text("completed"@))
                    .put(Column::Outcome, ValueView::Text(self.outcome.spec_name()))
                    .put(Column::FinishedAtMs, ValueView::Int8(self.finished_at_ms as i64))
                    .source(
                        Column::OutputPreview,
                        SourceView::ValueOrStored(ValueView::opt_text(self.output_preview)),
                    )
                    .source(Column::Version, SourceView::Plus(ValueView::Int8(1)))
                    .put(Column::UpdatedAt, ValueView::Int8(at.now))
                    .update(
                        Table::ToolInvocations,
                        FilterView::new()
                            .equals(Column::InvocationId, ValueView::Text(self.invocation_id@)),
                    ),
            ],
        )
    }

    /// Plans what the event writes.
    pub fn plan(&self, at: &Moment) -> (r: Result<Vec<Statement>, StoreError>)
        ensures
            Planned::of(r) == self.writes(*at),
    {
        let mut changes = Changes::new();
        changes.put(Column::State, text("completed"));
        changes.put(Column::Outcome, text(self.outcome.name()));
        changes.put(Column::FinishedAtMs, SqlValue::Int8(self.finished_at_ms as i64));
        changes.source(
            Column::OutputPreview,
            Source::ValueOrStored(opt_text(&self.output_preview)),
        );
        changes.source(Column::Version, Source::Plus(SqlValue::Int8(1)));
        changes.put(Column::UpdatedAt, SqlValue::Int8(at.now));
        let mut filter = Filter::new();
        filter.equals(Column::InvocationId, text(&self.invocation_id));
        one(changes.update(Table::ToolInvocations, filter))
    }
}

/// A tool invocation ended without success: failed, or canceled.
#[derive(Debug, PartialEq, Eq)]
pub struct ToolInvocationFailed {
    pub outcome: ToolInvocationOutcomeKind,
    pub invocation_id: String,
    pub error_message: Option<String>,
    pub finished_at_ms: u64,
    pub output_preview: Option<String>,
}

impl ToolInvocationFailed {
    /// What the event writes.
    pub open spec fn writes(self, at: Moment) -> Planned {
        Planned::Writes(
            seq![
                ChangesView::new()
                    .put(
                        Column::State,
                        ValueView::Text(self.outcome.spec_terminal_state().spec_name()),
                    )
                    .put(Column::Outcome, ValueView::Text(self.outcome.spec_name()))
                    .put(Column::ErrorMessage, ValueView::opt_text(self.error_message))
                    .put(Column::FinishedAtMs, ValueView::Int8(self.finished_at_ms as i64))
                    .source(
                        Column::OutputPreview,
                        SourceView::ValueOrStored(ValueView::opt_text(self.output_preview)),
                    )
                    .source(Column::Version, SourceView::Plus(ValueView::Int8(1)))
                    .put(Column::UpdatedAt, ValueView::Int8(at.now))
                    .update(
                        Table::ToolInvocations,
                        FilterView::new()
                            .equals(Column::InvocationId, ValueView::Text(self.invocation_id@)),
                    ),
            ],
        )
    }

    /// Plans what the event writes.
    pub fn plan(&self, at: &Moment) -> (r: Result<Vec<Statement>, StoreError>)
        ensures
            Planned::of(r) == self.writes(*at),
    {
        let mut changes = Changes::new();
        changes.put(
            Column::State,
            SqlValue::Text(tool_invocation_terminal_state_str(self.outcome)),
        );
        changes.put(Column::Outcome, text(self.outcome.name()));
        changes.put(Column::ErrorMessage, opt_text(&self.error_message));
        changes.put(Column::FinishedAtMs, SqlValue::Int8(self.finished_at_ms as i64));
        changes.source(
            Column::OutputPreview,
            Source::ValueOrStored(opt_text(&self.output_preview)),
        );
        changes.source(Column::Version, Source::Plus(SqlValue::Int8(1)));
        changes.put(Column::UpdatedAt, SqlValue::Int8(at.now));
        let mut filter = Filter::new();
        filter.equals(Column::InvocationId, text(&self.invocation_id));
        one(changes.update(Table::ToolInvocations, filter))
    }
}

/// A tool invocation was served from the cache.
#[derive(Debug, PartialEq, Eq)]
pub struct ToolInvocationCacheHit {
    pub original_completed_at_ms: u64,
    pub served_at_ms: u64,
    pub invocation_id: String,
    pub project: ProjectKey,
    pub run_id: Option<String>,
    pub task_id: Option<String>,
    pub tool_name: String,
    pub tool_call_id: String,
}

impl ToolInvocationCacheHit {
    /// What the event writes.
    pub open spec fn writes(self, at: Moment) -> Planned {
        if self.original_completed_at_ms > i64::MAX {
            Planned::Refused(
                ErrorView::exceeds(
                    "ToolInvocationCacheHit.original_completed_at_ms"@,
                    self.original_completed_at_ms as nat,
                    "i64::MAX"@,
                ),
            )
        } else if self.served_at_ms > i64::MAX {
            Planned::Refused(
                ErrorView::exceeds(
                    "ToolInvocationCacheHit.served_at_ms"@,
                    self.served_at_ms as nat,
                    "i64::MAX"@,
                ),
            )
        } else {
            Planned::Writes(
                seq![
                    RowView::new()
                        .put(Column::InvocationId, ValueView::Text(self.invocation_id@))
                        .put(Column::TenantId, ValueView::Text(self.project.tenant_id@))
                        .put(Column::WorkspaceId, ValueView::Text(self.project.workspace_id@))
                        .put(Column::ProjectId, ValueView::Text(self.project.project_id@))
                        .put(Column::RunId, ValueView::opt_text(self.run_id))
                        .put(Column::TaskId, ValueView::opt_text(self.task_id))
                        .put(Column::ToolName, ValueView::Text(self.tool_name@))
                        .put(Column::ToolCallId, ValueView::Text(self.tool_call_id@))
                        .put(
                            Column::OriginalCompletedAtMs,
                            ValueView::Int8(self.original_completed_at_ms as i64),
                        )
                        .put(Column::ServedAtMs, ValueView::Int8(self.served_at_ms as i64))
                        .insert_new(Table::ToolInvocationCacheHits, seq![Column::InvocationId]),
                ],
            )
        }
    }

    /// Plans what the event writes.
    pub fn plan(&self, at: &Moment) -> (r: Result<Vec<Statement>, StoreError>)
        ensures
            Planned::of(r) == self.writes(*at),
    {
        let original_completed_at: i64 = match fits_i64(
            "ToolInvocationCacheHit.original_completed_at_ms",
            self.original_completed_at_ms,
        ) {
            Ok(v) => v,
            Err(e) => return Err(e),
        };
        let served_at: i64 = match fits_i64(
            "ToolInvocationCacheHit.served_at_ms",
            self.served_at_ms,
        ) {
            Ok(v) => v,
            Err(e) => return Err(e),
        };
        let mut row = Cells::new();
        row.put(Column::InvocationId, text(&self.invocation_id));
        row.put(Column::TenantId, text(&self.project.tenant_id));
        row.put(Column::WorkspaceId, text(&self.project.workspace_id));
        row.put(Column::ProjectId, text(&self.project.project_id));
        row.put(Column::RunId, opt_text(&self.run_id));
        row.put(Column::TaskId, opt_text(&self.task_id));
        row.put(Column::ToolName, text(&self.tool_name));
        row.put(Column::ToolCallId, text(&self.tool_call_id));
        row.put(Column::OriginalCompletedAtMs, SqlValue::Int8(original_completed_at));
        row.put(Column::ServedAtMs, SqlValue::Int8(served_at));
        one(row.insert_new(Table::ToolInvocationCacheHits, only(Column::InvocationId)))
    }
}

/// A tool invocation reported progress. An older report leaves a newer
/// one alone; one on an unknown invocation is stored nowhere.
#[derive(Debug, PartialEq, Eq)]
pub struct ToolInvocationProgressUpdated {
    pub updated_at_ms: u64,
    pub invocation_id: String,
    pub progress_pct: u8,
    pub message: Option<String>,
}

impl ToolInvocationProgressUpdated {
    /// What the event writes.
    pub open spec fn writes(self, at: Moment, found: Found) -> Planned {
        match found.scope {
            None => Planned::Writes(Seq::empty()),
            Some(scope) => if self.updated_at_ms > i64::MAX {
                Planned::Refused(
                    ErrorView::exceeds(
                        "ToolInvocationProgressUpdated.updated_at_ms"@,
                        self.updated_at_ms as nat,
                        "i64::MAX"@,
                    ),
                )
            } else {
                Planned::Writes(
                    seq![
                        RowView::new()
                            .put(Column::InvocationId, ValueView::Text(self.invocation_id@))
                            .put(Column::TenantId, ValueView::Text(scope.tenant_id@))
                            .put(Column::WorkspaceId, ValueView::Text(scope.workspace_id@))
                            .put(Column::ProjectId, ValueView::Text(scope.project_id@))
                            .put(Column::ProgressPct, ValueView::Int2(self.progress_pct as i16))
                            .put(Column::Message, ValueView::opt_text(self.message))
                            .put(Column::UpdatedAtMs, ValueView::Int8(self.updated_at_ms as i64))
                            .guarded_upsert(
                                Table::ToolInvocationProgress,
                                seq![Column::InvocationId],
                                ChangesView::new()
                                    .excluded(Column::ProgressPct)
                                    .excluded(Column::Message)
                                    .excluded(Column::UpdatedAtMs),
                                GuardView::ExcludedAtLeastStored(Column::UpdatedAtMs),
                            ),
                    ],
                )
            },
        }
    }

    /// Plans what the event writes.
    pub fn plan(&self, at: &Moment, found: &Found) -> (r: Result<Vec<Statement>, StoreError>)
        ensures
            Planned::of(r) == self.writes(*at, *found),
    {
        let scope = match &found.scope {
            Some(key) => key,
            None => return none(),
        };
        let updated_at: i64 = match fits_i64(
            "ToolInvocationProgressUpdated.updated_at_ms",
            self.updated_at_ms,
        ) {
            Ok(v) => v,
            Err(e) => return Err(e),
        };
        let mut row = Cells::new();
        row.put(Column::InvocationId, text(&self.invocation_id));
        row.put(Column::TenantId, text(&scope.tenant_id));
        row.put(Column::WorkspaceId, text(&scope.workspace_id));
        row.put(Column::ProjectId, text(&scope.project_id));
        row.put(Column::ProgressPct, SqlValue::Int2(self.progress_pct as i16));
        row.put(Column::Message, opt_text(&self.message));
        row.put(Column::UpdatedAtMs, SqlValue::Int8(updated_at));
        let mut changes = Changes::new();
        changes.excluded(Column::ProgressPct);
        changes.excluded(Column::Message);
        changes.excluded(Column::UpdatedAtMs);
        one(
            row.guarded_upsert(
                Table::ToolInvocationProgress,
                only(Column::InvocationId),
                changes,
                Guard::ExcludedAtLeastStored(Column::UpdatedAtMs),
            ),
        )
    }
}

/// The recovery of a tool call was paused.
#[derive(Debug, PartialEq, Eq)]
pub struct ToolRecoveryPaused {
    pub paused_at_ms: u64,
    pub tool_call_id: String,
    pub project: ProjectKey,
    pub run_id: String,
    pub task_id: Option<String>,
    pub tool_name: String,
    pub reason: String,
}

impl ToolRecoveryPaused {
    /// What the event writes.
    pub open spec fn writes(self, at: Moment) -> Planned {
        if self.paused_at_ms > i64::MAX {
            Planned::Refused(
                ErrorView::exceeds(
                    "ToolRecoveryPaused.paused_at_ms"@,
                    self.paused_at_ms as nat,
                    "i64::MAX"@,
                ),
            )
        } else {
            Planned::Writes(
                seq![
                    RowView::new()
                        .put(Column::ToolCallId, ValueView::Text(self.tool_call_id@))
                        .put(Column::TenantId, ValueView::Text(self.project.tenant_id@))
                        .put(Column::WorkspaceId, ValueView::Text(self.project.workspace_id@))
                        .put(Column::ProjectId, ValueView::Text(self.project.project_id@))
                        .put(Column::RunId, ValueView::Text(self.run_id@))
                        .put(Column::TaskId, ValueView::opt_text(self.task_id))
                        .put(Column::ToolName, ValueView::Text(self.tool_name@))
                        .put(Column::Reason, ValueView::Text(self.reason@))
                        .put(Column::PausedAtMs, ValueView::Int8(self.paused_at_ms as i64))
                        .insert_new(Table::ToolRecoveryPauses, seq![Column::ToolCallId]),
                ],
            )
        }
    }

    /// Plans what the event writes.
    pub fn plan(&self, at: &Moment) -> (r: Result<Vec<Statement>, StoreError>)
        ensures
            Planned::of(r) == self.writes(*at),
    {
        let paused_at: i64 = match fits_i64("ToolRecoveryPaused.paused_at_ms", self.paused_at_ms) {
            Ok(v) => v,
            Err(e) => return Err(e),
        };
        let mut row = Cells::new();
        row.put(Column::ToolCallId, text(&self.tool_call_id));
        row.put(Column::TenantId, text(&self.project.tenant_id));
        row.put(Column::WorkspaceId, text(&self.project.workspace_id));
        row.put(Column::ProjectId, text(&self.project.project_id));
        row.put(Column::RunId, text(&self.run_id));
        row.put(Column::TaskId, opt_text(&self.task_id));
        row.put(Column::ToolName, text(&self.tool_name));
        row.put(Column::Reason, text(&self.reason));
        row.put(Column::PausedAtMs, SqlValue::Int8(paused_at));
        one(row.insert_new(Table::ToolRecoveryPauses, only(Column::ToolCallId)))
    }
}

} // verus!
