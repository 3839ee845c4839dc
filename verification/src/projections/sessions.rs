//! What session events write.

use crate::domain::ProjectKey;
use crate::error::{ErrorView, StoreError};
use crate::plan::{one, Moment, Planned};
use crate::schema::{Column, Table};
use crate::statement::{
    only, Cells, Changes, ChangesView, Filter, FilterView, RowView, Source, SourceView,
    Statement,
};
use crate::text::{fits_i32, fits_i64};
use crate::value::{opt_text, text, SqlValue, ValueView};
use vstd::prelude::*;

verus! {

/// A session was opened.
#[derive(Debug, PartialEq, Eq)]
pub struct SessionCreated {
    pub session_id: String,
    pub project: ProjectKey,
}

impl SessionCreated {
    /// What the event writes.
    pub open spec fn writes(self, at: Moment) -> Planned {
        Planned::Writes(
            seq![
                RowView::new()
                    .put(Column::SessionId, ValueView::Text(self.session_id@))
                    .put(Column::TenantId, ValueView::Text(self.project.tenant_id@))
                    .put(Column::WorkspaceId, ValueView::Text(self.project.workspace_id@))
                    .put(Column::ProjectId, ValueView::Text(self.project.project_id@))
                    .put(Column::State, ValueView::Text("open"@))
                    .put(Column::Version, ValueView::Int8(1))
                    .put(Column::CreatedAt, ValueView::Int8(at.now))
                    .put(Column::UpdatedAt, ValueView::Int8(at.now))
                    .insert(Table::Sessions),
            ],
        )
    }

    /// Plans what the event writes.
    pub fn plan(&self, at: &Moment) -> (r: Result<Vec<Statement>, StoreError>)
        ensures
            Planned::of(r) == self.writes(*at),
    {
        let mut row = Cells::new();
        row.put(Column::SessionId, text(&self.session_id));
        row.put(Column::TenantId, text(&self.project.tenant_id));
        row.put(Column::WorkspaceId, text(&self.project.workspace_id));
        row.put(Column::ProjectId, text(&self.project.project_id));
        row.put(Column::State, text("open"));
        row.put(Column::Version, SqlValue::Int8(1));
        row.put(Column::CreatedAt, SqlValue::Int8(at.now));
        row.put(Column::UpdatedAt, SqlValue::Int8(at.now));
        one(row.insert(Table::Sessions))
    }
}

/// A session moved to another state.
#[derive(Debug, PartialEq, Eq)]
pub struct SessionStateChanged {
    pub to: String,
    pub session_id: String,
}

impl SessionStateChanged {
    /// What the event writes.
    pub open spec fn writes(self, at: Moment) -> Planned {
        Planned::Writes(
            seq![
                ChangesView::new()
                    .put(Column::State, ValueView::Text(self.to@))
                    .source(Column::Version, SourceView::Plus(ValueView::Int8(1)))
                    .put(Column::UpdatedAt, ValueView::Int8(at.now))
                    .update(
                        Table::Sessions,
                        FilterView::new()
                            .equals(Column::SessionId, ValueView::Text(self.session_id@)),
                    ),
            ],
        )
    }

    /// Plans what the event writes.
    pub fn plan(&self, at: &Moment) -> (r: Result<Vec<Statement>, StoreError>)
        ensures
            Planned::of(r) == self.writes(*at),
    {
        let mut changes = Changes::new();
        changes.put(Column::State, text(&self.to));
        changes.source(Column::Version, Source::Plus(SqlValue::Int8(1)));
        changes.put(Column::UpdatedAt, SqlValue::Int8(at.now));
        let mut filter = Filter::new();
        filter.equals(Column::SessionId, text(&self.session_id));
        one(changes.update(Table::Sessions, filter))
    }
}

/// An attempt of a session started. The counts never go down.
#[derive(Debug, PartialEq, Eq)]
pub struct SessionAttemptStarted {
    pub attempt_number: u32,
    pub max_attempts: u32,
    pub session_id: String,
}

impl SessionAttemptStarted {
    /// What the event writes.
    pub open spec fn writes(self, at: Moment) -> Planned {
        if self.attempt_number > i32::MAX {
            Planned::Refused(
                ErrorView::exceeds(
                    "SessionAttemptStarted.attempt_number"@,
                    self.attempt_number as nat,
                    "i32::MAX"@,
                ),
            )
        } else if self.max_attempts > i32::MAX {
            Planned::Refused(
                ErrorView::exceeds(
                    "SessionAttemptStarted.max_attempts"@,
                    self.max_attempts as nat,
                    "i32::MAX"@,
                ),
            )
        } else {
            Planned::Writes(
                seq![
                    ChangesView::new()
                        .source(
                            Column::AttemptsUsed,
                            SourceView::Greatest(ValueView::Int4(self.attempt_number as i32)),
                        )
                        .source(
                            Column::MaxAttempts,
                            SourceView::Greatest(ValueView::Int4(self.max_attempts as i32)),
                        )
                        .source(Column::Version, SourceView::Plus(ValueView::Int8(1)))
                        .put(Column::UpdatedAt, ValueView::Int8(at.now))
                        .update(
                            Table::Sessions,
                            FilterView::new()
                                .equals(Column::SessionId, ValueView::Text(self.session_id@)),
                        ),
                ],
            )
        }
    }

    /// Plans what the event writes.
    pub fn plan(&self, at: &Moment) -> (r: Result<Vec<Statement>, StoreError>)
        ensures
            Planned::of(r) == self.writes(*at),
    {
        let attempt: i32 = match fits_i32(
            "SessionAttemptStarted.attempt_number",
            self.attempt_number,
        ) {
            Ok(v) => v,
            Err(e) => return Err(e),
        };
        let max_attempts: i32 = match fits_i32(
            "SessionAttemptStarted.max_attempts",
            self.max_attempts,
        ) {
            Ok(v) => v,
            Err(e) => return Err(e),
        };
        let mut changes = Changes::new();
        changes.source(Column::AttemptsUsed, Source::Greatest(SqlValue::Int4(attempt)));
        changes.source(Column::MaxAttempts, Source::Greatest(SqlValue::Int4(max_attempts)));
        changes.source(Column::Version, Source::Plus(SqlValue::Int8(1)));
        changes.put(Column::UpdatedAt, SqlValue::Int8(at.now));
        let mut filter = Filter::new();
        filter.equals(Column::SessionId, text(&self.session_id));
        one(changes.update(Table::Sessions, filter))
    }
}

/// A root run of a session came to its outcome.
#[derive(Debug, PartialEq, Eq)]
pub struct SessionOutcomeEmitted {
    pub termination_reason: String,
    pub termination_reason_json: String,
    pub cost_micros: u64,
    pub emitted_at: u64,
    pub root_run_id: String,
    pub project: ProjectKey,
    pub session_id: String,
    pub checkpoint_id: String,
    pub workspace_snapshot_id: Option<String>,
    pub compacted_summary: String,
    pub next_step_hint: Option<String>,
}

impl SessionOutcomeEmitted {
    /// What the event writes.
    pub open spec fn writes(self, at: Moment) -> Planned {
        if self.cost_micros > i64::MAX {
            Planned::Refused(
                ErrorView::exceeds(
                    "SessionOutcome.cost_micros"@,
                    self.cost_micros as nat,
                    "i64::MAX"@,
                ),
            )
        } else if self.emitted_at > i64::MAX {
            Planned::Refused(
                ErrorView::exceeds(
                    "SessionOutcome.emitted_at"@,
                    self.emitted_at as nat,
                    "i64::MAX"@,
                ),
            )
        } else {
            Planned::Writes(
                seq![
                    RowView::new()
                        .put(Column::RootRunId, ValueView::Text(self.root_run_id@))
                        .put(Column::TenantId, ValueView::Text(self.project.tenant_id@))
                        .put(Column::WorkspaceScope, ValueView::Text(self.project.workspace_id@))
                        .put(Column::ProjectId, ValueView::Text(self.project.project_id@))
                        .put(Column::SessionId, ValueView::Text(self.session_id@))
                        .put(Column::CheckpointId, ValueView::Text(self.checkpoint_id@))
                        .put(
                            Column::WorkspaceSnapshotId,
                            ValueView::opt_text(self.workspace_snapshot_id),
                        )
                        .put(Column::TerminationReason, ValueView::Text(self.termination_reason@))
                        .put(
                            Column::TerminationReasonJson,
                            ValueView::Text(self.termination_reason_json@),
                        )
                        .put(Column::CompactedSummary, ValueView::Text(self.compacted_summary@))
                        .put(Column::NextStepHint, ValueView::opt_text(self.next_step_hint))
                        .put(Column::CostMicros, ValueView::Int8(self.cost_micros as i64))
                        .put(Column::CreatedAt, ValueView::Int8(self.emitted_at as i64))
                        .upsert(
                            Table::SessionOutcomes,
                            seq![Column::RootRunId],
                            ChangesView::new()
                                .excluded(Column::WorkspaceSnapshotId)
                                .excluded(Column::TerminationReason)
                                .excluded(Column::TerminationReasonJson)
                                .excluded(Column::CompactedSummary)
                                .excluded(Column::NextStepHint)
                                .excluded(Column::CostMicros),
                        ),
                ],
            )
        }
    }

    /// Plans what the event writes.
    pub fn plan(&self, at: &Moment) -> (r: Result<Vec<Statement>, StoreError>)
        ensures
            Planned::of(r) == self.writes(*at),
    {
        let cost_micros: i64 = match fits_i64("SessionOutcome.cost_micros", self.cost_micros) {
            Ok(v) => v,
            Err(e) => return Err(e),
        };
        let created_at: i64 = match fits_i64("SessionOutcome.emitted_at", self.emitted_at) {
            Ok(v) => v,
            Err(e) => return Err(e),
        };
        let mut row = Cells::new();
        row.put(Column::RootRunId, text(&self.root_run_id));
        row.put(Column::TenantId, text(&self.project.tenant_id));
        row.put(Column::WorkspaceScope, text(&self.project.workspace_id));
        row.put(Column::ProjectId, text(&self.project.project_id));
        row.put(Column::SessionId, text(&self.session_id));
        row.put(Column::CheckpointId, text(&self.checkpoint_id));
        row.put(Column::WorkspaceSnapshotId, opt_text(&self.workspace_snapshot_id));
        row.put(Column::TerminationReason, text(&self.termination_reason));
        row.put(Column::TerminationReasonJson, text(&self.termination_reason_json));
        row.put(Column::CompactedSummary, text(&self.compacted_summary));
        row.put(Column::NextStepHint, opt_text(&self.next_step_hint));
        row.put(Column::CostMicros, SqlValue::Int8(cost_micros));
        row.put(Column::CreatedAt, SqlValue::Int8(created_at));
        let mut changes = Changes::new();
        changes.excluded(Column::WorkspaceSnapshotId);
        changes.excluded(Column::TerminationReason);
        changes.excluded(Column::TerminationReasonJson);
        changes.excluded(Column::CompactedSummary);
        changes.excluded(Column::NextStepHint);
        changes.excluded(Column::CostMicros);
        one(row.upsert(Table::SessionOutcomes, only(Column::RootRunId), changes))
    }
}

/// A user message was appended to a run.
#[derive(Debug, PartialEq, Eq)]
pub struct UserMessageAppended {
    pub appended_at_ms: u64,
    pub sequence: u64,
    pub run_id: String,
    pub project: ProjectKey,
    pub session_id: String,
    pub content: String,
}

impl UserMessageAppended {
    /// What the event writes.
    pub open spec fn writes(self, at: Moment) -> Planned {
        if self.appended_at_ms > i64::MAX {
            Planned::Refused(
                ErrorView::exceeds(
                    "UserMessageAppended.appended_at_ms"@,
                    self.appended_at_ms as nat,
                    "i64::MAX"@,
                ),
            )
        } else if self.sequence > i64::MAX {
            Planned::Refused(
                ErrorView::exceeds(
                    "UserMessageAppended.sequence"@,
                    self.sequence as nat,
                    "i64::MAX"@,
                ),
            )
        } else {
            Planned::Writes(
                seq![
                    RowView::new()
                        .put(Column::RunId, ValueView::Text(self.run_id@))
                        .put(Column::Sequence, ValueView::Int8(self.sequence as i64))
                        .put(Column::TenantId, ValueView::Text(self.project.tenant_id@))
                        .put(Column::WorkspaceId, ValueView::Text(self.project.workspace_id@))
                        .put(Column::ProjectId, ValueView::Text(self.project.project_id@))
                        .put(Column::SessionId, ValueView::Text(self.session_id@))
                        .put(Column::EventId, ValueView::Text(at.event_id@))
                        .put(Column::Content, ValueView::Text(self.content@))
                        .put(Column::AppendedAtMs, ValueView::Int8(self.appended_at_ms as i64))
                        .insert_new(Table::UserMessages, seq![Column::RunId, Column::Sequence]),
                ],
            )
        }
    }

    /// Plans what the event writes.
    pub fn plan(&self, at: &Moment) -> (r: Result<Vec<Statement>, StoreError>)
        ensures
            Planned::of(r) == self.writes(*at),
    {
        let appended_at: i64 = match fits_i64(
            "UserMessageAppended.appended_at_ms",
            self.appended_at_ms,
        ) {
            Ok(v) => v,
            Err(e) => return Err(e),
        };
        let sequence: i64 = match fits_i64("UserMessageAppended.sequence", self.sequence) {
            Ok(v) => v,
            Err(e) => return Err(e),
        };
        let mut row = Cells::new();
        row.put(Column::RunId, text(&self.run_id));
        row.put(Column::Sequence, SqlValue::Int8(sequence));
        row.put(Column::TenantId, text(&self.project.tenant_id));
        row.put(Column::WorkspaceId, text(&self.project.workspace_id));
        row.put(Column::ProjectId, text(&self.project.project_id));
        row.put(Column::SessionId, text(&self.session_id));
        row.put(Column::EventId, text(&at.event_id));
        row.put(Column::Content, text(&self.content));
        row.put(Column::AppendedAtMs, SqlValue::Int8(appended_at));
        one(row.insert_new(Table::UserMessages, vec![Column::RunId, Column::Sequence]))
    }
}

/// A model completion was recorded.
#[derive(Debug, PartialEq, Eq)]
pub struct LlmCompletionRecorded {
    pub trace_id: String,
    pub project: ProjectKey,
    pub session_id: String,
    pub run_id: Option<String>,
    pub model_id: String,
    pub system_prompt: String,
    pub messages_json: String,
    pub response_text: String,
    pub tool_calls_json: String,
    pub tool_defs_json: String,
    pub recorded_at_ms: u64,
}

impl LlmCompletionRecorded {
    /// What the event writes.
    pub open spec fn writes(self, at: Moment) -> Planned {
        Planned::Writes(
            seq![
                RowView::new()
                    .put(Column::TraceId, ValueView::Text(self.trace_id@))
                    .put(Column::TenantId, ValueView::Text(self.project.tenant_id@))
                    .put(Column::WorkspaceId, ValueView::Text(self.project.workspace_id@))
                    .put(Column::ProjectId, ValueView::Text(self.project.project_id@))
                    .put(Column::SessionId, ValueView::Text(self.session_id@))
                    .put(Column::RunId, ValueView::opt_text(self.run_id))
                    .put(Column::ModelId, ValueView::Text(self.model_id@))
                    .put(Column::SystemPrompt, ValueView::Text(self.system_prompt@))
                    .put(Column::MessagesJson, ValueView::Text(self.messages_json@))
                    .put(Column::ResponseText, ValueView::Text(self.response_text@))
                    .put(Column::ToolCallsJson, ValueView::Text(self.tool_calls_json@))
                    .put(Column::ToolDefsJson, ValueView::Text(self.tool_defs_json@))
                    .put(Column::RecordedAtMs, ValueView::Int8(self.recorded_at_ms as i64))
                    .put(Column::CreatedAt, ValueView::Int8(at.now))
                    .insert_new(Table::LlmCompletions, seq![Column::TraceId]),
            ],
        )
    }

    /// Plans what the event writes.
    pub fn plan(&self, at: &Moment) -> (r: Result<Vec<Statement>, StoreError>)
        ensures
            Planned::of(r) == self.writes(*at),
    {
        let mut row = Cells::new();
        row.put(Column::TraceId, text(&self.trace_id));
        row.put(Column::TenantId, text(&self.project.tenant_id));
        row.put(Column::WorkspaceId, text(&self.project.workspace_id));
        row.put(Column::ProjectId, text(&self.project.project_id));
        row.put(Column::SessionId, text(&self.session_id));
        row.put(Column::RunId, opt_text(&self.run_id));
        row.put(Column::ModelId, text(&self.model_id));
        row.put(Column::SystemPrompt, text(&self.system_prompt));
        row.put(Column::MessagesJson, text(&self.messages_json));
        row.put(Column::ResponseText, text(&self.response_text));
        row.put(Column::ToolCallsJson, text(&self.tool_calls_json));
        row.put(Column::ToolDefsJson, text(&self.tool_defs_json));
        row.put(Column::RecordedAtMs, SqlValue::Int8(self.recorded_at_ms as i64));
        row.put(Column::CreatedAt, SqlValue::Int8(at.now));
        one(row.insert_new(Table::LlmCompletions, only(Column::TraceId)))
    }
}

} // verus!
