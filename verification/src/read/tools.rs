//! Tool calls.

use crate::domain::{DomainNames, ProjectKey};
use crate::error::{ErrorView, StoreError};
use crate::model::Datum;
use crate::query::{Output, OutputView, Query, QueryView};
use crate::read::{
    Decoded, StoredRow, decoded_fault, name_fault, opt_name_fault, to_floor8, to_opt_unsigned8,
};
use crate::schema::{Column, Table};
use crate::text::push_signed;
use crate::value::{ValueView, text};
use vstd::prelude::*;
use vstd::string::*;

verus! {

/// A row of `tool_invocations`.
#[derive(Debug, PartialEq, Eq)]
pub struct ToolInvocationRow {
    pub invocation_id: String,
    pub tenant_id: String,
    pub workspace_id: String,
    pub project_id: String,
    pub session_id: Option<String>,
    pub run_id: Option<String>,
    pub task_id: Option<String>,
    pub target: Decoded,
    pub execution_class: String,
    pub state: String,
    pub outcome: Option<String>,
    pub error_message: Option<String>,
    pub version: i64,
    pub requested_at_ms: i64,
    pub started_at_ms: Option<i64>,
    pub finished_at_ms: Option<i64>,
    pub args_json: Option<String>,
    pub output_preview: Option<String>,
}

/// A call of a tool.
#[derive(Debug, PartialEq, Eq)]
pub struct ToolInvocationRecord {
    pub invocation_id: String,
    pub project: ProjectKey,
    pub session_id: Option<String>,
    pub run_id: Option<String>,
    pub task_id: Option<String>,
    pub prompt_release_id: Option<String>,
    pub target: String,
    pub execution_class: String,
    pub state: String,
    pub version: u64,
    pub requested_at_ms: u64,
    pub started_at_ms: Option<u64>,
    pub finished_at_ms: Option<u64>,
    pub outcome: Option<String>,
    pub error_message: Option<String>,
    pub args_json: Option<String>,
    pub output_preview: Option<String>,
}

impl ToolInvocationRow {
    /// The columns that the row is read from.
    pub open spec fn spec_columns() -> Seq<Column> {
        seq![
            Column::InvocationId,
            Column::TenantId,
            Column::WorkspaceId,
            Column::ProjectId,
            Column::SessionId,
            Column::RunId,
            Column::TaskId,
            Column::Target,
            Column::ExecutionClass,
            Column::State,
            Column::Outcome,
            Column::ErrorMessage,
            Column::Version,
            Column::RequestedAtMs,
            Column::StartedAtMs,
            Column::FinishedAtMs,
            Column::ArgsJson,
            Column::OutputPreview,
        ]
    }

    fn columns() -> (r: Vec<Column>)
        ensures
            r@ == Self::spec_columns(),
    {
        vec![
            Column::InvocationId,
            Column::TenantId,
            Column::WorkspaceId,
            Column::ProjectId,
            Column::SessionId,
            Column::RunId,
            Column::TaskId,
            Column::Target,
            Column::ExecutionClass,
            Column::State,
            Column::Outcome,
            Column::ErrorMessage,
            Column::Version,
            Column::RequestedAtMs,
            Column::StartedAtMs,
            Column::FinishedAtMs,
            Column::ArgsJson,
            Column::OutputPreview,
        ]
    }

    /// Whether this is what a stored row holds in those columns.
    pub open spec fn is_of(self, row: crate::model::Row) -> bool {
        &&& crate::model::value(row, Column::InvocationId) == Datum::Text(self.invocation_id@)
        &&& crate::model::value(row, Column::TenantId) == Datum::Text(self.tenant_id@)
        &&& crate::model::value(row, Column::WorkspaceId) == Datum::Text(self.workspace_id@)
        &&& crate::model::value(row, Column::ProjectId) == Datum::Text(self.project_id@)
        &&& crate::model::value(row, Column::SessionId) == Datum::opt_text(self.session_id)
        &&& crate::model::value(row, Column::RunId) == Datum::opt_text(self.run_id)
        &&& crate::model::value(row, Column::TaskId) == Datum::opt_text(self.task_id)
        &&& crate::model::value(row, Column::Target) == Datum::Json(self.target.text@)
        &&& crate::model::value(row, Column::ExecutionClass) == Datum::Text(self.execution_class@)
        &&& crate::model::value(row, Column::State) == Datum::Text(self.state@)
        &&& crate::model::value(row, Column::Outcome) == Datum::opt_text(self.outcome)
        &&& crate::model::value(row, Column::ErrorMessage) == Datum::opt_text(self.error_message)
        &&& crate::model::value(row, Column::Version) == Datum::Int(self.version as int)
        &&& crate::model::value(row, Column::RequestedAtMs) == Datum::Int(
            self.requested_at_ms as int,
        )
        &&& crate::model::value(row, Column::StartedAtMs) == Datum::opt_int8(self.started_at_ms)
        &&& crate::model::value(row, Column::FinishedAtMs) == Datum::opt_int8(self.finished_at_ms)
        &&& crate::model::value(row, Column::ArgsJson) == Datum::opt_json(self.args_json)
        &&& crate::model::value(row, Column::OutputPreview) == Datum::opt_text(self.output_preview)
    }

    /// The query of [`ToolInvocationRow::get`].
    pub open spec fn spec_get(invocation_id: Seq<char>) -> QueryView {
        QueryView::on(Table::ToolInvocations, OutputView::Rows(Self::spec_columns()))
            .equals(Column::InvocationId, ValueView::Text(invocation_id))
    }

    /// Finds a call.
    pub fn get(invocation_id: &str) -> (r: Query)
        ensures
            r@ == Self::spec_get(invocation_id@),
    {
        Query::on(Table::ToolInvocations, Output::Rows(Self::columns()))
            .equals(Column::InvocationId, text(invocation_id))
    }

    /// The query of [`ToolInvocationRow::list_by_run`].
    pub open spec fn spec_list_by_run(run_id: Seq<char>, limit: usize, offset: usize) -> QueryView {
        QueryView::on(Table::ToolInvocations, OutputView::Rows(Self::spec_columns()))
            .equals(Column::RunId, ValueView::Text(run_id))
            .ascending(Column::RequestedAtMs)
            .ascending(Column::InvocationId)
            .limit(limit as i64)
            .offset(offset as i64)
    }

    /// The calls of a run, the first requested first.
    pub fn list_by_run(run_id: &str, limit: usize, offset: usize) -> (r: Query)
        ensures
            r@ == Self::spec_list_by_run(run_id@, limit, offset),
    {
        Query::on(Table::ToolInvocations, Output::Rows(Self::columns()))
            .equals(Column::RunId, text(run_id))
            .ascending(Column::RequestedAtMs)
            .ascending(Column::InvocationId)
            .limit(limit as i64)
            .offset(offset as i64)
    }
}

impl StoredRow for ToolInvocationRow {
    type Record = ToolInvocationRecord;

    open spec fn fault(&self, names: &DomainNames) -> Option<ErrorView> {
        if self.target.fault is Some {
            Some(ErrorView::Serialization(self.target.fault->Some_0@))
        } else if !names.execution_classes.deep_view().contains(self.execution_class@) {
            Some(
                ErrorView::unknown_name(self.execution_class@, names.execution_classes.deep_view()),
            )
        } else if !names.invocation_states.deep_view().contains(self.state@) {
            Some(ErrorView::unknown_name(self.state@, names.invocation_states.deep_view()))
        } else if self.outcome is Some
            && !names.invocation_outcomes.deep_view().contains(self.outcome->Some_0@) {
            Some(
                ErrorView::unknown_name(
                    self.outcome->Some_0@,
                    names.invocation_outcomes.deep_view(),
                ),
            )
        } else {
            None
        }
    }

    open spec fn holds(&self, names: &DomainNames, record: &ToolInvocationRecord) -> bool {
        &&& record.invocation_id == self.invocation_id
        &&& record.project == (ProjectKey {
            tenant_id: self.tenant_id,
            workspace_id: self.workspace_id,
            project_id: self.project_id,
        })
        &&& record.session_id == self.session_id
        &&& record.run_id == self.run_id
        &&& record.task_id == self.task_id
        &&& record.prompt_release_id is None
        &&& record.target == self.target.text
        &&& record.execution_class == self.execution_class
        &&& record.state == self.state
        &&& record.version == self.version as u64
        &&& record.requested_at_ms == self.requested_at_ms as u64
        &&& record.started_at_ms == crate::read::opt_unsigned8(self.started_at_ms)
        &&& record.finished_at_ms == crate::read::opt_unsigned8(self.finished_at_ms)
        &&& record.outcome == self.outcome
        &&& record.error_message == self.error_message
        &&& record.args_json == self.args_json
        &&& record.output_preview == self.output_preview
    }

    fn into_record(self, names: &DomainNames) -> (r: Result<ToolInvocationRecord, StoreError>) {
        if let Some(e) = decoded_fault(&self.target) {
            return Err(e);
        }
        if let Some(e) = name_fault(&self.execution_class, &names.execution_classes) {
            return Err(e);
        }
        if let Some(e) = name_fault(&self.state, &names.invocation_states) {
            return Err(e);
        }
        if let Some(e) = opt_name_fault(&self.outcome, &names.invocation_outcomes) {
            return Err(e);
        }
        Ok(
            ToolInvocationRecord {
                invocation_id: self.invocation_id,
                project: ProjectKey {
                    tenant_id: self.tenant_id,
                    workspace_id: self.workspace_id,
                    project_id: self.project_id,
                },
                session_id: self.session_id,
                run_id: self.run_id,
                task_id: self.task_id,
                prompt_release_id: None,
                target: self.target.text,
                execution_class: self.execution_class,
                state: self.state,
                version: self.version as u64,
                requested_at_ms: self.requested_at_ms as u64,
                started_at_ms: to_opt_unsigned8(self.started_at_ms),
                finished_at_ms: to_opt_unsigned8(self.finished_at_ms),
                outcome: self.outcome,
                error_message: self.error_message,
                args_json: self.args_json,
                output_preview: self.output_preview,
            },
        )
    }
}

/// A row of `tool_invocation_progress`, with the call that it was found by.
#[derive(Debug, PartialEq, Eq)]
pub struct ToolInvocationProgressRow {
    pub tenant_id: String,
    pub workspace_id: String,
    pub project_id: String,
    pub progress_pct: i16,
    pub message: Option<String>,
    pub updated_at_ms: i64,
    pub invocation_id: String,
}

/// How far a call of a tool got.
#[derive(Debug, PartialEq, Eq)]
pub struct ToolInvocationProgressRecord {
    pub invocation_id: String,
    pub project: ProjectKey,
    pub progress_pct: u8,
    pub message: Option<String>,
    pub updated_at_ms: u64,
}

impl ToolInvocationProgressRow {
    /// The row as it was found, with the call that it was found by.
    pub fn of_invocation(self, invocation_id: &str) -> (r: ToolInvocationProgressRow)
        ensures
            r == (ToolInvocationProgressRow { invocation_id: r.invocation_id, ..self }),
            r.invocation_id@ == invocation_id@,
    {
        ToolInvocationProgressRow { invocation_id: invocation_id.to_owned(), ..self }
    }

    /// The columns that the row is read from.
    pub open spec fn spec_columns() -> Seq<Column> {
        seq![
            Column::TenantId,
            Column::WorkspaceId,
            Column::ProjectId,
            Column::ProgressPct,
            Column::Message,
            Column::UpdatedAtMs,
        ]
    }

    fn columns() -> (r: Vec<Column>)
        ensures
            r@ == Self::spec_columns(),
    {
        vec![
            Column::TenantId,
            Column::WorkspaceId,
            Column::ProjectId,
            Column::ProgressPct,
            Column::Message,
            Column::UpdatedAtMs,
        ]
    }

    /// Whether this is what a stored row holds in those columns.
    pub open spec fn is_of(self, row: crate::model::Row) -> bool {
        &&& crate::model::value(row, Column::TenantId) == Datum::Text(self.tenant_id@)
        &&& crate::model::value(row, Column::WorkspaceId) == Datum::Text(self.workspace_id@)
        &&& crate::model::value(row, Column::ProjectId) == Datum::Text(self.project_id@)
        &&& crate::model::value(row, Column::ProgressPct) == Datum::Int(self.progress_pct as int)
        &&& crate::model::value(row, Column::Message) == Datum::opt_text(self.message)
        &&& crate::model::value(row, Column::UpdatedAtMs) == Datum::Int(self.updated_at_ms as int)
    }

    /// The query of [`ToolInvocationProgressRow::get`].
    pub open spec fn spec_get(invocation_id: Seq<char>) -> QueryView {
        QueryView::on(
            Table::ToolInvocationProgress,
            OutputView::Rows(Self::spec_columns()),
        )
            .equals(Column::InvocationId, ValueView::Text(invocation_id))
    }

    /// Finds how far a call got.
    pub fn get(invocation_id: &str) -> (r: Query)
        ensures
            r@ == Self::spec_get(invocation_id@),
    {
        Query::on(Table::ToolInvocationProgress, Output::Rows(Self::columns()))
            .equals(Column::InvocationId, text(invocation_id))
    }
}

impl StoredRow for ToolInvocationProgressRow {
    type Record = ToolInvocationProgressRecord;

    open spec fn fault(&self, names: &DomainNames) -> Option<ErrorView> {
        if self.progress_pct < 0 || self.progress_pct > 255 {
            Some(
                ErrorView::Internal(
                    "tool_invocation_progress.progress_pct out of u8 range for "@
                        + self.invocation_id@ + ": "@
                        + crate::text::signed_decimal(self.progress_pct as int),
                ),
            )
        } else if self.updated_at_ms < 0 {
            Some(
                ErrorView::Internal(
                    "tool_invocation_progress.updated_at_ms out of u64 range for "@
                        + self.invocation_id@ + ": "@
                        + crate::text::signed_decimal(self.updated_at_ms as int),
                ),
            )
        } else {
            None
        }
    }

    open spec fn holds(&self, names: &DomainNames, record: &ToolInvocationProgressRecord) -> bool {
        &&& record.invocation_id == self.invocation_id
        &&& record.project == (ProjectKey {
            tenant_id: self.tenant_id,
            workspace_id: self.workspace_id,
            project_id: self.project_id,
        })
        &&& record.progress_pct == self.progress_pct
        &&& record.message == self.message
        &&& record.updated_at_ms == self.updated_at_ms
    }

    fn into_record(self, names: &DomainNames) -> (r: Result<
        ToolInvocationProgressRecord,
        StoreError,
    >) {
        if self.progress_pct < 0 || self.progress_pct > 255 {
            let mut message: String =
                "tool_invocation_progress.progress_pct out of u8 range for ".to_owned();
            message.append(&self.invocation_id);
            message.append(": ");
            push_signed(&mut message, self.progress_pct as i64);
            return Err(StoreError::Internal(message));
        }
        if self.updated_at_ms < 0 {
            let mut message: String =
                "tool_invocation_progress.updated_at_ms out of u64 range for ".to_owned();
            message.append(&self.invocation_id);
            message.append(": ");
            push_signed(&mut message, self.updated_at_ms);
            return Err(StoreError::Internal(message));
        }
        Ok(
            ToolInvocationProgressRecord {
                invocation_id: self.invocation_id,
                project: ProjectKey {
                    tenant_id: self.tenant_id,
                    workspace_id: self.workspace_id,
                    project_id: self.project_id,
                },
                progress_pct: self.progress_pct as u8,
                message: self.message,
                updated_at_ms: self.updated_at_ms as u64,
            },
        )
    }
}

/// A row of `tool_recovery_pauses`.
#[derive(Debug, PartialEq, Eq)]
pub struct ToolRecoveryPauseRow {
    pub tool_call_id: String,
    pub tenant_id: String,
    pub workspace_id: String,
    pub project_id: String,
    pub run_id: String,
    pub task_id: Option<String>,
    pub tool_name: String,
    pub reason: String,
    pub paused_at_ms: i64,
}

/// A tool call whose recovery was paused.
#[derive(Debug, PartialEq, Eq)]
pub struct ToolRecoveryPauseRecord {
    pub tool_call_id: String,
    pub project: ProjectKey,
    pub run_id: String,
    pub task_id: Option<String>,
    pub tool_name: String,
    pub reason: String,
    pub paused_at_ms: u64,
}

impl ToolRecoveryPauseRow {
    /// The columns that the row is read from.
    pub open spec fn spec_columns() -> Seq<Column> {
        seq![
            Column::ToolCallId,
            Column::TenantId,
            Column::WorkspaceId,
            Column::ProjectId,
            Column::RunId,
            Column::TaskId,
            Column::ToolName,
            Column::Reason,
            Column::PausedAtMs,
        ]
    }

    fn columns() -> (r: Vec<Column>)
        ensures
            r@ == Self::spec_columns(),
    {
        vec![
            Column::ToolCallId,
            Column::TenantId,
            Column::WorkspaceId,
            Column::ProjectId,
            Column::RunId,
            Column::TaskId,
            Column::ToolName,
            Column::Reason,
            Column::PausedAtMs,
        ]
    }

    /// Whether this is what a stored row holds in those columns.
    pub open spec fn is_of(self, row: crate::model::Row) -> bool {
        &&& crate::model::value(row, Column::ToolCallId) == Datum::Text(self.tool_call_id@)
        &&& crate::model::value(row, Column::TenantId) == Datum::Text(self.tenant_id@)
        &&& crate::model::value(row, Column::WorkspaceId) == Datum::Text(self.workspace_id@)
        &&& crate::model::value(row, Column::ProjectId) == Datum::Text(self.project_id@)
        &&& crate::model::value(row, Column::RunId) == Datum::Text(self.run_id@)
        &&& crate::model::value(row, Column::TaskId) == Datum::opt_text(self.task_id)
        &&& crate::model::value(row, Column::ToolName) == Datum::Text(self.tool_name@)
        &&& crate::model::value(row, Column::Reason) == Datum::Text(self.reason@)
        &&& crate::model::value(row, Column::PausedAtMs) == Datum::Int(self.paused_at_ms as int)
    }

    /// The query of [`ToolRecoveryPauseRow::get`].
    pub open spec fn spec_get(tool_call_id: Seq<char>) -> QueryView {
        QueryView::on(Table::ToolRecoveryPauses, OutputView::Rows(Self::spec_columns()))
            .equals(Column::ToolCallId, ValueView::Text(tool_call_id))
    }

    /// Finds the pause of a call.
    pub fn get(tool_call_id: &str) -> (r: Query)
        ensures
            r@ == Self::spec_get(tool_call_id@),
    {
        Query::on(Table::ToolRecoveryPauses, Output::Rows(Self::columns()))
            .equals(Column::ToolCallId, text(tool_call_id))
    }

    /// The query of [`ToolRecoveryPauseRow::list_by_run`].
    pub open spec fn spec_list_by_run(run_id: Seq<char>) -> QueryView {
        QueryView::on(Table::ToolRecoveryPauses, OutputView::Rows(Self::spec_columns()))
            .equals(Column::RunId, ValueView::Text(run_id))
            .ascending(Column::PausedAtMs)
            .ascending(Column::ToolCallId)
    }

    /// The pauses of a run's calls, the oldest first.
    pub fn list_by_run(run_id: &str) -> (r: Query)
        ensures
            r@ == Self::spec_list_by_run(run_id@),
    {
        Query::on(Table::ToolRecoveryPauses, Output::Rows(Self::columns()))
            .equals(Column::RunId, text(run_id))
            .ascending(Column::PausedAtMs)
            .ascending(Column::ToolCallId)
    }
}

impl StoredRow for ToolRecoveryPauseRow {
    type Record = ToolRecoveryPauseRecord;

    open spec fn fault(&self, names: &DomainNames) -> Option<ErrorView> {
        None
    }

    open spec fn holds(&self, names: &DomainNames, record: &ToolRecoveryPauseRecord) -> bool {
        &&& record.tool_call_id == self.tool_call_id
        &&& record.project == (ProjectKey {
            tenant_id: self.tenant_id,
            workspace_id: self.workspace_id,
            project_id: self.project_id,
        })
        &&& record.run_id == self.run_id
        &&& record.task_id == self.task_id
        &&& record.tool_name == self.tool_name
        &&& record.reason == self.reason
        &&& record.paused_at_ms == crate::read::floor8(self.paused_at_ms)
    }

    fn into_record(self, names: &DomainNames) -> (r: Result<ToolRecoveryPauseRecord, StoreError>) {
        Ok(
            ToolRecoveryPauseRecord {
                tool_call_id: self.tool_call_id,
                project: ProjectKey {
                    tenant_id: self.tenant_id,
                    workspace_id: self.workspace_id,
                    project_id: self.project_id,
                },
                run_id: self.run_id,
                task_id: self.task_id,
                tool_name: self.tool_name,
                reason: self.reason,
                paused_at_ms: to_floor8(self.paused_at_ms),
            },
        )
    }
}

} // verus!
