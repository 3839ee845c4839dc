//! Checkpoints.

use crate::domain::{DomainNames, ProjectKey, ProjectView};
use crate::error::{ErrorView, StoreError};
use crate::model::Datum;
use crate::query::{Output, OutputView, Query, QueryView};
use crate::read::{StoredRow, name_fault, to_floor4, to_floor8};
use crate::schema::{Column, Table};
use crate::statement::{Test, TestView};
use crate::value::{ValueView, text};
use vstd::prelude::*;

verus! {

/// A row of `checkpoints`.
#[derive(Debug, PartialEq, Eq)]
pub struct CheckpointRow {
    pub checkpoint_id: String,
    pub tenant_id: String,
    pub workspace_id: String,
    pub project_id: String,
    pub run_id: String,
    pub disposition: String,
    pub version: i64,
    pub created_at: i64,
}

/// A checkpoint of a run.
#[derive(Debug, PartialEq, Eq)]
pub struct CheckpointRecord {
    pub checkpoint_id: String,
    pub project: ProjectKey,
    pub run_id: String,
    pub disposition: String,
    pub data: Option<String>,
    pub version: u64,
    pub created_at: u64,
}

impl CheckpointRow {
    /// The columns that the row is read from.
    pub open spec fn spec_columns() -> Seq<Column> {
        seq![
            Column::CheckpointId,
            Column::TenantId,
            Column::WorkspaceId,
            Column::ProjectId,
            Column::RunId,
            Column::Disposition,
            Column::Version,
            Column::CreatedAt,
        ]
    }

    fn columns() -> (r: Vec<Column>)
        ensures
            r@ == Self::spec_columns(),
    {
        vec![
            Column::CheckpointId,
            Column::TenantId,
            Column::WorkspaceId,
            Column::ProjectId,
            Column::RunId,
            Column::Disposition,
            Column::Version,
            Column::CreatedAt,
        ]
    }

    /// Whether this is what a stored row holds in those columns.
    pub open spec fn is_of(self, row: crate::model::Row) -> bool {
        &&& crate::model::value(row, Column::CheckpointId) == Datum::Text(self.checkpoint_id@)
        &&& crate::model::value(row, Column::TenantId) == Datum::Text(self.tenant_id@)
        &&& crate::model::value(row, Column::WorkspaceId) == Datum::Text(self.workspace_id@)
        &&& crate::model::value(row, Column::ProjectId) == Datum::Text(self.project_id@)
        &&& crate::model::value(row, Column::RunId) == Datum::Text(self.run_id@)
        &&& crate::model::value(row, Column::Disposition) == Datum::Text(self.disposition@)
        &&& crate::model::value(row, Column::Version) == Datum::Int(self.version as int)
        &&& crate::model::value(row, Column::CreatedAt) == Datum::Int(self.created_at as int)
    }

    /// The query of [`CheckpointRow::get`].
    pub open spec fn spec_get(checkpoint_id: Seq<char>) -> QueryView {
        QueryView::on(Table::Checkpoints, OutputView::Rows(Self::spec_columns()))
            .equals(Column::CheckpointId, ValueView::Text(checkpoint_id))
    }

    /// Finds a checkpoint.
    pub fn get(checkpoint_id: &str) -> (r: Query)
        ensures
            r@ == Self::spec_get(checkpoint_id@),
    {
        Query::on(Table::Checkpoints, Output::Rows(Self::columns()))
            .equals(Column::CheckpointId, text(checkpoint_id))
    }

    /// The query of [`CheckpointRow::latest_for_run`].
    pub open spec fn spec_latest_for_run(run_id: Seq<char>) -> QueryView {
        QueryView::on(Table::Checkpoints, OutputView::Rows(Self::spec_columns()))
            .equals(Column::RunId, ValueView::Text(run_id))
            .equals(Column::Disposition, ValueView::Text("latest"@))
            .descending(Column::CreatedAt)
            .descending(Column::CheckpointId)
            .limit(1)
    }

    /// The latest checkpoint of a run.
    pub fn latest_for_run(run_id: &str) -> (r: Query)
        ensures
            r@ == Self::spec_latest_for_run(run_id@),
    {
        Query::on(Table::Checkpoints, Output::Rows(Self::columns()))
            .equals(Column::RunId, text(run_id))
            .equals(Column::Disposition, text("latest"))
            .descending(Column::CreatedAt)
            .descending(Column::CheckpointId)
            .limit(1)
    }

    /// The query of [`CheckpointRow::list_by_run`].
    pub open spec fn spec_list_by_run(run_id: Seq<char>, limit: usize) -> QueryView {
        QueryView::on(Table::Checkpoints, OutputView::Rows(Self::spec_columns()))
            .equals(Column::RunId, ValueView::Text(run_id))
            .descending(Column::CreatedAt)
            .descending(Column::CheckpointId)
            .limit(limit as i64)
    }

    /// The checkpoints of a run, the newest first.
    pub fn list_by_run(run_id: &str, limit: usize) -> (r: Query)
        ensures
            r@ == Self::spec_list_by_run(run_id@, limit),
    {
        Query::on(Table::Checkpoints, Output::Rows(Self::columns()))
            .equals(Column::RunId, text(run_id))
            .descending(Column::CreatedAt)
            .descending(Column::CheckpointId)
            .limit(limit as i64)
    }
}

impl StoredRow for CheckpointRow {
    type Record = CheckpointRecord;

    open spec fn fault(&self, names: &DomainNames) -> Option<ErrorView> {
        if !names.checkpoint_dispositions.deep_view().contains(self.disposition@) {
            Some(
                ErrorView::unknown_name(
                    self.disposition@,
                    names.checkpoint_dispositions.deep_view(),
                ),
            )
        } else {
            None
        }
    }

    open spec fn holds(&self, names: &DomainNames, record: &CheckpointRecord) -> bool {
        &&& record.checkpoint_id == self.checkpoint_id
        &&& record.project == (ProjectKey {
            tenant_id: self.tenant_id,
            workspace_id: self.workspace_id,
            project_id: self.project_id,
        })
        &&& record.run_id == self.run_id
        &&& record.disposition == self.disposition
        &&& record.data is None
        &&& record.version == self.version as u64
        &&& record.created_at == self.created_at as u64
    }

    fn into_record(self, names: &DomainNames) -> (r: Result<CheckpointRecord, StoreError>) {
        if let Some(e) = name_fault(&self.disposition, &names.checkpoint_dispositions) {
            return Err(e);
        }
        Ok(
            CheckpointRecord {
                checkpoint_id: self.checkpoint_id,
                project: ProjectKey {
                    tenant_id: self.tenant_id,
                    workspace_id: self.workspace_id,
                    project_id: self.project_id,
                },
                run_id: self.run_id,
                disposition: self.disposition,
                data: None,
                version: self.version as u64,
                created_at: self.created_at as u64,
            },
        )
    }
}

/// A row of `checkpoints` that belongs to a session.
#[derive(Debug, PartialEq, Eq)]
pub struct F65CheckpointRow {
    pub checkpoint_id: String,
    pub tenant_id: String,
    pub workspace_id: String,
    pub project_id: String,
    pub run_id: String,
    pub session_id: String,
    pub body: Option<String>,
    pub body_size_bytes: Option<i64>,
    pub schema_version: Option<i32>,
    pub iteration: Option<i32>,
    pub created_at: i64,
}

/// A checkpoint of a session, with its body.
#[derive(Debug, PartialEq, Eq)]
pub struct F65CheckpointRecord {
    pub checkpoint_id: String,
    pub project: ProjectKey,
    pub session_id: String,
    pub root_run_id: String,
    pub schema_version: u32,
    pub body: String,
    pub body_size_bytes: u64,
    pub iteration: u32,
    pub created_at: u64,
}

impl F65CheckpointRow {
    /// The columns that the row is read from.
    pub open spec fn spec_columns() -> Seq<Column> {
        seq![
            Column::CheckpointId,
            Column::TenantId,
            Column::WorkspaceId,
            Column::ProjectId,
            Column::RunId,
            Column::SessionId,
            Column::Body,
            Column::BodySizeBytes,
            Column::SchemaVersion,
            Column::Iteration,
            Column::CreatedAt,
        ]
    }

    fn columns() -> (r: Vec<Column>)
        ensures
            r@ == Self::spec_columns(),
    {
        vec![
            Column::CheckpointId,
            Column::TenantId,
            Column::WorkspaceId,
            Column::ProjectId,
            Column::RunId,
            Column::SessionId,
            Column::Body,
            Column::BodySizeBytes,
            Column::SchemaVersion,
            Column::Iteration,
            Column::CreatedAt,
        ]
    }

    /// Whether this is what a stored row holds in those columns.
    pub open spec fn is_of(self, row: crate::model::Row) -> bool {
        &&& crate::model::value(row, Column::CheckpointId) == Datum::Text(self.checkpoint_id@)
        &&& crate::model::value(row, Column::TenantId) == Datum::Text(self.tenant_id@)
        &&& crate::model::value(row, Column::WorkspaceId) == Datum::Text(self.workspace_id@)
        &&& crate::model::value(row, Column::ProjectId) == Datum::Text(self.project_id@)
        &&& crate::model::value(row, Column::RunId) == Datum::Text(self.run_id@)
        &&& crate::model::value(row, Column::SessionId) == Datum::Text(self.session_id@)
        &&& crate::model::value(row, Column::Body) == Datum::opt_text(self.body)
        &&& crate::model::value(row, Column::BodySizeBytes) == Datum::opt_int8(self.body_size_bytes)
        &&& crate::model::value(row, Column::SchemaVersion) == Datum::opt_int4(self.schema_version)
        &&& crate::model::value(row, Column::Iteration) == Datum::opt_int4(self.iteration)
        &&& crate::model::value(row, Column::CreatedAt) == Datum::Int(self.created_at as int)
    }

    /// The query of [`F65CheckpointRow::get_f65`].
    pub open spec fn spec_get_f65(project: ProjectView, checkpoint_id: Seq<char>) -> QueryView {
        QueryView::on(Table::Checkpoints, OutputView::Rows(Self::spec_columns()))
            .equals(Column::CheckpointId, ValueView::Text(checkpoint_id))
            .test(TestView::NotNull(Column::SessionId))
            .equals(Column::TenantId, ValueView::Text(project.tenant_id))
            .equals(Column::WorkspaceId, ValueView::Text(project.workspace_id))
            .equals(Column::ProjectId, ValueView::Text(project.project_id))
    }

    /// Finds a checkpoint of a project that belongs to a session.
    pub fn get_f65(project: &ProjectKey, checkpoint_id: &str) -> (r: Query)
        ensures
            r@ == Self::spec_get_f65(project@, checkpoint_id@),
            r@.stays_in(Column::WorkspaceId, project@),
    {
        let query = Query::on(Table::Checkpoints, Output::Rows(Self::columns()))
            .equals(Column::CheckpointId, text(checkpoint_id))
            .test(Test::NotNull(Column::SessionId))
            .equals(Column::TenantId, text(&project.tenant_id))
            .equals(Column::WorkspaceId, text(&project.workspace_id))
            .equals(Column::ProjectId, text(&project.project_id));
        proof {
            query@.tests_keep_to_a_project(2, Column::WorkspaceId, project@);
        }
        query
    }

    /// The query of [`F65CheckpointRow::list_by_session`].
    pub open spec fn spec_list_by_session(
        project: ProjectView,
        session_id: Seq<char>,
    ) -> QueryView {
        QueryView::on(Table::Checkpoints, OutputView::Rows(Self::spec_columns()))
            .equals(Column::SessionId, ValueView::Text(session_id))
            .equals(Column::TenantId, ValueView::Text(project.tenant_id))
            .equals(Column::WorkspaceId, ValueView::Text(project.workspace_id))
            .equals(Column::ProjectId, ValueView::Text(project.project_id))
            .ascending(Column::Iteration)
            .ascending(Column::CreatedAt)
            .ascending(Column::CheckpointId)
    }

    /// The checkpoints of a session of a project, by iteration.
    pub fn list_by_session(project: &ProjectKey, session_id: &str) -> (r: Query)
        ensures
            r@ == Self::spec_list_by_session(project@, session_id@),
            r@.stays_in(Column::WorkspaceId, project@),
    {
        let query = Query::on(Table::Checkpoints, Output::Rows(Self::columns()))
            .equals(Column::SessionId, text(session_id))
            .equals(Column::TenantId, text(&project.tenant_id))
            .equals(Column::WorkspaceId, text(&project.workspace_id))
            .equals(Column::ProjectId, text(&project.project_id))
            .ascending(Column::Iteration)
            .ascending(Column::CreatedAt)
            .ascending(Column::CheckpointId);
        proof {
            query@.tests_keep_to_a_project(1, Column::WorkspaceId, project@);
        }
        query
    }
}

impl StoredRow for F65CheckpointRow {
    type Record = F65CheckpointRecord;

    open spec fn fault(&self, names: &DomainNames) -> Option<ErrorView> {
        None
    }

    open spec fn holds(&self, names: &DomainNames, record: &F65CheckpointRecord) -> bool {
        &&& record.checkpoint_id == self.checkpoint_id
        &&& record.project == (ProjectKey {
            tenant_id: self.tenant_id,
            workspace_id: self.workspace_id,
            project_id: self.project_id,
        })
        &&& record.session_id == self.session_id
        &&& record.root_run_id == self.run_id
        &&& record.schema_version == match self.schema_version {
            Some(v) => crate::read::floor4(v),
            None => 1,
        }
        &&& record.body@ == match self.body {
            Some(s) => s@,
            None => Seq::<char>::empty(),
        }
        &&& record.body_size_bytes == match self.body_size_bytes {
            Some(v) => crate::read::floor8(v),
            None => 0,
        }
        &&& record.iteration == match self.iteration {
            Some(v) => crate::read::floor4(v),
            None => 0,
        }
        &&& record.created_at == crate::read::floor8(self.created_at)
    }

    fn into_record(self, names: &DomainNames) -> (r: Result<F65CheckpointRecord, StoreError>) {
        let schema_version: u32 = match self.schema_version {
            Some(v) => to_floor4(v),
            None => 1,
        };
        let body = match self.body {
            Some(s) => s,
            None => String::new(),
        };
        let body_size_bytes: u64 = match self.body_size_bytes {
            Some(v) => to_floor8(v),
            None => 0,
        };
        let iteration: u32 = match self.iteration {
            Some(v) => to_floor4(v),
            None => 0,
        };
        Ok(
            F65CheckpointRecord {
                checkpoint_id: self.checkpoint_id,
                project: ProjectKey {
                    tenant_id: self.tenant_id,
                    workspace_id: self.workspace_id,
                    project_id: self.project_id,
                },
                session_id: self.session_id,
                root_run_id: self.run_id,
                schema_version,
                body,
                body_size_bytes,
                iteration,
                created_at: to_floor8(self.created_at),
            },
        )
    }
}

/// The project that a strategy is read with.
pub open spec fn sentinel_project() -> ProjectView {
    ProjectView {
        tenant_id: "_strategy"@,
        workspace_id: "_strategy"@,
        project_id: "_strategy"@,
    }
}

/// The project that a strategy is read with: a strategy belongs to a run, not
/// to a project.
pub fn checkpoint_strategy_sentinel_project() -> (r: ProjectKey)
    ensures
        r@ == sentinel_project(),
{
    ProjectKey::new("_strategy", "_strategy", "_strategy")
}

/// A row of `checkpoint_strategies`, with the run that it was found by.
#[derive(Debug, PartialEq, Eq)]
pub struct CheckpointStrategyRow {
    pub strategy_id: String,
    pub interval_ms: i64,
    pub max_checkpoints: i32,
    pub trigger_on_task_complete: i32,
    pub run_id: String,
}

/// When a run is checkpointed. It belongs to no project, which
/// [`checkpoint_strategy_sentinel_project`] stands for.
#[derive(Debug, PartialEq, Eq)]
pub struct CheckpointStrategy {
    pub strategy_id: String,
    pub project: ProjectKey,
    pub run_id: String,
    pub interval_ms: u64,
    pub max_checkpoints: u32,
    pub trigger_on_task_complete: bool,
}

impl CheckpointStrategyRow {
    /// The row as it was found, with the run that it was found by.
    pub fn of_run(self, run_id: &str) -> (r: CheckpointStrategyRow)
        ensures
            r == (CheckpointStrategyRow { run_id: r.run_id, ..self }),
            r.run_id@ == run_id@,
    {
        CheckpointStrategyRow { run_id: run_id.to_owned(), ..self }
    }

    /// The columns that the row is read from.
    pub open spec fn spec_columns() -> Seq<Column> {
        seq![
            Column::StrategyId,
            Column::IntervalMs,
            Column::MaxCheckpoints,
            Column::TriggerOnTaskComplete,
        ]
    }

    fn columns() -> (r: Vec<Column>)
        ensures
            r@ == Self::spec_columns(),
    {
        vec![
            Column::StrategyId,
            Column::IntervalMs,
            Column::MaxCheckpoints,
            Column::TriggerOnTaskComplete,
        ]
    }

    /// Whether this is what a stored row holds in those columns.
    pub open spec fn is_of(self, row: crate::model::Row) -> bool {
        &&& crate::model::value(row, Column::StrategyId) == Datum::Text(self.strategy_id@)
        &&& crate::model::value(row, Column::IntervalMs) == Datum::Int(self.interval_ms as int)
        &&& crate::model::value(row, Column::MaxCheckpoints) == Datum::Int(
            self.max_checkpoints as int,
        )
        &&& crate::model::value(row, Column::TriggerOnTaskComplete) == Datum::Int(
            self.trigger_on_task_complete as int,
        )
    }

    /// The query of [`CheckpointStrategyRow::get_by_run`].
    pub open spec fn spec_get_by_run(run_id: Seq<char>) -> QueryView {
        QueryView::on(Table::CheckpointStrategies, OutputView::Rows(Self::spec_columns()))
            .equals(Column::RunId, ValueView::Text(run_id))
    }

    /// Finds the strategy of a run.
    pub fn get_by_run(run_id: &str) -> (r: Query)
        ensures
            r@ == Self::spec_get_by_run(run_id@),
    {
        Query::on(Table::CheckpointStrategies, Output::Rows(Self::columns()))
            .equals(Column::RunId, text(run_id))
    }
}

impl StoredRow for CheckpointStrategyRow {
    type Record = CheckpointStrategy;

    open spec fn fault(&self, names: &DomainNames) -> Option<ErrorView> {
        None
    }

    open spec fn holds(&self, names: &DomainNames, record: &CheckpointStrategy) -> bool {
        &&& record.strategy_id == self.strategy_id
        &&& record.project@ == sentinel_project()
        &&& record.run_id == self.run_id
        &&& record.interval_ms == crate::read::floor8(self.interval_ms)
        &&& record.max_checkpoints == crate::read::floor4(self.max_checkpoints)
        &&& record.trigger_on_task_complete == (self.trigger_on_task_complete != 0)
    }

    fn into_record(self, names: &DomainNames) -> (r: Result<CheckpointStrategy, StoreError>) {
        Ok(
            CheckpointStrategy {
                strategy_id: self.strategy_id,
                project: checkpoint_strategy_sentinel_project(),
                run_id: self.run_id,
                interval_ms: to_floor8(self.interval_ms),
                max_checkpoints: to_floor4(self.max_checkpoints),
                trigger_on_task_complete: self.trigger_on_task_complete != 0,
            },
        )
    }
}

} // verus!
