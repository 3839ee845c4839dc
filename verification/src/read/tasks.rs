//! Tasks, workers and leases.

use crate::domain::{DomainNames, ProjectKey, ProjectView};
use crate::error::{ErrorView, StoreError};
use crate::model::Datum;
use crate::query::{Output, OutputView, Query, QueryView};
use crate::read::{
    StoredRow, closed_states_list, name_fault, opt_name_fault, to_floor4, to_floor8,
    to_opt_floor8, to_opt_unsigned8,
};
use crate::schema::{Column, Table};
use crate::statement::{
    Cells, Changes, ChangesView, Filter, FilterView, RowView, Statement, StatementView, Test,
    TestView,
};
use crate::value::{SqlValue, ValueView, text};
use vstd::prelude::*;

verus! {

/// A row of `tasks`.
#[derive(Debug, PartialEq, Eq)]
pub struct TaskRow {
    pub task_id: String,
    pub tenant_id: String,
    pub workspace_id: String,
    pub project_id: String,
    pub parent_run_id: Option<String>,
    pub parent_task_id: Option<String>,
    pub session_id: Option<String>,
    pub state: String,
    pub failure_class: Option<String>,
    pub lease_owner: Option<String>,
    pub lease_expires_at: Option<i64>,
    pub title: Option<String>,
    pub description: Option<String>,
    pub version: i64,
    pub created_at: i64,
    pub updated_at: i64,
}

/// A task.
#[derive(Debug, PartialEq, Eq)]
pub struct TaskRecord {
    pub task_id: String,
    pub project: ProjectKey,
    pub parent_run_id: Option<String>,
    pub parent_task_id: Option<String>,
    pub session_id: Option<String>,
    pub state: String,
    pub prompt_release_id: Option<String>,
    pub failure_class: Option<String>,
    pub pause_reason: Option<String>,
    pub resume_trigger: Option<String>,
    pub retry_count: u32,
    pub lease_owner: Option<String>,
    pub lease_expires_at: Option<u64>,
    pub title: Option<String>,
    pub description: Option<String>,
    pub version: u64,
    pub created_at: u64,
    pub updated_at: u64,
}

impl TaskRow {
    /// The columns that the row is read from.
    pub open spec fn spec_columns() -> Seq<Column> {
        seq![
            Column::TaskId,
            Column::TenantId,
            Column::WorkspaceId,
            Column::ProjectId,
            Column::ParentRunId,
            Column::ParentTaskId,
            Column::SessionId,
            Column::State,
            Column::FailureClass,
            Column::LeaseOwner,
            Column::LeaseExpiresAt,
            Column::Title,
            Column::Description,
            Column::Version,
            Column::CreatedAt,
            Column::UpdatedAt,
        ]
    }

    fn columns() -> (r: Vec<Column>)
        ensures
            r@ == Self::spec_columns(),
    {
        vec![
            Column::TaskId,
            Column::TenantId,
            Column::WorkspaceId,
            Column::ProjectId,
            Column::ParentRunId,
            Column::ParentTaskId,
            Column::SessionId,
            Column::State,
            Column::FailureClass,
            Column::LeaseOwner,
            Column::LeaseExpiresAt,
            Column::Title,
            Column::Description,
            Column::Version,
            Column::CreatedAt,
            Column::UpdatedAt,
        ]
    }

    /// Whether this is what a stored row holds in those columns.
    pub open spec fn is_of(self, row: crate::model::Row) -> bool {
        &&& crate::model::value(row, Column::TaskId) == Datum::Text(self.task_id@)
        &&& crate::model::value(row, Column::TenantId) == Datum::Text(self.tenant_id@)
        &&& crate::model::value(row, Column::WorkspaceId) == Datum::Text(self.workspace_id@)
        &&& crate::model::value(row, Column::ProjectId) == Datum::Text(self.project_id@)
        &&& crate::model::value(row, Column::ParentRunId) == Datum::opt_text(self.parent_run_id)
        &&& crate::model::value(row, Column::ParentTaskId) == Datum::opt_text(self.parent_task_id)
        &&& crate::model::value(row, Column::SessionId) == Datum::opt_text(self.session_id)
        &&& crate::model::value(row, Column::State) == Datum::Text(self.state@)
        &&& crate::model::value(row, Column::FailureClass) == Datum::opt_text(self.failure_class)
        &&& crate::model::value(row, Column::LeaseOwner) == Datum::opt_text(self.lease_owner)
        &&& crate::model::value(row, Column::LeaseExpiresAt) == Datum::opt_int8(
            self.lease_expires_at,
        )
        &&& crate::model::value(row, Column::Title) == Datum::opt_text(self.title)
        &&& crate::model::value(row, Column::Description) == Datum::opt_text(self.description)
        &&& crate::model::value(row, Column::Version) == Datum::Int(self.version as int)
        &&& crate::model::value(row, Column::CreatedAt) == Datum::Int(self.created_at as int)
        &&& crate::model::value(row, Column::UpdatedAt) == Datum::Int(self.updated_at as int)
    }

    /// The query of [`TaskRow::get`].
    pub open spec fn spec_get(task_id: Seq<char>) -> QueryView {
        QueryView::on(Table::Tasks, OutputView::Rows(Self::spec_columns()))
            .equals(Column::TaskId, ValueView::Text(task_id))
    }

    /// Finds a task.
    pub fn get(task_id: &str) -> (r: Query)
        ensures
            r@ == Self::spec_get(task_id@),
    {
        Query::on(Table::Tasks, Output::Rows(Self::columns()))
            .equals(Column::TaskId, text(task_id))
    }

    /// The query of [`TaskRow::list_by_state`].
    pub open spec fn spec_list_by_state(
        project: ProjectView,
        task_state: Seq<char>,
        limit: usize,
    ) -> QueryView {
        QueryView::on(Table::Tasks, OutputView::Rows(Self::spec_columns()))
            .equals(Column::TenantId, ValueView::Text(project.tenant_id))
            .equals(Column::WorkspaceId, ValueView::Text(project.workspace_id))
            .equals(Column::ProjectId, ValueView::Text(project.project_id))
            .equals(Column::State, ValueView::Text(task_state))
            .ascending(Column::CreatedAt)
            .ascending(Column::TaskId)
            .limit(limit as i64)
    }

    /// The tasks of a project in a state, the oldest first.
    pub fn list_by_state(project: &ProjectKey, task_state: &str, limit: usize) -> (r: Query)
        ensures
            r@ == Self::spec_list_by_state(project@, task_state@, limit),
            r@.stays_in(Column::WorkspaceId, project@),
    {
        let query = Query::on(Table::Tasks, Output::Rows(Self::columns()))
            .equals(Column::TenantId, text(&project.tenant_id))
            .equals(Column::WorkspaceId, text(&project.workspace_id))
            .equals(Column::ProjectId, text(&project.project_id))
            .equals(Column::State, text(task_state))
            .ascending(Column::CreatedAt)
            .ascending(Column::TaskId)
            .limit(limit as i64);
        proof {
            query@.tests_keep_to_a_project(0, Column::WorkspaceId, project@);
        }
        query
    }

    /// The query of [`TaskRow::list_expired_leases`].
    pub open spec fn spec_list_expired_leases(now: u64, limit: usize) -> QueryView {
        QueryView::on(Table::Tasks, OutputView::Rows(Self::spec_columns()))
            .equals(Column::State, ValueView::Text("leased"@))
            .test(TestView::NotNull(Column::LeaseExpiresAt))
            .test(TestView::Below(Column::LeaseExpiresAt, ValueView::Int8(now as i64)))
            .ascending(Column::LeaseExpiresAt)
            .ascending(Column::TaskId)
            .limit(limit as i64)
    }

    /// The leased tasks whose lease ran out, the earliest first.
    pub fn list_expired_leases(now: u64, limit: usize) -> (r: Query)
        ensures
            r@ == Self::spec_list_expired_leases(now, limit),
    {
        Query::on(Table::Tasks, Output::Rows(Self::columns()))
            .equals(Column::State, text("leased"))
            .test(Test::NotNull(Column::LeaseExpiresAt))
            .test(Test::Below(Column::LeaseExpiresAt, SqlValue::Int8(now as i64)))
            .ascending(Column::LeaseExpiresAt)
            .ascending(Column::TaskId)
            .limit(limit as i64)
    }

    /// The query of [`TaskRow::list_by_parent_run`].
    pub open spec fn spec_list_by_parent_run(parent_run_id: Seq<char>, limit: usize) -> QueryView {
        QueryView::on(Table::Tasks, OutputView::Rows(Self::spec_columns()))
            .equals(Column::ParentRunId, ValueView::Text(parent_run_id))
            .ascending(Column::CreatedAt)
            .ascending(Column::TaskId)
            .limit(limit as i64)
    }

    /// The tasks of a run, the oldest first.
    pub fn list_by_parent_run(parent_run_id: &str, limit: usize) -> (r: Query)
        ensures
            r@ == Self::spec_list_by_parent_run(parent_run_id@, limit),
    {
        Query::on(Table::Tasks, Output::Rows(Self::columns()))
            .equals(Column::ParentRunId, text(parent_run_id))
            .ascending(Column::CreatedAt)
            .ascending(Column::TaskId)
            .limit(limit as i64)
    }

    /// The query of [`TaskRow::any_non_terminal_children`].
    pub open spec fn spec_any_non_terminal_children(parent_run_id: Seq<char>) -> QueryView {
        QueryView::on(Table::Tasks, OutputView::Exists)
            .equals(Column::ParentRunId, ValueView::Text(parent_run_id))
            .test(TestView::NoneOf(Column::State, crate::read::closed_states()))
    }

    /// Whether a run has a task that did not end.
    pub fn any_non_terminal_children(parent_run_id: &str) -> (r: Query)
        ensures
            r@ == Self::spec_any_non_terminal_children(parent_run_id@),
    {
        Query::on(Table::Tasks, Output::Exists)
            .equals(Column::ParentRunId, text(parent_run_id))
            .test(Test::NoneOf(Column::State, closed_states_list()))
    }
}

impl StoredRow for TaskRow {
    type Record = TaskRecord;

    open spec fn fault(&self, names: &DomainNames) -> Option<ErrorView> {
        if !names.task_states.deep_view().contains(self.state@) {
            Some(ErrorView::unknown_name(self.state@, names.task_states.deep_view()))
        } else if self.failure_class is Some
            && !names.failure_classes.deep_view().contains(self.failure_class->Some_0@) {
            Some(
                ErrorView::unknown_name(
                    self.failure_class->Some_0@,
                    names.failure_classes.deep_view(),
                ),
            )
        } else {
            None
        }
    }

    open spec fn holds(&self, names: &DomainNames, record: &TaskRecord) -> bool {
        &&& record.task_id == self.task_id
        &&& record.project == (ProjectKey {
            tenant_id: self.tenant_id,
            workspace_id: self.workspace_id,
            project_id: self.project_id,
        })
        &&& record.parent_run_id == self.parent_run_id
        &&& record.parent_task_id == self.parent_task_id
        &&& record.session_id == self.session_id
        &&& record.state == self.state
        &&& record.prompt_release_id is None
        &&& record.failure_class == self.failure_class
        &&& record.pause_reason is None
        &&& record.resume_trigger is None
        &&& record.retry_count == 0
        &&& record.lease_owner == self.lease_owner
        &&& record.lease_expires_at == crate::read::opt_unsigned8(self.lease_expires_at)
        &&& record.title == self.title
        &&& record.description == self.description
        &&& record.version == self.version as u64
        &&& record.created_at == self.created_at as u64
        &&& record.updated_at == self.updated_at as u64
    }

    fn into_record(self, names: &DomainNames) -> (r: Result<TaskRecord, StoreError>) {
        if let Some(e) = name_fault(&self.state, &names.task_states) {
            return Err(e);
        }
        if let Some(e) = opt_name_fault(&self.failure_class, &names.failure_classes) {
            return Err(e);
        }
        Ok(
            TaskRecord {
                task_id: self.task_id,
                project: ProjectKey {
                    tenant_id: self.tenant_id,
                    workspace_id: self.workspace_id,
                    project_id: self.project_id,
                },
                parent_run_id: self.parent_run_id,
                parent_task_id: self.parent_task_id,
                session_id: self.session_id,
                state: self.state,
                prompt_release_id: None,
                failure_class: self.failure_class,
                pause_reason: None,
                resume_trigger: None,
                retry_count: 0,
                lease_owner: self.lease_owner,
                lease_expires_at: to_opt_unsigned8(self.lease_expires_at),
                title: self.title,
                description: self.description,
                version: self.version as u64,
                created_at: self.created_at as u64,
                updated_at: self.updated_at as u64,
            },
        )
    }
}

/// A row of `scheduled_tasks`.
#[derive(Debug, PartialEq, Eq)]
pub struct ScheduledTaskRow {
    pub scheduled_task_id: String,
    pub tenant_id: String,
    pub name: String,
    pub cron_expression: String,
    pub last_run_at: Option<i64>,
    pub next_run_at: Option<i64>,
    pub enabled: bool,
    pub created_at: i64,
    pub updated_at: i64,
}

/// A task that is started by the clock.
#[derive(Debug, PartialEq, Eq)]
pub struct ScheduledTaskRecord {
    pub scheduled_task_id: String,
    pub tenant_id: String,
    pub name: String,
    pub cron_expression: String,
    pub last_run_at: Option<u64>,
    pub next_run_at: Option<u64>,
    pub enabled: bool,
    pub created_at: u64,
    pub updated_at: u64,
}

impl ScheduledTaskRow {
    /// The columns that the row is read from.
    pub open spec fn spec_columns() -> Seq<Column> {
        seq![
            Column::ScheduledTaskId,
            Column::TenantId,
            Column::Name,
            Column::CronExpression,
            Column::LastRunAt,
            Column::NextRunAt,
            Column::Enabled,
            Column::CreatedAt,
            Column::UpdatedAt,
        ]
    }

    fn columns() -> (r: Vec<Column>)
        ensures
            r@ == Self::spec_columns(),
    {
        vec![
            Column::ScheduledTaskId,
            Column::TenantId,
            Column::Name,
            Column::CronExpression,
            Column::LastRunAt,
            Column::NextRunAt,
            Column::Enabled,
            Column::CreatedAt,
            Column::UpdatedAt,
        ]
    }

    /// Whether this is what a stored row holds in those columns.
    pub open spec fn is_of(self, row: crate::model::Row) -> bool {
        &&& crate::model::value(row, Column::ScheduledTaskId) == Datum::Text(
            self.scheduled_task_id@,
        )
        &&& crate::model::value(row, Column::TenantId) == Datum::Text(self.tenant_id@)
        &&& crate::model::value(row, Column::Name) == Datum::Text(self.name@)
        &&& crate::model::value(row, Column::CronExpression) == Datum::Text(self.cron_expression@)
        &&& crate::model::value(row, Column::LastRunAt) == Datum::opt_int8(self.last_run_at)
        &&& crate::model::value(row, Column::NextRunAt) == Datum::opt_int8(self.next_run_at)
        &&& crate::model::value(row, Column::Enabled) == Datum::Bool(self.enabled)
        &&& crate::model::value(row, Column::CreatedAt) == Datum::Int(self.created_at as int)
        &&& crate::model::value(row, Column::UpdatedAt) == Datum::Int(self.updated_at as int)
    }

    /// The query of [`ScheduledTaskRow::get`].
    pub open spec fn spec_get(scheduled_task_id: Seq<char>) -> QueryView {
        QueryView::on(Table::ScheduledTasks, OutputView::Rows(Self::spec_columns()))
            .equals(Column::ScheduledTaskId, ValueView::Text(scheduled_task_id))
    }

    /// Finds a scheduled task.
    pub fn get(scheduled_task_id: &str) -> (r: Query)
        ensures
            r@ == Self::spec_get(scheduled_task_id@),
    {
        Query::on(Table::ScheduledTasks, Output::Rows(Self::columns()))
            .equals(Column::ScheduledTaskId, text(scheduled_task_id))
    }

    /// The query of [`ScheduledTaskRow::list_by_tenant`].
    pub open spec fn spec_list_by_tenant(
        tenant_id: Seq<char>,
        limit: usize,
        offset: usize,
    ) -> QueryView {
        QueryView::on(Table::ScheduledTasks, OutputView::Rows(Self::spec_columns()))
            .equals(Column::TenantId, ValueView::Text(tenant_id))
            .ascending(Column::CreatedAt)
            .ascending(Column::ScheduledTaskId)
            .limit(limit as i64)
            .offset(offset as i64)
    }

    /// The scheduled tasks of a tenant, the oldest first.
    pub fn list_by_tenant(tenant_id: &str, limit: usize, offset: usize) -> (r: Query)
        ensures
            r@ == Self::spec_list_by_tenant(tenant_id@, limit, offset),
    {
        Query::on(Table::ScheduledTasks, Output::Rows(Self::columns()))
            .equals(Column::TenantId, text(tenant_id))
            .ascending(Column::CreatedAt)
            .ascending(Column::ScheduledTaskId)
            .limit(limit as i64)
            .offset(offset as i64)
    }

    /// The query of [`ScheduledTaskRow::list_due`].
    pub open spec fn spec_list_due(now_ms: u64, limit: usize) -> QueryView {
        QueryView::on(Table::ScheduledTasks, OutputView::Rows(Self::spec_columns()))
            .equals(Column::Enabled, ValueView::Bool(true))
            .test(TestView::NotNull(Column::NextRunAt))
            .test(TestView::AtMost(Column::NextRunAt, ValueView::Int8(now_ms as i64)))
            .ascending(Column::NextRunAt)
            .ascending(Column::ScheduledTaskId)
            .limit(limit as i64)
    }

    /// The enabled scheduled tasks that are due, the earliest due first. A time that is above
    /// the range of its column is refused.
    pub fn list_due(now_ms: u64, limit: usize) -> (r: Result<Query, StoreError>)
        ensures
            match r {
                Err(e) => {
                    ||| now_ms > i64::MAX && e@ == ErrorView::Internal("now_ms exceeds i64::MAX"@)
                },
                Ok(q) => {
                    &&& !(now_ms > i64::MAX)
                    &&& q@ == Self::spec_list_due(now_ms, limit)
                },
            },
    {
        if now_ms > i64::MAX as u64 {
            return Err(StoreError::Internal("now_ms exceeds i64::MAX".to_owned()));
        }
        Ok(
            Query::on(Table::ScheduledTasks, Output::Rows(Self::columns()))
                .equals(Column::Enabled, SqlValue::Bool(true))
                .test(Test::NotNull(Column::NextRunAt))
                .test(Test::AtMost(Column::NextRunAt, SqlValue::Int8(now_ms as i64)))
                .ascending(Column::NextRunAt)
                .ascending(Column::ScheduledTaskId)
                .limit(limit as i64),
        )
    }
}

impl StoredRow for ScheduledTaskRow {
    type Record = ScheduledTaskRecord;

    open spec fn fault(&self, names: &DomainNames) -> Option<ErrorView> {
        None
    }

    open spec fn holds(&self, names: &DomainNames, record: &ScheduledTaskRecord) -> bool {
        &&& record.scheduled_task_id == self.scheduled_task_id
        &&& record.tenant_id == self.tenant_id
        &&& record.name == self.name
        &&& record.cron_expression == self.cron_expression
        &&& record.last_run_at == crate::read::opt_floor8(self.last_run_at)
        &&& record.next_run_at == crate::read::opt_floor8(self.next_run_at)
        &&& record.enabled == self.enabled
        &&& record.created_at == crate::read::floor8(self.created_at)
        &&& record.updated_at == crate::read::floor8(self.updated_at)
    }

    fn into_record(self, names: &DomainNames) -> (r: Result<ScheduledTaskRecord, StoreError>) {
        Ok(
            ScheduledTaskRecord {
                scheduled_task_id: self.scheduled_task_id,
                tenant_id: self.tenant_id,
                name: self.name,
                cron_expression: self.cron_expression,
                last_run_at: to_opt_floor8(self.last_run_at),
                next_run_at: to_opt_floor8(self.next_run_at),
                enabled: self.enabled,
                created_at: to_floor8(self.created_at),
                updated_at: to_floor8(self.updated_at),
            },
        )
    }
}

/// What a worker last said of itself.
#[derive(Clone, Copy, Debug, PartialEq, Eq)]
pub struct WorkerHealth {
    pub last_heartbeat_ms: u64,
    pub is_alive: bool,
    pub active_task_count: u32,
}

/// A row of `external_workers`.
#[derive(Debug, PartialEq, Eq)]
pub struct ExternalWorkerRow {
    pub worker_id: String,
    pub tenant_id: String,
    pub display_name: String,
    pub status: String,
    pub registered_at: i64,
    pub updated_at: i64,
    pub last_heartbeat_ms: i64,
    pub is_alive: bool,
    pub active_task_count: i32,
    pub current_task_id: Option<String>,
}

/// A worker outside the store's process.
#[derive(Debug, PartialEq, Eq)]
pub struct ExternalWorkerRecord {
    pub worker_id: String,
    pub tenant_id: String,
    pub display_name: String,
    pub status: String,
    pub registered_at: u64,
    pub updated_at: u64,
    pub health: WorkerHealth,
    pub current_task_id: Option<String>,
}

impl ExternalWorkerRow {
    /// The columns that the row is read from.
    pub open spec fn spec_columns() -> Seq<Column> {
        seq![
            Column::WorkerId,
            Column::TenantId,
            Column::DisplayName,
            Column::Status,
            Column::RegisteredAt,
            Column::UpdatedAt,
            Column::LastHeartbeatMs,
            Column::IsAlive,
            Column::ActiveTaskCount,
            Column::CurrentTaskId,
        ]
    }

    fn columns() -> (r: Vec<Column>)
        ensures
            r@ == Self::spec_columns(),
    {
        vec![
            Column::WorkerId,
            Column::TenantId,
            Column::DisplayName,
            Column::Status,
            Column::RegisteredAt,
            Column::UpdatedAt,
            Column::LastHeartbeatMs,
            Column::IsAlive,
            Column::ActiveTaskCount,
            Column::CurrentTaskId,
        ]
    }

    /// Whether this is what a stored row holds in those columns.
    pub open spec fn is_of(self, row: crate::model::Row) -> bool {
        &&& crate::model::value(row, Column::WorkerId) == Datum::Text(self.worker_id@)
        &&& crate::model::value(row, Column::TenantId) == Datum::Text(self.tenant_id@)
        &&& crate::model::value(row, Column::DisplayName) == Datum::Text(self.display_name@)
        &&& crate::model::value(row, Column::Status) == Datum::Text(self.status@)
        &&& crate::model::value(row, Column::RegisteredAt) == Datum::Int(self.registered_at as int)
        &&& crate::model::value(row, Column::UpdatedAt) == Datum::Int(self.updated_at as int)
        &&& crate::model::value(row, Column::LastHeartbeatMs) == Datum::Int(
            self.last_heartbeat_ms as int,
        )
        &&& crate::model::value(row, Column::IsAlive) == Datum::Bool(self.is_alive)
        &&& crate::model::value(row, Column::ActiveTaskCount) == Datum::Int(
            self.active_task_count as int,
        )
        &&& crate::model::value(row, Column::CurrentTaskId) == Datum::opt_text(self.current_task_id)
    }

    /// The query of [`ExternalWorkerRow::get`].
    pub open spec fn spec_get(worker_id: Seq<char>) -> QueryView {
        QueryView::on(Table::ExternalWorkers, OutputView::Rows(Self::spec_columns()))
            .equals(Column::WorkerId, ValueView::Text(worker_id))
    }

    /// Finds a worker.
    pub fn get(worker_id: &str) -> (r: Query)
        ensures
            r@ == Self::spec_get(worker_id@),
    {
        Query::on(Table::ExternalWorkers, Output::Rows(Self::columns()))
            .equals(Column::WorkerId, text(worker_id))
    }

    /// The query of [`ExternalWorkerRow::list_by_tenant`].
    pub open spec fn spec_list_by_tenant(
        tenant_id: Seq<char>,
        limit: usize,
        offset: usize,
    ) -> QueryView {
        QueryView::on(Table::ExternalWorkers, OutputView::Rows(Self::spec_columns()))
            .equals(Column::TenantId, ValueView::Text(tenant_id))
            .ascending(Column::RegisteredAt)
            .ascending(Column::WorkerId)
            .limit(limit as i64)
            .offset(offset as i64)
    }

    /// The workers of a tenant, the first registered first.
    pub fn list_by_tenant(tenant_id: &str, limit: usize, offset: usize) -> (r: Query)
        ensures
            r@ == Self::spec_list_by_tenant(tenant_id@, limit, offset),
    {
        Query::on(Table::ExternalWorkers, Output::Rows(Self::columns()))
            .equals(Column::TenantId, text(tenant_id))
            .ascending(Column::RegisteredAt)
            .ascending(Column::WorkerId)
            .limit(limit as i64)
            .offset(offset as i64)
    }
}

impl StoredRow for ExternalWorkerRow {
    type Record = ExternalWorkerRecord;

    open spec fn fault(&self, names: &DomainNames) -> Option<ErrorView> {
        None
    }

    open spec fn holds(&self, names: &DomainNames, record: &ExternalWorkerRecord) -> bool {
        &&& record.worker_id == self.worker_id
        &&& record.tenant_id == self.tenant_id
        &&& record.display_name == self.display_name
        &&& record.status == self.status
        &&& record.registered_at == crate::read::floor8(self.registered_at)
        &&& record.updated_at == crate::read::floor8(self.updated_at)
        &&& record.health == (WorkerHealth {
            last_heartbeat_ms: crate::read::floor8(self.last_heartbeat_ms),
            is_alive: self.is_alive,
            active_task_count: crate::read::floor4(self.active_task_count),
        })
        &&& record.current_task_id == self.current_task_id
    }

    fn into_record(self, names: &DomainNames) -> (r: Result<ExternalWorkerRecord, StoreError>) {
        Ok(
            ExternalWorkerRecord {
                worker_id: self.worker_id,
                tenant_id: self.tenant_id,
                display_name: self.display_name,
                status: self.status,
                registered_at: to_floor8(self.registered_at),
                updated_at: to_floor8(self.updated_at),
                health: WorkerHealth {
                    last_heartbeat_ms: to_floor8(self.last_heartbeat_ms),
                    is_alive: self.is_alive,
                    active_task_count: to_floor4(self.active_task_count),
                },
                current_task_id: self.current_task_id,
            },
        )
    }
}

/// A row of `ff_lease_history_cursors`.
#[derive(Debug, PartialEq, Eq)]
pub struct LeaseHistoryCursorRow {
    pub partition_id: String,
    pub execution_id: String,
    pub last_stream_id: String,
    pub updated_at_ms: i64,
}

/// How far the lease history of an execution was read.
#[derive(Debug, PartialEq, Eq)]
pub struct FfLeaseHistoryCursor {
    pub partition_id: String,
    pub execution_id: String,
    pub last_stream_id: String,
    pub updated_at_ms: u64,
}

impl LeaseHistoryCursorRow {
    /// The columns that the row is read from.
    pub open spec fn spec_columns() -> Seq<Column> {
        seq![
            Column::PartitionId,
            Column::ExecutionId,
            Column::LastStreamId,
            Column::UpdatedAtMs,
        ]
    }

    fn columns() -> (r: Vec<Column>)
        ensures
            r@ == Self::spec_columns(),
    {
        vec![
            Column::PartitionId,
            Column::ExecutionId,
            Column::LastStreamId,
            Column::UpdatedAtMs,
        ]
    }

    /// Whether this is what a stored row holds in those columns.
    pub open spec fn is_of(self, row: crate::model::Row) -> bool {
        &&& crate::model::value(row, Column::PartitionId) == Datum::Text(self.partition_id@)
        &&& crate::model::value(row, Column::ExecutionId) == Datum::Text(self.execution_id@)
        &&& crate::model::value(row, Column::LastStreamId) == Datum::Text(self.last_stream_id@)
        &&& crate::model::value(row, Column::UpdatedAtMs) == Datum::Int(self.updated_at_ms as int)
    }

    /// The query of [`LeaseHistoryCursorRow::get`].
    pub open spec fn spec_get(partition_id: Seq<char>, execution_id: Seq<char>) -> QueryView {
        QueryView::on(Table::FfLeaseHistoryCursors, OutputView::Rows(Self::spec_columns()))
            .equals(Column::PartitionId, ValueView::Text(partition_id))
            .equals(Column::ExecutionId, ValueView::Text(execution_id))
    }

    /// Finds how far the lease history of an execution was read.
    pub fn get(partition_id: &str, execution_id: &str) -> (r: Query)
        ensures
            r@ == Self::spec_get(partition_id@, execution_id@),
    {
        Query::on(Table::FfLeaseHistoryCursors, Output::Rows(Self::columns()))
            .equals(Column::PartitionId, text(partition_id))
            .equals(Column::ExecutionId, text(execution_id))
    }

    /// The query of [`LeaseHistoryCursorRow::list_by_partition`].
    pub open spec fn spec_list_by_partition(partition_id: Seq<char>) -> QueryView {
        QueryView::on(Table::FfLeaseHistoryCursors, OutputView::Rows(Self::spec_columns()))
            .equals(Column::PartitionId, ValueView::Text(partition_id))
    }

    /// How far the lease histories of a partition were read.
    pub fn list_by_partition(partition_id: &str) -> (r: Query)
        ensures
            r@ == Self::spec_list_by_partition(partition_id@),
    {
        Query::on(Table::FfLeaseHistoryCursors, Output::Rows(Self::columns()))
            .equals(Column::PartitionId, text(partition_id))
    }
}

impl FfLeaseHistoryCursor {
    /// What [`FfLeaseHistoryCursor::upsert`] writes.
    pub open spec fn upserted(self) -> StatementView {
        RowView::new()
            .put(Column::PartitionId, ValueView::Text(self.partition_id@))
            .put(Column::ExecutionId, ValueView::Text(self.execution_id@))
            .put(Column::LastStreamId, ValueView::Text(self.last_stream_id@))
            .put(Column::UpdatedAtMs, ValueView::Int8(self.updated_at_ms as i64))
            .upsert(
                Table::FfLeaseHistoryCursors,
                seq![Column::PartitionId, Column::ExecutionId],
                ChangesView::new().excluded(Column::LastStreamId).excluded(Column::UpdatedAtMs),
            )
    }

    /// Keeps how far the lease history of an execution was read.
    pub fn upsert(&self) -> (r: Statement)
        ensures
            r@ == self.upserted(),
    {
        let mut row = Cells::new();
        row.put(Column::PartitionId, text(&self.partition_id));
        row.put(Column::ExecutionId, text(&self.execution_id));
        row.put(Column::LastStreamId, text(&self.last_stream_id));
        row.put(Column::UpdatedAtMs, SqlValue::Int8(self.updated_at_ms as i64));
        let mut changes = Changes::new();
        changes.excluded(Column::LastStreamId);
        changes.excluded(Column::UpdatedAtMs);
        row.upsert(
            Table::FfLeaseHistoryCursors,
            vec![Column::PartitionId, Column::ExecutionId],
            changes,
        )
    }

    /// What [`FfLeaseHistoryCursor::delete`] writes.
    pub open spec fn deleted(partition_id: Seq<char>, execution_id: Seq<char>) -> StatementView {
        FilterView::new()
            .equals(Column::PartitionId, ValueView::Text(partition_id))
            .equals(Column::ExecutionId, ValueView::Text(execution_id))
            .delete(Table::FfLeaseHistoryCursors)
    }

    /// Forgets how far the lease history of an execution was read.
    pub fn delete(partition_id: &str, execution_id: &str) -> (r: Statement)
        ensures
            r@ == Self::deleted(partition_id@, execution_id@),
    {
        let mut filter = Filter::new();
        filter.equals(Column::PartitionId, text(partition_id));
        filter.equals(Column::ExecutionId, text(execution_id));
        filter.delete(Table::FfLeaseHistoryCursors)
    }
}

impl StoredRow for LeaseHistoryCursorRow {
    type Record = FfLeaseHistoryCursor;

    open spec fn fault(&self, names: &DomainNames) -> Option<ErrorView> {
        None
    }

    open spec fn holds(&self, names: &DomainNames, record: &FfLeaseHistoryCursor) -> bool {
        &&& record.partition_id == self.partition_id
        &&& record.execution_id == self.execution_id
        &&& record.last_stream_id == self.last_stream_id
        &&& record.updated_at_ms == self.updated_at_ms as u64
    }

    fn into_record(self, names: &DomainNames) -> (r: Result<FfLeaseHistoryCursor, StoreError>) {
        Ok(
            FfLeaseHistoryCursor {
                partition_id: self.partition_id,
                execution_id: self.execution_id,
                last_stream_id: self.last_stream_id,
                updated_at_ms: self.updated_at_ms as u64,
            },
        )
    }
}

} // verus!
