//! What task and worker events write.

use crate::domain::ProjectKey;
use crate::error::{ErrorView, StoreError};
use crate::plan::{one, Moment, Planned};
use crate::schema::{Column, Table};
use crate::statement::{
    only, Cells, Changes, ChangesView, Filter, FilterView, Guard, GuardView, Operand,
    OperandView, RowView, Source, SourceView, Statement,
};
use crate::text::fits_i64;
use crate::value::{opt_int8, opt_text, text, SqlType, SqlValue, ValueView};
use vstd::prelude::*;

verus! {

/// A task was queued. Its session is the one named, or the one stored for its parent run.
#[derive(Debug, PartialEq, Eq)]
pub struct TaskCreated {
    pub task_id: String,
    pub project: ProjectKey,
    pub parent_run_id: Option<String>,
    pub parent_task_id: Option<String>,
    pub session_id: Option<String>,
}

impl TaskCreated {
    /// What the event writes.
    pub open spec fn writes(self, at: Moment) -> Planned {
        Planned::Writes(
            seq![
                RowView::new()
                    .put(Column::TaskId, ValueView::Text(self.task_id@))
                    .put(Column::TenantId, ValueView::Text(self.project.tenant_id@))
                    .put(Column::WorkspaceId, ValueView::Text(self.project.workspace_id@))
                    .put(Column::ProjectId, ValueView::Text(self.project.project_id@))
                    .put(Column::ParentRunId, ValueView::opt_text(self.parent_run_id))
                    .put(Column::ParentTaskId, ValueView::opt_text(self.parent_task_id))
                    .operand(
                        Column::SessionId,
                        OperandView::SessionOf {
                            session_id: self.session_id.deep_view(),
                            parent_run_id: self.parent_run_id.deep_view(),
                        },
                    )
                    .put(Column::State, ValueView::Text("queued"@))
                    .put(Column::Title, ValueView::Null(SqlType::Text))
                    .put(Column::Description, ValueView::Null(SqlType::Text))
                    .put(Column::Version, ValueView::Int8(1))
                    .put(Column::CreatedAt, ValueView::Int8(at.now))
                    .put(Column::UpdatedAt, ValueView::Int8(at.now))
                    .insert(Table::Tasks),
            ],
        )
    }

    /// Plans what the event writes.
    pub fn plan(&self, at: &Moment) -> (r: Result<Vec<Statement>, StoreError>)
        ensures
            Planned::of(r) == self.writes(*at),
    {
        let mut row = Cells::new();
        row.put(Column::TaskId, text(&self.task_id));
        row.put(Column::TenantId, text(&self.project.tenant_id));
        row.put(Column::WorkspaceId, text(&self.project.workspace_id));
        row.put(Column::ProjectId, text(&self.project.project_id));
        row.put(Column::ParentRunId, opt_text(&self.parent_run_id));
        row.put(Column::ParentTaskId, opt_text(&self.parent_task_id));
        row.operand(
            Column::SessionId,
            Operand::SessionOf {
                session_id: self.session_id.clone(),
                parent_run_id: self.parent_run_id.clone(),
            },
        );
        row.put(Column::State, text("queued"));
        row.put(Column::Title, SqlValue::Null(SqlType::Text));
        row.put(Column::Description, SqlValue::Null(SqlType::Text));
        row.put(Column::Version, SqlValue::Int8(1));
        row.put(Column::CreatedAt, SqlValue::Int8(at.now));
        row.put(Column::UpdatedAt, SqlValue::Int8(at.now));
        one(row.insert(Table::Tasks))
    }
}

/// A worker leased a task.
#[derive(Debug, PartialEq, Eq)]
pub struct TaskLeaseClaimed {
    pub task_id: String,
    pub lease_owner: String,
    pub lease_expires_at_ms: u64,
    pub lease_token: u64,
}

impl TaskLeaseClaimed {
    /// What the event writes.
    pub open spec fn writes(self, at: Moment) -> Planned {
        Planned::Writes(
            seq![
                ChangesView::new()
                    .put(Column::State, ValueView::Text("leased"@))
                    .put(Column::LeaseOwner, ValueView::Text(self.lease_owner@))
                    .put(Column::LeaseExpiresAt, ValueView::Int8(self.lease_expires_at_ms as i64))
                    .put(Column::LeaseVersion, ValueView::Int8(self.lease_token as i64))
                    .source(Column::Version, SourceView::Plus(ValueView::Int8(1)))
                    .put(Column::UpdatedAt, ValueView::Int8(at.now))
                    .update(
                        Table::Tasks,
                        FilterView::new().equals(Column::TaskId, ValueView::Text(self.task_id@)),
                    ),
            ],
        )
    }

    /// Plans what the event writes.
    pub fn plan(&self, at: &Moment) -> (r: Result<Vec<Statement>, StoreError>)
        ensures
            Planned::of(r) == self.writes(*at),
    {
        let mut changes = Changes::new();
        changes.put(Column::State, text("leased"));
        changes.put(Column::LeaseOwner, text(&self.lease_owner));
        changes.put(Column::LeaseExpiresAt, SqlValue::Int8(self.lease_expires_at_ms as i64));
        changes.put(Column::LeaseVersion, SqlValue::Int8(self.lease_token as i64));
        changes.source(Column::Version, Source::Plus(SqlValue::Int8(1)));
        changes.put(Column::UpdatedAt, SqlValue::Int8(at.now));
        let mut filter = Filter::new();
        filter.equals(Column::TaskId, text(&self.task_id));
        one(changes.update(Table::Tasks, filter))
    }
}

/// A worker extended its lease of a task.
#[derive(Debug, PartialEq, Eq)]
pub struct TaskLeaseHeartbeated {
    pub task_id: String,
    pub lease_expires_at_ms: u64,
    pub lease_token: u64,
}

impl TaskLeaseHeartbeated {
    /// What the event writes.
    pub open spec fn writes(self, at: Moment) -> Planned {
        Planned::Writes(
            seq![
                ChangesView::new()
                    .put(Column::LeaseExpiresAt, ValueView::Int8(self.lease_expires_at_ms as i64))
                    .put(Column::LeaseVersion, ValueView::Int8(self.lease_token as i64))
                    .source(Column::Version, SourceView::Plus(ValueView::Int8(1)))
                    .put(Column::UpdatedAt, ValueView::Int8(at.now))
                    .update(
                        Table::Tasks,
                        FilterView::new().equals(Column::TaskId, ValueView::Text(self.task_id@)),
                    ),
            ],
        )
    }

    /// Plans what the event writes.
    pub fn plan(&self, at: &Moment) -> (r: Result<Vec<Statement>, StoreError>)
        ensures
            Planned::of(r) == self.writes(*at),
    {
        let mut changes = Changes::new();
        changes.put(Column::LeaseExpiresAt, SqlValue::Int8(self.lease_expires_at_ms as i64));
        changes.put(Column::LeaseVersion, SqlValue::Int8(self.lease_token as i64));
        changes.source(Column::Version, Source::Plus(SqlValue::Int8(1)));
        changes.put(Column::UpdatedAt, SqlValue::Int8(at.now));
        let mut filter = Filter::new();
        filter.equals(Column::TaskId, text(&self.task_id));
        one(changes.update(Table::Tasks, filter))
    }
}

/// A task moved to another state.
#[derive(Debug, PartialEq, Eq)]
pub struct TaskStateChanged {
    pub to: String,
    pub failure_class: Option<String>,
    pub task_id: String,
}

impl TaskStateChanged {
    /// What the event writes.
    pub open spec fn writes(self, at: Moment) -> Planned {
        Planned::Writes(
            seq![
                ChangesView::new()
                    .put(Column::State, ValueView::Text(self.to@))
                    .put(Column::FailureClass, ValueView::opt_text(self.failure_class))
                    .source(Column::Version, SourceView::Plus(ValueView::Int8(1)))
                    .put(Column::UpdatedAt, ValueView::Int8(at.now))
                    .update(
                        Table::Tasks,
                        FilterView::new().equals(Column::TaskId, ValueView::Text(self.task_id@)),
                    ),
            ],
        )
    }

    /// Plans what the event writes.
    pub fn plan(&self, at: &Moment) -> (r: Result<Vec<Statement>, StoreError>)
        ensures
            Planned::of(r) == self.writes(*at),
    {
        let mut changes = Changes::new();
        changes.put(Column::State, text(&self.to));
        changes.put(Column::FailureClass, opt_text(&self.failure_class));
        changes.source(Column::Version, Source::Plus(SqlValue::Int8(1)));
        changes.put(Column::UpdatedAt, SqlValue::Int8(at.now));
        let mut filter = Filter::new();
        filter.equals(Column::TaskId, text(&self.task_id));
        one(changes.update(Table::Tasks, filter))
    }
}

/// A scheduled task was set up.
#[derive(Debug, PartialEq, Eq)]
pub struct ScheduledTaskCreated {
    pub created_at: u64,
    pub next_run_at: Option<u64>,
    pub scheduled_task_id: String,
    pub tenant_id: String,
    pub name: String,
    pub cron_expression: String,
}

impl ScheduledTaskCreated {
    /// What the event writes.
    pub open spec fn writes(self, at: Moment) -> Planned {
        if self.created_at > i64::MAX {
            Planned::Refused(
                ErrorView::exceeds(
                    "ScheduledTaskCreated.created_at"@,
                    self.created_at as nat,
                    "i64::MAX"@,
                ),
            )
        } else if self.next_run_at matches Some(v) && v > i64::MAX {
            Planned::Refused(
                ErrorView::Internal("ScheduledTaskCreated.next_run_at exceeds i64::MAX"@),
            )
        } else {
            Planned::Writes(
                seq![
                    RowView::new()
                        .put(Column::ScheduledTaskId, ValueView::Text(self.scheduled_task_id@))
                        .put(Column::TenantId, ValueView::Text(self.tenant_id@))
                        .put(Column::Name, ValueView::Text(self.name@))
                        .put(Column::CronExpression, ValueView::Text(self.cron_expression@))
                        .put(Column::LastRunAt, ValueView::Null(SqlType::Int8))
                        .put(Column::NextRunAt, ValueView::opt_bits8(self.next_run_at))
                        .put(Column::Enabled, ValueView::Bool(true))
                        .put(Column::CreatedAt, ValueView::Int8(self.created_at as i64))
                        .put(Column::UpdatedAt, ValueView::Int8(self.created_at as i64))
                        .insert_new(Table::ScheduledTasks, seq![Column::ScheduledTaskId]),
                ],
            )
        }
    }

    /// Plans what the event writes.
    pub fn plan(&self, at: &Moment) -> (r: Result<Vec<Statement>, StoreError>)
        ensures
            Planned::of(r) == self.writes(*at),
    {
        let created_at: i64 = match fits_i64("ScheduledTaskCreated.created_at", self.created_at) {
            Ok(v) => v,
            Err(e) => return Err(e),
        };
        let next_run_at: Option<i64> = match self.next_run_at {
            Some(v) => if v <= i64::MAX as u64 {
                Some(v as i64)
            } else {
                return Err(
                    StoreError::Internal(
                        "ScheduledTaskCreated.next_run_at exceeds i64::MAX".to_owned(),
                    ),
                );
            },
            None => None,
        };
        let mut row = Cells::new();
        row.put(Column::ScheduledTaskId, text(&self.scheduled_task_id));
        row.put(Column::TenantId, text(&self.tenant_id));
        row.put(Column::Name, text(&self.name));
        row.put(Column::CronExpression, text(&self.cron_expression));
        row.put(Column::LastRunAt, SqlValue::Null(SqlType::Int8));
        row.put(Column::NextRunAt, opt_int8(next_run_at));
        row.put(Column::Enabled, SqlValue::Bool(true));
        row.put(Column::CreatedAt, SqlValue::Int8(created_at));
        row.put(Column::UpdatedAt, SqlValue::Int8(created_at));
        one(row.insert_new(Table::ScheduledTasks, only(Column::ScheduledTaskId)))
    }
}

/// A worker registered. A worker of another tenant is left alone.
#[derive(Debug, PartialEq, Eq)]
pub struct ExternalWorkerRegistered {
    pub registered_at: u64,
    pub worker_id: String,
    pub tenant_id: String,
    pub display_name: String,
}

impl ExternalWorkerRegistered {
    /// What the event writes.
    pub open spec fn writes(self, at: Moment) -> Planned {
        if self.registered_at > i64::MAX {
            Planned::Refused(
                ErrorView::exceeds(
                    "ExternalWorkerRegistered.registered_at"@,
                    self.registered_at as nat,
                    "i64::MAX"@,
                ),
            )
        } else {
            Planned::Writes(
                seq![
                    RowView::new()
                        .put(Column::WorkerId, ValueView::Text(self.worker_id@))
                        .put(Column::TenantId, ValueView::Text(self.tenant_id@))
                        .put(Column::DisplayName, ValueView::Text(self.display_name@))
                        .put(Column::Status, ValueView::Text("active"@))
                        .put(Column::RegisteredAt, ValueView::Int8(self.registered_at as i64))
                        .put(Column::UpdatedAt, ValueView::Int8(at.now))
                        .put(Column::LastHeartbeatMs, ValueView::Int8(0))
                        .put(Column::IsAlive, ValueView::Bool(false))
                        .put(Column::ActiveTaskCount, ValueView::Int4(0))
                        .put(Column::CurrentTaskId, ValueView::Null(SqlType::Text))
                        .guarded_upsert(
                            Table::ExternalWorkers,
                            seq![Column::WorkerId],
                            ChangesView::new()
                                .excluded(Column::DisplayName)
                                .excluded(Column::Status)
                                .excluded(Column::RegisteredAt)
                                .excluded(Column::UpdatedAt)
                                .put(Column::LastHeartbeatMs, ValueView::Int8(0))
                                .put(Column::IsAlive, ValueView::Bool(false))
                                .put(Column::ActiveTaskCount, ValueView::Int4(0))
                                .put(Column::CurrentTaskId, ValueView::Null(SqlType::Text)),
                            GuardView::SameAsExcluded(Column::TenantId),
                        ),
                ],
            )
        }
    }

    /// Plans what the event writes.
    pub fn plan(&self, at: &Moment) -> (r: Result<Vec<Statement>, StoreError>)
        ensures
            Planned::of(r) == self.writes(*at),
    {
        let registered_at: i64 = match fits_i64(
            "ExternalWorkerRegistered.registered_at",
            self.registered_at,
        ) {
            Ok(v) => v,
            Err(e) => return Err(e),
        };
        let mut row = Cells::new();
        row.put(Column::WorkerId, text(&self.worker_id));
        row.put(Column::TenantId, text(&self.tenant_id));
        row.put(Column::DisplayName, text(&self.display_name));
        row.put(Column::Status, text("active"));
        row.put(Column::RegisteredAt, SqlValue::Int8(registered_at));
        row.put(Column::UpdatedAt, SqlValue::Int8(at.now));
        row.put(Column::LastHeartbeatMs, SqlValue::Int8(0));
        row.put(Column::IsAlive, SqlValue::Bool(false));
        row.put(Column::ActiveTaskCount, SqlValue::Int4(0));
        row.put(Column::CurrentTaskId, SqlValue::Null(SqlType::Text));
        let mut changes = Changes::new();
        changes.excluded(Column::DisplayName);
        changes.excluded(Column::Status);
        changes.excluded(Column::RegisteredAt);
        changes.excluded(Column::UpdatedAt);
        changes.put(Column::LastHeartbeatMs, SqlValue::Int8(0));
        changes.put(Column::IsAlive, SqlValue::Bool(false));
        changes.put(Column::ActiveTaskCount, SqlValue::Int4(0));
        changes.put(Column::CurrentTaskId, SqlValue::Null(SqlType::Text));
        one(
            row.guarded_upsert(
                Table::ExternalWorkers,
                only(Column::WorkerId),
                changes,
                Guard::SameAsExcluded(Column::TenantId),
            ),
        )
    }
}

/// A worker was suspended.
#[derive(Debug, PartialEq, Eq)]
pub struct ExternalWorkerSuspended {
    pub worker_id: String,
}

impl ExternalWorkerSuspended {
    /// What the event writes.
    pub open spec fn writes(self, at: Moment) -> Planned {
        Planned::Writes(
            seq![
                ChangesView::new()
                    .put(Column::Status, ValueView::Text("suspended"@))
                    .put(Column::UpdatedAt, ValueView::Int8(at.now))
                    .update(
                        Table::ExternalWorkers,
                        FilterView::new()
                            .equals(Column::WorkerId, ValueView::Text(self.worker_id@)),
                    ),
            ],
        )
    }

    /// Plans what the event writes.
    pub fn plan(&self, at: &Moment) -> (r: Result<Vec<Statement>, StoreError>)
        ensures
            Planned::of(r) == self.writes(*at),
    {
        let mut changes = Changes::new();
        changes.put(Column::Status, text("suspended"));
        changes.put(Column::UpdatedAt, SqlValue::Int8(at.now));
        let mut filter = Filter::new();
        filter.equals(Column::WorkerId, text(&self.worker_id));
        one(changes.update(Table::ExternalWorkers, filter))
    }
}

/// A suspended worker was made active again.
#[derive(Debug, PartialEq, Eq)]
pub struct ExternalWorkerReactivated {
    pub worker_id: String,
}

impl ExternalWorkerReactivated {
    /// What the event writes.
    pub open spec fn writes(self, at: Moment) -> Planned {
        Planned::Writes(
            seq![
                ChangesView::new()
                    .put(Column::Status, ValueView::Text("active"@))
                    .put(Column::UpdatedAt, ValueView::Int8(at.now))
                    .update(
                        Table::ExternalWorkers,
                        FilterView::new()
                            .equals(Column::WorkerId, ValueView::Text(self.worker_id@)),
                    ),
            ],
        )
    }

    /// Plans what the event writes.
    pub fn plan(&self, at: &Moment) -> (r: Result<Vec<Statement>, StoreError>)
        ensures
            Planned::of(r) == self.writes(*at),
    {
        let mut changes = Changes::new();
        changes.put(Column::Status, text("active"));
        changes.put(Column::UpdatedAt, SqlValue::Int8(at.now));
        let mut filter = Filter::new();
        filter.equals(Column::WorkerId, text(&self.worker_id));
        one(changes.update(Table::ExternalWorkers, filter))
    }
}

/// A worker reported on a task, which it still holds where no outcome came.
#[derive(Debug, PartialEq, Eq)]
pub struct ExternalWorkerReported {
    pub reported_at_ms: u64,
    pub task_id: String,
    pub outcome: Option<String>,
    pub worker_id: String,
}

impl ExternalWorkerReported {
    /// What the event writes.
    pub open spec fn writes(self, at: Moment) -> Planned {
        if self.reported_at_ms > i64::MAX {
            Planned::Refused(
                ErrorView::exceeds(
                    "ExternalWorkerReported.reported_at_ms"@,
                    self.reported_at_ms as nat,
                    "i64::MAX"@,
                ),
            )
        } else {
            Planned::Writes(
                seq![
                    ChangesView::new()
                        .put(Column::LastHeartbeatMs, ValueView::Int8(self.reported_at_ms as i64))
                        .put(Column::IsAlive, ValueView::Bool(true))
                        .put(
                            Column::CurrentTaskId,
                            if self.outcome is None {
                                ValueView::Text(self.task_id@)
                            } else {
                                ValueView::Null(SqlType::Text)
                            },
                        )
                        .put(Column::UpdatedAt, ValueView::Int8(at.now))
                        .update(
                            Table::ExternalWorkers,
                            FilterView::new()
                                .equals(Column::WorkerId, ValueView::Text(self.worker_id@)),
                        ),
                ],
            )
        }
    }

    /// Plans what the event writes.
    pub fn plan(&self, at: &Moment) -> (r: Result<Vec<Statement>, StoreError>)
        ensures
            Planned::of(r) == self.writes(*at),
    {
        let last_hb: i64 = match fits_i64(
            "ExternalWorkerReported.reported_at_ms",
            self.reported_at_ms,
        ) {
            Ok(v) => v,
            Err(e) => return Err(e),
        };
        let mut changes = Changes::new();
        changes.put(Column::LastHeartbeatMs, SqlValue::Int8(last_hb));
        changes.put(Column::IsAlive, SqlValue::Bool(true));
        changes.put(
            Column::CurrentTaskId,
            if self.outcome.is_none() {
                text(&self.task_id)
            } else {
                SqlValue::Null(SqlType::Text)
            },
        );
        changes.put(Column::UpdatedAt, SqlValue::Int8(at.now));
        let mut filter = Filter::new();
        filter.equals(Column::WorkerId, text(&self.worker_id));
        one(changes.update(Table::ExternalWorkers, filter))
    }
}

} // verus!
