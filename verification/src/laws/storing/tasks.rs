//! What the events store: tasks.

use crate::error::ErrorView;
use crate::laws::rows::{group_filters, group_rows};
use crate::model::{Database, Datum, Row};
use crate::plan::{Moment, Planned};
use crate::projections::tasks::{
    ExternalWorkerReactivated, ExternalWorkerRegistered, ExternalWorkerReported,
    ExternalWorkerSuspended, ScheduledTaskCreated, TaskCreated, TaskLeaseClaimed,
    TaskLeaseHeartbeated, TaskStateChanged,
};
use crate::schema::{Column, Table};
use crate::statement::{ConflictView, GuardView};
use vstd::prelude::*;

verus! {

/// What a [`TaskCreated`] event stores.
pub proof fn task_created_is_stored(
    e: TaskCreated,
    at: Moment,
    db: Database,
    was: Row,
    other: Column,
)
    ensures
        ({
            let s = e.writes(at).statements()[0];
            let new = crate::laws::rows::left_by(db, s, None);
            &&& e.writes(at) is Writes
            &&& e.writes(at).statements().len() == 1
            &&& s is Insert && s.table() == Table::Tasks
            &&& crate::model::value(new, Column::TaskId) == Datum::Text(e.task_id@)
            &&& crate::model::value(new, Column::TenantId) == Datum::Text(e.project.tenant_id@)
            &&& crate::model::value(new, Column::WorkspaceId)
                == Datum::Text(e.project.workspace_id@)
            &&& crate::model::value(new, Column::ProjectId) == Datum::Text(e.project.project_id@)
            &&& crate::model::value(new, Column::ParentRunId)
                == crate::laws::storing::optional_text(e.parent_run_id)
            &&& crate::model::value(new, Column::ParentTaskId)
                == crate::laws::storing::optional_text(e.parent_task_id)
            &&& crate::model::value(new, Column::SessionId)
                == (
                    match (
                        e.session_id, e.parent_run_id
                    ) {
                        (Some(session), _) => Datum::Text(session@),
                        (None, Some(run)) => crate::model::of_run(db, run@, Column::SessionId),
                        (None, None) => Datum::Null,
                    }
                )
            &&& crate::model::value(new, Column::State) == Datum::Text("queued"@)
            &&& crate::model::value(new, Column::Title) == Datum::Null
            &&& crate::model::value(new, Column::Description) == Datum::Null
            &&& crate::model::value(new, Column::Version) == Datum::Int(1)
            &&& crate::model::value(new, Column::CreatedAt) == Datum::Int(at.now as int)
            &&& crate::model::value(new, Column::UpdatedAt) == Datum::Int(at.now as int)
            &&& other is TaskId || other is TenantId || other is WorkspaceId || other is ProjectId
                || other is ParentRunId || other is ParentTaskId || other is SessionId
                || other is State || other is Title || other is Description || other is Version
                || other is CreatedAt || other is UpdatedAt
                || crate::model::value(new, other) == db.default_of(Table::Tasks, other)
            &&& s->Insert_conflict is Fail
        }),
{
    broadcast use {group_rows, group_filters};
}

/// What a [`TaskLeaseClaimed`] event stores.
pub proof fn task_lease_claimed_is_stored(
    e: TaskLeaseClaimed,
    at: Moment,
    db: Database,
    was: Row,
    other: Column,
)
    ensures
        ({
            let s = e.writes(at).statements()[0];
            let updated = crate::laws::rows::updated_by(db, s, was);
            let selected = crate::model::value(was, Column::TaskId) == Datum::Text(e.task_id@);
            &&& e.writes(at) is Writes
            &&& e.writes(at).statements().len() == 1
            &&& s is Update && s.table() == Table::Tasks
            &&& selected ==> {
                &&& crate::model::value(updated, Column::State) == Datum::Text("leased"@)
                &&& crate::model::value(updated, Column::LeaseOwner) == Datum::Text(e.lease_owner@)
                &&& crate::model::value(updated, Column::LeaseExpiresAt)
                    == Datum::Int(e.lease_expires_at_ms as i64 as int)
                &&& crate::model::value(updated, Column::LeaseVersion)
                    == Datum::Int(e.lease_token as i64 as int)
                &&& crate::model::value(updated, Column::Version)
                    == crate::model::plus(crate::model::value(was, Column::Version), Datum::Int(1))
                &&& crate::model::value(updated, Column::UpdatedAt) == Datum::Int(at.now as int)
                &&& other is State || other is LeaseOwner || other is LeaseExpiresAt
                    || other is LeaseVersion || other is Version || other is UpdatedAt
                    || crate::model::value(updated, other) == crate::model::value(was, other)
            }
            &&& !selected ==> updated == was
        }),
{
    broadcast use {group_rows, group_filters};
}

/// What a [`TaskLeaseHeartbeated`] event stores.
pub proof fn task_lease_heartbeated_is_stored(
    e: TaskLeaseHeartbeated,
    at: Moment,
    db: Database,
    was: Row,
    other: Column,
)
    ensures
        ({
            let s = e.writes(at).statements()[0];
            let updated = crate::laws::rows::updated_by(db, s, was);
            let selected = crate::model::value(was, Column::TaskId) == Datum::Text(e.task_id@);
            &&& e.writes(at) is Writes
            &&& e.writes(at).statements().len() == 1
            &&& s is Update && s.table() == Table::Tasks
            &&& selected ==> {
                &&& crate::model::value(updated, Column::LeaseExpiresAt)
                    == Datum::Int(e.lease_expires_at_ms as i64 as int)
                &&& crate::model::value(updated, Column::LeaseVersion)
                    == Datum::Int(e.lease_token as i64 as int)
                &&& crate::model::value(updated, Column::Version)
                    == crate::model::plus(crate::model::value(was, Column::Version), Datum::Int(1))
                &&& crate::model::value(updated, Column::UpdatedAt) == Datum::Int(at.now as int)
                &&& other is LeaseExpiresAt || other is LeaseVersion || other is Version
                    || other is UpdatedAt
                    || crate::model::value(updated, other) == crate::model::value(was, other)
            }
            &&& !selected ==> updated == was
        }),
{
    broadcast use {group_rows, group_filters};
}

/// What a [`TaskStateChanged`] event stores.
pub proof fn task_state_changed_is_stored(
    e: TaskStateChanged,
    at: Moment,
    db: Database,
    was: Row,
    other: Column,
)
    ensures
        ({
            let s = e.writes(at).statements()[0];
            let updated = crate::laws::rows::updated_by(db, s, was);
            let selected = crate::model::value(was, Column::TaskId) == Datum::Text(e.task_id@);
            &&& e.writes(at) is Writes
            &&& e.writes(at).statements().len() == 1
            &&& s is Update && s.table() == Table::Tasks
            &&& selected ==> {
                &&& crate::model::value(updated, Column::State) == Datum::Text(e.to@)
                &&& crate::model::value(updated, Column::FailureClass)
                    == crate::laws::storing::optional_text(e.failure_class)
                &&& crate::model::value(updated, Column::Version)
                    == crate::model::plus(crate::model::value(was, Column::Version), Datum::Int(1))
                &&& crate::model::value(updated, Column::UpdatedAt) == Datum::Int(at.now as int)
                &&& other is State || other is FailureClass || other is Version
                    || other is UpdatedAt
                    || crate::model::value(updated, other) == crate::model::value(was, other)
            }
            &&& !selected ==> updated == was
        }),
{
    broadcast use {group_rows, group_filters};
}

/// What a [`ExternalWorkerRegistered`] event stores.
pub proof fn external_worker_registered_is_stored(
    e: ExternalWorkerRegistered,
    at: Moment,
    db: Database,
    was: Row,
    other: Column,
)
    ensures
        e.registered_at > i64::MAX
            ==> e.writes(at)
                == Planned::Refused(
                    crate::laws::storing::too_great(
                        "ExternalWorkerRegistered.registered_at"@,
                        e.registered_at as nat,
                        "i64::MAX"@,
                    ),
                ),
        e.registered_at <= i64::MAX ==> ({
            let s = e.writes(at).statements()[0];
            let merged = crate::laws::rows::left_by(db, s, Some(was));
            let new = crate::laws::rows::left_by(db, s, None);
            &&& e.writes(at) is Writes
            &&& e.writes(at).statements().len() == 1
            &&& s is Insert && s.table() == Table::ExternalWorkers
            &&& crate::model::value(new, Column::WorkerId) == Datum::Text(e.worker_id@)
            &&& crate::model::value(new, Column::TenantId) == Datum::Text(e.tenant_id@)
            &&& crate::model::value(new, Column::DisplayName) == Datum::Text(e.display_name@)
            &&& crate::model::value(new, Column::Status) == Datum::Text("active"@)
            &&& crate::model::value(new, Column::RegisteredAt)
                == Datum::Int(e.registered_at as i64 as int)
            &&& crate::model::value(new, Column::UpdatedAt) == Datum::Int(at.now as int)
            &&& crate::model::value(new, Column::LastHeartbeatMs) == Datum::Int(0)
            &&& crate::model::value(new, Column::IsAlive) == Datum::Bool(false)
            &&& crate::model::value(new, Column::ActiveTaskCount) == Datum::Int(0)
            &&& crate::model::value(new, Column::CurrentTaskId) == Datum::Null
            &&& other is WorkerId || other is TenantId || other is DisplayName || other is Status
                || other is RegisteredAt || other is UpdatedAt || other is LastHeartbeatMs
                || other is IsAlive || other is ActiveTaskCount || other is CurrentTaskId
                || crate::model::value(new, other) == db.default_of(Table::ExternalWorkers, other)
            &&& s->Insert_conflict is Merge
            &&& s->Insert_conflict->Merge_key == seq![Column::WorkerId]
            &&& s->Insert_conflict->Merge_guard == GuardView::SameAsExcluded(Column::TenantId)
            &&& crate::model::value(merged, Column::DisplayName) == Datum::Text(e.display_name@)
            &&& crate::model::value(merged, Column::Status) == Datum::Text("active"@)
            &&& crate::model::value(merged, Column::RegisteredAt)
                == Datum::Int(e.registered_at as i64 as int)
            &&& crate::model::value(merged, Column::UpdatedAt) == Datum::Int(at.now as int)
            &&& crate::model::value(merged, Column::LastHeartbeatMs) == Datum::Int(0)
            &&& crate::model::value(merged, Column::IsAlive) == Datum::Bool(false)
            &&& crate::model::value(merged, Column::ActiveTaskCount) == Datum::Int(0)
            &&& crate::model::value(merged, Column::CurrentTaskId) == Datum::Null
            &&& other is DisplayName || other is Status || other is RegisteredAt
                || other is UpdatedAt || other is LastHeartbeatMs || other is IsAlive
                || other is ActiveTaskCount || other is CurrentTaskId
                || crate::model::value(merged, other) == crate::model::value(was, other)
        }),
{
    broadcast use {group_rows, group_filters};
}

/// What a [`ExternalWorkerSuspended`] event stores.
pub proof fn external_worker_suspended_is_stored(
    e: ExternalWorkerSuspended,
    at: Moment,
    db: Database,
    was: Row,
    other: Column,
)
    ensures
        ({
            let s = e.writes(at).statements()[0];
            let updated = crate::laws::rows::updated_by(db, s, was);
            let selected = crate::model::value(was, Column::WorkerId) == Datum::Text(e.worker_id@);
            &&& e.writes(at) is Writes
            &&& e.writes(at).statements().len() == 1
            &&& s is Update && s.table() == Table::ExternalWorkers
            &&& selected ==> {
                &&& crate::model::value(updated, Column::Status) == Datum::Text("suspended"@)
                &&& crate::model::value(updated, Column::UpdatedAt) == Datum::Int(at.now as int)
                &&& other is Status || other is UpdatedAt
                    || crate::model::value(updated, other) == crate::model::value(was, other)
            }
            &&& !selected ==> updated == was
        }),
{
    broadcast use {group_rows, group_filters};
}

/// What a [`ExternalWorkerReactivated`] event stores.
pub proof fn external_worker_reactivated_is_stored(
    e: ExternalWorkerReactivated,
    at: Moment,
    db: Database,
    was: Row,
    other: Column,
)
    ensures
        ({
            let s = e.writes(at).statements()[0];
            let updated = crate::laws::rows::updated_by(db, s, was);
            let selected = crate::model::value(was, Column::WorkerId) == Datum::Text(e.worker_id@);
            &&& e.writes(at) is Writes
            &&& e.writes(at).statements().len() == 1
            &&& s is Update && s.table() == Table::ExternalWorkers
            &&& selected ==> {
                &&& crate::model::value(updated, Column::Status) == Datum::Text("active"@)
                &&& crate::model::value(updated, Column::UpdatedAt) == Datum::Int(at.now as int)
                &&& other is Status || other is UpdatedAt
                    || crate::model::value(updated, other) == crate::model::value(was, other)
            }
            &&& !selected ==> updated == was
        }),
{
    broadcast use {group_rows, group_filters};
}

/// What a [`ExternalWorkerReported`] event stores.
pub proof fn external_worker_reported_is_stored(
    e: ExternalWorkerReported,
    at: Moment,
    db: Database,
    was: Row,
    other: Column,
)
    ensures
        e.reported_at_ms > i64::MAX
            ==> e.writes(at)
                == Planned::Refused(
                    crate::laws::storing::too_great(
                        "ExternalWorkerReported.reported_at_ms"@,
                        e.reported_at_ms as nat,
                        "i64::MAX"@,
                    ),
                ),
        e.reported_at_ms <= i64::MAX ==> ({
            let s = e.writes(at).statements()[0];
            let updated = crate::laws::rows::updated_by(db, s, was);
            let selected = crate::model::value(was, Column::WorkerId) == Datum::Text(e.worker_id@);
            &&& e.writes(at) is Writes
            &&& e.writes(at).statements().len() == 1
            &&& s is Update && s.table() == Table::ExternalWorkers
            &&& selected ==> {
                &&& crate::model::value(updated, Column::LastHeartbeatMs)
                    == Datum::Int(e.reported_at_ms as i64 as int)
                &&& crate::model::value(updated, Column::IsAlive) == Datum::Bool(true)
                &&& crate::model::value(updated, Column::CurrentTaskId)
                    == (if e.outcome is None { Datum::Text(e.task_id@) } else { Datum::Null })
                &&& crate::model::value(updated, Column::UpdatedAt) == Datum::Int(at.now as int)
                &&& other is LastHeartbeatMs || other is IsAlive || other is CurrentTaskId
                    || other is UpdatedAt
                    || crate::model::value(updated, other) == crate::model::value(was, other)
            }
            &&& !selected ==> updated == was
        }),
{
    broadcast use {group_rows, group_filters};
}

/// What a [`ScheduledTaskCreated`] event stores.
pub proof fn scheduled_task_created_is_stored(
    e: ScheduledTaskCreated,
    at: Moment,
    db: Database,
    was: Row,
    other: Column,
)
    ensures
        e.created_at > i64::MAX
            ==> e.writes(at)
                == Planned::Refused(
                    crate::laws::storing::too_great(
                        "ScheduledTaskCreated.created_at"@,
                        e.created_at as nat,
                        "i64::MAX"@,
                    ),
                ),
        e.created_at <= i64::MAX && (e.next_run_at is Some && e.next_run_at->Some_0 > i64::MAX)
            ==> e.writes(at)
                == Planned::Refused(
                    ErrorView::Internal("ScheduledTaskCreated.next_run_at exceeds i64::MAX"@),
                ),
        e.created_at <= i64::MAX && (!(e.next_run_at is Some && e.next_run_at->Some_0 > i64::MAX))
            ==> ({
            let s = e.writes(at).statements()[0];
            let new = crate::laws::rows::left_by(db, s, None);
            &&& e.writes(at) is Writes
            &&& e.writes(at).statements().len() == 1
            &&& s is Insert && s.table() == Table::ScheduledTasks
            &&& crate::model::value(new, Column::ScheduledTaskId)
                == Datum::Text(e.scheduled_task_id@)
            &&& crate::model::value(new, Column::TenantId) == Datum::Text(e.tenant_id@)
            &&& crate::model::value(new, Column::Name) == Datum::Text(e.name@)
            &&& crate::model::value(new, Column::CronExpression) == Datum::Text(e.cron_expression@)
            &&& crate::model::value(new, Column::LastRunAt) == Datum::Null
            &&& crate::model::value(new, Column::NextRunAt)
                == crate::laws::storing::optional_number(e.next_run_at)
            &&& crate::model::value(new, Column::Enabled) == Datum::Bool(true)
            &&& crate::model::value(new, Column::CreatedAt)
                == Datum::Int(e.created_at as i64 as int)
            &&& crate::model::value(new, Column::UpdatedAt)
                == Datum::Int(e.created_at as i64 as int)
            &&& other is ScheduledTaskId || other is TenantId || other is Name
                || other is CronExpression || other is LastRunAt || other is NextRunAt
                || other is Enabled || other is CreatedAt || other is UpdatedAt
                || crate::model::value(new, other) == db.default_of(Table::ScheduledTasks, other)
            &&& s->Insert_conflict == ConflictView::Ignore(seq![Column::ScheduledTaskId])
        }),
{
    broadcast use {group_rows, group_filters};
}

} // verus!
