//! What the records say of the stored rows: tasks.

use crate::domain::DomainNames;
use crate::error::ErrorView;
use crate::model::{Datum, Row};
use crate::read::StoredRow;
use crate::read::tasks::{
    ExternalWorkerRecord, ExternalWorkerRow, FfLeaseHistoryCursor, LeaseHistoryCursorRow,
    ScheduledTaskRecord, ScheduledTaskRow, TaskRecord, TaskRow, WorkerHealth,
};
use crate::schema::Column;
use vstd::prelude::*;

verus! {

/// What the fields of a [`TaskRecord`] say of the stored row.
pub proof fn the_record_of_a_task_row(
    row: TaskRow,
    stored: Row,
    names: DomainNames,
    record: TaskRecord,
)
    requires
        row.is_of(stored),
        row.holds(&names, &record),
    ensures
        crate::model::value(stored, Column::TaskId) == Datum::Text(record.task_id@),
        crate::model::value(stored, Column::TenantId) == Datum::Text(record.project.tenant_id@),
        crate::model::value(stored, Column::WorkspaceId)
            == Datum::Text(record.project.workspace_id@),
        crate::model::value(stored, Column::ProjectId) == Datum::Text(record.project.project_id@),
        crate::model::value(stored, Column::ParentRunId)
            == crate::laws::storing::optional_text(record.parent_run_id),
        crate::model::value(stored, Column::ParentTaskId)
            == crate::laws::storing::optional_text(record.parent_task_id),
        crate::model::value(stored, Column::SessionId)
            == crate::laws::storing::optional_text(record.session_id),
        crate::model::value(stored, Column::State) == Datum::Text(record.state@),
        record.prompt_release_id is None,
        crate::model::value(stored, Column::FailureClass)
            == crate::laws::storing::optional_text(record.failure_class),
        record.pause_reason is None,
        record.resume_trigger is None,
        record.retry_count == 0,
        crate::model::value(stored, Column::LeaseOwner)
            == crate::laws::storing::optional_text(record.lease_owner),
        match record.lease_expires_at {
            Some(n) => crate::model::value(stored, Column::LeaseExpiresAt) is Int
                && (
                    crate::model::value(stored, Column::LeaseExpiresAt)->Int_0 >= 0
                        ==> n == crate::model::value(stored, Column::LeaseExpiresAt)->Int_0
                ),
            None => crate::model::value(stored, Column::LeaseExpiresAt) == Datum::Null,
        },
        crate::model::value(stored, Column::Title)
            == crate::laws::storing::optional_text(record.title),
        crate::model::value(stored, Column::Description)
            == crate::laws::storing::optional_text(record.description),
        crate::model::value(stored, Column::Version) is Int
            && (
                crate::model::value(stored, Column::Version)->Int_0 >= 0
                    ==> record.version == crate::model::value(stored, Column::Version)->Int_0
            ),
        crate::model::value(stored, Column::CreatedAt) is Int
            && (
                crate::model::value(stored, Column::CreatedAt)->Int_0 >= 0
                    ==> record.created_at == crate::model::value(stored, Column::CreatedAt)->Int_0
            ),
        crate::model::value(stored, Column::UpdatedAt) is Int
            && (
                crate::model::value(stored, Column::UpdatedAt)->Int_0 >= 0
                    ==> record.updated_at == crate::model::value(stored, Column::UpdatedAt)->Int_0
            ),
{
}

/// A [`TaskRow`] says nothing of a stored row but what the columns that it asks for
/// hold.
pub proof fn the_columns_of_a_task_row(row: TaskRow, stored: Row, other: Row)
    requires
        forall|i: int|
            0 <= i < TaskRow::spec_columns().len()
                ==> crate::model::value(stored, #[trigger] TaskRow::spec_columns()[i])
                    == crate::model::value(other, TaskRow::spec_columns()[i]),
    ensures
        row.is_of(stored) == row.is_of(other),
{
    let columns = TaskRow::spec_columns();
    assert(columns[0] == Column::TaskId);
    assert(columns[1] == Column::TenantId);
    assert(columns[2] == Column::WorkspaceId);
    assert(columns[3] == Column::ProjectId);
    assert(columns[4] == Column::ParentRunId);
    assert(columns[5] == Column::ParentTaskId);
    assert(columns[6] == Column::SessionId);
    assert(columns[7] == Column::State);
    assert(columns[8] == Column::FailureClass);
    assert(columns[9] == Column::LeaseOwner);
    assert(columns[10] == Column::LeaseExpiresAt);
    assert(columns[11] == Column::Title);
    assert(columns[12] == Column::Description);
    assert(columns[13] == Column::Version);
    assert(columns[14] == Column::CreatedAt);
    assert(columns[15] == Column::UpdatedAt);
}

/// When a [`TaskRow`] holds no record, and how it is refused.
pub proof fn the_faults_of_a_task_row(row: TaskRow, names: DomainNames)
    ensures
        !names.task_states.deep_view().contains(row.state@)
            ==> row.fault(&names)
                == Some(ErrorView::unknown_name(row.state@, names.task_states.deep_view())),
        !(!names.task_states.deep_view().contains(row.state@)) && row.failure_class is Some
            && !names.failure_classes.deep_view().contains(row.failure_class->Some_0@)
            ==> row.fault(&names)
                == Some(
                    ErrorView::unknown_name(
                        row.failure_class->Some_0@,
                        names.failure_classes.deep_view(),
                    ),
                ),
        !(!names.task_states.deep_view().contains(row.state@))
            && !(
                row.failure_class is Some
                    && !names.failure_classes.deep_view().contains(row.failure_class->Some_0@)
            )
            ==> row.fault(&names) is None,
{
}

/// What the fields of a [`ScheduledTaskRecord`] say of the stored row.
pub proof fn the_record_of_a_scheduled_task_row(
    row: ScheduledTaskRow,
    stored: Row,
    names: DomainNames,
    record: ScheduledTaskRecord,
)
    requires
        row.is_of(stored),
        row.holds(&names, &record),
    ensures
        crate::model::value(stored, Column::ScheduledTaskId)
            == Datum::Text(record.scheduled_task_id@),
        crate::model::value(stored, Column::TenantId) == Datum::Text(record.tenant_id@),
        crate::model::value(stored, Column::Name) == Datum::Text(record.name@),
        crate::model::value(stored, Column::CronExpression) == Datum::Text(record.cron_expression@),
        match record.last_run_at {
            Some(n) => crate::laws::recording::is_at_least_zero(
                crate::model::value(stored, Column::LastRunAt),
                n as int,
            ),
            None => crate::model::value(stored, Column::LastRunAt) == Datum::Null,
        },
        match record.next_run_at {
            Some(n) => crate::laws::recording::is_at_least_zero(
                crate::model::value(stored, Column::NextRunAt),
                n as int,
            ),
            None => crate::model::value(stored, Column::NextRunAt) == Datum::Null,
        },
        crate::model::value(stored, Column::Enabled) == Datum::Bool(record.enabled),
        crate::laws::recording::is_at_least_zero(
            crate::model::value(stored, Column::CreatedAt),
            record.created_at as int,
        ),
        crate::laws::recording::is_at_least_zero(
            crate::model::value(stored, Column::UpdatedAt),
            record.updated_at as int,
        ),
{
}

/// A [`ScheduledTaskRow`] says nothing of a stored row but what the columns that it asks for
/// hold.
pub proof fn the_columns_of_a_scheduled_task_row(row: ScheduledTaskRow, stored: Row, other: Row)
    requires
        forall|i: int|
            0 <= i < ScheduledTaskRow::spec_columns().len()
                ==> crate::model::value(stored, #[trigger] ScheduledTaskRow::spec_columns()[i])
                    == crate::model::value(other, ScheduledTaskRow::spec_columns()[i]),
    ensures
        row.is_of(stored) == row.is_of(other),
{
    let columns = ScheduledTaskRow::spec_columns();
    assert(columns[0] == Column::ScheduledTaskId);
    assert(columns[1] == Column::TenantId);
    assert(columns[2] == Column::Name);
    assert(columns[3] == Column::CronExpression);
    assert(columns[4] == Column::LastRunAt);
    assert(columns[5] == Column::NextRunAt);
    assert(columns[6] == Column::Enabled);
    assert(columns[7] == Column::CreatedAt);
    assert(columns[8] == Column::UpdatedAt);
}

/// Every [`ScheduledTaskRow`] holds a record.
pub proof fn the_faults_of_a_scheduled_task_row(row: ScheduledTaskRow, names: DomainNames)
    ensures
        row.fault(&names) is None,
{
}

/// What the fields of a [`ExternalWorkerRecord`] say of the stored row.
pub proof fn the_record_of_an_external_worker_row(
    row: ExternalWorkerRow,
    stored: Row,
    names: DomainNames,
    record: ExternalWorkerRecord,
)
    requires
        row.is_of(stored),
        row.holds(&names, &record),
    ensures
        crate::model::value(stored, Column::WorkerId) == Datum::Text(record.worker_id@),
        crate::model::value(stored, Column::TenantId) == Datum::Text(record.tenant_id@),
        crate::model::value(stored, Column::DisplayName) == Datum::Text(record.display_name@),
        crate::model::value(stored, Column::Status) == Datum::Text(record.status@),
        crate::laws::recording::is_at_least_zero(
            crate::model::value(stored, Column::RegisteredAt),
            record.registered_at as int,
        ),
        crate::laws::recording::is_at_least_zero(
            crate::model::value(stored, Column::UpdatedAt),
            record.updated_at as int,
        ),
        record.health
            == (
                WorkerHealth {
                    last_heartbeat_ms: crate::read::floor8(
                        row.last_heartbeat_ms,
                    ), is_alive: row.is_alive, active_task_count: crate::read::floor4(
                        row.active_task_count,
                    )
                }
            ),
        crate::model::value(stored, Column::CurrentTaskId)
            == crate::laws::storing::optional_text(record.current_task_id),
{
}

/// A [`ExternalWorkerRow`] says nothing of a stored row but what the columns that it asks for
/// hold.
pub proof fn the_columns_of_an_external_worker_row(row: ExternalWorkerRow, stored: Row, other: Row)
    requires
        forall|i: int|
            0 <= i < ExternalWorkerRow::spec_columns().len()
                ==> crate::model::value(stored, #[trigger] ExternalWorkerRow::spec_columns()[i])
                    == crate::model::value(other, ExternalWorkerRow::spec_columns()[i]),
    ensures
        row.is_of(stored) == row.is_of(other),
{
    let columns = ExternalWorkerRow::spec_columns();
    assert(columns[0] == Column::WorkerId);
    assert(columns[1] == Column::TenantId);
    assert(columns[2] == Column::DisplayName);
    assert(columns[3] == Column::Status);
    assert(columns[4] == Column::RegisteredAt);
    assert(columns[5] == Column::UpdatedAt);
    assert(columns[6] == Column::LastHeartbeatMs);
    assert(columns[7] == Column::IsAlive);
    assert(columns[8] == Column::ActiveTaskCount);
    assert(columns[9] == Column::CurrentTaskId);
}

/// Every [`ExternalWorkerRow`] holds a record.
pub proof fn the_faults_of_an_external_worker_row(row: ExternalWorkerRow, names: DomainNames)
    ensures
        row.fault(&names) is None,
{
}

/// What the fields of a [`FfLeaseHistoryCursor`] say of the stored row.
pub proof fn the_record_of_a_lease_history_cursor_row(
    row: LeaseHistoryCursorRow,
    stored: Row,
    names: DomainNames,
    record: FfLeaseHistoryCursor,
)
    requires
        row.is_of(stored),
        row.holds(&names, &record),
    ensures
        crate::model::value(stored, Column::PartitionId) == Datum::Text(record.partition_id@),
        crate::model::value(stored, Column::ExecutionId) == Datum::Text(record.execution_id@),
        crate::model::value(stored, Column::LastStreamId) == Datum::Text(record.last_stream_id@),
        crate::model::value(stored, Column::UpdatedAtMs) is Int
            && (
                crate::model::value(stored, Column::UpdatedAtMs)->Int_0 >= 0
                    ==> record.updated_at_ms
                        == crate::model::value(stored, Column::UpdatedAtMs)->Int_0
            ),
{
}

/// A [`LeaseHistoryCursorRow`] says nothing of a stored row but what the columns that it asks for
/// hold.
pub proof fn the_columns_of_a_lease_history_cursor_row(
    row: LeaseHistoryCursorRow,
    stored: Row,
    other: Row,
)
    requires
        forall|i: int|
            0 <= i < LeaseHistoryCursorRow::spec_columns().len()
                ==> crate::model::value(stored, #[trigger] LeaseHistoryCursorRow::spec_columns()[i])
                    == crate::model::value(other, LeaseHistoryCursorRow::spec_columns()[i]),
    ensures
        row.is_of(stored) == row.is_of(other),
{
    let columns = LeaseHistoryCursorRow::spec_columns();
    assert(columns[0] == Column::PartitionId);
    assert(columns[1] == Column::ExecutionId);
    assert(columns[2] == Column::LastStreamId);
    assert(columns[3] == Column::UpdatedAtMs);
}

/// Every [`LeaseHistoryCursorRow`] holds a record.
pub proof fn the_faults_of_a_lease_history_cursor_row(
    row: LeaseHistoryCursorRow,
    names: DomainNames,
)
    ensures
        row.fault(&names) is None,
{
}

} // verus!
