//! What is read back of what was written: tasks.

use crate::domain::DomainNames;
use crate::laws::rows::group_rows;
use crate::model::{Database, Datum, Row};
use crate::plan::Moment;
use crate::projections::tasks::{
    ExternalWorkerReactivated, ExternalWorkerRegistered, ExternalWorkerReported,
    ExternalWorkerSuspended, ScheduledTaskCreated, TaskCreated, TaskLeaseClaimed,
    TaskLeaseHeartbeated, TaskStateChanged,
};
use crate::projections::runs::SubagentSpawned;
use crate::read::StoredRow;
use crate::read::tasks::{
    ExternalWorkerRecord, ExternalWorkerRow, FfLeaseHistoryCursor, LeaseHistoryCursorRow,
    ScheduledTaskRecord, ScheduledTaskRow, TaskRecord, TaskRow,
};
use crate::schema::{Column, Table};
use vstd::prelude::*;

verus! {

/// The record that is read back after a `TaskCreated` event holds what the event says.
pub proof fn task_created_is_read_back(
    e: TaskCreated,
    at: Moment,
    db: Database,
    row: TaskRow,
    names: DomainNames,
    record: TaskRecord,
)
    requires
        e.writes(at) is Writes,
        e.writes(at).statements().len() > 0,
        row.is_of(crate::laws::rows::left_by(db, e.writes(at).statements()[0], None)),
        row.holds(&names, &record),
    ensures
        record.task_id@ == e.task_id@,
        record.project@ == e.project@,
        record.parent_run_id.deep_view() == e.parent_run_id.deep_view(),
        record.parent_task_id.deep_view() == e.parent_task_id.deep_view(),
        record.state@ == "queued"@,
        record.title is None,
        record.description is None,
        record.version == 1,
        record.created_at == at.now as u64,
        record.updated_at == at.now as u64,
        names.task_states.deep_view().contains("queued"@) && row.failure_class is None
            ==> row.fault(&names) is None,
        record.prompt_release_id is None,
        db.default_of(Table::Tasks, Column::FailureClass) == Datum::Null
            ==> record.failure_class is None,
        record.pause_reason is None,
        record.resume_trigger is None,
        db.default_of(Table::Tasks, Column::LeaseOwner) == Datum::Null
            ==> record.lease_owner is None,
        db.default_of(Table::Tasks, Column::LeaseExpiresAt) == Datum::Null
            ==> record.lease_expires_at is None,
        e.session_id is Some ==> record.session_id.deep_view() == e.session_id.deep_view(),
        e.session_id is None && e.parent_run_id is None ==> record.session_id is None,
        e.session_id is None && e.parent_run_id is Some ==> Datum::opt_text(record.session_id)
            == crate::model::of_run(db, e.parent_run_id->Some_0@, Column::SessionId),
        record.retry_count == 0,
{
    broadcast use group_rows;
}

/// The record that is read back after a `ExternalWorkerRegistered` event holds what the event
/// says.
pub proof fn external_worker_registered_is_read_back(
    e: ExternalWorkerRegistered,
    at: Moment,
    db: Database,
    was: Option<Row>,
    before: ExternalWorkerRow,
    row: ExternalWorkerRow,
    names: DomainNames,
    old: ExternalWorkerRecord,
    record: ExternalWorkerRecord,
)
    requires
        e.writes(at) is Writes,
        e.writes(at).statements().len() > 0,
        was is Some ==> crate::laws::rows::replaces(
            db,
            e.writes(at).statements()[0],
            was->Some_0,
        ),
        was is Some ==> before.is_of(was->Some_0) && before.holds(&names, &old),
        row.is_of(crate::laws::rows::left_by(db, e.writes(at).statements()[0], was)),
        row.holds(&names, &record),
    ensures
        record.worker_id@ == e.worker_id@,
        was is None ==> (record.tenant_id@ == e.tenant_id@),
        record.display_name@ == e.display_name@,
        record.status@ == "active"@,
        e.registered_at <= i64::MAX ==> record.registered_at == e.registered_at,
        record.updated_at == crate::read::floor8(at.now),
        record.current_task_id is None,
        was is Some ==> record.tenant_id@ == old.tenant_id@,
        record.health.last_heartbeat_ms == 0,
        !record.health.is_alive,
        record.health.active_task_count == 0,
{
    broadcast use group_rows;

    let key = e.writes(at).statements()[0]->Insert_conflict->Merge_key;
    assert(key[0] == Column::WorkerId);
}

/// The record that is read back after a `ScheduledTaskCreated` event holds what the event says.
pub proof fn scheduled_task_created_is_read_back(
    e: ScheduledTaskCreated,
    at: Moment,
    db: Database,
    row: ScheduledTaskRow,
    names: DomainNames,
    record: ScheduledTaskRecord,
)
    requires
        e.writes(at) is Writes,
        e.writes(at).statements().len() > 0,
        row.is_of(crate::laws::rows::left_by(db, e.writes(at).statements()[0], None)),
        row.holds(&names, &record),
    ensures
        record.scheduled_task_id@ == e.scheduled_task_id@,
        record.tenant_id@ == e.tenant_id@,
        record.name@ == e.name@,
        record.cron_expression@ == e.cron_expression@,
        record.last_run_at is None,
        match e.next_run_at {
            Some(v) => v <= i64::MAX ==> record.next_run_at == Some(v),
            None => record.next_run_at is None,
        },
        record.enabled == true,
        e.created_at <= i64::MAX ==> record.created_at == e.created_at,
        e.created_at <= i64::MAX ==> record.updated_at == e.created_at,
{
    broadcast use group_rows;
}

/// The record that is read back of a row that a `TaskLeaseClaimed` event changes holds what the
/// event says.
pub proof fn task_lease_claimed_is_read_back(
    e: TaskLeaseClaimed,
    at: Moment,
    db: Database,
    was: Row,
    before: TaskRow,
    row: TaskRow,
    names: DomainNames,
    old: TaskRecord,
    record: TaskRecord,
)
    requires
        e.writes(at) is Writes,
        e.writes(at).statements().len() > 0,
        crate::model::passes_all(db, was, e.writes(at).statements()[0]->Update_filter),
        before.is_of(was),
        row.is_of(crate::laws::rows::updated_by(db, e.writes(at).statements()[0], was)),
        before.holds(&names, &old),
        row.holds(&names, &record),
    ensures
        record.state@ == "leased"@,
        record.lease_owner.deep_view() == Some(e.lease_owner@),
        e.lease_expires_at_ms <= i64::MAX
            ==> record.lease_expires_at == Some(e.lease_expires_at_ms),
        record.updated_at == at.now as u64,
        record.task_id@ == old.task_id@,
        record.project@ == old.project@,
        record.parent_run_id.deep_view() == old.parent_run_id.deep_view(),
        record.parent_task_id.deep_view() == old.parent_task_id.deep_view(),
        record.session_id.deep_view() == old.session_id.deep_view(),
        record.prompt_release_id.deep_view() == old.prompt_release_id.deep_view(),
        record.failure_class.deep_view() == old.failure_class.deep_view(),
        record.pause_reason.deep_view() == old.pause_reason.deep_view(),
        record.resume_trigger.deep_view() == old.resume_trigger.deep_view(),
        record.retry_count == old.retry_count,
        record.title.deep_view() == old.title.deep_view(),
        record.description.deep_view() == old.description.deep_view(),
        0 <= before.version ==> record.version == old.version + 1,
        record.created_at == old.created_at,
{
    broadcast use group_rows;
}

/// The record that is read back of a row that a `TaskLeaseHeartbeated` event changes holds what
/// the event says.
pub proof fn task_lease_heartbeated_is_read_back(
    e: TaskLeaseHeartbeated,
    at: Moment,
    db: Database,
    was: Row,
    before: TaskRow,
    row: TaskRow,
    names: DomainNames,
    old: TaskRecord,
    record: TaskRecord,
)
    requires
        e.writes(at) is Writes,
        e.writes(at).statements().len() > 0,
        crate::model::passes_all(db, was, e.writes(at).statements()[0]->Update_filter),
        before.is_of(was),
        row.is_of(crate::laws::rows::updated_by(db, e.writes(at).statements()[0], was)),
        before.holds(&names, &old),
        row.holds(&names, &record),
    ensures
        e.lease_expires_at_ms <= i64::MAX
            ==> record.lease_expires_at == Some(e.lease_expires_at_ms),
        record.updated_at == at.now as u64,
        record.task_id@ == old.task_id@,
        record.project@ == old.project@,
        record.parent_run_id.deep_view() == old.parent_run_id.deep_view(),
        record.parent_task_id.deep_view() == old.parent_task_id.deep_view(),
        record.session_id.deep_view() == old.session_id.deep_view(),
        record.state@ == old.state@,
        record.prompt_release_id.deep_view() == old.prompt_release_id.deep_view(),
        record.failure_class.deep_view() == old.failure_class.deep_view(),
        record.pause_reason.deep_view() == old.pause_reason.deep_view(),
        record.resume_trigger.deep_view() == old.resume_trigger.deep_view(),
        record.retry_count == old.retry_count,
        record.lease_owner.deep_view() == old.lease_owner.deep_view(),
        record.title.deep_view() == old.title.deep_view(),
        record.description.deep_view() == old.description.deep_view(),
        0 <= before.version ==> record.version == old.version + 1,
        record.created_at == old.created_at,
{
    broadcast use group_rows;
}

/// The record that is read back of a row that a `TaskStateChanged` event changes holds what the
/// event says.
pub proof fn task_state_changed_is_read_back(
    e: TaskStateChanged,
    at: Moment,
    db: Database,
    was: Row,
    before: TaskRow,
    row: TaskRow,
    names: DomainNames,
    old: TaskRecord,
    record: TaskRecord,
)
    requires
        e.writes(at) is Writes,
        e.writes(at).statements().len() > 0,
        crate::model::passes_all(db, was, e.writes(at).statements()[0]->Update_filter),
        before.is_of(was),
        row.is_of(crate::laws::rows::updated_by(db, e.writes(at).statements()[0], was)),
        before.holds(&names, &old),
        row.holds(&names, &record),
    ensures
        record.state@ == e.to@,
        record.failure_class.deep_view() == e.failure_class.deep_view(),
        record.updated_at == at.now as u64,
        record.task_id@ == old.task_id@,
        record.project@ == old.project@,
        record.parent_run_id.deep_view() == old.parent_run_id.deep_view(),
        record.parent_task_id.deep_view() == old.parent_task_id.deep_view(),
        record.session_id.deep_view() == old.session_id.deep_view(),
        record.prompt_release_id.deep_view() == old.prompt_release_id.deep_view(),
        record.pause_reason.deep_view() == old.pause_reason.deep_view(),
        record.resume_trigger.deep_view() == old.resume_trigger.deep_view(),
        record.retry_count == old.retry_count,
        record.lease_owner.deep_view() == old.lease_owner.deep_view(),
        record.lease_expires_at == old.lease_expires_at,
        record.title.deep_view() == old.title.deep_view(),
        record.description.deep_view() == old.description.deep_view(),
        0 <= before.version ==> record.version == old.version + 1,
        record.created_at == old.created_at,
{
    broadcast use group_rows;
}

/// The record that is read back of a row that a `ExternalWorkerSuspended` event changes holds
/// what the event says.
pub proof fn external_worker_suspended_is_read_back(
    e: ExternalWorkerSuspended,
    at: Moment,
    db: Database,
    was: Row,
    before: ExternalWorkerRow,
    row: ExternalWorkerRow,
    names: DomainNames,
    old: ExternalWorkerRecord,
    record: ExternalWorkerRecord,
)
    requires
        e.writes(at) is Writes,
        e.writes(at).statements().len() > 0,
        crate::model::passes_all(db, was, e.writes(at).statements()[0]->Update_filter),
        before.is_of(was),
        row.is_of(crate::laws::rows::updated_by(db, e.writes(at).statements()[0], was)),
        before.holds(&names, &old),
        row.holds(&names, &record),
    ensures
        record.status@ == "suspended"@,
        record.updated_at == crate::read::floor8(at.now),
        record.worker_id@ == old.worker_id@,
        record.tenant_id@ == old.tenant_id@,
        record.display_name@ == old.display_name@,
        record.registered_at == old.registered_at,
        record.health == old.health,
        record.current_task_id.deep_view() == old.current_task_id.deep_view(),
{
    broadcast use group_rows;
}

/// The record that is read back of a row that a `ExternalWorkerReactivated` event changes holds
/// what the event says.
pub proof fn external_worker_reactivated_is_read_back(
    e: ExternalWorkerReactivated,
    at: Moment,
    db: Database,
    was: Row,
    before: ExternalWorkerRow,
    row: ExternalWorkerRow,
    names: DomainNames,
    old: ExternalWorkerRecord,
    record: ExternalWorkerRecord,
)
    requires
        e.writes(at) is Writes,
        e.writes(at).statements().len() > 0,
        crate::model::passes_all(db, was, e.writes(at).statements()[0]->Update_filter),
        before.is_of(was),
        row.is_of(crate::laws::rows::updated_by(db, e.writes(at).statements()[0], was)),
        before.holds(&names, &old),
        row.holds(&names, &record),
    ensures
        record.status@ == "active"@,
        record.updated_at == crate::read::floor8(at.now),
        record.worker_id@ == old.worker_id@,
        record.tenant_id@ == old.tenant_id@,
        record.display_name@ == old.display_name@,
        record.registered_at == old.registered_at,
        record.health == old.health,
        record.current_task_id.deep_view() == old.current_task_id.deep_view(),
{
    broadcast use group_rows;
}

/// The record that is read back of a row that a `ExternalWorkerReported` event changes holds
/// what the event says.
pub proof fn external_worker_reported_is_read_back(
    e: ExternalWorkerReported,
    at: Moment,
    db: Database,
    was: Row,
    before: ExternalWorkerRow,
    row: ExternalWorkerRow,
    names: DomainNames,
    old: ExternalWorkerRecord,
    record: ExternalWorkerRecord,
)
    requires
        e.writes(at) is Writes,
        e.writes(at).statements().len() > 0,
        crate::model::passes_all(db, was, e.writes(at).statements()[0]->Update_filter),
        before.is_of(was),
        row.is_of(crate::laws::rows::updated_by(db, e.writes(at).statements()[0], was)),
        before.holds(&names, &old),
        row.holds(&names, &record),
    ensures
        record.updated_at == crate::read::floor8(at.now),
        record.current_task_id.deep_view() == if e.outcome is None {
            Some(e.task_id@)
        } else {
            None::<Seq<char>>
        },
        record.worker_id@ == old.worker_id@,
        record.tenant_id@ == old.tenant_id@,
        record.display_name@ == old.display_name@,
        record.status@ == old.status@,
        record.registered_at == old.registered_at,
        record.health.last_heartbeat_ms == e.reported_at_ms,
        record.health.is_alive,
        record.health.active_task_count == old.health.active_task_count,
{
    broadcast use group_rows;
}

/// The record that is read back of a row that a `SubagentSpawned` event changes holds what
/// the event says.
pub proof fn spawned_task_is_read_back(
    e: SubagentSpawned,
    at: Moment,
    db: Database,
    was: Row,
    before: TaskRow,
    row: TaskRow,
    names: DomainNames,
    old: TaskRecord,
    record: TaskRecord,
)
    requires
        crate::model::passes_all(db, was, e.writes(at).statements()[1]->Update_filter),
        before.is_of(was),
        row.is_of(crate::laws::rows::updated_by(db, e.writes(at).statements()[1], was)),
        before.holds(&names, &old),
        row.holds(&names, &record),
    ensures
        record.parent_run_id.deep_view() == Some(e.parent_run_id@),
        record.parent_task_id.deep_view() == e.parent_task_id.deep_view(),
        record.updated_at == at.now as u64,
        record.task_id@ == old.task_id@,
        record.project@ == old.project@,
        record.session_id.deep_view() == old.session_id.deep_view(),
        record.state@ == old.state@,
        record.prompt_release_id.deep_view() == old.prompt_release_id.deep_view(),
        record.failure_class.deep_view() == old.failure_class.deep_view(),
        record.pause_reason.deep_view() == old.pause_reason.deep_view(),
        record.resume_trigger.deep_view() == old.resume_trigger.deep_view(),
        record.retry_count == old.retry_count,
        record.lease_owner.deep_view() == old.lease_owner.deep_view(),
        record.lease_expires_at == old.lease_expires_at,
        record.title.deep_view() == old.title.deep_view(),
        record.description.deep_view() == old.description.deep_view(),
        0 <= before.version ==> record.version == old.version + 1,
        record.created_at == old.created_at,
{
    broadcast use group_rows;
}

/// The cursor that is read back is the one that was kept.
pub proof fn a_lease_history_cursor_is_read_back(
    cursor: FfLeaseHistoryCursor,
    db: Database,
    was: Option<Row>,
    row: LeaseHistoryCursorRow,
    names: DomainNames,
    record: FfLeaseHistoryCursor,
)
    requires
        was is Some ==> crate::laws::rows::replaces(db, cursor.upserted(), was->Some_0),
        row.is_of(crate::laws::rows::left_by(db, cursor.upserted(), was)),
        row.holds(&names, &record),
    ensures
        record.partition_id@ == cursor.partition_id@,
        record.execution_id@ == cursor.execution_id@,
        record.last_stream_id@ == cursor.last_stream_id@,
        cursor.updated_at_ms <= i64::MAX ==> record.updated_at_ms == cursor.updated_at_ms,
{
    broadcast use group_rows;

    let key = cursor.upserted()->Insert_conflict->Merge_key;
    assert(key[0] == Column::PartitionId);
    assert(key[1] == Column::ExecutionId);
}

} // verus!
