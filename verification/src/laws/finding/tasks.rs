//! What is found of what was written: tasks.

use crate::laws::finding::group_queries;
use crate::laws::rows::group_rows;
use crate::model::{Database, Row};
use crate::plan::Moment;
use crate::projections::tasks::{ExternalWorkerRegistered, ScheduledTaskCreated, TaskCreated};
use crate::read::tasks::{
    ExternalWorkerRow, FfLeaseHistoryCursor, LeaseHistoryCursorRow, ScheduledTaskRow, TaskRow,
};
use crate::schema::Column;
use vstd::prelude::*;

verus! {

/// The row that a `TaskCreated` event leaves is found by the queries for what it names.
pub proof fn task_created_is_found(
    e: TaskCreated,
    at: Moment,
    db: Database,
    later: Database,
    limit: usize,
)
    requires
        e.writes(at) is Writes,
        e.writes(at).statements().len() > 0,
    ensures
        ({
            let s = e.writes(at).statements()[0];
            let row = crate::laws::rows::left_by(db, s, None);
            &&& TaskRow::spec_get(e.task_id@).finds(later, s.table(), row)
            &&& TaskRow::spec_list_by_state(
                e.project@,
                "queued"@,
                limit,
            ).finds(later, s.table(), row)
            &&& e.parent_run_id is Some ==> TaskRow::spec_list_by_parent_run(
                e.parent_run_id->Some_0@,
                limit,
            ).finds(later, s.table(), row)
        }),
{
    broadcast use {group_queries, group_rows};
}

/// The row that a `ExternalWorkerRegistered` event leaves is found by
/// the queries for what it names.
pub proof fn external_worker_registered_is_found(
    e: ExternalWorkerRegistered,
    at: Moment,
    db: Database,
    was: Option<Row>,
    later: Database,
    limit: usize,
    offset: usize,
)
    requires
        e.writes(at) is Writes,
        e.writes(at).statements().len() > 0,
        was is Some ==> crate::laws::rows::replaces(
            db,
            e.writes(at).statements()[0],
            was->Some_0,
        ),
    ensures
        ({
            let s = e.writes(at).statements()[0];
            let row = crate::laws::rows::left_by(db, s, was);
            &&& ExternalWorkerRow::spec_get(e.worker_id@).finds(later, s.table(), row)
            &&& ExternalWorkerRow::spec_list_by_tenant(
                e.tenant_id@,
                limit,
                offset,
            ).finds(later, s.table(), row)
        }),
{
    broadcast use {group_queries, group_rows};

    let key = e.writes(at).statements()[0]->Insert_conflict->Merge_key;
    assert(key[0] == Column::WorkerId);
}

/// The row that a `ScheduledTaskCreated` event leaves is found by the queries for what it names.
pub proof fn scheduled_task_created_is_found(
    e: ScheduledTaskCreated,
    at: Moment,
    db: Database,
    later: Database,
    limit: usize,
    offset: usize,
)
    requires
        e.writes(at) is Writes,
        e.writes(at).statements().len() > 0,
    ensures
        ({
            let s = e.writes(at).statements()[0];
            let row = crate::laws::rows::left_by(db, s, None);
            &&& ScheduledTaskRow::spec_get(e.scheduled_task_id@).finds(later, s.table(), row)
            &&& ScheduledTaskRow::spec_list_by_tenant(
                e.tenant_id@,
                limit,
                offset,
            ).finds(later, s.table(), row)
        }),
{
    broadcast use {group_queries, group_rows};
}

/// A cursor that was kept is found by the queries for what it names.
pub proof fn a_lease_history_cursor_is_found(
    cursor: FfLeaseHistoryCursor,
    db: Database,
    was: Option<Row>,
    later: Database,
)
    requires
        was is Some ==> crate::laws::rows::replaces(db, cursor.upserted(), was->Some_0),
    ensures
        ({
            let s = cursor.upserted();
            let row = crate::laws::rows::left_by(db, s, was);
            &&& LeaseHistoryCursorRow::spec_get(
                cursor.partition_id@,
                cursor.execution_id@,
            ).finds(later, s.table(), row)
            &&& LeaseHistoryCursorRow::spec_list_by_partition(
                cursor.partition_id@,
            ).finds(later, s.table(), row)
        }),
{
    broadcast use {group_queries, group_rows};

    let key = cursor.upserted()->Insert_conflict->Merge_key;
    assert(key[0] == Column::PartitionId);
    assert(key[1] == Column::ExecutionId);
}

} // verus!
