//! What the queries select: tasks.

use crate::domain::ProjectView;
use crate::laws::finding::group_queries;
use crate::model::{Database, Datum, Row};
use crate::query::{Order, OutputView};
use crate::read::tasks::{ExternalWorkerRow, LeaseHistoryCursorRow, ScheduledTaskRow, TaskRow};
use crate::schema::{Column, Table};
use vstd::prelude::*;

verus! {

/// The rows that [`TaskRow::get`] selects, and in which order.
pub proof fn task_row_get_selects(db: Database, row: Row, task_id: Seq<char>)
    ensures
        ({
            let query = TaskRow::spec_get(task_id);
            &&& query.table == Table::Tasks
            &&& query.output == OutputView::Rows(TaskRow::spec_columns())
            &&& query.selects(db, row)
                <==> crate::model::value(row, Column::TaskId) == Datum::Text(task_id)
            &&& query.order.len() == 0
            &&& query.limit == None::<i64>
            &&& query.offset == None::<i64>
        }),
{
    broadcast use group_queries;
}

/// The rows that [`TaskRow::list_by_state`] selects, and in which order.
pub proof fn task_row_list_by_state_selects(
    db: Database,
    row: Row,
    project: ProjectView,
    task_state: Seq<char>,
    limit: usize,
)
    ensures
        ({
            let query = TaskRow::spec_list_by_state(project, task_state, limit);
            &&& query.table == Table::Tasks
            &&& query.output == OutputView::Rows(TaskRow::spec_columns())
            &&& query.selects(db, row)
                <==> crate::model::value(row, Column::TenantId) == Datum::Text(project.tenant_id)
                && crate::model::value(row, Column::WorkspaceId)
                    == Datum::Text(project.workspace_id)
                && crate::model::value(row, Column::ProjectId) == Datum::Text(project.project_id)
                && crate::model::value(row, Column::State) == Datum::Text(task_state)
            &&& query.order.len() == 2
            &&& query.order[0] == Order::Ascending(Column::CreatedAt)
            &&& query.order[1] == Order::Ascending(Column::TaskId)
            &&& query.limit == Some(limit as i64)
            &&& query.offset == None::<i64>
        }),
{
    broadcast use group_queries;
}

/// The rows that [`TaskRow::list_expired_leases`] selects, and in which order.
pub proof fn task_row_list_expired_leases_selects(db: Database, row: Row, now: u64, limit: usize)
    ensures
        ({
            let query = TaskRow::spec_list_expired_leases(now, limit);
            &&& query.table == Table::Tasks
            &&& query.output == OutputView::Rows(TaskRow::spec_columns())
            &&& query.selects(db, row)
                <==> crate::model::value(row, Column::State) == Datum::Text("leased"@)
                && crate::model::value(row, Column::LeaseExpiresAt) != Datum::Null
                && crate::laws::selecting::is_below(
                    crate::model::value(row, Column::LeaseExpiresAt),
                    now as i64 as int,
                )
            &&& query.order.len() == 2
            &&& query.order[0] == Order::Ascending(Column::LeaseExpiresAt)
            &&& query.order[1] == Order::Ascending(Column::TaskId)
            &&& query.limit == Some(limit as i64)
            &&& query.offset == None::<i64>
        }),
{
    broadcast use group_queries;
}

/// The rows that [`TaskRow::list_by_parent_run`] selects, and in which order.
pub proof fn task_row_list_by_parent_run_selects(
    db: Database,
    row: Row,
    parent_run_id: Seq<char>,
    limit: usize,
)
    ensures
        ({
            let query = TaskRow::spec_list_by_parent_run(parent_run_id, limit);
            &&& query.table == Table::Tasks
            &&& query.output == OutputView::Rows(TaskRow::spec_columns())
            &&& query.selects(db, row)
                <==> crate::model::value(row, Column::ParentRunId) == Datum::Text(parent_run_id)
            &&& query.order.len() == 2
            &&& query.order[0] == Order::Ascending(Column::CreatedAt)
            &&& query.order[1] == Order::Ascending(Column::TaskId)
            &&& query.limit == Some(limit as i64)
            &&& query.offset == None::<i64>
        }),
{
    broadcast use group_queries;
}

/// The rows that [`TaskRow::any_non_terminal_children`] selects, and in which order.
pub proof fn task_row_any_non_terminal_children_selects(
    db: Database,
    row: Row,
    parent_run_id: Seq<char>,
)
    ensures
        ({
            let query = TaskRow::spec_any_non_terminal_children(parent_run_id);
            &&& query.table == Table::Tasks
            &&& query.output == OutputView::Exists
            &&& query.selects(db, row)
                <==> crate::model::value(row, Column::ParentRunId) == Datum::Text(parent_run_id)
                && crate::model::value(row, Column::State) != Datum::Null
                && crate::model::value(row, Column::State) != Datum::Text("completed"@)
                && crate::model::value(row, Column::State) != Datum::Text("failed"@)
                && crate::model::value(row, Column::State) != Datum::Text("canceled"@)
                && crate::model::value(row, Column::State) != Datum::Text("dead_lettered"@)
            &&& query.order.len() == 0
            &&& query.limit == None::<i64>
            &&& query.offset == None::<i64>
        }),
{
    broadcast use group_queries;

    crate::laws::selecting::none_of_closed_states(db, row, Column::State);
}

/// The rows that [`ScheduledTaskRow::get`] selects, and in which order.
pub proof fn scheduled_task_row_get_selects(db: Database, row: Row, scheduled_task_id: Seq<char>)
    ensures
        ({
            let query = ScheduledTaskRow::spec_get(scheduled_task_id);
            &&& query.table == Table::ScheduledTasks
            &&& query.output == OutputView::Rows(ScheduledTaskRow::spec_columns())
            &&& query.selects(db, row)
                <==> crate::model::value(row, Column::ScheduledTaskId)
                    == Datum::Text(scheduled_task_id)
            &&& query.order.len() == 0
            &&& query.limit == None::<i64>
            &&& query.offset == None::<i64>
        }),
{
    broadcast use group_queries;
}

/// The rows that [`ScheduledTaskRow::list_by_tenant`] selects, and in which order.
pub proof fn scheduled_task_row_list_by_tenant_selects(
    db: Database,
    row: Row,
    tenant_id: Seq<char>,
    limit: usize,
    offset: usize,
)
    ensures
        ({
            let query = ScheduledTaskRow::spec_list_by_tenant(tenant_id, limit, offset);
            &&& query.table == Table::ScheduledTasks
            &&& query.output == OutputView::Rows(ScheduledTaskRow::spec_columns())
            &&& query.selects(db, row)
                <==> crate::model::value(row, Column::TenantId) == Datum::Text(tenant_id)
            &&& query.order.len() == 2
            &&& query.order[0] == Order::Ascending(Column::CreatedAt)
            &&& query.order[1] == Order::Ascending(Column::ScheduledTaskId)
            &&& query.limit == Some(limit as i64)
            &&& query.offset == Some(offset as i64)
        }),
{
    broadcast use group_queries;
}

/// The rows that [`ExternalWorkerRow::get`] selects, and in which order.
pub proof fn external_worker_row_get_selects(db: Database, row: Row, worker_id: Seq<char>)
    ensures
        ({
            let query = ExternalWorkerRow::spec_get(worker_id);
            &&& query.table == Table::ExternalWorkers
            &&& query.output == OutputView::Rows(ExternalWorkerRow::spec_columns())
            &&& query.selects(db, row)
                <==> crate::model::value(row, Column::WorkerId) == Datum::Text(worker_id)
            &&& query.order.len() == 0
            &&& query.limit == None::<i64>
            &&& query.offset == None::<i64>
        }),
{
    broadcast use group_queries;
}

/// The rows that [`ExternalWorkerRow::list_by_tenant`] selects, and in which order.
pub proof fn external_worker_row_list_by_tenant_selects(
    db: Database,
    row: Row,
    tenant_id: Seq<char>,
    limit: usize,
    offset: usize,
)
    ensures
        ({
            let query = ExternalWorkerRow::spec_list_by_tenant(tenant_id, limit, offset);
            &&& query.table == Table::ExternalWorkers
            &&& query.output == OutputView::Rows(ExternalWorkerRow::spec_columns())
            &&& query.selects(db, row)
                <==> crate::model::value(row, Column::TenantId) == Datum::Text(tenant_id)
            &&& query.order.len() == 2
            &&& query.order[0] == Order::Ascending(Column::RegisteredAt)
            &&& query.order[1] == Order::Ascending(Column::WorkerId)
            &&& query.limit == Some(limit as i64)
            &&& query.offset == Some(offset as i64)
        }),
{
    broadcast use group_queries;
}

/// The rows that [`LeaseHistoryCursorRow::get`] selects, and in which order.
pub proof fn lease_history_cursor_row_get_selects(
    db: Database,
    row: Row,
    partition_id: Seq<char>,
    execution_id: Seq<char>,
)
    ensures
        ({
            let query = LeaseHistoryCursorRow::spec_get(partition_id, execution_id);
            &&& query.table == Table::FfLeaseHistoryCursors
            &&& query.output == OutputView::Rows(LeaseHistoryCursorRow::spec_columns())
            &&& query.selects(db, row)
                <==> crate::model::value(row, Column::PartitionId) == Datum::Text(partition_id)
                && crate::model::value(row, Column::ExecutionId) == Datum::Text(execution_id)
            &&& query.order.len() == 0
            &&& query.limit == None::<i64>
            &&& query.offset == None::<i64>
        }),
{
    broadcast use group_queries;
}

/// The rows that [`LeaseHistoryCursorRow::list_by_partition`] selects, and in which order.
pub proof fn lease_history_cursor_row_list_by_partition_selects(
    db: Database,
    row: Row,
    partition_id: Seq<char>,
)
    ensures
        ({
            let query = LeaseHistoryCursorRow::spec_list_by_partition(partition_id);
            &&& query.table == Table::FfLeaseHistoryCursors
            &&& query.output == OutputView::Rows(LeaseHistoryCursorRow::spec_columns())
            &&& query.selects(db, row)
                <==> crate::model::value(row, Column::PartitionId) == Datum::Text(partition_id)
            &&& query.order.len() == 0
            &&& query.limit == None::<i64>
            &&& query.offset == None::<i64>
        }),
{
    broadcast use group_queries;
}

/// The rows that [`ScheduledTaskRow::list_due`] selects, and in which order.
pub proof fn scheduled_task_row_list_due_selects(db: Database, row: Row, now_ms: u64, limit: usize)
    ensures
        ({
            let query = ScheduledTaskRow::spec_list_due(now_ms, limit);
            &&& query.table == Table::ScheduledTasks
            &&& query.output == OutputView::Rows(ScheduledTaskRow::spec_columns())
            &&& query.selects(db, row)
                <==> crate::model::value(row, Column::Enabled) == Datum::Bool(true)
                    && crate::model::value(row, Column::NextRunAt) != Datum::Null
                    && crate::laws::selecting::is_at_most(
                        crate::model::value(row, Column::NextRunAt),
                        now_ms as i64 as int,
                    )
            &&& query.order.len() == 2
            &&& query.order[0] == Order::Ascending(Column::NextRunAt)
            &&& query.order[1] == Order::Ascending(Column::ScheduledTaskId)
            &&& query.limit == Some(limit as i64)
            &&& query.offset == None::<i64>
        }),
{
    broadcast use group_queries;
}

} // verus!
