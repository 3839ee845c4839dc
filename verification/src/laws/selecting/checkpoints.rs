//! What the queries select: checkpoints.

use crate::domain::ProjectView;
use crate::laws::finding::group_queries;
use crate::model::{Database, Datum, Row};
use crate::query::{Order, OutputView};
use crate::read::checkpoints::{CheckpointRow, CheckpointStrategyRow, F65CheckpointRow};
use crate::schema::{Column, Table};
use vstd::prelude::*;

verus! {

/// The rows that [`CheckpointRow::get`] selects, and in which order.
pub proof fn checkpoint_row_get_selects(db: Database, row: Row, checkpoint_id: Seq<char>)
    ensures
        ({
            let query = CheckpointRow::spec_get(checkpoint_id);
            &&& query.table == Table::Checkpoints
            &&& query.output == OutputView::Rows(CheckpointRow::spec_columns())
            &&& query.selects(db, row)
                <==> crate::model::value(row, Column::CheckpointId) == Datum::Text(checkpoint_id)
            &&& query.order.len() == 0
            &&& query.limit == None::<i64>
            &&& query.offset == None::<i64>
        }),
{
    broadcast use group_queries;
}

/// The rows that [`CheckpointRow::latest_for_run`] selects, and in which order.
pub proof fn checkpoint_row_latest_for_run_selects(db: Database, row: Row, run_id: Seq<char>)
    ensures
        ({
            let query = CheckpointRow::spec_latest_for_run(run_id);
            &&& query.table == Table::Checkpoints
            &&& query.output == OutputView::Rows(CheckpointRow::spec_columns())
            &&& query.selects(db, row)
                <==> crate::model::value(row, Column::RunId) == Datum::Text(run_id)
                && crate::model::value(row, Column::Disposition) == Datum::Text("latest"@)
            &&& query.order.len() == 2
            &&& query.order[0] == Order::Descending(Column::CreatedAt)
            &&& query.order[1] == Order::Descending(Column::CheckpointId)
            &&& query.limit == Some(1i64)
            &&& query.offset == None::<i64>
        }),
{
    broadcast use group_queries;
}

/// The rows that [`CheckpointRow::list_by_run`] selects, and in which order.
pub proof fn checkpoint_row_list_by_run_selects(
    db: Database,
    row: Row,
    run_id: Seq<char>,
    limit: usize,
)
    ensures
        ({
            let query = CheckpointRow::spec_list_by_run(run_id, limit);
            &&& query.table == Table::Checkpoints
            &&& query.output == OutputView::Rows(CheckpointRow::spec_columns())
            &&& query.selects(db, row)
                <==> crate::model::value(row, Column::RunId) == Datum::Text(run_id)
            &&& query.order.len() == 2
            &&& query.order[0] == Order::Descending(Column::CreatedAt)
            &&& query.order[1] == Order::Descending(Column::CheckpointId)
            &&& query.limit == Some(limit as i64)
            &&& query.offset == None::<i64>
        }),
{
    broadcast use group_queries;
}

/// The rows that [`F65CheckpointRow::get_f65`] selects, and in which order.
pub proof fn f65_checkpoint_row_get_f65_selects(
    db: Database,
    row: Row,
    project: ProjectView,
    checkpoint_id: Seq<char>,
)
    ensures
        ({
            let query = F65CheckpointRow::spec_get_f65(project, checkpoint_id);
            &&& query.table == Table::Checkpoints
            &&& query.output == OutputView::Rows(F65CheckpointRow::spec_columns())
            &&& query.selects(db, row)
                <==> crate::model::value(row, Column::CheckpointId) == Datum::Text(checkpoint_id)
                && crate::model::value(row, Column::SessionId) != Datum::Null
                && crate::model::value(row, Column::TenantId) == Datum::Text(project.tenant_id)
                && crate::model::value(row, Column::WorkspaceId)
                    == Datum::Text(project.workspace_id)
                && crate::model::value(row, Column::ProjectId) == Datum::Text(project.project_id)
            &&& query.order.len() == 0
            &&& query.limit == None::<i64>
            &&& query.offset == None::<i64>
        }),
{
    broadcast use group_queries;
}

/// The rows that [`F65CheckpointRow::list_by_session`] selects, and in which order.
pub proof fn f65_checkpoint_row_list_by_session_selects(
    db: Database,
    row: Row,
    project: ProjectView,
    session_id: Seq<char>,
)
    ensures
        ({
            let query = F65CheckpointRow::spec_list_by_session(project, session_id);
            &&& query.table == Table::Checkpoints
            &&& query.output == OutputView::Rows(F65CheckpointRow::spec_columns())
            &&& query.selects(db, row)
                <==> crate::model::value(row, Column::SessionId) == Datum::Text(session_id)
                && crate::model::value(row, Column::TenantId) == Datum::Text(project.tenant_id)
                && crate::model::value(row, Column::WorkspaceId)
                    == Datum::Text(project.workspace_id)
                && crate::model::value(row, Column::ProjectId) == Datum::Text(project.project_id)
            &&& query.order.len() == 3
            &&& query.order[0] == Order::Ascending(Column::Iteration)
            &&& query.order[1] == Order::Ascending(Column::CreatedAt)
            &&& query.order[2] == Order::Ascending(Column::CheckpointId)
            &&& query.limit == None::<i64>
            &&& query.offset == None::<i64>
        }),
{
    broadcast use group_queries;
}

/// The rows that [`CheckpointStrategyRow::get_by_run`] selects, and in which order.
pub proof fn checkpoint_strategy_row_get_by_run_selects(db: Database, row: Row, run_id: Seq<char>)
    ensures
        ({
            let query = CheckpointStrategyRow::spec_get_by_run(run_id);
            &&& query.table == Table::CheckpointStrategies
            &&& query.output == OutputView::Rows(CheckpointStrategyRow::spec_columns())
            &&& query.selects(db, row)
                <==> crate::model::value(row, Column::RunId) == Datum::Text(run_id)
            &&& query.order.len() == 0
            &&& query.limit == None::<i64>
            &&& query.offset == None::<i64>
        }),
{
    broadcast use group_queries;
}

} // verus!
