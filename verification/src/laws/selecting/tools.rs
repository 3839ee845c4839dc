//! What the queries select: tools.

use crate::laws::finding::group_queries;
use crate::model::{Database, Datum, Row};
use crate::query::{Order, OutputView};
use crate::read::tools::{ToolInvocationProgressRow, ToolInvocationRow, ToolRecoveryPauseRow};
use crate::schema::{Column, Table};
use vstd::prelude::*;

verus! {

/// The rows that [`ToolInvocationRow::get`] selects, and in which order.
pub proof fn tool_invocation_row_get_selects(db: Database, row: Row, invocation_id: Seq<char>)
    ensures
        ({
            let query = ToolInvocationRow::spec_get(invocation_id);
            &&& query.table == Table::ToolInvocations
            &&& query.output == OutputView::Rows(ToolInvocationRow::spec_columns())
            &&& query.selects(db, row)
                <==> crate::model::value(row, Column::InvocationId) == Datum::Text(invocation_id)
            &&& query.order.len() == 0
            &&& query.limit == None::<i64>
            &&& query.offset == None::<i64>
        }),
{
    broadcast use group_queries;
}

/// The rows that [`ToolInvocationRow::list_by_run`] selects, and in which order.
pub proof fn tool_invocation_row_list_by_run_selects(
    db: Database,
    row: Row,
    run_id: Seq<char>,
    limit: usize,
    offset: usize,
)
    ensures
        ({
            let query = ToolInvocationRow::spec_list_by_run(run_id, limit, offset);
            &&& query.table == Table::ToolInvocations
            &&& query.output == OutputView::Rows(ToolInvocationRow::spec_columns())
            &&& query.selects(db, row)
                <==> crate::model::value(row, Column::RunId) == Datum::Text(run_id)
            &&& query.order.len() == 2
            &&& query.order[0] == Order::Ascending(Column::RequestedAtMs)
            &&& query.order[1] == Order::Ascending(Column::InvocationId)
            &&& query.limit == Some(limit as i64)
            &&& query.offset == Some(offset as i64)
        }),
{
    broadcast use group_queries;
}

/// The rows that [`ToolInvocationProgressRow::get`] selects, and in which order.
pub proof fn tool_invocation_progress_row_get_selects(
    db: Database,
    row: Row,
    invocation_id: Seq<char>,
)
    ensures
        ({
            let query = ToolInvocationProgressRow::spec_get(invocation_id);
            &&& query.table == Table::ToolInvocationProgress
            &&& query.output == OutputView::Rows(ToolInvocationProgressRow::spec_columns())
            &&& query.selects(db, row)
                <==> crate::model::value(row, Column::InvocationId) == Datum::Text(invocation_id)
            &&& query.order.len() == 0
            &&& query.limit == None::<i64>
            &&& query.offset == None::<i64>
        }),
{
    broadcast use group_queries;
}

/// The rows that [`ToolRecoveryPauseRow::get`] selects, and in which order.
pub proof fn tool_recovery_pause_row_get_selects(db: Database, row: Row, tool_call_id: Seq<char>)
    ensures
        ({
            let query = ToolRecoveryPauseRow::spec_get(tool_call_id);
            &&& query.table == Table::ToolRecoveryPauses
            &&& query.output == OutputView::Rows(ToolRecoveryPauseRow::spec_columns())
            &&& query.selects(db, row)
                <==> crate::model::value(row, Column::ToolCallId) == Datum::Text(tool_call_id)
            &&& query.order.len() == 0
            &&& query.limit == None::<i64>
            &&& query.offset == None::<i64>
        }),
{
    broadcast use group_queries;
}

/// The rows that [`ToolRecoveryPauseRow::list_by_run`] selects, and in which order.
pub proof fn tool_recovery_pause_row_list_by_run_selects(db: Database, row: Row, run_id: Seq<char>)
    ensures
        ({
            let query = ToolRecoveryPauseRow::spec_list_by_run(run_id);
            &&& query.table == Table::ToolRecoveryPauses
            &&& query.output == OutputView::Rows(ToolRecoveryPauseRow::spec_columns())
            &&& query.selects(db, row)
                <==> crate::model::value(row, Column::RunId) == Datum::Text(run_id)
            &&& query.order.len() == 2
            &&& query.order[0] == Order::Ascending(Column::PausedAtMs)
            &&& query.order[1] == Order::Ascending(Column::ToolCallId)
            &&& query.limit == None::<i64>
            &&& query.offset == None::<i64>
        }),
{
    broadcast use group_queries;
}

} // verus!
