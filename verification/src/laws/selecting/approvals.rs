//! What the queries select: approvals.

use crate::domain::ProjectView;
use crate::laws::finding::group_queries;
use crate::model::{Database, Datum, Row};
use crate::query::{Order, OutputView};
use crate::read::approvals::{ApprovalDelegationRow, ApprovalRow, ToolCallApprovalRow};
use crate::schema::{Column, Table};
use vstd::prelude::*;

verus! {

/// The rows that [`ApprovalRow::get`] selects, and in which order.
pub proof fn approval_row_get_selects(db: Database, row: Row, approval_id: Seq<char>)
    ensures
        ({
            let query = ApprovalRow::spec_get(approval_id);
            &&& query.table == Table::Approvals
            &&& query.output == OutputView::Rows(ApprovalRow::spec_columns())
            &&& query.selects(db, row)
                <==> crate::model::value(row, Column::ApprovalId) == Datum::Text(approval_id)
            &&& query.order.len() == 0
            &&& query.limit == None::<i64>
            &&& query.offset == None::<i64>
        }),
{
    broadcast use group_queries;
}

/// The rows that [`ApprovalRow::list_pending`] selects, and in which order.
pub proof fn approval_row_list_pending_selects(
    db: Database,
    row: Row,
    project: ProjectView,
    limit: usize,
    offset: usize,
)
    ensures
        ({
            let query = ApprovalRow::spec_list_pending(project, limit, offset);
            &&& query.table == Table::Approvals
            &&& query.output == OutputView::Rows(ApprovalRow::spec_columns())
            &&& query.selects(db, row)
                <==> crate::model::value(row, Column::TenantId) == Datum::Text(project.tenant_id)
                && crate::model::value(row, Column::WorkspaceId)
                    == Datum::Text(project.workspace_id)
                && crate::model::value(row, Column::ProjectId) == Datum::Text(project.project_id)
                && crate::model::value(row, Column::Decision) == Datum::Null
            &&& query.order.len() == 2
            &&& query.order[0] == Order::Ascending(Column::CreatedAt)
            &&& query.order[1] == Order::Ascending(Column::ApprovalId)
            &&& query.limit == Some(limit as i64)
            &&& query.offset == Some(offset as i64)
        }),
{
    broadcast use group_queries;
}

/// The rows that [`ApprovalRow::list_all`] selects, and in which order.
pub proof fn approval_row_list_all_selects(
    db: Database,
    row: Row,
    project: ProjectView,
    limit: usize,
    offset: usize,
)
    ensures
        ({
            let query = ApprovalRow::spec_list_all(project, limit, offset);
            &&& query.table == Table::Approvals
            &&& query.output == OutputView::Rows(ApprovalRow::spec_columns())
            &&& query.selects(db, row)
                <==> crate::model::value(row, Column::TenantId) == Datum::Text(project.tenant_id)
                && crate::model::value(row, Column::WorkspaceId)
                    == Datum::Text(project.workspace_id)
                && crate::model::value(row, Column::ProjectId) == Datum::Text(project.project_id)
            &&& query.order.len() == 2
            &&& query.order[0] == Order::Ascending(Column::CreatedAt)
            &&& query.order[1] == Order::Ascending(Column::ApprovalId)
            &&& query.limit == Some(limit as i64)
            &&& query.offset == Some(offset as i64)
        }),
{
    broadcast use group_queries;
}

/// The rows that [`ApprovalRow::has_pending_for_run`] selects, and in which order.
pub proof fn approval_row_has_pending_for_run_selects(db: Database, row: Row, run_id: Seq<char>)
    ensures
        ({
            let query = ApprovalRow::spec_has_pending_for_run(run_id);
            &&& query.table == Table::Approvals
            &&& query.output == OutputView::Count
            &&& query.selects(db, row)
                <==> crate::model::value(row, Column::RunId) == Datum::Text(run_id)
                && crate::model::value(row, Column::Decision) == Datum::Null
            &&& query.order.len() == 0
            &&& query.limit == None::<i64>
            &&& query.offset == None::<i64>
        }),
{
    broadcast use group_queries;
}

/// The rows that [`ApprovalDelegationRow::list_for_approval`] selects, and in which order.
pub proof fn approval_delegation_row_list_for_approval_selects(
    db: Database,
    row: Row,
    approval_id: Seq<char>,
)
    ensures
        ({
            let query = ApprovalDelegationRow::spec_list_for_approval(approval_id);
            &&& query.table == Table::ApprovalDelegations
            &&& query.output == OutputView::Rows(ApprovalDelegationRow::spec_columns())
            &&& query.selects(db, row)
                <==> crate::model::value(row, Column::ApprovalId) == Datum::Text(approval_id)
            &&& query.order.len() == 2
            &&& query.order[0] == Order::Ascending(Column::DelegatedAtMs)
            &&& query.order[1] == Order::Ascending(Column::DelegationId)
            &&& query.limit == None::<i64>
            &&& query.offset == None::<i64>
        }),
{
    broadcast use group_queries;
}

/// The rows that [`ToolCallApprovalRow::get`] selects, and in which order.
pub proof fn tool_call_approval_row_get_selects(db: Database, row: Row, call_id: Seq<char>)
    ensures
        ({
            let query = ToolCallApprovalRow::spec_get(call_id);
            &&& query.table == Table::ToolCallApprovals
            &&& query.output == OutputView::Rows(ToolCallApprovalRow::spec_columns())
            &&& query.selects(db, row)
                <==> crate::model::value(row, Column::CallId) == Datum::Text(call_id)
            &&& query.order.len() == 0
            &&& query.limit == None::<i64>
            &&& query.offset == None::<i64>
        }),
{
    broadcast use group_queries;
}

/// The rows that [`ToolCallApprovalRow::list_for_run`] selects, and in which order.
pub proof fn tool_call_approval_row_list_for_run_selects(db: Database, row: Row, run_id: Seq<char>)
    ensures
        ({
            let query = ToolCallApprovalRow::spec_list_for_run(run_id);
            &&& query.table == Table::ToolCallApprovals
            &&& query.output == OutputView::Rows(ToolCallApprovalRow::spec_columns())
            &&& query.selects(db, row)
                <==> crate::model::value(row, Column::RunId) == Datum::Text(run_id)
            &&& query.order.len() == 2
            &&& query.order[0] == Order::Ascending(Column::ProposedAtMs)
            &&& query.order[1] == Order::Ascending(Column::CallId)
            &&& query.limit == None::<i64>
            &&& query.offset == None::<i64>
        }),
{
    broadcast use group_queries;
}

/// The rows that [`ToolCallApprovalRow::list_for_session`] selects, and in which order.
pub proof fn tool_call_approval_row_list_for_session_selects(
    db: Database,
    row: Row,
    session_id: Seq<char>,
)
    ensures
        ({
            let query = ToolCallApprovalRow::spec_list_for_session(session_id);
            &&& query.table == Table::ToolCallApprovals
            &&& query.output == OutputView::Rows(ToolCallApprovalRow::spec_columns())
            &&& query.selects(db, row)
                <==> crate::model::value(row, Column::SessionId) == Datum::Text(session_id)
            &&& query.order.len() == 2
            &&& query.order[0] == Order::Ascending(Column::ProposedAtMs)
            &&& query.order[1] == Order::Ascending(Column::CallId)
            &&& query.limit == None::<i64>
            &&& query.offset == None::<i64>
        }),
{
    broadcast use group_queries;
}

/// The rows that [`ToolCallApprovalRow::list_pending_for_project`] selects, and in which order.
pub proof fn tool_call_approval_row_list_pending_for_project_selects(
    db: Database,
    row: Row,
    project: ProjectView,
    limit: usize,
    offset: usize,
)
    ensures
        ({
            let query = ToolCallApprovalRow::spec_list_pending_for_project(project, limit, offset);
            &&& query.table == Table::ToolCallApprovals
            &&& query.output == OutputView::Rows(ToolCallApprovalRow::spec_columns())
            &&& query.selects(db, row)
                <==> crate::model::value(row, Column::TenantId) == Datum::Text(project.tenant_id)
                && crate::model::value(row, Column::WorkspaceId)
                    == Datum::Text(project.workspace_id)
                && crate::model::value(row, Column::ProjectId) == Datum::Text(project.project_id)
                && crate::model::value(row, Column::State) == Datum::Text("pending"@)
            &&& query.order.len() == 2
            &&& query.order[0] == Order::Ascending(Column::ProposedAtMs)
            &&& query.order[1] == Order::Ascending(Column::CallId)
            &&& query.limit == Some(limit as i64)
            &&& query.offset == Some(offset as i64)
        }),
{
    broadcast use group_queries;
}

/// The rows that [`ToolCallApprovalRow::list_all_pending`] selects, and in which order.
pub proof fn tool_call_approval_row_list_all_pending_selects(
    db: Database,
    row: Row,
    limit: usize,
    offset: usize,
)
    ensures
        ({
            let query = ToolCallApprovalRow::spec_list_all_pending(limit, offset);
            &&& query.table == Table::ToolCallApprovals
            &&& query.output == OutputView::Rows(ToolCallApprovalRow::spec_columns())
            &&& query.selects(db, row)
                <==> crate::model::value(row, Column::State) == Datum::Text("pending"@)
            &&& query.order.len() == 2
            &&& query.order[0] == Order::Ascending(Column::ProposedAtMs)
            &&& query.order[1] == Order::Ascending(Column::CallId)
            &&& query.limit == Some(limit as i64)
            &&& query.offset == Some(offset as i64)
        }),
{
    broadcast use group_queries;
}

} // verus!
