//! What the queries select: sessions.

use crate::domain::ProjectView;
use crate::laws::finding::group_queries;
use crate::model::{Database, Datum, Row};
use crate::query::{Order, OutputView};
use crate::read::sessions::{
    SessionOutcomeRow, SessionRow, WorkspaceRegistryRow, WorkspaceSnapshotRow,
};
use crate::schema::{Column, Table};
use vstd::prelude::*;

verus! {

/// The rows that [`SessionRow::get`] selects, and in which order.
pub proof fn session_row_get_selects(db: Database, row: Row, session_id: Seq<char>)
    ensures
        ({
            let query = SessionRow::spec_get(session_id);
            &&& query.table == Table::Sessions
            &&& query.output == OutputView::Rows(SessionRow::spec_columns())
            &&& query.selects(db, row)
                <==> crate::model::value(row, Column::SessionId) == Datum::Text(session_id)
            &&& query.order.len() == 0
            &&& query.limit == None::<i64>
            &&& query.offset == None::<i64>
        }),
{
    broadcast use group_queries;
}

/// The rows that [`SessionRow::list_by_project`] selects, and in which order.
pub proof fn session_row_list_by_project_selects(
    db: Database,
    row: Row,
    project: ProjectView,
    limit: usize,
    offset: usize,
)
    ensures
        ({
            let query = SessionRow::spec_list_by_project(project, limit, offset);
            &&& query.table == Table::Sessions
            &&& query.output == OutputView::Rows(SessionRow::spec_columns())
            &&& query.selects(db, row)
                <==> crate::model::value(row, Column::TenantId) == Datum::Text(project.tenant_id)
                && crate::model::value(row, Column::WorkspaceId)
                    == Datum::Text(project.workspace_id)
                && crate::model::value(row, Column::ProjectId) == Datum::Text(project.project_id)
            &&& query.order.len() == 2
            &&& query.order[0] == Order::Ascending(Column::CreatedAt)
            &&& query.order[1] == Order::Ascending(Column::SessionId)
            &&& query.limit == Some(limit as i64)
            &&& query.offset == Some(offset as i64)
        }),
{
    broadcast use group_queries;
}

/// The rows that [`SessionRow::list_active`] selects, and in which order.
pub proof fn session_row_list_active_selects(db: Database, row: Row, limit: usize)
    ensures
        ({
            let query = SessionRow::spec_list_active(limit);
            &&& query.table == Table::Sessions
            &&& query.output == OutputView::Rows(SessionRow::spec_columns())
            &&& query.selects(db, row)
                <==> crate::model::value(row, Column::State) == Datum::Text("open"@)
            &&& query.order.len() == 2
            &&& query.order[0] == Order::Descending(Column::UpdatedAt)
            &&& query.order[1] == Order::Ascending(Column::SessionId)
            &&& query.limit == Some(limit as i64)
            &&& query.offset == None::<i64>
        }),
{
    broadcast use group_queries;
}

/// The rows that [`SessionOutcomeRow::get_by_root_run`] selects, and in which order.
pub proof fn session_outcome_row_get_by_root_run_selects(
    db: Database,
    row: Row,
    project: ProjectView,
    root_run_id: Seq<char>,
)
    ensures
        ({
            let query = SessionOutcomeRow::spec_get_by_root_run(project, root_run_id);
            &&& query.table == Table::SessionOutcomes
            &&& query.output == OutputView::Rows(SessionOutcomeRow::spec_columns())
            &&& query.selects(db, row)
                <==> crate::model::value(row, Column::RootRunId) == Datum::Text(root_run_id)
                && crate::model::value(row, Column::TenantId) == Datum::Text(project.tenant_id)
                && crate::model::value(row, Column::WorkspaceScope)
                    == Datum::Text(project.workspace_id)
                && crate::model::value(row, Column::ProjectId) == Datum::Text(project.project_id)
            &&& query.order.len() == 0
            &&& query.limit == None::<i64>
            &&& query.offset == None::<i64>
        }),
{
    broadcast use group_queries;
}

/// The rows that [`SessionOutcomeRow::list_by_session`] selects, and in which order.
pub proof fn session_outcome_row_list_by_session_selects(
    db: Database,
    row: Row,
    project: ProjectView,
    session_id: Seq<char>,
)
    ensures
        ({
            let query = SessionOutcomeRow::spec_list_by_session(project, session_id);
            &&& query.table == Table::SessionOutcomes
            &&& query.output == OutputView::Rows(SessionOutcomeRow::spec_columns())
            &&& query.selects(db, row)
                <==> crate::model::value(row, Column::SessionId) == Datum::Text(session_id)
                && crate::model::value(row, Column::TenantId) == Datum::Text(project.tenant_id)
                && crate::model::value(row, Column::WorkspaceScope)
                    == Datum::Text(project.workspace_id)
                && crate::model::value(row, Column::ProjectId) == Datum::Text(project.project_id)
            &&& query.order.len() == 2
            &&& query.order[0] == Order::Ascending(Column::CreatedAt)
            &&& query.order[1] == Order::Ascending(Column::RootRunId)
            &&& query.limit == None::<i64>
            &&& query.offset == None::<i64>
        }),
{
    broadcast use group_queries;
}

/// The rows that [`WorkspaceSnapshotRow::get`] selects, and in which order.
pub proof fn workspace_snapshot_row_get_selects(
    db: Database,
    row: Row,
    project: ProjectView,
    snapshot_id: Seq<char>,
)
    ensures
        ({
            let query = WorkspaceSnapshotRow::spec_get(project, snapshot_id);
            &&& query.table == Table::WorkspaceSnapshots
            &&& query.output == OutputView::Rows(WorkspaceSnapshotRow::spec_columns())
            &&& query.selects(db, row)
                <==> crate::model::value(row, Column::SnapshotId) == Datum::Text(snapshot_id)
                && crate::model::value(row, Column::TenantId) == Datum::Text(project.tenant_id)
                && crate::model::value(row, Column::WorkspaceScope)
                    == Datum::Text(project.workspace_id)
                && crate::model::value(row, Column::ProjectId) == Datum::Text(project.project_id)
            &&& query.order.len() == 0
            &&& query.limit == None::<i64>
            &&& query.offset == None::<i64>
        }),
{
    broadcast use group_queries;
}

/// The rows that [`WorkspaceSnapshotRow::list_by_session`] selects, and in which order.
pub proof fn workspace_snapshot_row_list_by_session_selects(
    db: Database,
    row: Row,
    project: ProjectView,
    session_id: Seq<char>,
)
    ensures
        ({
            let query = WorkspaceSnapshotRow::spec_list_by_session(project, session_id);
            &&& query.table == Table::WorkspaceSnapshots
            &&& query.output == OutputView::Rows(WorkspaceSnapshotRow::spec_columns())
            &&& query.selects(db, row)
                <==> crate::model::value(row, Column::SessionId) == Datum::Text(session_id)
                && crate::model::value(row, Column::TenantId) == Datum::Text(project.tenant_id)
                && crate::model::value(row, Column::WorkspaceScope)
                    == Datum::Text(project.workspace_id)
                && crate::model::value(row, Column::ProjectId) == Datum::Text(project.project_id)
            &&& query.order.len() == 2
            &&& query.order[0] == Order::Ascending(Column::CreatedAt)
            &&& query.order[1] == Order::Ascending(Column::SnapshotId)
            &&& query.limit == None::<i64>
            &&& query.offset == None::<i64>
        }),
{
    broadcast use group_queries;
}

/// The rows that [`WorkspaceRegistryRow::get`] selects, and in which order.
pub proof fn workspace_registry_row_get_selects(
    db: Database,
    row: Row,
    project: ProjectView,
    workspace_id: Seq<char>,
)
    ensures
        ({
            let query = WorkspaceRegistryRow::spec_get(project, workspace_id);
            &&& query.table == Table::WorkspaceRegistry
            &&& query.output == OutputView::Rows(WorkspaceRegistryRow::spec_columns())
            &&& query.selects(db, row)
                <==> crate::model::value(row, Column::WorkspaceId) == Datum::Text(workspace_id)
                && crate::model::value(row, Column::TenantId) == Datum::Text(project.tenant_id)
                && crate::model::value(row, Column::WorkspaceScope)
                    == Datum::Text(project.workspace_id)
                && crate::model::value(row, Column::ProjectId) == Datum::Text(project.project_id)
            &&& query.order.len() == 0
            &&& query.limit == None::<i64>
            &&& query.offset == None::<i64>
        }),
{
    broadcast use group_queries;
}

/// The rows that [`WorkspaceRegistryRow::get_by_root_run`] selects, and in which order.
pub proof fn workspace_registry_row_get_by_root_run_selects(
    db: Database,
    row: Row,
    project: ProjectView,
    root_run_id: Seq<char>,
)
    ensures
        ({
            let query = WorkspaceRegistryRow::spec_get_by_root_run(project, root_run_id);
            &&& query.table == Table::WorkspaceRegistry
            &&& query.output == OutputView::Rows(WorkspaceRegistryRow::spec_columns())
            &&& query.selects(db, row)
                <==> crate::model::value(row, Column::RootRunId) == Datum::Text(root_run_id)
                && crate::model::value(row, Column::TenantId) == Datum::Text(project.tenant_id)
                && crate::model::value(row, Column::WorkspaceScope)
                    == Datum::Text(project.workspace_id)
                && crate::model::value(row, Column::ProjectId) == Datum::Text(project.project_id)
            &&& query.order.len() == 1
            &&& query.order[0] == Order::Descending(Column::CreatedAt)
            &&& query.limit == Some(1i64)
            &&& query.offset == None::<i64>
        }),
{
    broadcast use group_queries;
}

} // verus!
