//! What the queries select: knowledge.

use crate::domain::ProjectView;
use crate::laws::finding::group_queries;
use crate::model::{Database, Datum, Row};
use crate::query::{Order, OutputView};
use crate::read::knowledge::{AgentRoleRow, IngestJobRow, SoulPatchRow};
use crate::schema::{Column, Table};
use vstd::prelude::*;

verus! {

/// The rows that [`IngestJobRow::get`] selects, and in which order.
pub proof fn ingest_job_row_get_selects(db: Database, row: Row, job_id: Seq<char>)
    ensures
        ({
            let query = IngestJobRow::spec_get(job_id);
            &&& query.table == Table::IngestJobs
            &&& query.output == OutputView::Rows(IngestJobRow::spec_columns())
            &&& query.selects(db, row)
                <==> crate::model::value(row, Column::JobId) == Datum::Text(job_id)
            &&& query.order.len() == 0
            &&& query.limit == None::<i64>
            &&& query.offset == None::<i64>
        }),
{
    broadcast use group_queries;
}

/// The rows that [`IngestJobRow::list_by_project`] selects, and in which order.
pub proof fn ingest_job_row_list_by_project_selects(
    db: Database,
    row: Row,
    project: ProjectView,
    limit: usize,
    offset: usize,
)
    ensures
        ({
            let query = IngestJobRow::spec_list_by_project(project, limit, offset);
            &&& query.table == Table::IngestJobs
            &&& query.output == OutputView::Rows(IngestJobRow::spec_columns())
            &&& query.selects(db, row)
                <==> crate::model::value(row, Column::TenantId) == Datum::Text(project.tenant_id)
                && crate::model::value(row, Column::WorkspaceId)
                    == Datum::Text(project.workspace_id)
                && crate::model::value(row, Column::ProjectId) == Datum::Text(project.project_id)
            &&& query.order.len() == 2
            &&& query.order[0] == Order::Ascending(Column::CreatedAtMs)
            &&& query.order[1] == Order::Ascending(Column::JobId)
            &&& query.limit == Some(limit as i64)
            &&& query.offset == Some(offset as i64)
        }),
{
    broadcast use group_queries;
}

/// The rows that [`SoulPatchRow::get`] selects, and in which order.
pub proof fn soul_patch_row_get_selects(db: Database, row: Row, patch_id: Seq<char>)
    ensures
        ({
            let query = SoulPatchRow::spec_get(patch_id);
            &&& query.table == Table::SoulPatches
            &&& query.output == OutputView::Rows(SoulPatchRow::spec_columns())
            &&& query.selects(db, row)
                <==> crate::model::value(row, Column::PatchId) == Datum::Text(patch_id)
            &&& query.order.len() == 0
            &&& query.limit == None::<i64>
            &&& query.offset == None::<i64>
        }),
{
    broadcast use group_queries;
}

/// The rows that [`SoulPatchRow::list_by_project`] selects, and in which order.
pub proof fn soul_patch_row_list_by_project_selects(
    db: Database,
    row: Row,
    project: ProjectView,
    limit: usize,
    offset: usize,
)
    ensures
        ({
            let query = SoulPatchRow::spec_list_by_project(project, limit, offset);
            &&& query.table == Table::SoulPatches
            &&& query.output == OutputView::Rows(SoulPatchRow::spec_columns())
            &&& query.selects(db, row)
                <==> crate::model::value(row, Column::TenantId) == Datum::Text(project.tenant_id)
                && crate::model::value(row, Column::WorkspaceId)
                    == Datum::Text(project.workspace_id)
                && crate::model::value(row, Column::ProjectId) == Datum::Text(project.project_id)
            &&& query.order.len() == 2
            &&& query.order[0] == Order::Descending(Column::ProposedAtMs)
            &&& query.order[1] == Order::Descending(Column::PatchId)
            &&& query.limit == Some(limit as i64)
            &&& query.offset == Some(offset as i64)
        }),
{
    broadcast use group_queries;
}

/// The rows that [`AgentRoleRow::get_active`] selects, and in which order.
pub proof fn agent_role_row_get_active_selects(
    db: Database,
    row: Row,
    project: ProjectView,
    role_id: Seq<char>,
)
    ensures
        ({
            let query = AgentRoleRow::spec_get_active(project, role_id);
            &&& query.table == Table::ProjectAgentRoles
            &&& query.output == OutputView::Rows(AgentRoleRow::spec_columns())
            &&& query.selects(db, row)
                <==> crate::model::value(row, Column::TenantId) == Datum::Text(project.tenant_id)
                && crate::model::value(row, Column::WorkspaceId)
                    == Datum::Text(project.workspace_id)
                && crate::model::value(row, Column::ProjectId) == Datum::Text(project.project_id)
                && crate::model::value(row, Column::RoleId) == Datum::Text(role_id)
                && crate::model::value(row, Column::RetractedAt) == Datum::Null
            &&& query.order.len() == 0
            &&& query.limit == None::<i64>
            &&& query.offset == None::<i64>
        }),
{
    broadcast use group_queries;
}

/// The rows that [`AgentRoleRow::get_any`] selects, and in which order.
pub proof fn agent_role_row_get_any_selects(
    db: Database,
    row: Row,
    project: ProjectView,
    role_id: Seq<char>,
)
    ensures
        ({
            let query = AgentRoleRow::spec_get_any(project, role_id);
            &&& query.table == Table::ProjectAgentRoles
            &&& query.output == OutputView::Rows(AgentRoleRow::spec_columns())
            &&& query.selects(db, row)
                <==> crate::model::value(row, Column::TenantId) == Datum::Text(project.tenant_id)
                && crate::model::value(row, Column::WorkspaceId)
                    == Datum::Text(project.workspace_id)
                && crate::model::value(row, Column::ProjectId) == Datum::Text(project.project_id)
                && crate::model::value(row, Column::RoleId) == Datum::Text(role_id)
            &&& query.order.len() == 0
            &&& query.limit == None::<i64>
            &&& query.offset == None::<i64>
        }),
{
    broadcast use group_queries;
}

/// The rows that [`AgentRoleRow::list_active`] selects, and in which order.
pub proof fn agent_role_row_list_active_selects(db: Database, row: Row, project: ProjectView)
    ensures
        ({
            let query = AgentRoleRow::spec_list_active(project);
            &&& query.table == Table::ProjectAgentRoles
            &&& query.output == OutputView::Rows(AgentRoleRow::spec_columns())
            &&& query.selects(db, row)
                <==> crate::model::value(row, Column::TenantId) == Datum::Text(project.tenant_id)
                && crate::model::value(row, Column::WorkspaceId)
                    == Datum::Text(project.workspace_id)
                && crate::model::value(row, Column::ProjectId) == Datum::Text(project.project_id)
                && crate::model::value(row, Column::RetractedAt) == Datum::Null
            &&& query.order.len() == 1
            &&& query.order[0] == Order::Ascending(Column::RoleId)
            &&& query.limit == None::<i64>
            &&& query.offset == None::<i64>
        }),
{
    broadcast use group_queries;
}

} // verus!
