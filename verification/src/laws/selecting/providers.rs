//! What the queries select: providers.

use crate::domain::ProjectView;
use crate::laws::finding::group_queries;
use crate::model::{Database, Datum, Row};
use crate::query::{Order, OutputView};
use crate::read::providers::{
    ProviderBindingRow, ProviderBudgetRow, ProviderConnectionRow, RoutePolicyRow, RunCostAlertRow,
    RunCostRow,
};
use crate::schema::{Column, Table};
use crate::vocabulary::{OperationKind, ProviderBudgetPeriod};
use vstd::prelude::*;

verus! {

/// The rows that [`ProviderConnectionRow::get`] selects, and in which order.
pub proof fn provider_connection_row_get_selects(
    db: Database,
    row: Row,
    provider_connection_id: Seq<char>,
)
    ensures
        ({
            let query = ProviderConnectionRow::spec_get(provider_connection_id);
            &&& query.table == Table::ProviderConnections
            &&& query.output == OutputView::Rows(ProviderConnectionRow::spec_columns())
            &&& query.selects(db, row)
                <==> crate::model::value(row, Column::ProviderConnectionId)
                    == Datum::Text(provider_connection_id)
            &&& query.order.len() == 0
            &&& query.limit == None::<i64>
            &&& query.offset == None::<i64>
        }),
{
    broadcast use group_queries;
}

/// The rows that [`ProviderConnectionRow::list_by_tenant`] selects, and in which order.
pub proof fn provider_connection_row_list_by_tenant_selects(
    db: Database,
    row: Row,
    tenant_id: Seq<char>,
    limit: usize,
    offset: usize,
)
    ensures
        ({
            let query = ProviderConnectionRow::spec_list_by_tenant(tenant_id, limit, offset);
            &&& query.table == Table::ProviderConnections
            &&& query.output == OutputView::Rows(ProviderConnectionRow::spec_columns())
            &&& query.selects(db, row)
                <==> crate::model::value(row, Column::TenantId) == Datum::Text(tenant_id)
            &&& query.order.len() == 2
            &&& query.order[0] == Order::Ascending(Column::CreatedAt)
            &&& query.order[1] == Order::Ascending(Column::ProviderConnectionId)
            &&& query.limit == Some(limit as i64)
            &&& query.offset == Some(offset as i64)
        }),
{
    broadcast use group_queries;
}

/// The rows that [`ProviderBindingRow::get`] selects, and in which order.
pub proof fn provider_binding_row_get_selects(
    db: Database,
    row: Row,
    provider_binding_id: Seq<char>,
)
    ensures
        ({
            let query = ProviderBindingRow::spec_get(provider_binding_id);
            &&& query.table == Table::ProviderBindings
            &&& query.output == OutputView::Rows(ProviderBindingRow::spec_columns())
            &&& query.selects(db, row)
                <==> crate::model::value(row, Column::ProviderBindingId)
                    == Datum::Text(provider_binding_id)
            &&& query.order.len() == 0
            &&& query.limit == None::<i64>
            &&& query.offset == None::<i64>
        }),
{
    broadcast use group_queries;
}

/// The rows that [`ProviderBindingRow::list_by_project`] selects, and in which order.
pub proof fn provider_binding_row_list_by_project_selects(
    db: Database,
    row: Row,
    project: ProjectView,
    limit: usize,
    offset: usize,
)
    ensures
        ({
            let query = ProviderBindingRow::spec_list_by_project(project, limit, offset);
            &&& query.table == Table::ProviderBindings
            &&& query.output == OutputView::Rows(ProviderBindingRow::spec_columns())
            &&& query.selects(db, row)
                <==> crate::model::value(row, Column::TenantId) == Datum::Text(project.tenant_id)
                && crate::model::value(row, Column::WorkspaceId)
                    == Datum::Text(project.workspace_id)
                && crate::model::value(row, Column::ProjectId) == Datum::Text(project.project_id)
            &&& query.order.len() == 2
            &&& query.order[0] == Order::Ascending(Column::CreatedAt)
            &&& query.order[1] == Order::Ascending(Column::ProviderBindingId)
            &&& query.limit == Some(limit as i64)
            &&& query.offset == Some(offset as i64)
        }),
{
    broadcast use group_queries;
}

/// The rows that [`ProviderBindingRow::list_by_tenant`] selects, and in which order.
pub proof fn provider_binding_row_list_by_tenant_selects(
    db: Database,
    row: Row,
    tenant_id: Seq<char>,
    limit: usize,
    offset: usize,
)
    ensures
        ({
            let query = ProviderBindingRow::spec_list_by_tenant(tenant_id, limit, offset);
            &&& query.table == Table::ProviderBindings
            &&& query.output == OutputView::Rows(ProviderBindingRow::spec_columns())
            &&& query.selects(db, row)
                <==> crate::model::value(row, Column::TenantId) == Datum::Text(tenant_id)
            &&& query.order.len() == 2
            &&& query.order[0] == Order::Ascending(Column::CreatedAt)
            &&& query.order[1] == Order::Ascending(Column::ProviderBindingId)
            &&& query.limit == Some(limit as i64)
            &&& query.offset == Some(offset as i64)
        }),
{
    broadcast use group_queries;
}

/// The rows that [`ProviderBindingRow::list_active`] selects, and in which order.
pub proof fn provider_binding_row_list_active_selects(
    db: Database,
    row: Row,
    project: ProjectView,
    operation: OperationKind,
)
    ensures
        ({
            let query = ProviderBindingRow::spec_list_active(project, operation);
            &&& query.table == Table::ProviderBindings
            &&& query.output == OutputView::Rows(ProviderBindingRow::spec_columns())
            &&& query.selects(db, row)
                <==> crate::model::value(row, Column::TenantId) == Datum::Text(project.tenant_id)
                && crate::model::value(row, Column::WorkspaceId)
                    == Datum::Text(project.workspace_id)
                && crate::model::value(row, Column::ProjectId) == Datum::Text(project.project_id)
                && crate::model::value(row, Column::Active) == Datum::Bool(true)
                && crate::model::value(row, Column::OperationKind)
                    == Datum::Text(operation.spec_name())
            &&& query.order.len() == 2
            &&& query.order[0] == Order::Ascending(Column::CreatedAt)
            &&& query.order[1] == Order::Ascending(Column::ProviderBindingId)
            &&& query.limit == None::<i64>
            &&& query.offset == None::<i64>
        }),
{
    broadcast use group_queries;
}

/// The rows that [`ProviderBudgetRow::get_by_tenant_period`] selects, and in which order.
pub proof fn provider_budget_row_get_by_tenant_period_selects(
    db: Database,
    row: Row,
    tenant_id: Seq<char>,
    period: ProviderBudgetPeriod,
)
    ensures
        ({
            let query = ProviderBudgetRow::spec_get_by_tenant_period(tenant_id, period);
            &&& query.table == Table::ProviderBudgets
            &&& query.output == OutputView::Rows(ProviderBudgetRow::spec_columns())
            &&& query.selects(db, row)
                <==> crate::model::value(row, Column::TenantId) == Datum::Text(tenant_id)
                && crate::model::value(row, Column::Period) == Datum::Text(period.spec_name())
            &&& query.order.len() == 2
            &&& query.order[0] == Order::Ascending(Column::CreatedAt)
            &&& query.order[1] == Order::Ascending(Column::LimitMicros)
            &&& query.limit == Some(1i64)
            &&& query.offset == None::<i64>
        }),
{
    broadcast use group_queries;
}

/// The rows that [`ProviderBudgetRow::list_by_tenant`] selects, and in which order.
pub proof fn provider_budget_row_list_by_tenant_selects(
    db: Database,
    row: Row,
    tenant_id: Seq<char>,
)
    ensures
        ({
            let query = ProviderBudgetRow::spec_list_by_tenant(tenant_id);
            &&& query.table == Table::ProviderBudgets
            &&& query.output == OutputView::Rows(ProviderBudgetRow::spec_columns())
            &&& query.selects(db, row)
                <==> crate::model::value(row, Column::TenantId) == Datum::Text(tenant_id)
            &&& query.order.len() == 2
            &&& query.order[0] == Order::Ascending(Column::CreatedAt)
            &&& query.order[1] == Order::Ascending(Column::Period)
            &&& query.limit == None::<i64>
            &&& query.offset == None::<i64>
        }),
{
    broadcast use group_queries;
}

/// The rows that [`RoutePolicyRow::get`] selects, and in which order.
pub proof fn route_policy_row_get_selects(db: Database, row: Row, policy_id: Seq<char>)
    ensures
        ({
            let query = RoutePolicyRow::spec_get(policy_id);
            &&& query.table == Table::RoutePolicies
            &&& query.output == OutputView::Rows(RoutePolicyRow::spec_columns())
            &&& query.selects(db, row)
                <==> crate::model::value(row, Column::PolicyId) == Datum::Text(policy_id)
            &&& query.order.len() == 0
            &&& query.limit == None::<i64>
            &&& query.offset == None::<i64>
        }),
{
    broadcast use group_queries;
}

/// The rows that [`RoutePolicyRow::list_by_tenant`] selects, and in which order.
pub proof fn route_policy_row_list_by_tenant_selects(
    db: Database,
    row: Row,
    tenant_id: Seq<char>,
    limit: usize,
    offset: usize,
)
    ensures
        ({
            let query = RoutePolicyRow::spec_list_by_tenant(tenant_id, limit, offset);
            &&& query.table == Table::RoutePolicies
            &&& query.output == OutputView::Rows(RoutePolicyRow::spec_columns())
            &&& query.selects(db, row)
                <==> crate::model::value(row, Column::TenantId) == Datum::Text(tenant_id)
                && crate::model::value(row, Column::Enabled) == Datum::Bool(true)
            &&& query.order.len() == 1
            &&& query.order[0] == Order::Ascending(Column::PolicyId)
            &&& query.limit == Some(limit as i64)
            &&& query.offset == Some(offset as i64)
        }),
{
    broadcast use group_queries;
}

/// The rows that [`RunCostRow::get_run_cost`] selects, and in which order.
pub proof fn run_cost_row_get_run_cost_selects(db: Database, row: Row, run_id: Seq<char>)
    ensures
        ({
            let query = RunCostRow::spec_get_run_cost(run_id);
            &&& query.table == Table::RunCosts
            &&& query.output == OutputView::Rows(RunCostRow::spec_columns())
            &&& query.selects(db, row)
                <==> crate::model::value(row, Column::RunId) == Datum::Text(run_id)
            &&& query.order.len() == 0
            &&& query.limit == None::<i64>
            &&& query.offset == None::<i64>
        }),
{
    broadcast use group_queries;
}

/// The rows that [`RunCostRow::list_by_session`] selects, and in which order.
pub proof fn run_cost_row_list_by_session_selects(db: Database, row: Row, session_id: Seq<char>)
    ensures
        ({
            let query = RunCostRow::spec_list_by_session(session_id);
            &&& query.table == Table::RunCosts
            &&& query.output == OutputView::Rows(RunCostRow::spec_columns())
            &&& query.selects(db, row) <==> (exists|i: int| 0 <= i < db.rows(Table::Runs).len()
                && crate::laws::selecting::is_run_of(
                    #[trigger] db.rows(Table::Runs)[i],
                    row,
                    session_id,
                ))
            &&& query.order.len() == 2
            &&& query.order[0] == Order::Descending(Column::UpdatedAtMs)
            &&& query.order[1] == Order::Ascending(Column::RunId)
            &&& query.limit == None::<i64>
            &&& query.offset == None::<i64>
        }),
{
    broadcast use group_queries;
}

/// The rows that [`RunCostAlertRow::get_alert`] selects, and in which order.
pub proof fn run_cost_alert_row_get_alert_selects(db: Database, row: Row, run_id: Seq<char>)
    ensures
        ({
            let query = RunCostAlertRow::spec_get_alert(run_id);
            &&& query.table == Table::RunCostAlerts
            &&& query.output == OutputView::Rows(RunCostAlertRow::spec_columns())
            &&& query.selects(db, row)
                <==> crate::model::value(row, Column::RunId) == Datum::Text(run_id)
            &&& query.order.len() == 0
            &&& query.limit == None::<i64>
            &&& query.offset == None::<i64>
        }),
{
    broadcast use group_queries;
}

/// The rows that [`RunCostAlertRow::list_triggered_by_tenant`] selects, and in which order.
pub proof fn run_cost_alert_row_list_triggered_by_tenant_selects(
    db: Database,
    row: Row,
    tenant_id: Seq<char>,
    limit: usize,
    offset: usize,
)
    ensures
        ({
            let query = RunCostAlertRow::spec_list_triggered_by_tenant(tenant_id, limit, offset);
            &&& query.table == Table::RunCostAlerts
            &&& query.output == OutputView::Rows(RunCostAlertRow::spec_columns())
            &&& query.selects(db, row)
                <==> crate::model::value(row, Column::TenantId) == Datum::Text(tenant_id)
                && crate::laws::selecting::is_above(
                    crate::model::value(row, Column::TriggeredAtMs),
                    0 as int,
                )
            &&& query.order.len() == 2
            &&& query.order[0] == Order::Descending(Column::TriggeredAtMs)
            &&& query.order[1] == Order::Ascending(Column::RunId)
            &&& query.limit == Some(limit as i64)
            &&& query.offset == Some(offset as i64)
        }),
{
    broadcast use group_queries;
}

} // verus!
