//! What is found of what was written: providers.

use crate::laws::finding::group_queries;
use crate::laws::rows::group_rows;
use crate::model::{Database, Row};
use crate::plan::Moment;
use crate::projections::costs::{RunCostAlertSet, RunCostUpdated};
use crate::projections::providers::{
    ProviderBindingCreated, ProviderBudgetSet, ProviderConnectionRegistered, RoutePolicyCreated,
};
use crate::read::providers::{
    ProviderBindingRow, ProviderBudgetRow, ProviderConnectionRow, RoutePolicyRow, RunCostAlertRow,
    RunCostRow,
};
use crate::schema::Column;
use vstd::prelude::*;

verus! {

/// The row that a `RunCostUpdated` event leaves is found by the query for what it names.
pub proof fn run_cost_updated_is_found(
    e: RunCostUpdated,
    at: Moment,
    db: Database,
    was: Option<Row>,
    later: Database,
)
    requires
        e.writes(at) is Writes,
        e.writes(at).statements().len() > 0,
        was is Some ==> crate::laws::rows::replaces(
            db,
            e.writes(at).statements()[0],
            was->Some_0,
        ),
    ensures
        ({
            let s = e.writes(at).statements()[0];
            let row = crate::laws::rows::left_by(db, s, was);
            &&& RunCostRow::spec_get_run_cost(e.run_id@).finds(later, s.table(), row)
        }),
{
    broadcast use {group_queries, group_rows};

    let key = e.writes(at).statements()[0]->Insert_conflict->Merge_key;
    assert(key[0] == Column::RunId);
}

/// The row that a `ProviderBudgetSet` event leaves is found by the query for what it names.
pub proof fn provider_budget_set_is_found(
    e: ProviderBudgetSet,
    at: Moment,
    db: Database,
    was: Option<Row>,
    later: Database,
)
    requires
        e.writes(at) is Writes,
        e.writes(at).statements().len() > 0,
        was is Some ==> crate::laws::rows::replaces(
            db,
            e.writes(at).statements()[0],
            was->Some_0,
        ),
    ensures
        ({
            let s = e.writes(at).statements()[0];
            let row = crate::laws::rows::left_by(db, s, was);
            &&& ProviderBudgetRow::spec_list_by_tenant(e.tenant_id@).finds(later, s.table(), row)
        }),
{
    broadcast use {group_queries, group_rows};

    let key = e.writes(at).statements()[0]->Insert_conflict->Merge_key;
    assert(key[0] == Column::BudgetId);
}

/// The row that a `RunCostAlertSet` event leaves is found by the query for what it names.
pub proof fn run_cost_alert_set_is_found(
    e: RunCostAlertSet,
    at: Moment,
    db: Database,
    was: Option<Row>,
    later: Database,
)
    requires
        e.writes(at) is Writes,
        e.writes(at).statements().len() > 0,
        was is Some ==> crate::laws::rows::replaces(
            db,
            e.writes(at).statements()[0],
            was->Some_0,
        ),
    ensures
        ({
            let s = e.writes(at).statements()[0];
            let row = crate::laws::rows::left_by(db, s, was);
            &&& RunCostAlertRow::spec_get_alert(e.run_id@).finds(later, s.table(), row)
        }),
{
    broadcast use {group_queries, group_rows};

    let key = e.writes(at).statements()[0]->Insert_conflict->Merge_key;
    assert(key[0] == Column::RunId);
}

/// The row that a `ProviderBindingCreated` event leaves is found by the queries for what it names.
pub proof fn provider_binding_created_is_found(
    e: ProviderBindingCreated,
    at: Moment,
    db: Database,
    was: Option<Row>,
    later: Database,
    limit: usize,
    offset: usize,
)
    requires
        e.writes(at) is Writes,
        e.writes(at).statements().len() > 0,
        was is Some ==> crate::laws::rows::replaces(
            db,
            e.writes(at).statements()[0],
            was->Some_0,
        ),
    ensures
        ({
            let s = e.writes(at).statements()[0];
            let row = crate::laws::rows::left_by(db, s, was);
            &&& ProviderBindingRow::spec_get(e.provider_binding_id@).finds(later, s.table(), row)
            &&& was is None ==> ProviderBindingRow::spec_list_by_project(
                e.project@,
                limit,
                offset,
            ).finds(later, s.table(), row)
            &&& was is None ==> ProviderBindingRow::spec_list_by_tenant(
                e.project.tenant_id@,
                limit,
                offset,
            ).finds(later, s.table(), row)
        }),
{
    broadcast use {group_queries, group_rows};

    let key = e.writes(at).statements()[0]->Insert_conflict->Merge_key;
    assert(key[0] == Column::ProviderBindingId);
}

/// The row that a `ProviderConnectionRegistered` event leaves is found by
/// the queries for what it names.
pub proof fn provider_connection_registered_is_found(
    e: ProviderConnectionRegistered,
    at: Moment,
    db: Database,
    was: Option<Row>,
    later: Database,
    limit: usize,
    offset: usize,
)
    requires
        e.writes(at) is Writes,
        e.writes(at).statements().len() > 0,
        was is Some ==> crate::laws::rows::replaces(
            db,
            e.writes(at).statements()[0],
            was->Some_0,
        ),
    ensures
        ({
            let s = e.writes(at).statements()[0];
            let row = crate::laws::rows::left_by(db, s, was);
            &&& ProviderConnectionRow::spec_get(
                e.provider_connection_id@,
            ).finds(later, s.table(), row)
            &&& was is None ==> ProviderConnectionRow::spec_list_by_tenant(
                e.tenant_id@,
                limit,
                offset,
            ).finds(later, s.table(), row)
        }),
{
    broadcast use {group_queries, group_rows};

    let key = e.writes(at).statements()[0]->Insert_conflict->Merge_key;
    assert(key[0] == Column::ProviderConnectionId);
}

/// The row that a `RoutePolicyCreated` event leaves is found by the query for what it names.
pub proof fn route_policy_created_is_found(
    e: RoutePolicyCreated,
    at: Moment,
    db: Database,
    was: Option<Row>,
    later: Database,
)
    requires
        e.writes(at) is Writes,
        e.writes(at).statements().len() > 0,
        was is Some ==> crate::laws::rows::replaces(
            db,
            e.writes(at).statements()[0],
            was->Some_0,
        ),
    ensures
        ({
            let s = e.writes(at).statements()[0];
            let row = crate::laws::rows::left_by(db, s, was);
            &&& RoutePolicyRow::spec_get(e.policy_id@).finds(later, s.table(), row)
        }),
{
    broadcast use {group_queries, group_rows};

    let key = e.writes(at).statements()[0]->Insert_conflict->Merge_key;
    assert(key[0] == Column::PolicyId);
}

} // verus!
