//! What is read back of what was written: providers.

use crate::domain::DomainNames;
use crate::laws::rows::group_rows;
use crate::model::{Database, Row};
use crate::plan::Moment;
use crate::projections::costs::{RunCostAlertSet, RunCostAlertTriggered, RunCostUpdated};
use crate::projections::providers::{
    ProviderBindingCreated, ProviderBindingStateChanged, ProviderBudgetAlertTriggered,
    ProviderBudgetExceeded, ProviderBudgetSet, ProviderConnectionRegistered, RoutePolicyCreated,
    RoutePolicyUpdated,
};
use crate::read::StoredRow;
use crate::read::providers::{
    ProviderBindingRecord, ProviderBindingRow, ProviderBudget, ProviderBudgetRow,
    ProviderConnectionRecord, ProviderConnectionRow, RoutePolicy, RoutePolicyRow, RunCostAlert,
    RunCostAlertRow, RunCostRecord, RunCostRow,
};
use crate::schema::Column;
use vstd::prelude::*;

verus! {

/// The record that is read back after a `RunCostUpdated` event holds what the event says.
pub proof fn run_cost_updated_is_read_back(
    e: RunCostUpdated,
    at: Moment,
    db: Database,
    was: Option<Row>,
    before: RunCostRow,
    row: RunCostRow,
    names: DomainNames,
    old: RunCostRecord,
    record: RunCostRecord,
)
    requires
        e.writes(at) is Writes,
        e.writes(at).statements().len() > 0,
        was is Some ==> crate::laws::rows::replaces(
            db,
            e.writes(at).statements()[0],
            was->Some_0,
        ),
        was is Some ==> before.is_of(was->Some_0) && before.holds(&names, &old),
        row.is_of(crate::laws::rows::left_by(db, e.writes(at).statements()[0], was)),
        row.holds(&names, &record),
    ensures
        record.run_id@ == e.run_id@,
        was is None ==> (e.delta_cost_micros <= i64::MAX
            ==> record.total_cost_micros == e.delta_cost_micros),
        was is None ==> (e.delta_tokens_in <= i64::MAX
            ==> record.total_tokens_in == e.delta_tokens_in),
        was is None ==> (e.delta_tokens_out <= i64::MAX
            ==> record.total_tokens_out == e.delta_tokens_out),
        was is None ==> (record.provider_calls == 1),
        was is None ==> (e.delta_tokens_in <= i64::MAX ==> record.token_in == e.delta_tokens_in),
        was is None ==> (e.delta_tokens_out <= i64::MAX
            ==> record.token_out == e.delta_tokens_out),
        was is Some && 0 <= before.total_cost_micros ==> record.total_cost_micros
            == old.total_cost_micros + e.delta_cost_micros,
        was is Some && 0 <= before.total_tokens_in ==> record.total_tokens_in
            == old.total_tokens_in + e.delta_tokens_in,
        was is Some && 0 <= before.total_tokens_out ==> record.total_tokens_out
            == old.total_tokens_out + e.delta_tokens_out,
        was is Some && 0 <= before.provider_calls ==> record.provider_calls
            == old.provider_calls + 1,
        was is Some && 0 <= before.total_tokens_in ==> record.token_in
            == old.token_in + e.delta_tokens_in,
        was is Some && 0 <= before.total_tokens_out ==> record.token_out
            == old.token_out + e.delta_tokens_out,
{
    broadcast use group_rows;

    let key = e.writes(at).statements()[0]->Insert_conflict->Merge_key;
    assert(key[0] == Column::RunId);
}

/// The record that is read back after a `ProviderBudgetSet` event holds what the event says.
pub proof fn provider_budget_set_is_read_back(
    e: ProviderBudgetSet,
    at: Moment,
    db: Database,
    was: Option<Row>,
    before: ProviderBudgetRow,
    row: ProviderBudgetRow,
    names: DomainNames,
    old: ProviderBudget,
    record: ProviderBudget,
)
    requires
        e.writes(at) is Writes,
        e.writes(at).statements().len() > 0,
        was is Some ==> crate::laws::rows::replaces(
            db,
            e.writes(at).statements()[0],
            was->Some_0,
        ),
        was is Some ==> before.is_of(was->Some_0) && before.holds(&names, &old),
        row.is_of(crate::laws::rows::left_by(db, e.writes(at).statements()[0], was)),
        row.holds(&names, &record),
    ensures
        record.tenant_id@ == e.tenant_id@,
        record.period == e.period,
        e.limit_micros <= i64::MAX ==> record.limit_micros == e.limit_micros,
        was is None ==> (record.current_spend_micros == 0),
        was is None ==> (record.created_at == crate::read::floor8(at.now)),
        record.updated_at == crate::read::floor8(at.now),
        row.fault(&names) is None,
        was is Some ==> record.current_spend_micros == old.current_spend_micros,
        was is Some ==> record.created_at == old.created_at,
        record.alert_threshold_percent == e.threshold(),
{
    broadcast use group_rows;

    let key = e.writes(at).statements()[0]->Insert_conflict->Merge_key;
    assert(key[0] == Column::BudgetId);
    crate::vocabulary::provider_budget_period_names_are_inverse(e.period, e.period.spec_name());
}

/// The record that is read back after a `RunCostAlertSet` event holds what the event says.
pub proof fn run_cost_alert_set_is_read_back(
    e: RunCostAlertSet,
    at: Moment,
    db: Database,
    was: Option<Row>,
    row: RunCostAlertRow,
    names: DomainNames,
    record: RunCostAlert,
)
    requires
        e.writes(at) is Writes,
        e.writes(at).statements().len() > 0,
        was is Some ==> crate::laws::rows::replaces(
            db,
            e.writes(at).statements()[0],
            was->Some_0,
        ),
        row.is_of(crate::laws::rows::left_by(db, e.writes(at).statements()[0], was)),
        row.holds(&names, &record),
    ensures
        record.run_id@ == e.run_id@,
        record.tenant_id@ == e.tenant_id@,
        e.threshold_micros <= i64::MAX ==> record.threshold_micros == e.threshold_micros,
        record.triggered_at_ms == 0,
        record.actual_cost_micros == 0,
{
    broadcast use group_rows;

    let key = e.writes(at).statements()[0]->Insert_conflict->Merge_key;
    assert(key[0] == Column::RunId);
}

/// The record that is read back after a `ProviderBindingCreated` event holds what the event
/// says.
pub proof fn provider_binding_created_is_read_back(
    e: ProviderBindingCreated,
    at: Moment,
    db: Database,
    was: Option<Row>,
    before: ProviderBindingRow,
    row: ProviderBindingRow,
    names: DomainNames,
    old: ProviderBindingRecord,
    record: ProviderBindingRecord,
)
    requires
        e.writes(at) is Writes,
        e.writes(at).statements().len() > 0,
        was is Some ==> crate::laws::rows::replaces(
            db,
            e.writes(at).statements()[0],
            was->Some_0,
        ),
        was is Some ==> before.is_of(was->Some_0) && before.holds(&names, &old),
        row.is_of(crate::laws::rows::left_by(db, e.writes(at).statements()[0], was)),
        row.holds(&names, &record),
    ensures
        record.provider_binding_id@ == e.provider_binding_id@,
        was is None ==> record.project@ == e.project@,
        record.provider_connection_id@ == e.provider_connection_id@,
        record.provider_model_id@ == e.provider_model_id@,
        record.operation_kind == e.operation_kind,
        record.settings@ == e.settings_json@,
        was is None ==> (record.active == e.active),
        was is None ==> (e.created_at <= i64::MAX ==> record.created_at == e.created_at),
        row.settings.fault is None ==> row.fault(&names) is None,
        was is Some ==> record.project@ == old.project@,
        was is Some ==> record.active == old.active,
        was is Some ==> record.created_at == old.created_at,
{
    broadcast use group_rows;

    let key = e.writes(at).statements()[0]->Insert_conflict->Merge_key;
    assert(key[0] == Column::ProviderBindingId);
    crate::vocabulary::operation_kind_names_are_inverse(
        e.operation_kind,
        e.operation_kind.spec_name(),
    );
}

/// The record that is read back after a `ProviderConnectionRegistered` event holds what the
/// event says.
pub proof fn provider_connection_registered_is_read_back(
    e: ProviderConnectionRegistered,
    at: Moment,
    db: Database,
    was: Option<Row>,
    before: ProviderConnectionRow,
    row: ProviderConnectionRow,
    names: DomainNames,
    old: ProviderConnectionRecord,
    record: ProviderConnectionRecord,
)
    requires
        e.writes(at) is Writes,
        e.writes(at).statements().len() > 0,
        was is Some ==> crate::laws::rows::replaces(
            db,
            e.writes(at).statements()[0],
            was->Some_0,
        ),
        was is Some ==> before.is_of(was->Some_0) && before.holds(&names, &old),
        row.is_of(crate::laws::rows::left_by(db, e.writes(at).statements()[0], was)),
        row.holds(&names, &record),
    ensures
        record.provider_connection_id@ == e.provider_connection_id@,
        was is None ==> (record.tenant_id@ == e.tenant_id@),
        record.provider_family@ == e.provider_family@,
        record.adapter_type@ == e.adapter_type@,
        crate::json::keeps(e.supported_models.deep_view())
            ==> record.supported_models.deep_view() == e.supported_models.deep_view(),
        record.status == e.status,
        was is None ==> (e.registered_at <= i64::MAX ==> record.created_at == e.registered_at),
        crate::json::keeps(e.supported_models.deep_view()) ==> row.fault(&names) is None,
        was is Some ==> record.tenant_id@ == old.tenant_id@,
        was is Some ==> record.created_at == old.created_at,
{
    broadcast use group_rows;

    let key = e.writes(at).statements()[0]->Insert_conflict->Merge_key;
    assert(key[0] == Column::ProviderConnectionId);
    crate::vocabulary::provider_connection_status_names_are_inverse(e.status, e.status.spec_name());
}

/// The record that is read back after a `RoutePolicyCreated` event holds what the event says.
pub proof fn route_policy_created_is_read_back(
    e: RoutePolicyCreated,
    at: Moment,
    db: Database,
    was: Option<Row>,
    before: RoutePolicyRow,
    row: RoutePolicyRow,
    names: DomainNames,
    old: RoutePolicy,
    record: RoutePolicy,
)
    requires
        e.writes(at) is Writes,
        e.writes(at).statements().len() > 0,
        was is Some ==> crate::laws::rows::replaces(
            db,
            e.writes(at).statements()[0],
            was->Some_0,
        ),
        was is Some ==> before.is_of(was->Some_0) && before.holds(&names, &old),
        row.is_of(crate::laws::rows::left_by(db, e.writes(at).statements()[0], was)),
        row.holds(&names, &record),
    ensures
        record.policy_id@ == e.policy_id@,
        record.name@ == e.name@,
        record.enabled == e.enabled,
        was is None ==> (record.tenant_id@ == e.tenant_id@),
        record.rules@ == e.rules_json@,
        record.updated_at_ms == crate::read::floor8(at.now),
        row.rules.fault is None ==> row.fault(&names) is None,
        was is Some ==> record.tenant_id@ == old.tenant_id@,
{
    broadcast use group_rows;

    let key = e.writes(at).statements()[0]->Insert_conflict->Merge_key;
    assert(key[0] == Column::PolicyId);
}

/// The record that is read back of a row that a `RunCostAlertTriggered` event changes holds
/// what the event says.
pub proof fn run_cost_alert_triggered_is_read_back(
    e: RunCostAlertTriggered,
    at: Moment,
    db: Database,
    was: Row,
    before: RunCostAlertRow,
    row: RunCostAlertRow,
    names: DomainNames,
    old: RunCostAlert,
    record: RunCostAlert,
)
    requires
        e.writes(at) is Writes,
        e.writes(at).statements().len() > 0,
        crate::model::passes_all(db, was, e.writes(at).statements()[0]->Update_filter),
        before.is_of(was),
        row.is_of(crate::laws::rows::updated_by(db, e.writes(at).statements()[0], was)),
        before.holds(&names, &old),
        row.holds(&names, &record),
    ensures
        e.triggered_at_ms <= i64::MAX ==> record.triggered_at_ms == e.triggered_at_ms,
        e.actual_cost_micros <= i64::MAX ==> record.actual_cost_micros == e.actual_cost_micros,
        record.run_id@ == old.run_id@,
        record.tenant_id@ == old.tenant_id@,
        record.threshold_micros == old.threshold_micros,
{
    broadcast use group_rows;
}

/// The record that is read back of a row that a `ProviderBindingStateChanged` event changes
/// holds what the event says.
pub proof fn provider_binding_state_changed_is_read_back(
    e: ProviderBindingStateChanged,
    at: Moment,
    db: Database,
    was: Row,
    before: ProviderBindingRow,
    row: ProviderBindingRow,
    names: DomainNames,
    old: ProviderBindingRecord,
    record: ProviderBindingRecord,
)
    requires
        e.writes(at) is Writes,
        e.writes(at).statements().len() > 0,
        crate::model::passes_all(db, was, e.writes(at).statements()[0]->Update_filter),
        before.is_of(was),
        row.is_of(crate::laws::rows::updated_by(db, e.writes(at).statements()[0], was)),
        before.holds(&names, &old),
        row.holds(&names, &record),
    ensures
        record.active == e.active,
        record.provider_binding_id@ == old.provider_binding_id@,
        record.project@ == old.project@,
        record.provider_connection_id@ == old.provider_connection_id@,
        record.provider_model_id@ == old.provider_model_id@,
        record.operation_kind == old.operation_kind,
        record.settings@ == old.settings@,
        record.created_at == old.created_at,
{
    broadcast use group_rows;
}

/// The record that is read back of a row that a `ProviderBudgetAlertTriggered` event changes
/// holds what the event says.
pub proof fn provider_budget_alert_triggered_is_read_back(
    e: ProviderBudgetAlertTriggered,
    at: Moment,
    db: Database,
    was: Row,
    before: ProviderBudgetRow,
    row: ProviderBudgetRow,
    names: DomainNames,
    old: ProviderBudget,
    record: ProviderBudget,
)
    requires
        e.writes(at) is Writes,
        e.writes(at).statements().len() > 0,
        crate::model::passes_all(db, was, e.writes(at).statements()[0]->Update_filter),
        before.is_of(was),
        row.is_of(crate::laws::rows::updated_by(db, e.writes(at).statements()[0], was)),
        before.holds(&names, &old),
        row.holds(&names, &record),
    ensures
        e.current_micros <= i64::MAX ==> record.current_spend_micros == e.current_micros,
        e.triggered_at_ms <= i64::MAX ==> record.updated_at == e.triggered_at_ms,
        record.tenant_id@ == old.tenant_id@,
        record.period == old.period,
        record.limit_micros == old.limit_micros,
        record.alert_threshold_percent == old.alert_threshold_percent,
        record.created_at == old.created_at,
{
    broadcast use group_rows;
}

/// The record that is read back of a row that a `ProviderBudgetExceeded` event changes holds
/// what the event says.
pub proof fn provider_budget_exceeded_is_read_back(
    e: ProviderBudgetExceeded,
    at: Moment,
    db: Database,
    was: Row,
    before: ProviderBudgetRow,
    row: ProviderBudgetRow,
    names: DomainNames,
    old: ProviderBudget,
    record: ProviderBudget,
)
    requires
        e.writes(at) is Writes,
        e.writes(at).statements().len() > 0,
        crate::model::passes_all(db, was, e.writes(at).statements()[0]->Update_filter),
        before.is_of(was),
        row.is_of(crate::laws::rows::updated_by(db, e.writes(at).statements()[0], was)),
        before.holds(&names, &old),
        row.holds(&names, &record),
    ensures
        e.exceeded_at_ms <= i64::MAX ==> record.updated_at == e.exceeded_at_ms,
        record.tenant_id@ == old.tenant_id@,
        record.period == old.period,
        record.limit_micros == old.limit_micros,
        record.alert_threshold_percent == old.alert_threshold_percent,
        record.created_at == old.created_at,
        0 <= before.limit_micros && before.limit_micros + e.exceeded_by_micros <= i64::MAX
            ==> record.current_spend_micros == old.limit_micros + e.exceeded_by_micros,
{
    broadcast use group_rows;
}

/// The record that is read back of a row that a `RoutePolicyUpdated` event changes holds what
/// the event says.
pub proof fn route_policy_updated_is_read_back(
    e: RoutePolicyUpdated,
    at: Moment,
    db: Database,
    was: Row,
    before: RoutePolicyRow,
    row: RoutePolicyRow,
    names: DomainNames,
    old: RoutePolicy,
    record: RoutePolicy,
)
    requires
        e.writes(at) is Writes,
        e.writes(at).statements().len() > 0,
        crate::model::passes_all(db, was, e.writes(at).statements()[0]->Update_filter),
        before.is_of(was),
        row.is_of(crate::laws::rows::updated_by(db, e.writes(at).statements()[0], was)),
        before.holds(&names, &old),
        row.holds(&names, &record),
    ensures
        e.updated_at_ms <= i64::MAX ==> record.updated_at_ms == e.updated_at_ms,
        record.policy_id@ == old.policy_id@,
        record.name@ == old.name@,
        record.enabled == old.enabled,
        record.tenant_id@ == old.tenant_id@,
        record.rules@ == old.rules@,
{
    broadcast use group_rows;
}

} // verus!
