//! What the records say of the stored rows: providers.

use crate::domain::DomainNames;
use crate::error::ErrorView;
use crate::model::{Datum, Row};
use crate::read::StoredRow;
use crate::read::providers::{
    ProviderBindingRecord, ProviderBindingRow, ProviderBudget, ProviderBudgetRow,
    ProviderConnectionRecord, ProviderConnectionRow, RoutePolicy, RoutePolicyRow, RunCostAlert,
    RunCostAlertRow, RunCostRecord, RunCostRow,
};
use crate::schema::Column;
use vstd::prelude::*;

verus! {

/// What the fields of a [`ProviderConnectionRecord`] say of the stored row.
pub proof fn the_record_of_a_provider_connection_row(
    row: ProviderConnectionRow,
    stored: Row,
    names: DomainNames,
    record: ProviderConnectionRecord,
)
    requires
        row.is_of(stored),
        row.holds(&names, &record),
    ensures
        crate::model::value(stored, Column::ProviderConnectionId)
            == Datum::Text(record.provider_connection_id@),
        crate::model::value(stored, Column::TenantId) == Datum::Text(record.tenant_id@),
        crate::model::value(stored, Column::ProviderFamily) == Datum::Text(record.provider_family@),
        crate::model::value(stored, Column::AdapterType) == Datum::Text(record.adapter_type@),
        crate::model::value(stored, Column::SupportedModelsJson) is Text
            && crate::json::json_as_strings(
                crate::model::value(stored, Column::SupportedModelsJson)->Text_0,
            )
                == Ok::<Seq<Seq<char>>, Seq<char>>(record.supported_models.deep_view()),
        crate::model::value(stored, Column::Status) == Datum::Text(record.status.spec_name()),
        crate::laws::recording::is_at_least_zero(
            crate::model::value(stored, Column::CreatedAt),
            record.created_at as int,
        ),
{
    crate::vocabulary::provider_connection_status_names_are_inverse(record.status, row.status@);
}

/// A [`ProviderConnectionRow`] says nothing of a stored row but what the columns that it asks for
/// hold.
pub proof fn the_columns_of_a_provider_connection_row(
    row: ProviderConnectionRow,
    stored: Row,
    other: Row,
)
    requires
        forall|i: int|
            0 <= i < ProviderConnectionRow::spec_columns().len()
                ==> crate::model::value(stored, #[trigger] ProviderConnectionRow::spec_columns()[i])
                    == crate::model::value(other, ProviderConnectionRow::spec_columns()[i]),
    ensures
        row.is_of(stored) == row.is_of(other),
{
    let columns = ProviderConnectionRow::spec_columns();
    assert(columns[0] == Column::ProviderConnectionId);
    assert(columns[1] == Column::TenantId);
    assert(columns[2] == Column::ProviderFamily);
    assert(columns[3] == Column::AdapterType);
    assert(columns[4] == Column::SupportedModelsJson);
    assert(columns[5] == Column::Status);
    assert(columns[6] == Column::CreatedAt);
}

/// When a [`ProviderConnectionRow`] holds no record, and how it is refused.
pub proof fn the_faults_of_a_provider_connection_row(row: ProviderConnectionRow, names: DomainNames)
    ensures
        row.status@ != "active"@ && row.status@ != "disabled"@
            ==> row.fault(&names)
                == Some(
                    ErrorView::Internal(
                        "provider_connections.status: unknown value "@
                            + crate::json::quoted( row.status@, ),
                    ),
                ),
        !(row.status@ != "active"@ && row.status@ != "disabled"@)
            && crate::json::json_as_strings(row.supported_models_json@) is Err
            ==> row.fault(&names)
                == Some(
                    ErrorView::Internal(
                        "provider_connections.supported_models_json parse error: "@
                            + crate::json::json_as_strings(row.supported_models_json@)->Err_0,
                    ),
                ),
        !(row.status@ != "active"@ && row.status@ != "disabled"@)
            && !(crate::json::json_as_strings(row.supported_models_json@) is Err)
            ==> row.fault(&names) is None,
{
}

/// What the fields of a [`ProviderBindingRecord`] say of the stored row.
pub proof fn the_record_of_a_provider_binding_row(
    row: ProviderBindingRow,
    stored: Row,
    names: DomainNames,
    record: ProviderBindingRecord,
)
    requires
        row.is_of(stored),
        row.holds(&names, &record),
    ensures
        crate::model::value(stored, Column::ProviderBindingId)
            == Datum::Text(record.provider_binding_id@),
        crate::model::value(stored, Column::TenantId) == Datum::Text(record.project.tenant_id@),
        crate::model::value(stored, Column::WorkspaceId)
            == Datum::Text(record.project.workspace_id@),
        crate::model::value(stored, Column::ProjectId) == Datum::Text(record.project.project_id@),
        crate::model::value(stored, Column::ProviderConnectionId)
            == Datum::Text(record.provider_connection_id@),
        crate::model::value(stored, Column::ProviderModelId)
            == Datum::Text(record.provider_model_id@),
        crate::model::value(stored, Column::OperationKind)
            == Datum::Text(record.operation_kind.spec_name()),
        crate::model::value(stored, Column::SettingsJson) == Datum::Text(record.settings@),
        crate::model::value(stored, Column::Active) == Datum::Bool(record.active),
        crate::laws::recording::is_at_least_zero(
            crate::model::value(stored, Column::CreatedAt),
            record.created_at as int,
        ),
{
    crate::vocabulary::operation_kind_names_are_inverse(record.operation_kind, row.operation_kind@);
}

/// A [`ProviderBindingRow`] says nothing of a stored row but what the columns that it asks for
/// hold.
pub proof fn the_columns_of_a_provider_binding_row(row: ProviderBindingRow, stored: Row, other: Row)
    requires
        forall|i: int|
            0 <= i < ProviderBindingRow::spec_columns().len()
                ==> crate::model::value(stored, #[trigger] ProviderBindingRow::spec_columns()[i])
                    == crate::model::value(other, ProviderBindingRow::spec_columns()[i]),
    ensures
        row.is_of(stored) == row.is_of(other),
{
    let columns = ProviderBindingRow::spec_columns();
    assert(columns[0] == Column::ProviderBindingId);
    assert(columns[1] == Column::TenantId);
    assert(columns[2] == Column::WorkspaceId);
    assert(columns[3] == Column::ProjectId);
    assert(columns[4] == Column::ProviderConnectionId);
    assert(columns[5] == Column::ProviderModelId);
    assert(columns[6] == Column::OperationKind);
    assert(columns[7] == Column::SettingsJson);
    assert(columns[8] == Column::Active);
    assert(columns[9] == Column::CreatedAt);
}

/// When a [`ProviderBindingRow`] holds no record, and how it is refused.
pub proof fn the_faults_of_a_provider_binding_row(row: ProviderBindingRow, names: DomainNames)
    ensures
        row.operation_kind@ != "generate"@ && row.operation_kind@ != "embed"@
            && row.operation_kind@ != "rerank"@
            ==> row.fault(&names)
                == Some(
                    ErrorView::Internal(
                        "provider_bindings.operation_kind: unknown value "@
                            + crate::json::quoted( row.operation_kind@, ),
                    ),
                ),
        !(
            row.operation_kind@ != "generate"@ && row.operation_kind@ != "embed"@
                && row.operation_kind@ != "rerank"@
        )
            && row.settings.fault is Some
            ==> row.fault(&names)
                == Some(
                    ErrorView::Internal(
                        "provider_bindings.settings_json parse error: "@
                            + row.settings.fault->Some_0@,
                    ),
                ),
        !(
            row.operation_kind@ != "generate"@ && row.operation_kind@ != "embed"@
                && row.operation_kind@ != "rerank"@
        )
            && !(row.settings.fault is Some)
            ==> row.fault(&names) is None,
{
}

/// What the fields of a [`ProviderBudget`] say of the stored row.
pub proof fn the_record_of_a_provider_budget_row(
    row: ProviderBudgetRow,
    stored: Row,
    names: DomainNames,
    record: ProviderBudget,
)
    requires
        row.is_of(stored),
        row.holds(&names, &record),
    ensures
        crate::model::value(stored, Column::TenantId) == Datum::Text(record.tenant_id@),
        crate::model::value(stored, Column::Period) == Datum::Text(record.period.spec_name()),
        crate::laws::recording::is_at_least_zero(
            crate::model::value(stored, Column::LimitMicros),
            record.limit_micros as int,
        ),
        crate::laws::recording::is_at_least_zero(
            crate::model::value(stored, Column::AlertThresholdPercent),
            record.alert_threshold_percent as int,
        ),
        crate::laws::recording::is_at_least_zero(
            crate::model::value(stored, Column::CurrentSpendMicros),
            record.current_spend_micros as int,
        ),
        crate::laws::recording::is_at_least_zero(
            crate::model::value(stored, Column::CreatedAt),
            record.created_at as int,
        ),
        crate::laws::recording::is_at_least_zero(
            crate::model::value(stored, Column::UpdatedAt),
            record.updated_at as int,
        ),
{
    crate::vocabulary::provider_budget_period_names_are_inverse(record.period, row.period@);
}

/// A [`ProviderBudgetRow`] says nothing of a stored row but what the columns that it asks for
/// hold.
pub proof fn the_columns_of_a_provider_budget_row(row: ProviderBudgetRow, stored: Row, other: Row)
    requires
        forall|i: int|
            0 <= i < ProviderBudgetRow::spec_columns().len()
                ==> crate::model::value(stored, #[trigger] ProviderBudgetRow::spec_columns()[i])
                    == crate::model::value(other, ProviderBudgetRow::spec_columns()[i]),
    ensures
        row.is_of(stored) == row.is_of(other),
{
    let columns = ProviderBudgetRow::spec_columns();
    assert(columns[0] == Column::TenantId);
    assert(columns[1] == Column::Period);
    assert(columns[2] == Column::LimitMicros);
    assert(columns[3] == Column::AlertThresholdPercent);
    assert(columns[4] == Column::CurrentSpendMicros);
    assert(columns[5] == Column::CreatedAt);
    assert(columns[6] == Column::UpdatedAt);
}

/// When a [`ProviderBudgetRow`] holds no record, and how it is refused.
pub proof fn the_faults_of_a_provider_budget_row(row: ProviderBudgetRow, names: DomainNames)
    ensures
        row.period@ != "daily"@ && row.period@ != "monthly"@
            ==> row.fault(&names)
                == Some(
                    ErrorView::Internal(
                        "provider_budgets.period: unknown value "@
                            + crate::json::quoted(row.period@),
                    ),
                ),
        !(row.period@ != "daily"@ && row.period@ != "monthly"@) ==> row.fault(&names) is None,
{
}

/// What the fields of a [`RoutePolicy`] say of the stored row.
pub proof fn the_record_of_a_route_policy_row(
    row: RoutePolicyRow,
    stored: Row,
    names: DomainNames,
    record: RoutePolicy,
)
    requires
        row.is_of(stored),
        row.holds(&names, &record),
    ensures
        crate::model::value(stored, Column::PolicyId) == Datum::Text(record.policy_id@),
        crate::model::value(stored, Column::Name) == Datum::Text(record.name@),
        crate::model::value(stored, Column::Enabled) == Datum::Bool(record.enabled),
        crate::model::value(stored, Column::TenantId) == Datum::Text(record.tenant_id@),
        crate::model::value(stored, Column::Rules) == Datum::Json(record.rules@),
        crate::laws::recording::is_at_least_zero(
            crate::model::value(stored, Column::UpdatedAt),
            record.updated_at_ms as int,
        ),
{
}

/// A [`RoutePolicyRow`] says nothing of a stored row but what the columns that it asks for
/// hold.
pub proof fn the_columns_of_a_route_policy_row(row: RoutePolicyRow, stored: Row, other: Row)
    requires
        forall|i: int|
            0 <= i < RoutePolicyRow::spec_columns().len()
                ==> crate::model::value(stored, #[trigger] RoutePolicyRow::spec_columns()[i])
                    == crate::model::value(other, RoutePolicyRow::spec_columns()[i]),
    ensures
        row.is_of(stored) == row.is_of(other),
{
    let columns = RoutePolicyRow::spec_columns();
    assert(columns[0] == Column::PolicyId);
    assert(columns[1] == Column::TenantId);
    assert(columns[2] == Column::Name);
    assert(columns[3] == Column::Rules);
    assert(columns[4] == Column::Enabled);
    assert(columns[5] == Column::CreatedAt);
    assert(columns[6] == Column::UpdatedAt);
}

/// When a [`RoutePolicyRow`] holds no record, and how it is refused.
pub proof fn the_faults_of_a_route_policy_row(row: RoutePolicyRow, names: DomainNames)
    ensures
        row.rules.fault is Some
            ==> row.fault(&names)
                == Some(
                    ErrorView::Serialization(
                        "route_policies.rules decode for policy_id="@ + row.policy_id@ + ": "@
                            + row.rules.fault->Some_0@,
                    ),
                ),
        !(row.rules.fault is Some) ==> row.fault(&names) is None,
{
}

/// What the fields of a [`RunCostRecord`] say of the stored row.
pub proof fn the_record_of_a_run_cost_row(
    row: RunCostRow,
    stored: Row,
    names: DomainNames,
    record: RunCostRecord,
)
    requires
        row.is_of(stored),
        row.holds(&names, &record),
    ensures
        crate::model::value(stored, Column::RunId) == Datum::Text(record.run_id@),
        crate::laws::recording::is_at_least_zero(
            crate::model::value(stored, Column::TotalCostMicros),
            record.total_cost_micros as int,
        ),
        crate::laws::recording::is_at_least_zero(
            crate::model::value(stored, Column::TotalTokensIn),
            record.total_tokens_in as int,
        ),
        crate::laws::recording::is_at_least_zero(
            crate::model::value(stored, Column::TotalTokensOut),
            record.total_tokens_out as int,
        ),
        crate::laws::recording::is_at_least_zero(
            crate::model::value(stored, Column::ProviderCalls),
            record.provider_calls as int,
        ),
        crate::laws::recording::is_at_least_zero(
            crate::model::value(stored, Column::TotalTokensIn),
            record.token_in as int,
        ),
        crate::laws::recording::is_at_least_zero(
            crate::model::value(stored, Column::TotalTokensOut),
            record.token_out as int,
        ),
{
}

/// A [`RunCostRow`] says nothing of a stored row but what the columns that it asks for
/// hold.
pub proof fn the_columns_of_a_run_cost_row(row: RunCostRow, stored: Row, other: Row)
    requires
        forall|i: int|
            0 <= i < RunCostRow::spec_columns().len()
                ==> crate::model::value(stored, #[trigger] RunCostRow::spec_columns()[i])
                    == crate::model::value(other, RunCostRow::spec_columns()[i]),
    ensures
        row.is_of(stored) == row.is_of(other),
{
    let columns = RunCostRow::spec_columns();
    assert(columns[0] == Column::RunId);
    assert(columns[1] == Column::TotalCostMicros);
    assert(columns[2] == Column::TotalTokensIn);
    assert(columns[3] == Column::TotalTokensOut);
    assert(columns[4] == Column::ProviderCalls);
    assert(columns[5] == Column::UpdatedAtMs);
}

/// Every [`RunCostRow`] holds a record.
pub proof fn the_faults_of_a_run_cost_row(row: RunCostRow, names: DomainNames)
    ensures
        row.fault(&names) is None,
{
}

/// What the fields of a [`RunCostAlert`] say of the stored row.
pub proof fn the_record_of_a_run_cost_alert_row(
    row: RunCostAlertRow,
    stored: Row,
    names: DomainNames,
    record: RunCostAlert,
)
    requires
        row.is_of(stored),
        row.holds(&names, &record),
    ensures
        crate::model::value(stored, Column::RunId) == Datum::Text(record.run_id@),
        crate::model::value(stored, Column::TenantId) == Datum::Text(record.tenant_id@),
        crate::laws::recording::is_at_least_zero(
            crate::model::value(stored, Column::ThresholdMicros),
            record.threshold_micros as int,
        ),
        crate::laws::recording::is_at_least_zero(
            crate::model::value(stored, Column::TriggeredAtMs),
            record.triggered_at_ms as int,
        ),
        crate::laws::recording::is_at_least_zero(
            crate::model::value(stored, Column::ActualCostMicros),
            record.actual_cost_micros as int,
        ),
{
}

/// A [`RunCostAlertRow`] says nothing of a stored row but what the columns that it asks for
/// hold.
pub proof fn the_columns_of_a_run_cost_alert_row(row: RunCostAlertRow, stored: Row, other: Row)
    requires
        forall|i: int|
            0 <= i < RunCostAlertRow::spec_columns().len()
                ==> crate::model::value(stored, #[trigger] RunCostAlertRow::spec_columns()[i])
                    == crate::model::value(other, RunCostAlertRow::spec_columns()[i]),
    ensures
        row.is_of(stored) == row.is_of(other),
{
    let columns = RunCostAlertRow::spec_columns();
    assert(columns[0] == Column::RunId);
    assert(columns[1] == Column::TenantId);
    assert(columns[2] == Column::ThresholdMicros);
    assert(columns[3] == Column::TriggeredAtMs);
    assert(columns[4] == Column::ActualCostMicros);
    assert(columns[5] == Column::SetAtMs);
}

/// Every [`RunCostAlertRow`] holds a record.
pub proof fn the_faults_of_a_run_cost_alert_row(row: RunCostAlertRow, names: DomainNames)
    ensures
        row.fault(&names) is None,
{
}

} // verus!
