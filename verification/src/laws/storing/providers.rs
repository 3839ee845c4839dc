//! What the events store: providers.

use crate::laws::rows::{group_filters, group_rows};
use crate::model::{Database, Datum, Row};
use crate::plan::{Found, Moment, Planned};
use crate::projections::providers::{
    ProviderBindingCreated, ProviderBindingStateChanged, ProviderBudgetAlertTriggered,
    ProviderBudgetExceeded, ProviderBudgetSet, ProviderCallCompleted, ProviderConnectionDeleted,
    ProviderConnectionRegistered, RouteDecisionMade, RoutePolicyCreated, RoutePolicyUpdated,
};
use crate::schema::{Column, Table};
use crate::statement::{ConflictView, GuardView};
use vstd::prelude::*;

verus! {

/// What a [`ProviderBudgetSet`] event stores.
pub proof fn provider_budget_set_is_stored(
    e: ProviderBudgetSet,
    at: Moment,
    db: Database,
    was: Row,
    other: Column,
)
    ensures
        e.limit_micros > i64::MAX
            ==> e.writes(at)
                == Planned::Refused(
                    crate::laws::storing::too_great(
                        "ProviderBudgetSet.limit_micros"@,
                        e.limit_micros as nat,
                        "i64::MAX"@,
                    ),
                ),
        e.limit_micros <= i64::MAX
            && (match e.alert_threshold_percent { Some(p) => p, None => 80 }) > i32::MAX
            ==> e.writes(at)
                == Planned::Refused(
                    crate::laws::storing::too_great_for_an_integer(
                        "ProviderBudgetSet.alert_threshold_percent"@,
                        (match e.alert_threshold_percent { Some(p) => p, None => 80 }) as nat,
                    ),
                ),
        e.limit_micros <= i64::MAX
            && !((match e.alert_threshold_percent { Some(p) => p, None => 80 }) > i32::MAX)
            ==> ({
            let s = e.writes(at).statements()[0];
            let merged = crate::laws::rows::left_by(db, s, Some(was));
            let new = crate::laws::rows::left_by(db, s, None);
            &&& e.writes(at) is Writes
            &&& e.writes(at).statements().len() == 1
            &&& s is Insert && s.table() == Table::ProviderBudgets
            &&& crate::model::value(new, Column::BudgetId) == Datum::Text(e.budget_id@)
            &&& crate::model::value(new, Column::TenantId) == Datum::Text(e.tenant_id@)
            &&& crate::model::value(new, Column::Period) == Datum::Text(e.period.spec_name())
            &&& crate::model::value(new, Column::LimitMicros)
                == Datum::Int(e.limit_micros as i64 as int)
            &&& crate::model::value(new, Column::AlertThresholdPercent)
                == Datum::Int(
                    ((match e.alert_threshold_percent { Some(p) => p, None => 80 }) as i32) as int,
                )
            &&& crate::model::value(new, Column::CurrentSpendMicros) == Datum::Int(0)
            &&& crate::model::value(new, Column::AlertTriggeredAtMs) == Datum::Null
            &&& crate::model::value(new, Column::ExceededAtMs) == Datum::Null
            &&& crate::model::value(new, Column::CreatedAt) == Datum::Int(at.now as int)
            &&& crate::model::value(new, Column::UpdatedAt) == Datum::Int(at.now as int)
            &&& other is BudgetId || other is TenantId || other is Period || other is LimitMicros
                || other is AlertThresholdPercent || other is CurrentSpendMicros
                || other is AlertTriggeredAtMs || other is ExceededAtMs || other is CreatedAt
                || other is UpdatedAt
                || crate::model::value(new, other) == db.default_of(Table::ProviderBudgets, other)
            &&& s->Insert_conflict is Merge
            &&& s->Insert_conflict->Merge_key == seq![Column::BudgetId]
            &&& s->Insert_conflict->Merge_guard == GuardView::Always
            &&& crate::model::value(merged, Column::TenantId) == Datum::Text(e.tenant_id@)
            &&& crate::model::value(merged, Column::Period) == Datum::Text(e.period.spec_name())
            &&& crate::model::value(merged, Column::LimitMicros)
                == Datum::Int(e.limit_micros as i64 as int)
            &&& crate::model::value(merged, Column::AlertThresholdPercent)
                == Datum::Int(
                    ((match e.alert_threshold_percent { Some(p) => p, None => 80 }) as i32) as int,
                )
            &&& crate::model::value(merged, Column::UpdatedAt) == Datum::Int(at.now as int)
            &&& other is TenantId || other is Period || other is LimitMicros
                || other is AlertThresholdPercent || other is UpdatedAt
                || crate::model::value(merged, other) == crate::model::value(was, other)
        }),
{
    broadcast use {group_rows, group_filters};
}

/// What a [`ProviderBindingCreated`] event stores.
pub proof fn provider_binding_created_is_stored(
    e: ProviderBindingCreated,
    at: Moment,
    db: Database,
    was: Row,
    other: Column,
)
    ensures
        e.created_at > i64::MAX
            ==> e.writes(at)
                == Planned::Refused(
                    crate::laws::storing::too_great(
                        "ProviderBindingCreated.created_at"@,
                        e.created_at as nat,
                        "i64::MAX"@,
                    ),
                ),
        e.created_at <= i64::MAX ==> ({
            let s = e.writes(at).statements()[0];
            let merged = crate::laws::rows::left_by(db, s, Some(was));
            let new = crate::laws::rows::left_by(db, s, None);
            &&& e.writes(at) is Writes
            &&& e.writes(at).statements().len() == 1
            &&& s is Insert && s.table() == Table::ProviderBindings
            &&& crate::model::value(new, Column::ProviderBindingId)
                == Datum::Text(e.provider_binding_id@)
            &&& crate::model::value(new, Column::TenantId) == Datum::Text(e.project.tenant_id@)
            &&& crate::model::value(new, Column::WorkspaceId)
                == Datum::Text(e.project.workspace_id@)
            &&& crate::model::value(new, Column::ProjectId) == Datum::Text(e.project.project_id@)
            &&& crate::model::value(new, Column::ProviderConnectionId)
                == Datum::Text(e.provider_connection_id@)
            &&& crate::model::value(new, Column::ProviderModelId)
                == Datum::Text(e.provider_model_id@)
            &&& crate::model::value(new, Column::OperationKind)
                == Datum::Text(e.operation_kind.spec_name())
            &&& crate::model::value(new, Column::SettingsJson) == Datum::Text(e.settings_json@)
            &&& crate::model::value(new, Column::Active) == Datum::Bool(e.active)
            &&& crate::model::value(new, Column::CreatedAt)
                == Datum::Int(e.created_at as i64 as int)
            &&& other is ProviderBindingId || other is TenantId || other is WorkspaceId
                || other is ProjectId || other is ProviderConnectionId || other is ProviderModelId
                || other is OperationKind || other is SettingsJson || other is Active
                || other is CreatedAt
                || crate::model::value(new, other) == db.default_of(Table::ProviderBindings, other)
            &&& s->Insert_conflict is Merge
            &&& s->Insert_conflict->Merge_key == seq![Column::ProviderBindingId]
            &&& s->Insert_conflict->Merge_guard == GuardView::Always
            &&& crate::model::value(merged, Column::ProviderConnectionId)
                == Datum::Text(e.provider_connection_id@)
            &&& crate::model::value(merged, Column::ProviderModelId)
                == Datum::Text(e.provider_model_id@)
            &&& crate::model::value(merged, Column::OperationKind)
                == Datum::Text(e.operation_kind.spec_name())
            &&& crate::model::value(merged, Column::SettingsJson) == Datum::Text(e.settings_json@)
            &&& other is ProviderConnectionId || other is ProviderModelId || other is OperationKind
                || other is SettingsJson
                || crate::model::value(merged, other) == crate::model::value(was, other)
        }),
{
    broadcast use {group_rows, group_filters};
}

/// What a [`ProviderBindingStateChanged`] event stores.
pub proof fn provider_binding_state_changed_is_stored(
    e: ProviderBindingStateChanged,
    at: Moment,
    db: Database,
    was: Row,
    other: Column,
)
    ensures
        ({
            let s = e.writes(at).statements()[0];
            let updated = crate::laws::rows::updated_by(db, s, was);
            let selected = crate::model::value(was, Column::ProviderBindingId)
                == Datum::Text(e.provider_binding_id@);
            &&& e.writes(at) is Writes
            &&& e.writes(at).statements().len() == 1
            &&& s is Update && s.table() == Table::ProviderBindings
            &&& selected ==> {
                &&& crate::model::value(updated, Column::Active) == Datum::Bool(e.active)
                &&& other is Active
                    || crate::model::value(updated, other) == crate::model::value(was, other)
            }
            &&& !selected ==> updated == was
        }),
{
    broadcast use {group_rows, group_filters};
}

/// What a [`ProviderBudgetAlertTriggered`] event stores.
pub proof fn provider_budget_alert_triggered_is_stored(
    e: ProviderBudgetAlertTriggered,
    at: Moment,
    db: Database,
    was: Row,
    other: Column,
)
    ensures
        e.triggered_at_ms > i64::MAX
            ==> e.writes(at)
                == Planned::Refused(
                    crate::laws::storing::too_great(
                        "ProviderBudgetAlertTriggered.triggered_at_ms"@,
                        e.triggered_at_ms as nat,
                        "i64::MAX"@,
                    ),
                ),
        e.triggered_at_ms <= i64::MAX && e.current_micros > i64::MAX
            ==> e.writes(at)
                == Planned::Refused(
                    crate::laws::storing::too_great(
                        "ProviderBudgetAlertTriggered.current_micros"@,
                        e.current_micros as nat,
                        "i64::MAX"@,
                    ),
                ),
        e.triggered_at_ms <= i64::MAX && e.current_micros <= i64::MAX ==> ({
            let s = e.writes(at).statements()[0];
            let updated = crate::laws::rows::updated_by(db, s, was);
            let selected = crate::model::value(was, Column::BudgetId) == Datum::Text(e.budget_id@);
            &&& e.writes(at) is Writes
            &&& e.writes(at).statements().len() == 1
            &&& s is Update && s.table() == Table::ProviderBudgets
            &&& selected ==> {
                &&& crate::model::value(updated, Column::CurrentSpendMicros)
                    == Datum::Int(e.current_micros as i64 as int)
                &&& crate::model::value(updated, Column::AlertTriggeredAtMs)
                    == Datum::Int(e.triggered_at_ms as i64 as int)
                &&& crate::model::value(updated, Column::UpdatedAt)
                    == Datum::Int(e.triggered_at_ms as i64 as int)
                &&& other is CurrentSpendMicros || other is AlertTriggeredAtMs || other is UpdatedAt
                    || crate::model::value(updated, other) == crate::model::value(was, other)
            }
            &&& !selected ==> updated == was
        }),
{
    broadcast use {group_rows, group_filters};
}

/// What a [`ProviderBudgetExceeded`] event stores.
pub proof fn provider_budget_exceeded_is_stored(
    e: ProviderBudgetExceeded,
    at: Moment,
    db: Database,
    was: Row,
    other: Column,
)
    ensures
        e.exceeded_at_ms > i64::MAX
            ==> e.writes(at)
                == Planned::Refused(
                    crate::laws::storing::too_great(
                        "ProviderBudgetExceeded.exceeded_at_ms"@,
                        e.exceeded_at_ms as nat,
                        "i64::MAX"@,
                    ),
                ),
        e.exceeded_at_ms <= i64::MAX && e.exceeded_by_micros > i64::MAX
            ==> e.writes(at)
                == Planned::Refused(
                    crate::laws::storing::too_great(
                        "ProviderBudgetExceeded.exceeded_by_micros"@,
                        e.exceeded_by_micros as nat,
                        "i64::MAX"@,
                    ),
                ),
        e.exceeded_at_ms <= i64::MAX && e.exceeded_by_micros <= i64::MAX ==> ({
            let s = e.writes(at).statements()[0];
            let updated = crate::laws::rows::updated_by(db, s, was);
            let selected = crate::model::value(was, Column::BudgetId) == Datum::Text(e.budget_id@);
            &&& e.writes(at) is Writes
            &&& e.writes(at).statements().len() == 1
            &&& s is Update && s.table() == Table::ProviderBudgets
            &&& selected ==> {
                &&& crate::model::value(updated, Column::CurrentSpendMicros)
                    == crate::model::plus(
                        crate::model::value(was, Column::LimitMicros),
                        Datum::Int(e.exceeded_by_micros as i64 as int),
                    )
                &&& crate::model::value(updated, Column::ExceededAtMs)
                    == crate::model::coalesce(
                        crate::model::value(was, Column::ExceededAtMs),
                        Datum::Int(e.exceeded_at_ms as i64 as int),
                    )
                &&& crate::model::value(updated, Column::UpdatedAt)
                    == Datum::Int(e.exceeded_at_ms as i64 as int)
                &&& other is CurrentSpendMicros || other is ExceededAtMs || other is UpdatedAt
                    || crate::model::value(updated, other) == crate::model::value(was, other)
            }
            &&& !selected ==> updated == was
        }),
{
    broadcast use {group_rows, group_filters};
}

/// What a [`ProviderConnectionRegistered`] event stores.
pub proof fn provider_connection_registered_is_stored(
    e: ProviderConnectionRegistered,
    at: Moment,
    db: Database,
    was: Row,
    other: Column,
)
    ensures
        e.registered_at > i64::MAX
            ==> e.writes(at)
                == Planned::Refused(
                    crate::laws::storing::too_great(
                        "ProviderConnectionRegistered.registered_at"@,
                        e.registered_at as nat,
                        "i64::MAX"@,
                    ),
                ),
        e.registered_at <= i64::MAX ==> ({
            let s = e.writes(at).statements()[0];
            let merged = crate::laws::rows::left_by(db, s, Some(was));
            let new = crate::laws::rows::left_by(db, s, None);
            &&& e.writes(at) is Writes
            &&& e.writes(at).statements().len() == 1
            &&& s is Insert && s.table() == Table::ProviderConnections
            &&& crate::model::value(new, Column::ProviderConnectionId)
                == Datum::Text(e.provider_connection_id@)
            &&& crate::model::value(new, Column::TenantId) == Datum::Text(e.tenant_id@)
            &&& crate::model::value(new, Column::ProviderFamily) == Datum::Text(e.provider_family@)
            &&& crate::model::value(new, Column::AdapterType) == Datum::Text(e.adapter_type@)
            &&& crate::model::value(new, Column::SupportedModelsJson)
                == Datum::Text(crate::json::strings_as_json(e.supported_models.deep_view()))
            &&& crate::model::value(new, Column::Status) == Datum::Text(e.status.spec_name())
            &&& crate::model::value(new, Column::CreatedAt)
                == Datum::Int(e.registered_at as i64 as int)
            &&& other is ProviderConnectionId || other is TenantId || other is ProviderFamily
                || other is AdapterType || other is SupportedModelsJson || other is Status
                || other is CreatedAt
                || crate::model::value(new, other)
                    == db.default_of(Table::ProviderConnections, other)
            &&& s->Insert_conflict is Merge
            &&& s->Insert_conflict->Merge_key == seq![Column::ProviderConnectionId]
            &&& s->Insert_conflict->Merge_guard == GuardView::Always
            &&& crate::model::value(merged, Column::ProviderFamily)
                == Datum::Text(e.provider_family@)
            &&& crate::model::value(merged, Column::AdapterType) == Datum::Text(e.adapter_type@)
            &&& crate::model::value(merged, Column::SupportedModelsJson)
                == Datum::Text(crate::json::strings_as_json(e.supported_models.deep_view()))
            &&& crate::model::value(merged, Column::Status) == Datum::Text(e.status.spec_name())
            &&& other is ProviderFamily || other is AdapterType || other is SupportedModelsJson
                || other is Status
                || crate::model::value(merged, other) == crate::model::value(was, other)
        }),
{
    broadcast use {group_rows, group_filters};
}

/// What a [`ProviderConnectionDeleted`] event stores.
pub proof fn provider_connection_deleted_is_stored(
    e: ProviderConnectionDeleted,
    at: Moment,
    db: Database,
    was: Row,
    other: Column,
)
    ensures
        ({
            let s = e.writes(at).statements()[0];
            &&& e.writes(at) is Writes
            &&& e.writes(at).statements().len() == 1
            &&& s is Delete && s.table() == Table::ProviderConnections
            &&& crate::model::passes_all(db, was, s->Delete_filter)
                <==> crate::model::value(was, Column::ProviderConnectionId)
                    == Datum::Text(e.provider_connection_id@)
        }),
{
    broadcast use {group_rows, group_filters};
}

/// What a [`RoutePolicyUpdated`] event stores.
pub proof fn route_policy_updated_is_stored(
    e: RoutePolicyUpdated,
    at: Moment,
    db: Database,
    was: Row,
    other: Column,
)
    ensures
        e.updated_at_ms > i64::MAX
            ==> e.writes(at)
                == Planned::Refused(
                    crate::laws::storing::too_great(
                        "RoutePolicyUpdated.updated_at_ms"@,
                        e.updated_at_ms as nat,
                        "i64::MAX"@,
                    ),
                ),
        e.updated_at_ms <= i64::MAX ==> ({
            let s = e.writes(at).statements()[0];
            let updated = crate::laws::rows::updated_by(db, s, was);
            let selected = crate::model::value(was, Column::PolicyId) == Datum::Text(e.policy_id@);
            &&& e.writes(at) is Writes
            &&& e.writes(at).statements().len() == 1
            &&& s is Update && s.table() == Table::RoutePolicies
            &&& selected ==> {
                &&& crate::model::value(updated, Column::UpdatedAt)
                    == Datum::Int(e.updated_at_ms as i64 as int)
                &&& other is UpdatedAt
                    || crate::model::value(updated, other) == crate::model::value(was, other)
            }
            &&& !selected ==> updated == was
        }),
{
    broadcast use {group_rows, group_filters};
}

/// What a [`RoutePolicyCreated`] event stores.
pub proof fn route_policy_created_is_stored(
    e: RoutePolicyCreated,
    at: Moment,
    db: Database,
    was: Row,
    other: Column,
)
    ensures
        ({
            let s = e.writes(at).statements()[0];
            let merged = crate::laws::rows::left_by(db, s, Some(was));
            let new = crate::laws::rows::left_by(db, s, None);
            &&& e.writes(at) is Writes
            &&& e.writes(at).statements().len() == 1
            &&& s is Insert && s.table() == Table::RoutePolicies
            &&& crate::model::value(new, Column::PolicyId) == Datum::Text(e.policy_id@)
            &&& crate::model::value(new, Column::TenantId) == Datum::Text(e.tenant_id@)
            &&& crate::model::value(new, Column::Name) == Datum::Text(e.name@)
            &&& crate::model::value(new, Column::Rules) == Datum::Json(e.rules_json@)
            &&& crate::model::value(new, Column::Enabled) == Datum::Bool(e.enabled)
            &&& crate::model::value(new, Column::CreatedAt) == Datum::Int(at.now as int)
            &&& crate::model::value(new, Column::UpdatedAt) == Datum::Int(at.now as int)
            &&& other is PolicyId || other is TenantId || other is Name || other is Rules
                || other is Enabled || other is CreatedAt || other is UpdatedAt
                || crate::model::value(new, other) == db.default_of(Table::RoutePolicies, other)
            &&& s->Insert_conflict is Merge
            &&& s->Insert_conflict->Merge_key == seq![Column::PolicyId]
            &&& s->Insert_conflict->Merge_guard == GuardView::Always
            &&& crate::model::value(merged, Column::Name) == Datum::Text(e.name@)
            &&& crate::model::value(merged, Column::Rules) == Datum::Json(e.rules_json@)
            &&& crate::model::value(merged, Column::Enabled) == Datum::Bool(e.enabled)
            &&& crate::model::value(merged, Column::UpdatedAt) == Datum::Int(at.now as int)
            &&& other is Name || other is Rules || other is Enabled || other is UpdatedAt
                || crate::model::value(merged, other) == crate::model::value(was, other)
        }),
{
    broadcast use {group_rows, group_filters};
}

/// What a [`RouteDecisionMade`] event stores.
pub proof fn route_decision_made_is_stored(
    e: RouteDecisionMade,
    at: Moment,
    db: Database,
    was: Row,
    other: Column,
)
    ensures
        ({
            let s = e.writes(at).statements()[0];
            let new = crate::laws::rows::left_by(db, s, None);
            &&& e.writes(at) is Writes
            &&& e.writes(at).statements().len() == 1
            &&& s is Insert && s.table() == Table::RouteDecisions
            &&& crate::model::value(new, Column::RouteDecisionId)
                == Datum::Text(e.route_decision_id@)
            &&& crate::model::value(new, Column::TenantId) == Datum::Text(e.project.tenant_id@)
            &&& crate::model::value(new, Column::WorkspaceId)
                == Datum::Text(e.project.workspace_id@)
            &&& crate::model::value(new, Column::ProjectId) == Datum::Text(e.project.project_id@)
            &&& crate::model::value(new, Column::OperationKind)
                == Datum::Text(e.operation_kind.spec_name())
            &&& crate::model::value(new, Column::RoutePolicyId) == Datum::Null
            &&& crate::model::value(new, Column::TerminalRouteAttemptId) == Datum::Null
            &&& crate::model::value(new, Column::SelectedProviderBindingId)
                == crate::laws::storing::optional_text(e.selected_provider_binding_id)
            &&& crate::model::value(new, Column::SelectedRouteAttemptId) == Datum::Null
            &&& crate::model::value(new, Column::SelectorContext) == Datum::Null
            &&& crate::model::value(new, Column::AttemptCount)
                == Datum::Int((e.attempt_count as i32) as int)
            &&& crate::model::value(new, Column::FallbackUsed) == Datum::Bool(e.fallback_used)
            &&& crate::model::value(new, Column::FinalStatus) == Datum::Text(e.final_status@)
            &&& crate::model::value(new, Column::CreatedAt)
                == Datum::Int(e.decided_at as i64 as int)
            &&& other is RouteDecisionId || other is TenantId || other is WorkspaceId
                || other is ProjectId || other is OperationKind || other is RoutePolicyId
                || other is TerminalRouteAttemptId || other is SelectedProviderBindingId
                || other is SelectedRouteAttemptId || other is SelectorContext
                || other is AttemptCount || other is FallbackUsed || other is FinalStatus
                || other is CreatedAt
                || crate::model::value(new, other) == db.default_of(Table::RouteDecisions, other)
            &&& s->Insert_conflict == ConflictView::Ignore(seq![Column::RouteDecisionId])
        }),
{
    broadcast use {group_rows, group_filters};
}

/// What a [`ProviderCallCompleted`] event stores of the call itself: the first of
/// its statements.
pub proof fn provider_call_completed_is_stored(
    e: ProviderCallCompleted,
    found: Found,
    db: Database,
    was: Row,
    other: Column,
)
    requires
        e.writes(found) is Writes,
    ensures
        ({
            let s = e.writes(found).statements()[0];
            let new = crate::laws::rows::left_by(db, s, None);
            &&& s is Insert && s.table() == Table::ProviderCalls
            &&& crate::model::value(new, Column::ProviderCallId) == Datum::Text(e.provider_call_id@)
            &&& crate::model::value(new, Column::RouteDecisionId)
                == Datum::Text(e.route_decision_id@)
            &&& crate::model::value(new, Column::RouteAttemptId) == Datum::Text(e.route_attempt_id@)
            &&& crate::model::value(new, Column::TenantId) == Datum::Text(e.project.tenant_id@)
            &&& crate::model::value(new, Column::WorkspaceId)
                == Datum::Text(e.project.workspace_id@)
            &&& crate::model::value(new, Column::ProjectId) == Datum::Text(e.project.project_id@)
            &&& crate::model::value(new, Column::OperationKind)
                == Datum::Text(e.operation_kind.spec_name())
            &&& crate::model::value(new, Column::ProviderBindingId)
                == Datum::Text(e.provider_binding_id@)
            &&& crate::model::value(new, Column::ProviderConnectionId)
                == Datum::Text(e.provider_connection_id@)
            &&& crate::model::value(new, Column::ProviderAdapter) == Datum::Text(""@)
            &&& crate::model::value(new, Column::ProviderModelId)
                == Datum::Text(e.provider_model_id@)
            &&& crate::model::value(new, Column::TaskId)
                == crate::laws::storing::optional_text(e.task_id)
            &&& crate::model::value(new, Column::RunId)
                == crate::laws::storing::optional_text(e.run_id)
            &&& crate::model::value(new, Column::PromptReleaseId)
                == crate::laws::storing::optional_text(e.prompt_release_id)
            &&& crate::model::value(new, Column::FallbackPosition)
                == Datum::Int((e.fallback_position as i32) as int)
            &&& crate::model::value(new, Column::Status) == Datum::Text(e.status@)
            &&& crate::model::value(new, Column::LatencyMs)
                == crate::laws::storing::optional_number(
                    (
                        match e.latency_ms {
                            Some(measured) => Some(measured),
                            None => if e.started_at > 0
                                && e.finished_at >= e.started_at {
                                    Some((e.finished_at - e.started_at) as u64)
                                } else { None },
                        }
                    ),
                )
            &&& crate::model::value(new, Column::InputTokens)
                == crate::laws::storing::optional_small_number(e.input_tokens)
            &&& crate::model::value(new, Column::OutputTokens)
                == crate::laws::storing::optional_small_number(e.output_tokens)
            &&& crate::model::value(new, Column::CostMicros)
                == crate::laws::storing::optional_number(e.cost_micros)
            &&& crate::model::value(new, Column::ErrorClass)
                == crate::laws::storing::optional_text(e.error_class)
            &&& crate::model::value(new, Column::RawErrorMessage)
                == crate::laws::storing::optional_text(e.raw_error_message)
            &&& crate::model::value(new, Column::RetryCount)
                == Datum::Int((e.retry_count as i32) as int)
            &&& crate::model::value(new, Column::CreatedAt)
                == Datum::Int(e.completed_at as i64 as int)
            &&& other is ProviderCallId || other is RouteDecisionId || other is RouteAttemptId
                || other is TenantId || other is WorkspaceId || other is ProjectId
                || other is OperationKind || other is ProviderBindingId
                || other is ProviderConnectionId || other is ProviderAdapter
                || other is ProviderModelId || other is TaskId || other is RunId
                || other is PromptReleaseId || other is FallbackPosition || other is Status
                || other is LatencyMs || other is InputTokens || other is OutputTokens
                || other is CostMicros || other is ErrorClass || other is RawErrorMessage
                || other is RetryCount || other is CreatedAt
                || crate::model::value(new, other) == db.default_of(Table::ProviderCalls, other)
            &&& s->Insert_conflict == ConflictView::Ignore(seq![Column::ProviderCallId])
            &&& e.writes(found).statements().len() > 0
        }),
{
    broadcast use {group_rows, group_filters};
}

} // verus!
