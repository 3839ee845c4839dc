//! What provider and routing events write.

use crate::domain::ProjectKey;
use crate::error::{ErrorView, StoreError};
use crate::json::encode_strings;
use crate::plan::{one, Found, Moment, Planned};
use crate::schema::{Column, Table};
use crate::statement::{
    only, Cells, Changes, ChangesView, Filter, FilterView, RowView, Source, SourceView,
    Statement, StatementView,
};
use crate::text::{fits_i64, i32_from_u32};
use crate::value::{json, opt_bits4, opt_bits8, opt_text, text, SqlType, SqlValue, ValueView};
use crate::vocabulary::{OperationKind, ProviderBudgetPeriod, ProviderConnectionStatus};
use crate::projections::costs::SessionCostUpdated;
use vstd::prelude::*;
use vstd::string::*;

verus! {

/// The alert threshold of a budget that names none, in percent.
pub const DEFAULT_BUDGET_ALERT_THRESHOLD_PERCENT: u32 = 80;

/// A provider budget was set. What was spent stays.
#[derive(Debug, PartialEq, Eq)]
pub struct ProviderBudgetSet {
    pub period: ProviderBudgetPeriod,
    pub limit_micros: u64,
    pub alert_threshold_percent: Option<u32>,
    pub budget_id: String,
    pub tenant_id: String,
}

impl ProviderBudgetSet {
    /// The alert threshold: the one given, or the usual one.
    pub open spec fn threshold(self) -> u32 {
        match self.alert_threshold_percent {
            Some(percent) => percent,
            None => DEFAULT_BUDGET_ALERT_THRESHOLD_PERCENT,
        }
    }

    /// What the event writes.
    pub open spec fn writes(self, at: Moment) -> Planned {
        if self.limit_micros > i64::MAX {
            Planned::Refused(
                ErrorView::exceeds(
                    "ProviderBudgetSet.limit_micros"@,
                    self.limit_micros as nat,
                    "i64::MAX"@,
                ),
            )
        } else if self.threshold() > i32::MAX {
            Planned::Refused(
                ErrorView::exceeds_integer_column(
                    "ProviderBudgetSet.alert_threshold_percent"@,
                    self.threshold() as nat,
                ),
            )
        } else {
            Planned::Writes(
                seq![
                    RowView::new()
                        .put(Column::BudgetId, ValueView::Text(self.budget_id@))
                        .put(Column::TenantId, ValueView::Text(self.tenant_id@))
                        .put(Column::Period, ValueView::Text(self.period.spec_name()))
                        .put(Column::LimitMicros, ValueView::Int8(self.limit_micros as i64))
                        .put(
                            Column::AlertThresholdPercent,
                            ValueView::Int4(self.threshold() as i32),
                        )
                        .put(Column::CurrentSpendMicros, ValueView::Int8(0))
                        .put(Column::AlertTriggeredAtMs, ValueView::Null(SqlType::Int8))
                        .put(Column::ExceededAtMs, ValueView::Null(SqlType::Int8))
                        .put(Column::CreatedAt, ValueView::Int8(at.now))
                        .put(Column::UpdatedAt, ValueView::Int8(at.now))
                        .upsert(
                            Table::ProviderBudgets,
                            seq![Column::BudgetId],
                            ChangesView::new()
                                .excluded(Column::TenantId)
                                .excluded(Column::Period)
                                .excluded(Column::LimitMicros)
                                .excluded(Column::AlertThresholdPercent)
                                .excluded(Column::UpdatedAt),
                        ),
                ],
            )
        }
    }

    /// Plans what the event writes.
    pub fn plan(&self, at: &Moment) -> (r: Result<Vec<Statement>, StoreError>)
        ensures
            Planned::of(r) == self.writes(*at),
    {
        let limit_i64: i64 = match fits_i64("ProviderBudgetSet.limit_micros", self.limit_micros) {
            Ok(v) => v,
            Err(e) => return Err(e),
        };
        let percent: u32 = match self.alert_threshold_percent {
            Some(v) => v,
            None => DEFAULT_BUDGET_ALERT_THRESHOLD_PERCENT,
        };
        let threshold: i32 = match i32_from_u32(
            "ProviderBudgetSet.alert_threshold_percent",
            percent,
        ) {
            Ok(v) => v,
            Err(e) => return Err(e),
        };
        let mut row = Cells::new();
        row.put(Column::BudgetId, text(&self.budget_id));
        row.put(Column::TenantId, text(&self.tenant_id));
        row.put(Column::Period, text(self.period.name()));
        row.put(Column::LimitMicros, SqlValue::Int8(limit_i64));
        row.put(Column::AlertThresholdPercent, SqlValue::Int4(threshold));
        row.put(Column::CurrentSpendMicros, SqlValue::Int8(0));
        row.put(Column::AlertTriggeredAtMs, SqlValue::Null(SqlType::Int8));
        row.put(Column::ExceededAtMs, SqlValue::Null(SqlType::Int8));
        row.put(Column::CreatedAt, SqlValue::Int8(at.now));
        row.put(Column::UpdatedAt, SqlValue::Int8(at.now));
        let mut changes = Changes::new();
        changes.excluded(Column::TenantId);
        changes.excluded(Column::Period);
        changes.excluded(Column::LimitMicros);
        changes.excluded(Column::AlertThresholdPercent);
        changes.excluded(Column::UpdatedAt);
        one(row.upsert(Table::ProviderBudgets, only(Column::BudgetId), changes))
    }
}

/// A provider budget reached its alert threshold.
#[derive(Debug, PartialEq, Eq)]
pub struct ProviderBudgetAlertTriggered {
    pub triggered_at_ms: u64,
    pub current_micros: u64,
    pub budget_id: String,
}

impl ProviderBudgetAlertTriggered {
    /// What the event writes.
    pub open spec fn writes(self, at: Moment) -> Planned {
        if self.triggered_at_ms > i64::MAX {
            Planned::Refused(
                ErrorView::exceeds(
                    "ProviderBudgetAlertTriggered.triggered_at_ms"@,
                    self.triggered_at_ms as nat,
                    "i64::MAX"@,
                ),
            )
        } else if self.current_micros > i64::MAX {
            Planned::Refused(
                ErrorView::exceeds(
                    "ProviderBudgetAlertTriggered.current_micros"@,
                    self.current_micros as nat,
                    "i64::MAX"@,
                ),
            )
        } else {
            Planned::Writes(
                seq![
                    ChangesView::new()
                        .put(
                            Column::CurrentSpendMicros,
                            ValueView::Int8(self.current_micros as i64),
                        )
                        .put(
                            Column::AlertTriggeredAtMs,
                            ValueView::Int8(self.triggered_at_ms as i64),
                        )
                        .put(Column::UpdatedAt, ValueView::Int8(self.triggered_at_ms as i64))
                        .update(
                            Table::ProviderBudgets,
                            FilterView::new()
                                .equals(Column::BudgetId, ValueView::Text(self.budget_id@)),
                        ),
                ],
            )
        }
    }

    /// Plans what the event writes.
    pub fn plan(&self, at: &Moment) -> (r: Result<Vec<Statement>, StoreError>)
        ensures
            Planned::of(r) == self.writes(*at),
    {
        let triggered_at: i64 = match fits_i64(
            "ProviderBudgetAlertTriggered.triggered_at_ms",
            self.triggered_at_ms,
        ) {
            Ok(v) => v,
            Err(e) => return Err(e),
        };
        let current: i64 = match fits_i64(
            "ProviderBudgetAlertTriggered.current_micros",
            self.current_micros,
        ) {
            Ok(v) => v,
            Err(e) => return Err(e),
        };
        let mut changes = Changes::new();
        changes.put(Column::CurrentSpendMicros, SqlValue::Int8(current));
        changes.put(Column::AlertTriggeredAtMs, SqlValue::Int8(triggered_at));
        changes.put(Column::UpdatedAt, SqlValue::Int8(triggered_at));
        let mut filter = Filter::new();
        filter.equals(Column::BudgetId, text(&self.budget_id));
        one(changes.update(Table::ProviderBudgets, filter))
    }
}

/// A provider budget was exceeded. The first time it was exceeded stays.
#[derive(Debug, PartialEq, Eq)]
pub struct ProviderBudgetExceeded {
    pub exceeded_at_ms: u64,
    pub exceeded_by_micros: u64,
    pub budget_id: String,
}

impl ProviderBudgetExceeded {
    /// What the event writes.
    pub open spec fn writes(self, at: Moment) -> Planned {
        if self.exceeded_at_ms > i64::MAX {
            Planned::Refused(
                ErrorView::exceeds(
                    "ProviderBudgetExceeded.exceeded_at_ms"@,
                    self.exceeded_at_ms as nat,
                    "i64::MAX"@,
                ),
            )
        } else if self.exceeded_by_micros > i64::MAX {
            Planned::Refused(
                ErrorView::exceeds(
                    "ProviderBudgetExceeded.exceeded_by_micros"@,
                    self.exceeded_by_micros as nat,
                    "i64::MAX"@,
                ),
            )
        } else {
            Planned::Writes(
                seq![
                    ChangesView::new()
                        .source(
                            Column::CurrentSpendMicros,
                            SourceView::ColumnPlus(
                                Column::LimitMicros,
                                ValueView::Int8(self.exceeded_by_micros as i64),
                            ),
                        )
                        .source(
                            Column::ExceededAtMs,
                            SourceView::StoredOrValue(ValueView::Int8(self.exceeded_at_ms as i64)),
                        )
                        .put(Column::UpdatedAt, ValueView::Int8(self.exceeded_at_ms as i64))
                        .update(
                            Table::ProviderBudgets,
                            FilterView::new()
                                .equals(Column::BudgetId, ValueView::Text(self.budget_id@)),
                        ),
                ],
            )
        }
    }

    /// Plans what the event writes.
    pub fn plan(&self, at: &Moment) -> (r: Result<Vec<Statement>, StoreError>)
        ensures
            Planned::of(r) == self.writes(*at),
    {
        let exceeded_at: i64 = match fits_i64(
            "ProviderBudgetExceeded.exceeded_at_ms",
            self.exceeded_at_ms,
        ) {
            Ok(v) => v,
            Err(e) => return Err(e),
        };
        let over: i64 = match fits_i64(
            "ProviderBudgetExceeded.exceeded_by_micros",
            self.exceeded_by_micros,
        ) {
            Ok(v) => v,
            Err(e) => return Err(e),
        };
        let mut changes = Changes::new();
        changes.source(
            Column::CurrentSpendMicros,
            Source::ColumnPlus(Column::LimitMicros, SqlValue::Int8(over)),
        );
        changes.source(Column::ExceededAtMs, Source::StoredOrValue(SqlValue::Int8(exceeded_at)));
        changes.put(Column::UpdatedAt, SqlValue::Int8(exceeded_at));
        let mut filter = Filter::new();
        filter.equals(Column::BudgetId, text(&self.budget_id));
        one(changes.update(Table::ProviderBudgets, filter))
    }
}

/// A provider binding was created or changed. Whether it is active does not change.
#[derive(Debug, PartialEq, Eq)]
pub struct ProviderBindingCreated {
    pub created_at: u64,
    pub operation_kind: OperationKind,
    pub settings_json: String,
    pub provider_binding_id: String,
    pub project: ProjectKey,
    pub provider_connection_id: String,
    pub provider_model_id: String,
    pub active: bool,
}

impl ProviderBindingCreated {
    /// What the event writes.
    pub open spec fn writes(self, at: Moment) -> Planned {
        if self.created_at > i64::MAX {
            Planned::Refused(
                ErrorView::exceeds(
                    "ProviderBindingCreated.created_at"@,
                    self.created_at as nat,
                    "i64::MAX"@,
                ),
            )
        } else {
            Planned::Writes(
                seq![
                    RowView::new()
                        .put(Column::ProviderBindingId, ValueView::Text(self.provider_binding_id@))
                        .put(Column::TenantId, ValueView::Text(self.project.tenant_id@))
                        .put(Column::WorkspaceId, ValueView::Text(self.project.workspace_id@))
                        .put(Column::ProjectId, ValueView::Text(self.project.project_id@))
                        .put(
                            Column::ProviderConnectionId,
                            ValueView::Text(self.provider_connection_id@),
                        )
                        .put(Column::ProviderModelId, ValueView::Text(self.provider_model_id@))
                        .put(
                            Column::OperationKind,
                            ValueView::Text(self.operation_kind.spec_name()),
                        )
                        .put(Column::SettingsJson, ValueView::Text(self.settings_json@))
                        .put(Column::Active, ValueView::Bool(self.active))
                        .put(Column::CreatedAt, ValueView::Int8(self.created_at as i64))
                        .upsert(
                            Table::ProviderBindings,
                            seq![Column::ProviderBindingId],
                            ChangesView::new()
                                .excluded(Column::ProviderConnectionId)
                                .excluded(Column::ProviderModelId)
                                .excluded(Column::OperationKind)
                                .excluded(Column::SettingsJson),
                        ),
                ],
            )
        }
    }

    /// Plans what the event writes.
    pub fn plan(&self, at: &Moment) -> (r: Result<Vec<Statement>, StoreError>)
        ensures
            Planned::of(r) == self.writes(*at),
    {
        let created_at: i64 = match fits_i64("ProviderBindingCreated.created_at", self.created_at) {
            Ok(v) => v,
            Err(e) => return Err(e),
        };
        let mut row = Cells::new();
        row.put(Column::ProviderBindingId, text(&self.provider_binding_id));
        row.put(Column::TenantId, text(&self.project.tenant_id));
        row.put(Column::WorkspaceId, text(&self.project.workspace_id));
        row.put(Column::ProjectId, text(&self.project.project_id));
        row.put(Column::ProviderConnectionId, text(&self.provider_connection_id));
        row.put(Column::ProviderModelId, text(&self.provider_model_id));
        row.put(Column::OperationKind, text(self.operation_kind.name()));
        row.put(Column::SettingsJson, text(&self.settings_json));
        row.put(Column::Active, SqlValue::Bool(self.active));
        row.put(Column::CreatedAt, SqlValue::Int8(created_at));
        let mut changes = Changes::new();
        changes.excluded(Column::ProviderConnectionId);
        changes.excluded(Column::ProviderModelId);
        changes.excluded(Column::OperationKind);
        changes.excluded(Column::SettingsJson);
        one(row.upsert(Table::ProviderBindings, only(Column::ProviderBindingId), changes))
    }
}

/// A provider binding was switched on or off.
#[derive(Debug, PartialEq, Eq)]
pub struct ProviderBindingStateChanged {
    pub provider_binding_id: String,
    pub active: bool,
}

impl ProviderBindingStateChanged {
    /// What the event writes.
    pub open spec fn writes(self, at: Moment) -> Planned {
        Planned::Writes(
            seq![
                ChangesView::new()
                    .put(Column::Active, ValueView::Bool(self.active))
                    .update(
                        Table::ProviderBindings,
                        FilterView::new()
                            .equals(
                                Column::ProviderBindingId,
                                ValueView::Text(self.provider_binding_id@),
                            ),
                    ),
            ],
        )
    }

    /// Plans what the event writes.
    pub fn plan(&self, at: &Moment) -> (r: Result<Vec<Statement>, StoreError>)
        ensures
            Planned::of(r) == self.writes(*at),
    {
        let mut changes = Changes::new();
        changes.put(Column::Active, SqlValue::Bool(self.active));
        let mut filter = Filter::new();
        filter.equals(Column::ProviderBindingId, text(&self.provider_binding_id));
        one(changes.update(Table::ProviderBindings, filter))
    }
}

/// A provider connection was registered or changed.
#[derive(Debug, PartialEq, Eq)]
pub struct ProviderConnectionRegistered {
    pub registered_at: u64,
    pub status: ProviderConnectionStatus,
    pub supported_models: Vec<String>,
    pub provider_connection_id: String,
    pub tenant_id: String,
    pub provider_family: String,
    pub adapter_type: String,
}

impl ProviderConnectionRegistered {
    /// What the event writes.
    pub open spec fn writes(self, at: Moment) -> Planned {
        if self.registered_at > i64::MAX {
            Planned::Refused(
                ErrorView::exceeds(
                    "ProviderConnectionRegistered.registered_at"@,
                    self.registered_at as nat,
                    "i64::MAX"@,
                ),
            )
        } else {
            Planned::Writes(
                seq![
                    RowView::new()
                        .put(
                            Column::ProviderConnectionId,
                            ValueView::Text(self.provider_connection_id@),
                        )
                        .put(Column::TenantId, ValueView::Text(self.tenant_id@))
                        .put(Column::ProviderFamily, ValueView::Text(self.provider_family@))
                        .put(Column::AdapterType, ValueView::Text(self.adapter_type@))
                        .put(
                            Column::SupportedModelsJson,
                            ValueView::Text(
                                crate::json::strings_as_json(self.supported_models.deep_view()),
                            ),
                        )
                        .put(Column::Status, ValueView::Text(self.status.spec_name()))
                        .put(Column::CreatedAt, ValueView::Int8(self.registered_at as i64))
                        .upsert(
                            Table::ProviderConnections,
                            seq![Column::ProviderConnectionId],
                            ChangesView::new()
                                .excluded(Column::ProviderFamily)
                                .excluded(Column::AdapterType)
                                .excluded(Column::SupportedModelsJson)
                                .excluded(Column::Status),
                        ),
                ],
            )
        }
    }

    /// Plans what the event writes.
    pub fn plan(&self, at: &Moment) -> (r: Result<Vec<Statement>, StoreError>)
        ensures
            Planned::of(r) == self.writes(*at),
            r is Ok ==> crate::json::keeps(self.supported_models.deep_view()),
    {
        let registered_at: i64 = match fits_i64(
            "ProviderConnectionRegistered.registered_at",
            self.registered_at,
        ) {
            Ok(v) => v,
            Err(e) => return Err(e),
        };
        let supported_models_json: String = match encode_strings(&self.supported_models) {
            Ok(t) => t,
            Err(m) => return Err(StoreError::Serialization(m)),
        };
        let mut row = Cells::new();
        row.put(Column::ProviderConnectionId, text(&self.provider_connection_id));
        row.put(Column::TenantId, text(&self.tenant_id));
        row.put(Column::ProviderFamily, text(&self.provider_family));
        row.put(Column::AdapterType, text(&self.adapter_type));
        row.put(Column::SupportedModelsJson, SqlValue::Text(supported_models_json));
        row.put(Column::Status, text(self.status.name()));
        row.put(Column::CreatedAt, SqlValue::Int8(registered_at));
        let mut changes = Changes::new();
        changes.excluded(Column::ProviderFamily);
        changes.excluded(Column::AdapterType);
        changes.excluded(Column::SupportedModelsJson);
        changes.excluded(Column::Status);
        one(row.upsert(Table::ProviderConnections, only(Column::ProviderConnectionId), changes))
    }
}

/// A provider connection was deleted.
#[derive(Debug, PartialEq, Eq)]
pub struct ProviderConnectionDeleted {
    pub provider_connection_id: String,
}

impl ProviderConnectionDeleted {
    /// What the event writes.
    pub open spec fn writes(self, at: Moment) -> Planned {
        Planned::Writes(
            seq![
                FilterView::new()
                    .equals(
                        Column::ProviderConnectionId,
                        ValueView::Text(self.provider_connection_id@),
                    )
                    .delete(Table::ProviderConnections),
            ],
        )
    }

    /// Plans what the event writes.
    pub fn plan(&self, at: &Moment) -> (r: Result<Vec<Statement>, StoreError>)
        ensures
            Planned::of(r) == self.writes(*at),
    {
        let mut filter = Filter::new();
        filter.equals(Column::ProviderConnectionId, text(&self.provider_connection_id));
        one(filter.delete(Table::ProviderConnections))
    }
}

/// A route policy was created or replaced.
#[derive(Debug, PartialEq, Eq)]
pub struct RoutePolicyCreated {
    pub rules_json: String,
    pub policy_id: String,
    pub tenant_id: String,
    pub name: String,
    pub enabled: bool,
}

impl RoutePolicyCreated {
    /// What the event writes.
    pub open spec fn writes(self, at: Moment) -> Planned {
        Planned::Writes(
            seq![
                RowView::new()
                    .put(Column::PolicyId, ValueView::Text(self.policy_id@))
                    .put(Column::TenantId, ValueView::Text(self.tenant_id@))
                    .put(Column::Name, ValueView::Text(self.name@))
                    .put(Column::Rules, ValueView::Json(self.rules_json@))
                    .put(Column::Enabled, ValueView::Bool(self.enabled))
                    .put(Column::CreatedAt, ValueView::Int8(at.now))
                    .put(Column::UpdatedAt, ValueView::Int8(at.now))
                    .upsert(
                        Table::RoutePolicies,
                        seq![Column::PolicyId],
                        ChangesView::new()
                            .excluded(Column::Name)
                            .excluded(Column::Rules)
                            .excluded(Column::Enabled)
                            .excluded(Column::UpdatedAt),
                    ),
            ],
        )
    }

    /// Plans what the event writes.
    pub fn plan(&self, at: &Moment) -> (r: Result<Vec<Statement>, StoreError>)
        ensures
            Planned::of(r) == self.writes(*at),
    {
        let mut row = Cells::new();
        row.put(Column::PolicyId, text(&self.policy_id));
        row.put(Column::TenantId, text(&self.tenant_id));
        row.put(Column::Name, text(&self.name));
        row.put(Column::Rules, json(&self.rules_json));
        row.put(Column::Enabled, SqlValue::Bool(self.enabled));
        row.put(Column::CreatedAt, SqlValue::Int8(at.now));
        row.put(Column::UpdatedAt, SqlValue::Int8(at.now));
        let mut changes = Changes::new();
        changes.excluded(Column::Name);
        changes.excluded(Column::Rules);
        changes.excluded(Column::Enabled);
        changes.excluded(Column::UpdatedAt);
        one(row.upsert(Table::RoutePolicies, only(Column::PolicyId), changes))
    }
}

/// A route policy was touched.
#[derive(Debug, PartialEq, Eq)]
pub struct RoutePolicyUpdated {
    pub updated_at_ms: u64,
    pub policy_id: String,
}

impl RoutePolicyUpdated {
    /// What the event writes.
    pub open spec fn writes(self, at: Moment) -> Planned {
        if self.updated_at_ms > i64::MAX {
            Planned::Refused(
                ErrorView::exceeds(
                    "RoutePolicyUpdated.updated_at_ms"@,
                    self.updated_at_ms as nat,
                    "i64::MAX"@,
                ),
            )
        } else {
            Planned::Writes(
                seq![
                    ChangesView::new()
                        .put(Column::UpdatedAt, ValueView::Int8(self.updated_at_ms as i64))
                        .update(
                            Table::RoutePolicies,
                            FilterView::new()
                                .equals(Column::PolicyId, ValueView::Text(self.policy_id@)),
                        ),
                ],
            )
        }
    }

    /// Plans what the event writes.
    pub fn plan(&self, at: &Moment) -> (r: Result<Vec<Statement>, StoreError>)
        ensures
            Planned::of(r) == self.writes(*at),
    {
        let updated_at: i64 = match fits_i64(
            "RoutePolicyUpdated.updated_at_ms",
            self.updated_at_ms,
        ) {
            Ok(v) => v,
            Err(e) => return Err(e),
        };
        let mut changes = Changes::new();
        changes.put(Column::UpdatedAt, SqlValue::Int8(updated_at));
        let mut filter = Filter::new();
        filter.equals(Column::PolicyId, text(&self.policy_id));
        one(changes.update(Table::RoutePolicies, filter))
    }
}

/// A route was chosen among the providers.
#[derive(Debug, PartialEq, Eq)]
pub struct RouteDecisionMade {
    pub operation_kind: OperationKind,
    pub route_decision_id: String,
    pub project: ProjectKey,
    pub selected_provider_binding_id: Option<String>,
    pub attempt_count: u32,
    pub fallback_used: bool,
    pub final_status: String,
    pub decided_at: u64,
}

impl RouteDecisionMade {
    /// What the event writes.
    pub open spec fn writes(self, at: Moment) -> Planned {
        Planned::Writes(
            seq![
                RowView::new()
                    .put(Column::RouteDecisionId, ValueView::Text(self.route_decision_id@))
                    .put(Column::TenantId, ValueView::Text(self.project.tenant_id@))
                    .put(Column::WorkspaceId, ValueView::Text(self.project.workspace_id@))
                    .put(Column::ProjectId, ValueView::Text(self.project.project_id@))
                    .put(Column::OperationKind, ValueView::Text(self.operation_kind.spec_name()))
                    .put(Column::RoutePolicyId, ValueView::Null(SqlType::Text))
                    .put(Column::TerminalRouteAttemptId, ValueView::Null(SqlType::Text))
                    .put(
                        Column::SelectedProviderBindingId,
                        ValueView::opt_text(self.selected_provider_binding_id),
                    )
                    .put(Column::SelectedRouteAttemptId, ValueView::Null(SqlType::Text))
                    .put(Column::SelectorContext, ValueView::Null(SqlType::Json))
                    .put(Column::AttemptCount, ValueView::Int4(self.attempt_count as i32))
                    .put(Column::FallbackUsed, ValueView::Bool(self.fallback_used))
                    .put(Column::FinalStatus, ValueView::Text(self.final_status@))
                    .put(Column::CreatedAt, ValueView::Int8(self.decided_at as i64))
                    .insert_new(Table::RouteDecisions, seq![Column::RouteDecisionId]),
            ],
        )
    }

    /// Plans what the event writes.
    pub fn plan(&self, at: &Moment) -> (r: Result<Vec<Statement>, StoreError>)
        ensures
            Planned::of(r) == self.writes(*at),
    {
        let mut row = Cells::new();
        row.put(Column::RouteDecisionId, text(&self.route_decision_id));
        row.put(Column::TenantId, text(&self.project.tenant_id));
        row.put(Column::WorkspaceId, text(&self.project.workspace_id));
        row.put(Column::ProjectId, text(&self.project.project_id));
        row.put(Column::OperationKind, text(self.operation_kind.name()));
        row.put(Column::RoutePolicyId, SqlValue::Null(SqlType::Text));
        row.put(Column::TerminalRouteAttemptId, SqlValue::Null(SqlType::Text));
        row.put(Column::SelectedProviderBindingId, opt_text(&self.selected_provider_binding_id));
        row.put(Column::SelectedRouteAttemptId, SqlValue::Null(SqlType::Text));
        row.put(Column::SelectorContext, SqlValue::Null(SqlType::Json));
        row.put(Column::AttemptCount, SqlValue::Int4(self.attempt_count as i32));
        row.put(Column::FallbackUsed, SqlValue::Bool(self.fallback_used));
        row.put(Column::FinalStatus, text(&self.final_status));
        row.put(Column::CreatedAt, SqlValue::Int8(self.decided_at as i64));
        one(row.insert_new(Table::RouteDecisions, only(Column::RouteDecisionId)))
    }
}

/// A provider call completed. What it cost is added to the totals of its
/// session, which is the one named or the one stored for its run.
#[derive(Debug, PartialEq, Eq)]
pub struct ProviderCallCompleted {
    pub provider_call_id: String,
    pub route_decision_id: String,
    pub route_attempt_id: String,
    pub project: ProjectKey,
    pub operation_kind: OperationKind,
    pub provider_binding_id: String,
    pub provider_connection_id: String,
    pub provider_model_id: String,
    pub session_id: Option<String>,
    pub task_id: Option<String>,
    pub run_id: Option<String>,
    pub prompt_release_id: Option<String>,
    pub fallback_position: u32,
    /// The name of the call's status.
    pub status: String,
    pub latency_ms: Option<u64>,
    pub started_at: u64,
    pub finished_at: u64,
    pub input_tokens: Option<u32>,
    pub output_tokens: Option<u32>,
    pub cost_micros: Option<u64>,
    pub error_class: Option<String>,
    pub raw_error_message: Option<String>,
    pub retry_count: u32,
    pub completed_at: u64,
}

/// A number, or zero where there is none.
pub open spec fn or_zero(v: Option<u32>) -> u32 {
    match v {
        Some(n) => n,
        None => 0,
    }
}

impl ProviderCallCompleted {
    /// How long the call took: as measured, else from its start to its finish,
    /// where both are known.
    pub open spec fn latency(self) -> Option<u64> {
        match self.latency_ms {
            Some(v) => Some(v),
            None => if self.started_at > 0 && self.finished_at >= self.started_at {
                Some((self.finished_at - self.started_at) as u64)
            } else {
                None
            },
        }
    }

    /// The call itself.
    pub open spec fn call_row(self) -> StatementView {
        RowView::new()
            .put(Column::ProviderCallId, ValueView::Text(self.provider_call_id@))
            .put(Column::RouteDecisionId, ValueView::Text(self.route_decision_id@))
            .put(Column::RouteAttemptId, ValueView::Text(self.route_attempt_id@))
            .put(Column::TenantId, ValueView::Text(self.project.tenant_id@))
            .put(Column::WorkspaceId, ValueView::Text(self.project.workspace_id@))
            .put(Column::ProjectId, ValueView::Text(self.project.project_id@))
            .put(Column::OperationKind, ValueView::Text(self.operation_kind.spec_name()))
            .put(Column::ProviderBindingId, ValueView::Text(self.provider_binding_id@))
            .put(Column::ProviderConnectionId, ValueView::Text(self.provider_connection_id@))
            .put(Column::ProviderAdapter, ValueView::Text(""@))
            .put(Column::ProviderModelId, ValueView::Text(self.provider_model_id@))
            .put(Column::TaskId, ValueView::opt_text(self.task_id))
            .put(Column::RunId, ValueView::opt_text(self.run_id))
            .put(Column::PromptReleaseId, ValueView::opt_text(self.prompt_release_id))
            .put(Column::FallbackPosition, ValueView::Int4(self.fallback_position as i32))
            .put(Column::Status, ValueView::Text(self.status@))
            .put(Column::LatencyMs, ValueView::opt_bits8(self.latency()))
            .put(Column::InputTokens, ValueView::opt_bits4(self.input_tokens))
            .put(Column::OutputTokens, ValueView::opt_bits4(self.output_tokens))
            .put(Column::CostMicros, ValueView::opt_bits8(self.cost_micros))
            .put(Column::ErrorClass, ValueView::opt_text(self.error_class))
            .put(Column::RawErrorMessage, ValueView::opt_text(self.raw_error_message))
            .put(Column::RetryCount, ValueView::Int4(self.retry_count as i32))
            .put(Column::CreatedAt, ValueView::Int8(self.completed_at as i64))
            .insert_new(Table::ProviderCalls, seq![Column::ProviderCallId])
    }

    /// The session that pays for the call, if there is one.
    pub open spec fn paying_session(self, found: Found) -> Option<String> {
        match self.session_id {
            Some(s) => Some(s),
            None => match self.run_id {
                Some(_) => found.session_id,
                None => None,
            },
        }
    }

    /// What the call costs the session.
    pub open spec fn cost(self, session_id: String) -> SessionCostUpdated {
        SessionCostUpdated {
            session_id,
            tenant_id: self.project.tenant_id,
            project: self.project,
            delta_cost_micros: match self.cost_micros {
                Some(v) => v,
                None => 0,
            },
            delta_tokens_in: or_zero(self.input_tokens) as u64,
            delta_tokens_out: or_zero(self.output_tokens) as u64,
            updated_at_ms: self.completed_at,
        }
    }

    /// What the event writes.
    pub open spec fn writes(self, found: Found) -> Planned {
        match self.paying_session(found) {
            None => Planned::Writes(seq![self.call_row()]),
            Some(session_id) => match self.cost(session_id).writes() {
                Planned::Writes(rollups) => Planned::Writes(seq![self.call_row()] + rollups),
                Planned::Refused(e) => Planned::Refused(e),
            },
        }
    }

    fn plan_call_row(&self) -> (r: Statement)
        ensures
            r@ == self.call_row(),
    {
        let latency: Option<u64> = match self.latency_ms {
            Some(v) => Some(v),
            None => if self.started_at > 0 && self.finished_at >= self.started_at {
                Some(self.finished_at - self.started_at)
            } else {
                None
            },
        };
        let mut row = Cells::new();
        row.put(Column::ProviderCallId, text(&self.provider_call_id));
        row.put(Column::RouteDecisionId, text(&self.route_decision_id));
        row.put(Column::RouteAttemptId, text(&self.route_attempt_id));
        row.put(Column::TenantId, text(&self.project.tenant_id));
        row.put(Column::WorkspaceId, text(&self.project.workspace_id));
        row.put(Column::ProjectId, text(&self.project.project_id));
        row.put(Column::OperationKind, text(self.operation_kind.name()));
        row.put(Column::ProviderBindingId, text(&self.provider_binding_id));
        row.put(Column::ProviderConnectionId, text(&self.provider_connection_id));
        row.put(Column::ProviderAdapter, text(""));
        row.put(Column::ProviderModelId, text(&self.provider_model_id));
        row.put(Column::TaskId, opt_text(&self.task_id));
        row.put(Column::RunId, opt_text(&self.run_id));
        row.put(Column::PromptReleaseId, opt_text(&self.prompt_release_id));
        row.put(Column::FallbackPosition, SqlValue::Int4(self.fallback_position as i32));
        row.put(Column::Status, text(&self.status));
        row.put(Column::LatencyMs, opt_bits8(latency));
        row.put(Column::InputTokens, opt_bits4(self.input_tokens));
        row.put(Column::OutputTokens, opt_bits4(self.output_tokens));
        row.put(Column::CostMicros, opt_bits8(self.cost_micros));
        row.put(Column::ErrorClass, opt_text(&self.error_class));
        row.put(Column::RawErrorMessage, opt_text(&self.raw_error_message));
        row.put(Column::RetryCount, SqlValue::Int4(self.retry_count as i32));
        row.put(Column::CreatedAt, SqlValue::Int8(self.completed_at as i64));
        row.insert_new(Table::ProviderCalls, only(Column::ProviderCallId))
    }

    /// Plans what the event writes.
    pub fn plan(&self, found: &Found) -> (r: Result<Vec<Statement>, StoreError>)
        ensures
            Planned::of(r) == self.writes(*found),
    {
        let call = self.plan_call_row();
        let session = match &self.session_id {
            Some(s) => Some(s),
            None => match &self.run_id {
                Some(_) => match &found.session_id {
                    Some(s) => Some(s),
                    None => None,
                },
                None => None,
            },
        };
        let session_id: String = match session {
            Some(s) => s.clone(),
            None => return one(call),
        };
        let cost = SessionCostUpdated {
            session_id,
            tenant_id: self.project.tenant_id.clone(),
            project: self.project.clone(),
            delta_cost_micros: match self.cost_micros {
                Some(v) => v,
                None => 0,
            },
            delta_tokens_in: match self.input_tokens {
                Some(v) => v as u64,
                None => 0,
            },
            delta_tokens_out: match self.output_tokens {
                Some(v) => v as u64,
                None => 0,
            },
            updated_at_ms: self.completed_at,
        };
        let ghost expected = self.cost(session_id);
        assert(cost.writes() == expected.writes());
        let rollups = match cost.plan() {
            Ok(v) => v,
            Err(e) => return Err(e),
        };
        let mut out: Vec<Statement> = Vec::new();
        out.push(call);
        let mut rest = rollups;
        out.append(&mut rest);
        assert(StatementView::all(out@) =~= seq![call@] + StatementView::all(rollups@));
        Ok(out)
    }
}

} // verus!
