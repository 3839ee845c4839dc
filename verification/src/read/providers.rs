//! Providers, routes and costs.

use crate::domain::{DomainNames, ProjectKey, ProjectView};
use crate::error::{ErrorView, StoreError};
use crate::json::{decode_strings, quote};
use crate::model::Datum;
use crate::query::{Output, OutputView, Query, QueryView};
use crate::read::{Decoded, StoredRow, to_floor4, to_floor8};
use crate::schema::{Column, Table};
use crate::statement::{Test, TestView};
use crate::value::{SqlValue, ValueView, text};
use crate::vocabulary::{OperationKind, ProviderBudgetPeriod, ProviderConnectionStatus};
use vstd::prelude::*;
use vstd::string::*;

verus! {

/// A row of `provider_connections`.
#[derive(Debug, PartialEq, Eq)]
pub struct ProviderConnectionRow {
    pub provider_connection_id: String,
    pub tenant_id: String,
    pub provider_family: String,
    pub adapter_type: String,
    pub supported_models_json: String,
    pub status: String,
    pub created_at: i64,
}

/// A connection to a provider.
#[derive(Debug, PartialEq, Eq)]
pub struct ProviderConnectionRecord {
    pub provider_connection_id: String,
    pub tenant_id: String,
    pub provider_family: String,
    pub adapter_type: String,
    pub supported_models: Vec<String>,
    pub status: ProviderConnectionStatus,
    pub created_at: u64,
}

impl ProviderConnectionRow {
    /// The columns that the row is read from.
    pub open spec fn spec_columns() -> Seq<Column> {
        seq![
            Column::ProviderConnectionId,
            Column::TenantId,
            Column::ProviderFamily,
            Column::AdapterType,
            Column::SupportedModelsJson,
            Column::Status,
            Column::CreatedAt,
        ]
    }

    fn columns() -> (r: Vec<Column>)
        ensures
            r@ == Self::spec_columns(),
    {
        vec![
            Column::ProviderConnectionId,
            Column::TenantId,
            Column::ProviderFamily,
            Column::AdapterType,
            Column::SupportedModelsJson,
            Column::Status,
            Column::CreatedAt,
        ]
    }

    /// Whether this is what a stored row holds in those columns.
    pub open spec fn is_of(self, row: crate::model::Row) -> bool {
        &&& crate::model::value(row, Column::ProviderConnectionId) == Datum::Text(
            self.provider_connection_id@,
        )
        &&& crate::model::value(row, Column::TenantId) == Datum::Text(self.tenant_id@)
        &&& crate::model::value(row, Column::ProviderFamily) == Datum::Text(self.provider_family@)
        &&& crate::model::value(row, Column::AdapterType) == Datum::Text(self.adapter_type@)
        &&& crate::model::value(row, Column::SupportedModelsJson) == Datum::Text(
            self.supported_models_json@,
        )
        &&& crate::model::value(row, Column::Status) == Datum::Text(self.status@)
        &&& crate::model::value(row, Column::CreatedAt) == Datum::Int(self.created_at as int)
    }

    /// The query of [`ProviderConnectionRow::get`].
    pub open spec fn spec_get(provider_connection_id: Seq<char>) -> QueryView {
        QueryView::on(Table::ProviderConnections, OutputView::Rows(Self::spec_columns()))
            .equals(Column::ProviderConnectionId, ValueView::Text(provider_connection_id))
    }

    /// Finds a connection.
    pub fn get(provider_connection_id: &str) -> (r: Query)
        ensures
            r@ == Self::spec_get(provider_connection_id@),
    {
        Query::on(Table::ProviderConnections, Output::Rows(Self::columns()))
            .equals(Column::ProviderConnectionId, text(provider_connection_id))
    }

    /// The query of [`ProviderConnectionRow::list_by_tenant`].
    pub open spec fn spec_list_by_tenant(
        tenant_id: Seq<char>,
        limit: usize,
        offset: usize,
    ) -> QueryView {
        QueryView::on(Table::ProviderConnections, OutputView::Rows(Self::spec_columns()))
            .equals(Column::TenantId, ValueView::Text(tenant_id))
            .ascending(Column::CreatedAt)
            .ascending(Column::ProviderConnectionId)
            .limit(limit as i64)
            .offset(offset as i64)
    }

    /// The connections of a tenant, the oldest first.
    pub fn list_by_tenant(tenant_id: &str, limit: usize, offset: usize) -> (r: Query)
        ensures
            r@ == Self::spec_list_by_tenant(tenant_id@, limit, offset),
    {
        Query::on(Table::ProviderConnections, Output::Rows(Self::columns()))
            .equals(Column::TenantId, text(tenant_id))
            .ascending(Column::CreatedAt)
            .ascending(Column::ProviderConnectionId)
            .limit(limit as i64)
            .offset(offset as i64)
    }
}

impl StoredRow for ProviderConnectionRow {
    type Record = ProviderConnectionRecord;

    open spec fn fault(&self, names: &DomainNames) -> Option<ErrorView> {
        if ProviderConnectionStatus::spec_parse(self.status@) is None {
            Some(
                ErrorView::Internal(
                    "provider_connections.status: unknown value "@ + crate::json::quoted(
                        self.status@,
                    ),
                ),
            )
        } else if crate::json::json_as_strings(self.supported_models_json@) is Err {
            Some(
                ErrorView::Internal(
                    "provider_connections.supported_models_json parse error: "@
                        + crate::json::json_as_strings(self.supported_models_json@)->Err_0,
                ),
            )
        } else {
            None
        }
    }

    open spec fn holds(&self, names: &DomainNames, record: &ProviderConnectionRecord) -> bool {
        &&& record.provider_connection_id == self.provider_connection_id
        &&& record.tenant_id == self.tenant_id
        &&& record.provider_family == self.provider_family
        &&& record.adapter_type == self.adapter_type
        &&& crate::json::json_as_strings(self.supported_models_json@)
            == Ok::<Seq<Seq<char>>, Seq<char>>(record.supported_models.deep_view())
        &&& ProviderConnectionStatus::spec_parse(self.status@) == Some(record.status)
        &&& record.created_at == crate::read::floor8(self.created_at)
    }

    fn into_record(self, names: &DomainNames) -> (r: Result<ProviderConnectionRecord, StoreError>) {
        let status = match ProviderConnectionStatus::parse(&self.status) {
            Some(v) => v,
            None => {
                let mut message: String = "provider_connections.status: unknown value ".to_owned();
                message.append(&quote(&self.status));
                return Err(StoreError::Internal(message));
            },
        };
        let supported_models = match decode_strings(&self.supported_models_json) {
            Ok(v) => v,
            Err(m) => {
                let mut message: String =
                    "provider_connections.supported_models_json parse error: ".to_owned();
                message.append(&m);
                return Err(StoreError::Internal(message));
            },
        };
        Ok(
            ProviderConnectionRecord {
                provider_connection_id: self.provider_connection_id,
                tenant_id: self.tenant_id,
                provider_family: self.provider_family,
                adapter_type: self.adapter_type,
                supported_models,
                status,
                created_at: to_floor8(self.created_at),
            },
        )
    }
}

/// A row of `provider_bindings`.
#[derive(Debug, PartialEq, Eq)]
pub struct ProviderBindingRow {
    pub provider_binding_id: String,
    pub tenant_id: String,
    pub workspace_id: String,
    pub project_id: String,
    pub provider_connection_id: String,
    pub provider_model_id: String,
    pub operation_kind: String,
    pub settings: Decoded,
    pub active: bool,
    pub created_at: i64,
}

/// A model that a project uses for an operation. The settings are a JSON text.
#[derive(Debug, PartialEq, Eq)]
pub struct ProviderBindingRecord {
    pub provider_binding_id: String,
    pub project: ProjectKey,
    pub provider_connection_id: String,
    pub provider_model_id: String,
    pub operation_kind: OperationKind,
    pub settings: String,
    pub active: bool,
    pub created_at: u64,
}

impl ProviderBindingRow {
    /// The columns that the row is read from.
    pub open spec fn spec_columns() -> Seq<Column> {
        seq![
            Column::ProviderBindingId,
            Column::TenantId,
            Column::WorkspaceId,
            Column::ProjectId,
            Column::ProviderConnectionId,
            Column::ProviderModelId,
            Column::OperationKind,
            Column::SettingsJson,
            Column::Active,
            Column::CreatedAt,
        ]
    }

    fn columns() -> (r: Vec<Column>)
        ensures
            r@ == Self::spec_columns(),
    {
        vec![
            Column::ProviderBindingId,
            Column::TenantId,
            Column::WorkspaceId,
            Column::ProjectId,
            Column::ProviderConnectionId,
            Column::ProviderModelId,
            Column::OperationKind,
            Column::SettingsJson,
            Column::Active,
            Column::CreatedAt,
        ]
    }

    /// Whether this is what a stored row holds in those columns.
    pub open spec fn is_of(self, row: crate::model::Row) -> bool {
        &&& crate::model::value(row, Column::ProviderBindingId) == Datum::Text(
            self.provider_binding_id@,
        )
        &&& crate::model::value(row, Column::TenantId) == Datum::Text(self.tenant_id@)
        &&& crate::model::value(row, Column::WorkspaceId) == Datum::Text(self.workspace_id@)
        &&& crate::model::value(row, Column::ProjectId) == Datum::Text(self.project_id@)
        &&& crate::model::value(row, Column::ProviderConnectionId) == Datum::Text(
            self.provider_connection_id@,
        )
        &&& crate::model::value(row, Column::ProviderModelId) == Datum::Text(
            self.provider_model_id@,
        )
        &&& crate::model::value(row, Column::OperationKind) == Datum::Text(self.operation_kind@)
        &&& crate::model::value(row, Column::SettingsJson) == Datum::Text(self.settings.text@)
        &&& crate::model::value(row, Column::Active) == Datum::Bool(self.active)
        &&& crate::model::value(row, Column::CreatedAt) == Datum::Int(self.created_at as int)
    }

    /// The query of [`ProviderBindingRow::get`].
    pub open spec fn spec_get(provider_binding_id: Seq<char>) -> QueryView {
        QueryView::on(Table::ProviderBindings, OutputView::Rows(Self::spec_columns()))
            .equals(Column::ProviderBindingId, ValueView::Text(provider_binding_id))
    }

    /// Finds a binding.
    pub fn get(provider_binding_id: &str) -> (r: Query)
        ensures
            r@ == Self::spec_get(provider_binding_id@),
    {
        Query::on(Table::ProviderBindings, Output::Rows(Self::columns()))
            .equals(Column::ProviderBindingId, text(provider_binding_id))
    }

    /// The query of [`ProviderBindingRow::list_by_project`].
    pub open spec fn spec_list_by_project(
        project: ProjectView,
        limit: usize,
        offset: usize,
    ) -> QueryView {
        QueryView::on(Table::ProviderBindings, OutputView::Rows(Self::spec_columns()))
            .equals(Column::TenantId, ValueView::Text(project.tenant_id))
            .equals(Column::WorkspaceId, ValueView::Text(project.workspace_id))
            .equals(Column::ProjectId, ValueView::Text(project.project_id))
            .ascending(Column::CreatedAt)
            .ascending(Column::ProviderBindingId)
            .limit(limit as i64)
            .offset(offset as i64)
    }

    /// The bindings of a project, the oldest first.
    pub fn list_by_project(project: &ProjectKey, limit: usize, offset: usize) -> (r: Query)
        ensures
            r@ == Self::spec_list_by_project(project@, limit, offset),
            r@.stays_in(Column::WorkspaceId, project@),
    {
        let query = Query::on(Table::ProviderBindings, Output::Rows(Self::columns()))
            .equals(Column::TenantId, text(&project.tenant_id))
            .equals(Column::WorkspaceId, text(&project.workspace_id))
            .equals(Column::ProjectId, text(&project.project_id))
            .ascending(Column::CreatedAt)
            .ascending(Column::ProviderBindingId)
            .limit(limit as i64)
            .offset(offset as i64);
        proof {
            query@.tests_keep_to_a_project(0, Column::WorkspaceId, project@);
        }
        query
    }

    /// The query of [`ProviderBindingRow::list_by_tenant`].
    pub open spec fn spec_list_by_tenant(
        tenant_id: Seq<char>,
        limit: usize,
        offset: usize,
    ) -> QueryView {
        QueryView::on(Table::ProviderBindings, OutputView::Rows(Self::spec_columns()))
            .equals(Column::TenantId, ValueView::Text(tenant_id))
            .ascending(Column::CreatedAt)
            .ascending(Column::ProviderBindingId)
            .limit(limit as i64)
            .offset(offset as i64)
    }

    /// The bindings of a tenant, the oldest first.
    pub fn list_by_tenant(tenant_id: &str, limit: usize, offset: usize) -> (r: Query)
        ensures
            r@ == Self::spec_list_by_tenant(tenant_id@, limit, offset),
    {
        Query::on(Table::ProviderBindings, Output::Rows(Self::columns()))
            .equals(Column::TenantId, text(tenant_id))
            .ascending(Column::CreatedAt)
            .ascending(Column::ProviderBindingId)
            .limit(limit as i64)
            .offset(offset as i64)
    }

    /// The query of [`ProviderBindingRow::list_active`].
    pub open spec fn spec_list_active(project: ProjectView, operation: OperationKind) -> QueryView {
        QueryView::on(Table::ProviderBindings, OutputView::Rows(Self::spec_columns()))
            .equals(Column::TenantId, ValueView::Text(project.tenant_id))
            .equals(Column::WorkspaceId, ValueView::Text(project.workspace_id))
            .equals(Column::ProjectId, ValueView::Text(project.project_id))
            .equals(Column::Active, ValueView::Bool(true))
            .equals(Column::OperationKind, ValueView::Text(operation.spec_name()))
            .ascending(Column::CreatedAt)
            .ascending(Column::ProviderBindingId)
    }

    /// The active bindings of a project for an operation, the oldest first.
    pub fn list_active(project: &ProjectKey, operation: OperationKind) -> (r: Query)
        ensures
            r@ == Self::spec_list_active(project@, operation),
            r@.stays_in(Column::WorkspaceId, project@),
    {
        let query = Query::on(Table::ProviderBindings, Output::Rows(Self::columns()))
            .equals(Column::TenantId, text(&project.tenant_id))
            .equals(Column::WorkspaceId, text(&project.workspace_id))
            .equals(Column::ProjectId, text(&project.project_id))
            .equals(Column::Active, SqlValue::Bool(true))
            .equals(Column::OperationKind, text(operation.name()))
            .ascending(Column::CreatedAt)
            .ascending(Column::ProviderBindingId);
        proof {
            query@.tests_keep_to_a_project(0, Column::WorkspaceId, project@);
        }
        query
    }
}

impl StoredRow for ProviderBindingRow {
    type Record = ProviderBindingRecord;

    open spec fn fault(&self, names: &DomainNames) -> Option<ErrorView> {
        if OperationKind::spec_parse(self.operation_kind@) is None {
            Some(
                ErrorView::Internal(
                    "provider_bindings.operation_kind: unknown value "@ + crate::json::quoted(
                        self.operation_kind@,
                    ),
                ),
            )
        } else if self.settings.fault is Some {
            Some(
                ErrorView::Internal(
                    "provider_bindings.settings_json parse error: "@ + self.settings.fault->Some_0@,
                ),
            )
        } else {
            None
        }
    }

    open spec fn holds(&self, names: &DomainNames, record: &ProviderBindingRecord) -> bool {
        &&& record.provider_binding_id == self.provider_binding_id
        &&& record.project == (ProjectKey {
            tenant_id: self.tenant_id,
            workspace_id: self.workspace_id,
            project_id: self.project_id,
        })
        &&& record.provider_connection_id == self.provider_connection_id
        &&& record.provider_model_id == self.provider_model_id
        &&& OperationKind::spec_parse(self.operation_kind@) == Some(record.operation_kind)
        &&& record.settings == self.settings.text
        &&& record.active == self.active
        &&& record.created_at == crate::read::floor8(self.created_at)
    }

    fn into_record(self, names: &DomainNames) -> (r: Result<ProviderBindingRecord, StoreError>) {
        let operation_kind = match OperationKind::parse(&self.operation_kind) {
            Some(v) => v,
            None => {
                let mut message: String =
                    "provider_bindings.operation_kind: unknown value ".to_owned();
                message.append(&quote(&self.operation_kind));
                return Err(StoreError::Internal(message));
            },
        };
        if let Some(m) = &self.settings.fault {
            let mut message: String = "provider_bindings.settings_json parse error: ".to_owned();
            message.append(m);
            return Err(StoreError::Internal(message));
        }
        Ok(
            ProviderBindingRecord {
                provider_binding_id: self.provider_binding_id,
                project: ProjectKey {
                    tenant_id: self.tenant_id,
                    workspace_id: self.workspace_id,
                    project_id: self.project_id,
                },
                provider_connection_id: self.provider_connection_id,
                provider_model_id: self.provider_model_id,
                operation_kind,
                settings: self.settings.text,
                active: self.active,
                created_at: to_floor8(self.created_at),
            },
        )
    }
}

/// A row of `provider_budgets`.
#[derive(Debug, PartialEq, Eq)]
pub struct ProviderBudgetRow {
    pub tenant_id: String,
    pub period: String,
    pub limit_micros: i64,
    pub alert_threshold_percent: i32,
    pub current_spend_micros: i64,
    pub created_at: i64,
    pub updated_at: i64,
}

/// What a tenant may spend in a period.
#[derive(Debug, PartialEq, Eq)]
pub struct ProviderBudget {
    pub tenant_id: String,
    pub period: ProviderBudgetPeriod,
    pub limit_micros: u64,
    pub alert_threshold_percent: u32,
    pub current_spend_micros: u64,
    pub created_at: u64,
    pub updated_at: u64,
}

impl ProviderBudgetRow {
    /// The columns that the row is read from.
    pub open spec fn spec_columns() -> Seq<Column> {
        seq![
            Column::TenantId,
            Column::Period,
            Column::LimitMicros,
            Column::AlertThresholdPercent,
            Column::CurrentSpendMicros,
            Column::CreatedAt,
            Column::UpdatedAt,
        ]
    }

    fn columns() -> (r: Vec<Column>)
        ensures
            r@ == Self::spec_columns(),
    {
        vec![
            Column::TenantId,
            Column::Period,
            Column::LimitMicros,
            Column::AlertThresholdPercent,
            Column::CurrentSpendMicros,
            Column::CreatedAt,
            Column::UpdatedAt,
        ]
    }

    /// Whether this is what a stored row holds in those columns.
    pub open spec fn is_of(self, row: crate::model::Row) -> bool {
        &&& crate::model::value(row, Column::TenantId) == Datum::Text(self.tenant_id@)
        &&& crate::model::value(row, Column::Period) == Datum::Text(self.period@)
        &&& crate::model::value(row, Column::LimitMicros) == Datum::Int(self.limit_micros as int)
        &&& crate::model::value(row, Column::AlertThresholdPercent) == Datum::Int(
            self.alert_threshold_percent as int,
        )
        &&& crate::model::value(row, Column::CurrentSpendMicros) == Datum::Int(
            self.current_spend_micros as int,
        )
        &&& crate::model::value(row, Column::CreatedAt) == Datum::Int(self.created_at as int)
        &&& crate::model::value(row, Column::UpdatedAt) == Datum::Int(self.updated_at as int)
    }

    /// The query of [`ProviderBudgetRow::get_by_tenant_period`].
    pub open spec fn spec_get_by_tenant_period(
        tenant_id: Seq<char>,
        period: ProviderBudgetPeriod,
    ) -> QueryView {
        QueryView::on(Table::ProviderBudgets, OutputView::Rows(Self::spec_columns()))
            .equals(Column::TenantId, ValueView::Text(tenant_id))
            .equals(Column::Period, ValueView::Text(period.spec_name()))
            .ascending(Column::CreatedAt)
            .ascending(Column::LimitMicros)
            .limit(1)
    }

    /// Finds the first budget of a tenant for a period.
    pub fn get_by_tenant_period(tenant_id: &str, period: ProviderBudgetPeriod) -> (r: Query)
        ensures
            r@ == Self::spec_get_by_tenant_period(tenant_id@, period),
    {
        Query::on(Table::ProviderBudgets, Output::Rows(Self::columns()))
            .equals(Column::TenantId, text(tenant_id))
            .equals(Column::Period, text(period.name()))
            .ascending(Column::CreatedAt)
            .ascending(Column::LimitMicros)
            .limit(1)
    }

    /// The query of [`ProviderBudgetRow::list_by_tenant`].
    pub open spec fn spec_list_by_tenant(tenant_id: Seq<char>) -> QueryView {
        QueryView::on(Table::ProviderBudgets, OutputView::Rows(Self::spec_columns()))
            .equals(Column::TenantId, ValueView::Text(tenant_id))
            .ascending(Column::CreatedAt)
            .ascending(Column::Period)
    }

    /// The budgets of a tenant, the oldest first.
    pub fn list_by_tenant(tenant_id: &str) -> (r: Query)
        ensures
            r@ == Self::spec_list_by_tenant(tenant_id@),
    {
        Query::on(Table::ProviderBudgets, Output::Rows(Self::columns()))
            .equals(Column::TenantId, text(tenant_id))
            .ascending(Column::CreatedAt)
            .ascending(Column::Period)
    }
}

impl StoredRow for ProviderBudgetRow {
    type Record = ProviderBudget;

    open spec fn fault(&self, names: &DomainNames) -> Option<ErrorView> {
        if ProviderBudgetPeriod::spec_parse(self.period@) is None {
            Some(
                ErrorView::Internal(
                    "provider_budgets.period: unknown value "@ + crate::json::quoted(self.period@),
                ),
            )
        } else {
            None
        }
    }

    open spec fn holds(&self, names: &DomainNames, record: &ProviderBudget) -> bool {
        &&& record.tenant_id == self.tenant_id
        &&& ProviderBudgetPeriod::spec_parse(self.period@) == Some(record.period)
        &&& record.limit_micros == crate::read::floor8(self.limit_micros)
        &&& record.alert_threshold_percent == crate::read::floor4(self.alert_threshold_percent)
        &&& record.current_spend_micros == crate::read::floor8(self.current_spend_micros)
        &&& record.created_at == crate::read::floor8(self.created_at)
        &&& record.updated_at == crate::read::floor8(self.updated_at)
    }

    fn into_record(self, names: &DomainNames) -> (r: Result<ProviderBudget, StoreError>) {
        let period = match ProviderBudgetPeriod::parse(&self.period) {
            Some(v) => v,
            None => {
                let mut message: String = "provider_budgets.period: unknown value ".to_owned();
                message.append(&quote(&self.period));
                return Err(StoreError::Internal(message));
            },
        };
        Ok(
            ProviderBudget {
                tenant_id: self.tenant_id,
                period,
                limit_micros: to_floor8(self.limit_micros),
                alert_threshold_percent: to_floor4(self.alert_threshold_percent),
                current_spend_micros: to_floor8(self.current_spend_micros),
                created_at: to_floor8(self.created_at),
                updated_at: to_floor8(self.updated_at),
            },
        )
    }
}

/// A row of `route_policies`.
#[derive(Debug, PartialEq, Eq)]
pub struct RoutePolicyRow {
    pub policy_id: String,
    pub tenant_id: String,
    pub name: String,
    pub rules: Decoded,
    pub enabled: bool,
    pub created_at: i64,
    pub updated_at: i64,
}

/// How calls are routed. The rules are a JSON text.
#[derive(Debug, PartialEq, Eq)]
pub struct RoutePolicy {
    pub policy_id: String,
    pub name: String,
    pub enabled: bool,
    pub tenant_id: String,
    pub rules: String,
    pub updated_at_ms: u64,
}

impl RoutePolicyRow {
    /// The columns that the row is read from.
    pub open spec fn spec_columns() -> Seq<Column> {
        seq![
            Column::PolicyId,
            Column::TenantId,
            Column::Name,
            Column::Rules,
            Column::Enabled,
            Column::CreatedAt,
            Column::UpdatedAt,
        ]
    }

    fn columns() -> (r: Vec<Column>)
        ensures
            r@ == Self::spec_columns(),
    {
        vec![
            Column::PolicyId,
            Column::TenantId,
            Column::Name,
            Column::Rules,
            Column::Enabled,
            Column::CreatedAt,
            Column::UpdatedAt,
        ]
    }

    /// Whether this is what a stored row holds in those columns.
    pub open spec fn is_of(self, row: crate::model::Row) -> bool {
        &&& crate::model::value(row, Column::PolicyId) == Datum::Text(self.policy_id@)
        &&& crate::model::value(row, Column::TenantId) == Datum::Text(self.tenant_id@)
        &&& crate::model::value(row, Column::Name) == Datum::Text(self.name@)
        &&& crate::model::value(row, Column::Rules) == Datum::Json(self.rules.text@)
        &&& crate::model::value(row, Column::Enabled) == Datum::Bool(self.enabled)
        &&& crate::model::value(row, Column::CreatedAt) == Datum::Int(self.created_at as int)
        &&& crate::model::value(row, Column::UpdatedAt) == Datum::Int(self.updated_at as int)
    }

    /// The query of [`RoutePolicyRow::get`].
    pub open spec fn spec_get(policy_id: Seq<char>) -> QueryView {
        QueryView::on(Table::RoutePolicies, OutputView::Rows(Self::spec_columns()))
            .equals(Column::PolicyId, ValueView::Text(policy_id))
    }

    /// Finds a policy.
    pub fn get(policy_id: &str) -> (r: Query)
        ensures
            r@ == Self::spec_get(policy_id@),
    {
        Query::on(Table::RoutePolicies, Output::Rows(Self::columns()))
            .equals(Column::PolicyId, text(policy_id))
    }

    /// The query of [`RoutePolicyRow::list_by_tenant`].
    pub open spec fn spec_list_by_tenant(
        tenant_id: Seq<char>,
        limit: usize,
        offset: usize,
    ) -> QueryView {
        QueryView::on(Table::RoutePolicies, OutputView::Rows(Self::spec_columns()))
            .equals(Column::TenantId, ValueView::Text(tenant_id))
            .equals(Column::Enabled, ValueView::Bool(true))
            .ascending(Column::PolicyId)
            .limit(limit as i64)
            .offset(offset as i64)
    }

    /// The enabled policies of a tenant, by id.
    pub fn list_by_tenant(tenant_id: &str, limit: usize, offset: usize) -> (r: Query)
        ensures
            r@ == Self::spec_list_by_tenant(tenant_id@, limit, offset),
    {
        Query::on(Table::RoutePolicies, Output::Rows(Self::columns()))
            .equals(Column::TenantId, text(tenant_id))
            .equals(Column::Enabled, SqlValue::Bool(true))
            .ascending(Column::PolicyId)
            .limit(limit as i64)
            .offset(offset as i64)
    }
}

impl StoredRow for RoutePolicyRow {
    type Record = RoutePolicy;

    open spec fn fault(&self, names: &DomainNames) -> Option<ErrorView> {
        if self.rules.fault is Some {
            Some(
                ErrorView::Serialization(
                    "route_policies.rules decode for policy_id="@ + self.policy_id@ + ": "@
                        + self.rules.fault->Some_0@,
                ),
            )
        } else {
            None
        }
    }

    open spec fn holds(&self, names: &DomainNames, record: &RoutePolicy) -> bool {
        &&& record.policy_id == self.policy_id
        &&& record.name == self.name
        &&& record.enabled == self.enabled
        &&& record.tenant_id == self.tenant_id
        &&& record.rules == self.rules.text
        &&& record.updated_at_ms == crate::read::floor8(self.updated_at)
    }

    fn into_record(self, names: &DomainNames) -> (r: Result<RoutePolicy, StoreError>) {
        if let Some(m) = &self.rules.fault {
            let mut message: String = "route_policies.rules decode for policy_id=".to_owned();
            message.append(&self.policy_id);
            message.append(": ");
            message.append(m);
            return Err(StoreError::Serialization(message));
        }
        Ok(
            RoutePolicy {
                policy_id: self.policy_id,
                name: self.name,
                enabled: self.enabled,
                tenant_id: self.tenant_id,
                rules: self.rules.text,
                updated_at_ms: to_floor8(self.updated_at),
            },
        )
    }
}

/// A row of `run_costs`.
#[derive(Debug, PartialEq, Eq)]
pub struct RunCostRow {
    pub run_id: String,
    pub total_cost_micros: i64,
    pub total_tokens_in: i64,
    pub total_tokens_out: i64,
    pub provider_calls: i64,
    pub updated_at_ms: i64,
}

/// What a run cost.
#[derive(Debug, PartialEq, Eq)]
pub struct RunCostRecord {
    pub run_id: String,
    pub total_cost_micros: u64,
    pub total_tokens_in: u64,
    pub total_tokens_out: u64,
    pub provider_calls: u64,
    pub token_in: u64,
    pub token_out: u64,
}

impl RunCostRow {
    /// The columns that the row is read from.
    pub open spec fn spec_columns() -> Seq<Column> {
        seq![
            Column::RunId,
            Column::TotalCostMicros,
            Column::TotalTokensIn,
            Column::TotalTokensOut,
            Column::ProviderCalls,
            Column::UpdatedAtMs,
        ]
    }

    fn columns() -> (r: Vec<Column>)
        ensures
            r@ == Self::spec_columns(),
    {
        vec![
            Column::RunId,
            Column::TotalCostMicros,
            Column::TotalTokensIn,
            Column::TotalTokensOut,
            Column::ProviderCalls,
            Column::UpdatedAtMs,
        ]
    }

    /// Whether this is what a stored row holds in those columns.
    pub open spec fn is_of(self, row: crate::model::Row) -> bool {
        &&& crate::model::value(row, Column::RunId) == Datum::Text(self.run_id@)
        &&& crate::model::value(row, Column::TotalCostMicros) == Datum::Int(
            self.total_cost_micros as int,
        )
        &&& crate::model::value(row, Column::TotalTokensIn) == Datum::Int(
            self.total_tokens_in as int,
        )
        &&& crate::model::value(row, Column::TotalTokensOut) == Datum::Int(
            self.total_tokens_out as int,
        )
        &&& crate::model::value(row, Column::ProviderCalls) == Datum::Int(
            self.provider_calls as int,
        )
        &&& crate::model::value(row, Column::UpdatedAtMs) == Datum::Int(self.updated_at_ms as int)
    }

    /// The query of [`RunCostRow::get_run_cost`].
    pub open spec fn spec_get_run_cost(run_id: Seq<char>) -> QueryView {
        QueryView::on(Table::RunCosts, OutputView::Rows(Self::spec_columns()))
            .equals(Column::RunId, ValueView::Text(run_id))
    }

    /// Finds what a run cost.
    pub fn get_run_cost(run_id: &str) -> (r: Query)
        ensures
            r@ == Self::spec_get_run_cost(run_id@),
    {
        Query::on(Table::RunCosts, Output::Rows(Self::columns()))
            .equals(Column::RunId, text(run_id))
    }

    /// The query of [`RunCostRow::list_by_session`].
    pub open spec fn spec_list_by_session(session_id: Seq<char>) -> QueryView {
        QueryView::on(Table::RunCosts, OutputView::Rows(Self::spec_columns()))
            .test(TestView::RunOfSession(session_id))
            .descending(Column::UpdatedAtMs)
            .ascending(Column::RunId)
    }

    /// What the runs of a session cost, the last changed first.
    pub fn list_by_session(session_id: &str) -> (r: Query)
        ensures
            r@ == Self::spec_list_by_session(session_id@),
    {
        Query::on(Table::RunCosts, Output::Rows(Self::columns()))
            .test(Test::RunOfSession(session_id.to_owned()))
            .descending(Column::UpdatedAtMs)
            .ascending(Column::RunId)
    }
}

impl StoredRow for RunCostRow {
    type Record = RunCostRecord;

    open spec fn fault(&self, names: &DomainNames) -> Option<ErrorView> {
        None
    }

    open spec fn holds(&self, names: &DomainNames, record: &RunCostRecord) -> bool {
        &&& record.run_id == self.run_id
        &&& record.total_cost_micros == crate::read::floor8(self.total_cost_micros)
        &&& record.total_tokens_in == crate::read::floor8(self.total_tokens_in)
        &&& record.total_tokens_out == crate::read::floor8(self.total_tokens_out)
        &&& record.provider_calls == crate::read::floor8(self.provider_calls)
        &&& record.token_in == crate::read::floor8(self.total_tokens_in)
        &&& record.token_out == crate::read::floor8(self.total_tokens_out)
    }

    fn into_record(self, names: &DomainNames) -> (r: Result<RunCostRecord, StoreError>) {
        Ok(
            RunCostRecord {
                run_id: self.run_id,
                total_cost_micros: to_floor8(self.total_cost_micros),
                total_tokens_in: to_floor8(self.total_tokens_in),
                total_tokens_out: to_floor8(self.total_tokens_out),
                provider_calls: to_floor8(self.provider_calls),
                token_in: to_floor8(self.total_tokens_in),
                token_out: to_floor8(self.total_tokens_out),
            },
        )
    }
}

/// A row of `run_cost_alerts`.
#[derive(Debug, PartialEq, Eq)]
pub struct RunCostAlertRow {
    pub run_id: String,
    pub tenant_id: String,
    pub threshold_micros: i64,
    pub triggered_at_ms: i64,
    pub actual_cost_micros: i64,
    pub set_at_ms: i64,
}

/// The alert on what a run costs.
#[derive(Debug, PartialEq, Eq)]
pub struct RunCostAlert {
    pub run_id: String,
    pub tenant_id: String,
    pub threshold_micros: u64,
    pub triggered_at_ms: u64,
    pub actual_cost_micros: u64,
}

impl RunCostAlertRow {
    /// The columns that the row is read from.
    pub open spec fn spec_columns() -> Seq<Column> {
        seq![
            Column::RunId,
            Column::TenantId,
            Column::ThresholdMicros,
            Column::TriggeredAtMs,
            Column::ActualCostMicros,
            Column::SetAtMs,
        ]
    }

    fn columns() -> (r: Vec<Column>)
        ensures
            r@ == Self::spec_columns(),
    {
        vec![
            Column::RunId,
            Column::TenantId,
            Column::ThresholdMicros,
            Column::TriggeredAtMs,
            Column::ActualCostMicros,
            Column::SetAtMs,
        ]
    }

    /// Whether this is what a stored row holds in those columns.
    pub open spec fn is_of(self, row: crate::model::Row) -> bool {
        &&& crate::model::value(row, Column::RunId) == Datum::Text(self.run_id@)
        &&& crate::model::value(row, Column::TenantId) == Datum::Text(self.tenant_id@)
        &&& crate::model::value(row, Column::ThresholdMicros) == Datum::Int(
            self.threshold_micros as int,
        )
        &&& crate::model::value(row, Column::TriggeredAtMs) == Datum::Int(
            self.triggered_at_ms as int,
        )
        &&& crate::model::value(row, Column::ActualCostMicros) == Datum::Int(
            self.actual_cost_micros as int,
        )
        &&& crate::model::value(row, Column::SetAtMs) == Datum::Int(self.set_at_ms as int)
    }

    /// The query of [`RunCostAlertRow::get_alert`].
    pub open spec fn spec_get_alert(run_id: Seq<char>) -> QueryView {
        QueryView::on(Table::RunCostAlerts, OutputView::Rows(Self::spec_columns()))
            .equals(Column::RunId, ValueView::Text(run_id))
    }

    /// Finds the alert of a run.
    pub fn get_alert(run_id: &str) -> (r: Query)
        ensures
            r@ == Self::spec_get_alert(run_id@),
    {
        Query::on(Table::RunCostAlerts, Output::Rows(Self::columns()))
            .equals(Column::RunId, text(run_id))
    }

    /// The query of [`RunCostAlertRow::list_triggered_by_tenant`].
    pub open spec fn spec_list_triggered_by_tenant(
        tenant_id: Seq<char>,
        limit: usize,
        offset: usize,
    ) -> QueryView {
        QueryView::on(Table::RunCostAlerts, OutputView::Rows(Self::spec_columns()))
            .equals(Column::TenantId, ValueView::Text(tenant_id))
            .test(TestView::Above(Column::TriggeredAtMs, ValueView::Int8(0)))
            .descending(Column::TriggeredAtMs)
            .ascending(Column::RunId)
            .limit(limit as i64)
            .offset(offset as i64)
    }

    /// The alerts of a tenant that went off, the newest first.
    pub fn list_triggered_by_tenant(tenant_id: &str, limit: usize, offset: usize) -> (r: Query)
        ensures
            r@ == Self::spec_list_triggered_by_tenant(tenant_id@, limit, offset),
    {
        Query::on(Table::RunCostAlerts, Output::Rows(Self::columns()))
            .equals(Column::TenantId, text(tenant_id))
            .test(Test::Above(Column::TriggeredAtMs, SqlValue::Int8(0)))
            .descending(Column::TriggeredAtMs)
            .ascending(Column::RunId)
            .limit(limit as i64)
            .offset(offset as i64)
    }
}

impl StoredRow for RunCostAlertRow {
    type Record = RunCostAlert;

    open spec fn fault(&self, names: &DomainNames) -> Option<ErrorView> {
        None
    }

    open spec fn holds(&self, names: &DomainNames, record: &RunCostAlert) -> bool {
        &&& record.run_id == self.run_id
        &&& record.tenant_id == self.tenant_id
        &&& record.threshold_micros == crate::read::floor8(self.threshold_micros)
        &&& record.triggered_at_ms == crate::read::floor8(self.triggered_at_ms)
        &&& record.actual_cost_micros == crate::read::floor8(self.actual_cost_micros)
    }

    fn into_record(self, names: &DomainNames) -> (r: Result<RunCostAlert, StoreError>) {
        Ok(
            RunCostAlert {
                run_id: self.run_id,
                tenant_id: self.tenant_id,
                threshold_micros: to_floor8(self.threshold_micros),
                triggered_at_ms: to_floor8(self.triggered_at_ms),
                actual_cost_micros: to_floor8(self.actual_cost_micros),
            },
        )
    }
}

} // verus!
