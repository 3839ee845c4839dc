//! What the queries select: tenants.

use crate::laws::finding::group_queries;
use crate::model::{Database, Datum, Row};
use crate::query::{Order, OutputView};
use crate::read::tenants::{
    CredentialRotationRow, CredentialRow, DefaultSettingRow, EntitlementOverrideRow, LicenseRow,
    OperatorProfileRow, OperatorTenantRoleRow, QuotaViolationRow, ResourceShareRow,
    RetentionPolicyRow, TenantQuotaRow,
};
use crate::schema::{Column, Table};
use crate::vocabulary::Scope;
use vstd::prelude::*;

verus! {

/// The rows that [`CredentialRow::get`] selects, and in which order.
pub proof fn credential_row_get_selects(db: Database, row: Row, credential_id: Seq<char>)
    ensures
        ({
            let query = CredentialRow::spec_get(credential_id);
            &&& query.table == Table::Credentials
            &&& query.output == OutputView::Rows(CredentialRow::spec_columns())
            &&& query.selects(db, row)
                <==> crate::model::value(row, Column::CredentialId) == Datum::Text(credential_id)
            &&& query.order.len() == 0
            &&& query.limit == None::<i64>
            &&& query.offset == None::<i64>
        }),
{
    broadcast use group_queries;
}

/// The rows that [`CredentialRow::list_by_tenant`] selects, and in which order.
pub proof fn credential_row_list_by_tenant_selects(
    db: Database,
    row: Row,
    tenant_id: Seq<char>,
    limit: usize,
    offset: usize,
)
    ensures
        ({
            let query = CredentialRow::spec_list_by_tenant(tenant_id, limit, offset);
            &&& query.table == Table::Credentials
            &&& query.output == OutputView::Rows(CredentialRow::spec_columns())
            &&& query.selects(db, row)
                <==> crate::model::value(row, Column::TenantId) == Datum::Text(tenant_id)
            &&& query.order.len() == 2
            &&& query.order[0] == Order::Ascending(Column::CreatedAt)
            &&& query.order[1] == Order::Ascending(Column::CredentialId)
            &&& query.limit == Some(limit as i64)
            &&& query.offset == Some(offset as i64)
        }),
{
    broadcast use group_queries;
}

/// The rows that [`CredentialRow::list_all_active`] selects, and in which order.
pub proof fn credential_row_list_all_active_selects(db: Database, row: Row, limit: usize)
    ensures
        ({
            let query = CredentialRow::spec_list_all_active(limit);
            &&& query.table == Table::Credentials
            &&& query.output == OutputView::Rows(CredentialRow::spec_columns())
            &&& query.selects(db, row)
                <==> crate::model::value(row, Column::Active) == Datum::Bool(true)
            &&& query.order.len() == 2
            &&& query.order[0] == Order::Ascending(Column::CreatedAt)
            &&& query.order[1] == Order::Ascending(Column::CredentialId)
            &&& query.limit == Some(limit as i64)
            &&& query.offset == None::<i64>
        }),
{
    broadcast use group_queries;
}

/// The rows that [`CredentialRotationRow::list_rotations`] selects, and in which order.
pub proof fn credential_rotation_row_list_rotations_selects(
    db: Database,
    row: Row,
    tenant_id: Seq<char>,
)
    ensures
        ({
            let query = CredentialRotationRow::spec_list_rotations(tenant_id);
            &&& query.table == Table::CredentialRotations
            &&& query.output == OutputView::Rows(CredentialRotationRow::spec_columns())
            &&& query.selects(db, row)
                <==> crate::model::value(row, Column::TenantId) == Datum::Text(tenant_id)
            &&& query.order.len() == 2
            &&& query.order[0] == Order::Ascending(Column::RotatedAt)
            &&& query.order[1] == Order::Ascending(Column::RotationId)
            &&& query.limit == None::<i64>
            &&& query.offset == None::<i64>
        }),
{
    broadcast use group_queries;
}

/// The rows that [`TenantQuotaRow::get_quota`] selects, and in which order.
pub proof fn tenant_quota_row_get_quota_selects(db: Database, row: Row, tenant_id: Seq<char>)
    ensures
        ({
            let query = TenantQuotaRow::spec_get_quota(tenant_id);
            &&& query.table == Table::TenantQuotas
            &&& query.output == OutputView::Rows(TenantQuotaRow::spec_columns())
            &&& query.selects(db, row)
                <==> crate::model::value(row, Column::TenantId) == Datum::Text(tenant_id)
            &&& query.order.len() == 0
            &&& query.limit == None::<i64>
            &&& query.offset == None::<i64>
        }),
{
    broadcast use group_queries;
}

/// The rows that [`TenantQuotaRow::active_runs`] selects, and in which order.
pub proof fn tenant_quota_row_active_runs_selects(db: Database, row: Row, tenant_id: Seq<char>)
    ensures
        ({
            let query = TenantQuotaRow::spec_active_runs(tenant_id);
            &&& query.table == Table::Runs
            &&& query.output == OutputView::Count
            &&& query.selects(db, row)
                <==> crate::model::value(row, Column::TenantId) == Datum::Text(tenant_id)
                && crate::model::value(row, Column::State) != Datum::Null
                && crate::model::value(row, Column::State) != Datum::Text("completed"@)
                && crate::model::value(row, Column::State) != Datum::Text("failed"@)
                && crate::model::value(row, Column::State) != Datum::Text("canceled"@)
                && crate::model::value(row, Column::State) != Datum::Text("dead_lettered"@)
            &&& query.order.len() == 0
            &&& query.limit == None::<i64>
            &&& query.offset == None::<i64>
        }),
{
    broadcast use group_queries;

    crate::laws::selecting::none_of_closed_states(db, row, Column::State);
}

/// The rows that [`TenantQuotaRow::sessions`] selects, and in which order.
pub proof fn tenant_quota_row_sessions_selects(db: Database, row: Row, tenant_id: Seq<char>)
    ensures
        ({
            let query = TenantQuotaRow::spec_sessions(tenant_id);
            &&& query.table == Table::Sessions
            &&& query.output == OutputView::Count
            &&& query.selects(db, row)
                <==> crate::model::value(row, Column::TenantId) == Datum::Text(tenant_id)
            &&& query.order.len() == 0
            &&& query.limit == None::<i64>
            &&& query.offset == None::<i64>
        }),
{
    broadcast use group_queries;
}

/// The rows that [`QuotaViolationRow::list_violations`] selects, and in which order.
pub proof fn quota_violation_row_list_violations_selects(
    db: Database,
    row: Row,
    tenant_id: Seq<char>,
    limit: usize,
)
    ensures
        ({
            let query = QuotaViolationRow::spec_list_violations(tenant_id, limit);
            &&& query.table == Table::TenantQuotaViolations
            &&& query.output == OutputView::Rows(QuotaViolationRow::spec_columns())
            &&& query.selects(db, row)
                <==> crate::model::value(row, Column::TenantId) == Datum::Text(tenant_id)
            &&& query.order.len() == 2
            &&& query.order[0] == Order::Descending(Column::OccurredAtMs)
            &&& query.order[1] == Order::Ascending(Column::QuotaType)
            &&& query.limit == Some(limit as i64)
            &&& query.offset == None::<i64>
        }),
{
    broadcast use group_queries;
}

/// The rows that [`LicenseRow::get_active`] selects, and in which order.
pub proof fn license_row_get_active_selects(db: Database, row: Row, tenant_id: Seq<char>)
    ensures
        ({
            let query = LicenseRow::spec_get_active(tenant_id);
            &&& query.table == Table::Licenses
            &&& query.output == OutputView::Rows(LicenseRow::spec_columns())
            &&& query.selects(db, row)
                <==> crate::model::value(row, Column::TenantId) == Datum::Text(tenant_id)
            &&& query.order.len() == 0
            &&& query.limit == None::<i64>
            &&& query.offset == None::<i64>
        }),
{
    broadcast use group_queries;
}

/// The rows that [`EntitlementOverrideRow::list_overrides`] selects, and in which order.
pub proof fn entitlement_override_row_list_overrides_selects(
    db: Database,
    row: Row,
    tenant_id: Seq<char>,
)
    ensures
        ({
            let query = EntitlementOverrideRow::spec_list_overrides(tenant_id);
            &&& query.table == Table::EntitlementOverrides
            &&& query.output == OutputView::Rows(EntitlementOverrideRow::spec_columns())
            &&& query.selects(db, row)
                <==> crate::model::value(row, Column::TenantId) == Datum::Text(tenant_id)
            &&& query.order.len() == 1
            &&& query.order[0] == Order::Ascending(Column::Feature)
            &&& query.limit == None::<i64>
            &&& query.offset == None::<i64>
        }),
{
    broadcast use group_queries;
}

/// The rows that [`RetentionPolicyRow::get_by_tenant`] selects, and in which order.
pub proof fn retention_policy_row_get_by_tenant_selects(
    db: Database,
    row: Row,
    tenant_id: Seq<char>,
)
    ensures
        ({
            let query = RetentionPolicyRow::spec_get_by_tenant(tenant_id);
            &&& query.table == Table::RetentionPolicies
            &&& query.output == OutputView::Rows(RetentionPolicyRow::spec_columns())
            &&& query.selects(db, row)
                <==> crate::model::value(row, Column::TenantId) == Datum::Text(tenant_id)
            &&& query.order.len() == 0
            &&& query.limit == None::<i64>
            &&& query.offset == None::<i64>
        }),
{
    broadcast use group_queries;
}

/// The rows that [`DefaultSettingRow::get`] selects, and in which order.
pub proof fn default_setting_row_get_selects(
    db: Database,
    row: Row,
    scope: Scope,
    scope_id: Seq<char>,
    key: Seq<char>,
)
    ensures
        ({
            let query = DefaultSettingRow::spec_get(scope, scope_id, key);
            &&& query.table == Table::DefaultSettings
            &&& query.output == OutputView::Rows(DefaultSettingRow::spec_columns())
            &&& query.selects(db, row)
                <==> crate::model::value(row, Column::Scope) == Datum::Text(scope.spec_name())
                && crate::model::value(row, Column::ScopeId) == Datum::Text(scope_id)
                && crate::model::value(row, Column::Key) == Datum::Text(key)
            &&& query.order.len() == 0
            &&& query.limit == None::<i64>
            &&& query.offset == None::<i64>
        }),
{
    broadcast use group_queries;
}

/// The rows that [`DefaultSettingRow::list_by_scope`] selects, and in which order.
pub proof fn default_setting_row_list_by_scope_selects(
    db: Database,
    row: Row,
    scope: Scope,
    scope_id: Seq<char>,
)
    ensures
        ({
            let query = DefaultSettingRow::spec_list_by_scope(scope, scope_id);
            &&& query.table == Table::DefaultSettings
            &&& query.output == OutputView::Rows(DefaultSettingRow::spec_columns())
            &&& query.selects(db, row)
                <==> crate::model::value(row, Column::Scope) == Datum::Text(scope.spec_name())
                && crate::model::value(row, Column::ScopeId) == Datum::Text(scope_id)
            &&& query.order.len() == 1
            &&& query.order[0] == Order::Ascending(Column::Key)
            &&& query.limit == None::<i64>
            &&& query.offset == None::<i64>
        }),
{
    broadcast use group_queries;
}

/// The rows that [`OperatorProfileRow::get`] selects, and in which order.
pub proof fn operator_profile_row_get_selects(db: Database, row: Row, operator_id: Seq<char>)
    ensures
        ({
            let query = OperatorProfileRow::spec_get(operator_id);
            &&& query.table == Table::OperatorProfiles
            &&& query.output == OutputView::Rows(OperatorProfileRow::spec_columns())
            &&& query.selects(db, row)
                <==> crate::model::value(row, Column::OperatorId) == Datum::Text(operator_id)
            &&& query.order.len() == 0
            &&& query.limit == None::<i64>
            &&& query.offset == None::<i64>
        }),
{
    broadcast use group_queries;
}

/// The rows that [`OperatorProfileRow::list_by_tenant`] selects, and in which order.
pub proof fn operator_profile_row_list_by_tenant_selects(
    db: Database,
    row: Row,
    tenant_id: Seq<char>,
    limit: usize,
    offset: usize,
)
    ensures
        ({
            let query = OperatorProfileRow::spec_list_by_tenant(tenant_id, limit, offset);
            &&& query.table == Table::OperatorProfiles
            &&& query.output == OutputView::Rows(OperatorProfileRow::spec_columns())
            &&& query.selects(db, row)
                <==> crate::model::value(row, Column::TenantId) == Datum::Text(tenant_id)
            &&& query.order.len() == 1
            &&& query.order[0] == Order::Ascending(Column::OperatorId)
            &&& query.limit == Some(limit as i64)
            &&& query.offset == Some(offset as i64)
        }),
{
    broadcast use group_queries;
}

/// The rows that [`OperatorTenantRoleRow::get`] selects, and in which order.
pub proof fn operator_tenant_role_row_get_selects(
    db: Database,
    row: Row,
    tenant_id: Seq<char>,
    operator_id: Seq<char>,
)
    ensures
        ({
            let query = OperatorTenantRoleRow::spec_get(tenant_id, operator_id);
            &&& query.table == Table::OperatorTenantRoles
            &&& query.output == OutputView::Rows(OperatorTenantRoleRow::spec_columns())
            &&& query.selects(db, row)
                <==> crate::model::value(row, Column::TenantId) == Datum::Text(tenant_id)
                && crate::model::value(row, Column::OperatorId) == Datum::Text(operator_id)
            &&& query.order.len() == 0
            &&& query.limit == None::<i64>
            &&& query.offset == None::<i64>
        }),
{
    broadcast use group_queries;
}

/// The rows that [`OperatorTenantRoleRow::list_by_operator`] selects, and in which order.
pub proof fn operator_tenant_role_row_list_by_operator_selects(
    db: Database,
    row: Row,
    operator_id: Seq<char>,
)
    ensures
        ({
            let query = OperatorTenantRoleRow::spec_list_by_operator(operator_id);
            &&& query.table == Table::OperatorTenantRoles
            &&& query.output == OutputView::Rows(OperatorTenantRoleRow::spec_columns())
            &&& query.selects(db, row)
                <==> crate::model::value(row, Column::OperatorId) == Datum::Text(operator_id)
            &&& query.order.len() == 1
            &&& query.order[0] == Order::Ascending(Column::TenantId)
            &&& query.limit == None::<i64>
            &&& query.offset == None::<i64>
        }),
{
    broadcast use group_queries;
}

/// The rows that [`OperatorTenantRoleRow::list_by_tenant`] selects, and in which order.
pub proof fn operator_tenant_role_row_list_by_tenant_selects(
    db: Database,
    row: Row,
    tenant_id: Seq<char>,
    limit: usize,
    offset: usize,
)
    ensures
        ({
            let query = OperatorTenantRoleRow::spec_list_by_tenant(tenant_id, limit, offset);
            &&& query.table == Table::OperatorTenantRoles
            &&& query.output == OutputView::Rows(OperatorTenantRoleRow::spec_columns())
            &&& query.selects(db, row)
                <==> crate::model::value(row, Column::TenantId) == Datum::Text(tenant_id)
            &&& query.order.len() == 1
            &&& query.order[0] == Order::Ascending(Column::OperatorId)
            &&& query.limit == Some(limit as i64)
            &&& query.offset == Some(offset as i64)
        }),
{
    broadcast use group_queries;
}

/// The rows that [`ResourceShareRow::get_share`] selects, and in which order.
pub proof fn resource_share_row_get_share_selects(db: Database, row: Row, share_id: Seq<char>)
    ensures
        ({
            let query = ResourceShareRow::spec_get_share(share_id);
            &&& query.table == Table::ResourceShares
            &&& query.output == OutputView::Rows(ResourceShareRow::spec_columns())
            &&& query.selects(db, row)
                <==> crate::model::value(row, Column::ShareId) == Datum::Text(share_id)
            &&& query.order.len() == 0
            &&& query.limit == None::<i64>
            &&& query.offset == None::<i64>
        }),
{
    broadcast use group_queries;
}

/// The rows that [`ResourceShareRow::list_shares_for_workspace`] selects, and in which order.
pub proof fn resource_share_row_list_shares_for_workspace_selects(
    db: Database,
    row: Row,
    tenant_id: Seq<char>,
    target_workspace_id: Seq<char>,
)
    ensures
        ({
            let query = ResourceShareRow::spec_list_shares_for_workspace(
                tenant_id,
                target_workspace_id,
            );
            &&& query.table == Table::ResourceShares
            &&& query.output == OutputView::Rows(ResourceShareRow::spec_columns())
            &&& query.selects(db, row)
                <==> crate::model::value(row, Column::TenantId) == Datum::Text(tenant_id)
                && crate::model::value(row, Column::TargetWorkspaceId)
                    == Datum::Text(target_workspace_id)
            &&& query.order.len() == 2
            &&& query.order[0] == Order::Ascending(Column::SharedAtMs)
            &&& query.order[1] == Order::Ascending(Column::ShareId)
            &&& query.limit == None::<i64>
            &&& query.offset == None::<i64>
        }),
{
    broadcast use group_queries;
}

/// The rows that [`ResourceShareRow::get_share_for_resource`] selects, and in which order.
pub proof fn resource_share_row_get_share_for_resource_selects(
    db: Database,
    row: Row,
    tenant_id: Seq<char>,
    target_workspace_id: Seq<char>,
    resource_type: Seq<char>,
    resource_id: Seq<char>,
)
    ensures
        ({
            let query = ResourceShareRow::spec_get_share_for_resource(
                tenant_id,
                target_workspace_id,
                resource_type,
                resource_id,
            );
            &&& query.table == Table::ResourceShares
            &&& query.output == OutputView::Rows(ResourceShareRow::spec_columns())
            &&& query.selects(db, row)
                <==> crate::model::value(row, Column::TenantId) == Datum::Text(tenant_id)
                && crate::model::value(row, Column::TargetWorkspaceId)
                    == Datum::Text(target_workspace_id)
                && crate::model::value(row, Column::ResourceType) == Datum::Text(resource_type)
                && crate::model::value(row, Column::ResourceId) == Datum::Text(resource_id)
            &&& query.order.len() == 2
            &&& query.order[0] == Order::Ascending(Column::SharedAtMs)
            &&& query.order[1] == Order::Ascending(Column::ShareId)
            &&& query.limit == Some(1i64)
            &&& query.offset == None::<i64>
        }),
{
    broadcast use group_queries;
}

} // verus!
