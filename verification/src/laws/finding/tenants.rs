//! What is found of what was written: tenants.

use crate::laws::finding::group_queries;
use crate::laws::rows::group_rows;
use crate::model::{Database, Row};
use crate::plan::Moment;
use crate::projections::policies::{CredentialKeyRotated, CredentialStored};
use crate::projections::tenants::{
    DefaultSettingSet, EntitlementOverrideSet, LicenseActivated, OperatorProfileCreated,
    ResourceShared, RetentionPolicySet, TenantQuotaSet, TenantQuotaViolated, TenantRoleGranted,
};
use crate::read::tenants::{
    CredentialRotationRow, CredentialRow, DefaultSettingRow, EntitlementOverrideRow, LicenseRow,
    OperatorProfileRow, OperatorTenantRoleRow, QuotaViolationRow, ResourceShareRow,
    RetentionPolicyRow, TenantQuotaRow,
};
use crate::schema::Column;
use vstd::prelude::*;

verus! {

/// The row that a `LicenseActivated` event leaves is found by the query for what it names.
pub proof fn license_activated_is_found(
    e: LicenseActivated,
    at: Moment,
    db: Database,
    was: Option<Row>,
    later: Database,
)
    requires
        e.writes(at) is Writes,
        e.writes(at).statements().len() > 0,
        was is Some ==> crate::laws::rows::replaces(
            db,
            e.writes(at).statements()[0],
            was->Some_0,
        ),
    ensures
        ({
            let s = e.writes(at).statements()[0];
            let row = crate::laws::rows::left_by(db, s, was);
            &&& LicenseRow::spec_get_active(e.tenant_id@).finds(later, s.table(), row)
        }),
{
    broadcast use {group_queries, group_rows};

    let key = e.writes(at).statements()[0]->Insert_conflict->Merge_key;
    assert(key[0] == Column::TenantId);
}

/// The row that a `EntitlementOverrideSet` event leaves is found by the query for what it names.
pub proof fn entitlement_override_set_is_found(
    e: EntitlementOverrideSet,
    at: Moment,
    db: Database,
    was: Option<Row>,
    later: Database,
)
    requires
        e.writes(at) is Writes,
        e.writes(at).statements().len() > 0,
        was is Some ==> crate::laws::rows::replaces(
            db,
            e.writes(at).statements()[0],
            was->Some_0,
        ),
    ensures
        ({
            let s = e.writes(at).statements()[0];
            let row = crate::laws::rows::left_by(db, s, was);
            &&& EntitlementOverrideRow::spec_list_overrides(
                e.tenant_id@,
            ).finds(later, s.table(), row)
        }),
{
    broadcast use {group_queries, group_rows};

    let key = e.writes(at).statements()[0]->Insert_conflict->Merge_key;
    assert(key[0] == Column::TenantId);
    assert(key[1] == Column::Feature);
}

/// The row that a `TenantQuotaSet` event leaves is found by the query for what it names.
pub proof fn tenant_quota_set_is_found(
    e: TenantQuotaSet,
    at: Moment,
    db: Database,
    was: Option<Row>,
    later: Database,
)
    requires
        e.writes(at) is Writes,
        e.writes(at).statements().len() > 0,
        was is Some ==> crate::laws::rows::replaces(
            db,
            e.writes(at).statements()[0],
            was->Some_0,
        ),
    ensures
        ({
            let s = e.writes(at).statements()[0];
            let row = crate::laws::rows::left_by(db, s, was);
            &&& TenantQuotaRow::spec_get_quota(e.tenant_id@).finds(later, s.table(), row)
        }),
{
    broadcast use {group_queries, group_rows};

    let key = e.writes(at).statements()[0]->Insert_conflict->Merge_key;
    assert(key[0] == Column::TenantId);
}

/// The row that a `TenantQuotaViolated` event leaves is found by the query for what it names.
pub proof fn tenant_quota_violated_is_found(
    e: TenantQuotaViolated,
    at: Moment,
    db: Database,
    later: Database,
    limit: usize,
)
    requires
        e.writes(at) is Writes,
        e.writes(at).statements().len() > 0,
    ensures
        ({
            let s = e.writes(at).statements()[0];
            let row = crate::laws::rows::left_by(db, s, None);
            &&& QuotaViolationRow::spec_list_violations(
                e.tenant_id@,
                limit,
            ).finds(later, s.table(), row)
        }),
{
    broadcast use {group_queries, group_rows};
}

/// The row that a `RetentionPolicySet` event leaves is found by the query for what it names.
pub proof fn retention_policy_set_is_found(
    e: RetentionPolicySet,
    at: Moment,
    db: Database,
    was: Option<Row>,
    later: Database,
)
    requires
        e.writes(at) is Writes,
        e.writes(at).statements().len() > 0,
        was is Some ==> crate::laws::rows::replaces(
            db,
            e.writes(at).statements()[0],
            was->Some_0,
        ),
    ensures
        ({
            let s = e.writes(at).statements()[0];
            let row = crate::laws::rows::left_by(db, s, was);
            &&& RetentionPolicyRow::spec_get_by_tenant(e.tenant_id@).finds(later, s.table(), row)
        }),
{
    broadcast use {group_queries, group_rows};

    let key = e.writes(at).statements()[0]->Insert_conflict->Merge_key;
    assert(key[0] == Column::TenantId);
}

/// The row that a `CredentialStored` event leaves is found by the queries for what it names.
pub proof fn credential_stored_is_found(
    e: CredentialStored,
    at: Moment,
    db: Database,
    was: Option<Row>,
    later: Database,
    limit: usize,
    offset: usize,
)
    requires
        e.writes(at) is Writes,
        e.writes(at).statements().len() > 0,
        was is Some ==> crate::laws::rows::replaces(
            db,
            e.writes(at).statements()[0],
            was->Some_0,
        ),
    ensures
        ({
            let s = e.writes(at).statements()[0];
            let row = crate::laws::rows::left_by(db, s, was);
            &&& CredentialRow::spec_get(e.credential_id@).finds(later, s.table(), row)
            &&& was is None ==> CredentialRow::spec_list_by_tenant(
                e.tenant_id@,
                limit,
                offset,
            ).finds(later, s.table(), row)
        }),
{
    broadcast use {group_queries, group_rows};

    let key = e.writes(at).statements()[0]->Insert_conflict->Merge_key;
    assert(key[0] == Column::CredentialId);
}

/// The row that a `CredentialKeyRotated` event leaves is found by the query for what it names.
pub proof fn credential_key_rotated_is_found(
    e: CredentialKeyRotated,
    at: Moment,
    db: Database,
    later: Database,
)
    requires
        e.writes(at) is Writes,
        e.writes(at).statements().len() > 0,
    ensures
        ({
            let s = e.writes(at).statements()[0];
            let row = crate::laws::rows::left_by(db, s, None);
            &&& CredentialRotationRow::spec_list_rotations(
                e.tenant_id@,
            ).finds(later, s.table(), row)
        }),
{
    broadcast use {group_queries, group_rows};
}

/// The row that a `OperatorProfileCreated` event leaves is found by the queries for what it names.
pub proof fn operator_profile_created_is_found(
    e: OperatorProfileCreated,
    at: Moment,
    db: Database,
    was: Option<Row>,
    later: Database,
    limit: usize,
    offset: usize,
)
    requires
        e.writes(at) is Writes,
        e.writes(at).statements().len() > 0,
        was is Some ==> crate::laws::rows::replaces(
            db,
            e.writes(at).statements()[0],
            was->Some_0,
        ),
    ensures
        ({
            let s = e.writes(at).statements()[0];
            let row = crate::laws::rows::left_by(db, s, was);
            &&& OperatorProfileRow::spec_get(e.profile_id@).finds(later, s.table(), row)
            &&& OperatorProfileRow::spec_list_by_tenant(
                e.tenant_id@,
                limit,
                offset,
            ).finds(later, s.table(), row)
        }),
{
    broadcast use {group_queries, group_rows};

    let key = e.writes(at).statements()[0]->Insert_conflict->Merge_key;
    assert(key[0] == Column::OperatorId);
}

/// The row that a `TenantRoleGranted` event leaves is found by the queries for what it names.
pub proof fn tenant_role_granted_is_found(
    e: TenantRoleGranted,
    at: Moment,
    db: Database,
    was: Option<Row>,
    later: Database,
    limit: usize,
    offset: usize,
)
    requires
        e.writes(at) is Writes,
        e.writes(at).statements().len() > 0,
        was is Some ==> crate::laws::rows::replaces(
            db,
            e.writes(at).statements()[0],
            was->Some_0,
        ),
    ensures
        ({
            let s = e.writes(at).statements()[0];
            let row = crate::laws::rows::left_by(db, s, was);
            &&& OperatorTenantRoleRow::spec_get(
                e.tenant_id@,
                e.operator_id@,
            ).finds(later, s.table(), row)
            &&& OperatorTenantRoleRow::spec_list_by_operator(
                e.operator_id@,
            ).finds(later, s.table(), row)
            &&& OperatorTenantRoleRow::spec_list_by_tenant(
                e.tenant_id@,
                limit,
                offset,
            ).finds(later, s.table(), row)
        }),
{
    broadcast use {group_queries, group_rows};

    let key = e.writes(at).statements()[0]->Insert_conflict->Merge_key;
    assert(key[0] == Column::TenantId);
    assert(key[1] == Column::OperatorId);
}

/// The row that a `ResourceShared` event leaves is found by the queries for what it names.
pub proof fn resource_shared_is_found(
    e: ResourceShared,
    at: Moment,
    db: Database,
    later: Database,
)
    requires
        e.writes(at) is Writes,
        e.writes(at).statements().len() > 0,
    ensures
        ({
            let s = e.writes(at).statements()[0];
            let row = crate::laws::rows::left_by(db, s, None);
            &&& ResourceShareRow::spec_get_share(e.share_id@).finds(later, s.table(), row)
            &&& ResourceShareRow::spec_list_shares_for_workspace(
                e.tenant_id@,
                e.target_workspace_id@,
            ).finds(later, s.table(), row)
            &&& ResourceShareRow::spec_get_share_for_resource(
                e.tenant_id@,
                e.target_workspace_id@,
                e.resource_type@,
                e.resource_id@,
            ).finds(later, s.table(), row)
        }),
{
    broadcast use {group_queries, group_rows};
}

/// The row that a `DefaultSettingSet` event leaves is found by the queries for what it names.
pub proof fn default_setting_set_is_found(
    e: DefaultSettingSet,
    at: Moment,
    db: Database,
    was: Option<Row>,
    later: Database,
)
    requires
        was is Some ==> crate::laws::rows::replaces(
            db,
            e.writes(at).statements()[0],
            was->Some_0,
        ),
    ensures
        ({
            let s = e.writes(at).statements()[0];
            let row = crate::laws::rows::left_by(db, s, was);
            &&& DefaultSettingRow::spec_get(
                e.scope,
                e.scope_id@,
                e.key@,
            ).finds(later, s.table(), row)
            &&& DefaultSettingRow::spec_list_by_scope(
                e.scope,
                e.scope_id@,
            ).finds(later, s.table(), row)
        }),
{
    broadcast use {group_queries, group_rows};

    let key = e.writes(at).statements()[0]->Insert_conflict->Merge_key;
    assert(key[0] == Column::Scope);
    assert(key[1] == Column::ScopeId);
    assert(key[2] == Column::Key);
}

} // verus!
