//! What is read back of what was written: tenants.

use crate::domain::DomainNames;
use crate::laws::rows::group_rows;
use crate::model::{Database, Row};
use crate::plan::Moment;
use crate::projections::policies::{CredentialKeyRotated, CredentialRevoked, CredentialStored};
use crate::projections::tenants::{
    DefaultSettingSet, EntitlementOverrideSet, LicenseActivated, OperatorProfileCreated,
    OperatorProfileUpdated, ResourceShared, RetentionPolicySet, TenantQuotaSet, TenantQuotaViolated,
    TenantRoleGranted, TenantRoleRevoked,
};
use crate::read::StoredRow;
use crate::read::tenants::{
    CredentialRecord, CredentialRotationRecord, CredentialRotationRow, CredentialRow,
    DefaultSetting, DefaultSettingRow, EntitlementOverrideRecord, EntitlementOverrideRow,
    LicenseRecord, LicenseRow, OperatorProfileRecord, OperatorProfileRow,
    OperatorTenantRoleRecord, OperatorTenantRoleRow, QuotaViolationRecord, QuotaViolationRow,
    ResourceShareRow, RetentionPolicy, RetentionPolicyRow, SharedResource, TenantQuota,
    TenantQuotaRow,
};
use crate::schema::Column;
use vstd::prelude::*;

verus! {

/// The record that is read back after a `DefaultSettingSet` event holds what the event says.
pub proof fn default_setting_set_is_read_back(
    e: DefaultSettingSet,
    at: Moment,
    db: Database,
    was: Option<Row>,
    row: DefaultSettingRow,
    names: DomainNames,
    record: DefaultSetting,
)
    requires
        e.writes(at) is Writes,
        e.writes(at).statements().len() > 0,
        was is Some ==> crate::laws::rows::replaces(
            db,
            e.writes(at).statements()[0],
            was->Some_0,
        ),
        row.is_of(crate::laws::rows::left_by(db, e.writes(at).statements()[0], was)),
        row.holds(&names, &record),
    ensures
        record.key@ == e.key@,
        record.value@ == e.value_json@,
        record.scope == e.scope,
        crate::json::json_refusal(e.value_json@) is None ==> row.fault(&names) is None,
{
    broadcast use group_rows;

    let key = e.writes(at).statements()[0]->Insert_conflict->Merge_key;
    assert(key[0] == Column::Scope);
    assert(key[1] == Column::ScopeId);
    assert(key[2] == Column::Key);
    crate::vocabulary::scope_names_are_inverse(e.scope, e.scope.spec_name());
}

/// The record that is read back after a `LicenseActivated` event holds what the event says.
pub proof fn license_activated_is_read_back(
    e: LicenseActivated,
    at: Moment,
    db: Database,
    was: Option<Row>,
    row: LicenseRow,
    names: DomainNames,
    record: LicenseRecord,
)
    requires
        e.writes(at) is Writes,
        e.writes(at).statements().len() > 0,
        was is Some ==> crate::laws::rows::replaces(
            db,
            e.writes(at).statements()[0],
            was->Some_0,
        ),
        row.is_of(crate::laws::rows::left_by(db, e.writes(at).statements()[0], was)),
        row.holds(&names, &record),
    ensures
        record.tenant_id@ == e.tenant_id@,
        record.tier == e.tier,
        record.entitlements@ == "[]"@,
        e.valid_from_ms <= i64::MAX ==> record.issued_at == e.valid_from_ms,
        match e.valid_until_ms {
            Some(v) => v <= i64::MAX ==> record.expires_at == Some(v),
            None => record.expires_at is None,
        },
        record.license_key.deep_view() == Some(e.license_id@),
        row.entitlements.fault is None ==> row.fault(&names) is None,
{
    broadcast use group_rows;

    let key = e.writes(at).statements()[0]->Insert_conflict->Merge_key;
    assert(key[0] == Column::TenantId);
    crate::vocabulary::product_tier_names_are_inverse(e.tier, e.tier.spec_name());
}

/// The record that is read back after a `EntitlementOverrideSet` event holds what the event
/// says.
pub proof fn entitlement_override_set_is_read_back(
    e: EntitlementOverrideSet,
    at: Moment,
    db: Database,
    was: Option<Row>,
    row: EntitlementOverrideRow,
    names: DomainNames,
    record: EntitlementOverrideRecord,
)
    requires
        e.writes(at) is Writes,
        e.writes(at).statements().len() > 0,
        was is Some ==> crate::laws::rows::replaces(
            db,
            e.writes(at).statements()[0],
            was->Some_0,
        ),
        row.is_of(crate::laws::rows::left_by(db, e.writes(at).statements()[0], was)),
        row.holds(&names, &record),
    ensures
        record.tenant_id@ == e.tenant_id@,
        record.granted == e.allowed,
        record.reason.deep_view() == e.reason.deep_view(),
        e.set_at_ms <= i64::MAX ==> record.applied_at == e.set_at_ms,
        record.feature@ == e.feature@,
        record.allowed == e.allowed,
        e.set_at_ms <= i64::MAX ==> record.set_at_ms == e.set_at_ms,
        record.override_id@ == "override_"@ + e.tenant_id@ + "_"@ + e.feature@,
        record.entitlement is AdvancedAdmin,
{
    broadcast use group_rows;

    let key = e.writes(at).statements()[0]->Insert_conflict->Merge_key;
    assert(key[0] == Column::TenantId);
    assert(key[1] == Column::Feature);
}

/// The record that is read back after a `TenantQuotaSet` event holds what the event says.
pub proof fn tenant_quota_set_is_read_back(
    e: TenantQuotaSet,
    at: Moment,
    db: Database,
    was: Option<Row>,
    row: TenantQuotaRow,
    names: DomainNames,
    record: TenantQuota,
)
    requires
        e.writes(at) is Writes,
        e.writes(at).statements().len() > 0,
        was is Some ==> crate::laws::rows::replaces(
            db,
            e.writes(at).statements()[0],
            was->Some_0,
        ),
        row.is_of(crate::laws::rows::left_by(db, e.writes(at).statements()[0], was)),
        row.holds(&names, &record),
    ensures
        e.max_concurrent_runs <= i32::MAX ==> record.max_concurrent_runs == e.max_concurrent_runs,
        e.max_sessions_per_hour <= i32::MAX
            ==> record.max_sessions_per_hour == e.max_sessions_per_hour,
        e.max_tasks_per_run <= i32::MAX ==> record.max_tasks_per_run == e.max_tasks_per_run,
        record.tenant_id@ == row.tenant_id@,
        record.current_active_runs == crate::read::low4(row.active_runs),
        record.sessions_this_hour == crate::read::low4(row.sessions),
{
    broadcast use group_rows;

    let key = e.writes(at).statements()[0]->Insert_conflict->Merge_key;
    assert(key[0] == Column::TenantId);
}

/// The record that is read back after a `TenantQuotaViolated` event holds what the event says.
pub proof fn tenant_quota_violated_is_read_back(
    e: TenantQuotaViolated,
    at: Moment,
    db: Database,
    row: QuotaViolationRow,
    names: DomainNames,
    record: QuotaViolationRecord,
)
    requires
        e.writes(at) is Writes,
        e.writes(at).statements().len() > 0,
        row.is_of(crate::laws::rows::left_by(db, e.writes(at).statements()[0], None)),
        row.holds(&names, &record),
    ensures
        record.tenant_id@ == e.tenant_id@,
        record.quota_type@ == e.quota_type@,
        e.current <= i32::MAX ==> record.current == e.current,
        e.limit <= i32::MAX ==> record.limit == e.limit,
        e.occurred_at_ms <= i64::MAX ==> record.occurred_at_ms == e.occurred_at_ms,
{
    broadcast use group_rows;
}

/// The record that is read back after a `RetentionPolicySet` event holds what the event says.
pub proof fn retention_policy_set_is_read_back(
    e: RetentionPolicySet,
    at: Moment,
    db: Database,
    was: Option<Row>,
    row: RetentionPolicyRow,
    names: DomainNames,
    record: RetentionPolicy,
)
    requires
        e.writes(at) is Writes,
        e.writes(at).statements().len() > 0,
        was is Some ==> crate::laws::rows::replaces(
            db,
            e.writes(at).statements()[0],
            was->Some_0,
        ),
        row.is_of(crate::laws::rows::left_by(db, e.writes(at).statements()[0], was)),
        row.holds(&names, &record),
    ensures
        record.policy_id@ == e.policy_id@,
        record.tenant_id@ == e.tenant_id@,
        e.full_history_days <= i32::MAX ==> record.full_history_days == e.full_history_days,
        e.current_state_days <= i32::MAX ==> record.current_state_days == e.current_state_days,
        match e.max_events_per_entity {
            Some(v) => v <= i64::MAX ==> record.max_events_per_entity == if v <= u32::MAX {
                v as u32
            } else {
                u32::MAX
            },
            None => record.max_events_per_entity == 0,
        },
{
    broadcast use group_rows;

    let key = e.writes(at).statements()[0]->Insert_conflict->Merge_key;
    assert(key[0] == Column::TenantId);
}

/// The record that is read back after a `CredentialStored` event holds what the event says.
pub proof fn credential_stored_is_read_back(
    e: CredentialStored,
    at: Moment,
    db: Database,
    was: Option<Row>,
    before: CredentialRow,
    row: CredentialRow,
    names: DomainNames,
    old: CredentialRecord,
    record: CredentialRecord,
)
    requires
        e.writes(at) is Writes,
        e.writes(at).statements().len() > 0,
        was is Some ==> crate::laws::rows::replaces(
            db,
            e.writes(at).statements()[0],
            was->Some_0,
        ),
        was is Some ==> before.is_of(was->Some_0) && before.holds(&names, &old),
        row.is_of(crate::laws::rows::left_by(db, e.writes(at).statements()[0], was)),
        row.holds(&names, &record),
    ensures
        record.id@ == e.credential_id@,
        was is None ==> (record.tenant_id@ == e.tenant_id@),
        was is None ==> (record.name@ == e.provider_id@),
        was is None ==> (record.credential_type@ == "api_key"@),
        record.encrypted_value@ == e.encrypted_value@,
        was is None ==> (e.encrypted_at_ms <= i64::MAX ==> record.created_at == e.encrypted_at_ms),
        e.encrypted_at_ms <= i64::MAX ==> record.updated_at == e.encrypted_at_ms,
        was is None ==> (record.active == true),
        was is None ==> (record.provider_id@ == e.provider_id@),
        e.encrypted_at_ms <= i64::MAX ==> record.encrypted_at_ms == Some(e.encrypted_at_ms),
        record.key_id.deep_view() == e.key_id.deep_view(),
        record.key_version.deep_view() == e.key_version.deep_view(),
        was is None ==> (record.revoked_at_ms is None),
        was is Some ==> record.tenant_id@ == old.tenant_id@,
        was is Some ==> record.name@ == old.name@,
        was is Some ==> record.credential_type@ == old.credential_type@,
        was is Some ==> record.created_at == old.created_at,
        was is Some ==> record.active == old.active,
        was is Some ==> record.provider_id@ == old.provider_id@,
        was is Some ==> record.revoked_at_ms == old.revoked_at_ms,
{
    broadcast use group_rows;

    let key = e.writes(at).statements()[0]->Insert_conflict->Merge_key;
    assert(key[0] == Column::CredentialId);
}

/// The record that is read back after a `CredentialKeyRotated` event holds what the event says.
pub proof fn credential_key_rotated_is_read_back(
    e: CredentialKeyRotated,
    at: Moment,
    db: Database,
    row: CredentialRotationRow,
    names: DomainNames,
    record: CredentialRotationRecord,
)
    requires
        e.writes(at) is Writes,
        e.writes(at).statements().len() > 0,
        row.is_of(crate::laws::rows::left_by(db, e.writes(at).statements()[0], None)),
        row.holds(&names, &record),
    ensures
        record.rotation_id@ == e.rotation_id@,
        record.tenant_id@ == e.tenant_id@,
        record.credential_id@ == ""@,
        record.rotated_at == crate::read::floor8(at.now),
        record.rotated_by is None,
        record.old_key_id@ == e.old_key_id@,
        record.new_key_id@ == e.new_key_id@,
        record.started_at_ms == crate::read::floor8(at.now),
        e.credential_ids_rotated@.len() <= i32::MAX ==> record.rotated_credentials
            == e.credential_ids_rotated@.len(),
        0 <= at.now ==> record.completed_at_ms == Some(at.now as u64),
{
    broadcast use group_rows;
}

/// The record that is read back after a `OperatorProfileCreated` event holds what the event
/// says.
pub proof fn operator_profile_created_is_read_back(
    e: OperatorProfileCreated,
    at: Moment,
    db: Database,
    was: Option<Row>,
    row: OperatorProfileRow,
    names: DomainNames,
    record: OperatorProfileRecord,
)
    requires
        e.writes(at) is Writes,
        e.writes(at).statements().len() > 0,
        was is Some ==> crate::laws::rows::replaces(
            db,
            e.writes(at).statements()[0],
            was->Some_0,
        ),
        row.is_of(crate::laws::rows::left_by(db, e.writes(at).statements()[0], was)),
        row.holds(&names, &record),
    ensures
        record.operator_id@ == e.profile_id@,
        record.tenant_id@ == e.tenant_id@,
        record.display_name@ == e.display_name@,
        record.email.deep_view() == Some(e.email@),
        record.role@ == e.role@,
        record.created_at == crate::read::floor8(at.now),
{
    broadcast use group_rows;

    let key = e.writes(at).statements()[0]->Insert_conflict->Merge_key;
    assert(key[0] == Column::OperatorId);
}

/// The record that is read back after a `TenantRoleGranted` event holds what the event says.
pub proof fn tenant_role_granted_is_read_back(
    e: TenantRoleGranted,
    at: Moment,
    db: Database,
    was: Option<Row>,
    row: OperatorTenantRoleRow,
    names: DomainNames,
    record: OperatorTenantRoleRecord,
)
    requires
        e.writes(at) is Writes,
        e.writes(at).statements().len() > 0,
        was is Some ==> crate::laws::rows::replaces(
            db,
            e.writes(at).statements()[0],
            was->Some_0,
        ),
        row.is_of(crate::laws::rows::left_by(db, e.writes(at).statements()[0], was)),
        row.holds(&names, &record),
    ensures
        record.tenant_id@ == e.tenant_id@,
        record.operator_id@ == e.operator_id@,
        e.at_ms <= i64::MAX ==> record.granted_at_ms == e.at_ms,
        record.granted_by@ == e.granted_by@,
        record.revoked_at_ms is None,
        record.revoked_by is None,
        record.role@ == crate::read::tenants::role_of(e.role@, names.tenant_roles.deep_view()),
{
    broadcast use group_rows;

    let key = e.writes(at).statements()[0]->Insert_conflict->Merge_key;
    assert(key[0] == Column::TenantId);
    assert(key[1] == Column::OperatorId);
}

/// The record that is read back after a `ResourceShared` event holds what the event says.
pub proof fn resource_shared_is_read_back(
    e: ResourceShared,
    at: Moment,
    db: Database,
    row: ResourceShareRow,
    names: DomainNames,
    record: SharedResource,
)
    requires
        e.writes(at) is Writes,
        e.writes(at).statements().len() > 0,
        row.is_of(crate::laws::rows::left_by(db, e.writes(at).statements()[0], None)),
        row.holds(&names, &record),
    ensures
        record.share_id@ == e.share_id@,
        record.tenant_id@ == e.tenant_id@,
        record.source_workspace_id@ == e.source_workspace_id@,
        record.target_workspace_id@ == e.target_workspace_id@,
        record.resource_type@ == e.resource_type@,
        record.resource_id@ == e.resource_id@,
        crate::json::keeps(e.permissions.deep_view())
            ==> record.permissions.deep_view() == e.permissions.deep_view(),
        e.shared_at_ms <= i64::MAX ==> record.shared_at_ms == e.shared_at_ms,
        crate::json::keeps(e.permissions.deep_view()) ==> row.fault(&names) is None,
{
    broadcast use group_rows;
}

/// The record that is read back of a row that a `CredentialRevoked` event changes holds what
/// the event says.
pub proof fn credential_revoked_is_read_back(
    e: CredentialRevoked,
    at: Moment,
    db: Database,
    was: Row,
    before: CredentialRow,
    row: CredentialRow,
    names: DomainNames,
    old: CredentialRecord,
    record: CredentialRecord,
)
    requires
        e.writes(at) is Writes,
        e.writes(at).statements().len() > 0,
        crate::model::passes_all(db, was, e.writes(at).statements()[0]->Update_filter),
        before.is_of(was),
        row.is_of(crate::laws::rows::updated_by(db, e.writes(at).statements()[0], was)),
        before.holds(&names, &old),
        row.holds(&names, &record),
    ensures
        e.revoked_at_ms <= i64::MAX ==> record.updated_at == e.revoked_at_ms,
        record.active == false,
        e.revoked_at_ms <= i64::MAX ==> record.revoked_at_ms == Some(e.revoked_at_ms),
        record.id@ == old.id@,
        record.tenant_id@ == old.tenant_id@,
        record.name@ == old.name@,
        record.credential_type@ == old.credential_type@,
        record.created_at == old.created_at,
        record.provider_id@ == old.provider_id@,
        record.encrypted_at_ms == old.encrypted_at_ms,
        record.key_id.deep_view() == old.key_id.deep_view(),
        record.key_version.deep_view() == old.key_version.deep_view(),
        record.encrypted_value@ == old.encrypted_value@,
{
    broadcast use group_rows;
}

/// The record that is read back of a row that a `TenantRoleRevoked` event changes holds what
/// the event says.
pub proof fn tenant_role_revoked_is_read_back(
    e: TenantRoleRevoked,
    at: Moment,
    db: Database,
    was: Row,
    before: OperatorTenantRoleRow,
    row: OperatorTenantRoleRow,
    names: DomainNames,
    old: OperatorTenantRoleRecord,
    record: OperatorTenantRoleRecord,
)
    requires
        e.writes(at) is Writes,
        e.writes(at).statements().len() > 0,
        crate::model::passes_all(db, was, e.writes(at).statements()[0]->Update_filter),
        before.is_of(was),
        row.is_of(crate::laws::rows::updated_by(db, e.writes(at).statements()[0], was)),
        before.holds(&names, &old),
        row.holds(&names, &record),
    ensures
        e.at_ms <= i64::MAX ==> record.revoked_at_ms == Some(e.at_ms),
        record.revoked_by.deep_view() == Some(e.revoked_by@),
        record.tenant_id@ == old.tenant_id@,
        record.operator_id@ == old.operator_id@,
        record.role@ == old.role@,
        record.granted_at_ms == old.granted_at_ms,
        record.granted_by@ == old.granted_by@,
{
    broadcast use group_rows;
}

/// The record that is read back of a row that a `OperatorProfileUpdated` event changes holds what
/// the event says.
pub proof fn operator_profile_updated_is_read_back(
    e: OperatorProfileUpdated,
    at: Moment,
    db: Database,
    was: Row,
    before: OperatorProfileRow,
    row: OperatorProfileRow,
    names: DomainNames,
    old: OperatorProfileRecord,
    record: OperatorProfileRecord,
)
    requires
        crate::model::passes_all(db, was, e.writes(at).statements()[0]->Update_filter),
        before.is_of(was),
        row.is_of(crate::laws::rows::updated_by(db, e.writes(at).statements()[0], was)),
        before.holds(&names, &old),
        row.holds(&names, &record),
    ensures
        record.display_name@ == match e.display_name {
            Some(name) => name@,
            None => old.display_name@,
        },
        record.email.deep_view() == if e.email is Some {
            e.email.deep_view()
        } else {
            old.email.deep_view()
        },
        record.role@ == match e.role {
            Some(role) => role@,
            None => old.role@,
        },
        record.operator_id@ == old.operator_id@,
        record.tenant_id@ == old.tenant_id@,
        record.created_at == old.created_at,
{
    broadcast use group_rows;
}

} // verus!
