//! What the records say of the stored rows: tenants.

use crate::domain::DomainNames;
use crate::error::ErrorView;
use crate::model::{Datum, Row};
use crate::read::StoredRow;
use crate::read::tenants::{
    CredentialRecord, CredentialRotationRecord, CredentialRotationRow, CredentialRow,
    DefaultSetting, DefaultSettingRow, Entitlement, EntitlementOverrideRecord,
    EntitlementOverrideRow, LicenseRecord, LicenseRow, OperatorProfileRecord, OperatorProfileRow,
    OperatorTenantRoleRecord, OperatorTenantRoleRow, QuotaViolationRecord, QuotaViolationRow,
    ResourceShareRow, RetentionPolicy, RetentionPolicyRow, SharedResource, TenantQuota,
    TenantQuotaRow,
};
use crate::schema::Column;
use vstd::prelude::*;

verus! {

/// What the fields of a [`CredentialRecord`] say of the stored row.
pub proof fn the_record_of_a_credential_row(
    row: CredentialRow,
    stored: Row,
    names: DomainNames,
    record: CredentialRecord,
)
    requires
        row.is_of(stored),
        row.holds(&names, &record),
    ensures
        crate::model::value(stored, Column::CredentialId) == Datum::Text(record.id@),
        crate::model::value(stored, Column::TenantId) == Datum::Text(record.tenant_id@),
        crate::model::value(stored, Column::Name) == Datum::Text(record.name@),
        crate::model::value(stored, Column::CredentialType) == Datum::Text(record.credential_type@),
        crate::model::value(stored, Column::EncryptedValue)
            == Datum::Bytes(record.encrypted_value@),
        crate::laws::recording::is_at_least_zero(
            crate::model::value(stored, Column::CreatedAt),
            record.created_at as int,
        ),
        crate::laws::recording::is_at_least_zero(
            crate::model::value(stored, Column::UpdatedAt),
            record.updated_at as int,
        ),
        crate::model::value(stored, Column::Active) == Datum::Bool(record.active),
        crate::model::value(stored, Column::ProviderId) == Datum::Text(record.provider_id@),
        match record.encrypted_at_ms {
            Some(n) => crate::laws::recording::is_at_least_zero(
                crate::model::value(stored, Column::EncryptedAtMs),
                n as int,
            ),
            None => crate::model::value(stored, Column::EncryptedAtMs) == Datum::Null,
        },
        crate::model::value(stored, Column::KeyId)
            == crate::laws::storing::optional_text(record.key_id),
        crate::model::value(stored, Column::KeyVersion)
            == crate::laws::storing::optional_text(record.key_version),
        match record.revoked_at_ms {
            Some(n) => crate::laws::recording::is_at_least_zero(
                crate::model::value(stored, Column::RevokedAtMs),
                n as int,
            ),
            None => crate::model::value(stored, Column::RevokedAtMs) == Datum::Null,
        },
{
}

/// A [`CredentialRow`] says nothing of a stored row but what the columns that it asks for
/// hold.
pub proof fn the_columns_of_a_credential_row(row: CredentialRow, stored: Row, other: Row)
    requires
        forall|i: int|
            0 <= i < CredentialRow::spec_columns().len()
                ==> crate::model::value(stored, #[trigger] CredentialRow::spec_columns()[i])
                    == crate::model::value(other, CredentialRow::spec_columns()[i]),
    ensures
        row.is_of(stored) == row.is_of(other),
{
    let columns = CredentialRow::spec_columns();
    assert(columns[0] == Column::CredentialId);
    assert(columns[1] == Column::TenantId);
    assert(columns[2] == Column::Name);
    assert(columns[3] == Column::ProviderId);
    assert(columns[4] == Column::CredentialType);
    assert(columns[5] == Column::EncryptedValue);
    assert(columns[6] == Column::KeyId);
    assert(columns[7] == Column::KeyVersion);
    assert(columns[8] == Column::Active);
    assert(columns[9] == Column::EncryptedAtMs);
    assert(columns[10] == Column::RevokedAtMs);
    assert(columns[11] == Column::CreatedAt);
    assert(columns[12] == Column::UpdatedAt);
}

/// Every [`CredentialRow`] holds a record.
pub proof fn the_faults_of_a_credential_row(row: CredentialRow, names: DomainNames)
    ensures
        row.fault(&names) is None,
{
}

/// What the fields of a [`CredentialRotationRecord`] say of the stored row.
pub proof fn the_record_of_a_credential_rotation_row(
    row: CredentialRotationRow,
    stored: Row,
    names: DomainNames,
    record: CredentialRotationRecord,
)
    requires
        row.is_of(stored),
        row.holds(&names, &record),
    ensures
        crate::model::value(stored, Column::RotationId) == Datum::Text(record.rotation_id@),
        crate::model::value(stored, Column::TenantId) == Datum::Text(record.tenant_id@),
        crate::model::value(stored, Column::CredentialId) == Datum::Text(record.credential_id@),
        crate::laws::recording::is_at_least_zero(
            crate::model::value(stored, Column::RotatedAt),
            record.rotated_at as int,
        ),
        crate::model::value(stored, Column::RotatedBy)
            == crate::laws::storing::optional_text(record.rotated_by),
        crate::model::value(stored, Column::OldKeyId) == Datum::Text(record.old_key_id@),
        crate::model::value(stored, Column::NewKeyId) == Datum::Text(record.new_key_id@),
        crate::laws::recording::is_at_least_zero(
            crate::model::value(stored, Column::RotatedCredentials),
            record.rotated_credentials as int,
        ),
        crate::laws::recording::is_at_least_zero(
            crate::model::value(stored, Column::StartedAtMs),
            record.started_at_ms as int,
        ),
        match record.completed_at_ms {
            Some(n) => crate::laws::recording::is_at_least_zero(
                crate::model::value(stored, Column::CompletedAtMs),
                n as int,
            ),
            None => crate::model::value(stored, Column::CompletedAtMs) == Datum::Null,
        },
{
}

/// A [`CredentialRotationRow`] says nothing of a stored row but what the columns that it asks for
/// hold.
pub proof fn the_columns_of_a_credential_rotation_row(
    row: CredentialRotationRow,
    stored: Row,
    other: Row,
)
    requires
        forall|i: int|
            0 <= i < CredentialRotationRow::spec_columns().len()
                ==> crate::model::value(stored, #[trigger] CredentialRotationRow::spec_columns()[i])
                    == crate::model::value(other, CredentialRotationRow::spec_columns()[i]),
    ensures
        row.is_of(stored) == row.is_of(other),
{
    let columns = CredentialRotationRow::spec_columns();
    assert(columns[0] == Column::RotationId);
    assert(columns[1] == Column::TenantId);
    assert(columns[2] == Column::CredentialId);
    assert(columns[3] == Column::OldKeyId);
    assert(columns[4] == Column::NewKeyId);
    assert(columns[5] == Column::RotatedCredentials);
    assert(columns[6] == Column::StartedAtMs);
    assert(columns[7] == Column::CompletedAtMs);
    assert(columns[8] == Column::RotatedAt);
    assert(columns[9] == Column::RotatedBy);
}

/// Every [`CredentialRotationRow`] holds a record.
pub proof fn the_faults_of_a_credential_rotation_row(row: CredentialRotationRow, names: DomainNames)
    ensures
        row.fault(&names) is None,
{
}

/// What the fields of a [`TenantQuota`] say of the stored row.
pub proof fn the_record_of_a_tenant_quota_row(
    row: TenantQuotaRow,
    stored: Row,
    names: DomainNames,
    record: TenantQuota,
)
    requires
        row.is_of(stored),
        row.holds(&names, &record),
    ensures
        record.tenant_id == row.tenant_id,
        crate::laws::recording::is_at_least_zero(
            crate::model::value(stored, Column::MaxConcurrentRuns),
            record.max_concurrent_runs as int,
        ),
        crate::laws::recording::is_at_least_zero(
            crate::model::value(stored, Column::MaxSessionsPerHour),
            record.max_sessions_per_hour as int,
        ),
        crate::laws::recording::is_at_least_zero(
            crate::model::value(stored, Column::MaxTasksPerRun),
            record.max_tasks_per_run as int,
        ),
        record.current_active_runs == crate::read::low4(row.active_runs),
        record.sessions_this_hour == crate::read::low4(row.sessions),
{
}

/// A [`TenantQuotaRow`] says nothing of a stored row but what the columns that it asks for
/// hold.
pub proof fn the_columns_of_a_tenant_quota_row(row: TenantQuotaRow, stored: Row, other: Row)
    requires
        forall|i: int|
            0 <= i < TenantQuotaRow::spec_columns().len()
                ==> crate::model::value(stored, #[trigger] TenantQuotaRow::spec_columns()[i])
                    == crate::model::value(other, TenantQuotaRow::spec_columns()[i]),
    ensures
        row.is_of(stored) == row.is_of(other),
{
    let columns = TenantQuotaRow::spec_columns();
    assert(columns[0] == Column::MaxConcurrentRuns);
    assert(columns[1] == Column::MaxSessionsPerHour);
    assert(columns[2] == Column::MaxTasksPerRun);
}

/// Every [`TenantQuotaRow`] holds a record.
pub proof fn the_faults_of_a_tenant_quota_row(row: TenantQuotaRow, names: DomainNames)
    ensures
        row.fault(&names) is None,
{
}

/// What the fields of a [`QuotaViolationRecord`] say of the stored row.
pub proof fn the_record_of_a_quota_violation_row(
    row: QuotaViolationRow,
    stored: Row,
    names: DomainNames,
    record: QuotaViolationRecord,
)
    requires
        row.is_of(stored),
        row.holds(&names, &record),
    ensures
        crate::model::value(stored, Column::TenantId) == Datum::Text(record.tenant_id@),
        crate::model::value(stored, Column::QuotaType) == Datum::Text(record.quota_type@),
        crate::laws::recording::is_at_least_zero(
            crate::model::value(stored, Column::CurrentValue),
            record.current as int,
        ),
        crate::laws::recording::is_at_least_zero(
            crate::model::value(stored, Column::LimitValue),
            record.limit as int,
        ),
        crate::laws::recording::is_at_least_zero(
            crate::model::value(stored, Column::OccurredAtMs),
            record.occurred_at_ms as int,
        ),
{
}

/// A [`QuotaViolationRow`] says nothing of a stored row but what the columns that it asks for
/// hold.
pub proof fn the_columns_of_a_quota_violation_row(row: QuotaViolationRow, stored: Row, other: Row)
    requires
        forall|i: int|
            0 <= i < QuotaViolationRow::spec_columns().len()
                ==> crate::model::value(stored, #[trigger] QuotaViolationRow::spec_columns()[i])
                    == crate::model::value(other, QuotaViolationRow::spec_columns()[i]),
    ensures
        row.is_of(stored) == row.is_of(other),
{
    let columns = QuotaViolationRow::spec_columns();
    assert(columns[0] == Column::TenantId);
    assert(columns[1] == Column::QuotaType);
    assert(columns[2] == Column::OccurredAtMs);
    assert(columns[3] == Column::CurrentValue);
    assert(columns[4] == Column::LimitValue);
}

/// Every [`QuotaViolationRow`] holds a record.
pub proof fn the_faults_of_a_quota_violation_row(row: QuotaViolationRow, names: DomainNames)
    ensures
        row.fault(&names) is None,
{
}

/// What the fields of a [`LicenseRecord`] say of the stored row.
pub proof fn the_record_of_a_license_row(
    row: LicenseRow,
    stored: Row,
    names: DomainNames,
    record: LicenseRecord,
)
    requires
        row.is_of(stored),
        row.holds(&names, &record),
    ensures
        crate::model::value(stored, Column::TenantId) == Datum::Text(record.tenant_id@),
        crate::model::value(stored, Column::Tier) == Datum::Text(record.tier.spec_name()),
        crate::model::value(stored, Column::EntitlementsJson) == Datum::Text(record.entitlements@),
        crate::laws::recording::is_at_least_zero(
            crate::model::value(stored, Column::IssuedAt),
            record.issued_at as int,
        ),
        match record.expires_at {
            Some(n) => crate::laws::recording::is_at_least_zero(
                crate::model::value(stored, Column::ExpiresAt),
                n as int,
            ),
            None => crate::model::value(stored, Column::ExpiresAt) == Datum::Null,
        },
        crate::model::value(stored, Column::LicenseKey)
            == crate::laws::storing::optional_text(record.license_key),
{
    crate::vocabulary::product_tier_names_are_inverse(record.tier, row.tier@);
}

/// A [`LicenseRow`] says nothing of a stored row but what the columns that it asks for
/// hold.
pub proof fn the_columns_of_a_license_row(row: LicenseRow, stored: Row, other: Row)
    requires
        forall|i: int|
            0 <= i < LicenseRow::spec_columns().len()
                ==> crate::model::value(stored, #[trigger] LicenseRow::spec_columns()[i])
                    == crate::model::value(other, LicenseRow::spec_columns()[i]),
    ensures
        row.is_of(stored) == row.is_of(other),
{
    let columns = LicenseRow::spec_columns();
    assert(columns[0] == Column::TenantId);
    assert(columns[1] == Column::LicenseKey);
    assert(columns[2] == Column::Tier);
    assert(columns[3] == Column::EntitlementsJson);
    assert(columns[4] == Column::IssuedAt);
    assert(columns[5] == Column::ExpiresAt);
}

/// When a [`LicenseRow`] holds no record, and how it is refused.
pub proof fn the_faults_of_a_license_row(row: LicenseRow, names: DomainNames)
    ensures
        row.tier@ != "local_eval"@ && row.tier@ != "team_self_hosted"@
            && row.tier@ != "enterprise_self_hosted"@
            ==> row.fault(&names)
                == Some(
                    ErrorView::Internal(
                        "licenses.tier: unknown value "@ + crate::json::quoted(row.tier@),
                    ),
                ),
        !(
            row.tier@ != "local_eval"@ && row.tier@ != "team_self_hosted"@
                && row.tier@ != "enterprise_self_hosted"@
        )
            && row.entitlements.fault is Some
            ==> row.fault(&names)
                == Some(
                    ErrorView::Internal(
                        "licenses.entitlements_json parse error: "@
                            + row.entitlements.fault->Some_0@,
                    ),
                ),
        !(
            row.tier@ != "local_eval"@ && row.tier@ != "team_self_hosted"@
                && row.tier@ != "enterprise_self_hosted"@
        )
            && !(row.entitlements.fault is Some)
            ==> row.fault(&names) is None,
{
}

/// What the fields of a [`EntitlementOverrideRecord`] say of the stored row.
pub proof fn the_record_of_an_entitlement_override_row(
    row: EntitlementOverrideRow,
    stored: Row,
    names: DomainNames,
    record: EntitlementOverrideRecord,
)
    requires
        row.is_of(stored),
        row.holds(&names, &record),
    ensures
        record.override_id@ == "override_"@ + row.tenant_id@ + "_"@ + row.feature@,
        crate::model::value(stored, Column::TenantId) == Datum::Text(record.tenant_id@),
        record.entitlement == Entitlement::AdvancedAdmin,
        crate::model::value(stored, Column::Allowed) == Datum::Bool(record.granted),
        crate::model::value(stored, Column::Reason)
            == crate::laws::storing::optional_text(record.reason),
        crate::laws::recording::is_at_least_zero(
            crate::model::value(stored, Column::SetAtMs),
            record.applied_at as int,
        ),
        crate::model::value(stored, Column::Feature) == Datum::Text(record.feature@),
        crate::model::value(stored, Column::Allowed) == Datum::Bool(record.allowed),
        crate::laws::recording::is_at_least_zero(
            crate::model::value(stored, Column::SetAtMs),
            record.set_at_ms as int,
        ),
{
}

/// A [`EntitlementOverrideRow`] says nothing of a stored row but what the columns that it asks for
/// hold.
pub proof fn the_columns_of_an_entitlement_override_row(
    row: EntitlementOverrideRow,
    stored: Row,
    other: Row,
)
    requires
        forall|i: int|
            0 <= i < EntitlementOverrideRow::spec_columns().len()
                ==> crate::model::value(
                    stored,
                    #[trigger] EntitlementOverrideRow::spec_columns()[i],
                )
                    == crate::model::value(other, EntitlementOverrideRow::spec_columns()[i]),
    ensures
        row.is_of(stored) == row.is_of(other),
{
    let columns = EntitlementOverrideRow::spec_columns();
    assert(columns[0] == Column::TenantId);
    assert(columns[1] == Column::Feature);
    assert(columns[2] == Column::Allowed);
    assert(columns[3] == Column::Reason);
    assert(columns[4] == Column::SetAtMs);
}

/// Every [`EntitlementOverrideRow`] holds a record.
pub proof fn the_faults_of_an_entitlement_override_row(
    row: EntitlementOverrideRow,
    names: DomainNames,
)
    ensures
        row.fault(&names) is None,
{
}

/// What the fields of a [`RetentionPolicy`] say of the stored row.
pub proof fn the_record_of_a_retention_policy_row(
    row: RetentionPolicyRow,
    stored: Row,
    names: DomainNames,
    record: RetentionPolicy,
)
    requires
        row.is_of(stored),
        row.holds(&names, &record),
    ensures
        crate::model::value(stored, Column::PolicyId) == Datum::Text(record.policy_id@),
        crate::model::value(stored, Column::TenantId) == Datum::Text(record.tenant_id@),
        crate::laws::recording::is_at_least_zero(
            crate::model::value(stored, Column::FullHistoryDays),
            record.full_history_days as int,
        ),
        crate::laws::recording::is_at_least_zero(
            crate::model::value(stored, Column::CurrentStateDays),
            record.current_state_days as int,
        ),
        if crate::model::value(stored, Column::MaxEventsPerEntity)
            == Datum::Null {
                record.max_events_per_entity == 0
            } else {
                crate::laws::recording::is_between(
                    crate::model::value(stored, Column::MaxEventsPerEntity),
                    record.max_events_per_entity as int,
                    u32::MAX as int,
                )
            },
{
}

/// A [`RetentionPolicyRow`] says nothing of a stored row but what the columns that it asks for
/// hold.
pub proof fn the_columns_of_a_retention_policy_row(row: RetentionPolicyRow, stored: Row, other: Row)
    requires
        forall|i: int|
            0 <= i < RetentionPolicyRow::spec_columns().len()
                ==> crate::model::value(stored, #[trigger] RetentionPolicyRow::spec_columns()[i])
                    == crate::model::value(other, RetentionPolicyRow::spec_columns()[i]),
    ensures
        row.is_of(stored) == row.is_of(other),
{
    let columns = RetentionPolicyRow::spec_columns();
    assert(columns[0] == Column::TenantId);
    assert(columns[1] == Column::PolicyId);
    assert(columns[2] == Column::FullHistoryDays);
    assert(columns[3] == Column::CurrentStateDays);
    assert(columns[4] == Column::MaxEventsPerEntity);
}

/// Every [`RetentionPolicyRow`] holds a record.
pub proof fn the_faults_of_a_retention_policy_row(row: RetentionPolicyRow, names: DomainNames)
    ensures
        row.fault(&names) is None,
{
}

/// What the fields of a [`DefaultSetting`] say of the stored row.
pub proof fn the_record_of_a_default_setting_row(
    row: DefaultSettingRow,
    stored: Row,
    names: DomainNames,
    record: DefaultSetting,
)
    requires
        row.is_of(stored),
        row.holds(&names, &record),
    ensures
        crate::model::value(stored, Column::Key) == Datum::Text(record.key@),
        crate::model::value(stored, Column::ValueJson) == Datum::Text(record.value@),
        crate::model::value(stored, Column::Scope) == Datum::Text(record.scope.spec_name()),
{
    crate::vocabulary::scope_names_are_inverse(record.scope, row.scope@);
}

/// A [`DefaultSettingRow`] says nothing of a stored row but what the columns that it asks for
/// hold.
pub proof fn the_columns_of_a_default_setting_row(row: DefaultSettingRow, stored: Row, other: Row)
    requires
        forall|i: int|
            0 <= i < DefaultSettingRow::spec_columns().len()
                ==> crate::model::value(stored, #[trigger] DefaultSettingRow::spec_columns()[i])
                    == crate::model::value(other, DefaultSettingRow::spec_columns()[i]),
    ensures
        row.is_of(stored) == row.is_of(other),
{
    let columns = DefaultSettingRow::spec_columns();
    assert(columns[0] == Column::Scope);
    assert(columns[1] == Column::Key);
    assert(columns[2] == Column::ValueJson);
}

/// When a [`DefaultSettingRow`] holds no record, and how it is refused.
pub proof fn the_faults_of_a_default_setting_row(row: DefaultSettingRow, names: DomainNames)
    ensures
        crate::json::json_refusal(row.value_json@) is Some
            ==> row.fault(&names)
                == Some(
                    ErrorView::Serialization(crate::json::json_refusal(row.value_json@)->Some_0),
                ),
        !(crate::json::json_refusal(row.value_json@) is Some) && row.scope@ != "system"@
            && row.scope@ != "tenant"@ && row.scope@ != "workspace"@ && row.scope@ != "project"@
            ==> row.fault(&names)
                == Some(
                    ErrorView::Internal(
                        "default_settings.scope = "@ + crate::json::quoted(row.scope@)
                            + " is not a known Scope"@,
                    ),
                ),
        !(crate::json::json_refusal(row.value_json@) is Some)
            && !(
                row.scope@ != "system"@ && row.scope@ != "tenant"@ && row.scope@ != "workspace"@
                    && row.scope@ != "project"@
            )
            ==> row.fault(&names) is None,
{
}

/// What the fields of a [`OperatorProfileRecord`] say of the stored row.
pub proof fn the_record_of_an_operator_profile_row(
    row: OperatorProfileRow,
    stored: Row,
    names: DomainNames,
    record: OperatorProfileRecord,
)
    requires
        row.is_of(stored),
        row.holds(&names, &record),
    ensures
        crate::model::value(stored, Column::OperatorId) == Datum::Text(record.operator_id@),
        crate::model::value(stored, Column::TenantId) == Datum::Text(record.tenant_id@),
        crate::model::value(stored, Column::DisplayName) == Datum::Text(record.display_name@),
        record.email == Some(row.email),
        crate::model::value(stored, Column::Role) == Datum::Text(record.role@),
        crate::laws::recording::is_at_least_zero(
            crate::model::value(stored, Column::CreatedAtMs),
            record.created_at as int,
        ),
{
}

/// A [`OperatorProfileRow`] says nothing of a stored row but what the columns that it asks for
/// hold.
pub proof fn the_columns_of_an_operator_profile_row(
    row: OperatorProfileRow,
    stored: Row,
    other: Row,
)
    requires
        forall|i: int|
            0 <= i < OperatorProfileRow::spec_columns().len()
                ==> crate::model::value(stored, #[trigger] OperatorProfileRow::spec_columns()[i])
                    == crate::model::value(other, OperatorProfileRow::spec_columns()[i]),
    ensures
        row.is_of(stored) == row.is_of(other),
{
    let columns = OperatorProfileRow::spec_columns();
    assert(columns[0] == Column::OperatorId);
    assert(columns[1] == Column::TenantId);
    assert(columns[2] == Column::DisplayName);
    assert(columns[3] == Column::Email);
    assert(columns[4] == Column::Role);
    assert(columns[5] == Column::CreatedAtMs);
}

/// Every [`OperatorProfileRow`] holds a record.
pub proof fn the_faults_of_an_operator_profile_row(row: OperatorProfileRow, names: DomainNames)
    ensures
        row.fault(&names) is None,
{
}

/// What the fields of a [`OperatorTenantRoleRecord`] say of the stored row.
pub proof fn the_record_of_an_operator_tenant_role_row(
    row: OperatorTenantRoleRow,
    stored: Row,
    names: DomainNames,
    record: OperatorTenantRoleRecord,
)
    requires
        row.is_of(stored),
        row.holds(&names, &record),
    ensures
        crate::model::value(stored, Column::TenantId) == Datum::Text(record.tenant_id@),
        crate::model::value(stored, Column::OperatorId) == Datum::Text(record.operator_id@),
        record.role@ == crate::read::tenants::role_of(row.role@, names.tenant_roles.deep_view()),
        crate::laws::recording::is_at_least_zero(
            crate::model::value(stored, Column::GrantedAtMs),
            record.granted_at_ms as int,
        ),
        crate::model::value(stored, Column::GrantedBy) == Datum::Text(record.granted_by@),
        match record.revoked_at_ms {
            Some(n) => crate::laws::recording::is_at_least_zero(
                crate::model::value(stored, Column::RevokedAtMs),
                n as int,
            ),
            None => crate::model::value(stored, Column::RevokedAtMs) == Datum::Null,
        },
        crate::model::value(stored, Column::RevokedBy)
            == crate::laws::storing::optional_text(record.revoked_by),
{
}

/// A [`OperatorTenantRoleRow`] says nothing of a stored row but what the columns that it asks for
/// hold.
pub proof fn the_columns_of_an_operator_tenant_role_row(
    row: OperatorTenantRoleRow,
    stored: Row,
    other: Row,
)
    requires
        forall|i: int|
            0 <= i < OperatorTenantRoleRow::spec_columns().len()
                ==> crate::model::value(stored, #[trigger] OperatorTenantRoleRow::spec_columns()[i])
                    == crate::model::value(other, OperatorTenantRoleRow::spec_columns()[i]),
    ensures
        row.is_of(stored) == row.is_of(other),
{
    let columns = OperatorTenantRoleRow::spec_columns();
    assert(columns[0] == Column::TenantId);
    assert(columns[1] == Column::OperatorId);
    assert(columns[2] == Column::Role);
    assert(columns[3] == Column::GrantedAtMs);
    assert(columns[4] == Column::GrantedBy);
    assert(columns[5] == Column::RevokedAtMs);
    assert(columns[6] == Column::RevokedBy);
}

/// Every [`OperatorTenantRoleRow`] holds a record.
pub proof fn the_faults_of_an_operator_tenant_role_row(
    row: OperatorTenantRoleRow,
    names: DomainNames,
)
    ensures
        row.fault(&names) is None,
{
}

/// What the fields of a [`SharedResource`] say of the stored row.
pub proof fn the_record_of_a_resource_share_row(
    row: ResourceShareRow,
    stored: Row,
    names: DomainNames,
    record: SharedResource,
)
    requires
        row.is_of(stored),
        row.holds(&names, &record),
    ensures
        crate::model::value(stored, Column::ShareId) == Datum::Text(record.share_id@),
        crate::model::value(stored, Column::TenantId) == Datum::Text(record.tenant_id@),
        crate::model::value(stored, Column::SourceWorkspaceId)
            == Datum::Text(record.source_workspace_id@),
        crate::model::value(stored, Column::TargetWorkspaceId)
            == Datum::Text(record.target_workspace_id@),
        crate::model::value(stored, Column::ResourceType) == Datum::Text(record.resource_type@),
        crate::model::value(stored, Column::ResourceId) == Datum::Text(record.resource_id@),
        crate::model::value(stored, Column::PermissionsJson) is Text
            && crate::json::json_as_strings(
                crate::model::value(stored, Column::PermissionsJson)->Text_0,
            )
                == Ok::<Seq<Seq<char>>, Seq<char>>(record.permissions.deep_view()),
        crate::laws::recording::is_at_least_zero(
            crate::model::value(stored, Column::SharedAtMs),
            record.shared_at_ms as int,
        ),
{
}

/// A [`ResourceShareRow`] says nothing of a stored row but what the columns that it asks for
/// hold.
pub proof fn the_columns_of_a_resource_share_row(row: ResourceShareRow, stored: Row, other: Row)
    requires
        forall|i: int|
            0 <= i < ResourceShareRow::spec_columns().len()
                ==> crate::model::value(stored, #[trigger] ResourceShareRow::spec_columns()[i])
                    == crate::model::value(other, ResourceShareRow::spec_columns()[i]),
    ensures
        row.is_of(stored) == row.is_of(other),
{
    let columns = ResourceShareRow::spec_columns();
    assert(columns[0] == Column::ShareId);
    assert(columns[1] == Column::TenantId);
    assert(columns[2] == Column::SourceWorkspaceId);
    assert(columns[3] == Column::TargetWorkspaceId);
    assert(columns[4] == Column::ResourceType);
    assert(columns[5] == Column::ResourceId);
    assert(columns[6] == Column::PermissionsJson);
    assert(columns[7] == Column::SharedAtMs);
}

/// When a [`ResourceShareRow`] holds no record, and how it is refused.
pub proof fn the_faults_of_a_resource_share_row(row: ResourceShareRow, names: DomainNames)
    ensures
        crate::json::json_as_strings(row.permissions_json@) is Err
            ==> row.fault(&names)
                == Some(
                    ErrorView::Serialization(
                        "resource_shares.permissions_json decode for share_id="@ + row.share_id@
                            + ": "@ + crate::json::json_as_strings(row.permissions_json@)->Err_0,
                    ),
                ),
        !(crate::json::json_as_strings(row.permissions_json@) is Err) ==> row.fault(&names) is None,
{
}

} // verus!
