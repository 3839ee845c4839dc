//! What the events store: tenants.

use crate::laws::rows::{group_filters, group_rows};
use crate::model::{Database, Datum, Row};
use crate::plan::{Moment, Planned};
use crate::projections::tenants::{
    DefaultSettingCleared, DefaultSettingSet, EntitlementOverrideSet, LicenseActivated,
    OperatorProfileCreated, OperatorProfileUpdated, ProjectCreated, ResourceShareRevoked,
    ResourceShared, RetentionPolicySet, TenantCreated, TenantQuotaSet, TenantQuotaViolated,
    TenantRoleGranted, TenantRoleRevoked, TenantUpdated, WorkspaceArchived, WorkspaceCreated,
    WorkspaceMemberAdded, WorkspaceMemberRemoved,
};
use crate::schema::{Column, Table};
use crate::statement::{ConflictView, GuardView};
use vstd::prelude::*;

verus! {

/// What a [`DefaultSettingSet`] event stores.
pub proof fn default_setting_set_is_stored(
    e: DefaultSettingSet,
    at: Moment,
    db: Database,
    was: Row,
    other: Column,
)
    ensures
        ({
            let s = e.writes(at).statements()[0];
            let merged = crate::laws::rows::left_by(db, s, Some(was));
            let new = crate::laws::rows::left_by(db, s, None);
            &&& e.writes(at) is Writes
            &&& e.writes(at).statements().len() == 1
            &&& s is Insert && s.table() == Table::DefaultSettings
            &&& crate::model::value(new, Column::Scope) == Datum::Text(e.scope.spec_name())
            &&& crate::model::value(new, Column::ScopeId) == Datum::Text(e.scope_id@)
            &&& crate::model::value(new, Column::Key) == Datum::Text(e.key@)
            &&& crate::model::value(new, Column::ValueJson) == Datum::Text(e.value_json@)
            &&& other is Scope || other is ScopeId || other is Key || other is ValueJson
                || crate::model::value(new, other) == db.default_of(Table::DefaultSettings, other)
            &&& s->Insert_conflict is Merge
            &&& s->Insert_conflict->Merge_key == seq![Column::Scope, Column::ScopeId, Column::Key]
            &&& s->Insert_conflict->Merge_guard == GuardView::Always
            &&& crate::model::value(merged, Column::ValueJson) == Datum::Text(e.value_json@)
            &&& other is ValueJson
                || crate::model::value(merged, other) == crate::model::value(was, other)
        }),
{
    broadcast use {group_rows, group_filters};
}

/// What a [`DefaultSettingCleared`] event stores.
pub proof fn default_setting_cleared_is_stored(
    e: DefaultSettingCleared,
    at: Moment,
    db: Database,
    was: Row,
    other: Column,
)
    ensures
        ({
            let s = e.writes(at).statements()[0];
            &&& e.writes(at) is Writes
            &&& e.writes(at).statements().len() == 1
            &&& s is Delete && s.table() == Table::DefaultSettings
            &&& crate::model::passes_all(db, was, s->Delete_filter)
                <==> crate::model::value(was, Column::Scope) == Datum::Text(e.scope.spec_name())
                    && crate::model::value(was, Column::ScopeId) == Datum::Text(e.scope_id@)
                    && crate::model::value(was, Column::Key) == Datum::Text(e.key@)
        }),
{
    broadcast use {group_rows, group_filters};
}

/// What a [`LicenseActivated`] event stores.
pub proof fn license_activated_is_stored(
    e: LicenseActivated,
    at: Moment,
    db: Database,
    was: Row,
    other: Column,
)
    ensures
        e.valid_from_ms > i64::MAX
            ==> e.writes(at)
                == Planned::Refused(
                    crate::laws::storing::too_great(
                        "LicenseActivated.valid_from_ms"@,
                        e.valid_from_ms as nat,
                        "i64::MAX"@,
                    ),
                ),
        e.valid_from_ms <= i64::MAX
            && (e.valid_until_ms is Some && e.valid_until_ms->Some_0 > i64::MAX)
            ==> e.writes(at)
                == Planned::Refused(
                    crate::laws::storing::too_great(
                        "LicenseActivated.valid_until_ms"@,
                        e.valid_until_ms->0 as nat,
                        "i64::MAX"@,
                    ),
                ),
        e.valid_from_ms <= i64::MAX
            && (!(e.valid_until_ms is Some && e.valid_until_ms->Some_0 > i64::MAX))
            ==> ({
            let s = e.writes(at).statements()[0];
            let merged = crate::laws::rows::left_by(db, s, Some(was));
            let new = crate::laws::rows::left_by(db, s, None);
            &&& e.writes(at) is Writes
            &&& e.writes(at).statements().len() == 1
            &&& s is Insert && s.table() == Table::Licenses
            &&& crate::model::value(new, Column::TenantId) == Datum::Text(e.tenant_id@)
            &&& crate::model::value(new, Column::LicenseKey) == Datum::Text(e.license_id@)
            &&& crate::model::value(new, Column::Tier) == Datum::Text(e.tier.spec_name())
            &&& crate::model::value(new, Column::EntitlementsJson) == Datum::Text("[]"@)
            &&& crate::model::value(new, Column::IssuedAt)
                == Datum::Int(e.valid_from_ms as i64 as int)
            &&& crate::model::value(new, Column::ExpiresAt)
                == crate::laws::storing::optional_number(e.valid_until_ms)
            &&& crate::model::value(new, Column::CreatedAt) == Datum::Int(at.now as int)
            &&& crate::model::value(new, Column::UpdatedAt) == Datum::Int(at.now as int)
            &&& other is TenantId || other is LicenseKey || other is Tier
                || other is EntitlementsJson || other is IssuedAt || other is ExpiresAt
                || other is CreatedAt || other is UpdatedAt
                || crate::model::value(new, other) == db.default_of(Table::Licenses, other)
            &&& s->Insert_conflict is Merge
            &&& s->Insert_conflict->Merge_key == seq![Column::TenantId]
            &&& s->Insert_conflict->Merge_guard == GuardView::Always
            &&& crate::model::value(merged, Column::LicenseKey) == Datum::Text(e.license_id@)
            &&& crate::model::value(merged, Column::Tier) == Datum::Text(e.tier.spec_name())
            &&& crate::model::value(merged, Column::EntitlementsJson) == Datum::Text("[]"@)
            &&& crate::model::value(merged, Column::IssuedAt)
                == Datum::Int(e.valid_from_ms as i64 as int)
            &&& crate::model::value(merged, Column::ExpiresAt)
                == crate::laws::storing::optional_number(e.valid_until_ms)
            &&& crate::model::value(merged, Column::UpdatedAt) == Datum::Int(at.now as int)
            &&& other is LicenseKey || other is Tier || other is EntitlementsJson
                || other is IssuedAt || other is ExpiresAt || other is UpdatedAt
                || crate::model::value(merged, other) == crate::model::value(was, other)
        }),
{
    broadcast use {group_rows, group_filters};
}

/// What a [`EntitlementOverrideSet`] event stores.
pub proof fn entitlement_override_set_is_stored(
    e: EntitlementOverrideSet,
    at: Moment,
    db: Database,
    was: Row,
    other: Column,
)
    ensures
        e.set_at_ms > i64::MAX
            ==> e.writes(at)
                == Planned::Refused(
                    crate::laws::storing::too_great(
                        "EntitlementOverrideSet.set_at_ms"@,
                        e.set_at_ms as nat,
                        "i64::MAX"@,
                    ),
                ),
        e.set_at_ms <= i64::MAX ==> ({
            let s = e.writes(at).statements()[0];
            let merged = crate::laws::rows::left_by(db, s, Some(was));
            let new = crate::laws::rows::left_by(db, s, None);
            &&& e.writes(at) is Writes
            &&& e.writes(at).statements().len() == 1
            &&& s is Insert && s.table() == Table::EntitlementOverrides
            &&& crate::model::value(new, Column::TenantId) == Datum::Text(e.tenant_id@)
            &&& crate::model::value(new, Column::Feature) == Datum::Text(e.feature@)
            &&& crate::model::value(new, Column::Allowed) == Datum::Bool(e.allowed)
            &&& crate::model::value(new, Column::Reason)
                == crate::laws::storing::optional_text(e.reason)
            &&& crate::model::value(new, Column::SetAtMs) == Datum::Int(e.set_at_ms as i64 as int)
            &&& crate::model::value(new, Column::CreatedAt) == Datum::Int(at.now as int)
            &&& crate::model::value(new, Column::UpdatedAt) == Datum::Int(at.now as int)
            &&& other is TenantId || other is Feature || other is Allowed || other is Reason
                || other is SetAtMs || other is CreatedAt || other is UpdatedAt
                || crate::model::value(new, other)
                    == db.default_of(Table::EntitlementOverrides, other)
            &&& s->Insert_conflict is Merge
            &&& s->Insert_conflict->Merge_key == seq![Column::TenantId, Column::Feature]
            &&& s->Insert_conflict->Merge_guard == GuardView::Always
            &&& crate::model::value(merged, Column::Allowed) == Datum::Bool(e.allowed)
            &&& crate::model::value(merged, Column::Reason)
                == crate::laws::storing::optional_text(e.reason)
            &&& crate::model::value(merged, Column::SetAtMs)
                == Datum::Int(e.set_at_ms as i64 as int)
            &&& crate::model::value(merged, Column::UpdatedAt) == Datum::Int(at.now as int)
            &&& other is Allowed || other is Reason || other is SetAtMs || other is UpdatedAt
                || crate::model::value(merged, other) == crate::model::value(was, other)
        }),
{
    broadcast use {group_rows, group_filters};
}

/// What a [`TenantQuotaSet`] event stores.
pub proof fn tenant_quota_set_is_stored(
    e: TenantQuotaSet,
    at: Moment,
    db: Database,
    was: Row,
    other: Column,
)
    ensures
        e.max_concurrent_runs > i32::MAX
            ==> e.writes(at)
                == Planned::Refused(
                    crate::laws::storing::too_great_for_an_integer(
                        "TenantQuotaSet.max_concurrent_runs"@,
                        e.max_concurrent_runs as nat,
                    ),
                ),
        e.max_concurrent_runs <= i32::MAX && e.max_sessions_per_hour > i32::MAX
            ==> e.writes(at)
                == Planned::Refused(
                    crate::laws::storing::too_great_for_an_integer(
                        "TenantQuotaSet.max_sessions_per_hour"@,
                        e.max_sessions_per_hour as nat,
                    ),
                ),
        e.max_concurrent_runs <= i32::MAX && e.max_sessions_per_hour <= i32::MAX
            && e.max_tasks_per_run > i32::MAX
            ==> e.writes(at)
                == Planned::Refused(
                    crate::laws::storing::too_great_for_an_integer(
                        "TenantQuotaSet.max_tasks_per_run"@,
                        e.max_tasks_per_run as nat,
                    ),
                ),
        e.max_concurrent_runs <= i32::MAX && e.max_sessions_per_hour <= i32::MAX
            && e.max_tasks_per_run <= i32::MAX
            ==> ({
            let s = e.writes(at).statements()[0];
            let merged = crate::laws::rows::left_by(db, s, Some(was));
            let new = crate::laws::rows::left_by(db, s, None);
            &&& e.writes(at) is Writes
            &&& e.writes(at).statements().len() == 1
            &&& s is Insert && s.table() == Table::TenantQuotas
            &&& crate::model::value(new, Column::TenantId) == Datum::Text(e.tenant_id@)
            &&& crate::model::value(new, Column::MaxConcurrentRuns)
                == Datum::Int((e.max_concurrent_runs as i32) as int)
            &&& crate::model::value(new, Column::MaxSessionsPerHour)
                == Datum::Int((e.max_sessions_per_hour as i32) as int)
            &&& crate::model::value(new, Column::MaxTasksPerRun)
                == Datum::Int((e.max_tasks_per_run as i32) as int)
            &&& crate::model::value(new, Column::CreatedAt) == Datum::Int(at.now as int)
            &&& crate::model::value(new, Column::UpdatedAt) == Datum::Int(at.now as int)
            &&& other is TenantId || other is MaxConcurrentRuns || other is MaxSessionsPerHour
                || other is MaxTasksPerRun || other is CreatedAt || other is UpdatedAt
                || crate::model::value(new, other) == db.default_of(Table::TenantQuotas, other)
            &&& s->Insert_conflict is Merge
            &&& s->Insert_conflict->Merge_key == seq![Column::TenantId]
            &&& s->Insert_conflict->Merge_guard == GuardView::Always
            &&& crate::model::value(merged, Column::MaxConcurrentRuns)
                == Datum::Int((e.max_concurrent_runs as i32) as int)
            &&& crate::model::value(merged, Column::MaxSessionsPerHour)
                == Datum::Int((e.max_sessions_per_hour as i32) as int)
            &&& crate::model::value(merged, Column::MaxTasksPerRun)
                == Datum::Int((e.max_tasks_per_run as i32) as int)
            &&& crate::model::value(merged, Column::UpdatedAt) == Datum::Int(at.now as int)
            &&& other is MaxConcurrentRuns || other is MaxSessionsPerHour || other is MaxTasksPerRun
                || other is UpdatedAt
                || crate::model::value(merged, other) == crate::model::value(was, other)
        }),
{
    broadcast use {group_rows, group_filters};
}

/// What a [`TenantQuotaViolated`] event stores.
pub proof fn tenant_quota_violated_is_stored(
    e: TenantQuotaViolated,
    at: Moment,
    db: Database,
    was: Row,
    other: Column,
)
    ensures
        e.occurred_at_ms > i64::MAX
            ==> e.writes(at)
                == Planned::Refused(
                    crate::laws::storing::too_great(
                        "TenantQuotaViolated.occurred_at_ms"@,
                        e.occurred_at_ms as nat,
                        "i64::MAX"@,
                    ),
                ),
        e.occurred_at_ms <= i64::MAX && e.current > i32::MAX
            ==> e.writes(at)
                == Planned::Refused(
                    crate::laws::storing::too_great_for_an_integer(
                        "TenantQuotaViolated.current"@,
                        e.current as nat,
                    ),
                ),
        e.occurred_at_ms <= i64::MAX && e.current <= i32::MAX && e.limit > i32::MAX
            ==> e.writes(at)
                == Planned::Refused(
                    crate::laws::storing::too_great_for_an_integer(
                        "TenantQuotaViolated.limit"@,
                        e.limit as nat,
                    ),
                ),
        e.occurred_at_ms <= i64::MAX && e.current <= i32::MAX && e.limit <= i32::MAX ==> ({
            let s = e.writes(at).statements()[0];
            let new = crate::laws::rows::left_by(db, s, None);
            &&& e.writes(at) is Writes
            &&& e.writes(at).statements().len() == 1
            &&& s is Insert && s.table() == Table::TenantQuotaViolations
            &&& crate::model::value(new, Column::TenantId) == Datum::Text(e.tenant_id@)
            &&& crate::model::value(new, Column::QuotaType) == Datum::Text(e.quota_type@)
            &&& crate::model::value(new, Column::OccurredAtMs)
                == Datum::Int(e.occurred_at_ms as i64 as int)
            &&& crate::model::value(new, Column::CurrentValue)
                == Datum::Int((e.current as i32) as int)
            &&& crate::model::value(new, Column::LimitValue) == Datum::Int((e.limit as i32) as int)
            &&& other is TenantId || other is QuotaType || other is OccurredAtMs
                || other is CurrentValue || other is LimitValue
                || crate::model::value(new, other)
                    == db.default_of(Table::TenantQuotaViolations, other)
            &&& s->Insert_conflict
                == ConflictView::Ignore(
                    seq![Column::TenantId, Column::QuotaType, Column::OccurredAtMs],
                )
        }),
{
    broadcast use {group_rows, group_filters};
}

/// What a [`RetentionPolicySet`] event stores.
pub proof fn retention_policy_set_is_stored(
    e: RetentionPolicySet,
    at: Moment,
    db: Database,
    was: Row,
    other: Column,
)
    ensures
        e.full_history_days > i32::MAX
            ==> e.writes(at)
                == Planned::Refused(
                    crate::laws::storing::too_great(
                        "RetentionPolicySet.full_history_days"@,
                        e.full_history_days as nat,
                        "i32::MAX"@,
                    ),
                ),
        e.full_history_days <= i32::MAX && e.current_state_days > i32::MAX
            ==> e.writes(at)
                == Planned::Refused(
                    crate::laws::storing::too_great(
                        "RetentionPolicySet.current_state_days"@,
                        e.current_state_days as nat,
                        "i32::MAX"@,
                    ),
                ),
        e.full_history_days <= i32::MAX && e.current_state_days <= i32::MAX
            && (e.max_events_per_entity is Some && e.max_events_per_entity->Some_0 > i64::MAX)
            ==> e.writes(at)
                == Planned::Refused(
                    crate::laws::storing::too_great(
                        "RetentionPolicySet.max_events_per_entity"@,
                        e.max_events_per_entity->0 as nat,
                        "i64::MAX"@,
                    ),
                ),
        e.full_history_days <= i32::MAX && e.current_state_days <= i32::MAX
            && (!(e.max_events_per_entity is Some && e.max_events_per_entity->Some_0 > i64::MAX))
            ==> ({
            let s = e.writes(at).statements()[0];
            let merged = crate::laws::rows::left_by(db, s, Some(was));
            let new = crate::laws::rows::left_by(db, s, None);
            &&& e.writes(at) is Writes
            &&& e.writes(at).statements().len() == 1
            &&& s is Insert && s.table() == Table::RetentionPolicies
            &&& crate::model::value(new, Column::TenantId) == Datum::Text(e.tenant_id@)
            &&& crate::model::value(new, Column::PolicyId) == Datum::Text(e.policy_id@)
            &&& crate::model::value(new, Column::FullHistoryDays)
                == Datum::Int((e.full_history_days as i32) as int)
            &&& crate::model::value(new, Column::CurrentStateDays)
                == Datum::Int((e.current_state_days as i32) as int)
            &&& crate::model::value(new, Column::MaxEventsPerEntity)
                == crate::laws::storing::optional_number(e.max_events_per_entity)
            &&& crate::model::value(new, Column::CreatedAt) == Datum::Int(at.now as int)
            &&& crate::model::value(new, Column::UpdatedAt) == Datum::Int(at.now as int)
            &&& other is TenantId || other is PolicyId || other is FullHistoryDays
                || other is CurrentStateDays || other is MaxEventsPerEntity || other is CreatedAt
                || other is UpdatedAt
                || crate::model::value(new, other) == db.default_of(Table::RetentionPolicies, other)
            &&& s->Insert_conflict is Merge
            &&& s->Insert_conflict->Merge_key == seq![Column::TenantId]
            &&& s->Insert_conflict->Merge_guard == GuardView::Always
            &&& crate::model::value(merged, Column::PolicyId) == Datum::Text(e.policy_id@)
            &&& crate::model::value(merged, Column::FullHistoryDays)
                == Datum::Int((e.full_history_days as i32) as int)
            &&& crate::model::value(merged, Column::CurrentStateDays)
                == Datum::Int((e.current_state_days as i32) as int)
            &&& crate::model::value(merged, Column::MaxEventsPerEntity)
                == crate::laws::storing::optional_number(e.max_events_per_entity)
            &&& crate::model::value(merged, Column::UpdatedAt) == Datum::Int(at.now as int)
            &&& other is PolicyId || other is FullHistoryDays || other is CurrentStateDays
                || other is MaxEventsPerEntity || other is UpdatedAt
                || crate::model::value(merged, other) == crate::model::value(was, other)
        }),
{
    broadcast use {group_rows, group_filters};
}

/// What a [`OperatorProfileCreated`] event stores.
pub proof fn operator_profile_created_is_stored(
    e: OperatorProfileCreated,
    at: Moment,
    db: Database,
    was: Row,
    other: Column,
)
    ensures
        ({
            let s = e.writes(at).statements()[0];
            let merged = crate::laws::rows::left_by(db, s, Some(was));
            let new = crate::laws::rows::left_by(db, s, None);
            &&& e.writes(at) is Writes
            &&& e.writes(at).statements().len() == 1
            &&& s is Insert && s.table() == Table::OperatorProfiles
            &&& crate::model::value(new, Column::OperatorId) == Datum::Text(e.profile_id@)
            &&& crate::model::value(new, Column::TenantId) == Datum::Text(e.tenant_id@)
            &&& crate::model::value(new, Column::DisplayName) == Datum::Text(e.display_name@)
            &&& crate::model::value(new, Column::Email) == Datum::Text(e.email@)
            &&& crate::model::value(new, Column::Role) == Datum::Text(e.role@)
            &&& crate::model::value(new, Column::CreatedAtMs) == Datum::Int(at.now as int)
            &&& other is OperatorId || other is TenantId || other is DisplayName || other is Email
                || other is Role || other is CreatedAtMs
                || crate::model::value(new, other) == db.default_of(Table::OperatorProfiles, other)
            &&& s->Insert_conflict is Merge
            &&& s->Insert_conflict->Merge_key == seq![Column::OperatorId]
            &&& s->Insert_conflict->Merge_guard == GuardView::Always
            &&& crate::model::value(merged, Column::TenantId) == Datum::Text(e.tenant_id@)
            &&& crate::model::value(merged, Column::DisplayName) == Datum::Text(e.display_name@)
            &&& crate::model::value(merged, Column::Email) == Datum::Text(e.email@)
            &&& crate::model::value(merged, Column::Role) == Datum::Text(e.role@)
            &&& crate::model::value(merged, Column::CreatedAtMs) == Datum::Int(at.now as int)
            &&& other is TenantId || other is DisplayName || other is Email || other is Role
                || other is CreatedAtMs
                || crate::model::value(merged, other) == crate::model::value(was, other)
        }),
{
    broadcast use {group_rows, group_filters};
}

/// What a [`OperatorProfileUpdated`] event stores.
pub proof fn operator_profile_updated_is_stored(
    e: OperatorProfileUpdated,
    at: Moment,
    db: Database,
    was: Row,
    other: Column,
)
    ensures
        ({
            let s = e.writes(at).statements()[0];
            let updated = crate::laws::rows::updated_by(db, s, was);
            let selected = crate::model::value(was, Column::OperatorId)
                == Datum::Text(e.profile_id@);
            &&& e.writes(at) is Writes
            &&& e.writes(at).statements().len() == 1
            &&& s is Update && s.table() == Table::OperatorProfiles
            &&& selected ==> {
                &&& crate::model::value(updated, Column::DisplayName)
                    == crate::model::coalesce(
                        crate::laws::storing::optional_text(e.display_name),
                        crate::model::value(was, Column::DisplayName),
                    )
                &&& crate::model::value(updated, Column::Email)
                    == crate::model::coalesce(
                        crate::laws::storing::optional_text(e.email),
                        crate::model::value(was, Column::Email),
                    )
                &&& crate::model::value(updated, Column::Role)
                    == crate::model::coalesce(
                        crate::laws::storing::optional_text(e.role),
                        crate::model::value(was, Column::Role),
                    )
                &&& other is DisplayName || other is Email || other is Role
                    || crate::model::value(updated, other) == crate::model::value(was, other)
            }
            &&& !selected ==> updated == was
        }),
{
    broadcast use {group_rows, group_filters};
}

/// What a [`TenantRoleGranted`] event stores.
pub proof fn tenant_role_granted_is_stored(
    e: TenantRoleGranted,
    at: Moment,
    db: Database,
    was: Row,
    other: Column,
)
    ensures
        e.at_ms > i64::MAX
            ==> e.writes(at)
                == Planned::Refused(
                    crate::laws::storing::too_great(
                        "TenantRoleGranted.at_ms"@,
                        e.at_ms as nat,
                        "i64::MAX"@,
                    ),
                ),
        e.at_ms <= i64::MAX ==> ({
            let s = e.writes(at).statements()[0];
            let merged = crate::laws::rows::left_by(db, s, Some(was));
            let new = crate::laws::rows::left_by(db, s, None);
            &&& e.writes(at) is Writes
            &&& e.writes(at).statements().len() == 1
            &&& s is Insert && s.table() == Table::OperatorTenantRoles
            &&& crate::model::value(new, Column::TenantId) == Datum::Text(e.tenant_id@)
            &&& crate::model::value(new, Column::OperatorId) == Datum::Text(e.operator_id@)
            &&& crate::model::value(new, Column::Role) == Datum::Text(e.role@)
            &&& crate::model::value(new, Column::GrantedAtMs) == Datum::Int(e.at_ms as i64 as int)
            &&& crate::model::value(new, Column::GrantedBy) == Datum::Text(e.granted_by@)
            &&& crate::model::value(new, Column::RevokedAtMs) == Datum::Null
            &&& crate::model::value(new, Column::RevokedBy) == Datum::Null
            &&& other is TenantId || other is OperatorId || other is Role || other is GrantedAtMs
                || other is GrantedBy || other is RevokedAtMs || other is RevokedBy
                || crate::model::value(new, other)
                    == db.default_of(Table::OperatorTenantRoles, other)
            &&& s->Insert_conflict is Merge
            &&& s->Insert_conflict->Merge_key == seq![Column::TenantId, Column::OperatorId]
            &&& s->Insert_conflict->Merge_guard == GuardView::Always
            &&& crate::model::value(merged, Column::Role) == Datum::Text(e.role@)
            &&& crate::model::value(merged, Column::GrantedAtMs)
                == Datum::Int(e.at_ms as i64 as int)
            &&& crate::model::value(merged, Column::GrantedBy) == Datum::Text(e.granted_by@)
            &&& crate::model::value(merged, Column::RevokedAtMs) == Datum::Null
            &&& crate::model::value(merged, Column::RevokedBy) == Datum::Null
            &&& other is Role || other is GrantedAtMs || other is GrantedBy || other is RevokedAtMs
                || other is RevokedBy
                || crate::model::value(merged, other) == crate::model::value(was, other)
        }),
{
    broadcast use {group_rows, group_filters};
}

/// What a [`TenantRoleRevoked`] event stores.
pub proof fn tenant_role_revoked_is_stored(
    e: TenantRoleRevoked,
    at: Moment,
    db: Database,
    was: Row,
    other: Column,
)
    ensures
        e.at_ms > i64::MAX
            ==> e.writes(at)
                == Planned::Refused(
                    crate::laws::storing::too_great(
                        "TenantRoleRevoked.at_ms"@,
                        e.at_ms as nat,
                        "i64::MAX"@,
                    ),
                ),
        e.at_ms <= i64::MAX ==> ({
            let s = e.writes(at).statements()[0];
            let updated = crate::laws::rows::updated_by(db, s, was);
            let selected = crate::model::value(was, Column::TenantId) == Datum::Text(e.tenant_id@)
                && crate::model::value(was, Column::OperatorId) == Datum::Text(e.operator_id@);
            &&& e.writes(at) is Writes
            &&& e.writes(at).statements().len() == 1
            &&& s is Update && s.table() == Table::OperatorTenantRoles
            &&& selected ==> {
                &&& crate::model::value(updated, Column::RevokedAtMs)
                    == Datum::Int(e.at_ms as i64 as int)
                &&& crate::model::value(updated, Column::RevokedBy) == Datum::Text(e.revoked_by@)
                &&& other is RevokedAtMs || other is RevokedBy
                    || crate::model::value(updated, other) == crate::model::value(was, other)
            }
            &&& !selected ==> updated == was
        }),
{
    broadcast use {group_rows, group_filters};
}

/// What a [`ResourceShared`] event stores.
pub proof fn resource_shared_is_stored(
    e: ResourceShared,
    at: Moment,
    db: Database,
    was: Row,
    other: Column,
)
    ensures
        e.shared_at_ms > i64::MAX
            ==> e.writes(at)
                == Planned::Refused(
                    crate::laws::storing::too_great(
                        "ResourceShared.shared_at_ms"@,
                        e.shared_at_ms as nat,
                        "i64::MAX"@,
                    ),
                ),
        e.shared_at_ms <= i64::MAX ==> ({
            let s = e.writes(at).statements()[0];
            let new = crate::laws::rows::left_by(db, s, None);
            &&& e.writes(at) is Writes
            &&& e.writes(at).statements().len() == 1
            &&& s is Insert && s.table() == Table::ResourceShares
            &&& crate::model::value(new, Column::ShareId) == Datum::Text(e.share_id@)
            &&& crate::model::value(new, Column::TenantId) == Datum::Text(e.tenant_id@)
            &&& crate::model::value(new, Column::SourceWorkspaceId)
                == Datum::Text(e.source_workspace_id@)
            &&& crate::model::value(new, Column::TargetWorkspaceId)
                == Datum::Text(e.target_workspace_id@)
            &&& crate::model::value(new, Column::ResourceType) == Datum::Text(e.resource_type@)
            &&& crate::model::value(new, Column::ResourceId) == Datum::Text(e.resource_id@)
            &&& crate::model::value(new, Column::PermissionsJson)
                == Datum::Text(crate::json::strings_as_json(e.permissions.deep_view()))
            &&& crate::model::value(new, Column::SharedAtMs)
                == Datum::Int(e.shared_at_ms as i64 as int)
            &&& other is ShareId || other is TenantId || other is SourceWorkspaceId
                || other is TargetWorkspaceId || other is ResourceType || other is ResourceId
                || other is PermissionsJson || other is SharedAtMs
                || crate::model::value(new, other) == db.default_of(Table::ResourceShares, other)
            &&& s->Insert_conflict == ConflictView::Ignore(seq![Column::ShareId])
        }),
{
    broadcast use {group_rows, group_filters};
}

/// What a [`ResourceShareRevoked`] event stores.
pub proof fn resource_share_revoked_is_stored(
    e: ResourceShareRevoked,
    at: Moment,
    db: Database,
    was: Row,
    other: Column,
)
    ensures
        ({
            let s = e.writes(at).statements()[0];
            &&& e.writes(at) is Writes
            &&& e.writes(at).statements().len() == 1
            &&& s is Delete && s.table() == Table::ResourceShares
            &&& crate::model::passes_all(db, was, s->Delete_filter)
                <==> crate::model::value(was, Column::ShareId) == Datum::Text(e.share_id@)
        }),
{
    broadcast use {group_rows, group_filters};
}

/// What a [`TenantCreated`] event stores.
pub proof fn tenant_created_is_stored(
    e: TenantCreated,
    at: Moment,
    db: Database,
    was: Row,
    other: Column,
)
    ensures
        ({
            let s = e.writes(at).statements()[0];
            let new = crate::laws::rows::left_by(db, s, None);
            &&& e.writes(at) is Writes
            &&& e.writes(at).statements().len() == 1
            &&& s is Insert && s.table() == Table::Tenants
            &&& crate::model::value(new, Column::TenantId) == Datum::Text(e.tenant_id@)
            &&& crate::model::value(new, Column::Name) == Datum::Text(e.name@)
            &&& crate::model::value(new, Column::CreatedAt)
                == Datum::Int(e.created_at as i64 as int)
            &&& crate::model::value(new, Column::UpdatedAt)
                == Datum::Int(e.created_at as i64 as int)
            &&& other is TenantId || other is Name || other is CreatedAt || other is UpdatedAt
                || crate::model::value(new, other) == db.default_of(Table::Tenants, other)
            &&& s->Insert_conflict == ConflictView::Ignore(seq![Column::TenantId])
        }),
{
    broadcast use {group_rows, group_filters};
}

/// What a [`TenantUpdated`] event stores.
pub proof fn tenant_updated_is_stored(
    e: TenantUpdated,
    at: Moment,
    db: Database,
    was: Row,
    other: Column,
)
    ensures
        e.updated_at_ms > i64::MAX
            ==> e.writes(at)
                == Planned::Refused(
                    crate::laws::storing::too_great(
                        "TenantUpdated.updated_at_ms"@,
                        e.updated_at_ms as nat,
                        "i64::MAX"@,
                    ),
                ),
        e.updated_at_ms <= i64::MAX ==> ({
            let s = e.writes(at).statements()[0];
            let updated = crate::laws::rows::updated_by(db, s, was);
            let selected = crate::model::value(was, Column::TenantId) == Datum::Text(e.tenant_id@);
            &&& e.writes(at) is Writes
            &&& e.writes(at).statements().len() == 1
            &&& s is Update && s.table() == Table::Tenants
            &&& selected ==> {
                &&& crate::model::value(updated, Column::Name)
                    == crate::model::coalesce(
                        crate::laws::storing::optional_text(e.name),
                        crate::model::value(was, Column::Name),
                    )
                &&& crate::model::value(updated, Column::UpdatedAt)
                    == Datum::Int(e.updated_at_ms as i64 as int)
                &&& other is Name || other is UpdatedAt
                    || crate::model::value(updated, other) == crate::model::value(was, other)
            }
            &&& !selected ==> updated == was
        }),
{
    broadcast use {group_rows, group_filters};
}

/// What a [`WorkspaceCreated`] event stores.
pub proof fn workspace_created_is_stored(
    e: WorkspaceCreated,
    at: Moment,
    db: Database,
    was: Row,
    other: Column,
)
    ensures
        ({
            let s = e.writes(at).statements()[0];
            let new = crate::laws::rows::left_by(db, s, None);
            &&& e.writes(at) is Writes
            &&& e.writes(at).statements().len() == 1
            &&& s is Insert && s.table() == Table::Workspaces
            &&& crate::model::value(new, Column::WorkspaceId) == Datum::Text(e.workspace_id@)
            &&& crate::model::value(new, Column::TenantId) == Datum::Text(e.tenant_id@)
            &&& crate::model::value(new, Column::Name) == Datum::Text(e.name@)
            &&& crate::model::value(new, Column::CreatedAt)
                == Datum::Int(e.created_at as i64 as int)
            &&& crate::model::value(new, Column::UpdatedAt)
                == Datum::Int(e.created_at as i64 as int)
            &&& other is WorkspaceId || other is TenantId || other is Name || other is CreatedAt
                || other is UpdatedAt
                || crate::model::value(new, other) == db.default_of(Table::Workspaces, other)
            &&& s->Insert_conflict == ConflictView::Ignore(seq![Column::WorkspaceId])
        }),
{
    broadcast use {group_rows, group_filters};
}

/// What a [`WorkspaceArchived`] event stores.
pub proof fn workspace_archived_is_stored(
    e: WorkspaceArchived,
    at: Moment,
    db: Database,
    was: Row,
    other: Column,
)
    ensures
        ({
            let s = e.writes(at).statements()[0];
            let updated = crate::laws::rows::updated_by(db, s, was);
            let selected = crate::model::value(was, Column::WorkspaceId)
                == Datum::Text(e.workspace_id@)
                && crate::model::value(was, Column::TenantId) == Datum::Text(e.tenant_id@);
            &&& e.writes(at) is Writes
            &&& e.writes(at).statements().len() == 1
            &&& s is Update && s.table() == Table::Workspaces
            &&& selected ==> {
                &&& crate::model::value(updated, Column::ArchivedAt)
                    == Datum::Int(e.archived_at as i64 as int)
                &&& crate::model::value(updated, Column::UpdatedAt)
                    == Datum::Int(e.archived_at as i64 as int)
                &&& other is ArchivedAt || other is UpdatedAt
                    || crate::model::value(updated, other) == crate::model::value(was, other)
            }
            &&& !selected ==> updated == was
        }),
{
    broadcast use {group_rows, group_filters};
}

/// What a [`ProjectCreated`] event stores.
pub proof fn project_created_is_stored(
    e: ProjectCreated,
    at: Moment,
    db: Database,
    was: Row,
    other: Column,
)
    ensures
        ({
            let s = e.writes(at).statements()[0];
            let new = crate::laws::rows::left_by(db, s, None);
            &&& e.writes(at) is Writes
            &&& e.writes(at).statements().len() == 1
            &&& s is Insert && s.table() == Table::Projects
            &&& crate::model::value(new, Column::ProjectId) == Datum::Text(e.project.project_id@)
            &&& crate::model::value(new, Column::WorkspaceId)
                == Datum::Text(e.project.workspace_id@)
            &&& crate::model::value(new, Column::TenantId) == Datum::Text(e.project.tenant_id@)
            &&& crate::model::value(new, Column::Name) == Datum::Text(e.name@)
            &&& crate::model::value(new, Column::CreatedAt)
                == Datum::Int(e.created_at as i64 as int)
            &&& crate::model::value(new, Column::UpdatedAt)
                == Datum::Int(e.created_at as i64 as int)
            &&& other is ProjectId || other is WorkspaceId || other is TenantId || other is Name
                || other is CreatedAt || other is UpdatedAt
                || crate::model::value(new, other) == db.default_of(Table::Projects, other)
            &&& s->Insert_conflict == ConflictView::Ignore(seq![Column::ProjectId])
        }),
{
    broadcast use {group_rows, group_filters};
}

/// What a [`WorkspaceMemberAdded`] event stores.
pub proof fn workspace_member_added_is_stored(
    e: WorkspaceMemberAdded,
    at: Moment,
    db: Database,
    was: Row,
    other: Column,
)
    ensures
        ({
            let s = e.writes(at).statements()[0];
            let merged = crate::laws::rows::left_by(db, s, Some(was));
            let new = crate::laws::rows::left_by(db, s, None);
            &&& e.writes(at) is Writes
            &&& e.writes(at).statements().len() == 1
            &&& s is Insert && s.table() == Table::WorkspaceMembers
            &&& crate::model::value(new, Column::WorkspaceId) == Datum::Text(e.workspace_id@)
            &&& crate::model::value(new, Column::OperatorId) == Datum::Text(e.member_id@)
            &&& crate::model::value(new, Column::Role) == Datum::Text(e.role@)
            &&& crate::model::value(new, Column::AddedAtMs)
                == Datum::Int(e.added_at_ms as i64 as int)
            &&& other is WorkspaceId || other is OperatorId || other is Role || other is AddedAtMs
                || crate::model::value(new, other) == db.default_of(Table::WorkspaceMembers, other)
            &&& s->Insert_conflict is Merge
            &&& s->Insert_conflict->Merge_key == seq![Column::WorkspaceId, Column::OperatorId]
            &&& s->Insert_conflict->Merge_guard == GuardView::Always
            &&& crate::model::value(merged, Column::Role) == Datum::Text(e.role@)
            &&& other is Role
                || crate::model::value(merged, other) == crate::model::value(was, other)
        }),
{
    broadcast use {group_rows, group_filters};
}

/// What a [`WorkspaceMemberRemoved`] event stores.
pub proof fn workspace_member_removed_is_stored(
    e: WorkspaceMemberRemoved,
    at: Moment,
    db: Database,
    was: Row,
    other: Column,
)
    ensures
        ({
            let s = e.writes(at).statements()[0];
            &&& e.writes(at) is Writes
            &&& e.writes(at).statements().len() == 1
            &&& s is Delete && s.table() == Table::WorkspaceMembers
            &&& crate::model::passes_all(db, was, s->Delete_filter)
                <==> crate::model::value(was, Column::WorkspaceId) == Datum::Text(e.workspace_id@)
                    && crate::model::value(was, Column::OperatorId) == Datum::Text(e.member_id@)
        }),
{
    broadcast use {group_rows, group_filters};
}

} // verus!
