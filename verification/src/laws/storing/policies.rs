//! What the events store: policies.

use crate::laws::rows::{group_filters, group_rows};
use crate::model::{Database, Datum, Row};
use crate::plan::{Moment, Planned};
use crate::projections::policies::{
    AuditLogEntryRecorded, CredentialKeyRotated, CredentialRevoked, CredentialStored,
    GuardrailPolicyCreated, GuardrailPolicyEvaluated,
};
use crate::schema::{Column, Table};
use crate::statement::{ConflictView, GuardView};
use vstd::prelude::*;

verus! {

/// What a [`AuditLogEntryRecorded`] event stores.
pub proof fn audit_log_entry_recorded_is_stored(
    e: AuditLogEntryRecorded,
    at: Moment,
    db: Database,
    was: Row,
    other: Column,
)
    ensures
        e.occurred_at_ms > i64::MAX
            ==> e.writes(at)
                == Planned::Refused(
                    crate::laws::storing::too_great(
                        "AuditLogEntryRecorded.occurred_at_ms"@,
                        e.occurred_at_ms as nat,
                        "i64::MAX"@,
                    ),
                ),
        e.occurred_at_ms <= i64::MAX ==> ({
            let s = e.writes(at).statements()[0];
            let new = crate::laws::rows::left_by(db, s, None);
            &&& e.writes(at) is Writes
            &&& e.writes(at).statements().len() == 1
            &&& s is Insert && s.table() == Table::AuditLogEntries
            &&& crate::model::value(new, Column::EntryId) == Datum::Text(e.entry_id@)
            &&& crate::model::value(new, Column::TenantId) == Datum::Text(e.tenant_id@)
            &&& crate::model::value(new, Column::ActorId) == Datum::Text(e.actor_id@)
            &&& crate::model::value(new, Column::Action) == Datum::Text(e.action@)
            &&& crate::model::value(new, Column::ResourceType) == Datum::Text(e.resource_type@)
            &&& crate::model::value(new, Column::ResourceId) == Datum::Text(e.resource_id@)
            &&& crate::model::value(new, Column::Outcome) == Datum::Text(e.outcome.spec_name())
            &&& crate::model::value(new, Column::OccurredAtMs)
                == Datum::Int(e.occurred_at_ms as i64 as int)
            &&& other is EntryId || other is TenantId || other is ActorId || other is Action
                || other is ResourceType || other is ResourceId || other is Outcome
                || other is OccurredAtMs
                || crate::model::value(new, other) == db.default_of(Table::AuditLogEntries, other)
            &&& s->Insert_conflict == ConflictView::Ignore(seq![Column::EntryId])
        }),
{
    broadcast use {group_rows, group_filters};
}

/// What a [`CredentialStored`] event stores.
pub proof fn credential_stored_is_stored(
    e: CredentialStored,
    at: Moment,
    db: Database,
    was: Row,
    other: Column,
)
    ensures
        e.encrypted_at_ms > i64::MAX
            ==> e.writes(at)
                == Planned::Refused(
                    crate::laws::storing::too_great(
                        "CredentialStored.encrypted_at_ms"@,
                        e.encrypted_at_ms as nat,
                        "i64::MAX"@,
                    ),
                ),
        e.encrypted_at_ms <= i64::MAX ==> ({
            let s = e.writes(at).statements()[0];
            let merged = crate::laws::rows::left_by(db, s, Some(was));
            let new = crate::laws::rows::left_by(db, s, None);
            &&& e.writes(at) is Writes
            &&& e.writes(at).statements().len() == 1
            &&& s is Insert && s.table() == Table::Credentials
            &&& crate::model::value(new, Column::CredentialId) == Datum::Text(e.credential_id@)
            &&& crate::model::value(new, Column::TenantId) == Datum::Text(e.tenant_id@)
            &&& crate::model::value(new, Column::Name) == Datum::Text(e.provider_id@)
            &&& crate::model::value(new, Column::ProviderId) == Datum::Text(e.provider_id@)
            &&& crate::model::value(new, Column::CredentialType) == Datum::Text("api_key"@)
            &&& crate::model::value(new, Column::EncryptedValue) == Datum::Bytes(e.encrypted_value@)
            &&& crate::model::value(new, Column::KeyId)
                == crate::laws::storing::optional_text(e.key_id)
            &&& crate::model::value(new, Column::KeyVersion)
                == crate::laws::storing::optional_text(e.key_version)
            &&& crate::model::value(new, Column::Active) == Datum::Bool(true)
            &&& crate::model::value(new, Column::EncryptedAtMs)
                == Datum::Int(e.encrypted_at_ms as i64 as int)
            &&& crate::model::value(new, Column::RevokedAtMs) == Datum::Null
            &&& crate::model::value(new, Column::CreatedAt)
                == Datum::Int(e.encrypted_at_ms as i64 as int)
            &&& crate::model::value(new, Column::UpdatedAt)
                == Datum::Int(e.encrypted_at_ms as i64 as int)
            &&& other is CredentialId || other is TenantId || other is Name || other is ProviderId
                || other is CredentialType || other is EncryptedValue || other is KeyId
                || other is KeyVersion || other is Active || other is EncryptedAtMs
                || other is RevokedAtMs || other is CreatedAt || other is UpdatedAt
                || crate::model::value(new, other) == db.default_of(Table::Credentials, other)
            &&& s->Insert_conflict is Merge
            &&& s->Insert_conflict->Merge_key == seq![Column::CredentialId]
            &&& s->Insert_conflict->Merge_guard == GuardView::Always
            &&& crate::model::value(merged, Column::EncryptedValue)
                == Datum::Bytes(e.encrypted_value@)
            &&& crate::model::value(merged, Column::KeyId)
                == crate::laws::storing::optional_text(e.key_id)
            &&& crate::model::value(merged, Column::KeyVersion)
                == crate::laws::storing::optional_text(e.key_version)
            &&& crate::model::value(merged, Column::EncryptedAtMs)
                == Datum::Int(e.encrypted_at_ms as i64 as int)
            &&& crate::model::value(merged, Column::UpdatedAt)
                == Datum::Int(e.encrypted_at_ms as i64 as int)
            &&& other is EncryptedValue || other is KeyId || other is KeyVersion
                || other is EncryptedAtMs || other is UpdatedAt
                || crate::model::value(merged, other) == crate::model::value(was, other)
        }),
{
    broadcast use {group_rows, group_filters};
}

/// What a [`CredentialRevoked`] event stores.
pub proof fn credential_revoked_is_stored(
    e: CredentialRevoked,
    at: Moment,
    db: Database,
    was: Row,
    other: Column,
)
    ensures
        e.revoked_at_ms > i64::MAX
            ==> e.writes(at)
                == Planned::Refused(
                    crate::laws::storing::too_great(
                        "CredentialRevoked.revoked_at_ms"@,
                        e.revoked_at_ms as nat,
                        "i64::MAX"@,
                    ),
                ),
        e.revoked_at_ms <= i64::MAX ==> ({
            let s = e.writes(at).statements()[0];
            let updated = crate::laws::rows::updated_by(db, s, was);
            let selected = crate::model::value(was, Column::CredentialId)
                == Datum::Text(e.credential_id@);
            &&& e.writes(at) is Writes
            &&& e.writes(at).statements().len() == 1
            &&& s is Update && s.table() == Table::Credentials
            &&& selected ==> {
                &&& crate::model::value(updated, Column::Active) == Datum::Bool(false)
                &&& crate::model::value(updated, Column::RevokedAtMs)
                    == Datum::Int(e.revoked_at_ms as i64 as int)
                &&& crate::model::value(updated, Column::UpdatedAt)
                    == Datum::Int(e.revoked_at_ms as i64 as int)
                &&& other is Active || other is RevokedAtMs || other is UpdatedAt
                    || crate::model::value(updated, other) == crate::model::value(was, other)
            }
            &&& !selected ==> updated == was
        }),
{
    broadcast use {group_rows, group_filters};
}

/// What a [`CredentialKeyRotated`] event stores.
pub proof fn credential_key_rotated_is_stored(
    e: CredentialKeyRotated,
    at: Moment,
    db: Database,
    was: Row,
    other: Column,
)
    ensures
        ({
            let s = e.writes(at).statements()[0];
            let new = crate::laws::rows::left_by(db, s, None);
            &&& e.writes(at) is Writes
            &&& e.writes(at).statements().len() == 1
            &&& s is Insert && s.table() == Table::CredentialRotations
            &&& crate::model::value(new, Column::RotationId) == Datum::Text(e.rotation_id@)
            &&& crate::model::value(new, Column::TenantId) == Datum::Text(e.tenant_id@)
            &&& crate::model::value(new, Column::CredentialId) == Datum::Text(""@)
            &&& crate::model::value(new, Column::OldKeyId) == Datum::Text(e.old_key_id@)
            &&& crate::model::value(new, Column::NewKeyId) == Datum::Text(e.new_key_id@)
            &&& crate::model::value(new, Column::RotatedCredentials)
                == Datum::Int((e.credential_ids_rotated.len() as i32) as int)
            &&& crate::model::value(new, Column::StartedAtMs) == Datum::Int(at.now as int)
            &&& crate::model::value(new, Column::CompletedAtMs) == Datum::Int(at.now as int)
            &&& crate::model::value(new, Column::RotatedAt) == Datum::Int(at.now as int)
            &&& crate::model::value(new, Column::RotatedBy) == Datum::Null
            &&& other is RotationId || other is TenantId || other is CredentialId
                || other is OldKeyId || other is NewKeyId || other is RotatedCredentials
                || other is StartedAtMs || other is CompletedAtMs || other is RotatedAt
                || other is RotatedBy
                || crate::model::value(new, other)
                    == db.default_of(Table::CredentialRotations, other)
            &&& s->Insert_conflict == ConflictView::Ignore(seq![Column::RotationId])
        }),
{
    broadcast use {group_rows, group_filters};
}

/// What a [`GuardrailPolicyCreated`] event stores.
pub proof fn guardrail_policy_created_is_stored(
    e: GuardrailPolicyCreated,
    at: Moment,
    db: Database,
    was: Row,
    other: Column,
)
    ensures
        ({
            let s = e.writes(at).statements()[0];
            let merged = crate::laws::rows::left_by(db, s, Some(was));
            let new = crate::laws::rows::left_by(db, s, None);
            &&& e.writes(at) is Writes
            &&& e.writes(at).statements().len() == 1
            &&& s is Insert && s.table() == Table::GuardrailPolicies
            &&& crate::model::value(new, Column::PolicyId) == Datum::Text(e.policy_id@)
            &&& crate::model::value(new, Column::TenantId) == Datum::Text(e.tenant_id@)
            &&& crate::model::value(new, Column::Name) == Datum::Text(e.name@)
            &&& crate::model::value(new, Column::RulesJson) == Datum::Text(e.rules_json@)
            &&& crate::model::value(new, Column::Enabled) == Datum::Bool(true)
            &&& crate::model::value(new, Column::CreatedAt) == Datum::Int(at.now as int)
            &&& crate::model::value(new, Column::UpdatedAt) == Datum::Int(at.now as int)
            &&& other is PolicyId || other is TenantId || other is Name || other is RulesJson
                || other is Enabled || other is CreatedAt || other is UpdatedAt
                || crate::model::value(new, other) == db.default_of(Table::GuardrailPolicies, other)
            &&& s->Insert_conflict is Merge
            &&& s->Insert_conflict->Merge_key == seq![Column::PolicyId]
            &&& s->Insert_conflict->Merge_guard == GuardView::Always
            &&& crate::model::value(merged, Column::TenantId) == Datum::Text(e.tenant_id@)
            &&& crate::model::value(merged, Column::Name) == Datum::Text(e.name@)
            &&& crate::model::value(merged, Column::RulesJson) == Datum::Text(e.rules_json@)
            &&& crate::model::value(merged, Column::Enabled) == Datum::Bool(true)
            &&& crate::model::value(merged, Column::UpdatedAt) == Datum::Int(at.now as int)
            &&& other is TenantId || other is Name || other is RulesJson || other is Enabled
                || other is UpdatedAt
                || crate::model::value(merged, other) == crate::model::value(was, other)
        }),
{
    broadcast use {group_rows, group_filters};
}

/// What a [`GuardrailPolicyEvaluated`] event stores.
pub proof fn guardrail_policy_evaluated_is_stored(
    e: GuardrailPolicyEvaluated,
    at: Moment,
    db: Database,
    was: Row,
    other: Column,
)
    ensures
        e.evaluated_at_ms > i64::MAX
            ==> e.writes(at)
                == Planned::Refused(
                    crate::laws::storing::too_great(
                        "GuardrailPolicyEvaluated.evaluated_at_ms"@,
                        e.evaluated_at_ms as nat,
                        "i64::MAX"@,
                    ),
                ),
        e.evaluated_at_ms <= i64::MAX ==> ({
            let s = e.writes(at).statements()[0];
            let new = crate::laws::rows::left_by(db, s, None);
            &&& e.writes(at) is Writes
            &&& e.writes(at).statements().len() == 1
            &&& s is Insert && s.table() == Table::GuardrailEvaluations
            &&& crate::model::value(new, Column::PolicyId) == Datum::Text(e.policy_id@)
            &&& crate::model::value(new, Column::TenantId) == Datum::Text(e.tenant_id@)
            &&& crate::model::value(new, Column::SubjectType)
                == Datum::Text(e.subject_type.spec_name())
            &&& crate::model::value(new, Column::SubjectId)
                == Datum::Text(match e.subject_id { Some(s) => s@, None => Seq::empty(), })
            &&& crate::model::value(new, Column::Action) == Datum::Text(e.action@)
            &&& crate::model::value(new, Column::Decision) == Datum::Text(e.decision.spec_name())
            &&& crate::model::value(new, Column::Reason)
                == crate::laws::storing::optional_text(e.reason)
            &&& crate::model::value(new, Column::EvaluatedAtMs)
                == Datum::Int(e.evaluated_at_ms as i64 as int)
            &&& crate::model::value(new, Column::CreatedAt) == Datum::Int(at.now as int)
            &&& other is PolicyId || other is TenantId || other is SubjectType || other is SubjectId
                || other is Action || other is Decision || other is Reason || other is EvaluatedAtMs
                || other is CreatedAt
                || crate::model::value(new, other)
                    == db.default_of(Table::GuardrailEvaluations, other)
            &&& s->Insert_conflict
                == ConflictView::Ignore(
                    seq![
                        Column::TenantId,
                        Column::PolicyId,
                        Column::SubjectType,
                        Column::SubjectId,
                        Column::Action,
                        Column::EvaluatedAtMs,
                    ],
                )
        }),
{
    broadcast use {group_rows, group_filters};
}

} // verus!
