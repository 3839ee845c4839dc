//! What guardrail, audit and credential events write.

use crate::error::{ErrorView, StoreError};
use crate::plan::{one, Moment, Planned};
use crate::schema::{Column, Table};
use crate::statement::{only, Cells, Changes, ChangesView, Filter, FilterView, RowView, Statement};
use crate::text::fits_i64;
use crate::value::{bytes, opt_text, text, SqlType, SqlValue, ValueView};
use crate::vocabulary::{AuditOutcome, GuardrailDecisionKind, GuardrailSubjectType};
use vstd::prelude::*;

verus! {

/// A guardrail policy was created or replaced.
#[derive(Debug, PartialEq, Eq)]
pub struct GuardrailPolicyCreated {
    pub rules_json: String,
    pub policy_id: String,
    pub tenant_id: String,
    pub name: String,
}

impl GuardrailPolicyCreated {
    /// What the event writes.
    pub open spec fn writes(self, at: Moment) -> Planned {
        Planned::Writes(
            seq![
                RowView::new()
                    .put(Column::PolicyId, ValueView::Text(self.policy_id@))
                    .put(Column::TenantId, ValueView::Text(self.tenant_id@))
                    .put(Column::Name, ValueView::Text(self.name@))
                    .put(Column::RulesJson, ValueView::Text(self.rules_json@))
                    .put(Column::Enabled, ValueView::Bool(true))
                    .put(Column::CreatedAt, ValueView::Int8(at.now))
                    .put(Column::UpdatedAt, ValueView::Int8(at.now))
                    .upsert(
                        Table::GuardrailPolicies,
                        seq![Column::PolicyId],
                        ChangesView::new()
                            .excluded(Column::TenantId)
                            .excluded(Column::Name)
                            .excluded(Column::RulesJson)
                            .excluded(Column::Enabled)
                            .excluded(Column::UpdatedAt),
                    ),
            ],
        )
    }

    /// Plans what the event writes.
    pub fn plan(&self, at: &Moment) -> (r: Result<Vec<Statement>, StoreError>)
        ensures
            Planned::of(r) == self.writes(*at),
    {
        let mut row = Cells::new();
        row.put(Column::PolicyId, text(&self.policy_id));
        row.put(Column::TenantId, text(&self.tenant_id));
        row.put(Column::Name, text(&self.name));
        row.put(Column::RulesJson, text(&self.rules_json));
        row.put(Column::Enabled, SqlValue::Bool(true));
        row.put(Column::CreatedAt, SqlValue::Int8(at.now));
        row.put(Column::UpdatedAt, SqlValue::Int8(at.now));
        let mut changes = Changes::new();
        changes.excluded(Column::TenantId);
        changes.excluded(Column::Name);
        changes.excluded(Column::RulesJson);
        changes.excluded(Column::Enabled);
        changes.excluded(Column::UpdatedAt);
        one(row.upsert(Table::GuardrailPolicies, only(Column::PolicyId), changes))
    }
}

/// A guardrail policy was evaluated. A missing subject is stored as the empty name.
#[derive(Debug, PartialEq, Eq)]
pub struct GuardrailPolicyEvaluated {
    pub evaluated_at_ms: u64,
    pub subject_type: GuardrailSubjectType,
    pub decision: GuardrailDecisionKind,
    pub subject_id: Option<String>,
    pub policy_id: String,
    pub tenant_id: String,
    pub action: String,
    pub reason: Option<String>,
}

impl GuardrailPolicyEvaluated {
    /// What the event writes.
    pub open spec fn writes(self, at: Moment) -> Planned {
        if self.evaluated_at_ms > i64::MAX {
            Planned::Refused(
                ErrorView::exceeds(
                    "GuardrailPolicyEvaluated.evaluated_at_ms"@,
                    self.evaluated_at_ms as nat,
                    "i64::MAX"@,
                ),
            )
        } else {
            Planned::Writes(
                seq![
                    RowView::new()
                        .put(Column::PolicyId, ValueView::Text(self.policy_id@))
                        .put(Column::TenantId, ValueView::Text(self.tenant_id@))
                        .put(Column::SubjectType, ValueView::Text(self.subject_type.spec_name()))
                        .put(
                            Column::SubjectId,
                            ValueView::Text(
                                match self.subject_id { Some(s) => s@, None => Seq::empty(), },
                            ),
                        )
                        .put(Column::Action, ValueView::Text(self.action@))
                        .put(Column::Decision, ValueView::Text(self.decision.spec_name()))
                        .put(Column::Reason, ValueView::opt_text(self.reason))
                        .put(Column::EvaluatedAtMs, ValueView::Int8(self.evaluated_at_ms as i64))
                        .put(Column::CreatedAt, ValueView::Int8(at.now))
                        .insert_new(
                            Table::GuardrailEvaluations,
                            seq![
                                Column::TenantId,
                                Column::PolicyId,
                                Column::SubjectType,
                                Column::SubjectId,
                                Column::Action,
                                Column::EvaluatedAtMs,
                            ],
                        ),
                ],
            )
        }
    }

    /// Plans what the event writes.
    pub fn plan(&self, at: &Moment) -> (r: Result<Vec<Statement>, StoreError>)
        ensures
            Planned::of(r) == self.writes(*at),
    {
        let evaluated_at: i64 = match fits_i64(
            "GuardrailPolicyEvaluated.evaluated_at_ms",
            self.evaluated_at_ms,
        ) {
            Ok(v) => v,
            Err(e) => return Err(e),
        };
        let mut row = Cells::new();
        row.put(Column::PolicyId, text(&self.policy_id));
        row.put(Column::TenantId, text(&self.tenant_id));
        row.put(Column::SubjectType, text(self.subject_type.name()));
        row.put(
            Column::SubjectId,
            SqlValue::Text(match &self.subject_id { Some(s) => s.clone(), None => String::new(), }),
        );
        row.put(Column::Action, text(&self.action));
        row.put(Column::Decision, text(self.decision.name()));
        row.put(Column::Reason, opt_text(&self.reason));
        row.put(Column::EvaluatedAtMs, SqlValue::Int8(evaluated_at));
        row.put(Column::CreatedAt, SqlValue::Int8(at.now));
        one(
            row.insert_new(
                Table::GuardrailEvaluations,
                vec![
                    Column::TenantId,
                    Column::PolicyId,
                    Column::SubjectType,
                    Column::SubjectId,
                    Column::Action,
                    Column::EvaluatedAtMs,
                ],
            ),
        )
    }
}

/// An action was audited.
#[derive(Debug, PartialEq, Eq)]
pub struct AuditLogEntryRecorded {
    pub occurred_at_ms: u64,
    pub outcome: AuditOutcome,
    pub entry_id: String,
    pub tenant_id: String,
    pub actor_id: String,
    pub action: String,
    pub resource_type: String,
    pub resource_id: String,
}

impl AuditLogEntryRecorded {
    /// What the event writes.
    pub open spec fn writes(self, at: Moment) -> Planned {
        if self.occurred_at_ms > i64::MAX {
            Planned::Refused(
                ErrorView::exceeds(
                    "AuditLogEntryRecorded.occurred_at_ms"@,
                    self.occurred_at_ms as nat,
                    "i64::MAX"@,
                ),
            )
        } else {
            Planned::Writes(
                seq![
                    RowView::new()
                        .put(Column::EntryId, ValueView::Text(self.entry_id@))
                        .put(Column::TenantId, ValueView::Text(self.tenant_id@))
                        .put(Column::ActorId, ValueView::Text(self.actor_id@))
                        .put(Column::Action, ValueView::Text(self.action@))
                        .put(Column::ResourceType, ValueView::Text(self.resource_type@))
                        .put(Column::ResourceId, ValueView::Text(self.resource_id@))
                        .put(Column::Outcome, ValueView::Text(self.outcome.spec_name()))
                        .put(Column::OccurredAtMs, ValueView::Int8(self.occurred_at_ms as i64))
                        .insert_new(Table::AuditLogEntries, seq![Column::EntryId]),
                ],
            )
        }
    }

    /// Plans what the event writes.
    pub fn plan(&self, at: &Moment) -> (r: Result<Vec<Statement>, StoreError>)
        ensures
            Planned::of(r) == self.writes(*at),
    {
        let occurred_at: i64 = match fits_i64(
            "AuditLogEntryRecorded.occurred_at_ms",
            self.occurred_at_ms,
        ) {
            Ok(v) => v,
            Err(e) => return Err(e),
        };
        let mut row = Cells::new();
        row.put(Column::EntryId, text(&self.entry_id));
        row.put(Column::TenantId, text(&self.tenant_id));
        row.put(Column::ActorId, text(&self.actor_id));
        row.put(Column::Action, text(&self.action));
        row.put(Column::ResourceType, text(&self.resource_type));
        row.put(Column::ResourceId, text(&self.resource_id));
        row.put(Column::Outcome, text(self.outcome.name()));
        row.put(Column::OccurredAtMs, SqlValue::Int8(occurred_at));
        one(row.insert_new(Table::AuditLogEntries, only(Column::EntryId)))
    }
}

/// A credential was stored. Whether it is revoked does not change.
#[derive(Debug, PartialEq, Eq)]
pub struct CredentialStored {
    pub encrypted_at_ms: u64,
    pub credential_id: String,
    pub tenant_id: String,
    pub provider_id: String,
    pub encrypted_value: Vec<u8>,
    pub key_id: Option<String>,
    pub key_version: Option<String>,
}

impl CredentialStored {
    /// What the event writes.
    pub open spec fn writes(self, at: Moment) -> Planned {
        if self.encrypted_at_ms > i64::MAX {
            Planned::Refused(
                ErrorView::exceeds(
                    "CredentialStored.encrypted_at_ms"@,
                    self.encrypted_at_ms as nat,
                    "i64::MAX"@,
                ),
            )
        } else {
            Planned::Writes(
                seq![
                    RowView::new()
                        .put(Column::CredentialId, ValueView::Text(self.credential_id@))
                        .put(Column::TenantId, ValueView::Text(self.tenant_id@))
                        .put(Column::Name, ValueView::Text(self.provider_id@))
                        .put(Column::ProviderId, ValueView::Text(self.provider_id@))
                        .put(Column::CredentialType, ValueView::Text("api_key"@))
                        .put(Column::EncryptedValue, ValueView::Bytes(self.encrypted_value@))
                        .put(Column::KeyId, ValueView::opt_text(self.key_id))
                        .put(Column::KeyVersion, ValueView::opt_text(self.key_version))
                        .put(Column::Active, ValueView::Bool(true))
                        .put(Column::EncryptedAtMs, ValueView::Int8(self.encrypted_at_ms as i64))
                        .put(Column::RevokedAtMs, ValueView::Null(SqlType::Int8))
                        .put(Column::CreatedAt, ValueView::Int8(self.encrypted_at_ms as i64))
                        .put(Column::UpdatedAt, ValueView::Int8(self.encrypted_at_ms as i64))
                        .upsert(
                            Table::Credentials,
                            seq![Column::CredentialId],
                            ChangesView::new()
                                .excluded(Column::EncryptedValue)
                                .excluded(Column::KeyId)
                                .excluded(Column::KeyVersion)
                                .excluded(Column::EncryptedAtMs)
                                .excluded(Column::UpdatedAt),
                        ),
                ],
            )
        }
    }

    /// Plans what the event writes.
    pub fn plan(&self, at: &Moment) -> (r: Result<Vec<Statement>, StoreError>)
        ensures
            Planned::of(r) == self.writes(*at),
    {
        let encrypted_at: i64 = match fits_i64(
            "CredentialStored.encrypted_at_ms",
            self.encrypted_at_ms,
        ) {
            Ok(v) => v,
            Err(e) => return Err(e),
        };
        let mut row = Cells::new();
        row.put(Column::CredentialId, text(&self.credential_id));
        row.put(Column::TenantId, text(&self.tenant_id));
        row.put(Column::Name, text(&self.provider_id));
        row.put(Column::ProviderId, text(&self.provider_id));
        row.put(Column::CredentialType, text("api_key"));
        row.put(Column::EncryptedValue, bytes(&self.encrypted_value));
        row.put(Column::KeyId, opt_text(&self.key_id));
        row.put(Column::KeyVersion, opt_text(&self.key_version));
        row.put(Column::Active, SqlValue::Bool(true));
        row.put(Column::EncryptedAtMs, SqlValue::Int8(encrypted_at));
        row.put(Column::RevokedAtMs, SqlValue::Null(SqlType::Int8));
        row.put(Column::CreatedAt, SqlValue::Int8(encrypted_at));
        row.put(Column::UpdatedAt, SqlValue::Int8(encrypted_at));
        let mut changes = Changes::new();
        changes.excluded(Column::EncryptedValue);
        changes.excluded(Column::KeyId);
        changes.excluded(Column::KeyVersion);
        changes.excluded(Column::EncryptedAtMs);
        changes.excluded(Column::UpdatedAt);
        one(row.upsert(Table::Credentials, only(Column::CredentialId), changes))
    }
}

/// A credential was revoked.
#[derive(Debug, PartialEq, Eq)]
pub struct CredentialRevoked {
    pub revoked_at_ms: u64,
    pub credential_id: String,
}

impl CredentialRevoked {
    /// What the event writes.
    pub open spec fn writes(self, at: Moment) -> Planned {
        if self.revoked_at_ms > i64::MAX {
            Planned::Refused(
                ErrorView::exceeds(
                    "CredentialRevoked.revoked_at_ms"@,
                    self.revoked_at_ms as nat,
                    "i64::MAX"@,
                ),
            )
        } else {
            Planned::Writes(
                seq![
                    ChangesView::new()
                        .put(Column::Active, ValueView::Bool(false))
                        .put(Column::RevokedAtMs, ValueView::Int8(self.revoked_at_ms as i64))
                        .put(Column::UpdatedAt, ValueView::Int8(self.revoked_at_ms as i64))
                        .update(
                            Table::Credentials,
                            FilterView::new()
                                .equals(Column::CredentialId, ValueView::Text(self.credential_id@)),
                        ),
                ],
            )
        }
    }

    /// Plans what the event writes.
    pub fn plan(&self, at: &Moment) -> (r: Result<Vec<Statement>, StoreError>)
        ensures
            Planned::of(r) == self.writes(*at),
    {
        let revoked_at: i64 = match fits_i64(
            "CredentialRevoked.revoked_at_ms",
            self.revoked_at_ms,
        ) {
            Ok(v) => v,
            Err(e) => return Err(e),
        };
        let mut changes = Changes::new();
        changes.put(Column::Active, SqlValue::Bool(false));
        changes.put(Column::RevokedAtMs, SqlValue::Int8(revoked_at));
        changes.put(Column::UpdatedAt, SqlValue::Int8(revoked_at));
        let mut filter = Filter::new();
        filter.equals(Column::CredentialId, text(&self.credential_id));
        one(changes.update(Table::Credentials, filter))
    }
}

/// The key of some credentials was rotated.
#[derive(Debug, PartialEq, Eq)]
pub struct CredentialKeyRotated {
    pub rotation_id: String,
    pub tenant_id: String,
    pub old_key_id: String,
    pub new_key_id: String,
    pub credential_ids_rotated: Vec<String>,
}

impl CredentialKeyRotated {
    /// What the event writes.
    pub open spec fn writes(self, at: Moment) -> Planned {
        Planned::Writes(
            seq![
                RowView::new()
                    .put(Column::RotationId, ValueView::Text(self.rotation_id@))
                    .put(Column::TenantId, ValueView::Text(self.tenant_id@))
                    .put(Column::CredentialId, ValueView::Text(""@))
                    .put(Column::OldKeyId, ValueView::Text(self.old_key_id@))
                    .put(Column::NewKeyId, ValueView::Text(self.new_key_id@))
                    .put(
                        Column::RotatedCredentials,
                        ValueView::Int4(self.credential_ids_rotated.len() as i32),
                    )
                    .put(Column::StartedAtMs, ValueView::Int8(at.now))
                    .put(Column::CompletedAtMs, ValueView::Int8(at.now))
                    .put(Column::RotatedAt, ValueView::Int8(at.now))
                    .put(Column::RotatedBy, ValueView::Null(SqlType::Text))
                    .insert_new(Table::CredentialRotations, seq![Column::RotationId]),
            ],
        )
    }

    /// Plans what the event writes.
    pub fn plan(&self, at: &Moment) -> (r: Result<Vec<Statement>, StoreError>)
        ensures
            Planned::of(r) == self.writes(*at),
    {
        let mut row = Cells::new();
        row.put(Column::RotationId, text(&self.rotation_id));
        row.put(Column::TenantId, text(&self.tenant_id));
        row.put(Column::CredentialId, text(""));
        row.put(Column::OldKeyId, text(&self.old_key_id));
        row.put(Column::NewKeyId, text(&self.new_key_id));
        row.put(
            Column::RotatedCredentials,
            SqlValue::Int4(self.credential_ids_rotated.len() as i32),
        );
        row.put(Column::StartedAtMs, SqlValue::Int8(at.now));
        row.put(Column::CompletedAtMs, SqlValue::Int8(at.now));
        row.put(Column::RotatedAt, SqlValue::Int8(at.now));
        row.put(Column::RotatedBy, SqlValue::Null(SqlType::Text));
        one(row.insert_new(Table::CredentialRotations, only(Column::RotationId)))
    }
}

} // verus!
