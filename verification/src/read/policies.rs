//! Guardrails and the audit log.

use crate::domain::DomainNames;
use crate::error::{ErrorView, StoreError};
use crate::json::{quote, refusal};
use crate::model::Datum;
use crate::query::{Output, OutputView, Query, QueryView};
use crate::read::{Decoded, StoredRow, to_floor8};
use crate::schema::{Column, Table};
use crate::statement::{Test, TestView};
use crate::text::same_text;
use crate::value::{SqlValue, ValueView, text};
use crate::vocabulary::{AuditOutcome, GuardrailDecisionKind, GuardrailSubjectType};
use vstd::prelude::*;
use vstd::string::*;

verus! {

/// A row of `guardrail_policies`.
#[derive(Debug, PartialEq, Eq)]
pub struct GuardrailPolicyRow {
    pub policy_id: String,
    pub name: String,
    pub rules: Decoded,
    pub enabled: bool,
}

/// A guardrail. The rules are a JSON text.
#[derive(Debug, PartialEq, Eq)]
pub struct GuardrailPolicy {
    pub policy_id: String,
    pub name: String,
    pub rules: String,
    pub enabled: bool,
}

impl GuardrailPolicyRow {
    /// The columns that the row is read from.
    pub open spec fn spec_columns() -> Seq<Column> {
        seq![
            Column::PolicyId,
            Column::Name,
            Column::RulesJson,
            Column::Enabled,
        ]
    }

    fn columns() -> (r: Vec<Column>)
        ensures
            r@ == Self::spec_columns(),
    {
        vec![
            Column::PolicyId,
            Column::Name,
            Column::RulesJson,
            Column::Enabled,
        ]
    }

    /// Whether this is what a stored row holds in those columns.
    pub open spec fn is_of(self, row: crate::model::Row) -> bool {
        &&& crate::model::value(row, Column::PolicyId) == Datum::Text(self.policy_id@)
        &&& crate::model::value(row, Column::Name) == Datum::Text(self.name@)
        &&& crate::model::value(row, Column::RulesJson) == Datum::Text(self.rules.text@)
        &&& crate::model::value(row, Column::Enabled) == Datum::Bool(self.enabled)
    }

    /// The query of [`GuardrailPolicyRow::get_policy`].
    pub open spec fn spec_get_policy(policy_id: Seq<char>) -> QueryView {
        QueryView::on(Table::GuardrailPolicies, OutputView::Rows(Self::spec_columns()))
            .equals(Column::PolicyId, ValueView::Text(policy_id))
    }

    /// Finds a guardrail.
    pub fn get_policy(policy_id: &str) -> (r: Query)
        ensures
            r@ == Self::spec_get_policy(policy_id@),
    {
        Query::on(Table::GuardrailPolicies, Output::Rows(Self::columns()))
            .equals(Column::PolicyId, text(policy_id))
    }

    /// The query of [`GuardrailPolicyRow::list_policies`].
    pub open spec fn spec_list_policies(
        tenant_id: Seq<char>,
        limit: usize,
        offset: usize,
    ) -> QueryView {
        QueryView::on(Table::GuardrailPolicies, OutputView::Rows(Self::spec_columns()))
            .equals(Column::TenantId, ValueView::Text(tenant_id))
            .ascending(Column::PolicyId)
            .limit(limit as i64)
            .offset(offset as i64)
    }

    /// The guardrails of a tenant, by id.
    pub fn list_policies(tenant_id: &str, limit: usize, offset: usize) -> (r: Query)
        ensures
            r@ == Self::spec_list_policies(tenant_id@, limit, offset),
    {
        Query::on(Table::GuardrailPolicies, Output::Rows(Self::columns()))
            .equals(Column::TenantId, text(tenant_id))
            .ascending(Column::PolicyId)
            .limit(limit as i64)
            .offset(offset as i64)
    }
}

impl StoredRow for GuardrailPolicyRow {
    type Record = GuardrailPolicy;

    open spec fn fault(&self, names: &DomainNames) -> Option<ErrorView> {
        if self.rules.fault is Some {
            Some(
                ErrorView::Internal(
                    "guardrail_policies.rules_json parse: "@ + self.rules.fault->Some_0@,
                ),
            )
        } else {
            None
        }
    }

    open spec fn holds(&self, names: &DomainNames, record: &GuardrailPolicy) -> bool {
        &&& record.policy_id == self.policy_id
        &&& record.name == self.name
        &&& record.rules == self.rules.text
        &&& record.enabled == self.enabled
    }

    fn into_record(self, names: &DomainNames) -> (r: Result<GuardrailPolicy, StoreError>) {
        if let Some(m) = &self.rules.fault {
            let mut message: String = "guardrail_policies.rules_json parse: ".to_owned();
            message.append(m);
            return Err(StoreError::Internal(message));
        }
        Ok(
            GuardrailPolicy {
                policy_id: self.policy_id,
                name: self.name,
                rules: self.rules.text,
                enabled: self.enabled,
            },
        )
    }
}

/// A row of `guardrail_evaluations`. An evaluation without a subject is stored with an empty
/// one.
#[derive(Debug, PartialEq, Eq)]
pub struct GuardrailEvaluationRow {
    pub policy_id: String,
    pub tenant_id: String,
    pub subject_type: String,
    pub subject_id: String,
    pub action: String,
    pub decision: String,
    pub reason: Option<String>,
    pub evaluated_at_ms: i64,
}

/// A decision of a guardrail.
#[derive(Debug, PartialEq, Eq)]
pub struct GuardrailEvaluationRecord {
    pub policy_id: String,
    pub tenant_id: String,
    pub subject_type: GuardrailSubjectType,
    pub subject_id: Option<String>,
    pub action: String,
    pub decision: GuardrailDecisionKind,
    pub reason: Option<String>,
    pub evaluated_at_ms: u64,
}

impl GuardrailEvaluationRow {
    /// The columns that the row is read from.
    pub open spec fn spec_columns() -> Seq<Column> {
        seq![
            Column::PolicyId,
            Column::TenantId,
            Column::SubjectType,
            Column::SubjectId,
            Column::Action,
            Column::Decision,
            Column::Reason,
            Column::EvaluatedAtMs,
        ]
    }

    fn columns() -> (r: Vec<Column>)
        ensures
            r@ == Self::spec_columns(),
    {
        vec![
            Column::PolicyId,
            Column::TenantId,
            Column::SubjectType,
            Column::SubjectId,
            Column::Action,
            Column::Decision,
            Column::Reason,
            Column::EvaluatedAtMs,
        ]
    }

    /// Whether this is what a stored row holds in those columns.
    pub open spec fn is_of(self, row: crate::model::Row) -> bool {
        &&& crate::model::value(row, Column::PolicyId) == Datum::Text(self.policy_id@)
        &&& crate::model::value(row, Column::TenantId) == Datum::Text(self.tenant_id@)
        &&& crate::model::value(row, Column::SubjectType) == Datum::Text(self.subject_type@)
        &&& crate::model::value(row, Column::SubjectId) == Datum::Text(self.subject_id@)
        &&& crate::model::value(row, Column::Action) == Datum::Text(self.action@)
        &&& crate::model::value(row, Column::Decision) == Datum::Text(self.decision@)
        &&& crate::model::value(row, Column::Reason) == Datum::opt_text(self.reason)
        &&& crate::model::value(row, Column::EvaluatedAtMs) == Datum::Int(
            self.evaluated_at_ms as int,
        )
    }

    /// The query of [`GuardrailEvaluationRow::list_evaluations`].
    pub open spec fn spec_list_evaluations(tenant_id: Seq<char>, limit: usize) -> QueryView {
        QueryView::on(Table::GuardrailEvaluations, OutputView::Rows(Self::spec_columns()))
            .equals(Column::TenantId, ValueView::Text(tenant_id))
            .descending(Column::EvaluatedAtMs)
            .ascending(Column::PolicyId)
            .limit(limit as i64)
    }

    /// The decisions on a tenant, the newest first.
    pub fn list_evaluations(tenant_id: &str, limit: usize) -> (r: Query)
        ensures
            r@ == Self::spec_list_evaluations(tenant_id@, limit),
    {
        Query::on(Table::GuardrailEvaluations, Output::Rows(Self::columns()))
            .equals(Column::TenantId, text(tenant_id))
            .descending(Column::EvaluatedAtMs)
            .ascending(Column::PolicyId)
            .limit(limit as i64)
    }
}

impl StoredRow for GuardrailEvaluationRow {
    type Record = GuardrailEvaluationRecord;

    open spec fn fault(&self, names: &DomainNames) -> Option<ErrorView> {
        if GuardrailSubjectType::spec_parse(self.subject_type@) is None {
            Some(
                ErrorView::Internal(
                    "guardrail_evaluations.subject_type unknown "@ + crate::json::quoted(
                        self.subject_type@,
                    ),
                ),
            )
        } else if GuardrailDecisionKind::spec_parse(self.decision@) is None {
            Some(
                ErrorView::Internal(
                    "guardrail_evaluations.decision unknown "@ + crate::json::quoted(
                        self.decision@,
                    ),
                ),
            )
        } else {
            None
        }
    }

    open spec fn holds(&self, names: &DomainNames, record: &GuardrailEvaluationRecord) -> bool {
        &&& record.policy_id == self.policy_id
        &&& record.tenant_id == self.tenant_id
        &&& GuardrailSubjectType::spec_parse(self.subject_type@) == Some(record.subject_type)
        &&& record.subject_id == if self.subject_id@.len() == 0 {
            None
        } else {
            Some(self.subject_id)
        }
        &&& record.action == self.action
        &&& GuardrailDecisionKind::spec_parse(self.decision@) == Some(record.decision)
        &&& record.reason == self.reason
        &&& record.evaluated_at_ms == crate::read::floor8(self.evaluated_at_ms)
    }

    fn into_record(self, names: &DomainNames) -> (r: Result<
        GuardrailEvaluationRecord,
        StoreError,
    >) {
        let subject_type = match GuardrailSubjectType::parse(&self.subject_type) {
            Some(v) => v,
            None => {
                let mut message: String = "guardrail_evaluations.subject_type unknown ".to_owned();
                message.append(&quote(&self.subject_type));
                return Err(StoreError::Internal(message));
            },
        };
        let decision = match GuardrailDecisionKind::parse(&self.decision) {
            Some(v) => v,
            None => {
                let mut message: String = "guardrail_evaluations.decision unknown ".to_owned();
                message.append(&quote(&self.decision));
                return Err(StoreError::Internal(message));
            },
        };
        proof {
            reveal_strlit("");
            assert(self.subject_id@.len() == 0 ==> self.subject_id@ =~= ""@);
        }
        let subject_id = if same_text(&self.subject_id, "") {
            None
        } else {
            Some(self.subject_id)
        };
        Ok(
            GuardrailEvaluationRecord {
                policy_id: self.policy_id,
                tenant_id: self.tenant_id,
                subject_type,
                subject_id,
                action: self.action,
                decision,
                reason: self.reason,
                evaluated_at_ms: to_floor8(self.evaluated_at_ms),
            },
        )
    }
}

/// How many entries on a resource are listed at most.
pub const LIST_BY_RESOURCE_MAX_ROWS: usize = 10_000;

/// A bound of a window, or what stands for no bound.
pub open spec fn bound(ms: Option<u64>, unbounded: i64) -> i64 {
    match ms {
        Some(v) => v as i64,
        None => unbounded,
    }
}

/// Why a window is refused, if it is: the lower bound is looked at first.
pub open spec fn window_fault(since_ms: Option<u64>, before_ms: Option<u64>) -> Option<ErrorView> {
    if since_ms is Some && since_ms->Some_0 > i64::MAX {
        Some(ErrorView::Internal("since_ms exceeds i64::MAX"@))
    } else if before_ms is Some && before_ms->Some_0 > i64::MAX {
        Some(ErrorView::Internal("before_ms exceeds i64::MAX"@))
    } else {
        None
    }
}

/// The bounds of a window of time as columns hold them: the lower one belongs
/// to the window, the upper one does not. A missing bound is the extreme on its
/// side; one that is above the range of its column is refused.
pub fn window_bounds_ms(since_ms: Option<u64>, before_ms: Option<u64>) -> (r: Result<
    (i64, i64),
    StoreError,
>)
    ensures
        match r {
            Ok((since, before)) => {
                &&& window_fault(since_ms, before_ms) is None
                &&& since == bound(since_ms, i64::MIN)
                &&& before == bound(before_ms, i64::MAX)
            },
            Err(e) => window_fault(since_ms, before_ms) == Some(e@),
        },
{
    let since: i64 = match since_ms {
        Some(v) => {
            if v > i64::MAX as u64 {
                return Err(StoreError::Internal("since_ms exceeds i64::MAX".to_owned()));
            }
            v as i64
        },
        None => i64::MIN,
    };
    let before: i64 = match before_ms {
        Some(v) => {
            if v > i64::MAX as u64 {
                return Err(StoreError::Internal("before_ms exceeds i64::MAX".to_owned()));
            }
            v as i64
        },
        None => i64::MAX,
    };
    Ok((since, before))
}

/// A row of `audit_log_entries`.
#[derive(Debug, PartialEq, Eq)]
pub struct AuditLogEntryRow {
    pub entry_id: String,
    pub tenant_id: String,
    pub actor_id: String,
    pub action: String,
    pub resource_type: String,
    pub resource_id: String,
    pub outcome: String,
    pub metadata_json: String,
    pub occurred_at_ms: i64,
}

/// An entry of the audit log. The metadata are a JSON text.
#[derive(Debug, PartialEq, Eq)]
pub struct AuditLogEntryRecord {
    pub entry_id: String,
    pub tenant_id: String,
    pub actor_id: String,
    pub action: String,
    pub resource_type: String,
    pub resource_id: String,
    pub outcome: AuditOutcome,
    pub metadata: String,
    pub occurred_at_ms: u64,
}

impl AuditLogEntryRow {
    /// The columns that the row is read from.
    pub open spec fn spec_columns() -> Seq<Column> {
        seq![
            Column::EntryId,
            Column::TenantId,
            Column::ActorId,
            Column::Action,
            Column::ResourceType,
            Column::ResourceId,
            Column::Outcome,
            Column::MetadataJson,
            Column::OccurredAtMs,
        ]
    }

    fn columns() -> (r: Vec<Column>)
        ensures
            r@ == Self::spec_columns(),
    {
        vec![
            Column::EntryId,
            Column::TenantId,
            Column::ActorId,
            Column::Action,
            Column::ResourceType,
            Column::ResourceId,
            Column::Outcome,
            Column::MetadataJson,
            Column::OccurredAtMs,
        ]
    }

    /// Whether this is what a stored row holds in those columns.
    pub open spec fn is_of(self, row: crate::model::Row) -> bool {
        &&& crate::model::value(row, Column::EntryId) == Datum::Text(self.entry_id@)
        &&& crate::model::value(row, Column::TenantId) == Datum::Text(self.tenant_id@)
        &&& crate::model::value(row, Column::ActorId) == Datum::Text(self.actor_id@)
        &&& crate::model::value(row, Column::Action) == Datum::Text(self.action@)
        &&& crate::model::value(row, Column::ResourceType) == Datum::Text(self.resource_type@)
        &&& crate::model::value(row, Column::ResourceId) == Datum::Text(self.resource_id@)
        &&& crate::model::value(row, Column::Outcome) == Datum::Text(self.outcome@)
        &&& crate::model::value(row, Column::MetadataJson) == Datum::Text(self.metadata_json@)
        &&& crate::model::value(row, Column::OccurredAtMs) == Datum::Int(self.occurred_at_ms as int)
    }

    /// The query of [`AuditLogEntryRow::list_by_resource`].
    pub open spec fn spec_list_by_resource(
        resource_type: Seq<char>,
        resource_id: Seq<char>,
    ) -> QueryView {
        QueryView::on(Table::AuditLogEntries, OutputView::Rows(Self::spec_columns()))
            .equals(Column::ResourceType, ValueView::Text(resource_type))
            .equals(Column::ResourceId, ValueView::Text(resource_id))
            .descending(Column::OccurredAtMs)
            .descending(Column::EntryId)
            .limit(LIST_BY_RESOURCE_MAX_ROWS as i64)
    }

    /// The entries on a resource, the newest first.
    pub fn list_by_resource(resource_type: &str, resource_id: &str) -> (r: Query)
        ensures
            r@ == Self::spec_list_by_resource(resource_type@, resource_id@),
    {
        Query::on(Table::AuditLogEntries, Output::Rows(Self::columns()))
            .equals(Column::ResourceType, text(resource_type))
            .equals(Column::ResourceId, text(resource_id))
            .descending(Column::OccurredAtMs)
            .descending(Column::EntryId)
            .limit(LIST_BY_RESOURCE_MAX_ROWS as i64)
    }
}

impl AuditLogEntryRow {
    /// The query of [`AuditLogEntryRow::list_by_tenant`].
    pub open spec fn spec_list_by_tenant(
        tenant_id: Seq<char>,
        since_ms: Option<u64>,
        before_ms: Option<u64>,
        limit: usize,
    ) -> QueryView {
        QueryView::on(Table::AuditLogEntries, OutputView::Rows(Self::spec_columns()))
            .equals(Column::TenantId, ValueView::Text(tenant_id))
            .test(
                TestView::AtLeast(
                    Column::OccurredAtMs,
                    ValueView::Int8(bound(since_ms, i64::MIN)),
                ),
            )
            .test(
                TestView::Below(
                    Column::OccurredAtMs,
                    ValueView::Int8(bound(before_ms, i64::MAX)),
                ),
            )
            .descending(Column::OccurredAtMs)
            .descending(Column::EntryId)
            .limit(limit as i64)
    }

    /// The entries of a tenant within a window of time, the newest first.
    pub fn list_by_tenant(
        tenant_id: &str,
        since_ms: Option<u64>,
        before_ms: Option<u64>,
        limit: usize,
    ) -> (r: Result<Query, StoreError>)
        ensures
            match r {
                Ok(q) => {
                    &&& window_fault(since_ms, before_ms) is None
                    &&& q@ == Self::spec_list_by_tenant(tenant_id@, since_ms, before_ms, limit)
                },
                Err(e) => window_fault(since_ms, before_ms) == Some(e@),
            },
    {
        let (since, before) = match window_bounds_ms(since_ms, before_ms) {
            Ok(bounds) => bounds,
            Err(e) => return Err(e),
        };
        Ok(
            Query::on(Table::AuditLogEntries, Output::Rows(Self::columns()))
                .equals(Column::TenantId, text(tenant_id))
                .test(Test::AtLeast(Column::OccurredAtMs, SqlValue::Int8(since)))
                .test(Test::Below(Column::OccurredAtMs, SqlValue::Int8(before)))
                .descending(Column::OccurredAtMs)
                .descending(Column::EntryId)
                .limit(limit as i64),
        )
    }
}

/// An entry of the audit log as the domain knows it.
#[derive(Debug, PartialEq, Eq)]
pub struct AuditLogEntry {
    pub entry_id: String,
    pub tenant_id: String,
    pub actor_id: String,
    pub action: String,
    pub resource_type: String,
    pub resource_id: String,
    pub outcome: AuditOutcome,
    pub request_id: Option<String>,
    pub ip_address: Option<String>,
    pub occurred_at_ms: u64,
    pub metadata: String,
}

impl AuditLogEntryRecord {
    /// The entry as the domain knows it. The request and the address are not
    /// stored.
    pub fn into_entry(self) -> (r: AuditLogEntry)
        ensures
            r == (AuditLogEntry {
                entry_id: self.entry_id,
                tenant_id: self.tenant_id,
                actor_id: self.actor_id,
                action: self.action,
                resource_type: self.resource_type,
                resource_id: self.resource_id,
                outcome: self.outcome,
                request_id: None,
                ip_address: None,
                occurred_at_ms: self.occurred_at_ms,
                metadata: self.metadata,
            }),
    {
        AuditLogEntry {
            entry_id: self.entry_id,
            tenant_id: self.tenant_id,
            actor_id: self.actor_id,
            action: self.action,
            resource_type: self.resource_type,
            resource_id: self.resource_id,
            outcome: self.outcome,
            request_id: None,
            ip_address: None,
            occurred_at_ms: self.occurred_at_ms,
            metadata: self.metadata,
        }
    }
}

impl StoredRow for AuditLogEntryRow {
    type Record = AuditLogEntryRecord;

    open spec fn fault(&self, names: &DomainNames) -> Option<ErrorView> {
        if AuditOutcome::spec_parse(self.outcome@) is None {
            Some(
                ErrorView::Internal(
                    "audit_log_entries.outcome: unknown value "@ + crate::json::quoted(
                        self.outcome@,
                    ),
                ),
            )
        } else if crate::json::json_refusal(self.metadata_json@) is Some {
            Some(
                ErrorView::Internal(
                    "audit_log_entries.metadata_json parse error: "@ + crate::json::json_refusal(
                        self.metadata_json@,
                    )->Some_0,
                ),
            )
        } else {
            None
        }
    }

    open spec fn holds(&self, names: &DomainNames, record: &AuditLogEntryRecord) -> bool {
        &&& record.entry_id == self.entry_id
        &&& record.tenant_id == self.tenant_id
        &&& record.actor_id == self.actor_id
        &&& record.action == self.action
        &&& record.resource_type == self.resource_type
        &&& record.resource_id == self.resource_id
        &&& AuditOutcome::spec_parse(self.outcome@) == Some(record.outcome)
        &&& record.metadata == self.metadata_json
        &&& record.occurred_at_ms == crate::read::floor8(self.occurred_at_ms)
    }

    fn into_record(self, names: &DomainNames) -> (r: Result<AuditLogEntryRecord, StoreError>) {
        let outcome = match AuditOutcome::parse(&self.outcome) {
            Some(v) => v,
            None => {
                let mut message: String = "audit_log_entries.outcome: unknown value ".to_owned();
                message.append(&quote(&self.outcome));
                return Err(StoreError::Internal(message));
            },
        };
        if let Some(m) = refusal(&self.metadata_json) {
            let mut message: String = "audit_log_entries.metadata_json parse error: ".to_owned();
            message.append(&m);
            return Err(StoreError::Internal(message));
        }
        Ok(
            AuditLogEntryRecord {
                entry_id: self.entry_id,
                tenant_id: self.tenant_id,
                actor_id: self.actor_id,
                action: self.action,
                resource_type: self.resource_type,
                resource_id: self.resource_id,
                outcome,
                metadata: self.metadata_json,
                occurred_at_ms: to_floor8(self.occurred_at_ms),
            },
        )
    }
}

} // verus!
