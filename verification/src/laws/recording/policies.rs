//! What the records say of the stored rows: policies.

use crate::domain::DomainNames;
use crate::error::ErrorView;
use crate::model::{Datum, Row};
use crate::read::StoredRow;
use crate::read::policies::{
    AuditLogEntryRecord, AuditLogEntryRow, GuardrailEvaluationRecord, GuardrailEvaluationRow,
    GuardrailPolicy, GuardrailPolicyRow,
};
use crate::schema::Column;
use vstd::prelude::*;

verus! {

/// What the fields of a [`GuardrailPolicy`] say of the stored row.
pub proof fn the_record_of_a_guardrail_policy_row(
    row: GuardrailPolicyRow,
    stored: Row,
    names: DomainNames,
    record: GuardrailPolicy,
)
    requires
        row.is_of(stored),
        row.holds(&names, &record),
    ensures
        crate::model::value(stored, Column::PolicyId) == Datum::Text(record.policy_id@),
        crate::model::value(stored, Column::Name) == Datum::Text(record.name@),
        crate::model::value(stored, Column::RulesJson) == Datum::Text(record.rules@),
        crate::model::value(stored, Column::Enabled) == Datum::Bool(record.enabled),
{
}

/// A [`GuardrailPolicyRow`] says nothing of a stored row but what the columns that it asks for
/// hold.
pub proof fn the_columns_of_a_guardrail_policy_row(row: GuardrailPolicyRow, stored: Row, other: Row)
    requires
        forall|i: int|
            0 <= i < GuardrailPolicyRow::spec_columns().len()
                ==> crate::model::value(stored, #[trigger] GuardrailPolicyRow::spec_columns()[i])
                    == crate::model::value(other, GuardrailPolicyRow::spec_columns()[i]),
    ensures
        row.is_of(stored) == row.is_of(other),
{
    let columns = GuardrailPolicyRow::spec_columns();
    assert(columns[0] == Column::PolicyId);
    assert(columns[1] == Column::Name);
    assert(columns[2] == Column::RulesJson);
    assert(columns[3] == Column::Enabled);
}

/// When a [`GuardrailPolicyRow`] holds no record, and how it is refused.
pub proof fn the_faults_of_a_guardrail_policy_row(row: GuardrailPolicyRow, names: DomainNames)
    ensures
        row.rules.fault is Some
            ==> row.fault(&names)
                == Some(
                    ErrorView::Internal(
                        "guardrail_policies.rules_json parse: "@ + row.rules.fault->Some_0@,
                    ),
                ),
        !(row.rules.fault is Some) ==> row.fault(&names) is None,
{
}

/// What the fields of a [`GuardrailEvaluationRecord`] say of the stored row.
pub proof fn the_record_of_a_guardrail_evaluation_row(
    row: GuardrailEvaluationRow,
    stored: Row,
    names: DomainNames,
    record: GuardrailEvaluationRecord,
)
    requires
        row.is_of(stored),
        row.holds(&names, &record),
    ensures
        crate::model::value(stored, Column::PolicyId) == Datum::Text(record.policy_id@),
        crate::model::value(stored, Column::TenantId) == Datum::Text(record.tenant_id@),
        crate::model::value(stored, Column::SubjectType)
            == Datum::Text(record.subject_type.spec_name()),
        record.subject_id == if row.subject_id@.len() == 0 { None } else { Some(row.subject_id) },
        crate::model::value(stored, Column::Action) == Datum::Text(record.action@),
        crate::model::value(stored, Column::Decision) == Datum::Text(record.decision.spec_name()),
        crate::model::value(stored, Column::Reason)
            == crate::laws::storing::optional_text(record.reason),
        crate::laws::recording::is_at_least_zero(
            crate::model::value(stored, Column::EvaluatedAtMs),
            record.evaluated_at_ms as int,
        ),
{
    crate::vocabulary::guardrail_subject_type_names_are_inverse(
        record.subject_type,
        row.subject_type@,
    );
    crate::vocabulary::guardrail_decision_kind_names_are_inverse(record.decision, row.decision@);
}

/// A [`GuardrailEvaluationRow`] says nothing of a stored row but what the columns that it asks for
/// hold.
pub proof fn the_columns_of_a_guardrail_evaluation_row(
    row: GuardrailEvaluationRow,
    stored: Row,
    other: Row,
)
    requires
        forall|i: int|
            0 <= i < GuardrailEvaluationRow::spec_columns().len()
                ==> crate::model::value(
                    stored,
                    #[trigger] GuardrailEvaluationRow::spec_columns()[i],
                )
                    == crate::model::value(other, GuardrailEvaluationRow::spec_columns()[i]),
    ensures
        row.is_of(stored) == row.is_of(other),
{
    let columns = GuardrailEvaluationRow::spec_columns();
    assert(columns[0] == Column::PolicyId);
    assert(columns[1] == Column::TenantId);
    assert(columns[2] == Column::SubjectType);
    assert(columns[3] == Column::SubjectId);
    assert(columns[4] == Column::Action);
    assert(columns[5] == Column::Decision);
    assert(columns[6] == Column::Reason);
    assert(columns[7] == Column::EvaluatedAtMs);
}

/// When a [`GuardrailEvaluationRow`] holds no record, and how it is refused.
pub proof fn the_faults_of_a_guardrail_evaluation_row(
    row: GuardrailEvaluationRow,
    names: DomainNames,
)
    ensures
        row.subject_type@ != "run"@ && row.subject_type@ != "task"@
            && row.subject_type@ != "session"@ && row.subject_type@ != "tool"@
            && row.subject_type@ != "provider"@
            ==> row.fault(&names)
                == Some(
                    ErrorView::Internal(
                        "guardrail_evaluations.subject_type unknown "@
                            + crate::json::quoted( row.subject_type@, ),
                    ),
                ),
        !(
            row.subject_type@ != "run"@ && row.subject_type@ != "task"@
                && row.subject_type@ != "session"@ && row.subject_type@ != "tool"@
                && row.subject_type@ != "provider"@
        )
            && row.decision@ != "allowed"@ && row.decision@ != "denied"@
            && row.decision@ != "warned"@
            ==> row.fault(&names)
                == Some(
                    ErrorView::Internal(
                        "guardrail_evaluations.decision unknown "@
                            + crate::json::quoted( row.decision@, ),
                    ),
                ),
        !(
            row.subject_type@ != "run"@ && row.subject_type@ != "task"@
                && row.subject_type@ != "session"@ && row.subject_type@ != "tool"@
                && row.subject_type@ != "provider"@
        )
            && !(
                row.decision@ != "allowed"@ && row.decision@ != "denied"@
                    && row.decision@ != "warned"@
            )
            ==> row.fault(&names) is None,
{
}

/// What the fields of a [`AuditLogEntryRecord`] say of the stored row.
pub proof fn the_record_of_an_audit_log_entry_row(
    row: AuditLogEntryRow,
    stored: Row,
    names: DomainNames,
    record: AuditLogEntryRecord,
)
    requires
        row.is_of(stored),
        row.holds(&names, &record),
    ensures
        crate::model::value(stored, Column::EntryId) == Datum::Text(record.entry_id@),
        crate::model::value(stored, Column::TenantId) == Datum::Text(record.tenant_id@),
        crate::model::value(stored, Column::ActorId) == Datum::Text(record.actor_id@),
        crate::model::value(stored, Column::Action) == Datum::Text(record.action@),
        crate::model::value(stored, Column::ResourceType) == Datum::Text(record.resource_type@),
        crate::model::value(stored, Column::ResourceId) == Datum::Text(record.resource_id@),
        crate::model::value(stored, Column::Outcome) == Datum::Text(record.outcome.spec_name()),
        crate::model::value(stored, Column::MetadataJson) == Datum::Text(record.metadata@),
        crate::laws::recording::is_at_least_zero(
            crate::model::value(stored, Column::OccurredAtMs),
            record.occurred_at_ms as int,
        ),
{
    crate::vocabulary::audit_outcome_names_are_inverse(record.outcome, row.outcome@);
}

/// A [`AuditLogEntryRow`] says nothing of a stored row but what the columns that it asks for
/// hold.
pub proof fn the_columns_of_an_audit_log_entry_row(row: AuditLogEntryRow, stored: Row, other: Row)
    requires
        forall|i: int|
            0 <= i < AuditLogEntryRow::spec_columns().len()
                ==> crate::model::value(stored, #[trigger] AuditLogEntryRow::spec_columns()[i])
                    == crate::model::value(other, AuditLogEntryRow::spec_columns()[i]),
    ensures
        row.is_of(stored) == row.is_of(other),
{
    let columns = AuditLogEntryRow::spec_columns();
    assert(columns[0] == Column::EntryId);
    assert(columns[1] == Column::TenantId);
    assert(columns[2] == Column::ActorId);
    assert(columns[3] == Column::Action);
    assert(columns[4] == Column::ResourceType);
    assert(columns[5] == Column::ResourceId);
    assert(columns[6] == Column::Outcome);
    assert(columns[7] == Column::MetadataJson);
    assert(columns[8] == Column::OccurredAtMs);
}

/// When a [`AuditLogEntryRow`] holds no record, and how it is refused.
pub proof fn the_faults_of_an_audit_log_entry_row(row: AuditLogEntryRow, names: DomainNames)
    ensures
        row.outcome@ != "success"@ && row.outcome@ != "failure"@
            ==> row.fault(&names)
                == Some(
                    ErrorView::Internal(
                        "audit_log_entries.outcome: unknown value "@
                            + crate::json::quoted( row.outcome@, ),
                    ),
                ),
        !(row.outcome@ != "success"@ && row.outcome@ != "failure"@)
            && crate::json::json_refusal(row.metadata_json@) is Some
            ==> row.fault(&names)
                == Some(
                    ErrorView::Internal(
                        "audit_log_entries.metadata_json parse error: "@
                            + crate::json::json_refusal( row.metadata_json@, )->Some_0,
                    ),
                ),
        !(row.outcome@ != "success"@ && row.outcome@ != "failure"@)
            && !(crate::json::json_refusal(row.metadata_json@) is Some)
            ==> row.fault(&names) is None,
{
}

} // verus!
