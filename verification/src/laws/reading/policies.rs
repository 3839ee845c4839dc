//! What is read back of what was written: policies.

use crate::domain::DomainNames;
use crate::laws::rows::group_rows;
use crate::model::{Database, Datum, Row};
use crate::plan::Moment;
use crate::projections::policies::{
    AuditLogEntryRecorded, GuardrailPolicyCreated, GuardrailPolicyEvaluated,
};
use crate::read::StoredRow;
use crate::read::policies::{
    AuditLogEntryRecord, AuditLogEntryRow, GuardrailEvaluationRecord, GuardrailEvaluationRow,
    GuardrailPolicy, GuardrailPolicyRow,
};
use crate::schema::{Column, Table};
use vstd::prelude::*;

verus! {

/// The record that is read back after a `AuditLogEntryRecorded` event holds what the event
/// says.
pub proof fn audit_log_entry_recorded_is_read_back(
    e: AuditLogEntryRecorded,
    at: Moment,
    db: Database,
    row: AuditLogEntryRow,
    names: DomainNames,
    record: AuditLogEntryRecord,
)
    requires
        e.writes(at) is Writes,
        e.writes(at).statements().len() > 0,
        row.is_of(crate::laws::rows::left_by(db, e.writes(at).statements()[0], None)),
        row.holds(&names, &record),
    ensures
        record.entry_id@ == e.entry_id@,
        record.tenant_id@ == e.tenant_id@,
        record.actor_id@ == e.actor_id@,
        record.action@ == e.action@,
        record.resource_type@ == e.resource_type@,
        record.resource_id@ == e.resource_id@,
        record.outcome == e.outcome,
        e.occurred_at_ms <= i64::MAX ==> record.occurred_at_ms == e.occurred_at_ms,
        db.default_of(Table::AuditLogEntries, Column::MetadataJson) == Datum::Text(
            record.metadata@,
        ),
{
    broadcast use group_rows;

    crate::vocabulary::audit_outcome_names_are_inverse(e.outcome, e.outcome.spec_name());
}

/// The record that is read back after a `GuardrailPolicyCreated` event holds what the event
/// says.
pub proof fn guardrail_policy_created_is_read_back(
    e: GuardrailPolicyCreated,
    at: Moment,
    db: Database,
    was: Option<Row>,
    row: GuardrailPolicyRow,
    names: DomainNames,
    record: GuardrailPolicy,
)
    requires
        e.writes(at) is Writes,
        e.writes(at).statements().len() > 0,
        was is Some ==> crate::laws::rows::replaces(
            db,
            e.writes(at).statements()[0],
            was->Some_0,
        ),
        row.is_of(crate::laws::rows::left_by(db, e.writes(at).statements()[0], was)),
        row.holds(&names, &record),
    ensures
        record.policy_id@ == e.policy_id@,
        record.name@ == e.name@,
        record.rules@ == e.rules_json@,
        record.enabled == true,
        row.rules.fault is None ==> row.fault(&names) is None,
{
    broadcast use group_rows;

    let key = e.writes(at).statements()[0]->Insert_conflict->Merge_key;
    assert(key[0] == Column::PolicyId);
}

/// The record that is read back after a `GuardrailPolicyEvaluated` event holds what the event
/// says.
pub proof fn guardrail_policy_evaluated_is_read_back(
    e: GuardrailPolicyEvaluated,
    at: Moment,
    db: Database,
    row: GuardrailEvaluationRow,
    names: DomainNames,
    record: GuardrailEvaluationRecord,
)
    requires
        e.writes(at) is Writes,
        e.writes(at).statements().len() > 0,
        row.is_of(crate::laws::rows::left_by(db, e.writes(at).statements()[0], None)),
        row.holds(&names, &record),
    ensures
        record.policy_id@ == e.policy_id@,
        record.tenant_id@ == e.tenant_id@,
        record.subject_type == e.subject_type,
        record.action@ == e.action@,
        record.decision == e.decision,
        record.reason.deep_view() == e.reason.deep_view(),
        e.evaluated_at_ms <= i64::MAX ==> record.evaluated_at_ms == e.evaluated_at_ms,
        row.fault(&names) is None,
        record.subject_id.deep_view() == if e.subject_id is Some && e.subject_id->Some_0@.len()
            > 0 {
            e.subject_id.deep_view()
        } else {
            None
        },
{
    broadcast use group_rows;

    crate::vocabulary::guardrail_subject_type_names_are_inverse(
        e.subject_type,
        e.subject_type.spec_name(),
    );
    crate::vocabulary::guardrail_decision_kind_names_are_inverse(
        e.decision,
        e.decision.spec_name(),
    );
}

} // verus!
