//! What is found of what was written: policies.

use crate::laws::finding::group_queries;
use crate::laws::rows::group_rows;
use crate::model::{Database, Row};
use crate::plan::Moment;
use crate::projections::policies::{
    AuditLogEntryRecorded, GuardrailPolicyCreated, GuardrailPolicyEvaluated,
};
use crate::read::policies::{AuditLogEntryRow, GuardrailEvaluationRow, GuardrailPolicyRow};
use crate::schema::Column;
use vstd::prelude::*;

verus! {

/// The row that a `AuditLogEntryRecorded` event leaves is found by the query for what it names.
pub proof fn audit_log_entry_recorded_is_found(
    e: AuditLogEntryRecorded,
    at: Moment,
    db: Database,
    later: Database,
)
    requires
        e.writes(at) is Writes,
        e.writes(at).statements().len() > 0,
    ensures
        ({
            let s = e.writes(at).statements()[0];
            let row = crate::laws::rows::left_by(db, s, None);
            &&& AuditLogEntryRow::spec_list_by_resource(
                e.resource_type@,
                e.resource_id@,
            ).finds(later, s.table(), row)
        }),
{
    broadcast use {group_queries, group_rows};
}

/// The row that a `GuardrailPolicyCreated` event leaves is found by the queries for what it names.
pub proof fn guardrail_policy_created_is_found(
    e: GuardrailPolicyCreated,
    at: Moment,
    db: Database,
    was: Option<Row>,
    later: Database,
    limit: usize,
    offset: usize,
)
    requires
        e.writes(at) is Writes,
        e.writes(at).statements().len() > 0,
        was is Some ==> crate::laws::rows::replaces(
            db,
            e.writes(at).statements()[0],
            was->Some_0,
        ),
    ensures
        ({
            let s = e.writes(at).statements()[0];
            let row = crate::laws::rows::left_by(db, s, was);
            &&& GuardrailPolicyRow::spec_get_policy(e.policy_id@).finds(later, s.table(), row)
            &&& GuardrailPolicyRow::spec_list_policies(
                e.tenant_id@,
                limit,
                offset,
            ).finds(later, s.table(), row)
        }),
{
    broadcast use {group_queries, group_rows};

    let key = e.writes(at).statements()[0]->Insert_conflict->Merge_key;
    assert(key[0] == Column::PolicyId);
}

/// The row that a `GuardrailPolicyEvaluated` event leaves is found by the query for what it names.
pub proof fn guardrail_policy_evaluated_is_found(
    e: GuardrailPolicyEvaluated,
    at: Moment,
    db: Database,
    later: Database,
    limit: usize,
)
    requires
        e.writes(at) is Writes,
        e.writes(at).statements().len() > 0,
    ensures
        ({
            let s = e.writes(at).statements()[0];
            let row = crate::laws::rows::left_by(db, s, None);
            &&& GuardrailEvaluationRow::spec_list_evaluations(
                e.tenant_id@,
                limit,
            ).finds(later, s.table(), row)
        }),
{
    broadcast use {group_queries, group_rows};
}

} // verus!
