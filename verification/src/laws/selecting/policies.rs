//! What the queries select: policies.

use crate::laws::finding::group_queries;
use crate::model::{Database, Datum, Row};
use crate::query::{Order, OutputView};
use crate::read::policies::{AuditLogEntryRow, GuardrailEvaluationRow, GuardrailPolicyRow};
use crate::schema::{Column, Table};
use vstd::prelude::*;

verus! {

/// The rows that [`GuardrailPolicyRow::get_policy`] selects, and in which order.
pub proof fn guardrail_policy_row_get_policy_selects(db: Database, row: Row, policy_id: Seq<char>)
    ensures
        ({
            let query = GuardrailPolicyRow::spec_get_policy(policy_id);
            &&& query.table == Table::GuardrailPolicies
            &&& query.output == OutputView::Rows(GuardrailPolicyRow::spec_columns())
            &&& query.selects(db, row)
                <==> crate::model::value(row, Column::PolicyId) == Datum::Text(policy_id)
            &&& query.order.len() == 0
            &&& query.limit == None::<i64>
            &&& query.offset == None::<i64>
        }),
{
    broadcast use group_queries;
}

/// The rows that [`GuardrailPolicyRow::list_policies`] selects, and in which order.
pub proof fn guardrail_policy_row_list_policies_selects(
    db: Database,
    row: Row,
    tenant_id: Seq<char>,
    limit: usize,
    offset: usize,
)
    ensures
        ({
            let query = GuardrailPolicyRow::spec_list_policies(tenant_id, limit, offset);
            &&& query.table == Table::GuardrailPolicies
            &&& query.output == OutputView::Rows(GuardrailPolicyRow::spec_columns())
            &&& query.selects(db, row)
                <==> crate::model::value(row, Column::TenantId) == Datum::Text(tenant_id)
            &&& query.order.len() == 1
            &&& query.order[0] == Order::Ascending(Column::PolicyId)
            &&& query.limit == Some(limit as i64)
            &&& query.offset == Some(offset as i64)
        }),
{
    broadcast use group_queries;
}

/// The rows that [`GuardrailEvaluationRow::list_evaluations`] selects, and in which order.
pub proof fn guardrail_evaluation_row_list_evaluations_selects(
    db: Database,
    row: Row,
    tenant_id: Seq<char>,
    limit: usize,
)
    ensures
        ({
            let query = GuardrailEvaluationRow::spec_list_evaluations(tenant_id, limit);
            &&& query.table == Table::GuardrailEvaluations
            &&& query.output == OutputView::Rows(GuardrailEvaluationRow::spec_columns())
            &&& query.selects(db, row)
                <==> crate::model::value(row, Column::TenantId) == Datum::Text(tenant_id)
            &&& query.order.len() == 2
            &&& query.order[0] == Order::Descending(Column::EvaluatedAtMs)
            &&& query.order[1] == Order::Ascending(Column::PolicyId)
            &&& query.limit == Some(limit as i64)
            &&& query.offset == None::<i64>
        }),
{
    broadcast use group_queries;
}

/// The rows that [`AuditLogEntryRow::list_by_resource`] selects, and in which order.
pub proof fn audit_log_entry_row_list_by_resource_selects(
    db: Database,
    row: Row,
    resource_type: Seq<char>,
    resource_id: Seq<char>,
)
    ensures
        ({
            let query = AuditLogEntryRow::spec_list_by_resource(resource_type, resource_id);
            &&& query.table == Table::AuditLogEntries
            &&& query.output == OutputView::Rows(AuditLogEntryRow::spec_columns())
            &&& query.selects(db, row)
                <==> crate::model::value(row, Column::ResourceType) == Datum::Text(resource_type)
                && crate::model::value(row, Column::ResourceId) == Datum::Text(resource_id)
            &&& query.order.len() == 2
            &&& query.order[0] == Order::Descending(Column::OccurredAtMs)
            &&& query.order[1] == Order::Descending(Column::EntryId)
            &&& query.limit == Some(10_000i64)
            &&& query.offset == None::<i64>
        }),
{
    broadcast use group_queries;
}

/// The rows that [`AuditLogEntryRow::list_by_tenant`] selects, and in which order.
pub proof fn audit_log_entry_row_list_by_tenant_selects(
    db: Database,
    row: Row,
    tenant_id: Seq<char>,
    since_ms: Option<u64>,
    before_ms: Option<u64>,
    limit: usize,
)
    ensures
        ({
            let query = AuditLogEntryRow::spec_list_by_tenant(
                tenant_id,
                since_ms,
                before_ms,
                limit,
            );
            &&& query.table == Table::AuditLogEntries
            &&& query.output == OutputView::Rows(AuditLogEntryRow::spec_columns())
            &&& query.selects(db, row)
                <==> crate::model::value(row, Column::TenantId) == Datum::Text(tenant_id)
                    && crate::laws::selecting::is_at_least(
                        crate::model::value(row, Column::OccurredAtMs),
                        (match since_ms { Some(ms) => ms as i64, None => i64::MIN }) as int,
                    )
                    && crate::laws::selecting::is_below(
                        crate::model::value(row, Column::OccurredAtMs),
                        (match before_ms { Some(ms) => ms as i64, None => i64::MAX }) as int,
                    )
            &&& query.order.len() == 2
            &&& query.order[0] == Order::Descending(Column::OccurredAtMs)
            &&& query.order[1] == Order::Descending(Column::EntryId)
            &&& query.limit == Some(limit as i64)
            &&& query.offset == None::<i64>
        }),
{
    broadcast use group_queries;
}

} // verus!
