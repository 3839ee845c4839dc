//! What is read back of what was written: approvals.

use crate::domain::DomainNames;
use crate::laws::rows::group_rows;
use crate::model::{Database, Datum, Row};
use crate::plan::Moment;
use crate::projections::approvals::{
    ApprovalDelegated, ApprovalRequested, ApprovalResolved, ToolCallAmended, ToolCallApproved,
    ToolCallProposed, ToolCallRejected,
};
use crate::read::StoredRow;
use crate::read::approvals::{
    ApprovalDelegationRecord, ApprovalDelegationRow, ApprovalRecord, ApprovalRow,
    ToolCallApprovalRecord, ToolCallApprovalRow,
};
use crate::vocabulary::ToolCallApprovalState;
use crate::schema::{Column, Table};
use vstd::prelude::*;

verus! {

/// The record that is read back after a `ApprovalRequested` event holds what the event says.
pub proof fn approval_requested_is_read_back(
    e: ApprovalRequested,
    at: Moment,
    db: Database,
    row: ApprovalRow,
    names: DomainNames,
    record: ApprovalRecord,
)
    requires
        e.writes(at) is Writes,
        e.writes(at).statements().len() > 0,
        row.is_of(crate::laws::rows::left_by(db, e.writes(at).statements()[0], None)),
        row.holds(&names, &record),
    ensures
        record.approval_id@ == e.approval_id@,
        record.project@ == e.project@,
        record.run_id.deep_view() == e.run_id.deep_view(),
        record.task_id.deep_view() == e.task_id.deep_view(),
        record.requirement@ == e.requirement@,
        record.title.deep_view() == e.title.deep_view(),
        record.description.deep_view() == e.description.deep_view(),
        record.version == 1,
        record.created_at == at.now as u64,
        record.updated_at == at.now as u64,
        names.approval_requirements.deep_view().contains(e.requirement@) && row.decision is None
            ==> row.fault(&names) is None,
        db.default_of(Table::Approvals, Column::Decision) == Datum::Null
            ==> record.decision is None,
{
    broadcast use group_rows;
}

/// The record that is read back after a `ApprovalDelegated` event holds what the event says.
pub proof fn approval_delegated_is_read_back(
    e: ApprovalDelegated,
    at: Moment,
    db: Database,
    row: ApprovalDelegationRow,
    names: DomainNames,
    record: ApprovalDelegationRecord,
)
    requires
        e.writes(at) is Writes,
        e.writes(at).statements().len() > 0,
        row.is_of(crate::laws::rows::left_by(db, e.writes(at).statements()[0], None)),
        row.holds(&names, &record),
    ensures
        record.approval_id@ == e.approval_id@,
        record.delegated_to@ == e.delegated_to@,
        e.delegated_at_ms <= i64::MAX ==> record.delegated_at_ms == e.delegated_at_ms,
        record.delegation_id@ == e.delegation_id@,
{
    broadcast use group_rows;
}

/// The record that is read back after a `ToolCallProposed` event holds what the event says.
pub proof fn tool_call_proposed_is_read_back(
    e: ToolCallProposed,
    at: Moment,
    db: Database,
    row: ToolCallApprovalRow,
    names: DomainNames,
    record: ToolCallApprovalRecord,
)
    requires
        e.writes(at) is Writes,
        e.writes(at).statements().len() > 0,
        row.is_of(crate::laws::rows::left_by(db, e.writes(at).statements()[0], None)),
        row.holds(&names, &record),
    ensures
        record.call_id@ == e.call_id@,
        record.session_id@ == e.session_id@,
        record.run_id@ == e.run_id@,
        record.project@ == e.project@,
        record.tool_name@ == e.tool_name@,
        record.original_tool_args@ == e.tool_args@,
        record.amended_tool_args is None,
        record.approved_tool_args is None,
        record.display_summary.deep_view() == if e.display_summary@.len() == 0 {
            None::<Seq<char>>
        } else {
            Some(e.display_summary@)
        },
        record.match_policy@ == e.match_policy_json@,
        record.state == ToolCallApprovalState::Pending,
        record.operator_id is None,
        record.scope is None,
        record.reason is None,
        e.proposed_at_ms <= i64::MAX ==> record.proposed_at_ms == e.proposed_at_ms,
        record.approved_at_ms is None,
        record.rejected_at_ms is None,
        record.last_amended_at_ms is None,
        record.version == 1,
        record.created_at == at.now as u64,
        record.updated_at == at.now as u64,
        row.match_policy.fault is None && (row.scope is Some ==> row.scope->Some_0.fault is None)
            ==> row.fault(&names) is None,
{
    broadcast use group_rows;

    crate::vocabulary::tool_call_approval_state_names_are_inverse(
        ToolCallApprovalState::Pending,
        ToolCallApprovalState::Pending.spec_name(),
    );
}

/// The record that is read back of a row that a `ApprovalResolved` event changes holds what the
/// event says.
pub proof fn approval_resolved_is_read_back(
    e: ApprovalResolved,
    at: Moment,
    db: Database,
    was: Row,
    before: ApprovalRow,
    row: ApprovalRow,
    names: DomainNames,
    old: ApprovalRecord,
    record: ApprovalRecord,
)
    requires
        e.writes(at) is Writes,
        e.writes(at).statements().len() > 0,
        crate::model::passes_all(db, was, e.writes(at).statements()[0]->Update_filter),
        before.is_of(was),
        row.is_of(crate::laws::rows::updated_by(db, e.writes(at).statements()[0], was)),
        before.holds(&names, &old),
        row.holds(&names, &record),
    ensures
        record.decision.deep_view() == Some(e.decision@),
        record.updated_at == at.now as u64,
        record.approval_id@ == old.approval_id@,
        record.project@ == old.project@,
        record.run_id.deep_view() == old.run_id.deep_view(),
        record.task_id.deep_view() == old.task_id.deep_view(),
        record.requirement@ == old.requirement@,
        record.title.deep_view() == old.title.deep_view(),
        record.description.deep_view() == old.description.deep_view(),
        0 <= before.version ==> record.version == old.version + 1,
        record.created_at == old.created_at,
{
    broadcast use group_rows;
}

/// The record that is read back of a row that a `ToolCallAmended` event changes holds what the
/// event says.
pub proof fn tool_call_amended_is_read_back(
    e: ToolCallAmended,
    at: Moment,
    db: Database,
    was: Row,
    before: ToolCallApprovalRow,
    row: ToolCallApprovalRow,
    names: DomainNames,
    old: ToolCallApprovalRecord,
    record: ToolCallApprovalRecord,
)
    requires
        e.writes(at) is Writes,
        e.writes(at).statements().len() > 0,
        crate::model::passes_all(db, was, e.writes(at).statements()[0]->Update_filter),
        before.is_of(was),
        row.is_of(crate::laws::rows::updated_by(db, e.writes(at).statements()[0], was)),
        before.holds(&names, &old),
        row.holds(&names, &record),
    ensures
        record.amended_tool_args.deep_view() == Some(e.new_tool_args@),
        e.amended_at_ms <= i64::MAX ==> record.last_amended_at_ms == Some(e.amended_at_ms),
        record.updated_at == at.now as u64,
        record.call_id@ == old.call_id@,
        record.session_id@ == old.session_id@,
        record.run_id@ == old.run_id@,
        record.project@ == old.project@,
        record.tool_name@ == old.tool_name@,
        record.original_tool_args@ == old.original_tool_args@,
        record.approved_tool_args.deep_view() == old.approved_tool_args.deep_view(),
        record.display_summary.deep_view() == old.display_summary.deep_view(),
        record.match_policy@ == old.match_policy@,
        record.state == old.state,
        record.operator_id.deep_view() == old.operator_id.deep_view(),
        record.scope.deep_view() == old.scope.deep_view(),
        record.reason.deep_view() == old.reason.deep_view(),
        record.proposed_at_ms == old.proposed_at_ms,
        record.approved_at_ms == old.approved_at_ms,
        record.rejected_at_ms == old.rejected_at_ms,
        0 <= before.version ==> record.version == old.version + 1,
        record.created_at == old.created_at,
{
    broadcast use group_rows;
}

/// The record that is read back of a row that a `ToolCallApproved` event changes holds what the
/// event says.
pub proof fn tool_call_approved_is_read_back(
    e: ToolCallApproved,
    at: Moment,
    db: Database,
    was: Row,
    before: ToolCallApprovalRow,
    row: ToolCallApprovalRow,
    names: DomainNames,
    old: ToolCallApprovalRecord,
    record: ToolCallApprovalRecord,
)
    requires
        e.writes(at) is Writes,
        e.writes(at).statements().len() > 0,
        crate::model::passes_all(db, was, e.writes(at).statements()[0]->Update_filter),
        before.is_of(was),
        row.is_of(crate::laws::rows::updated_by(db, e.writes(at).statements()[0], was)),
        before.holds(&names, &old),
        row.holds(&names, &record),
    ensures
        record.approved_tool_args.deep_view() == e.approved_tool_args.deep_view(),
        record.state == ToolCallApprovalState::Approved,
        record.operator_id.deep_view() == Some(e.operator_id@),
        record.scope.deep_view() == Some(e.scope_json@),
        e.approved_at_ms <= i64::MAX ==> record.approved_at_ms == Some(e.approved_at_ms),
        record.updated_at == at.now as u64,
        record.call_id@ == old.call_id@,
        record.session_id@ == old.session_id@,
        record.run_id@ == old.run_id@,
        record.project@ == old.project@,
        record.tool_name@ == old.tool_name@,
        record.original_tool_args@ == old.original_tool_args@,
        record.amended_tool_args.deep_view() == old.amended_tool_args.deep_view(),
        record.display_summary.deep_view() == old.display_summary.deep_view(),
        record.match_policy@ == old.match_policy@,
        record.reason.deep_view() == old.reason.deep_view(),
        record.proposed_at_ms == old.proposed_at_ms,
        record.rejected_at_ms == old.rejected_at_ms,
        record.last_amended_at_ms == old.last_amended_at_ms,
        0 <= before.version ==> record.version == old.version + 1,
        record.created_at == old.created_at,
{
    broadcast use group_rows;

    crate::vocabulary::tool_call_approval_state_names_are_inverse(
        ToolCallApprovalState::Approved,
        ToolCallApprovalState::Approved.spec_name(),
    );
}

/// The record that is read back of a row that a `ToolCallRejected` event changes holds what the
/// event says.
pub proof fn tool_call_rejected_is_read_back(
    e: ToolCallRejected,
    at: Moment,
    db: Database,
    was: Row,
    before: ToolCallApprovalRow,
    row: ToolCallApprovalRow,
    names: DomainNames,
    old: ToolCallApprovalRecord,
    record: ToolCallApprovalRecord,
)
    requires
        e.writes(at) is Writes,
        e.writes(at).statements().len() > 0,
        crate::model::passes_all(db, was, e.writes(at).statements()[0]->Update_filter),
        before.is_of(was),
        row.is_of(crate::laws::rows::updated_by(db, e.writes(at).statements()[0], was)),
        before.holds(&names, &old),
        row.holds(&names, &record),
    ensures
        record.state == ToolCallApprovalState::Rejected,
        record.operator_id.deep_view() == Some(e.operator_id@),
        record.reason.deep_view() == e.reason.deep_view(),
        e.rejected_at_ms <= i64::MAX ==> record.rejected_at_ms == Some(e.rejected_at_ms),
        record.updated_at == at.now as u64,
        record.call_id@ == old.call_id@,
        record.session_id@ == old.session_id@,
        record.run_id@ == old.run_id@,
        record.project@ == old.project@,
        record.tool_name@ == old.tool_name@,
        record.original_tool_args@ == old.original_tool_args@,
        record.amended_tool_args.deep_view() == old.amended_tool_args.deep_view(),
        record.approved_tool_args.deep_view() == old.approved_tool_args.deep_view(),
        record.display_summary.deep_view() == old.display_summary.deep_view(),
        record.match_policy@ == old.match_policy@,
        record.scope.deep_view() == old.scope.deep_view(),
        record.proposed_at_ms == old.proposed_at_ms,
        record.approved_at_ms == old.approved_at_ms,
        record.last_amended_at_ms == old.last_amended_at_ms,
        0 <= before.version ==> record.version == old.version + 1,
        record.created_at == old.created_at,
{
    broadcast use group_rows;

    crate::vocabulary::tool_call_approval_state_names_are_inverse(
        ToolCallApprovalState::Rejected,
        ToolCallApprovalState::Rejected.spec_name(),
    );
}

} // verus!
