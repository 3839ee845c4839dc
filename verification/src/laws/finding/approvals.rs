//! What is found of what was written: approvals.

use crate::laws::finding::group_queries;
use crate::laws::rows::group_rows;
use crate::model::Database;
use crate::plan::Moment;
use crate::projections::approvals::{ApprovalDelegated, ApprovalRequested, ToolCallProposed};
use crate::read::approvals::{ApprovalDelegationRow, ApprovalRow, ToolCallApprovalRow};
use vstd::prelude::*;

verus! {

/// The row that a `ApprovalRequested` event leaves is found by the queries for what it names.
pub proof fn approval_requested_is_found(
    e: ApprovalRequested,
    at: Moment,
    db: Database,
    later: Database,
    limit: usize,
    offset: usize,
)
    requires
        e.writes(at) is Writes,
        e.writes(at).statements().len() > 0,
    ensures
        ({
            let s = e.writes(at).statements()[0];
            let row = crate::laws::rows::left_by(db, s, None);
            &&& ApprovalRow::spec_get(e.approval_id@).finds(later, s.table(), row)
            &&& ApprovalRow::spec_list_all(e.project@, limit, offset).finds(later, s.table(), row)
        }),
{
    broadcast use {group_queries, group_rows};
}

/// The row that a `ApprovalDelegated` event leaves is found by the query for what it names.
pub proof fn approval_delegated_is_found(
    e: ApprovalDelegated,
    at: Moment,
    db: Database,
    later: Database,
)
    requires
        e.writes(at) is Writes,
        e.writes(at).statements().len() > 0,
    ensures
        ({
            let s = e.writes(at).statements()[0];
            let row = crate::laws::rows::left_by(db, s, None);
            &&& ApprovalDelegationRow::spec_list_for_approval(
                e.approval_id@,
            ).finds(later, s.table(), row)
        }),
{
    broadcast use {group_queries, group_rows};
}

/// The row that a `ToolCallProposed` event leaves is found by the queries for what it names.
pub proof fn tool_call_proposed_is_found(
    e: ToolCallProposed,
    at: Moment,
    db: Database,
    later: Database,
)
    requires
        e.writes(at) is Writes,
        e.writes(at).statements().len() > 0,
    ensures
        ({
            let s = e.writes(at).statements()[0];
            let row = crate::laws::rows::left_by(db, s, None);
            &&& ToolCallApprovalRow::spec_get(e.call_id@).finds(later, s.table(), row)
            &&& ToolCallApprovalRow::spec_list_for_run(e.run_id@).finds(later, s.table(), row)
            &&& ToolCallApprovalRow::spec_list_for_session(
                e.session_id@,
            ).finds(later, s.table(), row)
        }),
{
    broadcast use {group_queries, group_rows};
}

} // verus!
