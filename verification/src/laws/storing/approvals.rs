//! What the events store: approvals.

use crate::laws::rows::{group_filters, group_rows};
use crate::model::{Database, Datum, Row};
use crate::plan::{Moment, Planned};
use crate::projections::approvals::{
    ApprovalDelegated, ApprovalRequested, ApprovalResolved, PlanApproved, PlanProposed,
    PlanRejected, PlanRevisionRequested, ToolCallAmended, ToolCallApproved, ToolCallProposed,
    ToolCallRejected,
};
use crate::schema::{Column, Table};
use crate::statement::ConflictView;
use vstd::prelude::*;

verus! {

/// What a [`ApprovalRequested`] event stores.
pub proof fn approval_requested_is_stored(
    e: ApprovalRequested,
    at: Moment,
    db: Database,
    was: Row,
    other: Column,
)
    ensures
        ({
            let s = e.writes(at).statements()[0];
            let new = crate::laws::rows::left_by(db, s, None);
            &&& e.writes(at) is Writes
            &&& e.writes(at).statements().len() == 1
            &&& s is Insert && s.table() == Table::Approvals
            &&& crate::model::value(new, Column::ApprovalId) == Datum::Text(e.approval_id@)
            &&& crate::model::value(new, Column::TenantId) == Datum::Text(e.project.tenant_id@)
            &&& crate::model::value(new, Column::WorkspaceId)
                == Datum::Text(e.project.workspace_id@)
            &&& crate::model::value(new, Column::ProjectId) == Datum::Text(e.project.project_id@)
            &&& crate::model::value(new, Column::RunId)
                == crate::laws::storing::optional_text(e.run_id)
            &&& crate::model::value(new, Column::TaskId)
                == crate::laws::storing::optional_text(e.task_id)
            &&& crate::model::value(new, Column::Requirement) == Datum::Text(e.requirement@)
            &&& crate::model::value(new, Column::Title)
                == crate::laws::storing::optional_text(e.title)
            &&& crate::model::value(new, Column::Description)
                == crate::laws::storing::optional_text(e.description)
            &&& crate::model::value(new, Column::Version) == Datum::Int(1)
            &&& crate::model::value(new, Column::CreatedAt) == Datum::Int(at.now as int)
            &&& crate::model::value(new, Column::UpdatedAt) == Datum::Int(at.now as int)
            &&& other is ApprovalId || other is TenantId || other is WorkspaceId
                || other is ProjectId || other is RunId || other is TaskId || other is Requirement
                || other is Title || other is Description || other is Version || other is CreatedAt
                || other is UpdatedAt
                || crate::model::value(new, other) == db.default_of(Table::Approvals, other)
            &&& s->Insert_conflict is Fail
        }),
{
    broadcast use {group_rows, group_filters};
}

/// What a [`ApprovalResolved`] event stores.
pub proof fn approval_resolved_is_stored(
    e: ApprovalResolved,
    at: Moment,
    db: Database,
    was: Row,
    other: Column,
)
    ensures
        ({
            let s = e.writes(at).statements()[0];
            let updated = crate::laws::rows::updated_by(db, s, was);
            let selected = crate::model::value(was, Column::ApprovalId)
                == Datum::Text(e.approval_id@);
            &&& e.writes(at) is Writes
            &&& e.writes(at).statements().len() == 1
            &&& s is Update && s.table() == Table::Approvals
            &&& selected ==> {
                &&& crate::model::value(updated, Column::Decision) == Datum::Text(e.decision@)
                &&& crate::model::value(updated, Column::Version)
                    == crate::model::plus(crate::model::value(was, Column::Version), Datum::Int(1))
                &&& crate::model::value(updated, Column::UpdatedAt) == Datum::Int(at.now as int)
                &&& other is Decision || other is Version || other is UpdatedAt
                    || crate::model::value(updated, other) == crate::model::value(was, other)
            }
            &&& !selected ==> updated == was
        }),
{
    broadcast use {group_rows, group_filters};
}

/// What a [`PlanProposed`] event stores.
pub proof fn plan_proposed_is_stored(
    e: PlanProposed,
    at: Moment,
    db: Database,
    was: Row,
    other: Column,
)
    ensures
        e.proposed_at > i64::MAX
            ==> e.writes(at)
                == Planned::Refused(
                    crate::laws::storing::too_great(
                        "PlanProposed.proposed_at"@,
                        e.proposed_at as nat,
                        "i64::MAX"@,
                    ),
                ),
        e.proposed_at <= i64::MAX ==> ({
            let s = e.writes(at).statements()[0];
            let new = crate::laws::rows::left_by(db, s, None);
            &&& e.writes(at) is Writes
            &&& e.writes(at).statements().len() == 1
            &&& s is Insert && s.table() == Table::PlanReviews
            &&& crate::model::value(new, Column::PlanRunId) == Datum::Text(e.plan_run_id@)
            &&& crate::model::value(new, Column::TenantId) == Datum::Text(e.project.tenant_id@)
            &&& crate::model::value(new, Column::WorkspaceId)
                == Datum::Text(e.project.workspace_id@)
            &&& crate::model::value(new, Column::ProjectId) == Datum::Text(e.project.project_id@)
            &&& crate::model::value(new, Column::SessionId) == Datum::Text(e.session_id@)
            &&& crate::model::value(new, Column::PlanMarkdown) == Datum::Text(e.plan_markdown@)
            &&& crate::model::value(new, Column::State) == Datum::Text("proposed"@)
            &&& crate::model::value(new, Column::ProposedAt)
                == Datum::Int(e.proposed_at as i64 as int)
            &&& other is PlanRunId || other is TenantId || other is WorkspaceId
                || other is ProjectId || other is SessionId || other is PlanMarkdown
                || other is State || other is ProposedAt
                || crate::model::value(new, other) == db.default_of(Table::PlanReviews, other)
            &&& s->Insert_conflict == ConflictView::Ignore(seq![Column::PlanRunId])
        }),
{
    broadcast use {group_rows, group_filters};
}

/// What a [`PlanApproved`] event stores.
pub proof fn plan_approved_is_stored(
    e: PlanApproved,
    at: Moment,
    db: Database,
    was: Row,
    other: Column,
)
    ensures
        e.approved_at > i64::MAX
            ==> e.writes(at)
                == Planned::Refused(
                    crate::laws::storing::too_great(
                        "PlanApproved.approved_at"@,
                        e.approved_at as nat,
                        "i64::MAX"@,
                    ),
                ),
        e.approved_at <= i64::MAX ==> ({
            let s = e.writes(at).statements()[0];
            let updated = crate::laws::rows::updated_by(db, s, was);
            let selected = crate::model::value(was, Column::PlanRunId)
                == Datum::Text(e.plan_run_id@)
                && crate::model::value(was, Column::State) == Datum::Text("proposed"@);
            &&& e.writes(at) is Writes
            &&& e.writes(at).statements().len() == 1
            &&& s is Update && s.table() == Table::PlanReviews
            &&& selected ==> {
                &&& crate::model::value(updated, Column::State) == Datum::Text("approved"@)
                &&& crate::model::value(updated, Column::ResolvedBy) == Datum::Text(e.approved_by@)
                &&& crate::model::value(updated, Column::ResolvedAt)
                    == Datum::Int(e.approved_at as i64 as int)
                &&& crate::model::value(updated, Column::ReviewerComments)
                    == crate::laws::storing::optional_text(e.reviewer_comments)
                &&& other is State || other is ResolvedBy || other is ResolvedAt
                    || other is ReviewerComments
                    || crate::model::value(updated, other) == crate::model::value(was, other)
            }
            &&& !selected ==> updated == was
        }),
{
    broadcast use {group_rows, group_filters};
}

/// What a [`PlanRejected`] event stores.
pub proof fn plan_rejected_is_stored(
    e: PlanRejected,
    at: Moment,
    db: Database,
    was: Row,
    other: Column,
)
    ensures
        e.rejected_at > i64::MAX
            ==> e.writes(at)
                == Planned::Refused(
                    crate::laws::storing::too_great(
                        "PlanRejected.rejected_at"@,
                        e.rejected_at as nat,
                        "i64::MAX"@,
                    ),
                ),
        e.rejected_at <= i64::MAX ==> ({
            let s = e.writes(at).statements()[0];
            let updated = crate::laws::rows::updated_by(db, s, was);
            let selected = crate::model::value(was, Column::PlanRunId)
                == Datum::Text(e.plan_run_id@)
                && crate::model::value(was, Column::State) == Datum::Text("proposed"@);
            &&& e.writes(at) is Writes
            &&& e.writes(at).statements().len() == 1
            &&& s is Update && s.table() == Table::PlanReviews
            &&& selected ==> {
                &&& crate::model::value(updated, Column::State) == Datum::Text("rejected"@)
                &&& crate::model::value(updated, Column::ResolvedBy) == Datum::Text(e.rejected_by@)
                &&& crate::model::value(updated, Column::ResolvedAt)
                    == Datum::Int(e.rejected_at as i64 as int)
                &&& crate::model::value(updated, Column::RejectionReason) == Datum::Text(e.reason@)
                &&& other is State || other is ResolvedBy || other is ResolvedAt
                    || other is RejectionReason
                    || crate::model::value(updated, other) == crate::model::value(was, other)
            }
            &&& !selected ==> updated == was
        }),
{
    broadcast use {group_rows, group_filters};
}

/// What a [`PlanRevisionRequested`] event stores.
pub proof fn plan_revision_requested_is_stored(
    e: PlanRevisionRequested,
    at: Moment,
    db: Database,
    was: Row,
    other: Column,
)
    ensures
        e.requested_at > i64::MAX
            ==> e.writes(at)
                == Planned::Refused(
                    crate::laws::storing::too_great(
                        "PlanRevisionRequested.requested_at"@,
                        e.requested_at as nat,
                        "i64::MAX"@,
                    ),
                ),
        e.requested_at <= i64::MAX ==> ({
            let s = e.writes(at).statements()[0];
            let updated = crate::laws::rows::updated_by(db, s, was);
            let selected = crate::model::value(was, Column::PlanRunId)
                == Datum::Text(e.original_plan_run_id@)
                && crate::model::value(was, Column::State) == Datum::Text("proposed"@);
            &&& e.writes(at) is Writes
            &&& e.writes(at).statements().len() == 1
            &&& s is Update && s.table() == Table::PlanReviews
            &&& selected ==> {
                &&& crate::model::value(updated, Column::State)
                    == Datum::Text("revision_requested"@)
                &&& crate::model::value(updated, Column::ResolvedAt)
                    == Datum::Int(e.requested_at as i64 as int)
                &&& crate::model::value(updated, Column::ReviewerComments)
                    == Datum::Text(e.reviewer_comments@)
                &&& crate::model::value(updated, Column::RevisionRunId)
                    == Datum::Text(e.new_plan_run_id@)
                &&& other is State || other is ResolvedAt || other is ReviewerComments
                    || other is RevisionRunId
                    || crate::model::value(updated, other) == crate::model::value(was, other)
            }
            &&& !selected ==> updated == was
        }),
{
    broadcast use {group_rows, group_filters};
}

/// What a [`ApprovalDelegated`] event stores.
pub proof fn approval_delegated_is_stored(
    e: ApprovalDelegated,
    at: Moment,
    db: Database,
    was: Row,
    other: Column,
)
    ensures
        e.delegated_at_ms > i64::MAX
            ==> e.writes(at)
                == Planned::Refused(
                    crate::laws::storing::too_great(
                        "ApprovalDelegated.delegated_at_ms"@,
                        e.delegated_at_ms as nat,
                        "i64::MAX"@,
                    ),
                ),
        e.delegated_at_ms <= i64::MAX ==> ({
            let s = e.writes(at).statements()[0];
            let new = crate::laws::rows::left_by(db, s, None);
            &&& e.writes(at) is Writes
            &&& e.writes(at).statements().len() == 1
            &&& s is Insert && s.table() == Table::ApprovalDelegations
            &&& crate::model::value(new, Column::ApprovalId) == Datum::Text(e.approval_id@)
            &&& crate::model::value(new, Column::DelegationId) == Datum::Text(e.delegation_id@)
            &&& crate::model::value(new, Column::DelegatedTo) == Datum::Text(e.delegated_to@)
            &&& crate::model::value(new, Column::DelegatedAtMs)
                == Datum::Int(e.delegated_at_ms as i64 as int)
            &&& crate::model::value(new, Column::CreatedAt) == Datum::Int(at.now as int)
            &&& other is ApprovalId || other is DelegationId || other is DelegatedTo
                || other is DelegatedAtMs || other is CreatedAt
                || crate::model::value(new, other)
                    == db.default_of(Table::ApprovalDelegations, other)
            &&& s->Insert_conflict
                == ConflictView::Ignore(seq![Column::ApprovalId, Column::DelegationId])
        }),
{
    broadcast use {group_rows, group_filters};
}

/// What a [`ToolCallProposed`] event stores.
pub proof fn tool_call_proposed_is_stored(
    e: ToolCallProposed,
    at: Moment,
    db: Database,
    was: Row,
    other: Column,
)
    ensures
        ({
            let s = e.writes(at).statements()[0];
            let new = crate::laws::rows::left_by(db, s, None);
            &&& e.writes(at) is Writes
            &&& e.writes(at).statements().len() == 1
            &&& s is Insert && s.table() == Table::ToolCallApprovals
            &&& crate::model::value(new, Column::CallId) == Datum::Text(e.call_id@)
            &&& crate::model::value(new, Column::SessionId) == Datum::Text(e.session_id@)
            &&& crate::model::value(new, Column::RunId) == Datum::Text(e.run_id@)
            &&& crate::model::value(new, Column::TenantId) == Datum::Text(e.project.tenant_id@)
            &&& crate::model::value(new, Column::WorkspaceId)
                == Datum::Text(e.project.workspace_id@)
            &&& crate::model::value(new, Column::ProjectId) == Datum::Text(e.project.project_id@)
            &&& crate::model::value(new, Column::ToolName) == Datum::Text(e.tool_name@)
            &&& crate::model::value(new, Column::OriginalToolArgs) == Datum::Json(e.tool_args@)
            &&& crate::model::value(new, Column::AmendedToolArgs) == Datum::Null
            &&& crate::model::value(new, Column::ApprovedToolArgs) == Datum::Null
            &&& crate::model::value(new, Column::DisplaySummary)
                == (
                    if e.display_summary@.len()
                        == 0 { Datum::Null } else { Datum::Text(e.display_summary@) }
                )
            &&& crate::model::value(new, Column::MatchPolicy) == Datum::Json(e.match_policy_json@)
            &&& crate::model::value(new, Column::State) == Datum::Text("pending"@)
            &&& crate::model::value(new, Column::OperatorId) == Datum::Null
            &&& crate::model::value(new, Column::Scope) == Datum::Null
            &&& crate::model::value(new, Column::Reason) == Datum::Null
            &&& crate::model::value(new, Column::ProposedAtMs)
                == Datum::Int(e.proposed_at_ms as i64 as int)
            &&& crate::model::value(new, Column::ApprovedAtMs) == Datum::Null
            &&& crate::model::value(new, Column::RejectedAtMs) == Datum::Null
            &&& crate::model::value(new, Column::LastAmendedAtMs) == Datum::Null
            &&& crate::model::value(new, Column::Version) == Datum::Int(1)
            &&& crate::model::value(new, Column::CreatedAt) == Datum::Int(at.now as int)
            &&& crate::model::value(new, Column::UpdatedAt) == Datum::Int(at.now as int)
            &&& other is CallId || other is SessionId || other is RunId || other is TenantId
                || other is WorkspaceId || other is ProjectId || other is ToolName
                || other is OriginalToolArgs || other is AmendedToolArgs
                || other is ApprovedToolArgs || other is DisplaySummary || other is MatchPolicy
                || other is State || other is OperatorId || other is Scope || other is Reason
                || other is ProposedAtMs || other is ApprovedAtMs || other is RejectedAtMs
                || other is LastAmendedAtMs || other is Version || other is CreatedAt
                || other is UpdatedAt
                || crate::model::value(new, other) == db.default_of(Table::ToolCallApprovals, other)
            &&& s->Insert_conflict == ConflictView::Ignore(seq![Column::CallId])
        }),
{
    broadcast use {group_rows, group_filters};
}

/// What a [`ToolCallAmended`] event stores.
pub proof fn tool_call_amended_is_stored(
    e: ToolCallAmended,
    at: Moment,
    db: Database,
    was: Row,
    other: Column,
)
    ensures
        ({
            let s = e.writes(at).statements()[0];
            let updated = crate::laws::rows::updated_by(db, s, was);
            let selected = crate::model::value(was, Column::CallId) == Datum::Text(e.call_id@);
            &&& e.writes(at) is Writes
            &&& e.writes(at).statements().len() == 1
            &&& s is Update && s.table() == Table::ToolCallApprovals
            &&& selected ==> {
                &&& crate::model::value(updated, Column::AmendedToolArgs)
                    == Datum::Json(e.new_tool_args@)
                &&& crate::model::value(updated, Column::LastAmendedAtMs)
                    == Datum::Int(e.amended_at_ms as i64 as int)
                &&& crate::model::value(updated, Column::Version)
                    == crate::model::plus(crate::model::value(was, Column::Version), Datum::Int(1))
                &&& crate::model::value(updated, Column::UpdatedAt) == Datum::Int(at.now as int)
                &&& other is AmendedToolArgs || other is LastAmendedAtMs || other is Version
                    || other is UpdatedAt
                    || crate::model::value(updated, other) == crate::model::value(was, other)
            }
            &&& !selected ==> updated == was
        }),
{
    broadcast use {group_rows, group_filters};
}

/// What a [`ToolCallApproved`] event stores.
pub proof fn tool_call_approved_is_stored(
    e: ToolCallApproved,
    at: Moment,
    db: Database,
    was: Row,
    other: Column,
)
    ensures
        ({
            let s = e.writes(at).statements()[0];
            let updated = crate::laws::rows::updated_by(db, s, was);
            let selected = crate::model::value(was, Column::CallId) == Datum::Text(e.call_id@);
            &&& e.writes(at) is Writes
            &&& e.writes(at).statements().len() == 1
            &&& s is Update && s.table() == Table::ToolCallApprovals
            &&& selected ==> {
                &&& crate::model::value(updated, Column::State) == Datum::Text("approved"@)
                &&& crate::model::value(updated, Column::OperatorId) == Datum::Text(e.operator_id@)
                &&& crate::model::value(updated, Column::Scope) == Datum::Json(e.scope_json@)
                &&& crate::model::value(updated, Column::ApprovedToolArgs)
                    == crate::laws::storing::optional_json(e.approved_tool_args)
                &&& crate::model::value(updated, Column::ApprovedAtMs)
                    == Datum::Int(e.approved_at_ms as i64 as int)
                &&& crate::model::value(updated, Column::Version)
                    == crate::model::plus(crate::model::value(was, Column::Version), Datum::Int(1))
                &&& crate::model::value(updated, Column::UpdatedAt) == Datum::Int(at.now as int)
                &&& other is State || other is OperatorId || other is Scope
                    || other is ApprovedToolArgs || other is ApprovedAtMs || other is Version
                    || other is UpdatedAt
                    || crate::model::value(updated, other) == crate::model::value(was, other)
            }
            &&& !selected ==> updated == was
        }),
{
    broadcast use {group_rows, group_filters};
}

/// What a [`ToolCallRejected`] event stores.
pub proof fn tool_call_rejected_is_stored(
    e: ToolCallRejected,
    at: Moment,
    db: Database,
    was: Row,
    other: Column,
)
    ensures
        ({
            let s = e.writes(at).statements()[0];
            let updated = crate::laws::rows::updated_by(db, s, was);
            let selected = crate::model::value(was, Column::CallId) == Datum::Text(e.call_id@);
            &&& e.writes(at) is Writes
            &&& e.writes(at).statements().len() == 1
            &&& s is Update && s.table() == Table::ToolCallApprovals
            &&& selected ==> {
                &&& crate::model::value(updated, Column::State) == Datum::Text("rejected"@)
                &&& crate::model::value(updated, Column::OperatorId) == Datum::Text(e.operator_id@)
                &&& crate::model::value(updated, Column::Reason)
                    == crate::laws::storing::optional_text(e.reason)
                &&& crate::model::value(updated, Column::RejectedAtMs)
                    == Datum::Int(e.rejected_at_ms as i64 as int)
                &&& crate::model::value(updated, Column::Version)
                    == crate::model::plus(crate::model::value(was, Column::Version), Datum::Int(1))
                &&& crate::model::value(updated, Column::UpdatedAt) == Datum::Int(at.now as int)
                &&& other is State || other is OperatorId || other is Reason
                    || other is RejectedAtMs || other is Version || other is UpdatedAt
                    || crate::model::value(updated, other) == crate::model::value(was, other)
            }
            &&& !selected ==> updated == was
        }),
{
    broadcast use {group_rows, group_filters};
}

} // verus!
