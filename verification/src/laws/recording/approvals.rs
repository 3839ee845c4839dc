//! What the records say of the stored rows: approvals.

use crate::domain::DomainNames;
use crate::error::ErrorView;
use crate::model::{Datum, Row};
use crate::read::StoredRow;
use crate::read::approvals::{
    ApprovalDelegationRecord, ApprovalDelegationRow, ApprovalRecord, ApprovalRow,
    ToolCallApprovalRecord, ToolCallApprovalRow,
};
use crate::schema::Column;
use vstd::prelude::*;

verus! {

/// What the fields of a [`ApprovalRecord`] say of the stored row.
pub proof fn the_record_of_an_approval_row(
    row: ApprovalRow,
    stored: Row,
    names: DomainNames,
    record: ApprovalRecord,
)
    requires
        row.is_of(stored),
        row.holds(&names, &record),
    ensures
        crate::model::value(stored, Column::ApprovalId) == Datum::Text(record.approval_id@),
        crate::model::value(stored, Column::TenantId) == Datum::Text(record.project.tenant_id@),
        crate::model::value(stored, Column::WorkspaceId)
            == Datum::Text(record.project.workspace_id@),
        crate::model::value(stored, Column::ProjectId) == Datum::Text(record.project.project_id@),
        crate::model::value(stored, Column::RunId)
            == crate::laws::storing::optional_text(record.run_id),
        crate::model::value(stored, Column::TaskId)
            == crate::laws::storing::optional_text(record.task_id),
        crate::model::value(stored, Column::Requirement) == Datum::Text(record.requirement@),
        crate::model::value(stored, Column::Decision)
            == crate::laws::storing::optional_text(record.decision),
        crate::model::value(stored, Column::Title)
            == crate::laws::storing::optional_text(record.title),
        crate::model::value(stored, Column::Description)
            == crate::laws::storing::optional_text(record.description),
        crate::model::value(stored, Column::Version) is Int
            && (
                crate::model::value(stored, Column::Version)->Int_0 >= 0
                    ==> record.version == crate::model::value(stored, Column::Version)->Int_0
            ),
        crate::model::value(stored, Column::CreatedAt) is Int
            && (
                crate::model::value(stored, Column::CreatedAt)->Int_0 >= 0
                    ==> record.created_at == crate::model::value(stored, Column::CreatedAt)->Int_0
            ),
        crate::model::value(stored, Column::UpdatedAt) is Int
            && (
                crate::model::value(stored, Column::UpdatedAt)->Int_0 >= 0
                    ==> record.updated_at == crate::model::value(stored, Column::UpdatedAt)->Int_0
            ),
{
}

/// A [`ApprovalRow`] says nothing of a stored row but what the columns that it asks for
/// hold.
pub proof fn the_columns_of_an_approval_row(row: ApprovalRow, stored: Row, other: Row)
    requires
        forall|i: int|
            0 <= i < ApprovalRow::spec_columns().len()
                ==> crate::model::value(stored, #[trigger] ApprovalRow::spec_columns()[i])
                    == crate::model::value(other, ApprovalRow::spec_columns()[i]),
    ensures
        row.is_of(stored) == row.is_of(other),
{
    let columns = ApprovalRow::spec_columns();
    assert(columns[0] == Column::ApprovalId);
    assert(columns[1] == Column::TenantId);
    assert(columns[2] == Column::WorkspaceId);
    assert(columns[3] == Column::ProjectId);
    assert(columns[4] == Column::RunId);
    assert(columns[5] == Column::TaskId);
    assert(columns[6] == Column::Requirement);
    assert(columns[7] == Column::Decision);
    assert(columns[8] == Column::Title);
    assert(columns[9] == Column::Description);
    assert(columns[10] == Column::Version);
    assert(columns[11] == Column::CreatedAt);
    assert(columns[12] == Column::UpdatedAt);
}

/// When a [`ApprovalRow`] holds no record, and how it is refused.
pub proof fn the_faults_of_an_approval_row(row: ApprovalRow, names: DomainNames)
    ensures
        !names.approval_requirements.deep_view().contains(row.requirement@)
            ==> row.fault(&names)
                == Some(
                    ErrorView::unknown_name(
                        row.requirement@,
                        names.approval_requirements.deep_view(),
                    ),
                ),
        !(!names.approval_requirements.deep_view().contains(row.requirement@))
            && row.decision is Some
            && !names.approval_decisions.deep_view().contains(row.decision->Some_0@)
            ==> row.fault(&names)
                == Some(
                    ErrorView::unknown_name(
                        row.decision->Some_0@,
                        names.approval_decisions.deep_view(),
                    ),
                ),
        !(!names.approval_requirements.deep_view().contains(row.requirement@))
            && !(
                row.decision is Some
                    && !names.approval_decisions.deep_view().contains(row.decision->Some_0@)
            )
            ==> row.fault(&names) is None,
{
}

/// What the fields of a [`ApprovalDelegationRecord`] say of the stored row.
pub proof fn the_record_of_an_approval_delegation_row(
    row: ApprovalDelegationRow,
    stored: Row,
    names: DomainNames,
    record: ApprovalDelegationRecord,
)
    requires
        row.is_of(stored),
        row.holds(&names, &record),
    ensures
        crate::model::value(stored, Column::ApprovalId) == Datum::Text(record.approval_id@),
        crate::model::value(stored, Column::DelegatedTo) == Datum::Text(record.delegated_to@),
        crate::laws::recording::is_at_least_zero(
            crate::model::value(stored, Column::DelegatedAtMs),
            record.delegated_at_ms as int,
        ),
        crate::model::value(stored, Column::DelegationId) == Datum::Text(record.delegation_id@),
{
}

/// A [`ApprovalDelegationRow`] says nothing of a stored row but what the columns that it asks for
/// hold.
pub proof fn the_columns_of_an_approval_delegation_row(
    row: ApprovalDelegationRow,
    stored: Row,
    other: Row,
)
    requires
        forall|i: int|
            0 <= i < ApprovalDelegationRow::spec_columns().len()
                ==> crate::model::value(stored, #[trigger] ApprovalDelegationRow::spec_columns()[i])
                    == crate::model::value(other, ApprovalDelegationRow::spec_columns()[i]),
    ensures
        row.is_of(stored) == row.is_of(other),
{
    let columns = ApprovalDelegationRow::spec_columns();
    assert(columns[0] == Column::ApprovalId);
    assert(columns[1] == Column::DelegationId);
    assert(columns[2] == Column::DelegatedTo);
    assert(columns[3] == Column::DelegatedAtMs);
}

/// Every [`ApprovalDelegationRow`] holds a record.
pub proof fn the_faults_of_an_approval_delegation_row(
    row: ApprovalDelegationRow,
    names: DomainNames,
)
    ensures
        row.fault(&names) is None,
{
}

/// What the fields of a [`ToolCallApprovalRecord`] say of the stored row.
pub proof fn the_record_of_a_tool_call_approval_row(
    row: ToolCallApprovalRow,
    stored: Row,
    names: DomainNames,
    record: ToolCallApprovalRecord,
)
    requires
        row.is_of(stored),
        row.holds(&names, &record),
    ensures
        crate::model::value(stored, Column::CallId) == Datum::Text(record.call_id@),
        crate::model::value(stored, Column::SessionId) == Datum::Text(record.session_id@),
        crate::model::value(stored, Column::RunId) == Datum::Text(record.run_id@),
        crate::model::value(stored, Column::TenantId) == Datum::Text(record.project.tenant_id@),
        crate::model::value(stored, Column::WorkspaceId)
            == Datum::Text(record.project.workspace_id@),
        crate::model::value(stored, Column::ProjectId) == Datum::Text(record.project.project_id@),
        crate::model::value(stored, Column::ToolName) == Datum::Text(record.tool_name@),
        crate::model::value(stored, Column::OriginalToolArgs)
            == Datum::Json(record.original_tool_args@),
        crate::model::value(stored, Column::AmendedToolArgs)
            == crate::laws::storing::optional_json(record.amended_tool_args),
        crate::model::value(stored, Column::ApprovedToolArgs)
            == crate::laws::storing::optional_json(record.approved_tool_args),
        crate::model::value(stored, Column::DisplaySummary)
            == crate::laws::storing::optional_text(record.display_summary),
        crate::model::value(stored, Column::MatchPolicy) == Datum::Json(record.match_policy@),
        crate::model::value(stored, Column::State) == Datum::Text(record.state.spec_name()),
        crate::model::value(stored, Column::OperatorId)
            == crate::laws::storing::optional_text(record.operator_id),
        match record.scope {
            Some(text) => crate::model::value(stored, Column::Scope) == Datum::Json(text@),
            None => crate::model::value(stored, Column::Scope) == Datum::Null,
        },
        crate::model::value(stored, Column::Reason)
            == crate::laws::storing::optional_text(record.reason),
        crate::model::value(stored, Column::ProposedAtMs) is Int
            && (
                crate::model::value(stored, Column::ProposedAtMs)->Int_0 >= 0
                    ==> record.proposed_at_ms
                        == crate::model::value(stored, Column::ProposedAtMs)->Int_0
            ),
        match record.approved_at_ms {
            Some(n) => crate::model::value(stored, Column::ApprovedAtMs) is Int
                && (
                    crate::model::value(stored, Column::ApprovedAtMs)->Int_0 >= 0
                        ==> n == crate::model::value(stored, Column::ApprovedAtMs)->Int_0
                ),
            None => crate::model::value(stored, Column::ApprovedAtMs) == Datum::Null,
        },
        match record.rejected_at_ms {
            Some(n) => crate::model::value(stored, Column::RejectedAtMs) is Int
                && (
                    crate::model::value(stored, Column::RejectedAtMs)->Int_0 >= 0
                        ==> n == crate::model::value(stored, Column::RejectedAtMs)->Int_0
                ),
            None => crate::model::value(stored, Column::RejectedAtMs) == Datum::Null,
        },
        match record.last_amended_at_ms {
            Some(n) => crate::model::value(stored, Column::LastAmendedAtMs) is Int
                && (
                    crate::model::value(stored, Column::LastAmendedAtMs)->Int_0 >= 0
                        ==> n == crate::model::value(stored, Column::LastAmendedAtMs)->Int_0
                ),
            None => crate::model::value(stored, Column::LastAmendedAtMs) == Datum::Null,
        },
        crate::model::value(stored, Column::Version) is Int
            && (
                crate::model::value(stored, Column::Version)->Int_0 >= 0
                    ==> record.version == crate::model::value(stored, Column::Version)->Int_0
            ),
        crate::model::value(stored, Column::CreatedAt) is Int
            && (
                crate::model::value(stored, Column::CreatedAt)->Int_0 >= 0
                    ==> record.created_at == crate::model::value(stored, Column::CreatedAt)->Int_0
            ),
        crate::model::value(stored, Column::UpdatedAt) is Int
            && (
                crate::model::value(stored, Column::UpdatedAt)->Int_0 >= 0
                    ==> record.updated_at == crate::model::value(stored, Column::UpdatedAt)->Int_0
            ),
{
    crate::vocabulary::tool_call_approval_state_names_are_inverse(record.state, row.state@);
}

/// A [`ToolCallApprovalRow`] says nothing of a stored row but what the columns that it asks for
/// hold.
pub proof fn the_columns_of_a_tool_call_approval_row(
    row: ToolCallApprovalRow,
    stored: Row,
    other: Row,
)
    requires
        forall|i: int|
            0 <= i < ToolCallApprovalRow::spec_columns().len()
                ==> crate::model::value(stored, #[trigger] ToolCallApprovalRow::spec_columns()[i])
                    == crate::model::value(other, ToolCallApprovalRow::spec_columns()[i]),
    ensures
        row.is_of(stored) == row.is_of(other),
{
    let columns = ToolCallApprovalRow::spec_columns();
    assert(columns[0] == Column::CallId);
    assert(columns[1] == Column::SessionId);
    assert(columns[2] == Column::RunId);
    assert(columns[3] == Column::TenantId);
    assert(columns[4] == Column::WorkspaceId);
    assert(columns[5] == Column::ProjectId);
    assert(columns[6] == Column::ToolName);
    assert(columns[7] == Column::OriginalToolArgs);
    assert(columns[8] == Column::AmendedToolArgs);
    assert(columns[9] == Column::ApprovedToolArgs);
    assert(columns[10] == Column::DisplaySummary);
    assert(columns[11] == Column::MatchPolicy);
    assert(columns[12] == Column::State);
    assert(columns[13] == Column::OperatorId);
    assert(columns[14] == Column::Scope);
    assert(columns[15] == Column::Reason);
    assert(columns[16] == Column::ProposedAtMs);
    assert(columns[17] == Column::ApprovedAtMs);
    assert(columns[18] == Column::RejectedAtMs);
    assert(columns[19] == Column::LastAmendedAtMs);
    assert(columns[20] == Column::Version);
    assert(columns[21] == Column::CreatedAt);
    assert(columns[22] == Column::UpdatedAt);
}

/// When a [`ToolCallApprovalRow`] holds no record, and how it is refused.
pub proof fn the_faults_of_a_tool_call_approval_row(row: ToolCallApprovalRow, names: DomainNames)
    ensures
        row.match_policy.fault is Some
            ==> row.fault(&names)
                == Some(
                    ErrorView::Serialization(
                        "match_policy decode: "@ + row.match_policy.fault->Some_0@,
                    ),
                ),
        !(row.match_policy.fault is Some) && row.scope is Some && row.scope->Some_0.fault is Some
            ==> row.fault(&names)
                == Some(
                    ErrorView::Serialization("scope decode: "@ + row.scope->Some_0.fault->Some_0@),
                ),
        !(row.match_policy.fault is Some) && !(row.scope is Some && row.scope->Some_0.fault is Some)
            && row.state@ != "pending"@ && row.state@ != "approved"@ && row.state@ != "rejected"@
            ==> row.fault(&names)
                == Some(
                    ErrorView::Internal(
                        "tool_call_approvals.state: unknown value "@
                            + crate::json::quoted(row.state@),
                    ),
                ),
        !(row.match_policy.fault is Some) && !(row.scope is Some && row.scope->Some_0.fault is Some)
            && !(row.state@ != "pending"@ && row.state@ != "approved"@ && row.state@ != "rejected"@)
            ==> row.fault(&names) is None,
{
}

} // verus!
