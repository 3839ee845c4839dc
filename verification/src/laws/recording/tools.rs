//! What the records say of the stored rows: tools.

use crate::domain::DomainNames;
use crate::error::ErrorView;
use crate::model::{Datum, Row};
use crate::read::StoredRow;
use crate::read::tools::{
    ToolInvocationProgressRecord, ToolInvocationProgressRow, ToolInvocationRecord,
    ToolInvocationRow, ToolRecoveryPauseRecord, ToolRecoveryPauseRow,
};
use crate::schema::Column;
use vstd::prelude::*;

verus! {

/// What the fields of a [`ToolInvocationRecord`] say of the stored row.
pub proof fn the_record_of_a_tool_invocation_row(
    row: ToolInvocationRow,
    stored: Row,
    names: DomainNames,
    record: ToolInvocationRecord,
)
    requires
        row.is_of(stored),
        row.holds(&names, &record),
    ensures
        crate::model::value(stored, Column::InvocationId) == Datum::Text(record.invocation_id@),
        crate::model::value(stored, Column::TenantId) == Datum::Text(record.project.tenant_id@),
        crate::model::value(stored, Column::WorkspaceId)
            == Datum::Text(record.project.workspace_id@),
        crate::model::value(stored, Column::ProjectId) == Datum::Text(record.project.project_id@),
        crate::model::value(stored, Column::SessionId)
            == crate::laws::storing::optional_text(record.session_id),
        crate::model::value(stored, Column::RunId)
            == crate::laws::storing::optional_text(record.run_id),
        crate::model::value(stored, Column::TaskId)
            == crate::laws::storing::optional_text(record.task_id),
        record.prompt_release_id is None,
        crate::model::value(stored, Column::Target) == Datum::Json(record.target@),
        crate::model::value(stored, Column::ExecutionClass) == Datum::Text(record.execution_class@),
        crate::model::value(stored, Column::State) == Datum::Text(record.state@),
        crate::model::value(stored, Column::Version) is Int
            && (
                crate::model::value(stored, Column::Version)->Int_0 >= 0
                    ==> record.version == crate::model::value(stored, Column::Version)->Int_0
            ),
        crate::model::value(stored, Column::RequestedAtMs) is Int
            && (
                crate::model::value(stored, Column::RequestedAtMs)->Int_0 >= 0
                    ==> record.requested_at_ms
                        == crate::model::value(stored, Column::RequestedAtMs)->Int_0
            ),
        match record.started_at_ms {
            Some(n) => crate::model::value(stored, Column::StartedAtMs) is Int
                && (
                    crate::model::value(stored, Column::StartedAtMs)->Int_0 >= 0
                        ==> n == crate::model::value(stored, Column::StartedAtMs)->Int_0
                ),
            None => crate::model::value(stored, Column::StartedAtMs) == Datum::Null,
        },
        match record.finished_at_ms {
            Some(n) => crate::model::value(stored, Column::FinishedAtMs) is Int
                && (
                    crate::model::value(stored, Column::FinishedAtMs)->Int_0 >= 0
                        ==> n == crate::model::value(stored, Column::FinishedAtMs)->Int_0
                ),
            None => crate::model::value(stored, Column::FinishedAtMs) == Datum::Null,
        },
        crate::model::value(stored, Column::Outcome)
            == crate::laws::storing::optional_text(record.outcome),
        crate::model::value(stored, Column::ErrorMessage)
            == crate::laws::storing::optional_text(record.error_message),
        crate::model::value(stored, Column::ArgsJson)
            == crate::laws::storing::optional_json(record.args_json),
        crate::model::value(stored, Column::OutputPreview)
            == crate::laws::storing::optional_text(record.output_preview),
{
}

/// A [`ToolInvocationRow`] says nothing of a stored row but what the columns that it asks for
/// hold.
pub proof fn the_columns_of_a_tool_invocation_row(row: ToolInvocationRow, stored: Row, other: Row)
    requires
        forall|i: int|
            0 <= i < ToolInvocationRow::spec_columns().len()
                ==> crate::model::value(stored, #[trigger] ToolInvocationRow::spec_columns()[i])
                    == crate::model::value(other, ToolInvocationRow::spec_columns()[i]),
    ensures
        row.is_of(stored) == row.is_of(other),
{
    let columns = ToolInvocationRow::spec_columns();
    assert(columns[0] == Column::InvocationId);
    assert(columns[1] == Column::TenantId);
    assert(columns[2] == Column::WorkspaceId);
    assert(columns[3] == Column::ProjectId);
    assert(columns[4] == Column::SessionId);
    assert(columns[5] == Column::RunId);
    assert(columns[6] == Column::TaskId);
    assert(columns[7] == Column::Target);
    assert(columns[8] == Column::ExecutionClass);
    assert(columns[9] == Column::State);
    assert(columns[10] == Column::Outcome);
    assert(columns[11] == Column::ErrorMessage);
    assert(columns[12] == Column::Version);
    assert(columns[13] == Column::RequestedAtMs);
    assert(columns[14] == Column::StartedAtMs);
    assert(columns[15] == Column::FinishedAtMs);
    assert(columns[16] == Column::ArgsJson);
    assert(columns[17] == Column::OutputPreview);
}

/// When a [`ToolInvocationRow`] holds no record, and how it is refused.
pub proof fn the_faults_of_a_tool_invocation_row(row: ToolInvocationRow, names: DomainNames)
    ensures
        row.target.fault is Some
            ==> row.fault(&names) == Some(ErrorView::Serialization(row.target.fault->Some_0@)),
        !(row.target.fault is Some)
            && !names.execution_classes.deep_view().contains(row.execution_class@)
            ==> row.fault(&names)
                == Some(
                    ErrorView::unknown_name(
                        row.execution_class@,
                        names.execution_classes.deep_view(),
                    ),
                ),
        !(row.target.fault is Some)
            && !(!names.execution_classes.deep_view().contains(row.execution_class@))
            && !names.invocation_states.deep_view().contains(row.state@)
            ==> row.fault(&names)
                == Some(ErrorView::unknown_name(row.state@, names.invocation_states.deep_view())),
        !(row.target.fault is Some)
            && !(!names.execution_classes.deep_view().contains(row.execution_class@))
            && !(!names.invocation_states.deep_view().contains(row.state@)) && row.outcome is Some
            && !names.invocation_outcomes.deep_view().contains(row.outcome->Some_0@)
            ==> row.fault(&names)
                == Some(
                    ErrorView::unknown_name(
                        row.outcome->Some_0@,
                        names.invocation_outcomes.deep_view(),
                    ),
                ),
        !(row.target.fault is Some)
            && !(!names.execution_classes.deep_view().contains(row.execution_class@))
            && !(!names.invocation_states.deep_view().contains(row.state@))
            && !(
                row.outcome is Some
                    && !names.invocation_outcomes.deep_view().contains(row.outcome->Some_0@)
            )
            ==> row.fault(&names) is None,
{
}

/// What the fields of a [`ToolInvocationProgressRecord`] say of the stored row.
pub proof fn the_record_of_a_tool_invocation_progress_row(
    row: ToolInvocationProgressRow,
    stored: Row,
    names: DomainNames,
    record: ToolInvocationProgressRecord,
)
    requires
        row.is_of(stored),
        row.holds(&names, &record),
    ensures
        record.invocation_id == row.invocation_id,
        crate::model::value(stored, Column::TenantId) == Datum::Text(record.project.tenant_id@),
        crate::model::value(stored, Column::WorkspaceId)
            == Datum::Text(record.project.workspace_id@),
        crate::model::value(stored, Column::ProjectId) == Datum::Text(record.project.project_id@),
        crate::model::value(stored, Column::ProgressPct) == Datum::Int(record.progress_pct as int),
        crate::model::value(stored, Column::Message)
            == crate::laws::storing::optional_text(record.message),
        crate::model::value(stored, Column::UpdatedAtMs) == Datum::Int(record.updated_at_ms as int),
{
}

/// A [`ToolInvocationProgressRow`] says nothing of a stored row but what the columns
/// that it asks for hold.
pub proof fn the_columns_of_a_tool_invocation_progress_row(
    row: ToolInvocationProgressRow,
    stored: Row,
    other: Row,
)
    requires
        forall|i: int|
            0 <= i < ToolInvocationProgressRow::spec_columns().len()
                ==> crate::model::value(
                    stored,
                    #[trigger] ToolInvocationProgressRow::spec_columns()[i],
                )
                    == crate::model::value(other, ToolInvocationProgressRow::spec_columns()[i]),
    ensures
        row.is_of(stored) == row.is_of(other),
{
    let columns = ToolInvocationProgressRow::spec_columns();
    assert(columns[0] == Column::TenantId);
    assert(columns[1] == Column::WorkspaceId);
    assert(columns[2] == Column::ProjectId);
    assert(columns[3] == Column::ProgressPct);
    assert(columns[4] == Column::Message);
    assert(columns[5] == Column::UpdatedAtMs);
}

/// When a [`ToolInvocationProgressRow`] holds no record, and how it is refused.
pub proof fn the_faults_of_a_tool_invocation_progress_row(
    row: ToolInvocationProgressRow,
    names: DomainNames,
)
    ensures
        (row.progress_pct < 0 || row.progress_pct > 255)
            ==> row.fault(&names)
                == Some(
                    ErrorView::Internal(
                        "tool_invocation_progress.progress_pct out of u8 range for "@
                            + row.invocation_id@ + ": "@
                            + crate::text::signed_decimal(row.progress_pct as int),
                    ),
                ),
        !(row.progress_pct < 0 || row.progress_pct > 255) && row.updated_at_ms < 0
            ==> row.fault(&names)
                == Some(
                    ErrorView::Internal(
                        "tool_invocation_progress.updated_at_ms out of u64 range for "@
                            + row.invocation_id@ + ": "@
                            + crate::text::signed_decimal(row.updated_at_ms as int),
                    ),
                ),
        !(row.progress_pct < 0 || row.progress_pct > 255) && !(row.updated_at_ms < 0)
            ==> row.fault(&names) is None,
{
}

/// What the fields of a [`ToolRecoveryPauseRecord`] say of the stored row.
pub proof fn the_record_of_a_tool_recovery_pause_row(
    row: ToolRecoveryPauseRow,
    stored: Row,
    names: DomainNames,
    record: ToolRecoveryPauseRecord,
)
    requires
        row.is_of(stored),
        row.holds(&names, &record),
    ensures
        crate::model::value(stored, Column::ToolCallId) == Datum::Text(record.tool_call_id@),
        crate::model::value(stored, Column::TenantId) == Datum::Text(record.project.tenant_id@),
        crate::model::value(stored, Column::WorkspaceId)
            == Datum::Text(record.project.workspace_id@),
        crate::model::value(stored, Column::ProjectId) == Datum::Text(record.project.project_id@),
        crate::model::value(stored, Column::RunId) == Datum::Text(record.run_id@),
        crate::model::value(stored, Column::TaskId)
            == crate::laws::storing::optional_text(record.task_id),
        crate::model::value(stored, Column::ToolName) == Datum::Text(record.tool_name@),
        crate::model::value(stored, Column::Reason) == Datum::Text(record.reason@),
        crate::laws::recording::is_at_least_zero(
            crate::model::value(stored, Column::PausedAtMs),
            record.paused_at_ms as int,
        ),
{
}

/// A [`ToolRecoveryPauseRow`] says nothing of a stored row but what the columns that it asks for
/// hold.
pub proof fn the_columns_of_a_tool_recovery_pause_row(
    row: ToolRecoveryPauseRow,
    stored: Row,
    other: Row,
)
    requires
        forall|i: int|
            0 <= i < ToolRecoveryPauseRow::spec_columns().len()
                ==> crate::model::value(stored, #[trigger] ToolRecoveryPauseRow::spec_columns()[i])
                    == crate::model::value(other, ToolRecoveryPauseRow::spec_columns()[i]),
    ensures
        row.is_of(stored) == row.is_of(other),
{
    let columns = ToolRecoveryPauseRow::spec_columns();
    assert(columns[0] == Column::ToolCallId);
    assert(columns[1] == Column::TenantId);
    assert(columns[2] == Column::WorkspaceId);
    assert(columns[3] == Column::ProjectId);
    assert(columns[4] == Column::RunId);
    assert(columns[5] == Column::TaskId);
    assert(columns[6] == Column::ToolName);
    assert(columns[7] == Column::Reason);
    assert(columns[8] == Column::PausedAtMs);
}

/// Every [`ToolRecoveryPauseRow`] holds a record.
pub proof fn the_faults_of_a_tool_recovery_pause_row(row: ToolRecoveryPauseRow, names: DomainNames)
    ensures
        row.fault(&names) is None,
{
}

} // verus!
