//! What the records say of the stored rows: runs.

use crate::domain::DomainNames;
use crate::error::ErrorView;
use crate::model::{Datum, Row};
use crate::read::StoredRow;
use crate::read::runs::{
    OutcomeRecord, OutcomeRow, PauseScheduleRow, PauseScheduledRecord, PlanReviewRecord,
    PlanReviewRow, RunRecord, RunRow, SubagentSpawnRecord, SubagentSpawnRow,
};
use crate::schema::Column;
use vstd::prelude::*;

verus! {

/// What the fields of a [`RunRecord`] say of the stored row.
pub proof fn the_record_of_a_run_row(
    row: RunRow,
    stored: Row,
    names: DomainNames,
    record: RunRecord,
)
    requires
        row.is_of(stored),
        row.holds(&names, &record),
    ensures
        crate::model::value(stored, Column::RunId) == Datum::Text(record.run_id@),
        crate::model::value(stored, Column::SessionId) == Datum::Text(record.session_id@),
        crate::model::value(stored, Column::ParentRunId)
            == crate::laws::storing::optional_text(record.parent_run_id),
        crate::model::value(stored, Column::TenantId) == Datum::Text(record.project.tenant_id@),
        crate::model::value(stored, Column::WorkspaceId)
            == Datum::Text(record.project.workspace_id@),
        crate::model::value(stored, Column::ProjectId) == Datum::Text(record.project.project_id@),
        crate::model::value(stored, Column::State) == Datum::Text(record.state@),
        record.prompt_release_id is None,
        record.agent_role_id is None,
        crate::model::value(stored, Column::FailureClass)
            == crate::laws::storing::optional_text(record.failure_class),
        record.pause_reason is None,
        record.resume_trigger is None,
        crate::model::value(stored, Column::Version) is Int
            && (
                crate::model::value(stored, Column::Version)->Int_0 >= 0
                    ==> record.version == crate::model::value(stored, Column::Version)->Int_0
            ),
        crate::model::value(stored, Column::CreatedAt) is Int
            && (
                crate::model::value(stored, Column::CreatedAt)->Int_0 >= 0
                    ==> record.created_at == crate::model::value(stored, Column::CreatedAt)->Int_0
            ),
        crate::model::value(stored, Column::UpdatedAt) is Int
            && (
                crate::model::value(stored, Column::UpdatedAt)->Int_0 >= 0
                    ==> record.updated_at == crate::model::value(stored, Column::UpdatedAt)->Int_0
            ),
        crate::model::value(stored, Column::CompletionSummary)
            == crate::laws::storing::optional_text(record.completion_summary),
        match record.completion_verification {
            Some(text) => crate::model::value(stored, Column::CompletionVerificationJson)
                == Datum::Text(text@),
            None => crate::model::value(stored, Column::CompletionVerificationJson) == Datum::Null,
        },
        match record.completion_annotated_at_ms {
            Some(n) => crate::model::value(stored, Column::CompletionAnnotatedAtMs) is Int
                && (
                    crate::model::value(stored, Column::CompletionAnnotatedAtMs)->Int_0 >= 0
                        ==> n == crate::model::value(stored, Column::CompletionAnnotatedAtMs)->Int_0
                ),
            None => crate::model::value(stored, Column::CompletionAnnotatedAtMs) == Datum::Null,
        },
        match record.terminal_write_recovery {
            Some(text) => crate::model::value(stored, Column::TerminalWriteRecoveryJson)
                == Datum::Text(text@),
            None => crate::model::value(stored, Column::TerminalWriteRecoveryJson) == Datum::Null,
        },
        crate::model::value(stored, Column::InFlightDescendants)
            == Datum::Int(record.in_flight_descendants as int),
        crate::model::value(stored, Column::RootRunId)
            == crate::laws::storing::optional_text(record.root_run_id),
        crate::laws::recording::is_at_least_zero(
            crate::model::value(stored, Column::Iteration),
            record.iteration as int,
        ),
{
}

/// A [`RunRow`] says nothing of a stored row but what the columns that it asks for
/// hold.
pub proof fn the_columns_of_a_run_row(row: RunRow, stored: Row, other: Row)
    requires
        forall|i: int|
            0 <= i < RunRow::spec_columns().len()
                ==> crate::model::value(stored, #[trigger] RunRow::spec_columns()[i])
                    == crate::model::value(other, RunRow::spec_columns()[i]),
    ensures
        row.is_of(stored) == row.is_of(other),
{
    let columns = RunRow::spec_columns();
    assert(columns[0] == Column::RunId);
    assert(columns[1] == Column::SessionId);
    assert(columns[2] == Column::ParentRunId);
    assert(columns[3] == Column::TenantId);
    assert(columns[4] == Column::WorkspaceId);
    assert(columns[5] == Column::ProjectId);
    assert(columns[6] == Column::State);
    assert(columns[7] == Column::FailureClass);
    assert(columns[8] == Column::Version);
    assert(columns[9] == Column::CreatedAt);
    assert(columns[10] == Column::UpdatedAt);
    assert(columns[11] == Column::CompletionSummary);
    assert(columns[12] == Column::CompletionVerificationJson);
    assert(columns[13] == Column::CompletionAnnotatedAtMs);
    assert(columns[14] == Column::TerminalWriteRecoveryJson);
    assert(columns[15] == Column::InFlightDescendants);
    assert(columns[16] == Column::RootRunId);
    assert(columns[17] == Column::Iteration);
}

/// When a [`RunRow`] holds no record, and how it is refused.
pub proof fn the_faults_of_a_run_row(row: RunRow, names: DomainNames)
    ensures
        row.completion_verification is Some && row.completion_verification->Some_0.fault is Some
            ==> row.fault(&names)
                == Some(
                    ErrorView::Serialization(row.completion_verification->Some_0.fault->Some_0@),
                ),
        !(row.completion_verification is Some && row.completion_verification->Some_0.fault is Some)
            && row.completion_annotated_at_ms is Some && row.completion_annotated_at_ms->Some_0 < 0
            ==> row.fault(&names)
                == Some(
                    ErrorView::Serialization(
                        "runs.completion_annotated_at_ms "@
                            + crate::text::signed_decimal(
                                row.completion_annotated_at_ms->Some_0 as int,
                            )
                            + " is negative or out of u64 range"@,
                    ),
                ),
        !(row.completion_verification is Some && row.completion_verification->Some_0.fault is Some)
            && !(
                row.completion_annotated_at_ms is Some && row.completion_annotated_at_ms->Some_0 < 0
            )
            && !names.run_states.deep_view().contains(row.state@)
            ==> row.fault(&names)
                == Some(ErrorView::unknown_name(row.state@, names.run_states.deep_view())),
        !(row.completion_verification is Some && row.completion_verification->Some_0.fault is Some)
            && !(
                row.completion_annotated_at_ms is Some && row.completion_annotated_at_ms->Some_0 < 0
            )
            && !(!names.run_states.deep_view().contains(row.state@)) && row.failure_class is Some
            && !names.failure_classes.deep_view().contains(row.failure_class->Some_0@)
            ==> row.fault(&names)
                == Some(
                    ErrorView::unknown_name(
                        row.failure_class->Some_0@,
                        names.failure_classes.deep_view(),
                    ),
                ),
        !(row.completion_verification is Some && row.completion_verification->Some_0.fault is Some)
            && !(
                row.completion_annotated_at_ms is Some && row.completion_annotated_at_ms->Some_0 < 0
            )
            && !(!names.run_states.deep_view().contains(row.state@))
            && !(
                row.failure_class is Some
                    && !names.failure_classes.deep_view().contains(row.failure_class->Some_0@)
            )
            && row.terminal_write_recovery is Some
            && row.terminal_write_recovery->Some_0.fault is Some
            ==> row.fault(&names)
                == Some(
                    ErrorView::Serialization(row.terminal_write_recovery->Some_0.fault->Some_0@),
                ),
        !(row.completion_verification is Some && row.completion_verification->Some_0.fault is Some)
            && !(
                row.completion_annotated_at_ms is Some && row.completion_annotated_at_ms->Some_0 < 0
            )
            && !(!names.run_states.deep_view().contains(row.state@))
            && !(
                row.failure_class is Some
                    && !names.failure_classes.deep_view().contains(row.failure_class->Some_0@)
            )
            && !(
                row.terminal_write_recovery is Some
                    && row.terminal_write_recovery->Some_0.fault is Some
            )
            ==> row.fault(&names) is None,
{
}

/// What the fields of a [`SubagentSpawnRecord`] say of the stored row.
pub proof fn the_record_of_a_subagent_spawn_row(
    row: SubagentSpawnRow,
    stored: Row,
    names: DomainNames,
    record: SubagentSpawnRecord,
)
    requires
        row.is_of(stored),
        row.holds(&names, &record),
    ensures
        crate::model::value(stored, Column::ChildTaskId) == Datum::Text(record.child_task_id@),
        crate::model::value(stored, Column::TenantId) == Datum::Text(record.project.tenant_id@),
        crate::model::value(stored, Column::WorkspaceId)
            == Datum::Text(record.project.workspace_id@),
        crate::model::value(stored, Column::ProjectId) == Datum::Text(record.project.project_id@),
        crate::model::value(stored, Column::ParentRunId) == Datum::Text(record.parent_run_id@),
        crate::model::value(stored, Column::ParentTaskId)
            == crate::laws::storing::optional_text(record.parent_task_id),
        crate::model::value(stored, Column::ChildSessionId)
            == Datum::Text(record.child_session_id@),
        crate::model::value(stored, Column::ChildRunId)
            == crate::laws::storing::optional_text(record.child_run_id),
        crate::laws::recording::is_at_least_zero(
            crate::model::value(stored, Column::SpawnedAtMs),
            record.spawned_at_ms as int,
        ),
        crate::model::value(stored, Column::Goal) == Datum::Text(record.goal@),
        crate::model::value(stored, Column::Role) == Datum::Text(record.role@),
{
}

/// A [`SubagentSpawnRow`] says nothing of a stored row but what the columns that it asks for
/// hold.
pub proof fn the_columns_of_a_subagent_spawn_row(row: SubagentSpawnRow, stored: Row, other: Row)
    requires
        forall|i: int|
            0 <= i < SubagentSpawnRow::spec_columns().len()
                ==> crate::model::value(stored, #[trigger] SubagentSpawnRow::spec_columns()[i])
                    == crate::model::value(other, SubagentSpawnRow::spec_columns()[i]),
    ensures
        row.is_of(stored) == row.is_of(other),
{
    let columns = SubagentSpawnRow::spec_columns();
    assert(columns[0] == Column::ChildTaskId);
    assert(columns[1] == Column::TenantId);
    assert(columns[2] == Column::WorkspaceId);
    assert(columns[3] == Column::ProjectId);
    assert(columns[4] == Column::ParentRunId);
    assert(columns[5] == Column::ParentTaskId);
    assert(columns[6] == Column::ChildSessionId);
    assert(columns[7] == Column::ChildRunId);
    assert(columns[8] == Column::SpawnedAtMs);
    assert(columns[9] == Column::Goal);
    assert(columns[10] == Column::Role);
}

/// Every [`SubagentSpawnRow`] holds a record.
pub proof fn the_faults_of_a_subagent_spawn_row(row: SubagentSpawnRow, names: DomainNames)
    ensures
        row.fault(&names) is None,
{
}

/// What the fields of a [`PauseScheduledRecord`] say of the stored row.
pub proof fn the_record_of_a_pause_schedule_row(
    row: PauseScheduleRow,
    stored: Row,
    names: DomainNames,
    record: PauseScheduledRecord,
)
    requires
        row.is_of(stored),
        row.holds(&names, &record),
    ensures
        crate::model::value(stored, Column::RunId) == Datum::Text(record.run_id@),
        crate::model::value(stored, Column::TenantId) == Datum::Text(record.project.tenant_id@),
        crate::model::value(stored, Column::WorkspaceId)
            == Datum::Text(record.project.workspace_id@),
        crate::model::value(stored, Column::ProjectId) == Datum::Text(record.project.project_id@),
        crate::laws::recording::is_at_least_zero(
            crate::model::value(stored, Column::ResumeAtMs),
            record.resume_at_ms as int,
        ),
        crate::laws::recording::is_at_least_zero(
            crate::model::value(stored, Column::CreatedAtMs),
            record.created_at_ms as int,
        ),
{
}

/// A [`PauseScheduleRow`] says nothing of a stored row but what the columns that it asks for
/// hold.
pub proof fn the_columns_of_a_pause_schedule_row(row: PauseScheduleRow, stored: Row, other: Row)
    requires
        forall|i: int|
            0 <= i < PauseScheduleRow::spec_columns().len()
                ==> crate::model::value(stored, #[trigger] PauseScheduleRow::spec_columns()[i])
                    == crate::model::value(other, PauseScheduleRow::spec_columns()[i]),
    ensures
        row.is_of(stored) == row.is_of(other),
{
    let columns = PauseScheduleRow::spec_columns();
    assert(columns[0] == Column::RunId);
    assert(columns[1] == Column::TenantId);
    assert(columns[2] == Column::WorkspaceId);
    assert(columns[3] == Column::ProjectId);
    assert(columns[4] == Column::ResumeAtMs);
    assert(columns[5] == Column::CreatedAtMs);
}

/// Every [`PauseScheduleRow`] holds a record.
pub proof fn the_faults_of_a_pause_schedule_row(row: PauseScheduleRow, names: DomainNames)
    ensures
        row.fault(&names) is None,
{
}

/// What the fields of a [`OutcomeRecord`] say of the stored row.
pub proof fn the_record_of_an_outcome_row(
    row: OutcomeRow,
    stored: Row,
    names: DomainNames,
    record: OutcomeRecord,
)
    requires
        row.is_of(stored),
        row.holds(&names, &record),
    ensures
        crate::model::value(stored, Column::OutcomeId) == Datum::Text(record.outcome_id@),
        crate::model::value(stored, Column::RunId) == Datum::Text(record.run_id@),
        crate::model::value(stored, Column::TenantId) == Datum::Text(record.project.tenant_id@),
        crate::model::value(stored, Column::WorkspaceId)
            == Datum::Text(record.project.workspace_id@),
        crate::model::value(stored, Column::ProjectId) == Datum::Text(record.project.project_id@),
        crate::model::value(stored, Column::AgentType) == Datum::Text(record.agent_type@),
        crate::model::value(stored, Column::PredictedConfidence)
            == Datum::Float8(record.predicted_confidence),
        crate::model::value(stored, Column::ActualOutcome)
            == Datum::Text(record.actual_outcome.spec_name()),
        crate::laws::recording::is_at_least_zero(
            crate::model::value(stored, Column::RecordedAt),
            record.recorded_at as int,
        ),
{
    crate::vocabulary::actual_outcome_names_are_inverse(record.actual_outcome, row.actual_outcome@);
}

/// A [`OutcomeRow`] says nothing of a stored row but what the columns that it asks for
/// hold.
pub proof fn the_columns_of_an_outcome_row(row: OutcomeRow, stored: Row, other: Row)
    requires
        forall|i: int|
            0 <= i < OutcomeRow::spec_columns().len()
                ==> crate::model::value(stored, #[trigger] OutcomeRow::spec_columns()[i])
                    == crate::model::value(other, OutcomeRow::spec_columns()[i]),
    ensures
        row.is_of(stored) == row.is_of(other),
{
    let columns = OutcomeRow::spec_columns();
    assert(columns[0] == Column::OutcomeId);
    assert(columns[1] == Column::RunId);
    assert(columns[2] == Column::TenantId);
    assert(columns[3] == Column::WorkspaceId);
    assert(columns[4] == Column::ProjectId);
    assert(columns[5] == Column::AgentType);
    assert(columns[6] == Column::PredictedConfidence);
    assert(columns[7] == Column::ActualOutcome);
    assert(columns[8] == Column::RecordedAt);
}

/// When a [`OutcomeRow`] holds no record, and how it is refused.
pub proof fn the_faults_of_an_outcome_row(row: OutcomeRow, names: DomainNames)
    ensures
        row.actual_outcome@ != "success"@ && row.actual_outcome@ != "failure"@
            && row.actual_outcome@ != "partial"@
            ==> row.fault(&names)
                == Some(
                    ErrorView::Internal(
                        "outcomes.actual_outcome: unknown value "@
                            + crate::json::quoted( row.actual_outcome@, ),
                    ),
                ),
        !(
            row.actual_outcome@ != "success"@ && row.actual_outcome@ != "failure"@
                && row.actual_outcome@ != "partial"@
        )
            ==> row.fault(&names) is None,
{
}

/// What the fields of a [`PlanReviewRecord`] say of the stored row.
pub proof fn the_record_of_a_plan_review_row(
    row: PlanReviewRow,
    stored: Row,
    names: DomainNames,
    record: PlanReviewRecord,
)
    requires
        row.is_of(stored),
        row.holds(&names, &record),
    ensures
        crate::model::value(stored, Column::PlanRunId) == Datum::Text(record.plan_run_id@),
        crate::model::value(stored, Column::TenantId) == Datum::Text(record.project.tenant_id@),
        crate::model::value(stored, Column::WorkspaceId)
            == Datum::Text(record.project.workspace_id@),
        crate::model::value(stored, Column::ProjectId) == Datum::Text(record.project.project_id@),
        crate::model::value(stored, Column::SessionId) == Datum::Text(record.session_id@),
        crate::model::value(stored, Column::PlanMarkdown) == Datum::Text(record.plan_markdown@),
        crate::model::value(stored, Column::State) == Datum::Text(record.state.spec_name()),
        crate::laws::recording::is_at_least_zero(
            crate::model::value(stored, Column::ProposedAt),
            record.proposed_at as int,
        ),
        crate::model::value(stored, Column::ResolvedBy)
            == crate::laws::storing::optional_text(record.resolved_by),
        match record.resolved_at {
            Some(n) => crate::laws::recording::is_at_least_zero(
                crate::model::value(stored, Column::ResolvedAt),
                n as int,
            ),
            None => crate::model::value(stored, Column::ResolvedAt) == Datum::Null,
        },
        crate::model::value(stored, Column::ReviewerComments)
            == crate::laws::storing::optional_text(record.reviewer_comments),
        crate::model::value(stored, Column::RejectionReason)
            == crate::laws::storing::optional_text(record.rejection_reason),
        crate::model::value(stored, Column::RevisionRunId)
            == crate::laws::storing::optional_text(record.revision_run_id),
{
    crate::vocabulary::plan_review_state_names_are_inverse(record.state, row.state@);
}

/// A [`PlanReviewRow`] says nothing of a stored row but what the columns that it asks for
/// hold.
pub proof fn the_columns_of_a_plan_review_row(row: PlanReviewRow, stored: Row, other: Row)
    requires
        forall|i: int|
            0 <= i < PlanReviewRow::spec_columns().len()
                ==> crate::model::value(stored, #[trigger] PlanReviewRow::spec_columns()[i])
                    == crate::model::value(other, PlanReviewRow::spec_columns()[i]),
    ensures
        row.is_of(stored) == row.is_of(other),
{
    let columns = PlanReviewRow::spec_columns();
    assert(columns[0] == Column::PlanRunId);
    assert(columns[1] == Column::TenantId);
    assert(columns[2] == Column::WorkspaceId);
    assert(columns[3] == Column::ProjectId);
    assert(columns[4] == Column::SessionId);
    assert(columns[5] == Column::PlanMarkdown);
    assert(columns[6] == Column::State);
    assert(columns[7] == Column::ProposedAt);
    assert(columns[8] == Column::ResolvedBy);
    assert(columns[9] == Column::ResolvedAt);
    assert(columns[10] == Column::ReviewerComments);
    assert(columns[11] == Column::RejectionReason);
    assert(columns[12] == Column::RevisionRunId);
}

/// When a [`PlanReviewRow`] holds no record, and how it is refused.
pub proof fn the_faults_of_a_plan_review_row(row: PlanReviewRow, names: DomainNames)
    ensures
        row.state@ != "proposed"@ && row.state@ != "approved"@ && row.state@ != "rejected"@
            && row.state@ != "revision_requested"@
            ==> row.fault(&names)
                == Some(
                    ErrorView::Internal(
                        "plan_reviews.state: unknown value "@ + crate::json::quoted(row.state@),
                    ),
                ),
        !(
            row.state@ != "proposed"@ && row.state@ != "approved"@ && row.state@ != "rejected"@
                && row.state@ != "revision_requested"@
        )
            ==> row.fault(&names) is None,
{
}

} // verus!
