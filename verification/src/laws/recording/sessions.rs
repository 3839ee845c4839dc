//! What the records say of the stored rows: sessions.

use crate::domain::DomainNames;
use crate::error::{ErrorView, StoreError};
use crate::model::{Datum, Row};
use crate::read::StoredRow;
use crate::read::sessions::{
    SessionOutcomeRecord, SessionOutcomeRow, SessionRecord, SessionRow, WorkspaceRegistryRecord,
    WorkspaceRegistryRow, WorkspaceSnapshotRecord, WorkspaceSnapshotRow,
};
use crate::schema::Column;
use vstd::prelude::*;

verus! {

/// What the fields of a [`SessionRecord`] say of the stored row.
pub proof fn the_record_of_a_session_row(
    row: SessionRow,
    stored: Row,
    names: DomainNames,
    record: SessionRecord,
)
    requires
        row.is_of(stored),
        row.holds(&names, &record),
    ensures
        crate::model::value(stored, Column::SessionId) == Datum::Text(record.session_id@),
        crate::model::value(stored, Column::TenantId) == Datum::Text(record.project.tenant_id@),
        crate::model::value(stored, Column::WorkspaceId)
            == Datum::Text(record.project.workspace_id@),
        crate::model::value(stored, Column::ProjectId) == Datum::Text(record.project.project_id@),
        crate::model::value(stored, Column::State) == Datum::Text(record.state@),
        crate::model::value(stored, Column::Version) is Int
            && (
                crate::model::value(stored, Column::Version)->Int_0 >= 0
                    ==> record.version == crate::model::value(stored, Column::Version)->Int_0
            ),
        crate::model::value(stored, Column::CreatedAt) is Int
            && (
                crate::model::value(stored, Column::CreatedAt)->Int_0 >= 0
                    ==> record.created_at == crate::model::value(stored, Column::CreatedAt)->Int_0
            ),
        crate::model::value(stored, Column::UpdatedAt) is Int
            && (
                crate::model::value(stored, Column::UpdatedAt)->Int_0 >= 0
                    ==> record.updated_at == crate::model::value(stored, Column::UpdatedAt)->Int_0
            ),
        crate::model::value(stored, Column::GoalTitle)
            == crate::laws::storing::optional_text(record.goal_title),
        record.issue_budget == row.budget(),
        crate::laws::recording::is_at_least_zero(
            crate::model::value(stored, Column::MaxAttempts),
            record.max_attempts as int,
        ),
        crate::laws::recording::is_at_least_zero(
            crate::model::value(stored, Column::AttemptsUsed),
            record.attempts_used as int,
        ),
{
}

/// A [`SessionRow`] says nothing of a stored row but what the columns that it asks for
/// hold.
pub proof fn the_columns_of_a_session_row(row: SessionRow, stored: Row, other: Row)
    requires
        forall|i: int|
            0 <= i < SessionRow::spec_columns().len()
                ==> crate::model::value(stored, #[trigger] SessionRow::spec_columns()[i])
                    == crate::model::value(other, SessionRow::spec_columns()[i]),
    ensures
        row.is_of(stored) == row.is_of(other),
{
    let columns = SessionRow::spec_columns();
    assert(columns[0] == Column::SessionId);
    assert(columns[1] == Column::TenantId);
    assert(columns[2] == Column::WorkspaceId);
    assert(columns[3] == Column::ProjectId);
    assert(columns[4] == Column::State);
    assert(columns[5] == Column::Version);
    assert(columns[6] == Column::CreatedAt);
    assert(columns[7] == Column::UpdatedAt);
    assert(columns[8] == Column::GoalTitle);
    assert(columns[9] == Column::MaxAttempts);
    assert(columns[10] == Column::AttemptsUsed);
    assert(columns[11] == Column::WallClockMsCap);
    assert(columns[12] == Column::WallClockMsUsed);
    assert(columns[13] == Column::TokenCap);
    assert(columns[14] == Column::TokensUsed);
    assert(columns[15] == Column::CostUsdCap);
    assert(columns[16] == Column::CostUsdUsed);
}

/// When a [`SessionRow`] holds no record, and how it is refused.
pub proof fn the_faults_of_a_session_row(row: SessionRow, names: DomainNames)
    ensures
        !names.session_states.deep_view().contains(row.state@)
            ==> row.fault(&names)
                == Some(ErrorView::unknown_name(row.state@, names.session_states.deep_view())),
        !(!names.session_states.deep_view().contains(row.state@)) ==> row.fault(&names) is None,
{
}

/// What the fields of a [`SessionOutcomeRecord`] say of the stored row.
pub proof fn the_record_of_a_session_outcome_row(
    row: SessionOutcomeRow,
    stored: Row,
    names: DomainNames,
    record: SessionOutcomeRecord,
)
    requires
        row.is_of(stored),
        row.holds(&names, &record),
    ensures
        crate::model::value(stored, Column::RootRunId) == Datum::Text(record.root_run_id@),
        crate::model::value(stored, Column::TenantId) == Datum::Text(record.project.tenant_id@),
        crate::model::value(stored, Column::WorkspaceScope)
            == Datum::Text(record.project.workspace_id@),
        crate::model::value(stored, Column::ProjectId) == Datum::Text(record.project.project_id@),
        crate::model::value(stored, Column::SessionId) == Datum::Text(record.session_id@),
        crate::model::value(stored, Column::CheckpointId) == Datum::Text(record.checkpoint_id@),
        crate::model::value(stored, Column::WorkspaceSnapshotId)
            == crate::laws::storing::optional_text(record.workspace_snapshot_id),
        row.reason == Ok::<String, StoreError>(record.termination_reason),
        crate::model::value(stored, Column::CompactedSummary)
            == Datum::Text(record.compacted_summary@),
        crate::model::value(stored, Column::NextStepHint)
            == crate::laws::storing::optional_text(record.next_step_hint),
        crate::laws::recording::is_at_least_zero(
            crate::model::value(stored, Column::CostMicros),
            record.cost_micros as int,
        ),
        crate::laws::recording::is_at_least_zero(
            crate::model::value(stored, Column::CreatedAt),
            record.created_at as int,
        ),
{
}

/// A [`SessionOutcomeRow`] says nothing of a stored row but what the columns that it asks for
/// hold.
pub proof fn the_columns_of_a_session_outcome_row(row: SessionOutcomeRow, stored: Row, other: Row)
    requires
        forall|i: int|
            0 <= i < SessionOutcomeRow::spec_columns().len()
                ==> crate::model::value(stored, #[trigger] SessionOutcomeRow::spec_columns()[i])
                    == crate::model::value(other, SessionOutcomeRow::spec_columns()[i]),
    ensures
        row.is_of(stored) == row.is_of(other),
{
    let columns = SessionOutcomeRow::spec_columns();
    assert(columns[0] == Column::RootRunId);
    assert(columns[1] == Column::TenantId);
    assert(columns[2] == Column::WorkspaceScope);
    assert(columns[3] == Column::ProjectId);
    assert(columns[4] == Column::SessionId);
    assert(columns[5] == Column::CheckpointId);
    assert(columns[6] == Column::WorkspaceSnapshotId);
    assert(columns[7] == Column::TerminationReason);
    assert(columns[8] == Column::TerminationReasonJson);
    assert(columns[9] == Column::CompactedSummary);
    assert(columns[10] == Column::NextStepHint);
    assert(columns[11] == Column::CostMicros);
    assert(columns[12] == Column::CreatedAt);
}

/// When a [`SessionOutcomeRow`] holds no record, and how it is refused.
pub proof fn the_faults_of_a_session_outcome_row(row: SessionOutcomeRow, names: DomainNames)
    ensures
        row.reason is Err ==> row.fault(&names) == Some(row.reason->Err_0@),
        !(row.reason is Err) ==> row.fault(&names) is None,
{
}

/// What the fields of a [`WorkspaceSnapshotRecord`] say of the stored row.
pub proof fn the_record_of_a_workspace_snapshot_row(
    row: WorkspaceSnapshotRow,
    stored: Row,
    names: DomainNames,
    record: WorkspaceSnapshotRecord,
)
    requires
        row.is_of(stored),
        row.holds(&names, &record),
    ensures
        crate::model::value(stored, Column::SnapshotId) == Datum::Text(record.snapshot_id@),
        crate::model::value(stored, Column::TenantId) == Datum::Text(record.project.tenant_id@),
        crate::model::value(stored, Column::WorkspaceScope)
            == Datum::Text(record.project.workspace_id@),
        crate::model::value(stored, Column::ProjectId) == Datum::Text(record.project.project_id@),
        crate::model::value(stored, Column::SessionId) == Datum::Text(record.session_id@),
        crate::model::value(stored, Column::WorkspaceId) == Datum::Text(record.workspace_id@),
        crate::model::value(stored, Column::ParentSnapshotId)
            == crate::laws::storing::optional_text(record.parent_snapshot_id),
        crate::model::value(stored, Column::SnapshotPath) == Datum::Text(record.snapshot_path@),
        crate::laws::recording::is_at_least_zero(
            crate::model::value(stored, Column::Bytes),
            record.bytes as int,
        ),
        crate::model::value(stored, Column::ReflinkUsed) == Datum::Bool(record.reflink_used),
        crate::laws::recording::is_at_least_zero(
            crate::model::value(stored, Column::CreatedAt),
            record.created_at as int,
        ),
        match record.reaped_at {
            Some(n) => crate::laws::recording::is_at_least_zero(
                crate::model::value(stored, Column::ReapedAt),
                n as int,
            ),
            None => crate::model::value(stored, Column::ReapedAt) == Datum::Null,
        },
{
}

/// A [`WorkspaceSnapshotRow`] says nothing of a stored row but what the columns that it asks for
/// hold.
pub proof fn the_columns_of_a_workspace_snapshot_row(
    row: WorkspaceSnapshotRow,
    stored: Row,
    other: Row,
)
    requires
        forall|i: int|
            0 <= i < WorkspaceSnapshotRow::spec_columns().len()
                ==> crate::model::value(stored, #[trigger] WorkspaceSnapshotRow::spec_columns()[i])
                    == crate::model::value(other, WorkspaceSnapshotRow::spec_columns()[i]),
    ensures
        row.is_of(stored) == row.is_of(other),
{
    let columns = WorkspaceSnapshotRow::spec_columns();
    assert(columns[0] == Column::SnapshotId);
    assert(columns[1] == Column::TenantId);
    assert(columns[2] == Column::WorkspaceScope);
    assert(columns[3] == Column::ProjectId);
    assert(columns[4] == Column::SessionId);
    assert(columns[5] == Column::WorkspaceId);
    assert(columns[6] == Column::ParentSnapshotId);
    assert(columns[7] == Column::SnapshotPath);
    assert(columns[8] == Column::Bytes);
    assert(columns[9] == Column::ReflinkUsed);
    assert(columns[10] == Column::CreatedAt);
    assert(columns[11] == Column::ReapedAt);
}

/// Every [`WorkspaceSnapshotRow`] holds a record.
pub proof fn the_faults_of_a_workspace_snapshot_row(row: WorkspaceSnapshotRow, names: DomainNames)
    ensures
        row.fault(&names) is None,
{
}

/// What the fields of a [`WorkspaceRegistryRecord`] say of the stored row.
pub proof fn the_record_of_a_workspace_registry_row(
    row: WorkspaceRegistryRow,
    stored: Row,
    names: DomainNames,
    record: WorkspaceRegistryRecord,
)
    requires
        row.is_of(stored),
        row.holds(&names, &record),
    ensures
        crate::model::value(stored, Column::WorkspaceId) == Datum::Text(record.workspace_id@),
        crate::model::value(stored, Column::TenantId) == Datum::Text(record.project.tenant_id@),
        crate::model::value(stored, Column::WorkspaceScope)
            == Datum::Text(record.project.workspace_id@),
        crate::model::value(stored, Column::ProjectId) == Datum::Text(record.project.project_id@),
        crate::model::value(stored, Column::RootRunId) == Datum::Text(record.root_run_id@),
        crate::model::value(stored, Column::FsRoot) == Datum::Text(record.fs_root@),
        crate::model::value(stored, Column::Status) == Datum::Text(record.status@),
        crate::laws::recording::is_at_least_zero(
            crate::model::value(stored, Column::CreatedAt),
            record.created_at as int,
        ),
        match record.reaped_at {
            Some(n) => crate::laws::recording::is_at_least_zero(
                crate::model::value(stored, Column::ReapedAt),
                n as int,
            ),
            None => crate::model::value(stored, Column::ReapedAt) == Datum::Null,
        },
{
}

/// A [`WorkspaceRegistryRow`] says nothing of a stored row but what the columns that it asks for
/// hold.
pub proof fn the_columns_of_a_workspace_registry_row(
    row: WorkspaceRegistryRow,
    stored: Row,
    other: Row,
)
    requires
        forall|i: int|
            0 <= i < WorkspaceRegistryRow::spec_columns().len()
                ==> crate::model::value(stored, #[trigger] WorkspaceRegistryRow::spec_columns()[i])
                    == crate::model::value(other, WorkspaceRegistryRow::spec_columns()[i]),
    ensures
        row.is_of(stored) == row.is_of(other),
{
    let columns = WorkspaceRegistryRow::spec_columns();
    assert(columns[0] == Column::WorkspaceId);
    assert(columns[1] == Column::TenantId);
    assert(columns[2] == Column::WorkspaceScope);
    assert(columns[3] == Column::ProjectId);
    assert(columns[4] == Column::RootRunId);
    assert(columns[5] == Column::FsRoot);
    assert(columns[6] == Column::Status);
    assert(columns[7] == Column::CreatedAt);
    assert(columns[8] == Column::ReapedAt);
}

/// When a [`WorkspaceRegistryRow`] holds no record, and how it is refused.
pub proof fn the_faults_of_a_workspace_registry_row(row: WorkspaceRegistryRow, names: DomainNames)
    ensures
        !names.workspace_statuses.deep_view().contains(row.status@)
            ==> row.fault(&names)
                == Some(ErrorView::unknown_name(row.status@, names.workspace_statuses.deep_view())),
        !(!names.workspace_statuses.deep_view().contains(row.status@))
            ==> row.fault(&names) is None,
{
}

} // verus!
