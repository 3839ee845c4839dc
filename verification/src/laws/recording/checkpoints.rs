//! What the records say of the stored rows: checkpoints.

use crate::domain::DomainNames;
use crate::error::ErrorView;
use crate::model::{Datum, Row};
use crate::read::StoredRow;
use crate::read::checkpoints::{
    CheckpointRecord, CheckpointRow, CheckpointStrategy, CheckpointStrategyRow,
    F65CheckpointRecord, F65CheckpointRow,
};
use crate::schema::Column;
use vstd::prelude::*;

verus! {

/// What the fields of a [`CheckpointRecord`] say of the stored row.
pub proof fn the_record_of_a_checkpoint_row(
    row: CheckpointRow,
    stored: Row,
    names: DomainNames,
    record: CheckpointRecord,
)
    requires
        row.is_of(stored),
        row.holds(&names, &record),
    ensures
        crate::model::value(stored, Column::CheckpointId) == Datum::Text(record.checkpoint_id@),
        crate::model::value(stored, Column::TenantId) == Datum::Text(record.project.tenant_id@),
        crate::model::value(stored, Column::WorkspaceId)
            == Datum::Text(record.project.workspace_id@),
        crate::model::value(stored, Column::ProjectId) == Datum::Text(record.project.project_id@),
        crate::model::value(stored, Column::RunId) == Datum::Text(record.run_id@),
        crate::model::value(stored, Column::Disposition) == Datum::Text(record.disposition@),
        record.data is None,
        crate::model::value(stored, Column::Version) is Int
            && (
                crate::model::value(stored, Column::Version)->Int_0 >= 0
                    ==> record.version == crate::model::value(stored, Column::Version)->Int_0
            ),
        crate::model::value(stored, Column::CreatedAt) is Int
            && (
                crate::model::value(stored, Column::CreatedAt)->Int_0 >= 0
                    ==> record.created_at == crate::model::value(stored, Column::CreatedAt)->Int_0
            ),
{
}

/// A [`CheckpointRow`] says nothing of a stored row but what the columns that it asks for
/// hold.
pub proof fn the_columns_of_a_checkpoint_row(row: CheckpointRow, stored: Row, other: Row)
    requires
        forall|i: int|
            0 <= i < CheckpointRow::spec_columns().len()
                ==> crate::model::value(stored, #[trigger] CheckpointRow::spec_columns()[i])
                    == crate::model::value(other, CheckpointRow::spec_columns()[i]),
    ensures
        row.is_of(stored) == row.is_of(other),
{
    let columns = CheckpointRow::spec_columns();
    assert(columns[0] == Column::CheckpointId);
    assert(columns[1] == Column::TenantId);
    assert(columns[2] == Column::WorkspaceId);
    assert(columns[3] == Column::ProjectId);
    assert(columns[4] == Column::RunId);
    assert(columns[5] == Column::Disposition);
    assert(columns[6] == Column::Version);
    assert(columns[7] == Column::CreatedAt);
}

/// When a [`CheckpointRow`] holds no record, and how it is refused.
pub proof fn the_faults_of_a_checkpoint_row(row: CheckpointRow, names: DomainNames)
    ensures
        !names.checkpoint_dispositions.deep_view().contains(row.disposition@)
            ==> row.fault(&names)
                == Some(
                    ErrorView::unknown_name(
                        row.disposition@,
                        names.checkpoint_dispositions.deep_view(),
                    ),
                ),
        !(!names.checkpoint_dispositions.deep_view().contains(row.disposition@))
            ==> row.fault(&names) is None,
{
}

/// What the fields of a [`F65CheckpointRecord`] say of the stored row.
pub proof fn the_record_of_a_f65_checkpoint_row(
    row: F65CheckpointRow,
    stored: Row,
    names: DomainNames,
    record: F65CheckpointRecord,
)
    requires
        row.is_of(stored),
        row.holds(&names, &record),
    ensures
        crate::model::value(stored, Column::CheckpointId) == Datum::Text(record.checkpoint_id@),
        crate::model::value(stored, Column::TenantId) == Datum::Text(record.project.tenant_id@),
        crate::model::value(stored, Column::WorkspaceId)
            == Datum::Text(record.project.workspace_id@),
        crate::model::value(stored, Column::ProjectId) == Datum::Text(record.project.project_id@),
        crate::model::value(stored, Column::SessionId) == Datum::Text(record.session_id@),
        crate::model::value(stored, Column::RunId) == Datum::Text(record.root_run_id@),
        if crate::model::value(stored, Column::SchemaVersion)
            == Datum::Null {
                record.schema_version == 1
            } else {
                crate::laws::recording::is_at_least_zero(
                    crate::model::value(stored, Column::SchemaVersion),
                    record.schema_version as int,
                )
            },
        record.body@ == match row.body { Some(s) => s@, None => Seq::<char>::empty(), },
        if crate::model::value(stored, Column::BodySizeBytes)
            == Datum::Null {
                record.body_size_bytes == 0
            } else {
                crate::laws::recording::is_at_least_zero(
                    crate::model::value(stored, Column::BodySizeBytes),
                    record.body_size_bytes as int,
                )
            },
        if crate::model::value(stored, Column::Iteration)
            == Datum::Null {
                record.iteration == 0
            } else {
                crate::laws::recording::is_at_least_zero(
                    crate::model::value(stored, Column::Iteration),
                    record.iteration as int,
                )
            },
        crate::laws::recording::is_at_least_zero(
            crate::model::value(stored, Column::CreatedAt),
            record.created_at as int,
        ),
{
}

/// A [`F65CheckpointRow`] says nothing of a stored row but what the columns that it asks for
/// hold.
pub proof fn the_columns_of_a_f65_checkpoint_row(row: F65CheckpointRow, stored: Row, other: Row)
    requires
        forall|i: int|
            0 <= i < F65CheckpointRow::spec_columns().len()
                ==> crate::model::value(stored, #[trigger] F65CheckpointRow::spec_columns()[i])
                    == crate::model::value(other, F65CheckpointRow::spec_columns()[i]),
    ensures
        row.is_of(stored) == row.is_of(other),
{
    let columns = F65CheckpointRow::spec_columns();
    assert(columns[0] == Column::CheckpointId);
    assert(columns[1] == Column::TenantId);
    assert(columns[2] == Column::WorkspaceId);
    assert(columns[3] == Column::ProjectId);
    assert(columns[4] == Column::RunId);
    assert(columns[5] == Column::SessionId);
    assert(columns[6] == Column::Body);
    assert(columns[7] == Column::BodySizeBytes);
    assert(columns[8] == Column::SchemaVersion);
    assert(columns[9] == Column::Iteration);
    assert(columns[10] == Column::CreatedAt);
}

/// Every [`F65CheckpointRow`] holds a record.
pub proof fn the_faults_of_a_f65_checkpoint_row(row: F65CheckpointRow, names: DomainNames)
    ensures
        row.fault(&names) is None,
{
}

/// What the fields of a [`CheckpointStrategy`] say of the stored row.
pub proof fn the_record_of_a_checkpoint_strategy_row(
    row: CheckpointStrategyRow,
    stored: Row,
    names: DomainNames,
    record: CheckpointStrategy,
)
    requires
        row.is_of(stored),
        row.holds(&names, &record),
    ensures
        crate::model::value(stored, Column::StrategyId) == Datum::Text(record.strategy_id@),
        record.project@ == crate::read::checkpoints::sentinel_project(),
        record.run_id == row.run_id,
        crate::laws::recording::is_at_least_zero(
            crate::model::value(stored, Column::IntervalMs),
            record.interval_ms as int,
        ),
        crate::laws::recording::is_at_least_zero(
            crate::model::value(stored, Column::MaxCheckpoints),
            record.max_checkpoints as int,
        ),
        record.trigger_on_task_complete
            <==> crate::model::value(stored, Column::TriggerOnTaskComplete) != Datum::Int(0),
{
}

/// A [`CheckpointStrategyRow`] says nothing of a stored row but what the columns that it asks for
/// hold.
pub proof fn the_columns_of_a_checkpoint_strategy_row(
    row: CheckpointStrategyRow,
    stored: Row,
    other: Row,
)
    requires
        forall|i: int|
            0 <= i < CheckpointStrategyRow::spec_columns().len()
                ==> crate::model::value(stored, #[trigger] CheckpointStrategyRow::spec_columns()[i])
                    == crate::model::value(other, CheckpointStrategyRow::spec_columns()[i]),
    ensures
        row.is_of(stored) == row.is_of(other),
{
    let columns = CheckpointStrategyRow::spec_columns();
    assert(columns[0] == Column::StrategyId);
    assert(columns[1] == Column::IntervalMs);
    assert(columns[2] == Column::MaxCheckpoints);
    assert(columns[3] == Column::TriggerOnTaskComplete);
}

/// Every [`CheckpointStrategyRow`] holds a record.
pub proof fn the_faults_of_a_checkpoint_strategy_row(row: CheckpointStrategyRow, names: DomainNames)
    ensures
        row.fault(&names) is None,
{
}

} // verus!
