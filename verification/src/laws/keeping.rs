//! What is stored apart from the events.

use crate::laws::rows::{group_filters, group_rows};
use crate::model::{Database, Datum, Row};
use crate::read::tasks::FfLeaseHistoryCursor;
use crate::schema::{Column, Table};
use crate::statement::GuardView;
use vstd::prelude::*;

verus! {

/// An increment counts one more descendant of a root run, where there are fewer than
/// the cap.
pub proof fn an_increment_counts_one_more_below_the_cap(
    root_run_id: Seq<char>,
    cap: i64,
    now: i64,
    db: Database,
    was: Row,
    other: Column,
)
    ensures
        ({
            let s = crate::read::runs::increment(root_run_id, cap, now);
            let updated = crate::laws::rows::updated_by(db, s, was);
            let selected = crate::model::value(was, Column::RunId) == Datum::Text(root_run_id)
                && crate::laws::selecting::is_below(
                    crate::model::value(was, Column::InFlightDescendants),
                    cap as int,
                );
            &&& s is Update && s.table() == Table::Runs
            &&& selected ==> {
                &&& crate::model::value(updated, Column::InFlightDescendants)
                    == crate::model::plus(
                        crate::model::value(was, Column::InFlightDescendants),
                        Datum::Int(1),
                    )
                &&& crate::model::value(updated, Column::Version)
                    == crate::model::plus(crate::model::value(was, Column::Version), Datum::Int(1))
                &&& crate::model::value(updated, Column::UpdatedAt) == Datum::Int(now as int)
                &&& other is InFlightDescendants || other is Version || other is UpdatedAt
                    || crate::model::value(updated, other) == crate::model::value(was, other)
            }
            &&& !selected ==> updated == was
        }),
{
    broadcast use {group_rows, group_filters};
}

/// A decrement counts one descendant of a root run less.
pub proof fn a_decrement_counts_one_less(
    root_run_id: Seq<char>,
    now: i64,
    db: Database,
    was: Row,
    other: Column,
)
    ensures
        ({
            let s = crate::read::runs::decrement(root_run_id, now);
            let updated = crate::laws::rows::updated_by(db, s, was);
            let selected = crate::model::value(was, Column::RunId) == Datum::Text(root_run_id);
            &&& s is Update && s.table() == Table::Runs
            &&& selected ==> {
                &&& crate::model::value(updated, Column::InFlightDescendants)
                    == crate::model::plus(
                        crate::model::value(was, Column::InFlightDescendants),
                        Datum::Int(-1),
                    )
                &&& crate::model::value(updated, Column::Version)
                    == crate::model::plus(crate::model::value(was, Column::Version), Datum::Int(1))
                &&& crate::model::value(updated, Column::UpdatedAt) == Datum::Int(now as int)
                &&& other is InFlightDescendants || other is Version || other is UpdatedAt
                    || crate::model::value(updated, other) == crate::model::value(was, other)
            }
            &&& !selected ==> updated == was
        }),
{
    broadcast use {group_rows, group_filters};
}

/// How far the lease history of an execution was read is kept under its partition
/// and its execution, the latest in place of what was kept before.
pub proof fn how_far_a_history_was_read_is_kept(
    e: FfLeaseHistoryCursor,
    db: Database,
    was: Row,
    other: Column,
)
    ensures
        ({
            let s = e.upserted();
            let new = crate::laws::rows::left_by(db, s, None);
            let merged = crate::laws::rows::left_by(db, s, Some(was));
            &&& s is Insert && s.table() == Table::FfLeaseHistoryCursors
            &&& crate::model::value(new, Column::PartitionId) == Datum::Text(e.partition_id@)
            &&& crate::model::value(new, Column::ExecutionId) == Datum::Text(e.execution_id@)
            &&& crate::model::value(new, Column::LastStreamId) == Datum::Text(e.last_stream_id@)
            &&& crate::model::value(new, Column::UpdatedAtMs)
                == Datum::Int(e.updated_at_ms as i64 as int)
            &&& other is PartitionId || other is ExecutionId || other is LastStreamId
                || other is UpdatedAtMs
                || crate::model::value(new, other)
                    == db.default_of(Table::FfLeaseHistoryCursors, other)
            &&& s->Insert_conflict is Merge
            &&& s->Insert_conflict->Merge_key == seq![Column::PartitionId, Column::ExecutionId]
            &&& s->Insert_conflict->Merge_guard == GuardView::Always
            &&& crate::model::value(merged, Column::LastStreamId) == Datum::Text(e.last_stream_id@)
            &&& crate::model::value(merged, Column::UpdatedAtMs)
                == Datum::Int(e.updated_at_ms as i64 as int)
            &&& other is LastStreamId || other is UpdatedAtMs
                || crate::model::value(merged, other) == crate::model::value(was, other)
        }),
{
    broadcast use {group_rows, group_filters};
}

/// How far the lease history of one execution was read is forgotten, and that of no
/// other.
pub proof fn how_far_a_history_was_read_is_forgotten(
    partition_id: Seq<char>,
    execution_id: Seq<char>,
    db: Database,
    was: Row,
    other: Column,
)
    ensures
        ({
            let s = FfLeaseHistoryCursor::deleted(partition_id, execution_id);
            &&& s is Delete && s.table() == Table::FfLeaseHistoryCursors
            &&& crate::model::passes_all(db, was, s->Delete_filter)
                <==> crate::model::value(was, Column::PartitionId) == Datum::Text(partition_id)
                    && crate::model::value(was, Column::ExecutionId) == Datum::Text(execution_id)
        }),
{
    broadcast use {group_rows, group_filters};
}

/// What is known of a snapshot once it was taken is added to it.
pub proof fn a_snapshot_is_stamped(
    snapshot_id: Seq<char>,
    snapshot_path: Seq<char>,
    bytes: i64,
    reflink_used: bool,
    parent_snapshot_id: Option<String>,
    db: Database,
    was: Row,
    other: Column,
)
    ensures
        ({
            let s = crate::read::sessions::stamped(
                snapshot_id,
                snapshot_path,
                bytes,
                reflink_used,
                parent_snapshot_id,
            );
            let updated = crate::laws::rows::updated_by(db, s, was);
            let selected = crate::model::value(was, Column::SnapshotId) == Datum::Text(snapshot_id);
            &&& s is Update && s.table() == Table::WorkspaceSnapshots
            &&& selected ==> {
                &&& crate::model::value(updated, Column::SnapshotPath) == Datum::Text(snapshot_path)
                &&& crate::model::value(updated, Column::Bytes) == Datum::Int(bytes as int)
                &&& crate::model::value(updated, Column::ReflinkUsed) == Datum::Bool(reflink_used)
                &&& crate::model::value(updated, Column::ParentSnapshotId)
                    == crate::laws::storing::optional_text(parent_snapshot_id)
                &&& other is SnapshotPath || other is Bytes || other is ReflinkUsed
                    || other is ParentSnapshotId
                    || crate::model::value(updated, other) == crate::model::value(was, other)
            }
            &&& !selected ==> updated == was
        }),
{
    broadcast use {group_rows, group_filters};
}

} // verus!
