//! What the events store: checkpoints.

use crate::laws::rows::{group_filters, group_rows};
use crate::model::{Database, Datum, Row};
use crate::plan::{Moment, Planned};
use crate::projections::checkpoints::{
    CheckpointPersisted, CheckpointRecorded, CheckpointStrategySet, WorkspaceSnapshotCreated,
    WorkspaceSnapshotReaped,
};
use crate::schema::{Column, Table};
use crate::statement::{ConflictView, GuardView};
use crate::vocabulary::CheckpointDisposition;
use vstd::prelude::*;

verus! {

/// What a [`CheckpointRecorded`] event stores.
pub proof fn checkpoint_recorded_is_stored(
    e: CheckpointRecorded,
    at: Moment,
    db: Database,
    was: Row,
    other: Column,
)
    ensures
        e.disposition == CheckpointDisposition::Latest ==> ({
            let s1 = e.writes(at).statements()[0];
            let updated1 = crate::laws::rows::updated_by(db, s1, was);
            let s2 = e.writes(at).statements()[1];
            let new2 = crate::laws::rows::left_by(db, s2, None);
            let selected1 = crate::model::value(was, Column::RunId) == Datum::Text(e.run_id@)
                && crate::model::value(was, Column::Disposition) == Datum::Text("latest"@);
            &&& e.writes(at) is Writes
            &&& e.writes(at).statements().len() == 2
            &&& s1 is Update && s1.table() == Table::Checkpoints
            &&& selected1 ==> {
                &&& crate::model::value(updated1, Column::Disposition) == Datum::Text("superseded"@)
                &&& crate::model::value(updated1, Column::Version)
                    == crate::model::plus(crate::model::value(was, Column::Version), Datum::Int(1))
                &&& other is Disposition || other is Version
                    || crate::model::value(updated1, other) == crate::model::value(was, other)
            }
            &&& !selected1 ==> updated1 == was
            &&& s2 is Insert && s2.table() == Table::Checkpoints
            &&& crate::model::value(new2, Column::CheckpointId) == Datum::Text(e.checkpoint_id@)
            &&& crate::model::value(new2, Column::TenantId) == Datum::Text(e.project.tenant_id@)
            &&& crate::model::value(new2, Column::WorkspaceId)
                == Datum::Text(e.project.workspace_id@)
            &&& crate::model::value(new2, Column::ProjectId) == Datum::Text(e.project.project_id@)
            &&& crate::model::value(new2, Column::RunId) == Datum::Text(e.run_id@)
            &&& crate::model::value(new2, Column::Disposition)
                == Datum::Text(e.disposition.spec_name())
            &&& crate::model::value(new2, Column::Version) == Datum::Int(1)
            &&& crate::model::value(new2, Column::CreatedAt) == Datum::Int(at.now as int)
            &&& other is CheckpointId || other is TenantId || other is WorkspaceId
                || other is ProjectId || other is RunId || other is Disposition || other is Version
                || other is CreatedAt
                || crate::model::value(new2, other) == db.default_of(Table::Checkpoints, other)
            &&& s2->Insert_conflict is Fail
        }),
        !(e.disposition == CheckpointDisposition::Latest) ==> ({
            let s = e.writes(at).statements()[0];
            let new = crate::laws::rows::left_by(db, s, None);
            &&& e.writes(at) is Writes
            &&& e.writes(at).statements().len() == 1
            &&& s is Insert && s.table() == Table::Checkpoints
            &&& crate::model::value(new, Column::CheckpointId) == Datum::Text(e.checkpoint_id@)
            &&& crate::model::value(new, Column::TenantId) == Datum::Text(e.project.tenant_id@)
            &&& crate::model::value(new, Column::WorkspaceId)
                == Datum::Text(e.project.workspace_id@)
            &&& crate::model::value(new, Column::ProjectId) == Datum::Text(e.project.project_id@)
            &&& crate::model::value(new, Column::RunId) == Datum::Text(e.run_id@)
            &&& crate::model::value(new, Column::Disposition)
                == Datum::Text(e.disposition.spec_name())
            &&& crate::model::value(new, Column::Version) == Datum::Int(1)
            &&& crate::model::value(new, Column::CreatedAt) == Datum::Int(at.now as int)
            &&& other is CheckpointId || other is TenantId || other is WorkspaceId
                || other is ProjectId || other is RunId || other is Disposition || other is Version
                || other is CreatedAt
                || crate::model::value(new, other) == db.default_of(Table::Checkpoints, other)
            &&& s->Insert_conflict is Fail
        }),
{
    broadcast use {group_rows, group_filters};
}

/// What a [`CheckpointStrategySet`] event stores.
pub proof fn checkpoint_strategy_set_is_stored(
    e: CheckpointStrategySet,
    at: Moment,
    db: Database,
    was: Row,
    other: Column,
)
    ensures
        e.run_id is None ==> ({
            &&& e.writes(at) is Writes
            &&& e.writes(at).statements().len() == 0
        }),
        e.run_id is Some && (if e.max_checkpoints > 0 { e.max_checkpoints } else { 10 }) > i32::MAX
            ==> e.writes(at)
                == Planned::Refused(
                    crate::laws::storing::too_great_for_an_integer(
                        "CheckpointStrategySet.max_checkpoints"@,
                        (if e.max_checkpoints > 0 { e.max_checkpoints } else { 10 }) as nat,
                    ),
                ),
        e.run_id is Some
            && !((if e.max_checkpoints > 0 { e.max_checkpoints } else { 10 }) > i32::MAX)
            && e.interval_ms > i64::MAX
            ==> e.writes(at)
                == Planned::Refused(
                    crate::laws::storing::too_great(
                        "CheckpointStrategySet.interval_ms"@,
                        e.interval_ms as nat,
                        "i64::MAX"@,
                    ),
                ),
        e.run_id is Some
            && !((if e.max_checkpoints > 0 { e.max_checkpoints } else { 10 }) > i32::MAX)
            && e.interval_ms <= i64::MAX && e.set_at_ms > i64::MAX
            ==> e.writes(at)
                == Planned::Refused(
                    crate::laws::storing::too_great(
                        "CheckpointStrategySet.set_at_ms"@,
                        e.set_at_ms as nat,
                        "i64::MAX"@,
                    ),
                ),
        e.run_id is Some
            && !((if e.max_checkpoints > 0 { e.max_checkpoints } else { 10 }) > i32::MAX)
            && e.interval_ms <= i64::MAX && e.set_at_ms <= i64::MAX
            ==> ({
            let s = e.writes(at).statements()[0];
            let merged = crate::laws::rows::left_by(db, s, Some(was));
            let new = crate::laws::rows::left_by(db, s, None);
            &&& e.writes(at) is Writes
            &&& e.writes(at).statements().len() == 1
            &&& s is Insert && s.table() == Table::CheckpointStrategies
            &&& crate::model::value(new, Column::RunId) == Datum::Text(e.run_id->Some_0@)
            &&& crate::model::value(new, Column::StrategyId) == Datum::Text(e.strategy_id@)
            &&& crate::model::value(new, Column::IntervalMs)
                == Datum::Int(e.interval_ms as i64 as int)
            &&& crate::model::value(new, Column::MaxCheckpoints)
                == Datum::Int(
                    ((if e.max_checkpoints > 0 { e.max_checkpoints } else { 10 }) as i32) as int,
                )
            &&& crate::model::value(new, Column::TriggerOnTaskComplete)
                == crate::laws::storing::bit(e.trigger_on_task_complete)
            &&& crate::model::value(new, Column::SetAtMs) == Datum::Int(e.set_at_ms as i64 as int)
            &&& other is RunId || other is StrategyId || other is IntervalMs
                || other is MaxCheckpoints || other is TriggerOnTaskComplete || other is SetAtMs
                || crate::model::value(new, other)
                    == db.default_of(Table::CheckpointStrategies, other)
            &&& s->Insert_conflict is Merge
            &&& s->Insert_conflict->Merge_key == seq![Column::RunId]
            &&& s->Insert_conflict->Merge_guard == GuardView::Always
            &&& crate::model::value(merged, Column::StrategyId) == Datum::Text(e.strategy_id@)
            &&& crate::model::value(merged, Column::IntervalMs)
                == Datum::Int(e.interval_ms as i64 as int)
            &&& crate::model::value(merged, Column::MaxCheckpoints)
                == Datum::Int(
                    ((if e.max_checkpoints > 0 { e.max_checkpoints } else { 10 }) as i32) as int,
                )
            &&& crate::model::value(merged, Column::TriggerOnTaskComplete)
                == crate::laws::storing::bit(e.trigger_on_task_complete)
            &&& crate::model::value(merged, Column::SetAtMs)
                == Datum::Int(e.set_at_ms as i64 as int)
            &&& other is StrategyId || other is IntervalMs || other is MaxCheckpoints
                || other is TriggerOnTaskComplete || other is SetAtMs
                || crate::model::value(merged, other) == crate::model::value(was, other)
        }),
{
    broadcast use {group_rows, group_filters};
}

/// What a [`CheckpointPersisted`] event stores.
pub proof fn checkpoint_persisted_is_stored(
    e: CheckpointPersisted,
    at: Moment,
    db: Database,
    was: Row,
    other: Column,
)
    ensures
        e.iteration > i32::MAX
            ==> e.writes(at)
                == Planned::Refused(
                    crate::laws::storing::too_great(
                        "CheckpointPersisted.iteration"@,
                        e.iteration as nat,
                        "i32::MAX"@,
                    ),
                ),
        e.iteration <= i32::MAX && e.at_ms > i64::MAX
            ==> e.writes(at)
                == Planned::Refused(
                    crate::laws::storing::too_great(
                        "CheckpointPersisted.at_ms"@,
                        e.at_ms as nat,
                        "i64::MAX"@,
                    ),
                ),
        e.iteration <= i32::MAX && e.at_ms <= i64::MAX ==> ({
            let s = e.writes(at).statements()[0];
            let merged = crate::laws::rows::left_by(db, s, Some(was));
            let new = crate::laws::rows::left_by(db, s, None);
            &&& e.writes(at) is Writes
            &&& e.writes(at).statements().len() == 1
            &&& s is Insert && s.table() == Table::Checkpoints
            &&& crate::model::value(new, Column::CheckpointId) == Datum::Text(e.checkpoint_id@)
            &&& crate::model::value(new, Column::TenantId) == Datum::Text(e.project.tenant_id@)
            &&& crate::model::value(new, Column::WorkspaceId)
                == Datum::Text(e.project.workspace_id@)
            &&& crate::model::value(new, Column::ProjectId) == Datum::Text(e.project.project_id@)
            &&& crate::model::value(new, Column::RunId) == Datum::Text(e.root_run_id@)
            &&& crate::model::value(new, Column::Disposition) == Datum::Text("latest"@)
            &&& crate::model::value(new, Column::Version) == Datum::Int(1)
            &&& crate::model::value(new, Column::CreatedAt) == Datum::Int(e.at_ms as i64 as int)
            &&& crate::model::value(new, Column::SessionId) == Datum::Text(e.session_id@)
            &&& crate::model::value(new, Column::SchemaVersion) == Datum::Int(1)
            &&& crate::model::value(new, Column::Body) == Datum::Text(""@)
            &&& crate::model::value(new, Column::BodySizeBytes) == Datum::Int(0)
            &&& crate::model::value(new, Column::Iteration)
                == Datum::Int((e.iteration as i32) as int)
            &&& other is CheckpointId || other is TenantId || other is WorkspaceId
                || other is ProjectId || other is RunId || other is Disposition || other is Version
                || other is CreatedAt || other is SessionId || other is SchemaVersion
                || other is Body || other is BodySizeBytes || other is Iteration
                || crate::model::value(new, other) == db.default_of(Table::Checkpoints, other)
            &&& s->Insert_conflict is Merge
            &&& s->Insert_conflict->Merge_key == seq![Column::CheckpointId]
            &&& s->Insert_conflict->Merge_guard == GuardView::Always
            &&& crate::model::value(merged, Column::SessionId) == Datum::Text(e.session_id@)
            &&& crate::model::value(merged, Column::SchemaVersion) == Datum::Int(1)
            &&& crate::model::value(merged, Column::Iteration)
                == Datum::Int((e.iteration as i32) as int)
            &&& other is SessionId || other is SchemaVersion || other is Iteration
                || crate::model::value(merged, other) == crate::model::value(was, other)
        }),
{
    broadcast use {group_rows, group_filters};
}

/// What a [`WorkspaceSnapshotCreated`] event stores.
pub proof fn workspace_snapshot_created_is_stored(
    e: WorkspaceSnapshotCreated,
    at: Moment,
    db: Database,
    was: Row,
    other: Column,
)
    ensures
        e.at_ms > i64::MAX
            ==> e.writes(at)
                == Planned::Refused(
                    crate::laws::storing::too_great(
                        "WorkspaceSnapshotCreated.at_ms"@,
                        e.at_ms as nat,
                        "i64::MAX"@,
                    ),
                ),
        e.at_ms <= i64::MAX && e.bytes > i64::MAX
            ==> e.writes(at)
                == Planned::Refused(
                    crate::laws::storing::too_great(
                        "WorkspaceSnapshotCreated.bytes"@,
                        e.bytes as nat,
                        "i64::MAX"@,
                    ),
                ),
        e.at_ms <= i64::MAX && e.bytes <= i64::MAX ==> ({
            let s = e.writes(at).statements()[0];
            let new = crate::laws::rows::left_by(db, s, None);
            &&& e.writes(at) is Writes
            &&& e.writes(at).statements().len() == 1
            &&& s is Insert && s.table() == Table::WorkspaceSnapshots
            &&& crate::model::value(new, Column::SnapshotId) == Datum::Text(e.snapshot_id@)
            &&& crate::model::value(new, Column::TenantId) == Datum::Text(e.project.tenant_id@)
            &&& crate::model::value(new, Column::WorkspaceScope)
                == Datum::Text(e.project.workspace_id@)
            &&& crate::model::value(new, Column::ProjectId) == Datum::Text(e.project.project_id@)
            &&& crate::model::value(new, Column::SessionId) == Datum::Text(e.session_id@)
            &&& crate::model::value(new, Column::WorkspaceId) == Datum::Text(e.workspace_id@)
            &&& crate::model::value(new, Column::ParentSnapshotId)
                == crate::laws::storing::optional_text(e.parent_snapshot_id)
            &&& crate::model::value(new, Column::SnapshotPath) == Datum::Text(""@)
            &&& crate::model::value(new, Column::Bytes) == Datum::Int(e.bytes as i64 as int)
            &&& crate::model::value(new, Column::ReflinkUsed) == Datum::Bool(e.reflink_used)
            &&& crate::model::value(new, Column::CreatedAt) == Datum::Int(e.at_ms as i64 as int)
            &&& other is SnapshotId || other is TenantId || other is WorkspaceScope
                || other is ProjectId || other is SessionId || other is WorkspaceId
                || other is ParentSnapshotId || other is SnapshotPath || other is Bytes
                || other is ReflinkUsed || other is CreatedAt
                || crate::model::value(new, other)
                    == db.default_of(Table::WorkspaceSnapshots, other)
            &&& s->Insert_conflict == ConflictView::Ignore(seq![Column::SnapshotId])
        }),
{
    broadcast use {group_rows, group_filters};
}

/// What a [`WorkspaceSnapshotReaped`] event stores.
pub proof fn workspace_snapshot_reaped_is_stored(
    e: WorkspaceSnapshotReaped,
    at: Moment,
    db: Database,
    was: Row,
    other: Column,
)
    ensures
        e.at_ms > i64::MAX
            ==> e.writes(at)
                == Planned::Refused(
                    crate::laws::storing::too_great(
                        "WorkspaceSnapshotReaped.at_ms"@,
                        e.at_ms as nat,
                        "i64::MAX"@,
                    ),
                ),
        e.at_ms <= i64::MAX ==> ({
            let s = e.writes(at).statements()[0];
            let updated = crate::laws::rows::updated_by(db, s, was);
            let selected = crate::model::value(was, Column::SnapshotId)
                == Datum::Text(e.snapshot_id@);
            &&& e.writes(at) is Writes
            &&& e.writes(at).statements().len() == 1
            &&& s is Update && s.table() == Table::WorkspaceSnapshots
            &&& selected ==> {
                &&& crate::model::value(updated, Column::ReapedAt)
                    == Datum::Int(e.at_ms as i64 as int)
                &&& other is ReapedAt
                    || crate::model::value(updated, other) == crate::model::value(was, other)
            }
            &&& !selected ==> updated == was
        }),
{
    broadcast use {group_rows, group_filters};
}

} // verus!
