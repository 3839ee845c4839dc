//! What is read back of what was written: checkpoints.

use crate::domain::DomainNames;
use crate::laws::rows::group_rows;
use crate::model::{Database, Row};
use crate::plan::Moment;
use crate::projections::checkpoints::{
    CheckpointPersisted, CheckpointRecorded, CheckpointStrategySet,
};
use crate::read::StoredRow;
use crate::read::checkpoints::{
    CheckpointRecord, CheckpointRow, CheckpointStrategy, CheckpointStrategyRow,
    F65CheckpointRecord, F65CheckpointRow,
};
use crate::schema::Column;
use vstd::prelude::*;

verus! {

/// The record that is read back after a `CheckpointRecorded` event holds what the event says.
pub proof fn checkpoint_recorded_is_read_back(
    e: CheckpointRecorded,
    at: Moment,
    db: Database,
    row: CheckpointRow,
    names: DomainNames,
    record: CheckpointRecord,
)
    requires
        e.writes(at) is Writes,
        e.writes(at).statements().len() > 0,
        row.is_of(crate::laws::rows::left_by(db, e.writes(at).statements().last(), None)),
        row.holds(&names, &record),
    ensures
        record.checkpoint_id@ == e.checkpoint_id@,
        record.project@ == e.project@,
        record.run_id@ == e.run_id@,
        record.disposition@ == e.disposition.spec_name(),
        record.version == 1,
        record.created_at == at.now as u64,
        names.checkpoint_dispositions.deep_view().contains(e.disposition.spec_name())
            ==> row.fault(&names) is None,
        record.data is None,
{
    broadcast use group_rows;
}

/// The record that is read back after a `CheckpointStrategySet` event holds what the event
/// says.
pub proof fn checkpoint_strategy_set_is_read_back(
    e: CheckpointStrategySet,
    at: Moment,
    db: Database,
    was: Option<Row>,
    row: CheckpointStrategyRow,
    names: DomainNames,
    record: CheckpointStrategy,
)
    requires
        e.writes(at) is Writes,
        e.writes(at).statements().len() > 0,
        was is Some ==> crate::laws::rows::replaces(
            db,
            e.writes(at).statements()[0],
            was->Some_0,
        ),
        row.is_of(crate::laws::rows::left_by(db, e.writes(at).statements()[0], was)),
        row.holds(&names, &record),
    ensures
        record.strategy_id@ == e.strategy_id@,
        e.interval_ms <= i64::MAX ==> record.interval_ms == e.interval_ms,
        record.trigger_on_task_complete == e.trigger_on_task_complete,
        record.max_checkpoints == e.kept(),
        record.project@ == crate::read::checkpoints::sentinel_project(),
        record.run_id@ == row.run_id@,
{
    broadcast use group_rows;

    let key = e.writes(at).statements()[0]->Insert_conflict->Merge_key;
    assert(key[0] == Column::RunId);
}

/// The record that is read back after a `CheckpointPersisted` event holds what the event says.
pub proof fn checkpoint_persisted_is_read_back(
    e: CheckpointPersisted,
    at: Moment,
    db: Database,
    was: Option<Row>,
    before: F65CheckpointRow,
    row: F65CheckpointRow,
    names: DomainNames,
    old: F65CheckpointRecord,
    record: F65CheckpointRecord,
)
    requires
        e.writes(at) is Writes,
        e.writes(at).statements().len() > 0,
        was is Some ==> crate::laws::rows::replaces(
            db,
            e.writes(at).statements()[0],
            was->Some_0,
        ),
        was is Some ==> before.is_of(was->Some_0) && before.holds(&names, &old),
        row.is_of(crate::laws::rows::left_by(db, e.writes(at).statements()[0], was)),
        row.holds(&names, &record),
    ensures
        record.checkpoint_id@ == e.checkpoint_id@,
        was is None ==> record.project@ == e.project@,
        record.session_id@ == e.session_id@,
        was is None ==> (record.root_run_id@ == e.root_run_id@),
        was is None ==> (e.at_ms <= i64::MAX ==> record.created_at == e.at_ms),
        record.iteration == e.iteration,
        was is Some ==> record.project@ == old.project@,
        was is Some ==> record.root_run_id@ == old.root_run_id@,
        was is Some ==> record.body@ == old.body@,
        was is Some ==> record.body_size_bytes == old.body_size_bytes,
        was is Some ==> record.created_at == old.created_at,
        record.schema_version == 1,
        was is None ==> record.body@ == ""@,
        was is None ==> record.body_size_bytes == 0,
{
    broadcast use group_rows;

    let key = e.writes(at).statements()[0]->Insert_conflict->Merge_key;
    assert(key[0] == Column::CheckpointId);
}

/// The checkpoint that is read back, as any other, after a `CheckpointPersisted` event holds what
/// the event says.
pub proof fn persisted_checkpoint_is_read_back(
    e: CheckpointPersisted,
    at: Moment,
    db: Database,
    row: CheckpointRow,
    names: DomainNames,
    record: CheckpointRecord,
)
    requires
        e.writes(at) is Writes,
        e.writes(at).statements().len() > 0,
        row.is_of(crate::laws::rows::left_by(db, e.writes(at).statements()[0], None)),
        row.holds(&names, &record),
    ensures
        record.checkpoint_id@ == e.checkpoint_id@,
        record.project@ == e.project@,
        record.run_id@ == e.root_run_id@,
        record.data is None,
        record.disposition@ == "latest"@,
        record.version == 1,
        record.created_at == e.at_ms,
{
    broadcast use group_rows;
}

} // verus!
