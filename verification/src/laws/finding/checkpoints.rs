//! What is found of what was written: checkpoints.

use crate::laws::finding::group_queries;
use crate::laws::rows::group_rows;
use crate::model::{Database, Row};
use crate::plan::Moment;
use crate::projections::checkpoints::{
    CheckpointPersisted, CheckpointRecorded, CheckpointStrategySet,
};
use crate::read::checkpoints::{CheckpointRow, CheckpointStrategyRow, F65CheckpointRow};
use crate::schema::Column;
use vstd::prelude::*;

verus! {

/// The row that a `CheckpointRecorded` event leaves is found by the queries for what it names.
pub proof fn checkpoint_recorded_is_found(
    e: CheckpointRecorded,
    at: Moment,
    db: Database,
    later: Database,
    limit: usize,
)
    requires
        e.writes(at) is Writes,
        e.writes(at).statements().len() > 0,
    ensures
        ({
            let s = e.writes(at).statements().last();
            let row = crate::laws::rows::left_by(db, s, None);
            &&& CheckpointRow::spec_get(e.checkpoint_id@).finds(later, s.table(), row)
            &&& CheckpointRow::spec_list_by_run(e.run_id@, limit).finds(later, s.table(), row)
        }),
{
    broadcast use {group_queries, group_rows};
}

/// The row that a `CheckpointStrategySet` event leaves is found by the query for what it names.
pub proof fn checkpoint_strategy_set_is_found(
    e: CheckpointStrategySet,
    at: Moment,
    db: Database,
    was: Option<Row>,
    later: Database,
)
    requires
        e.writes(at) is Writes,
        e.writes(at).statements().len() > 0,
        was is Some ==> crate::laws::rows::replaces(
            db,
            e.writes(at).statements()[0],
            was->Some_0,
        ),
    ensures
        ({
            let s = e.writes(at).statements()[0];
            let row = crate::laws::rows::left_by(db, s, was);
            &&& CheckpointStrategyRow::spec_get_by_run(
                e.run_id->Some_0@,
            ).finds(later, s.table(), row)
        }),
{
    broadcast use {group_queries, group_rows};

    let key = e.writes(at).statements()[0]->Insert_conflict->Merge_key;
    assert(key[0] == Column::RunId);
}

/// The row that a `CheckpointPersisted` event leaves is found by the queries for what it names.
pub proof fn checkpoint_persisted_is_found(
    e: CheckpointPersisted,
    at: Moment,
    db: Database,
    was: Option<Row>,
    later: Database,
)
    requires
        e.writes(at) is Writes,
        e.writes(at).statements().len() > 0,
        was is Some ==> crate::laws::rows::replaces(
            db,
            e.writes(at).statements()[0],
            was->Some_0,
        ),
    ensures
        ({
            let s = e.writes(at).statements()[0];
            let row = crate::laws::rows::left_by(db, s, was);
            &&& was is None ==> F65CheckpointRow::spec_get_f65(
                e.project@,
                e.checkpoint_id@,
            ).finds(later, s.table(), row)
            &&& was is None ==> F65CheckpointRow::spec_list_by_session(
                e.project@,
                e.session_id@,
            ).finds(later, s.table(), row)
        }),
{
    broadcast use {group_queries, group_rows};

    let key = e.writes(at).statements()[0]->Insert_conflict->Merge_key;
    assert(key[0] == Column::CheckpointId);
}

} // verus!
