//! What is found of what was written: sessions.

use crate::laws::finding::group_queries;
use crate::laws::rows::group_rows;
use crate::model::{Database, Row};
use crate::plan::Moment;
use crate::projections::checkpoints::WorkspaceSnapshotCreated;
use crate::projections::sessions::{SessionCreated, SessionOutcomeEmitted};
use crate::read::sessions::{SessionOutcomeRow, SessionRow, WorkspaceSnapshotRow};
use crate::schema::Column;
use vstd::prelude::*;

verus! {

/// The row that a `SessionCreated` event leaves is found by the queries for what it names.
pub proof fn session_created_is_found(
    e: SessionCreated,
    at: Moment,
    db: Database,
    later: Database,
    limit: usize,
    offset: usize,
)
    requires
        e.writes(at) is Writes,
        e.writes(at).statements().len() > 0,
    ensures
        ({
            let s = e.writes(at).statements()[0];
            let row = crate::laws::rows::left_by(db, s, None);
            &&& SessionRow::spec_get(e.session_id@).finds(later, s.table(), row)
            &&& SessionRow::spec_list_by_project(
                e.project@,
                limit,
                offset,
            ).finds(later, s.table(), row)
        }),
{
    broadcast use {group_queries, group_rows};
}

/// The row that a `WorkspaceSnapshotCreated` event leaves is found by
/// the queries for what it names.
pub proof fn workspace_snapshot_created_is_found(
    e: WorkspaceSnapshotCreated,
    at: Moment,
    db: Database,
    later: Database,
)
    requires
        e.writes(at) is Writes,
        e.writes(at).statements().len() > 0,
    ensures
        ({
            let s = e.writes(at).statements()[0];
            let row = crate::laws::rows::left_by(db, s, None);
            &&& WorkspaceSnapshotRow::spec_get(
                e.project@,
                e.snapshot_id@,
            ).finds(later, s.table(), row)
            &&& WorkspaceSnapshotRow::spec_list_by_session(
                e.project@,
                e.session_id@,
            ).finds(later, s.table(), row)
        }),
{
    broadcast use {group_queries, group_rows};
}

/// The row that a `SessionOutcomeEmitted` event leaves is found by the queries for what it names.
pub proof fn session_outcome_emitted_is_found(
    e: SessionOutcomeEmitted,
    at: Moment,
    db: Database,
    was: Option<Row>,
    later: Database,
)
    requires
        e.writes(at) is Writes,
        e.writes(at).statements().len() > 0,
        was is Some ==> crate::laws::rows::replaces(
            db,
            e.writes(at).statements()[0],
            was->Some_0,
        ),
    ensures
        ({
            let s = e.writes(at).statements()[0];
            let row = crate::laws::rows::left_by(db, s, was);
            &&& was is None ==> SessionOutcomeRow::spec_get_by_root_run(
                e.project@,
                e.root_run_id@,
            ).finds(later, s.table(), row)
            &&& was is None ==> SessionOutcomeRow::spec_list_by_session(
                e.project@,
                e.session_id@,
            ).finds(later, s.table(), row)
        }),
{
    broadcast use {group_queries, group_rows};

    let key = e.writes(at).statements()[0]->Insert_conflict->Merge_key;
    assert(key[0] == Column::RootRunId);
}

} // verus!
