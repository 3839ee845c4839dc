//! What is found of what was written: knowledge.

use crate::laws::finding::group_queries;
use crate::laws::rows::group_rows;
use crate::model::{Database, Row};
use crate::plan::Moment;
use crate::projections::knowledge::{IngestJobStarted, SoulPatchApplied, SoulPatchProposed};
use crate::read::knowledge::{IngestJobRow, SoulPatchRow};
use crate::schema::Column;
use vstd::prelude::*;

verus! {

/// The row that a `SoulPatchProposed` event leaves is found by the queries for what it names.
pub proof fn soul_patch_proposed_is_found(
    e: SoulPatchProposed,
    at: Moment,
    db: Database,
    later: Database,
    limit: usize,
    offset: usize,
)
    requires
        e.writes(at) is Writes,
        e.writes(at).statements().len() > 0,
    ensures
        ({
            let s = e.writes(at).statements()[0];
            let row = crate::laws::rows::left_by(db, s, None);
            &&& SoulPatchRow::spec_get(e.patch_id@).finds(later, s.table(), row)
            &&& SoulPatchRow::spec_list_by_project(
                e.project@,
                limit,
                offset,
            ).finds(later, s.table(), row)
        }),
{
    broadcast use {group_queries, group_rows};
}

/// The row that a `SoulPatchApplied` event leaves is found by the queries for what it names.
pub proof fn soul_patch_applied_is_found(
    e: SoulPatchApplied,
    at: Moment,
    db: Database,
    was: Option<Row>,
    later: Database,
    limit: usize,
    offset: usize,
)
    requires
        e.writes(at) is Writes,
        e.writes(at).statements().len() > 0,
        was is Some ==> crate::laws::rows::replaces(
            db,
            e.writes(at).statements()[0],
            was->Some_0,
        ),
    ensures
        ({
            let s = e.writes(at).statements()[0];
            let row = crate::laws::rows::left_by(db, s, was);
            &&& SoulPatchRow::spec_get(e.patch_id@).finds(later, s.table(), row)
            &&& was is None ==> SoulPatchRow::spec_list_by_project(
                e.project@,
                limit,
                offset,
            ).finds(later, s.table(), row)
        }),
{
    broadcast use {group_queries, group_rows};

    let key = e.writes(at).statements()[0]->Insert_conflict->Merge_key;
    assert(key[0] == Column::PatchId);
}

/// The row that a `IngestJobStarted` event leaves is found by the queries for what it names.
pub proof fn ingest_job_started_is_found(
    e: IngestJobStarted,
    at: Moment,
    db: Database,
    later: Database,
    limit: usize,
    offset: usize,
)
    requires
        e.writes(at) is Writes,
        e.writes(at).statements().len() > 0,
    ensures
        ({
            let s = e.writes(at).statements()[0];
            let row = crate::laws::rows::left_by(db, s, None);
            &&& IngestJobRow::spec_get(e.job_id@).finds(later, s.table(), row)
            &&& IngestJobRow::spec_list_by_project(
                e.project@,
                limit,
                offset,
            ).finds(later, s.table(), row)
        }),
{
    broadcast use {group_queries, group_rows};
}

} // verus!
