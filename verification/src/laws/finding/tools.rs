//! What is found of what was written: tools.

use crate::laws::finding::group_queries;
use crate::laws::rows::group_rows;
use crate::model::{Database, Row};
use crate::plan::{Found, Moment};
use crate::projections::tools::{
    ToolInvocationProgressUpdated, ToolInvocationStarted, ToolRecoveryPaused,
};
use crate::read::tools::{ToolInvocationProgressRow, ToolInvocationRow, ToolRecoveryPauseRow};
use crate::schema::Column;
use vstd::prelude::*;

verus! {

/// The row that a `ToolInvocationStarted` event leaves is found by the queries for what it names.
pub proof fn tool_invocation_started_is_found(
    e: ToolInvocationStarted,
    at: Moment,
    db: Database,
    later: Database,
    limit: usize,
    offset: usize,
)
    requires
        e.writes(at) is Writes,
        e.writes(at).statements().len() > 0,
    ensures
        ({
            let s = e.writes(at).statements()[0];
            let row = crate::laws::rows::left_by(db, s, None);
            &&& ToolInvocationRow::spec_get(e.invocation_id@).finds(later, s.table(), row)
            &&& e.run_id is Some ==> ToolInvocationRow::spec_list_by_run(
                e.run_id->Some_0@,
                limit,
                offset,
            ).finds(later, s.table(), row)
        }),
{
    broadcast use {group_queries, group_rows};
}

/// The row that a `ToolRecoveryPaused` event leaves is found by the queries for what it names.
pub proof fn tool_recovery_paused_is_found(
    e: ToolRecoveryPaused,
    at: Moment,
    db: Database,
    later: Database,
)
    requires
        e.writes(at) is Writes,
        e.writes(at).statements().len() > 0,
    ensures
        ({
            let s = e.writes(at).statements()[0];
            let row = crate::laws::rows::left_by(db, s, None);
            &&& ToolRecoveryPauseRow::spec_get(e.tool_call_id@).finds(later, s.table(), row)
            &&& ToolRecoveryPauseRow::spec_list_by_run(e.run_id@).finds(later, s.table(), row)
        }),
{
    broadcast use {group_queries, group_rows};
}

/// The row that a `ToolInvocationProgressUpdated` event leaves is found by
/// the query for what it names.
pub proof fn tool_invocation_progress_updated_is_found(
    e: ToolInvocationProgressUpdated,
    at: Moment,
    found: Found,
    db: Database,
    was: Option<Row>,
    later: Database,
)
    requires
        e.writes(at, found) is Writes,
        e.writes(at, found).statements().len() > 0,
        was is Some ==> crate::laws::rows::replaces(
            db,
            e.writes(at, found).statements()[0],
            was->Some_0,
        ),
    ensures
        ({
            let s = e.writes(at, found).statements()[0];
            let row = crate::laws::rows::left_by(db, s, was);
            &&& ToolInvocationProgressRow::spec_get(e.invocation_id@).finds(later, s.table(), row)
        }),
{
    broadcast use {group_queries, group_rows};

    let key = e.writes(at, found).statements()[0]->Insert_conflict->Merge_key;
    assert(key[0] == Column::InvocationId);
}

} // verus!
