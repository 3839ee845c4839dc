//! What is read back of what was written: sessions.

use crate::domain::DomainNames;
use crate::laws::rows::group_rows;
use crate::model::{Database, Datum, Row};
use crate::plan::Moment;
use crate::projections::checkpoints::{WorkspaceSnapshotCreated, WorkspaceSnapshotReaped};
use crate::projections::sessions::{
    SessionAttemptStarted, SessionCreated, SessionOutcomeEmitted, SessionStateChanged,
};
use crate::read::StoredRow;
use crate::read::sessions::{
    SessionOutcomeRecord, SessionOutcomeRow, SessionRecord, SessionRow, WorkspaceSnapshotRecord,
    WorkspaceSnapshotRow,
};
use crate::schema::{Column, Table};
use vstd::prelude::*;

verus! {

/// The record that is read back after a `SessionCreated` event holds what the event says.
pub proof fn session_created_is_read_back(
    e: SessionCreated,
    at: Moment,
    db: Database,
    row: SessionRow,
    names: DomainNames,
    record: SessionRecord,
)
    requires
        e.writes(at) is Writes,
        e.writes(at).statements().len() > 0,
        row.is_of(crate::laws::rows::left_by(db, e.writes(at).statements()[0], None)),
        row.holds(&names, &record),
    ensures
        record.session_id@ == e.session_id@,
        record.project@ == e.project@,
        record.state@ == "open"@,
        record.version == 1,
        record.created_at == at.now as u64,
        record.updated_at == at.now as u64,
        names.session_states.deep_view().contains("open"@) ==> row.fault(&names) is None,
        db.default_of(Table::Sessions, Column::GoalTitle) == Datum::Null
            ==> record.goal_title is None,
        db.default_of(Table::Sessions, Column::WallClockMsCap) == Datum::Null
            && db.default_of(Table::Sessions, Column::TokenCap) == Datum::Null
            && db.default_of(Table::Sessions, Column::CostUsdCap) == Datum::Null
            ==> record.issue_budget is None,
        db.default_of(Table::Sessions, Column::MaxAttempts) == Datum::Int(row.max_attempts as int),
        record.max_attempts == crate::read::floor4(row.max_attempts),
        db.default_of(Table::Sessions, Column::AttemptsUsed) == Datum::Int(
            row.attempts_used as int,
        ),
        record.attempts_used == crate::read::floor4(row.attempts_used),
{
    broadcast use group_rows;
}

/// The record that is read back after a `WorkspaceSnapshotCreated` event holds what the event
/// says.
pub proof fn workspace_snapshot_created_is_read_back(
    e: WorkspaceSnapshotCreated,
    at: Moment,
    db: Database,
    row: WorkspaceSnapshotRow,
    names: DomainNames,
    record: WorkspaceSnapshotRecord,
)
    requires
        e.writes(at) is Writes,
        e.writes(at).statements().len() > 0,
        row.is_of(crate::laws::rows::left_by(db, e.writes(at).statements()[0], None)),
        row.holds(&names, &record),
    ensures
        record.snapshot_id@ == e.snapshot_id@,
        record.project@ == e.project@,
        record.session_id@ == e.session_id@,
        record.workspace_id@ == e.workspace_id@,
        record.parent_snapshot_id.deep_view() == e.parent_snapshot_id.deep_view(),
        record.snapshot_path@ == ""@,
        e.bytes <= i64::MAX ==> record.bytes == e.bytes,
        record.reflink_used == e.reflink_used,
        e.at_ms <= i64::MAX ==> record.created_at == e.at_ms,
        db.default_of(Table::WorkspaceSnapshots, Column::ReapedAt) == Datum::Null
            ==> record.reaped_at is None,
{
    broadcast use group_rows;
}

/// The record that is read back after a `SessionOutcomeEmitted` event holds what the event
/// says.
pub proof fn session_outcome_emitted_is_read_back(
    e: SessionOutcomeEmitted,
    at: Moment,
    db: Database,
    was: Option<Row>,
    before: SessionOutcomeRow,
    row: SessionOutcomeRow,
    names: DomainNames,
    old: SessionOutcomeRecord,
    record: SessionOutcomeRecord,
)
    requires
        e.writes(at) is Writes,
        e.writes(at).statements().len() > 0,
        was is Some ==> crate::laws::rows::replaces(
            db,
            e.writes(at).statements()[0],
            was->Some_0,
        ),
        was is Some ==> before.is_of(was->Some_0) && before.holds(&names, &old),
        row.is_of(crate::laws::rows::left_by(db, e.writes(at).statements()[0], was)),
        row.holds(&names, &record),
    ensures
        record.root_run_id@ == e.root_run_id@,
        was is None ==> record.project@ == e.project@,
        was is None ==> (record.session_id@ == e.session_id@),
        was is None ==> (record.checkpoint_id@ == e.checkpoint_id@),
        record.workspace_snapshot_id.deep_view() == e.workspace_snapshot_id.deep_view(),
        record.compacted_summary@ == e.compacted_summary@,
        record.next_step_hint.deep_view() == e.next_step_hint.deep_view(),
        e.cost_micros <= i64::MAX ==> record.cost_micros == e.cost_micros,
        was is None ==> (e.emitted_at <= i64::MAX ==> record.created_at == e.emitted_at),
        was is Some ==> record.project@ == old.project@,
        was is Some ==> record.session_id@ == old.session_id@,
        was is Some ==> record.checkpoint_id@ == old.checkpoint_id@,
        was is Some ==> record.created_at == old.created_at,
        row.termination_reason@ == e.termination_reason@,
        row.reason == Ok::<String, crate::error::StoreError>(record.termination_reason),
{
    broadcast use group_rows;

    let key = e.writes(at).statements()[0]->Insert_conflict->Merge_key;
    assert(key[0] == Column::RootRunId);
}

/// The record that is read back of a row that a `SessionStateChanged` event changes holds what
/// the event says.
pub proof fn session_state_changed_is_read_back(
    e: SessionStateChanged,
    at: Moment,
    db: Database,
    was: Row,
    before: SessionRow,
    row: SessionRow,
    names: DomainNames,
    old: SessionRecord,
    record: SessionRecord,
)
    requires
        e.writes(at) is Writes,
        e.writes(at).statements().len() > 0,
        crate::model::passes_all(db, was, e.writes(at).statements()[0]->Update_filter),
        before.is_of(was),
        row.is_of(crate::laws::rows::updated_by(db, e.writes(at).statements()[0], was)),
        before.holds(&names, &old),
        row.holds(&names, &record),
    ensures
        record.state@ == e.to@,
        record.updated_at == at.now as u64,
        record.session_id@ == old.session_id@,
        record.project@ == old.project@,
        0 <= before.version ==> record.version == old.version + 1,
        record.created_at == old.created_at,
        record.goal_title.deep_view() == old.goal_title.deep_view(),
        record.max_attempts == old.max_attempts,
        record.attempts_used == old.attempts_used,
        row.cost_cap_micros == before.cost_cap_micros ==> record.issue_budget == old.issue_budget,
{
    broadcast use group_rows;
}

/// The record that is read back of a row that a `SessionAttemptStarted` event changes holds
/// what the event says.
pub proof fn session_attempt_started_is_read_back(
    e: SessionAttemptStarted,
    at: Moment,
    db: Database,
    was: Row,
    before: SessionRow,
    row: SessionRow,
    names: DomainNames,
    old: SessionRecord,
    record: SessionRecord,
)
    requires
        e.writes(at) is Writes,
        e.writes(at).statements().len() > 0,
        crate::model::passes_all(db, was, e.writes(at).statements()[0]->Update_filter),
        before.is_of(was),
        row.is_of(crate::laws::rows::updated_by(db, e.writes(at).statements()[0], was)),
        before.holds(&names, &old),
        row.holds(&names, &record),
    ensures
        record.updated_at == at.now as u64,
        record.session_id@ == old.session_id@,
        record.project@ == old.project@,
        record.state@ == old.state@,
        0 <= before.version ==> record.version == old.version + 1,
        record.created_at == old.created_at,
        record.goal_title.deep_view() == old.goal_title.deep_view(),
        record.attempts_used == if old.attempts_used >= e.attempt_number {
            old.attempts_used
        } else {
            e.attempt_number
        },
        record.max_attempts == if old.max_attempts >= e.max_attempts {
            old.max_attempts
        } else {
            e.max_attempts
        },
        row.cost_cap_micros == before.cost_cap_micros ==> record.issue_budget == old.issue_budget,
{
    broadcast use group_rows;
}

/// The record that is read back of a row that a `WorkspaceSnapshotReaped` event changes holds
/// what the event says.
pub proof fn workspace_snapshot_reaped_is_read_back(
    e: WorkspaceSnapshotReaped,
    at: Moment,
    db: Database,
    was: Row,
    before: WorkspaceSnapshotRow,
    row: WorkspaceSnapshotRow,
    names: DomainNames,
    old: WorkspaceSnapshotRecord,
    record: WorkspaceSnapshotRecord,
)
    requires
        e.writes(at) is Writes,
        e.writes(at).statements().len() > 0,
        crate::model::passes_all(db, was, e.writes(at).statements()[0]->Update_filter),
        before.is_of(was),
        row.is_of(crate::laws::rows::updated_by(db, e.writes(at).statements()[0], was)),
        before.holds(&names, &old),
        row.holds(&names, &record),
    ensures
        e.at_ms <= i64::MAX ==> record.reaped_at == Some(e.at_ms),
        record.snapshot_id@ == old.snapshot_id@,
        record.project@ == old.project@,
        record.session_id@ == old.session_id@,
        record.workspace_id@ == old.workspace_id@,
        record.parent_snapshot_id.deep_view() == old.parent_snapshot_id.deep_view(),
        record.snapshot_path@ == old.snapshot_path@,
        record.bytes == old.bytes,
        record.reflink_used == old.reflink_used,
        record.created_at == old.created_at,
{
    broadcast use group_rows;
}

/// The snapshot that is read back once it was stamped holds what was stamped, and is otherwise as
/// it was.
pub proof fn a_stamped_snapshot_is_read_back(
    snapshot_id: Seq<char>,
    snapshot_path: Seq<char>,
    bytes: i64,
    reflink_used: bool,
    parent_snapshot_id: Option<String>,
    db: Database,
    was: Row,
    before: WorkspaceSnapshotRow,
    row: WorkspaceSnapshotRow,
    names: DomainNames,
    old: WorkspaceSnapshotRecord,
    record: WorkspaceSnapshotRecord,
)
    requires
        0 <= bytes,
        before.snapshot_id@ == snapshot_id,
        before.is_of(was),
        row.is_of(
            crate::laws::rows::updated_by(
                db,
                crate::read::sessions::stamped(
                    snapshot_id,
                    snapshot_path,
                    bytes,
                    reflink_used,
                    parent_snapshot_id,
                ),
                was,
            ),
        ),
        before.holds(&names, &old),
        row.holds(&names, &record),
    ensures
        record.snapshot_path@ == snapshot_path,
        record.bytes == bytes,
        record.reflink_used == reflink_used,
        record.parent_snapshot_id.deep_view() == parent_snapshot_id.deep_view(),
        record.snapshot_id@ == old.snapshot_id@,
        record.project@ == old.project@,
        record.session_id@ == old.session_id@,
        record.workspace_id@ == old.workspace_id@,
        record.created_at == old.created_at,
        record.reaped_at == old.reaped_at,
{
    broadcast use {crate::laws::rows::group_filters, group_rows};
}

} // verus!
