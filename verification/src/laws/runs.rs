//! What holds of runs.

use crate::domain::ProjectView;
use crate::laws::rows::{group_filters, group_rows};
use crate::model::{Database, Datum, Row};
use crate::plan::{Found, Moment};
use crate::projections::runs::{
    RunCompletionAnnotated, RunCreated, RunStateChanged, TerminalRecoveryAttempted,
};
use crate::projections::tasks::TaskCreated;
use crate::schema::{Column, Table};
use vstd::prelude::*;

verus! {

/// Whether a row is that of a run of a project.
pub open spec fn is_run_of(row: Row, run_id: Seq<char>, project: ProjectView) -> bool {
    &&& crate::model::value(row, Column::RunId) == Datum::Text(run_id)
    &&& crate::model::value(row, Column::TenantId) == Datum::Text(project.tenant_id)
    &&& crate::model::value(row, Column::WorkspaceId) == Datum::Text(project.workspace_id)
    &&& crate::model::value(row, Column::ProjectId) == Datum::Text(project.project_id)
}

/// A change of a run that is stored under another project changes nothing.
pub proof fn a_change_by_another_project_changes_nothing(
    e: RunStateChanged,
    at: Moment,
    found: Found,
    db: Database,
)
    requires
        e.is_foreign(found),
    ensures
        crate::model::after_all(db, e.writes(at, found).statements()) == db,
{
}

/// The change of a run leaves the runs of other projects, and other runs, as
/// they are, whatever was looked up.
pub proof fn a_change_leaves_other_runs(e: RunStateChanged, at: Moment, db: Database, was: Row)
    requires
        !is_run_of(was, e.run_id@, e.project@),
    ensures
        crate::laws::rows::updated_by(db, e.run_update(at), was) == was,
{
    broadcast use {group_filters, group_rows};
}

/// The run that an event names gets the event's state and its failure class, and
/// its version is one more.
pub proof fn a_change_moves_its_run(e: RunStateChanged, at: Moment, db: Database, was: Row)
    requires
        is_run_of(was, e.run_id@, e.project@),
        crate::model::value(was, Column::Version) is Int,
    ensures
        ({
            let now = crate::laws::rows::updated_by(db, e.run_update(at), was);
            &&& crate::model::value(now, Column::State) == Datum::Text(e.to@)
            &&& crate::model::value(now, Column::FailureClass) == Datum::opt_text(e.failure_class)
            &&& crate::model::value(now, Column::Version) == Datum::Int(
                crate::model::value(was, Column::Version)->Int_0 + 1,
            )
            &&& crate::model::value(now, Column::UpdatedAt) == Datum::Int(at.now as int)
        }),
{
    broadcast use {group_filters, group_rows};
}

/// The summary of a run and a recovery of its end leave the runs of other
/// projects, and other runs, as they are. The summary leaves a run of another
/// session too.
pub proof fn annotations_leave_other_runs(
    annotated: RunCompletionAnnotated,
    recovered: TerminalRecoveryAttempted,
    at: Moment,
    db: Database,
    was: Row,
)
    ensures
        annotated.writes(at) is Writes && (!is_run_of(
            was,
            annotated.run_id@,
            annotated.project@,
        ) || crate::model::value(was, Column::SessionId) != Datum::Text(annotated.session_id@))
            ==> crate::laws::rows::updated_by(db, annotated.writes(at).statements()[0], was)
            == was,
        !is_run_of(was, recovered.run_id@, recovered.project@) ==> crate::laws::rows::updated_by(
            db,
            recovered.writes(at).statements()[0],
            was,
        ) == was,
{
    broadcast use {group_filters, group_rows};

}

/// What is entered in the pause schedule does not depend on when an event is
/// projected, only on when it was stored.
pub proof fn a_pause_is_the_same_on_every_replay(e: RunStateChanged, at: Moment, later: Moment)
    requires
        at.event_time_ms == later.event_time_ms,
    ensures
        e.schedule_update(at) == e.schedule_update(later),
{
}

/// The last statement of a change of a run decides on the pause schedule.
proof fn the_schedule_comes_last(
    e: RunStateChanged,
    at: Moment,
    found: Found,
    db: Database,
) -> (before: Database)
    requires
        !e.is_foreign(found),
        e.schedule_update(at).len() > 0,
    ensures
        crate::model::after_all(db, e.writes(at, found).statements()) == crate::model::after(
            before,
            e.schedule_update(at)[0],
        ),
        before.rows(Table::PauseSchedules) == db.rows(Table::PauseSchedules),
{
    let first = seq![e.run_update(at)];
    let two = first + e.root_update(at);
    let all = two + e.schedule_update(at);
    assert(all.drop_last() =~= two);
    reveal_with_fuel(crate::model::after_all, 3);
    assert(first.drop_last() =~= Seq::empty());
    if e.root_update(at).len() > 0 {
        assert(two.drop_last() =~= first);
    } else {
        assert(two =~= first);
    }
    crate::model::after_all(db, two)
}

/// After a change to another state than paused, the run has no entry in the
/// pause schedule.
pub proof fn leaving_the_pause_removes_its_entry(
    e: RunStateChanged,
    at: Moment,
    found: Found,
    db: Database,
    row: Row,
)
    requires
        !e.is_foreign(found),
        e.to@ != "paused"@,
        crate::model::after_all(db, e.writes(at, found).statements()).rows(
            Table::PauseSchedules,
        ).contains(row),
    ensures
        crate::model::value(row, Column::RunId) != Datum::Text(e.run_id@),
        db.rows(Table::PauseSchedules).contains(row),
{
    broadcast use group_filters;

    let before = the_schedule_comes_last(e, at, found, db);
    crate::laws::rows::a_delete_leaves_no_row_that_it_selects(
        before,
        e.schedule_update(at)[0],
        row,
    );
}

/// A run that ends is counted off at its root, where it has a parent, and the
/// counts of all other runs stay.
pub proof fn an_end_is_counted_off_at_the_root(
    e: RunStateChanged,
    at: Moment,
    db: Database,
    was: Row,
)
    requires
        crate::projections::runs::is_terminal_run_state(e.to@),
        crate::model::value(was, Column::InFlightDescendants) is Int,
    ensures
        e.root_update(at).len() == 1,
        ({
            let now = crate::laws::rows::updated_by(db, e.root_update(at)[0], was);
            let root = crate::model::of_run(db, e.run_id@, Column::RootRunId);
            let count = crate::model::value(was, Column::InFlightDescendants)->Int_0;
            if crate::model::of_run(db, e.run_id@, Column::ParentRunId) != Datum::Null && root
                != Datum::Null && crate::model::value(was, Column::RunId) == root {
                crate::model::value(now, Column::InFlightDescendants) == Datum::Int(count - 1)
            } else {
                now == was
            }
        }),
{
    broadcast use {group_filters, group_rows};
}

/// A run that does not end leaves the counts of all runs.
pub proof fn only_an_end_is_counted_off(e: RunStateChanged, at: Moment)
    requires
        !crate::projections::runs::is_terminal_run_state(e.to@),
    ensures
        e.root_update(at).len() == 0,
{
}

/// An increment of a counter stays within the cap and is by one, as is that of
/// the version, and it leaves a run whose counter is at the cap.
pub proof fn an_increment_stays_within_the_cap(
    root_run_id: Seq<char>,
    cap: i64,
    now: i64,
    db: Database,
    was: Row,
)
    requires
        crate::model::value(was, Column::RunId) == Datum::Text(root_run_id),
        crate::model::value(was, Column::InFlightDescendants) is Int,
    ensures
        ({
            let after = crate::laws::rows::updated_by(
                db,
                crate::read::runs::increment(root_run_id, cap, now),
                was,
            );
            let count = crate::model::value(was, Column::InFlightDescendants)->Int_0;
            if count < cap {
                &&& crate::model::value(after, Column::InFlightDescendants) == Datum::Int(count + 1)
                &&& count + 1 <= cap
                &&& crate::model::value(was, Column::Version) is Int ==> crate::model::value(
                    after,
                    Column::Version,
                ) == Datum::Int(crate::model::value(was, Column::Version)->Int_0 + 1)
                &&& crate::model::value(after, Column::UpdatedAt) == Datum::Int(now as int)
            } else {
                after == was
            }
        }),
{
    broadcast use {group_filters, group_rows};
}

/// A decrement takes back what an increment below the cap added.
pub proof fn a_decrement_takes_back_an_increment(
    root_run_id: Seq<char>,
    cap: i64,
    now: i64,
    later: i64,
    db: Database,
    was: Row,
)
    requires
        crate::model::value(was, Column::RunId) == Datum::Text(root_run_id),
        crate::model::value(was, Column::InFlightDescendants) is Int,
        crate::model::value(was, Column::InFlightDescendants)->Int_0 < cap,
    ensures
        crate::model::value(
            crate::laws::rows::updated_by(
                db,
                crate::read::runs::decrement(root_run_id, later),
                crate::laws::rows::updated_by(
                    db,
                    crate::read::runs::increment(root_run_id, cap, now),
                    was,
                ),
            ),
            Column::InFlightDescendants,
        ) == crate::model::value(was, Column::InFlightDescendants),
{
    broadcast use {group_filters, group_rows};
}

/// A run without a parent is its own root, and a run with a stored parent has
/// the parent's root.
pub proof fn a_run_has_its_parents_root(e: RunCreated, at: Moment, db: Database)
    ensures
        crate::model::value(
            crate::laws::rows::offered_by(db, e.writes(at).statements()[0]),
            Column::RootRunId,
        ) == match e.parent_run_id {
            None => Datum::Text(e.run_id@),
            Some(parent) => crate::model::of_run(db, parent@, Column::RootRunId),
        },
{
    broadcast use group_rows;
}

/// A task without a session of its own has the session of its parent run.
pub proof fn a_task_has_the_session_of_its_run(e: TaskCreated, at: Moment, db: Database)
    requires
        e.writes(at).statements().len() > 0,
    ensures
        crate::model::value(
            crate::laws::rows::offered_by(db, e.writes(at).statements()[0]),
            Column::SessionId,
        ) == match (e.session_id, e.parent_run_id) {
            (Some(s), _) => Datum::Text(s@),
            (None, Some(run)) => crate::model::of_run(db, run@, Column::SessionId),
            (None, None) => Datum::Null,
        },
{
    broadcast use group_rows;
}

/// A decrement of a counter is by one, and the version of its run is one more;
/// the runs under other ids stay as they are.
pub proof fn a_decrement_counts_one_off(root_run_id: Seq<char>, now: i64, db: Database, was: Row)
    requires
        crate::model::value(was, Column::InFlightDescendants) is Int,
        crate::model::value(was, Column::Version) is Int,
    ensures
        ({
            let after = crate::laws::rows::updated_by(
                db,
                crate::read::runs::decrement(root_run_id, now),
                was,
            );
            if crate::model::value(was, Column::RunId) == Datum::Text(root_run_id) {
                &&& crate::model::value(after, Column::InFlightDescendants) == Datum::Int(
                    crate::model::value(was, Column::InFlightDescendants)->Int_0 - 1,
                )
                &&& crate::model::value(after, Column::Version) == Datum::Int(
                    crate::model::value(was, Column::Version)->Int_0 + 1,
                )
                &&& crate::model::value(after, Column::UpdatedAt) == Datum::Int(now as int)
            } else {
                after == was
            }
        }),
{
    broadcast use {group_filters, group_rows};
}

} // verus!
