//! What the events store: runs.

use crate::laws::rows::{group_filters, group_rows};
use crate::model::{Database, Datum, Row};
use crate::plan::{Found, Moment, Planned};
use crate::projections::runs::{
    RunCompletionAnnotated, RunCreated, RunStateChanged, SubagentSpawned,
    TerminalRecoveryAttempted,
};
use crate::schema::{Column, Table};
use crate::statement::{ConflictView, GuardView};
use vstd::prelude::*;

verus! {

/// What a [`RunCreated`] event stores.
pub proof fn run_created_is_stored(e: RunCreated, at: Moment, db: Database, was: Row, other: Column)
    ensures
        ({
            let s = e.writes(at).statements()[0];
            let new = crate::laws::rows::left_by(db, s, None);
            &&& e.writes(at) is Writes
            &&& e.writes(at).statements().len() == 1
            &&& s is Insert && s.table() == Table::Runs
            &&& crate::model::value(new, Column::RunId) == Datum::Text(e.run_id@)
            &&& crate::model::value(new, Column::SessionId) == Datum::Text(e.session_id@)
            &&& crate::model::value(new, Column::ParentRunId)
                == crate::laws::storing::optional_text(e.parent_run_id)
            &&& crate::model::value(new, Column::TenantId) == Datum::Text(e.project.tenant_id@)
            &&& crate::model::value(new, Column::WorkspaceId)
                == Datum::Text(e.project.workspace_id@)
            &&& crate::model::value(new, Column::ProjectId) == Datum::Text(e.project.project_id@)
            &&& crate::model::value(new, Column::State) == Datum::Text("pending"@)
            &&& crate::model::value(new, Column::Version) == Datum::Int(1)
            &&& crate::model::value(new, Column::CreatedAt) == Datum::Int(at.now as int)
            &&& crate::model::value(new, Column::UpdatedAt) == Datum::Int(at.now as int)
            &&& crate::model::value(new, Column::RootRunId)
                == (
                    match e.parent_run_id {
                        None => Datum::Text(e.run_id@),
                        Some(parent) => crate::model::of_run(db, parent@, Column::RootRunId),
                    }
                )
            &&& other is RunId || other is SessionId || other is ParentRunId || other is TenantId
                || other is WorkspaceId || other is ProjectId || other is State || other is Version
                || other is CreatedAt || other is UpdatedAt || other is RootRunId
                || crate::model::value(new, other) == db.default_of(Table::Runs, other)
            &&& s->Insert_conflict is Fail
        }),
{
    broadcast use {group_rows, group_filters};
}

/// What a [`SubagentSpawned`] event stores.
pub proof fn subagent_spawned_is_stored(
    e: SubagentSpawned,
    at: Moment,
    db: Database,
    was: Row,
    other: Column,
)
    ensures
        ({
            let s1 = e.writes(at).statements()[0];
            let new1 = crate::laws::rows::left_by(db, s1, None);
            let s2 = e.writes(at).statements()[1];
            let updated2 = crate::laws::rows::updated_by(db, s2, was);
            let selected2 = crate::model::value(was, Column::TaskId)
                == Datum::Text(e.child_task_id@);
            &&& e.writes(at) is Writes
            &&& e.writes(at).statements().len() == 2
            &&& s1 is Insert && s1.table() == Table::SubagentSpawns
            &&& crate::model::value(new1, Column::ChildTaskId) == Datum::Text(e.child_task_id@)
            &&& crate::model::value(new1, Column::TenantId) == Datum::Text(e.project.tenant_id@)
            &&& crate::model::value(new1, Column::WorkspaceId)
                == Datum::Text(e.project.workspace_id@)
            &&& crate::model::value(new1, Column::ProjectId) == Datum::Text(e.project.project_id@)
            &&& crate::model::value(new1, Column::ParentRunId) == Datum::Text(e.parent_run_id@)
            &&& crate::model::value(new1, Column::ParentTaskId)
                == crate::laws::storing::optional_text(e.parent_task_id)
            &&& crate::model::value(new1, Column::ChildSessionId)
                == Datum::Text(e.child_session_id@)
            &&& crate::model::value(new1, Column::ChildRunId)
                == crate::laws::storing::optional_text(e.child_run_id)
            &&& crate::model::value(new1, Column::SpawnedAtMs) == Datum::Int(at.now as int)
            &&& crate::model::value(new1, Column::Goal) == Datum::Text(e.goal@)
            &&& crate::model::value(new1, Column::Role) == Datum::Text(e.role@)
            &&& other is ChildTaskId || other is TenantId || other is WorkspaceId
                || other is ProjectId || other is ParentRunId || other is ParentTaskId
                || other is ChildSessionId || other is ChildRunId || other is SpawnedAtMs
                || other is Goal || other is Role
                || crate::model::value(new1, other) == db.default_of(Table::SubagentSpawns, other)
            &&& s1->Insert_conflict == ConflictView::Ignore(seq![Column::ChildTaskId])
            &&& s2 is Update && s2.table() == Table::Tasks
            &&& selected2 ==> {
                &&& crate::model::value(updated2, Column::ParentRunId)
                    == Datum::Text(e.parent_run_id@)
                &&& crate::model::value(updated2, Column::ParentTaskId)
                    == crate::laws::storing::optional_text(e.parent_task_id)
                &&& crate::model::value(updated2, Column::Version)
                    == crate::model::plus(crate::model::value(was, Column::Version), Datum::Int(1))
                &&& crate::model::value(updated2, Column::UpdatedAt) == Datum::Int(at.now as int)
                &&& other is ParentRunId || other is ParentTaskId || other is Version
                    || other is UpdatedAt
                    || crate::model::value(updated2, other) == crate::model::value(was, other)
            }
            &&& !selected2 ==> updated2 == was
        }),
{
    broadcast use {group_rows, group_filters};
}

/// What a [`RunCompletionAnnotated`] event stores.
pub proof fn run_completion_annotated_is_stored(
    e: RunCompletionAnnotated,
    at: Moment,
    db: Database,
    was: Row,
    other: Column,
)
    ensures
        e.occurred_at_ms > i64::MAX
            ==> e.writes(at)
                == Planned::Refused(
                    crate::laws::storing::too_great(
                        "RunCompletionAnnotated.occurred_at_ms"@,
                        e.occurred_at_ms as nat,
                        "i64::MAX"@,
                    ),
                ),
        e.occurred_at_ms <= i64::MAX ==> ({
            let s = e.writes(at).statements()[0];
            let updated = crate::laws::rows::updated_by(db, s, was);
            let selected = crate::model::value(was, Column::RunId) == Datum::Text(e.run_id@)
                && crate::model::value(was, Column::TenantId) == Datum::Text(e.project.tenant_id@)
                && crate::model::value(was, Column::WorkspaceId)
                    == Datum::Text(e.project.workspace_id@)
                && crate::model::value(was, Column::ProjectId) == Datum::Text(e.project.project_id@)
                && crate::model::value(was, Column::SessionId) == Datum::Text(e.session_id@);
            &&& e.writes(at) is Writes
            &&& e.writes(at).statements().len() == 1
            &&& s is Update && s.table() == Table::Runs
            &&& selected ==> {
                &&& crate::model::value(updated, Column::CompletionSummary)
                    == Datum::Text(e.summary@)
                &&& crate::model::value(updated, Column::CompletionVerificationJson)
                    == Datum::Text(e.verification_json@)
                &&& crate::model::value(updated, Column::CompletionAnnotatedAtMs)
                    == Datum::Int(e.occurred_at_ms as i64 as int)
                &&& crate::model::value(updated, Column::Version)
                    == crate::model::plus(crate::model::value(was, Column::Version), Datum::Int(1))
                &&& crate::model::value(updated, Column::UpdatedAt) == Datum::Int(at.now as int)
                &&& other is CompletionSummary || other is CompletionVerificationJson
                    || other is CompletionAnnotatedAtMs || other is Version || other is UpdatedAt
                    || crate::model::value(updated, other) == crate::model::value(was, other)
            }
            &&& !selected ==> updated == was
        }),
{
    broadcast use {group_rows, group_filters};
}

/// What a [`TerminalRecoveryAttempted`] event stores.
pub proof fn terminal_recovery_attempted_is_stored(
    e: TerminalRecoveryAttempted,
    at: Moment,
    db: Database,
    was: Row,
    other: Column,
)
    ensures
        ({
            let s = e.writes(at).statements()[0];
            let updated = crate::laws::rows::updated_by(db, s, was);
            let selected = crate::model::value(was, Column::RunId) == Datum::Text(e.run_id@)
                && crate::model::value(was, Column::TenantId) == Datum::Text(e.project.tenant_id@)
                && crate::model::value(was, Column::WorkspaceId)
                    == Datum::Text(e.project.workspace_id@)
                && crate::model::value(was, Column::ProjectId)
                    == Datum::Text(e.project.project_id@);
            &&& e.writes(at) is Writes
            &&& e.writes(at).statements().len() == 1
            &&& s is Update && s.table() == Table::Runs
            &&& selected ==> {
                &&& crate::model::value(updated, Column::TerminalWriteRecoveryJson)
                    == Datum::Text(e.recovery_json@)
                &&& crate::model::value(updated, Column::Version)
                    == crate::model::plus(crate::model::value(was, Column::Version), Datum::Int(1))
                &&& crate::model::value(updated, Column::UpdatedAt) == Datum::Int(at.now as int)
                &&& other is TerminalWriteRecoveryJson || other is Version || other is UpdatedAt
                    || crate::model::value(updated, other) == crate::model::value(was, other)
            }
            &&& !selected ==> updated == was
        }),
{
    broadcast use {group_rows, group_filters};
}

/// What a [`RunStateChanged`] event stores: the change of the run, one descendant
/// less at the root of a run that ended, and what becomes of the run's pause.
pub proof fn run_state_changed_is_stored(
    e: RunStateChanged,
    at: Moment,
    found: Found,
    db: Database,
    was: Row,
    other: Column,
)
    ensures
        e.writes(at, found) is Writes,
        !(found.scope is Some ==> found.scope->Some_0@ == e.project@)
            ==> e.writes(at, found).statements().len() == 0,
        (found.scope is Some ==> found.scope->Some_0@ == e.project@)
            ==> e.writes(at, found).statements().len()
                == 1 + (
                    if (
                        e.to@ == "completed"@ || e.to@ == "failed"@ || e.to@ == "canceled"@
                    ) { 1int } else { 0int }
                ) + (if e.to@ == "paused"@ && e.resume_after_ms is None { 0int } else { 1int }),
        (found.scope is Some ==> found.scope->Some_0@ == e.project@) ==> ({
            let s = e.writes(at, found).statements()[0];
            let updated = crate::laws::rows::updated_by(db, s, was);
            let selected = crate::model::value(was, Column::RunId) == Datum::Text(e.run_id@)
                && crate::model::value(was, Column::TenantId) == Datum::Text(e.project.tenant_id@)
                && crate::model::value(was, Column::WorkspaceId)
                    == Datum::Text(e.project.workspace_id@)
                && crate::model::value(was, Column::ProjectId)
                    == Datum::Text(e.project.project_id@);
            &&& s is Update && s.table() == Table::Runs
            &&& selected ==> {
                &&& crate::model::value(updated, Column::State) == Datum::Text(e.to@)
                &&& crate::model::value(updated, Column::FailureClass)
                    == crate::laws::storing::optional_text(e.failure_class)
                &&& crate::model::value(updated, Column::Version)
                    == crate::model::plus(crate::model::value(was, Column::Version), Datum::Int(1))
                &&& crate::model::value(updated, Column::UpdatedAt) == Datum::Int(at.now as int)
                &&& other is State || other is FailureClass || other is Version
                    || other is UpdatedAt
                    || crate::model::value(updated, other) == crate::model::value(was, other)
            }
            &&& !selected ==> updated == was
        }),
        (found.scope is Some ==> found.scope->Some_0@ == e.project@)
            && (e.to@ == "completed"@ || e.to@ == "failed"@ || e.to@ == "canceled"@)
            ==> ({
            let s = e.writes(at, found).statements()[1];
            let updated = crate::laws::rows::updated_by(db, s, was);
            let selected = crate::model::of_run(db, e.run_id@, Column::ParentRunId) != Datum::Null
                && crate::model::of_run(db, e.run_id@, Column::RootRunId) != Datum::Null
                && crate::model::value(was, Column::RunId)
                    == crate::model::of_run(db, e.run_id@, Column::RootRunId);
            &&& s is Update && s.table() == Table::Runs
            &&& selected ==> {
                &&& crate::model::value(updated, Column::InFlightDescendants)
                    == crate::model::plus(
                        crate::model::value(was, Column::InFlightDescendants),
                        Datum::Int(-1),
                    )
                &&& crate::model::value(updated, Column::Version)
                    == crate::model::plus(crate::model::value(was, Column::Version), Datum::Int(1))
                &&& crate::model::value(updated, Column::UpdatedAt) == Datum::Int(at.now as int)
                &&& other is InFlightDescendants || other is Version || other is UpdatedAt
                    || crate::model::value(updated, other) == crate::model::value(was, other)
            }
            &&& !selected ==> updated == was
        }),
        (found.scope is Some ==> found.scope->Some_0@ == e.project@) && e.to@ == "paused"@
            && e.resume_after_ms is Some
            ==> ({
            let s = e.writes(at, found).statements()[1];
            let new = crate::laws::rows::left_by(db, s, None);
            let merged = crate::laws::rows::left_by(db, s, Some(was));
            &&& s is Insert && s.table() == Table::PauseSchedules
            &&& crate::model::value(new, Column::RunId) == Datum::Text(e.run_id@)
            &&& crate::model::value(new, Column::TenantId) == Datum::Text(e.project.tenant_id@)
            &&& crate::model::value(new, Column::WorkspaceId)
                == Datum::Text(e.project.workspace_id@)
            &&& crate::model::value(new, Column::ProjectId) == Datum::Text(e.project.project_id@)
            &&& crate::model::value(new, Column::ResumeAtMs)
                == Datum::Int(
                    (
                        (
                            if at.event_time_ms + e.resume_after_ms->Some_0 > i64::MAX {
                                i64::MAX as int
                            } else {
                                at.event_time_ms + e.resume_after_ms->Some_0
                            }
                        ) as i64
                    ) as int,
                )
            &&& crate::model::value(new, Column::CreatedAtMs)
                == Datum::Int(
                    (
                        (
                            if at.event_time_ms > i64::MAX { i64::MAX as int } else {
                                at.event_time_ms as int
                            }
                        ) as i64
                    ) as int,
                )
            &&& other is RunId || other is TenantId || other is WorkspaceId || other is ProjectId
                || other is ResumeAtMs || other is CreatedAtMs
                || crate::model::value(new, other) == db.default_of(Table::PauseSchedules, other)
            &&& s->Insert_conflict is Merge
            &&& s->Insert_conflict->Merge_key == seq![Column::RunId]
            &&& s->Insert_conflict->Merge_guard == GuardView::Always
            &&& crate::model::value(merged, Column::ResumeAtMs)
                == Datum::Int(
                    (
                        (
                            if at.event_time_ms + e.resume_after_ms->Some_0 > i64::MAX {
                                i64::MAX as int
                            } else {
                                at.event_time_ms + e.resume_after_ms->Some_0
                            }
                        ) as i64
                    ) as int,
                )
            &&& crate::model::value(merged, Column::CreatedAtMs)
                == Datum::Int(
                    (
                        (
                            if at.event_time_ms > i64::MAX { i64::MAX as int } else {
                                at.event_time_ms as int
                            }
                        ) as i64
                    ) as int,
                )
            &&& other is ResumeAtMs || other is CreatedAtMs
                || crate::model::value(merged, other) == crate::model::value(was, other)
        }),
        (found.scope is Some ==> found.scope->Some_0@ == e.project@) && e.to@ != "paused"@ ==> ({
            let s = e.writes(at, found).statements()[
                if (
                    e.to@ == "completed"@ || e.to@ == "failed"@ || e.to@ == "canceled"@
                ) { 2 } else { 1 }
            ];
            &&& s is Delete && s.table() == Table::PauseSchedules
            &&& crate::model::passes_all(db, was, s->Delete_filter)
                <==> crate::model::value(was, Column::RunId) == Datum::Text(e.run_id@)
        }),
{
    broadcast use {group_rows, group_filters};

    reveal_strlit("paused");
    reveal_strlit("completed");
    reveal_strlit("failed");
    reveal_strlit("canceled");
    assert("paused"@.len() != "completed"@.len() && "paused"@.len() != "canceled"@.len());
    assert("paused"@[0] != "failed"@[0]);
}

} // verus!
