//! What the events store: tools.

use crate::laws::rows::{group_filters, group_rows};
use crate::model::{Database, Datum, Row};
use crate::plan::{Found, Moment, Planned};
use crate::projections::tools::{
    ToolInvocationCacheHit, ToolInvocationCompleted, ToolInvocationFailed,
    ToolInvocationProgressUpdated, ToolInvocationStarted, ToolRecoveryPaused,
};
use crate::schema::{Column, Table};
use crate::statement::{ConflictView, GuardView};
use vstd::prelude::*;

verus! {

/// What a [`ToolInvocationStarted`] event stores.
pub proof fn tool_invocation_started_is_stored(
    e: ToolInvocationStarted,
    at: Moment,
    db: Database,
    was: Row,
    other: Column,
)
    ensures
        ({
            let s = e.writes(at).statements()[0];
            let new = crate::laws::rows::left_by(db, s, None);
            &&& e.writes(at) is Writes
            &&& e.writes(at).statements().len() == 1
            &&& s is Insert && s.table() == Table::ToolInvocations
            &&& crate::model::value(new, Column::InvocationId) == Datum::Text(e.invocation_id@)
            &&& crate::model::value(new, Column::TenantId) == Datum::Text(e.project.tenant_id@)
            &&& crate::model::value(new, Column::WorkspaceId)
                == Datum::Text(e.project.workspace_id@)
            &&& crate::model::value(new, Column::ProjectId) == Datum::Text(e.project.project_id@)
            &&& crate::model::value(new, Column::SessionId)
                == crate::laws::storing::optional_text(e.session_id)
            &&& crate::model::value(new, Column::RunId)
                == crate::laws::storing::optional_text(e.run_id)
            &&& crate::model::value(new, Column::TaskId)
                == crate::laws::storing::optional_text(e.task_id)
            &&& crate::model::value(new, Column::Target) == Datum::Json(e.target_json@)
            &&& crate::model::value(new, Column::ExecutionClass) == Datum::Text(e.execution_class@)
            &&& crate::model::value(new, Column::State) == Datum::Text("started"@)
            &&& crate::model::value(new, Column::RequestedAtMs)
                == Datum::Int(e.requested_at_ms as i64 as int)
            &&& crate::model::value(new, Column::StartedAtMs)
                == Datum::Int(e.started_at_ms as i64 as int)
            &&& crate::model::value(new, Column::ArgsJson)
                == crate::laws::storing::optional_json(e.args_json)
            &&& crate::model::value(new, Column::Version) == Datum::Int(1)
            &&& crate::model::value(new, Column::CreatedAt) == Datum::Int(at.now as int)
            &&& crate::model::value(new, Column::UpdatedAt) == Datum::Int(at.now as int)
            &&& other is InvocationId || other is TenantId || other is WorkspaceId
                || other is ProjectId || other is SessionId || other is RunId || other is TaskId
                || other is Target || other is ExecutionClass || other is State
                || other is RequestedAtMs || other is StartedAtMs || other is ArgsJson
                || other is Version || other is CreatedAt || other is UpdatedAt
                || crate::model::value(new, other) == db.default_of(Table::ToolInvocations, other)
            &&& s->Insert_conflict is Fail
        }),
{
    broadcast use {group_rows, group_filters};
}

/// What a [`ToolInvocationCompleted`] event stores.
pub proof fn tool_invocation_completed_is_stored(
    e: ToolInvocationCompleted,
    at: Moment,
    db: Database,
    was: Row,
    other: Column,
)
    ensures
        ({
            let s = e.writes(at).statements()[0];
            let updated = crate::laws::rows::updated_by(db, s, was);
            let selected = crate::model::value(was, Column::InvocationId)
                == Datum::Text(e.invocation_id@);
            &&& e.writes(at) is Writes
            &&& e.writes(at).statements().len() == 1
            &&& s is Update && s.table() == Table::ToolInvocations
            &&& selected ==> {
                &&& crate::model::value(updated, Column::State) == Datum::Text("completed"@)
                &&& crate::model::value(updated, Column::Outcome)
                    == Datum::Text(e.outcome.spec_name())
                &&& crate::model::value(updated, Column::FinishedAtMs)
                    == Datum::Int(e.finished_at_ms as i64 as int)
                &&& crate::model::value(updated, Column::OutputPreview)
                    == crate::model::coalesce(
                        crate::laws::storing::optional_text(e.output_preview),
                        crate::model::value(was, Column::OutputPreview),
                    )
                &&& crate::model::value(updated, Column::Version)
                    == crate::model::plus(crate::model::value(was, Column::Version), Datum::Int(1))
                &&& crate::model::value(updated, Column::UpdatedAt) == Datum::Int(at.now as int)
                &&& other is State || other is Outcome || other is FinishedAtMs
                    || other is OutputPreview || other is Version || other is UpdatedAt
                    || crate::model::value(updated, other) == crate::model::value(was, other)
            }
            &&& !selected ==> updated == was
        }),
{
    broadcast use {group_rows, group_filters};
}

/// What a [`ToolInvocationFailed`] event stores.
pub proof fn tool_invocation_failed_is_stored(
    e: ToolInvocationFailed,
    at: Moment,
    db: Database,
    was: Row,
    other: Column,
)
    ensures
        ({
            let s = e.writes(at).statements()[0];
            let updated = crate::laws::rows::updated_by(db, s, was);
            let selected = crate::model::value(was, Column::InvocationId)
                == Datum::Text(e.invocation_id@);
            &&& e.writes(at) is Writes
            &&& e.writes(at).statements().len() == 1
            &&& s is Update && s.table() == Table::ToolInvocations
            &&& selected ==> {
                &&& crate::model::value(updated, Column::State)
                    == Datum::Text(e.outcome.spec_terminal_state().spec_name())
                &&& crate::model::value(updated, Column::Outcome)
                    == Datum::Text(e.outcome.spec_name())
                &&& crate::model::value(updated, Column::ErrorMessage)
                    == crate::laws::storing::optional_text(e.error_message)
                &&& crate::model::value(updated, Column::FinishedAtMs)
                    == Datum::Int(e.finished_at_ms as i64 as int)
                &&& crate::model::value(updated, Column::OutputPreview)
                    == crate::model::coalesce(
                        crate::laws::storing::optional_text(e.output_preview),
                        crate::model::value(was, Column::OutputPreview),
                    )
                &&& crate::model::value(updated, Column::Version)
                    == crate::model::plus(crate::model::value(was, Column::Version), Datum::Int(1))
                &&& crate::model::value(updated, Column::UpdatedAt) == Datum::Int(at.now as int)
                &&& other is State || other is Outcome || other is ErrorMessage
                    || other is FinishedAtMs || other is OutputPreview || other is Version
                    || other is UpdatedAt
                    || crate::model::value(updated, other) == crate::model::value(was, other)
            }
            &&& !selected ==> updated == was
        }),
{
    broadcast use {group_rows, group_filters};
}

/// What a [`ToolInvocationCacheHit`] event stores.
pub proof fn tool_invocation_cache_hit_is_stored(
    e: ToolInvocationCacheHit,
    at: Moment,
    db: Database,
    was: Row,
    other: Column,
)
    ensures
        e.original_completed_at_ms > i64::MAX
            ==> e.writes(at)
                == Planned::Refused(
                    crate::laws::storing::too_great(
                        "ToolInvocationCacheHit.original_completed_at_ms"@,
                        e.original_completed_at_ms as nat,
                        "i64::MAX"@,
                    ),
                ),
        e.original_completed_at_ms <= i64::MAX && e.served_at_ms > i64::MAX
            ==> e.writes(at)
                == Planned::Refused(
                    crate::laws::storing::too_great(
                        "ToolInvocationCacheHit.served_at_ms"@,
                        e.served_at_ms as nat,
                        "i64::MAX"@,
                    ),
                ),
        e.original_completed_at_ms <= i64::MAX && e.served_at_ms <= i64::MAX ==> ({
            let s = e.writes(at).statements()[0];
            let new = crate::laws::rows::left_by(db, s, None);
            &&& e.writes(at) is Writes
            &&& e.writes(at).statements().len() == 1
            &&& s is Insert && s.table() == Table::ToolInvocationCacheHits
            &&& crate::model::value(new, Column::InvocationId) == Datum::Text(e.invocation_id@)
            &&& crate::model::value(new, Column::TenantId) == Datum::Text(e.project.tenant_id@)
            &&& crate::model::value(new, Column::WorkspaceId)
                == Datum::Text(e.project.workspace_id@)
            &&& crate::model::value(new, Column::ProjectId) == Datum::Text(e.project.project_id@)
            &&& crate::model::value(new, Column::RunId)
                == crate::laws::storing::optional_text(e.run_id)
            &&& crate::model::value(new, Column::TaskId)
                == crate::laws::storing::optional_text(e.task_id)
            &&& crate::model::value(new, Column::ToolName) == Datum::Text(e.tool_name@)
            &&& crate::model::value(new, Column::ToolCallId) == Datum::Text(e.tool_call_id@)
            &&& crate::model::value(new, Column::OriginalCompletedAtMs)
                == Datum::Int(e.original_completed_at_ms as i64 as int)
            &&& crate::model::value(new, Column::ServedAtMs)
                == Datum::Int(e.served_at_ms as i64 as int)
            &&& other is InvocationId || other is TenantId || other is WorkspaceId
                || other is ProjectId || other is RunId || other is TaskId || other is ToolName
                || other is ToolCallId || other is OriginalCompletedAtMs || other is ServedAtMs
                || crate::model::value(new, other)
                    == db.default_of(Table::ToolInvocationCacheHits, other)
            &&& s->Insert_conflict == ConflictView::Ignore(seq![Column::InvocationId])
        }),
{
    broadcast use {group_rows, group_filters};
}

/// What a [`ToolRecoveryPaused`] event stores.
pub proof fn tool_recovery_paused_is_stored(
    e: ToolRecoveryPaused,
    at: Moment,
    db: Database,
    was: Row,
    other: Column,
)
    ensures
        e.paused_at_ms > i64::MAX
            ==> e.writes(at)
                == Planned::Refused(
                    crate::laws::storing::too_great(
                        "ToolRecoveryPaused.paused_at_ms"@,
                        e.paused_at_ms as nat,
                        "i64::MAX"@,
                    ),
                ),
        e.paused_at_ms <= i64::MAX ==> ({
            let s = e.writes(at).statements()[0];
            let new = crate::laws::rows::left_by(db, s, None);
            &&& e.writes(at) is Writes
            &&& e.writes(at).statements().len() == 1
            &&& s is Insert && s.table() == Table::ToolRecoveryPauses
            &&& crate::model::value(new, Column::ToolCallId) == Datum::Text(e.tool_call_id@)
            &&& crate::model::value(new, Column::TenantId) == Datum::Text(e.project.tenant_id@)
            &&& crate::model::value(new, Column::WorkspaceId)
                == Datum::Text(e.project.workspace_id@)
            &&& crate::model::value(new, Column::ProjectId) == Datum::Text(e.project.project_id@)
            &&& crate::model::value(new, Column::RunId) == Datum::Text(e.run_id@)
            &&& crate::model::value(new, Column::TaskId)
                == crate::laws::storing::optional_text(e.task_id)
            &&& crate::model::value(new, Column::ToolName) == Datum::Text(e.tool_name@)
            &&& crate::model::value(new, Column::Reason) == Datum::Text(e.reason@)
            &&& crate::model::value(new, Column::PausedAtMs)
                == Datum::Int(e.paused_at_ms as i64 as int)
            &&& other is ToolCallId || other is TenantId || other is WorkspaceId
                || other is ProjectId || other is RunId || other is TaskId || other is ToolName
                || other is Reason || other is PausedAtMs
                || crate::model::value(new, other)
                    == db.default_of(Table::ToolRecoveryPauses, other)
            &&& s->Insert_conflict == ConflictView::Ignore(seq![Column::ToolCallId])
        }),
{
    broadcast use {group_rows, group_filters};
}

/// What a [`ToolInvocationProgressUpdated`] event stores.
pub proof fn tool_invocation_progress_updated_is_stored(
    e: ToolInvocationProgressUpdated,
    at: Moment,
    found: Found,
    db: Database,
    was: Row,
    other: Column,
)
    ensures
        found.scope is None ==> ({
            &&& e.writes(at, found) is Writes
            &&& e.writes(at, found).statements().len() == 0
        }),
        found.scope is Some && e.updated_at_ms > i64::MAX
            ==> e.writes(at, found)
                == Planned::Refused(
                    crate::laws::storing::too_great(
                        "ToolInvocationProgressUpdated.updated_at_ms"@,
                        e.updated_at_ms as nat,
                        "i64::MAX"@,
                    ),
                ),
        found.scope is Some && e.updated_at_ms <= i64::MAX ==> ({
            let s = e.writes(at, found).statements()[0];
            let merged = crate::laws::rows::left_by(db, s, Some(was));
            let new = crate::laws::rows::left_by(db, s, None);
            &&& e.writes(at, found) is Writes
            &&& e.writes(at, found).statements().len() == 1
            &&& s is Insert && s.table() == Table::ToolInvocationProgress
            &&& crate::model::value(new, Column::InvocationId) == Datum::Text(e.invocation_id@)
            &&& crate::model::value(new, Column::TenantId)
                == Datum::Text(found.scope->Some_0.tenant_id@)
            &&& crate::model::value(new, Column::WorkspaceId)
                == Datum::Text(found.scope->Some_0.workspace_id@)
            &&& crate::model::value(new, Column::ProjectId)
                == Datum::Text(found.scope->Some_0.project_id@)
            &&& crate::model::value(new, Column::ProgressPct)
                == Datum::Int((e.progress_pct as i16) as int)
            &&& crate::model::value(new, Column::Message)
                == crate::laws::storing::optional_text(e.message)
            &&& crate::model::value(new, Column::UpdatedAtMs)
                == Datum::Int(e.updated_at_ms as i64 as int)
            &&& other is InvocationId || other is TenantId || other is WorkspaceId
                || other is ProjectId || other is ProgressPct || other is Message
                || other is UpdatedAtMs
                || crate::model::value(new, other)
                    == db.default_of(Table::ToolInvocationProgress, other)
            &&& s->Insert_conflict is Merge
            &&& s->Insert_conflict->Merge_key == seq![Column::InvocationId]
            &&& s->Insert_conflict->Merge_guard
                == GuardView::ExcludedAtLeastStored(Column::UpdatedAtMs)
            &&& crate::model::value(merged, Column::ProgressPct)
                == Datum::Int((e.progress_pct as i16) as int)
            &&& crate::model::value(merged, Column::Message)
                == crate::laws::storing::optional_text(e.message)
            &&& crate::model::value(merged, Column::UpdatedAtMs)
                == Datum::Int(e.updated_at_ms as i64 as int)
            &&& other is ProgressPct || other is Message || other is UpdatedAtMs
                || crate::model::value(merged, other) == crate::model::value(was, other)
        }),
{
    broadcast use {group_rows, group_filters};
}

} // verus!
