//! What the events store: sessions.

use crate::laws::rows::{group_filters, group_rows};
use crate::model::{Database, Datum, Row};
use crate::plan::{Moment, Planned};
use crate::projections::sessions::{
    LlmCompletionRecorded, SessionAttemptStarted, SessionCreated, SessionOutcomeEmitted,
    SessionStateChanged, UserMessageAppended,
};
use crate::schema::{Column, Table};
use crate::statement::{ConflictView, GuardView};
use vstd::prelude::*;

verus! {

/// What a [`SessionCreated`] event stores.
pub proof fn session_created_is_stored(
    e: SessionCreated,
    at: Moment,
    db: Database,
    was: Row,
    other: Column,
)
    ensures
        ({
            let s = e.writes(at).statements()[0];
            let new = crate::laws::rows::left_by(db, s, None);
            &&& e.writes(at) is Writes
            &&& e.writes(at).statements().len() == 1
            &&& s is Insert && s.table() == Table::Sessions
            &&& crate::model::value(new, Column::SessionId) == Datum::Text(e.session_id@)
            &&& crate::model::value(new, Column::TenantId) == Datum::Text(e.project.tenant_id@)
            &&& crate::model::value(new, Column::WorkspaceId)
                == Datum::Text(e.project.workspace_id@)
            &&& crate::model::value(new, Column::ProjectId) == Datum::Text(e.project.project_id@)
            &&& crate::model::value(new, Column::State) == Datum::Text("open"@)
            &&& crate::model::value(new, Column::Version) == Datum::Int(1)
            &&& crate::model::value(new, Column::CreatedAt) == Datum::Int(at.now as int)
            &&& crate::model::value(new, Column::UpdatedAt) == Datum::Int(at.now as int)
            &&& other is SessionId || other is TenantId || other is WorkspaceId
                || other is ProjectId || other is State || other is Version || other is CreatedAt
                || other is UpdatedAt
                || crate::model::value(new, other) == db.default_of(Table::Sessions, other)
            &&& s->Insert_conflict is Fail
        }),
{
    broadcast use {group_rows, group_filters};
}

/// What a [`SessionStateChanged`] event stores.
pub proof fn session_state_changed_is_stored(
    e: SessionStateChanged,
    at: Moment,
    db: Database,
    was: Row,
    other: Column,
)
    ensures
        ({
            let s = e.writes(at).statements()[0];
            let updated = crate::laws::rows::updated_by(db, s, was);
            let selected = crate::model::value(was, Column::SessionId)
                == Datum::Text(e.session_id@);
            &&& e.writes(at) is Writes
            &&& e.writes(at).statements().len() == 1
            &&& s is Update && s.table() == Table::Sessions
            &&& selected ==> {
                &&& crate::model::value(updated, Column::State) == Datum::Text(e.to@)
                &&& crate::model::value(updated, Column::Version)
                    == crate::model::plus(crate::model::value(was, Column::Version), Datum::Int(1))
                &&& crate::model::value(updated, Column::UpdatedAt) == Datum::Int(at.now as int)
                &&& other is State || other is Version || other is UpdatedAt
                    || crate::model::value(updated, other) == crate::model::value(was, other)
            }
            &&& !selected ==> updated == was
        }),
{
    broadcast use {group_rows, group_filters};
}

/// What a [`UserMessageAppended`] event stores.
pub proof fn user_message_appended_is_stored(
    e: UserMessageAppended,
    at: Moment,
    db: Database,
    was: Row,
    other: Column,
)
    ensures
        e.appended_at_ms > i64::MAX
            ==> e.writes(at)
                == Planned::Refused(
                    crate::laws::storing::too_great(
                        "UserMessageAppended.appended_at_ms"@,
                        e.appended_at_ms as nat,
                        "i64::MAX"@,
                    ),
                ),
        e.appended_at_ms <= i64::MAX && e.sequence > i64::MAX
            ==> e.writes(at)
                == Planned::Refused(
                    crate::laws::storing::too_great(
                        "UserMessageAppended.sequence"@,
                        e.sequence as nat,
                        "i64::MAX"@,
                    ),
                ),
        e.appended_at_ms <= i64::MAX && e.sequence <= i64::MAX ==> ({
            let s = e.writes(at).statements()[0];
            let new = crate::laws::rows::left_by(db, s, None);
            &&& e.writes(at) is Writes
            &&& e.writes(at).statements().len() == 1
            &&& s is Insert && s.table() == Table::UserMessages
            &&& crate::model::value(new, Column::RunId) == Datum::Text(e.run_id@)
            &&& crate::model::value(new, Column::Sequence) == Datum::Int(e.sequence as i64 as int)
            &&& crate::model::value(new, Column::TenantId) == Datum::Text(e.project.tenant_id@)
            &&& crate::model::value(new, Column::WorkspaceId)
                == Datum::Text(e.project.workspace_id@)
            &&& crate::model::value(new, Column::ProjectId) == Datum::Text(e.project.project_id@)
            &&& crate::model::value(new, Column::SessionId) == Datum::Text(e.session_id@)
            &&& crate::model::value(new, Column::EventId) == Datum::Text(at.event_id@)
            &&& crate::model::value(new, Column::Content) == Datum::Text(e.content@)
            &&& crate::model::value(new, Column::AppendedAtMs)
                == Datum::Int(e.appended_at_ms as i64 as int)
            &&& other is RunId || other is Sequence || other is TenantId || other is WorkspaceId
                || other is ProjectId || other is SessionId || other is EventId || other is Content
                || other is AppendedAtMs
                || crate::model::value(new, other) == db.default_of(Table::UserMessages, other)
            &&& s->Insert_conflict == ConflictView::Ignore(seq![Column::RunId, Column::Sequence])
        }),
{
    broadcast use {group_rows, group_filters};
}

/// What a [`SessionAttemptStarted`] event stores.
pub proof fn session_attempt_started_is_stored(
    e: SessionAttemptStarted,
    at: Moment,
    db: Database,
    was: Row,
    other: Column,
)
    ensures
        e.attempt_number > i32::MAX
            ==> e.writes(at)
                == Planned::Refused(
                    crate::laws::storing::too_great(
                        "SessionAttemptStarted.attempt_number"@,
                        e.attempt_number as nat,
                        "i32::MAX"@,
                    ),
                ),
        e.attempt_number <= i32::MAX && e.max_attempts > i32::MAX
            ==> e.writes(at)
                == Planned::Refused(
                    crate::laws::storing::too_great(
                        "SessionAttemptStarted.max_attempts"@,
                        e.max_attempts as nat,
                        "i32::MAX"@,
                    ),
                ),
        e.attempt_number <= i32::MAX && e.max_attempts <= i32::MAX ==> ({
            let s = e.writes(at).statements()[0];
            let updated = crate::laws::rows::updated_by(db, s, was);
            let selected = crate::model::value(was, Column::SessionId)
                == Datum::Text(e.session_id@);
            &&& e.writes(at) is Writes
            &&& e.writes(at).statements().len() == 1
            &&& s is Update && s.table() == Table::Sessions
            &&& selected ==> {
                &&& crate::model::value(updated, Column::AttemptsUsed)
                    == crate::model::greatest(
                        crate::model::value(was, Column::AttemptsUsed),
                        Datum::Int((e.attempt_number as i32) as int),
                    )
                &&& crate::model::value(updated, Column::MaxAttempts)
                    == crate::model::greatest(
                        crate::model::value(was, Column::MaxAttempts),
                        Datum::Int((e.max_attempts as i32) as int),
                    )
                &&& crate::model::value(updated, Column::Version)
                    == crate::model::plus(crate::model::value(was, Column::Version), Datum::Int(1))
                &&& crate::model::value(updated, Column::UpdatedAt) == Datum::Int(at.now as int)
                &&& other is AttemptsUsed || other is MaxAttempts || other is Version
                    || other is UpdatedAt
                    || crate::model::value(updated, other) == crate::model::value(was, other)
            }
            &&& !selected ==> updated == was
        }),
{
    broadcast use {group_rows, group_filters};
}

/// What a [`SessionOutcomeEmitted`] event stores.
pub proof fn session_outcome_emitted_is_stored(
    e: SessionOutcomeEmitted,
    at: Moment,
    db: Database,
    was: Row,
    other: Column,
)
    ensures
        e.cost_micros > i64::MAX
            ==> e.writes(at)
                == Planned::Refused(
                    crate::laws::storing::too_great(
                        "SessionOutcome.cost_micros"@,
                        e.cost_micros as nat,
                        "i64::MAX"@,
                    ),
                ),
        e.cost_micros <= i64::MAX && e.emitted_at > i64::MAX
            ==> e.writes(at)
                == Planned::Refused(
                    crate::laws::storing::too_great(
                        "SessionOutcome.emitted_at"@,
                        e.emitted_at as nat,
                        "i64::MAX"@,
                    ),
                ),
        e.cost_micros <= i64::MAX && e.emitted_at <= i64::MAX ==> ({
            let s = e.writes(at).statements()[0];
            let merged = crate::laws::rows::left_by(db, s, Some(was));
            let new = crate::laws::rows::left_by(db, s, None);
            &&& e.writes(at) is Writes
            &&& e.writes(at).statements().len() == 1
            &&& s is Insert && s.table() == Table::SessionOutcomes
            &&& crate::model::value(new, Column::RootRunId) == Datum::Text(e.root_run_id@)
            &&& crate::model::value(new, Column::TenantId) == Datum::Text(e.project.tenant_id@)
            &&& crate::model::value(new, Column::WorkspaceScope)
                == Datum::Text(e.project.workspace_id@)
            &&& crate::model::value(new, Column::ProjectId) == Datum::Text(e.project.project_id@)
            &&& crate::model::value(new, Column::SessionId) == Datum::Text(e.session_id@)
            &&& crate::model::value(new, Column::CheckpointId) == Datum::Text(e.checkpoint_id@)
            &&& crate::model::value(new, Column::WorkspaceSnapshotId)
                == crate::laws::storing::optional_text(e.workspace_snapshot_id)
            &&& crate::model::value(new, Column::TerminationReason)
                == Datum::Text(e.termination_reason@)
            &&& crate::model::value(new, Column::TerminationReasonJson)
                == Datum::Text(e.termination_reason_json@)
            &&& crate::model::value(new, Column::CompactedSummary)
                == Datum::Text(e.compacted_summary@)
            &&& crate::model::value(new, Column::NextStepHint)
                == crate::laws::storing::optional_text(e.next_step_hint)
            &&& crate::model::value(new, Column::CostMicros)
                == Datum::Int(e.cost_micros as i64 as int)
            &&& crate::model::value(new, Column::CreatedAt)
                == Datum::Int(e.emitted_at as i64 as int)
            &&& other is RootRunId || other is TenantId || other is WorkspaceScope
                || other is ProjectId || other is SessionId || other is CheckpointId
                || other is WorkspaceSnapshotId || other is TerminationReason
                || other is TerminationReasonJson || other is CompactedSummary
                || other is NextStepHint || other is CostMicros || other is CreatedAt
                || crate::model::value(new, other) == db.default_of(Table::SessionOutcomes, other)
            &&& s->Insert_conflict is Merge
            &&& s->Insert_conflict->Merge_key == seq![Column::RootRunId]
            &&& s->Insert_conflict->Merge_guard == GuardView::Always
            &&& crate::model::value(merged, Column::WorkspaceSnapshotId)
                == crate::laws::storing::optional_text(e.workspace_snapshot_id)
            &&& crate::model::value(merged, Column::TerminationReason)
                == Datum::Text(e.termination_reason@)
            &&& crate::model::value(merged, Column::TerminationReasonJson)
                == Datum::Text(e.termination_reason_json@)
            &&& crate::model::value(merged, Column::CompactedSummary)
                == Datum::Text(e.compacted_summary@)
            &&& crate::model::value(merged, Column::NextStepHint)
                == crate::laws::storing::optional_text(e.next_step_hint)
            &&& crate::model::value(merged, Column::CostMicros)
                == Datum::Int(e.cost_micros as i64 as int)
            &&& other is WorkspaceSnapshotId || other is TerminationReason
                || other is TerminationReasonJson || other is CompactedSummary
                || other is NextStepHint || other is CostMicros
                || crate::model::value(merged, other) == crate::model::value(was, other)
        }),
{
    broadcast use {group_rows, group_filters};
}

/// What a [`LlmCompletionRecorded`] event stores.
pub proof fn llm_completion_recorded_is_stored(
    e: LlmCompletionRecorded,
    at: Moment,
    db: Database,
    was: Row,
    other: Column,
)
    ensures
        ({
            let s = e.writes(at).statements()[0];
            let new = crate::laws::rows::left_by(db, s, None);
            &&& e.writes(at) is Writes
            &&& e.writes(at).statements().len() == 1
            &&& s is Insert && s.table() == Table::LlmCompletions
            &&& crate::model::value(new, Column::TraceId) == Datum::Text(e.trace_id@)
            &&& crate::model::value(new, Column::TenantId) == Datum::Text(e.project.tenant_id@)
            &&& crate::model::value(new, Column::WorkspaceId)
                == Datum::Text(e.project.workspace_id@)
            &&& crate::model::value(new, Column::ProjectId) == Datum::Text(e.project.project_id@)
            &&& crate::model::value(new, Column::SessionId) == Datum::Text(e.session_id@)
            &&& crate::model::value(new, Column::RunId)
                == crate::laws::storing::optional_text(e.run_id)
            &&& crate::model::value(new, Column::ModelId) == Datum::Text(e.model_id@)
            &&& crate::model::value(new, Column::SystemPrompt) == Datum::Text(e.system_prompt@)
            &&& crate::model::value(new, Column::MessagesJson) == Datum::Text(e.messages_json@)
            &&& crate::model::value(new, Column::ResponseText) == Datum::Text(e.response_text@)
            &&& crate::model::value(new, Column::ToolCallsJson) == Datum::Text(e.tool_calls_json@)
            &&& crate::model::value(new, Column::ToolDefsJson) == Datum::Text(e.tool_defs_json@)
            &&& crate::model::value(new, Column::RecordedAtMs)
                == Datum::Int(e.recorded_at_ms as i64 as int)
            &&& crate::model::value(new, Column::CreatedAt) == Datum::Int(at.now as int)
            &&& other is TraceId || other is TenantId || other is WorkspaceId || other is ProjectId
                || other is SessionId || other is RunId || other is ModelId || other is SystemPrompt
                || other is MessagesJson || other is ResponseText || other is ToolCallsJson
                || other is ToolDefsJson || other is RecordedAtMs || other is CreatedAt
                || crate::model::value(new, other) == db.default_of(Table::LlmCompletions, other)
            &&& s->Insert_conflict == ConflictView::Ignore(seq![Column::TraceId])
        }),
{
    broadcast use {group_rows, group_filters};
}

} // verus!
