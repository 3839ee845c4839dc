//! What is read back of what was written: tools.

use crate::domain::DomainNames;
use crate::laws::rows::group_rows;
use crate::model::{Database, Datum, Row};
use crate::plan::{Found, Moment};
use crate::projections::tools::{
    ToolInvocationCompleted, ToolInvocationFailed, ToolInvocationProgressUpdated,
    ToolInvocationStarted, ToolRecoveryPaused,
};
use crate::read::StoredRow;
use crate::read::tools::{
    ToolInvocationProgressRecord, ToolInvocationProgressRow, ToolInvocationRecord,
    ToolInvocationRow, ToolRecoveryPauseRecord, ToolRecoveryPauseRow,
};
use crate::schema::{Column, Table};
use vstd::prelude::*;

verus! {

/// The record that is read back after a `ToolInvocationStarted` event holds what the event
/// says.
pub proof fn tool_invocation_started_is_read_back(
    e: ToolInvocationStarted,
    at: Moment,
    db: Database,
    row: ToolInvocationRow,
    names: DomainNames,
    record: ToolInvocationRecord,
)
    requires
        e.writes(at) is Writes,
        e.writes(at).statements().len() > 0,
        row.is_of(crate::laws::rows::left_by(db, e.writes(at).statements()[0], None)),
        row.holds(&names, &record),
    ensures
        record.invocation_id@ == e.invocation_id@,
        record.project@ == e.project@,
        record.session_id.deep_view() == e.session_id.deep_view(),
        record.run_id.deep_view() == e.run_id.deep_view(),
        record.task_id.deep_view() == e.task_id.deep_view(),
        record.target@ == e.target_json@,
        record.execution_class@ == e.execution_class@,
        record.state@ == "started"@,
        record.version == 1,
        e.requested_at_ms <= i64::MAX ==> record.requested_at_ms == e.requested_at_ms,
        e.started_at_ms <= i64::MAX ==> record.started_at_ms == Some(e.started_at_ms),
        record.args_json.deep_view() == e.args_json.deep_view(),
        row.target.fault is None
            && names.execution_classes.deep_view().contains(e.execution_class@)
            && names.invocation_states.deep_view().contains("started"@) && row.outcome is None
            ==> row.fault(&names) is None,
        record.prompt_release_id is None,
        db.default_of(Table::ToolInvocations, Column::FinishedAtMs) == Datum::Null
            ==> record.finished_at_ms is None,
        db.default_of(Table::ToolInvocations, Column::Outcome) == Datum::Null
            ==> record.outcome is None,
        db.default_of(Table::ToolInvocations, Column::ErrorMessage) == Datum::Null
            ==> record.error_message is None,
        db.default_of(Table::ToolInvocations, Column::OutputPreview) == Datum::Null
            ==> record.output_preview is None,
{
    broadcast use group_rows;
}

/// The record that is read back after a `ToolRecoveryPaused` event holds what the event says.
pub proof fn tool_recovery_paused_is_read_back(
    e: ToolRecoveryPaused,
    at: Moment,
    db: Database,
    row: ToolRecoveryPauseRow,
    names: DomainNames,
    record: ToolRecoveryPauseRecord,
)
    requires
        e.writes(at) is Writes,
        e.writes(at).statements().len() > 0,
        row.is_of(crate::laws::rows::left_by(db, e.writes(at).statements()[0], None)),
        row.holds(&names, &record),
    ensures
        record.tool_call_id@ == e.tool_call_id@,
        record.project@ == e.project@,
        record.run_id@ == e.run_id@,
        record.task_id.deep_view() == e.task_id.deep_view(),
        record.tool_name@ == e.tool_name@,
        record.reason@ == e.reason@,
        e.paused_at_ms <= i64::MAX ==> record.paused_at_ms == e.paused_at_ms,
{
    broadcast use group_rows;
}

/// The record that is read back after a `ToolInvocationProgressUpdated` event holds what the
/// event says.
pub proof fn tool_invocation_progress_updated_is_read_back(
    e: ToolInvocationProgressUpdated,
    at: Moment,
    found: Found,
    db: Database,
    was: Option<Row>,
    before: ToolInvocationProgressRow,
    row: ToolInvocationProgressRow,
    names: DomainNames,
    old: ToolInvocationProgressRecord,
    record: ToolInvocationProgressRecord,
)
    requires
        e.writes(at, found) is Writes,
        e.writes(at, found).statements().len() > 0,
        was is Some ==> crate::laws::rows::replaces(
            db,
            e.writes(at, found).statements()[0],
            was->Some_0,
        ),
        was is Some ==> before.is_of(was->Some_0) && before.holds(&names, &old),
        row.is_of(crate::laws::rows::left_by(db, e.writes(at, found).statements()[0], was)),
        row.holds(&names, &record),
    ensures
        was is None ==> (record.project.tenant_id@ == found.scope->Some_0.tenant_id@),
        was is None ==> (record.project.workspace_id@ == found.scope->Some_0.workspace_id@),
        was is None ==> (record.project.project_id@ == found.scope->Some_0.project_id@),
        record.message.deep_view() == e.message.deep_view(),
        record.progress_pct == e.progress_pct,
        record.updated_at_ms == e.updated_at_ms,
        was is Some ==> record.project@ == old.project@,
        record.invocation_id@ == row.invocation_id@,
{
    broadcast use group_rows;

    let key = e.writes(at, found).statements()[0]->Insert_conflict->Merge_key;
    assert(key[0] == Column::InvocationId);
}

/// The record that is read back of a row that a `ToolInvocationCompleted` event changes holds
/// what the event says.
pub proof fn tool_invocation_completed_is_read_back(
    e: ToolInvocationCompleted,
    at: Moment,
    db: Database,
    was: Row,
    before: ToolInvocationRow,
    row: ToolInvocationRow,
    names: DomainNames,
    old: ToolInvocationRecord,
    record: ToolInvocationRecord,
)
    requires
        e.writes(at) is Writes,
        e.writes(at).statements().len() > 0,
        crate::model::passes_all(db, was, e.writes(at).statements()[0]->Update_filter),
        before.is_of(was),
        row.is_of(crate::laws::rows::updated_by(db, e.writes(at).statements()[0], was)),
        before.holds(&names, &old),
        row.holds(&names, &record),
    ensures
        record.state@ == "completed"@,
        e.finished_at_ms <= i64::MAX ==> record.finished_at_ms == Some(e.finished_at_ms),
        record.outcome.deep_view() == Some(e.outcome.spec_name()),
        record.invocation_id@ == old.invocation_id@,
        record.project@ == old.project@,
        record.session_id.deep_view() == old.session_id.deep_view(),
        record.run_id.deep_view() == old.run_id.deep_view(),
        record.task_id.deep_view() == old.task_id.deep_view(),
        record.prompt_release_id.deep_view() == old.prompt_release_id.deep_view(),
        record.target@ == old.target@,
        record.execution_class@ == old.execution_class@,
        0 <= before.version ==> record.version == old.version + 1,
        record.requested_at_ms == old.requested_at_ms,
        record.started_at_ms == old.started_at_ms,
        record.error_message.deep_view() == old.error_message.deep_view(),
        record.args_json.deep_view() == old.args_json.deep_view(),
        record.output_preview.deep_view() == if e.output_preview is Some {
            e.output_preview.deep_view()
        } else {
            old.output_preview.deep_view()
        },
{
    broadcast use group_rows;
}

/// The record that is read back of a row that a `ToolInvocationFailed` event changes holds what
/// the event says.
pub proof fn tool_invocation_failed_is_read_back(
    e: ToolInvocationFailed,
    at: Moment,
    db: Database,
    was: Row,
    before: ToolInvocationRow,
    row: ToolInvocationRow,
    names: DomainNames,
    old: ToolInvocationRecord,
    record: ToolInvocationRecord,
)
    requires
        e.writes(at) is Writes,
        e.writes(at).statements().len() > 0,
        crate::model::passes_all(db, was, e.writes(at).statements()[0]->Update_filter),
        before.is_of(was),
        row.is_of(crate::laws::rows::updated_by(db, e.writes(at).statements()[0], was)),
        before.holds(&names, &old),
        row.holds(&names, &record),
    ensures
        record.state@ == e.outcome.spec_terminal_state().spec_name(),
        e.finished_at_ms <= i64::MAX ==> record.finished_at_ms == Some(e.finished_at_ms),
        record.outcome.deep_view() == Some(e.outcome.spec_name()),
        record.error_message.deep_view() == e.error_message.deep_view(),
        record.invocation_id@ == old.invocation_id@,
        record.project@ == old.project@,
        record.session_id.deep_view() == old.session_id.deep_view(),
        record.run_id.deep_view() == old.run_id.deep_view(),
        record.task_id.deep_view() == old.task_id.deep_view(),
        record.prompt_release_id.deep_view() == old.prompt_release_id.deep_view(),
        record.target@ == old.target@,
        record.execution_class@ == old.execution_class@,
        0 <= before.version ==> record.version == old.version + 1,
        record.requested_at_ms == old.requested_at_ms,
        record.started_at_ms == old.started_at_ms,
        record.args_json.deep_view() == old.args_json.deep_view(),
        record.output_preview.deep_view() == if e.output_preview is Some {
            e.output_preview.deep_view()
        } else {
            old.output_preview.deep_view()
        },
{
    broadcast use group_rows;
}

} // verus!
