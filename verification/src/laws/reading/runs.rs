//! What is read back of what was written: runs.

use crate::domain::DomainNames;
use crate::laws::rows::group_rows;
use crate::model::{Database, Datum, Row};
use crate::plan::Moment;
use crate::projections::approvals::{
    PlanApproved, PlanProposed, PlanRejected, PlanRevisionRequested,
};
use crate::projections::evals::OutcomeRecorded;
use crate::projections::runs::{
    RunCompletionAnnotated, RunCreated, RunStateChanged, SubagentSpawned, TerminalRecoveryAttempted,
};
use crate::schema::{Column, Table};
use crate::read::StoredRow;
use crate::read::runs::{
    OutcomeRecord, OutcomeRow, PauseScheduleRow, PauseScheduledRecord, PlanReviewRecord,
    PlanReviewRow, RunRecord, RunRow, SubagentSpawnRecord, SubagentSpawnRow,
};
use crate::vocabulary::PlanReviewState;
use vstd::prelude::*;

verus! {

/// The record that is read back after a `RunCreated` event holds what the event says.
pub proof fn run_created_is_read_back(
    e: RunCreated,
    at: Moment,
    db: Database,
    row: RunRow,
    names: DomainNames,
    record: RunRecord,
)
    requires
        e.writes(at) is Writes,
        e.writes(at).statements().len() > 0,
        row.is_of(crate::laws::rows::left_by(db, e.writes(at).statements()[0], None)),
        row.holds(&names, &record),
    ensures
        record.run_id@ == e.run_id@,
        record.session_id@ == e.session_id@,
        record.parent_run_id.deep_view() == e.parent_run_id.deep_view(),
        record.project@ == e.project@,
        record.state@ == "pending"@,
        record.version == 1,
        record.created_at == at.now as u64,
        record.updated_at == at.now as u64,
        (row.completion_verification is Some
            ==> row.completion_verification->Some_0.fault is None)
            && row.completion_annotated_at_ms is None
            && names.run_states.deep_view().contains("pending"@) && row.failure_class is None
            && (row.terminal_write_recovery is Some
            ==> row.terminal_write_recovery->Some_0.fault is None) ==> row.fault(&names) is None,
        record.prompt_release_id is None,
        record.agent_role_id is None,
        db.default_of(Table::Runs, Column::FailureClass) == Datum::Null
            ==> record.failure_class is None,
        record.pause_reason is None,
        record.resume_trigger is None,
        db.default_of(Table::Runs, Column::CompletionSummary) == Datum::Null
            ==> record.completion_summary is None,
        db.default_of(Table::Runs, Column::CompletionAnnotatedAtMs) == Datum::Null
            ==> record.completion_annotated_at_ms is None,
        db.default_of(Table::Runs, Column::CompletionVerificationJson) == Datum::Null
            ==> record.completion_verification is None,
        db.default_of(Table::Runs, Column::TerminalWriteRecoveryJson) == Datum::Null
            ==> record.terminal_write_recovery is None,
        db.default_of(Table::Runs, Column::InFlightDescendants) == Datum::Int(
            row.in_flight_descendants as int,
        ),
        record.in_flight_descendants == row.in_flight_descendants,
        db.default_of(Table::Runs, Column::Iteration) == Datum::Int(row.iteration as int),
        record.iteration == crate::read::floor4(row.iteration),
        e.parent_run_id is None ==> record.root_run_id.deep_view() == Some(e.run_id@),
        e.parent_run_id is Some ==> Datum::opt_text(record.root_run_id) == crate::model::of_run(
            db,
            e.parent_run_id->Some_0@,
            Column::RootRunId,
        ),
{
    broadcast use group_rows;
}

/// The record that is read back after a `SubagentSpawned` event holds what the event says.
pub proof fn subagent_spawned_is_read_back(
    e: SubagentSpawned,
    at: Moment,
    db: Database,
    row: SubagentSpawnRow,
    names: DomainNames,
    record: SubagentSpawnRecord,
)
    requires
        e.writes(at) is Writes,
        e.writes(at).statements().len() > 0,
        row.is_of(crate::laws::rows::left_by(db, e.writes(at).statements()[0], None)),
        row.holds(&names, &record),
    ensures
        record.child_task_id@ == e.child_task_id@,
        record.project@ == e.project@,
        record.parent_run_id@ == e.parent_run_id@,
        record.parent_task_id.deep_view() == e.parent_task_id.deep_view(),
        record.child_session_id@ == e.child_session_id@,
        record.child_run_id.deep_view() == e.child_run_id.deep_view(),
        record.spawned_at_ms == crate::read::floor8(at.now),
        record.goal@ == e.goal@,
        record.role@ == e.role@,
{
    broadcast use group_rows;
}

/// The record that is read back after a `OutcomeRecorded` event holds what the event says.
pub proof fn outcome_recorded_is_read_back(
    e: OutcomeRecorded,
    at: Moment,
    db: Database,
    row: OutcomeRow,
    names: DomainNames,
    record: OutcomeRecord,
)
    requires
        e.writes(at) is Writes,
        e.writes(at).statements().len() > 0,
        row.is_of(crate::laws::rows::left_by(db, e.writes(at).statements()[0], None)),
        row.holds(&names, &record),
    ensures
        record.outcome_id@ == e.outcome_id@,
        record.run_id@ == e.run_id@,
        record.project@ == e.project@,
        record.agent_type@ == e.agent_type@,
        record.predicted_confidence == e.predicted_confidence,
        record.actual_outcome == e.actual_outcome,
        e.recorded_at <= i64::MAX ==> record.recorded_at == e.recorded_at,
        row.fault(&names) is None,
{
    broadcast use group_rows;

    crate::vocabulary::actual_outcome_names_are_inverse(
        e.actual_outcome,
        e.actual_outcome.spec_name(),
    );
}

/// The record that is read back after a `PlanProposed` event holds what the event says.
pub proof fn plan_proposed_is_read_back(
    e: PlanProposed,
    at: Moment,
    db: Database,
    row: PlanReviewRow,
    names: DomainNames,
    record: PlanReviewRecord,
)
    requires
        e.writes(at) is Writes,
        e.writes(at).statements().len() > 0,
        row.is_of(crate::laws::rows::left_by(db, e.writes(at).statements()[0], None)),
        row.holds(&names, &record),
    ensures
        record.plan_run_id@ == e.plan_run_id@,
        record.project@ == e.project@,
        record.session_id@ == e.session_id@,
        record.plan_markdown@ == e.plan_markdown@,
        record.state == PlanReviewState::Proposed,
        e.proposed_at <= i64::MAX ==> record.proposed_at == e.proposed_at,
        row.fault(&names) is None,
        db.default_of(Table::PlanReviews, Column::ResolvedBy) == Datum::Null
            ==> record.resolved_by is None,
        db.default_of(Table::PlanReviews, Column::ResolvedAt) == Datum::Null
            ==> record.resolved_at is None,
        db.default_of(Table::PlanReviews, Column::ReviewerComments) == Datum::Null
            ==> record.reviewer_comments is None,
        db.default_of(Table::PlanReviews, Column::RejectionReason) == Datum::Null
            ==> record.rejection_reason is None,
        db.default_of(Table::PlanReviews, Column::RevisionRunId) == Datum::Null
            ==> record.revision_run_id is None,
{
    broadcast use group_rows;

    crate::vocabulary::plan_review_state_names_are_inverse(
        PlanReviewState::Proposed,
        PlanReviewState::Proposed.spec_name(),
    );
}

/// The record that is read back of a row that a `PlanApproved` event changes holds what the
/// event says.
pub proof fn plan_approved_is_read_back(
    e: PlanApproved,
    at: Moment,
    db: Database,
    was: Row,
    before: PlanReviewRow,
    row: PlanReviewRow,
    names: DomainNames,
    old: PlanReviewRecord,
    record: PlanReviewRecord,
)
    requires
        e.writes(at) is Writes,
        e.writes(at).statements().len() > 0,
        crate::model::passes_all(db, was, e.writes(at).statements()[0]->Update_filter),
        before.is_of(was),
        row.is_of(crate::laws::rows::updated_by(db, e.writes(at).statements()[0], was)),
        before.holds(&names, &old),
        row.holds(&names, &record),
    ensures
        record.state == PlanReviewState::Approved,
        record.resolved_by.deep_view() == Some(e.approved_by@),
        e.approved_at <= i64::MAX ==> record.resolved_at == Some(e.approved_at),
        record.reviewer_comments.deep_view() == e.reviewer_comments.deep_view(),
        record.plan_run_id@ == old.plan_run_id@,
        record.project@ == old.project@,
        record.session_id@ == old.session_id@,
        record.plan_markdown@ == old.plan_markdown@,
        record.proposed_at == old.proposed_at,
        record.rejection_reason.deep_view() == old.rejection_reason.deep_view(),
        record.revision_run_id.deep_view() == old.revision_run_id.deep_view(),
{
    broadcast use group_rows;

    crate::vocabulary::plan_review_state_names_are_inverse(
        PlanReviewState::Approved,
        PlanReviewState::Approved.spec_name(),
    );
}

/// The record that is read back of a row that a `PlanRejected` event changes holds what the
/// event says.
pub proof fn plan_rejected_is_read_back(
    e: PlanRejected,
    at: Moment,
    db: Database,
    was: Row,
    before: PlanReviewRow,
    row: PlanReviewRow,
    names: DomainNames,
    old: PlanReviewRecord,
    record: PlanReviewRecord,
)
    requires
        e.writes(at) is Writes,
        e.writes(at).statements().len() > 0,
        crate::model::passes_all(db, was, e.writes(at).statements()[0]->Update_filter),
        before.is_of(was),
        row.is_of(crate::laws::rows::updated_by(db, e.writes(at).statements()[0], was)),
        before.holds(&names, &old),
        row.holds(&names, &record),
    ensures
        record.state == PlanReviewState::Rejected,
        record.resolved_by.deep_view() == Some(e.rejected_by@),
        e.rejected_at <= i64::MAX ==> record.resolved_at == Some(e.rejected_at),
        record.rejection_reason.deep_view() == Some(e.reason@),
        record.plan_run_id@ == old.plan_run_id@,
        record.project@ == old.project@,
        record.session_id@ == old.session_id@,
        record.plan_markdown@ == old.plan_markdown@,
        record.proposed_at == old.proposed_at,
        record.reviewer_comments.deep_view() == old.reviewer_comments.deep_view(),
        record.revision_run_id.deep_view() == old.revision_run_id.deep_view(),
{
    broadcast use group_rows;

    crate::vocabulary::plan_review_state_names_are_inverse(
        PlanReviewState::Rejected,
        PlanReviewState::Rejected.spec_name(),
    );
}

/// The record that is read back of a row that a `PlanRevisionRequested` event changes holds
/// what the event says.
pub proof fn plan_revision_requested_is_read_back(
    e: PlanRevisionRequested,
    at: Moment,
    db: Database,
    was: Row,
    before: PlanReviewRow,
    row: PlanReviewRow,
    names: DomainNames,
    old: PlanReviewRecord,
    record: PlanReviewRecord,
)
    requires
        e.writes(at) is Writes,
        e.writes(at).statements().len() > 0,
        crate::model::passes_all(db, was, e.writes(at).statements()[0]->Update_filter),
        before.is_of(was),
        row.is_of(crate::laws::rows::updated_by(db, e.writes(at).statements()[0], was)),
        before.holds(&names, &old),
        row.holds(&names, &record),
    ensures
        record.state == PlanReviewState::RevisionRequested,
        e.requested_at <= i64::MAX ==> record.resolved_at == Some(e.requested_at),
        record.reviewer_comments.deep_view() == Some(e.reviewer_comments@),
        record.revision_run_id.deep_view() == Some(e.new_plan_run_id@),
        record.plan_run_id@ == old.plan_run_id@,
        record.project@ == old.project@,
        record.session_id@ == old.session_id@,
        record.plan_markdown@ == old.plan_markdown@,
        record.proposed_at == old.proposed_at,
        record.resolved_by.deep_view() == old.resolved_by.deep_view(),
        record.rejection_reason.deep_view() == old.rejection_reason.deep_view(),
{
    broadcast use group_rows;

    crate::vocabulary::plan_review_state_names_are_inverse(
        PlanReviewState::RevisionRequested,
        PlanReviewState::RevisionRequested.spec_name(),
    );
}

/// The record that is read back of a row that a `RunCompletionAnnotated` event changes holds
/// what the event says.
pub proof fn run_completion_annotated_is_read_back(
    e: RunCompletionAnnotated,
    at: Moment,
    db: Database,
    was: Row,
    before: RunRow,
    row: RunRow,
    names: DomainNames,
    old: RunRecord,
    record: RunRecord,
)
    requires
        e.writes(at) is Writes,
        e.writes(at).statements().len() > 0,
        crate::model::passes_all(db, was, e.writes(at).statements()[0]->Update_filter),
        before.is_of(was),
        row.is_of(crate::laws::rows::updated_by(db, e.writes(at).statements()[0], was)),
        before.holds(&names, &old),
        row.holds(&names, &record),
    ensures
        record.updated_at == at.now as u64,
        record.completion_summary.deep_view() == Some(e.summary@),
        record.completion_verification.deep_view() == Some(e.verification_json@),
        e.occurred_at_ms <= i64::MAX
            ==> record.completion_annotated_at_ms == Some(e.occurred_at_ms),
        record.run_id@ == old.run_id@,
        record.session_id@ == old.session_id@,
        record.parent_run_id.deep_view() == old.parent_run_id.deep_view(),
        record.project@ == old.project@,
        record.state@ == old.state@,
        record.prompt_release_id.deep_view() == old.prompt_release_id.deep_view(),
        record.agent_role_id.deep_view() == old.agent_role_id.deep_view(),
        record.failure_class.deep_view() == old.failure_class.deep_view(),
        record.pause_reason.deep_view() == old.pause_reason.deep_view(),
        record.resume_trigger.deep_view() == old.resume_trigger.deep_view(),
        0 <= before.version ==> record.version == old.version + 1,
        record.created_at == old.created_at,
        record.terminal_write_recovery.deep_view() == old.terminal_write_recovery.deep_view(),
        record.in_flight_descendants == old.in_flight_descendants,
        record.root_run_id.deep_view() == old.root_run_id.deep_view(),
        record.iteration == old.iteration,
{
    broadcast use group_rows;
}

/// The record that is read back of a row that a `TerminalRecoveryAttempted` event changes holds
/// what the event says.
pub proof fn terminal_recovery_attempted_is_read_back(
    e: TerminalRecoveryAttempted,
    at: Moment,
    db: Database,
    was: Row,
    before: RunRow,
    row: RunRow,
    names: DomainNames,
    old: RunRecord,
    record: RunRecord,
)
    requires
        e.writes(at) is Writes,
        e.writes(at).statements().len() > 0,
        crate::model::passes_all(db, was, e.writes(at).statements()[0]->Update_filter),
        before.is_of(was),
        row.is_of(crate::laws::rows::updated_by(db, e.writes(at).statements()[0], was)),
        before.holds(&names, &old),
        row.holds(&names, &record),
    ensures
        record.updated_at == at.now as u64,
        record.terminal_write_recovery.deep_view() == Some(e.recovery_json@),
        record.run_id@ == old.run_id@,
        record.session_id@ == old.session_id@,
        record.parent_run_id.deep_view() == old.parent_run_id.deep_view(),
        record.project@ == old.project@,
        record.state@ == old.state@,
        record.prompt_release_id.deep_view() == old.prompt_release_id.deep_view(),
        record.agent_role_id.deep_view() == old.agent_role_id.deep_view(),
        record.failure_class.deep_view() == old.failure_class.deep_view(),
        record.pause_reason.deep_view() == old.pause_reason.deep_view(),
        record.resume_trigger.deep_view() == old.resume_trigger.deep_view(),
        0 <= before.version ==> record.version == old.version + 1,
        record.created_at == old.created_at,
        record.completion_summary.deep_view() == old.completion_summary.deep_view(),
        record.completion_verification.deep_view() == old.completion_verification.deep_view(),
        record.completion_annotated_at_ms == old.completion_annotated_at_ms,
        record.in_flight_descendants == old.in_flight_descendants,
        record.root_run_id.deep_view() == old.root_run_id.deep_view(),
        record.iteration == old.iteration,
{
    broadcast use group_rows;
}

/// The record that is read back of a row that a `RunStateChanged` event changes holds what
/// the event says.
pub proof fn run_state_changed_is_read_back(
    e: RunStateChanged,
    at: Moment,
    db: Database,
    was: Row,
    before: RunRow,
    row: RunRow,
    names: DomainNames,
    old: RunRecord,
    record: RunRecord,
)
    requires
        crate::model::passes_all(db, was, e.run_update(at)->Update_filter),
        before.is_of(was),
        row.is_of(crate::laws::rows::updated_by(db, e.run_update(at), was)),
        before.holds(&names, &old),
        row.holds(&names, &record),
    ensures
        record.state@ == e.to@,
        record.failure_class.deep_view() == e.failure_class.deep_view(),
        record.updated_at == at.now as u64,
        record.run_id@ == old.run_id@,
        record.session_id@ == old.session_id@,
        record.parent_run_id.deep_view() == old.parent_run_id.deep_view(),
        record.project@ == old.project@,
        record.prompt_release_id.deep_view() == old.prompt_release_id.deep_view(),
        record.agent_role_id.deep_view() == old.agent_role_id.deep_view(),
        record.pause_reason.deep_view() == old.pause_reason.deep_view(),
        record.resume_trigger.deep_view() == old.resume_trigger.deep_view(),
        0 <= before.version ==> record.version == old.version + 1,
        record.created_at == old.created_at,
        record.completion_summary.deep_view() == old.completion_summary.deep_view(),
        record.completion_verification.deep_view() == old.completion_verification.deep_view(),
        record.completion_annotated_at_ms == old.completion_annotated_at_ms,
        record.terminal_write_recovery.deep_view() == old.terminal_write_recovery.deep_view(),
        record.in_flight_descendants == old.in_flight_descendants,
        record.root_run_id.deep_view() == old.root_run_id.deep_view(),
        record.iteration == old.iteration,
{
    broadcast use group_rows;
}

/// The record that is read back of a pause that a `RunStateChanged` event enters holds what the
/// event says, and the time at which the run goes on.
pub proof fn a_pause_is_read_back(
    e: RunStateChanged,
    at: Moment,
    db: Database,
    was: Option<Row>,
    before: PauseScheduleRow,
    row: PauseScheduleRow,
    names: DomainNames,
    old: PauseScheduledRecord,
    record: PauseScheduledRecord,
)
    requires
        e.to@ == "paused"@,
        e.resume_after_ms is Some,
        was is Some ==> crate::laws::rows::replaces(db, e.schedule_update(at)[0], was->Some_0),
        was is Some ==> before.is_of(was->Some_0) && before.holds(&names, &old),
        row.is_of(crate::laws::rows::left_by(db, e.schedule_update(at)[0], was)),
        row.holds(&names, &record),
    ensures
        record.run_id@ == e.run_id@,
        was is None ==> record.project@ == e.project@,
        at.event_time_ms + e.resume_after_ms->Some_0 <= i64::MAX ==> record.resume_at_ms
            == at.event_time_ms + e.resume_after_ms->Some_0,
        at.event_time_ms + e.resume_after_ms->Some_0 > i64::MAX ==> record.resume_at_ms == i64::MAX,
        at.event_time_ms <= i64::MAX ==> record.created_at_ms == at.event_time_ms,
        was is Some ==> record.project@ == old.project@,
{
    broadcast use group_rows;

    let key = e.schedule_update(at)[0]->Insert_conflict->Merge_key;
    assert(key[0] == Column::RunId);
}

} // verus!
