//! What the events store: evals.

use crate::laws::rows::{group_filters, group_rows};
use crate::model::{Database, Datum, Row};
use crate::plan::{Moment, Planned};
use crate::projections::evals::{
    EvalBaselineLocked, EvalBaselineSet, EvalDatasetCreated, EvalDatasetEntryAdded,
    EvalRubricCreated, EvalRubricScored, EvalRunArchived, EvalRunCompleted, EvalRunScored,
    EvalRunStarted, OutcomeRecorded,
};
use crate::schema::{Column, Table};
use crate::statement::{ConflictView, GuardView};
use crate::value::ValueView;
use vstd::prelude::*;

verus! {

/// What a [`EvalRunStarted`] event stores.
pub proof fn eval_run_started_is_stored(
    e: EvalRunStarted,
    at: Moment,
    db: Database,
    was: Row,
    other: Column,
)
    ensures
        ({
            let s = e.writes(at).statements()[0];
            let new = crate::laws::rows::left_by(db, s, None);
            &&& e.writes(at) is Writes
            &&& e.writes(at).statements().len() == 1
            &&& s is Insert && s.table() == Table::EvalRuns
            &&& crate::model::value(new, Column::EvalRunId) == Datum::Text(e.eval_run_id@)
            &&& crate::model::value(new, Column::TenantId) == Datum::Text(e.project.tenant_id@)
            &&& crate::model::value(new, Column::WorkspaceId)
                == Datum::Text(e.project.workspace_id@)
            &&& crate::model::value(new, Column::ProjectId) == Datum::Text(e.project.project_id@)
            &&& crate::model::value(new, Column::SubjectKind) == Datum::Text(e.subject_kind@)
            &&& crate::model::value(new, Column::EvaluatorType) == Datum::Text(e.evaluator_type@)
            &&& crate::model::value(new, Column::Success) == Datum::Null
            &&& crate::model::value(new, Column::ErrorMessage) == Datum::Null
            &&& crate::model::value(new, Column::StartedAt)
                == Datum::Int(e.started_at as i64 as int)
            &&& crate::model::value(new, Column::CompletedAt) == Datum::Null
            &&& crate::model::value(new, Column::ArchivedAt) == Datum::Null
            &&& crate::model::value(new, Column::MetricsJson) == Datum::Null
            &&& crate::model::value(new, Column::RubricScoreJson) == Datum::Null
            &&& crate::model::value(new, Column::DatasetId)
                == crate::laws::storing::optional_text(e.dataset_id)
            &&& crate::model::value(new, Column::RubricId)
                == crate::laws::storing::optional_text(e.rubric_id)
            &&& crate::model::value(new, Column::BaselineId)
                == crate::laws::storing::optional_text(e.baseline_id)
            &&& crate::model::value(new, Column::PromptAssetId)
                == crate::laws::storing::optional_text(e.prompt_asset_id)
            &&& crate::model::value(new, Column::PromptVersionId)
                == crate::laws::storing::optional_text(e.prompt_version_id)
            &&& crate::model::value(new, Column::PromptReleaseId)
                == crate::laws::storing::optional_text(e.prompt_release_id)
            &&& crate::model::value(new, Column::CreatedBy)
                == crate::laws::storing::optional_text(e.created_by)
            &&& other is EvalRunId || other is TenantId || other is WorkspaceId
                || other is ProjectId || other is SubjectKind || other is EvaluatorType
                || other is Success || other is ErrorMessage || other is StartedAt
                || other is CompletedAt || other is ArchivedAt || other is MetricsJson
                || other is RubricScoreJson || other is DatasetId || other is RubricId
                || other is BaselineId || other is PromptAssetId || other is PromptVersionId
                || other is PromptReleaseId || other is CreatedBy
                || crate::model::value(new, other) == db.default_of(Table::EvalRuns, other)
            &&& s->Insert_conflict == ConflictView::Ignore(seq![Column::EvalRunId])
        }),
{
    broadcast use {group_rows, group_filters};
}

/// What a [`EvalRunCompleted`] event stores.
pub proof fn eval_run_completed_is_stored(
    e: EvalRunCompleted,
    at: Moment,
    db: Database,
    was: Row,
    other: Column,
)
    ensures
        ({
            let s = e.writes(at).statements()[0];
            let updated = crate::laws::rows::updated_by(db, s, was);
            let selected = crate::model::value(was, Column::EvalRunId)
                == Datum::Text(e.eval_run_id@);
            &&& e.writes(at) is Writes
            &&& e.writes(at).statements().len() == 1
            &&& s is Update && s.table() == Table::EvalRuns
            &&& selected ==> {
                &&& crate::model::value(updated, Column::Success) == Datum::Bool(e.success)
                &&& crate::model::value(updated, Column::ErrorMessage)
                    == crate::laws::storing::optional_text(e.error_message)
                &&& crate::model::value(updated, Column::CompletedAt)
                    == Datum::Int(e.completed_at as i64 as int)
                &&& other is Success || other is ErrorMessage || other is CompletedAt
                    || crate::model::value(updated, other) == crate::model::value(was, other)
            }
            &&& !selected ==> updated == was
        }),
{
    broadcast use {group_rows, group_filters};
}

/// What a [`EvalRunArchived`] event stores.
pub proof fn eval_run_archived_is_stored(
    e: EvalRunArchived,
    at: Moment,
    db: Database,
    was: Row,
    other: Column,
)
    ensures
        ({
            let s = e.writes(at).statements()[0];
            let updated = crate::laws::rows::updated_by(db, s, was);
            let selected = crate::model::value(was, Column::EvalRunId)
                == Datum::Text(e.eval_run_id@)
                && crate::model::value(was, Column::ArchivedAt) == Datum::Null;
            &&& e.writes(at) is Writes
            &&& e.writes(at).statements().len() == 1
            &&& s is Update && s.table() == Table::EvalRuns
            &&& selected ==> {
                &&& crate::model::value(updated, Column::ArchivedAt)
                    == Datum::Int(e.archived_at as i64 as int)
                &&& other is ArchivedAt
                    || crate::model::value(updated, other) == crate::model::value(was, other)
            }
            &&& !selected ==> updated == was
        }),
{
    broadcast use {group_rows, group_filters};
}

/// What a [`EvalRunScored`] event stores.
pub proof fn eval_run_scored_is_stored(
    e: EvalRunScored,
    at: Moment,
    db: Database,
    was: Row,
    other: Column,
)
    ensures
        ({
            let s = e.writes(at).statements()[0];
            let updated = crate::laws::rows::updated_by(db, s, was);
            let selected = crate::model::value(was, Column::EvalRunId)
                == Datum::Text(e.eval_run_id@);
            &&& e.writes(at) is Writes
            &&& e.writes(at).statements().len() == 1
            &&& s is Update && s.table() == Table::EvalRuns
            &&& selected ==> {
                &&& crate::model::value(updated, Column::MetricsJson)
                    == Datum::Text(e.metrics_json@)
                &&& other is MetricsJson
                    || crate::model::value(updated, other) == crate::model::value(was, other)
            }
            &&& !selected ==> updated == was
        }),
{
    broadcast use {group_rows, group_filters};
}

/// What a [`EvalRubricScored`] event stores.
pub proof fn eval_rubric_scored_is_stored(
    e: EvalRubricScored,
    at: Moment,
    db: Database,
    was: Row,
    other: Column,
)
    ensures
        ({
            let s = e.writes(at).statements()[0];
            let updated = crate::laws::rows::updated_by(db, s, was);
            let selected = crate::model::value(was, Column::EvalRunId)
                == Datum::Text(e.eval_run_id@);
            &&& e.writes(at) is Writes
            &&& e.writes(at).statements().len() == 1
            &&& s is Update && s.table() == Table::EvalRuns
            &&& selected ==> {
                &&& crate::model::value(updated, Column::RubricScoreJson)
                    == Datum::Text(e.rubric_score_json@)
                &&& other is RubricScoreJson
                    || crate::model::value(updated, other) == crate::model::value(was, other)
            }
            &&& !selected ==> updated == was
        }),
{
    broadcast use {group_rows, group_filters};
}

/// What a [`OutcomeRecorded`] event stores.
pub proof fn outcome_recorded_is_stored(
    e: OutcomeRecorded,
    at: Moment,
    db: Database,
    was: Row,
    other: Column,
)
    ensures
        e.recorded_at > i64::MAX
            ==> e.writes(at)
                == Planned::Refused(
                    crate::laws::storing::too_great(
                        "OutcomeRecorded.recorded_at"@,
                        e.recorded_at as nat,
                        "i64::MAX"@,
                    ),
                ),
        e.recorded_at <= i64::MAX ==> ({
            let s = e.writes(at).statements()[0];
            let new = crate::laws::rows::left_by(db, s, None);
            &&& e.writes(at) is Writes
            &&& e.writes(at).statements().len() == 1
            &&& s is Insert && s.table() == Table::Outcomes
            &&& crate::model::value(new, Column::OutcomeId) == Datum::Text(e.outcome_id@)
            &&& crate::model::value(new, Column::RunId) == Datum::Text(e.run_id@)
            &&& crate::model::value(new, Column::TenantId) == Datum::Text(e.project.tenant_id@)
            &&& crate::model::value(new, Column::WorkspaceId)
                == Datum::Text(e.project.workspace_id@)
            &&& crate::model::value(new, Column::ProjectId) == Datum::Text(e.project.project_id@)
            &&& crate::model::value(new, Column::AgentType) == Datum::Text(e.agent_type@)
            &&& crate::model::value(new, Column::PredictedConfidence)
                == Datum::Float8(e.predicted_confidence)
            &&& crate::model::value(new, Column::ActualOutcome)
                == Datum::Text(e.actual_outcome.spec_name())
            &&& crate::model::value(new, Column::RecordedAt)
                == Datum::Int(e.recorded_at as i64 as int)
            &&& other is OutcomeId || other is RunId || other is TenantId || other is WorkspaceId
                || other is ProjectId || other is AgentType || other is PredictedConfidence
                || other is ActualOutcome || other is RecordedAt
                || crate::model::value(new, other) == db.default_of(Table::Outcomes, other)
            &&& s->Insert_conflict == ConflictView::Ignore(seq![Column::OutcomeId])
        }),
{
    broadcast use {group_rows, group_filters};
}

/// What a [`EvalDatasetCreated`] event stores.
pub proof fn eval_dataset_created_is_stored(
    e: EvalDatasetCreated,
    at: Moment,
    db: Database,
    was: Row,
    other: Column,
)
    ensures
        e.created_at_ms > i64::MAX
            ==> e.writes(at)
                == Planned::Refused(
                    crate::laws::storing::too_great(
                        "EvalDatasetCreated.created_at_ms"@,
                        e.created_at_ms as nat,
                        "i64::MAX"@,
                    ),
                ),
        e.created_at_ms <= i64::MAX ==> ({
            let s = e.writes(at).statements()[0];
            let new = crate::laws::rows::left_by(db, s, None);
            &&& e.writes(at) is Writes
            &&& e.writes(at).statements().len() == 1
            &&& s is Insert && s.table() == Table::EvalDatasets
            &&& crate::model::value(new, Column::DatasetId) == Datum::Text(e.dataset_id@)
            &&& crate::model::value(new, Column::TenantId) == Datum::Text(""@)
            &&& crate::model::value(new, Column::Name) == Datum::Text(e.name@)
            &&& crate::model::value(new, Column::SubjectKind) == Datum::Text("prompt_release"@)
            &&& crate::model::value(new, Column::CreatedAtMs)
                == Datum::Int(e.created_at_ms as i64 as int)
            &&& other is DatasetId || other is TenantId || other is Name || other is SubjectKind
                || other is CreatedAtMs
                || crate::model::value(new, other) == db.default_of(Table::EvalDatasets, other)
            &&& s->Insert_conflict == ConflictView::Ignore(seq![Column::DatasetId])
        }),
{
    broadcast use {group_rows, group_filters};
}

/// What a [`EvalDatasetEntryAdded`] event stores.
pub proof fn eval_dataset_entry_added_is_stored(
    e: EvalDatasetEntryAdded,
    at: Moment,
    db: Database,
    was: Row,
    other: Column,
)
    ensures
        e.added_at_ms > i64::MAX
            ==> e.writes(at)
                == Planned::Refused(
                    crate::laws::storing::too_great(
                        "EvalDatasetEntryAdded.added_at_ms"@,
                        e.added_at_ms as nat,
                        "i64::MAX"@,
                    ),
                ),
        e.added_at_ms <= i64::MAX ==> ({
            let s = e.writes(at).statements()[0];
            let new = crate::laws::rows::left_by(db, s, None);
            &&& e.writes(at) is Writes
            &&& e.writes(at).statements().len() == 1
            &&& s is Insert && s.table() == Table::EvalDatasetEntries
            &&& crate::model::value(new, Column::DatasetId) == Datum::Text(e.dataset_id@)
            &&& crate::model::value(new, Column::EntryId) == Datum::Text(e.entry_id@)
            &&& crate::model::value(new, Column::AddedAtMs)
                == Datum::Int(e.added_at_ms as i64 as int)
            &&& other is DatasetId || other is EntryId || other is AddedAtMs
                || crate::model::value(new, other)
                    == db.default_of(Table::EvalDatasetEntries, other)
            &&& s->Insert_conflict == ConflictView::Ignore(seq![Column::DatasetId, Column::EntryId])
        }),
{
    broadcast use {group_rows, group_filters};
}

/// What a [`EvalRubricCreated`] event stores.
pub proof fn eval_rubric_created_is_stored(
    e: EvalRubricCreated,
    at: Moment,
    db: Database,
    was: Row,
    other: Column,
)
    ensures
        e.created_at_ms > i64::MAX
            ==> e.writes(at)
                == Planned::Refused(
                    crate::laws::storing::too_great(
                        "EvalRubricCreated.created_at_ms"@,
                        e.created_at_ms as nat,
                        "i64::MAX"@,
                    ),
                ),
        e.created_at_ms <= i64::MAX ==> ({
            let s = e.writes(at).statements()[0];
            let new = crate::laws::rows::left_by(db, s, None);
            &&& e.writes(at) is Writes
            &&& e.writes(at).statements().len() == 1
            &&& s is Insert && s.table() == Table::EvalRubrics
            &&& crate::model::value(new, Column::RubricId) == Datum::Text(e.rubric_id@)
            &&& crate::model::value(new, Column::TenantId) == Datum::Text(""@)
            &&& crate::model::value(new, Column::Name) == Datum::Text(e.name@)
            &&& crate::model::value(new, Column::DimensionsJson) == Datum::Text("[]"@)
            &&& crate::model::value(new, Column::CreatedAtMs)
                == Datum::Int(e.created_at_ms as i64 as int)
            &&& other is RubricId || other is TenantId || other is Name || other is DimensionsJson
                || other is CreatedAtMs
                || crate::model::value(new, other) == db.default_of(Table::EvalRubrics, other)
            &&& s->Insert_conflict == ConflictView::Ignore(seq![Column::RubricId])
        }),
{
    broadcast use {group_rows, group_filters};
}

/// What a [`EvalBaselineSet`] event stores.
pub proof fn eval_baseline_set_is_stored(
    e: EvalBaselineSet,
    at: Moment,
    db: Database,
    was: Row,
    other: Column,
)
    ensures
        e.set_at_ms > i64::MAX
            ==> e.writes(at)
                == Planned::Refused(
                    crate::laws::storing::too_great(
                        "EvalBaselineSet.set_at_ms"@,
                        e.set_at_ms as nat,
                        "i64::MAX"@,
                    ),
                ),
        e.set_at_ms <= i64::MAX ==> ({
            let s = e.writes(at).statements()[0];
            let merged = crate::laws::rows::left_by(db, s, Some(was));
            let new = crate::laws::rows::left_by(db, s, None);
            &&& e.writes(at) is Writes
            &&& e.writes(at).statements().len() == 1
            &&& s is Insert && s.table() == Table::EvalBaselines
            &&& crate::model::value(new, Column::BaselineId) == Datum::Text(e.baseline_id@)
            &&& crate::model::value(new, Column::TenantId) == Datum::Text(""@)
            &&& crate::model::value(new, Column::Name)
                == Datum::Text(e.baseline_id@ + "["@ + e.metric@ + "="@ + e.value@ + "]"@)
            &&& crate::model::value(new, Column::PromptAssetId) == Datum::Text(""@)
            &&& crate::model::value(new, Column::MetricsJson) == Datum::Text("{}"@)
            &&& crate::model::value(new, Column::CreatedAtMs)
                == Datum::Int(e.set_at_ms as i64 as int)
            &&& crate::model::value(new, Column::Locked) == Datum::Int(0)
            &&& other is BaselineId || other is TenantId || other is Name || other is PromptAssetId
                || other is MetricsJson || other is CreatedAtMs || other is Locked
                || crate::model::value(new, other) == db.default_of(Table::EvalBaselines, other)
            &&& s->Insert_conflict is Merge
            &&& s->Insert_conflict->Merge_key == seq![Column::BaselineId]
            &&& s->Insert_conflict->Merge_guard
                == GuardView::StoredIs(Column::Locked, ValueView::Int4(0))
            &&& crate::model::value(merged, Column::Name)
                == Datum::Text(e.baseline_id@ + "["@ + e.metric@ + "="@ + e.value@ + "]"@)
            &&& other is Name
                || crate::model::value(merged, other) == crate::model::value(was, other)
        }),
{
    broadcast use {group_rows, group_filters};
}

/// What a [`EvalBaselineLocked`] event stores.
pub proof fn eval_baseline_locked_is_stored(
    e: EvalBaselineLocked,
    at: Moment,
    db: Database,
    was: Row,
    other: Column,
)
    ensures
        ({
            let s = e.writes(at).statements()[0];
            let updated = crate::laws::rows::updated_by(db, s, was);
            let selected = crate::model::value(was, Column::BaselineId)
                == Datum::Text(e.baseline_id@);
            &&& e.writes(at) is Writes
            &&& e.writes(at).statements().len() == 1
            &&& s is Update && s.table() == Table::EvalBaselines
            &&& selected ==> {
                &&& crate::model::value(updated, Column::Locked) == Datum::Int(1)
                &&& other is Locked
                    || crate::model::value(updated, other) == crate::model::value(was, other)
            }
            &&& !selected ==> updated == was
        }),
{
    broadcast use {group_rows, group_filters};
}

} // verus!
