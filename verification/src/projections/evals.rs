//! What evaluation events write.

use crate::domain::ProjectKey;
use crate::error::{ErrorView, StoreError};
use crate::plan::{one, Moment, Planned};
use crate::schema::{Column, Table};
use crate::statement::{
    only, Cells, Changes, ChangesView, Filter, FilterView, Guard, GuardView, RowView, Statement,
    Test, TestView,
};
use crate::text::fits_i64;
use crate::value::{opt_text, text, SqlType, SqlValue, ValueView};
use crate::vocabulary::ActualOutcome;
use vstd::prelude::*;
use vstd::string::*;

verus! {

/// An evaluation run started.
#[derive(Debug, PartialEq, Eq)]
pub struct EvalRunStarted {
    pub eval_run_id: String,
    pub project: ProjectKey,
    pub subject_kind: String,
    pub evaluator_type: String,
    pub started_at: u64,
    pub dataset_id: Option<String>,
    pub rubric_id: Option<String>,
    pub baseline_id: Option<String>,
    pub prompt_asset_id: Option<String>,
    pub prompt_version_id: Option<String>,
    pub prompt_release_id: Option<String>,
    pub created_by: Option<String>,
}

impl EvalRunStarted {
    /// What the event writes.
    pub open spec fn writes(self, at: Moment) -> Planned {
        Planned::Writes(
            seq![
                RowView::new()
                    .put(Column::EvalRunId, ValueView::Text(self.eval_run_id@))
                    .put(Column::TenantId, ValueView::Text(self.project.tenant_id@))
                    .put(Column::WorkspaceId, ValueView::Text(self.project.workspace_id@))
                    .put(Column::ProjectId, ValueView::Text(self.project.project_id@))
                    .put(Column::SubjectKind, ValueView::Text(self.subject_kind@))
                    .put(Column::EvaluatorType, ValueView::Text(self.evaluator_type@))
                    .put(Column::Success, ValueView::Null(SqlType::Bool))
                    .put(Column::ErrorMessage, ValueView::Null(SqlType::Text))
                    .put(Column::StartedAt, ValueView::Int8(self.started_at as i64))
                    .put(Column::CompletedAt, ValueView::Null(SqlType::Int8))
                    .put(Column::ArchivedAt, ValueView::Null(SqlType::Int8))
                    .put(Column::MetricsJson, ValueView::Null(SqlType::Text))
                    .put(Column::RubricScoreJson, ValueView::Null(SqlType::Text))
                    .put(Column::DatasetId, ValueView::opt_text(self.dataset_id))
                    .put(Column::RubricId, ValueView::opt_text(self.rubric_id))
                    .put(Column::BaselineId, ValueView::opt_text(self.baseline_id))
                    .put(Column::PromptAssetId, ValueView::opt_text(self.prompt_asset_id))
                    .put(Column::PromptVersionId, ValueView::opt_text(self.prompt_version_id))
                    .put(Column::PromptReleaseId, ValueView::opt_text(self.prompt_release_id))
                    .put(Column::CreatedBy, ValueView::opt_text(self.created_by))
                    .insert_new(Table::EvalRuns, seq![Column::EvalRunId]),
            ],
        )
    }

    /// Plans what the event writes.
    pub fn plan(&self, at: &Moment) -> (r: Result<Vec<Statement>, StoreError>)
        ensures
            Planned::of(r) == self.writes(*at),
    {
        let mut row = Cells::new();
        row.put(Column::EvalRunId, text(&self.eval_run_id));
        row.put(Column::TenantId, text(&self.project.tenant_id));
        row.put(Column::WorkspaceId, text(&self.project.workspace_id));
        row.put(Column::ProjectId, text(&self.project.project_id));
        row.put(Column::SubjectKind, text(&self.subject_kind));
        row.put(Column::EvaluatorType, text(&self.evaluator_type));
        row.put(Column::Success, SqlValue::Null(SqlType::Bool));
        row.put(Column::ErrorMessage, SqlValue::Null(SqlType::Text));
        row.put(Column::StartedAt, SqlValue::Int8(self.started_at as i64));
        row.put(Column::CompletedAt, SqlValue::Null(SqlType::Int8));
        row.put(Column::ArchivedAt, SqlValue::Null(SqlType::Int8));
        row.put(Column::MetricsJson, SqlValue::Null(SqlType::Text));
        row.put(Column::RubricScoreJson, SqlValue::Null(SqlType::Text));
        row.put(Column::DatasetId, opt_text(&self.dataset_id));
        row.put(Column::RubricId, opt_text(&self.rubric_id));
        row.put(Column::BaselineId, opt_text(&self.baseline_id));
        row.put(Column::PromptAssetId, opt_text(&self.prompt_asset_id));
        row.put(Column::PromptVersionId, opt_text(&self.prompt_version_id));
        row.put(Column::PromptReleaseId, opt_text(&self.prompt_release_id));
        row.put(Column::CreatedBy, opt_text(&self.created_by));
        one(row.insert_new(Table::EvalRuns, only(Column::EvalRunId)))
    }
}

/// An evaluation run completed.
#[derive(Debug, PartialEq, Eq)]
pub struct EvalRunCompleted {
    pub eval_run_id: String,
    pub success: bool,
    pub error_message: Option<String>,
    pub completed_at: u64,
}

impl EvalRunCompleted {
    /// What the event writes.
    pub open spec fn writes(self, at: Moment) -> Planned {
        Planned::Writes(
            seq![
                ChangesView::new()
                    .put(Column::Success, ValueView::Bool(self.success))
                    .put(Column::ErrorMessage, ValueView::opt_text(self.error_message))
                    .put(Column::CompletedAt, ValueView::Int8(self.completed_at as i64))
                    .update(
                        Table::EvalRuns,
                        FilterView::new()
                            .equals(Column::EvalRunId, ValueView::Text(self.eval_run_id@)),
                    ),
            ],
        )
    }

    /// Plans what the event writes.
    pub fn plan(&self, at: &Moment) -> (r: Result<Vec<Statement>, StoreError>)
        ensures
            Planned::of(r) == self.writes(*at),
    {
        let mut changes = Changes::new();
        changes.put(Column::Success, SqlValue::Bool(self.success));
        changes.put(Column::ErrorMessage, opt_text(&self.error_message));
        changes.put(Column::CompletedAt, SqlValue::Int8(self.completed_at as i64));
        let mut filter = Filter::new();
        filter.equals(Column::EvalRunId, text(&self.eval_run_id));
        one(changes.update(Table::EvalRuns, filter))
    }
}

/// An evaluation run was archived. The first time it was archived stays.
#[derive(Debug, PartialEq, Eq)]
pub struct EvalRunArchived {
    pub eval_run_id: String,
    pub archived_at: u64,
}

impl EvalRunArchived {
    /// What the event writes.
    pub open spec fn writes(self, at: Moment) -> Planned {
        Planned::Writes(
            seq![
                ChangesView::new()
                    .put(Column::ArchivedAt, ValueView::Int8(self.archived_at as i64))
                    .update(
                        Table::EvalRuns,
                        FilterView::new()
                            .equals(Column::EvalRunId, ValueView::Text(self.eval_run_id@))
                            .test(TestView::IsNull(Column::ArchivedAt)),
                    ),
            ],
        )
    }

    /// Plans what the event writes.
    pub fn plan(&self, at: &Moment) -> (r: Result<Vec<Statement>, StoreError>)
        ensures
            Planned::of(r) == self.writes(*at),
    {
        let mut changes = Changes::new();
        changes.put(Column::ArchivedAt, SqlValue::Int8(self.archived_at as i64));
        let mut filter = Filter::new();
        filter.equals(Column::EvalRunId, text(&self.eval_run_id));
        filter.test(Test::IsNull(Column::ArchivedAt));
        one(changes.update(Table::EvalRuns, filter))
    }
}

/// An evaluation run got its metrics.
#[derive(Debug, PartialEq, Eq)]
pub struct EvalRunScored {
    pub metrics_json: String,
    pub eval_run_id: String,
}

impl EvalRunScored {
    /// What the event writes.
    pub open spec fn writes(self, at: Moment) -> Planned {
        Planned::Writes(
            seq![
                ChangesView::new()
                    .put(Column::MetricsJson, ValueView::Text(self.metrics_json@))
                    .update(
                        Table::EvalRuns,
                        FilterView::new()
                            .equals(Column::EvalRunId, ValueView::Text(self.eval_run_id@)),
                    ),
            ],
        )
    }

    /// Plans what the event writes.
    pub fn plan(&self, at: &Moment) -> (r: Result<Vec<Statement>, StoreError>)
        ensures
            Planned::of(r) == self.writes(*at),
    {
        let mut changes = Changes::new();
        changes.put(Column::MetricsJson, text(&self.metrics_json));
        let mut filter = Filter::new();
        filter.equals(Column::EvalRunId, text(&self.eval_run_id));
        one(changes.update(Table::EvalRuns, filter))
    }
}

/// An evaluation run was scored by a rubric.
#[derive(Debug, PartialEq, Eq)]
pub struct EvalRubricScored {
    pub rubric_score_json: String,
    pub eval_run_id: String,
}

impl EvalRubricScored {
    /// What the event writes.
    pub open spec fn writes(self, at: Moment) -> Planned {
        Planned::Writes(
            seq![
                ChangesView::new()
                    .put(Column::RubricScoreJson, ValueView::Text(self.rubric_score_json@))
                    .update(
                        Table::EvalRuns,
                        FilterView::new()
                            .equals(Column::EvalRunId, ValueView::Text(self.eval_run_id@)),
                    ),
            ],
        )
    }

    /// Plans what the event writes.
    pub fn plan(&self, at: &Moment) -> (r: Result<Vec<Statement>, StoreError>)
        ensures
            Planned::of(r) == self.writes(*at),
    {
        let mut changes = Changes::new();
        changes.put(Column::RubricScoreJson, text(&self.rubric_score_json));
        let mut filter = Filter::new();
        filter.equals(Column::EvalRunId, text(&self.eval_run_id));
        one(changes.update(Table::EvalRuns, filter))
    }
}

/// The actual outcome of a prediction was recorded.
#[derive(Debug, PartialEq, Eq)]
pub struct OutcomeRecorded {
    pub recorded_at: u64,
    pub actual_outcome: ActualOutcome,
    pub outcome_id: String,
    pub run_id: String,
    pub project: ProjectKey,
    pub agent_type: String,
    /// By its IEEE 754 bits.
    pub predicted_confidence: u64,
}

impl OutcomeRecorded {
    /// What the event writes.
    pub open spec fn writes(self, at: Moment) -> Planned {
        if self.recorded_at > i64::MAX {
            Planned::Refused(
                ErrorView::exceeds(
                    "OutcomeRecorded.recorded_at"@,
                    self.recorded_at as nat,
                    "i64::MAX"@,
                ),
            )
        } else {
            Planned::Writes(
                seq![
                    RowView::new()
                        .put(Column::OutcomeId, ValueView::Text(self.outcome_id@))
                        .put(Column::RunId, ValueView::Text(self.run_id@))
                        .put(Column::TenantId, ValueView::Text(self.project.tenant_id@))
                        .put(Column::WorkspaceId, ValueView::Text(self.project.workspace_id@))
                        .put(Column::ProjectId, ValueView::Text(self.project.project_id@))
                        .put(Column::AgentType, ValueView::Text(self.agent_type@))
                        .put(
                            Column::PredictedConfidence,
                            ValueView::Float8(self.predicted_confidence),
                        )
                        .put(
                            Column::ActualOutcome,
                            ValueView::Text(self.actual_outcome.spec_name()),
                        )
                        .put(Column::RecordedAt, ValueView::Int8(self.recorded_at as i64))
                        .insert_new(Table::Outcomes, seq![Column::OutcomeId]),
                ],
            )
        }
    }

    /// Plans what the event writes.
    pub fn plan(&self, at: &Moment) -> (r: Result<Vec<Statement>, StoreError>)
        ensures
            Planned::of(r) == self.writes(*at),
    {
        let recorded_at: i64 = match fits_i64("OutcomeRecorded.recorded_at", self.recorded_at) {
            Ok(v) => v,
            Err(e) => return Err(e),
        };
        let mut row = Cells::new();
        row.put(Column::OutcomeId, text(&self.outcome_id));
        row.put(Column::RunId, text(&self.run_id));
        row.put(Column::TenantId, text(&self.project.tenant_id));
        row.put(Column::WorkspaceId, text(&self.project.workspace_id));
        row.put(Column::ProjectId, text(&self.project.project_id));
        row.put(Column::AgentType, text(&self.agent_type));
        row.put(Column::PredictedConfidence, SqlValue::Float8(self.predicted_confidence));
        row.put(Column::ActualOutcome, text(self.actual_outcome.name()));
        row.put(Column::RecordedAt, SqlValue::Int8(recorded_at));
        one(row.insert_new(Table::Outcomes, only(Column::OutcomeId)))
    }
}

/// An evaluation dataset was created.
#[derive(Debug, PartialEq, Eq)]
pub struct EvalDatasetCreated {
    pub created_at_ms: u64,
    pub dataset_id: String,
    pub name: String,
}

impl EvalDatasetCreated {
    /// What the event writes.
    pub open spec fn writes(self, at: Moment) -> Planned {
        if self.created_at_ms > i64::MAX {
            Planned::Refused(
                ErrorView::exceeds(
                    "EvalDatasetCreated.created_at_ms"@,
                    self.created_at_ms as nat,
                    "i64::MAX"@,
                ),
            )
        } else {
            Planned::Writes(
                seq![
                    RowView::new()
                        .put(Column::DatasetId, ValueView::Text(self.dataset_id@))
                        .put(Column::TenantId, ValueView::Text(""@))
                        .put(Column::Name, ValueView::Text(self.name@))
                        .put(Column::SubjectKind, ValueView::Text("prompt_release"@))
                        .put(Column::CreatedAtMs, ValueView::Int8(self.created_at_ms as i64))
                        .insert_new(Table::EvalDatasets, seq![Column::DatasetId]),
                ],
            )
        }
    }

    /// Plans what the event writes.
    pub fn plan(&self, at: &Moment) -> (r: Result<Vec<Statement>, StoreError>)
        ensures
            Planned::of(r) == self.writes(*at),
    {
        let created_at: i64 = match fits_i64(
            "EvalDatasetCreated.created_at_ms",
            self.created_at_ms,
        ) {
            Ok(v) => v,
            Err(e) => return Err(e),
        };
        let mut row = Cells::new();
        row.put(Column::DatasetId, text(&self.dataset_id));
        row.put(Column::TenantId, text(""));
        row.put(Column::Name, text(&self.name));
        row.put(Column::SubjectKind, text("prompt_release"));
        row.put(Column::CreatedAtMs, SqlValue::Int8(created_at));
        one(row.insert_new(Table::EvalDatasets, only(Column::DatasetId)))
    }
}

/// An entry was added to an evaluation dataset.
#[derive(Debug, PartialEq, Eq)]
pub struct EvalDatasetEntryAdded {
    pub added_at_ms: u64,
    pub dataset_id: String,
    pub entry_id: String,
}

impl EvalDatasetEntryAdded {
    /// What the event writes.
    pub open spec fn writes(self, at: Moment) -> Planned {
        if self.added_at_ms > i64::MAX {
            Planned::Refused(
                ErrorView::exceeds(
                    "EvalDatasetEntryAdded.added_at_ms"@,
                    self.added_at_ms as nat,
                    "i64::MAX"@,
                ),
            )
        } else {
            Planned::Writes(
                seq![
                    RowView::new()
                        .put(Column::DatasetId, ValueView::Text(self.dataset_id@))
                        .put(Column::EntryId, ValueView::Text(self.entry_id@))
                        .put(Column::AddedAtMs, ValueView::Int8(self.added_at_ms as i64))
                        .insert_new(
                            Table::EvalDatasetEntries,
                            seq![Column::DatasetId, Column::EntryId],
                        ),
                ],
            )
        }
    }

    /// Plans what the event writes.
    pub fn plan(&self, at: &Moment) -> (r: Result<Vec<Statement>, StoreError>)
        ensures
            Planned::of(r) == self.writes(*at),
    {
        let added_at: i64 = match fits_i64("EvalDatasetEntryAdded.added_at_ms", self.added_at_ms) {
            Ok(v) => v,
            Err(e) => return Err(e),
        };
        let mut row = Cells::new();
        row.put(Column::DatasetId, text(&self.dataset_id));
        row.put(Column::EntryId, text(&self.entry_id));
        row.put(Column::AddedAtMs, SqlValue::Int8(added_at));
        one(row.insert_new(Table::EvalDatasetEntries, vec![Column::DatasetId, Column::EntryId]))
    }
}

/// An evaluation rubric was created.
#[derive(Debug, PartialEq, Eq)]
pub struct EvalRubricCreated {
    pub created_at_ms: u64,
    pub rubric_id: String,
    pub name: String,
}

impl EvalRubricCreated {
    /// What the event writes.
    pub open spec fn writes(self, at: Moment) -> Planned {
        if self.created_at_ms > i64::MAX {
            Planned::Refused(
                ErrorView::exceeds(
                    "EvalRubricCreated.created_at_ms"@,
                    self.created_at_ms as nat,
                    "i64::MAX"@,
                ),
            )
        } else {
            Planned::Writes(
                seq![
                    RowView::new()
                        .put(Column::RubricId, ValueView::Text(self.rubric_id@))
                        .put(Column::TenantId, ValueView::Text(""@))
                        .put(Column::Name, ValueView::Text(self.name@))
                        .put(Column::DimensionsJson, ValueView::Text("[]"@))
                        .put(Column::CreatedAtMs, ValueView::Int8(self.created_at_ms as i64))
                        .insert_new(Table::EvalRubrics, seq![Column::RubricId]),
                ],
            )
        }
    }

    /// Plans what the event writes.
    pub fn plan(&self, at: &Moment) -> (r: Result<Vec<Statement>, StoreError>)
        ensures
            Planned::of(r) == self.writes(*at),
    {
        let created_at: i64 = match fits_i64(
            "EvalRubricCreated.created_at_ms",
            self.created_at_ms,
        ) {
            Ok(v) => v,
            Err(e) => return Err(e),
        };
        let mut row = Cells::new();
        row.put(Column::RubricId, text(&self.rubric_id));
        row.put(Column::TenantId, text(""));
        row.put(Column::Name, text(&self.name));
        row.put(Column::DimensionsJson, text("[]"));
        row.put(Column::CreatedAtMs, SqlValue::Int8(created_at));
        one(row.insert_new(Table::EvalRubrics, only(Column::RubricId)))
    }
}

/// An evaluation baseline was set. A locked one stays as it is.
#[derive(Debug, PartialEq, Eq)]
pub struct EvalBaselineSet {
    pub set_at_ms: u64,
    pub baseline_id: String,
    pub metric: String,
    pub value: String,
}

impl EvalBaselineSet {
    /// What the event writes.
    pub open spec fn writes(self, at: Moment) -> Planned {
        if self.set_at_ms > i64::MAX {
            Planned::Refused(
                ErrorView::exceeds(
                    "EvalBaselineSet.set_at_ms"@,
                    self.set_at_ms as nat,
                    "i64::MAX"@,
                ),
            )
        } else {
            Planned::Writes(
                seq![
                    RowView::new()
                        .put(Column::BaselineId, ValueView::Text(self.baseline_id@))
                        .put(Column::TenantId, ValueView::Text(""@))
                        .put(
                            Column::Name,
                            ValueView::Text(
                                self.baseline_id@ + "["@ + self.metric@ + "="@ + self.value@ + "]"@,
                            ),
                        )
                        .put(Column::PromptAssetId, ValueView::Text(""@))
                        .put(Column::MetricsJson, ValueView::Text("{}"@))
                        .put(Column::CreatedAtMs, ValueView::Int8(self.set_at_ms as i64))
                        .put(Column::Locked, ValueView::Int4(0))
                        .guarded_upsert(
                            Table::EvalBaselines,
                            seq![Column::BaselineId],
                            ChangesView::new().excluded(Column::Name),
                            GuardView::StoredIs(Column::Locked, ValueView::Int4(0)),
                        ),
                ],
            )
        }
    }

    /// Plans what the event writes.
    pub fn plan(&self, at: &Moment) -> (r: Result<Vec<Statement>, StoreError>)
        ensures
            Planned::of(r) == self.writes(*at),
    {
        let set_at: i64 = match fits_i64("EvalBaselineSet.set_at_ms", self.set_at_ms) {
            Ok(v) => v,
            Err(e) => return Err(e),
        };
        let mut name: String = self.baseline_id.clone();
        name.append("[");
        name.append(&self.metric);
        name.append("=");
        name.append(&self.value);
        name.append("]");
        let mut row = Cells::new();
        row.put(Column::BaselineId, text(&self.baseline_id));
        row.put(Column::TenantId, text(""));
        row.put(Column::Name, SqlValue::Text(name));
        row.put(Column::PromptAssetId, text(""));
        row.put(Column::MetricsJson, text("{}"));
        row.put(Column::CreatedAtMs, SqlValue::Int8(set_at));
        row.put(Column::Locked, SqlValue::Int4(0));
        let mut changes = Changes::new();
        changes.excluded(Column::Name);
        one(
            row.guarded_upsert(
                Table::EvalBaselines,
                only(Column::BaselineId),
                changes,
                Guard::StoredIs(Column::Locked, SqlValue::Int4(0)),
            ),
        )
    }
}

/// An evaluation baseline was locked.
#[derive(Debug, PartialEq, Eq)]
pub struct EvalBaselineLocked {
    pub baseline_id: String,
}

impl EvalBaselineLocked {
    /// What the event writes.
    pub open spec fn writes(self, at: Moment) -> Planned {
        Planned::Writes(
            seq![
                ChangesView::new()
                    .put(Column::Locked, ValueView::Int4(1))
                    .update(
                        Table::EvalBaselines,
                        FilterView::new()
                            .equals(Column::BaselineId, ValueView::Text(self.baseline_id@)),
                    ),
            ],
        )
    }

    /// Plans what the event writes.
    pub fn plan(&self, at: &Moment) -> (r: Result<Vec<Statement>, StoreError>)
        ensures
            Planned::of(r) == self.writes(*at),
    {
        let mut changes = Changes::new();
        changes.put(Column::Locked, SqlValue::Int4(1));
        let mut filter = Filter::new();
        filter.equals(Column::BaselineId, text(&self.baseline_id));
        one(changes.update(Table::EvalBaselines, filter))
    }
}

} // verus!
