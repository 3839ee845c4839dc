//! Evaluations: runs, datasets, rubrics and baselines.

use crate::domain::{DomainNames, ProjectKey, ProjectView};
use crate::error::{ErrorView, StoreError};
use crate::json::encode_object;
use crate::model::Datum;
use crate::query::{Output, OutputView, Query, QueryView};
use crate::read::{Decoded, StoredRow, to_floor8, to_opt_decoded, to_opt_floor8};
use crate::schema::{Column, Table};
use crate::sql::{Sql, SqlView};
use crate::text::same_text;
use crate::value::{ValueView, text};
use vstd::prelude::*;
use vstd::string::*;

verus! {

/// The verdict of a rubric on a run. The scores are doubles, by their bits.
#[derive(Debug)]
pub struct EvalRubricScoreSummary {
    pub rubric_id: String,
    pub dimension_scores: Vec<(String, u64)>,
    pub overall: u64,
    pub recorded_at_ms: u64,
}

/// The mathematical value of an [`EvalRubricScoreSummary`].
pub struct SummaryView {
    pub rubric_id: Seq<char>,
    pub dimension_scores: Seq<(Seq<char>, u64)>,
    pub overall: u64,
    pub recorded_at_ms: u64,
}

impl View for EvalRubricScoreSummary {
    type V = SummaryView;

    open spec fn view(&self) -> SummaryView {
        SummaryView {
            rubric_id: self.rubric_id@,
            dimension_scores: self.dimension_scores@.map_values(
                |d: (String, u64)| (d.0@, d.1),
            ),
            overall: self.overall,
            recorded_at_ms: self.recorded_at_ms,
        }
    }
}

impl PartialEq for EvalRubricScoreSummary {
    fn eq(&self, other: &Self) -> (r: bool) {
        let ghost mine = self@.dimension_scores;
        let ghost theirs = other@.dimension_scores;
        assert(mine.len() == self.dimension_scores@.len());
        assert(theirs.len() == other.dimension_scores@.len());
        if !(self.rubric_id == other.rubric_id && self.recorded_at_ms == other.recorded_at_ms
            && self.overall == other.overall
            && self.dimension_scores.len() == other.dimension_scores.len()) {
            return false;
        }
        let mut i: usize = 0;
        while i < self.dimension_scores.len()
            invariant
                i <= self.dimension_scores.len(),
                self.dimension_scores.len() == other.dimension_scores.len(),
                mine == self@.dimension_scores,
                theirs == other@.dimension_scores,
                forall|k: int| 0 <= k < i ==> mine[k] == theirs[k],
            decreases self.dimension_scores.len() - i,
        {
            if !(self.dimension_scores[i].0 == other.dimension_scores[i].0
                && self.dimension_scores[i].1 == other.dimension_scores[i].1) {
                assert(mine[i as int] != theirs[i as int]);
                return false;
            }
            i = i + 1;
        }
        assert(mine =~= theirs);
        true
    }
}

impl vstd::std_specs::cmp::PartialEqSpecImpl for EvalRubricScoreSummary {
    open spec fn obeys_eq_spec() -> bool {
        true
    }

    open spec fn eq_spec(&self, other: &Self) -> bool {
        self@ == other@
    }
}

impl Eq for EvalRubricScoreSummary {
}

/// The column that holds the verdict of a rubric: its text and what it decodes
/// to, or why it does not.
#[derive(Debug, PartialEq, Eq)]
pub struct DecodedScore {
    pub text: String,
    pub score: Result<EvalRubricScoreSummary, String>,
}

/// A row of `eval_runs`.
#[derive(Debug, PartialEq, Eq)]
pub struct EvalRunRow {
    pub eval_run_id: String,
    pub tenant_id: String,
    pub workspace_id: String,
    pub project_id: String,
    pub subject_kind: String,
    pub evaluator_type: String,
    pub success: Option<bool>,
    pub error_message: Option<String>,
    pub started_at: i64,
    pub completed_at: Option<i64>,
    pub archived_at: Option<i64>,
    pub metrics: Option<Decoded>,
    pub rubric_score: Option<DecodedScore>,
    pub dataset_id: Option<String>,
    pub rubric_id: Option<String>,
    pub baseline_id: Option<String>,
    pub prompt_asset_id: Option<String>,
    pub prompt_version_id: Option<String>,
    pub prompt_release_id: Option<String>,
    pub created_by: Option<String>,
}

/// A run of an evaluation. The metrics are a JSON text.
#[derive(Debug, PartialEq, Eq)]
pub struct EvalRunRecord {
    pub eval_run_id: String,
    pub project: ProjectKey,
    pub subject_kind: String,
    pub evaluator_type: String,
    pub success: Option<bool>,
    pub error_message: Option<String>,
    pub started_at: u64,
    pub completed_at: Option<u64>,
    pub archived_at: Option<u64>,
    pub metrics: Option<String>,
    pub rubric_score: Option<EvalRubricScoreSummary>,
    pub dataset_id: Option<String>,
    pub rubric_id: Option<String>,
    pub baseline_id: Option<String>,
    pub prompt_asset_id: Option<String>,
    pub prompt_version_id: Option<String>,
    pub prompt_release_id: Option<String>,
    pub created_by: Option<String>,
}

impl EvalRunRow {
    /// The text of the verdict, where there is one.
    pub open spec fn score_text(self) -> Option<Seq<char>> {
        match self.rubric_score {
            Some(d) => Some(d.text@),
            None => None,
        }
    }

    /// The columns that the row is read from.
    pub open spec fn spec_columns() -> Seq<Column> {
        seq![
            Column::EvalRunId,
            Column::TenantId,
            Column::WorkspaceId,
            Column::ProjectId,
            Column::SubjectKind,
            Column::EvaluatorType,
            Column::Success,
            Column::ErrorMessage,
            Column::StartedAt,
            Column::CompletedAt,
            Column::ArchivedAt,
            Column::MetricsJson,
            Column::RubricScoreJson,
            Column::DatasetId,
            Column::RubricId,
            Column::BaselineId,
            Column::PromptAssetId,
            Column::PromptVersionId,
            Column::PromptReleaseId,
            Column::CreatedBy,
        ]
    }

    fn columns() -> (r: Vec<Column>)
        ensures
            r@ == Self::spec_columns(),
    {
        vec![
            Column::EvalRunId,
            Column::TenantId,
            Column::WorkspaceId,
            Column::ProjectId,
            Column::SubjectKind,
            Column::EvaluatorType,
            Column::Success,
            Column::ErrorMessage,
            Column::StartedAt,
            Column::CompletedAt,
            Column::ArchivedAt,
            Column::MetricsJson,
            Column::RubricScoreJson,
            Column::DatasetId,
            Column::RubricId,
            Column::BaselineId,
            Column::PromptAssetId,
            Column::PromptVersionId,
            Column::PromptReleaseId,
            Column::CreatedBy,
        ]
    }

    /// Whether this is what a stored row holds in those columns.
    pub open spec fn is_of(self, row: crate::model::Row) -> bool {
        &&& crate::model::value(row, Column::EvalRunId) == Datum::Text(self.eval_run_id@)
        &&& crate::model::value(row, Column::TenantId) == Datum::Text(self.tenant_id@)
        &&& crate::model::value(row, Column::WorkspaceId) == Datum::Text(self.workspace_id@)
        &&& crate::model::value(row, Column::ProjectId) == Datum::Text(self.project_id@)
        &&& crate::model::value(row, Column::SubjectKind) == Datum::Text(self.subject_kind@)
        &&& crate::model::value(row, Column::EvaluatorType) == Datum::Text(self.evaluator_type@)
        &&& crate::model::value(row, Column::Success) == Datum::opt_bool(self.success)
        &&& crate::model::value(row, Column::ErrorMessage) == Datum::opt_text(self.error_message)
        &&& crate::model::value(row, Column::StartedAt) == Datum::Int(self.started_at as int)
        &&& crate::model::value(row, Column::CompletedAt) == Datum::opt_int8(self.completed_at)
        &&& crate::model::value(row, Column::ArchivedAt) == Datum::opt_int8(self.archived_at)
        &&& crate::model::value(row, Column::MetricsJson) == Datum::opt_decoded_text(self.metrics)
        &&& crate::model::value(row, Column::RubricScoreJson) == match self.score_text() {
            Some(text) => Datum::Text(text),
            None => Datum::Null,
        }
        &&& crate::model::value(row, Column::DatasetId) == Datum::opt_text(self.dataset_id)
        &&& crate::model::value(row, Column::RubricId) == Datum::opt_text(self.rubric_id)
        &&& crate::model::value(row, Column::BaselineId) == Datum::opt_text(self.baseline_id)
        &&& crate::model::value(row, Column::PromptAssetId) == Datum::opt_text(self.prompt_asset_id)
        &&& crate::model::value(row, Column::PromptVersionId) == Datum::opt_text(
            self.prompt_version_id,
        )
        &&& crate::model::value(row, Column::PromptReleaseId) == Datum::opt_text(
            self.prompt_release_id,
        )
        &&& crate::model::value(row, Column::CreatedBy) == Datum::opt_text(self.created_by)
    }

    /// The query of [`EvalRunRow::get`].
    pub open spec fn spec_get(eval_run_id: Seq<char>) -> QueryView {
        QueryView::on(Table::EvalRuns, OutputView::Rows(Self::spec_columns()))
            .equals(Column::EvalRunId, ValueView::Text(eval_run_id))
    }

    /// Finds a run of an evaluation.
    pub fn get(eval_run_id: &str) -> (r: Query)
        ensures
            r@ == Self::spec_get(eval_run_id@),
    {
        Query::on(Table::EvalRuns, Output::Rows(Self::columns()))
            .equals(Column::EvalRunId, text(eval_run_id))
    }

    /// The query of [`EvalRunRow::list_by_project`].
    pub open spec fn spec_list_by_project(
        project: ProjectView,
        limit: usize,
        offset: usize,
    ) -> QueryView {
        QueryView::on(Table::EvalRuns, OutputView::Rows(Self::spec_columns()))
            .equals(Column::TenantId, ValueView::Text(project.tenant_id))
            .equals(Column::WorkspaceId, ValueView::Text(project.workspace_id))
            .equals(Column::ProjectId, ValueView::Text(project.project_id))
            .ascending(Column::StartedAt)
            .ascending(Column::EvalRunId)
            .limit(limit as i64)
            .offset(offset as i64)
    }

    /// The runs of a project's evaluations, the first started first.
    pub fn list_by_project(project: &ProjectKey, limit: usize, offset: usize) -> (r: Query)
        ensures
            r@ == Self::spec_list_by_project(project@, limit, offset),
            r@.stays_in(Column::WorkspaceId, project@),
    {
        let query = Query::on(Table::EvalRuns, Output::Rows(Self::columns()))
            .equals(Column::TenantId, text(&project.tenant_id))
            .equals(Column::WorkspaceId, text(&project.workspace_id))
            .equals(Column::ProjectId, text(&project.project_id))
            .ascending(Column::StartedAt)
            .ascending(Column::EvalRunId)
            .limit(limit as i64)
            .offset(offset as i64);
        proof {
            query@.tests_keep_to_a_project(0, Column::WorkspaceId, project@);
        }
        query
    }
}

impl StoredRow for EvalRunRow {
    type Record = EvalRunRecord;

    open spec fn fault(&self, names: &DomainNames) -> Option<ErrorView> {
        if self.metrics is Some && self.metrics->Some_0.fault is Some {
            Some(
                ErrorView::Internal(
                    "eval_runs.metrics_json parse error for "@ + self.eval_run_id@ + ": "@
                        + self.metrics->Some_0.fault->Some_0@,
                ),
            )
        } else if self.rubric_score is Some && self.rubric_score->Some_0.score is Err {
            Some(
                ErrorView::Internal(
                    "eval_runs.rubric_score_json parse error for "@ + self.eval_run_id@ + ": "@
                        + self.rubric_score->Some_0.score->Err_0@,
                ),
            )
        } else {
            None
        }
    }

    open spec fn holds(&self, names: &DomainNames, record: &EvalRunRecord) -> bool {
        &&& record.eval_run_id == self.eval_run_id
        &&& record.project == (ProjectKey {
            tenant_id: self.tenant_id,
            workspace_id: self.workspace_id,
            project_id: self.project_id,
        })
        &&& record.subject_kind == self.subject_kind
        &&& record.evaluator_type == self.evaluator_type
        &&& record.success == self.success
        &&& record.error_message == self.error_message
        &&& record.started_at == crate::read::floor8(self.started_at)
        &&& record.completed_at == crate::read::opt_floor8(self.completed_at)
        &&& record.archived_at == crate::read::opt_floor8(self.archived_at)
        &&& record.metrics == crate::read::opt_decoded(self.metrics)
        &&& match self.rubric_score {
            Some(d) => d.score is Ok && record.rubric_score == Some(d.score->Ok_0),
            None => record.rubric_score is None,
        }
        &&& record.dataset_id == self.dataset_id
        &&& record.rubric_id == self.rubric_id
        &&& record.baseline_id == self.baseline_id
        &&& record.prompt_asset_id == self.prompt_asset_id
        &&& record.prompt_version_id == self.prompt_version_id
        &&& record.prompt_release_id == self.prompt_release_id
        &&& record.created_by == self.created_by
    }

    fn into_record(self, names: &DomainNames) -> (r: Result<EvalRunRecord, StoreError>) {
        if let Some(d) = &self.metrics {
            if let Some(m) = &d.fault {
                let mut message: String = "eval_runs.metrics_json parse error for ".to_owned();
                message.append(&self.eval_run_id);
                message.append(": ");
                message.append(m);
                return Err(StoreError::Internal(message));
            }
        }
        let rubric_score = match self.rubric_score {
            Some(d) => match d.score {
                Ok(score) => Some(score),
                Err(m) => {
                    let mut message: String =
                        "eval_runs.rubric_score_json parse error for ".to_owned();
                    message.append(&self.eval_run_id);
                    message.append(": ");
                    message.append(&m);
                    return Err(StoreError::Internal(message));
                },
            },
            None => None,
        };
        Ok(
            EvalRunRecord {
                eval_run_id: self.eval_run_id,
                project: ProjectKey {
                    tenant_id: self.tenant_id,
                    workspace_id: self.workspace_id,
                    project_id: self.project_id,
                },
                subject_kind: self.subject_kind,
                evaluator_type: self.evaluator_type,
                success: self.success,
                error_message: self.error_message,
                started_at: to_floor8(self.started_at),
                completed_at: to_opt_floor8(self.completed_at),
                archived_at: to_opt_floor8(self.archived_at),
                metrics: to_opt_decoded(self.metrics),
                rubric_score,
                dataset_id: self.dataset_id,
                rubric_id: self.rubric_id,
                baseline_id: self.baseline_id,
                prompt_asset_id: self.prompt_asset_id,
                prompt_version_id: self.prompt_version_id,
                prompt_release_id: self.prompt_release_id,
                created_by: self.created_by,
            },
        )
    }
}

/// What an evaluation is of. Only prompts are.
#[derive(Clone, Copy, Debug, PartialEq, Eq, Structural)]
pub enum EvalSubjectKind {
    PromptRelease,
}

/// Whether a tenant's name stands for all tenants.
pub open spec fn is_everyone(tenant_id: Seq<char>) -> bool {
    tenant_id.len() == 0
}

fn everyone(tenant_id: &str) -> (r: bool)
    ensures
        r == is_everyone(tenant_id@),
{
    proof {
        reveal_strlit("");
        assert(tenant_id@.len() == 0 ==> tenant_id@ =~= ""@);
    }
    same_text(tenant_id, "")
}

impl QueryView {
    /// Only the rows of a tenant, or every row where the name stands for all.
    pub open spec fn of_tenant(self, tenant_id: Seq<char>) -> QueryView {
        if is_everyone(tenant_id) {
            self
        } else {
            self.equals(Column::TenantId, ValueView::Text(tenant_id))
        }
    }
}

fn of_tenant(query: Query, tenant_id: &str) -> (r: Query)
    ensures
        r@ == query@.of_tenant(tenant_id@),
{
    if everyone(tenant_id) {
        query
    } else {
        query.equals(Column::TenantId, text(tenant_id))
    }
}

/// A row of `eval_rubrics`.
#[derive(Debug, PartialEq, Eq)]
pub struct EvalRubricRow {
    pub rubric_id: String,
    pub tenant_id: String,
    pub name: String,
    pub created_at_ms: i64,
}

/// A rubric. Its dimensions are not stored.
#[derive(Debug, PartialEq, Eq)]
pub struct EvalRubric {
    pub rubric_id: String,
    pub tenant_id: String,
    pub name: String,
    pub dimensions: Vec<String>,
    pub created_at_ms: u64,
}

impl EvalRubricRow {
    /// The columns that the row is read from.
    pub open spec fn spec_columns() -> Seq<Column> {
        seq![
            Column::RubricId,
            Column::TenantId,
            Column::Name,
            Column::CreatedAtMs,
        ]
    }

    fn columns() -> (r: Vec<Column>)
        ensures
            r@ == Self::spec_columns(),
    {
        vec![
            Column::RubricId,
            Column::TenantId,
            Column::Name,
            Column::CreatedAtMs,
        ]
    }

    /// Whether this is what a stored row holds in those columns.
    pub open spec fn is_of(self, row: crate::model::Row) -> bool {
        &&& crate::model::value(row, Column::RubricId) == Datum::Text(self.rubric_id@)
        &&& crate::model::value(row, Column::TenantId) == Datum::Text(self.tenant_id@)
        &&& crate::model::value(row, Column::Name) == Datum::Text(self.name@)
        &&& crate::model::value(row, Column::CreatedAtMs) == Datum::Int(self.created_at_ms as int)
    }

    /// The query of [`EvalRubricRow::get_rubric`].
    pub open spec fn spec_get_rubric(rubric_id: Seq<char>) -> QueryView {
        QueryView::on(Table::EvalRubrics, OutputView::Rows(Self::spec_columns()))
            .equals(Column::RubricId, ValueView::Text(rubric_id))
    }

    /// Finds a rubric.
    pub fn get_rubric(rubric_id: &str) -> (r: Query)
        ensures
            r@ == Self::spec_get_rubric(rubric_id@),
    {
        Query::on(Table::EvalRubrics, Output::Rows(Self::columns()))
            .equals(Column::RubricId, text(rubric_id))
    }
}

impl EvalRubricRow {
    /// The query of [`EvalRubricRow::list_by_tenant`].
    pub open spec fn spec_list_by_tenant(
        tenant_id: Seq<char>,
        limit: usize,
        offset: usize,
    ) -> QueryView {
        QueryView::on(Table::EvalRubrics, OutputView::Rows(Self::spec_columns()))
            .of_tenant(tenant_id)
            .ascending(Column::RubricId)
            .limit(limit as i64)
            .offset(offset as i64)
    }

    /// The rubrics of a tenant, by id. An empty
    /// name stands for all tenants.
    pub fn list_by_tenant(tenant_id: &str, limit: usize, offset: usize) -> (r: Query)
        ensures
            r@ == Self::spec_list_by_tenant(tenant_id@, limit, offset),
    {
        of_tenant(Query::on(Table::EvalRubrics, Output::Rows(Self::columns())), tenant_id)
            .ascending(Column::RubricId)
            .limit(limit as i64)
            .offset(offset as i64)
    }
}

impl StoredRow for EvalRubricRow {
    type Record = EvalRubric;

    open spec fn fault(&self, names: &DomainNames) -> Option<ErrorView> {
        None
    }

    open spec fn holds(&self, names: &DomainNames, record: &EvalRubric) -> bool {
        &&& record.rubric_id == self.rubric_id
        &&& record.tenant_id == self.tenant_id
        &&& record.name == self.name
        &&& record.dimensions@.len() == 0
        &&& record.created_at_ms == crate::read::floor8(self.created_at_ms)
    }

    fn into_record(self, names: &DomainNames) -> (r: Result<EvalRubric, StoreError>) {
        Ok(
            EvalRubric {
                rubric_id: self.rubric_id,
                tenant_id: self.tenant_id,
                name: self.name,
                dimensions: Vec::new(),
                created_at_ms: to_floor8(self.created_at_ms),
            },
        )
    }
}

/// A row of `eval_baselines`.
#[derive(Debug, PartialEq, Eq)]
pub struct EvalBaselineRow {
    pub baseline_id: String,
    pub tenant_id: String,
    pub name: String,
    pub prompt_asset_id: String,
    pub created_at_ms: i64,
    pub locked: i64,
}

/// A baseline. Its metrics are not stored.
#[derive(Debug, PartialEq, Eq)]
pub struct EvalBaseline {
    pub baseline_id: String,
    pub tenant_id: String,
    pub name: String,
    pub prompt_asset_id: String,
    pub metrics: Option<String>,
    pub created_at_ms: u64,
    pub locked: bool,
}

impl EvalBaselineRow {
    /// The columns that the row is read from.
    pub open spec fn spec_columns() -> Seq<Column> {
        seq![
            Column::BaselineId,
            Column::TenantId,
            Column::Name,
            Column::PromptAssetId,
            Column::CreatedAtMs,
            Column::Locked,
        ]
    }

    fn columns() -> (r: Vec<Column>)
        ensures
            r@ == Self::spec_columns(),
    {
        vec![
            Column::BaselineId,
            Column::TenantId,
            Column::Name,
            Column::PromptAssetId,
            Column::CreatedAtMs,
            Column::Locked,
        ]
    }

    /// Whether this is what a stored row holds in those columns.
    pub open spec fn is_of(self, row: crate::model::Row) -> bool {
        &&& crate::model::value(row, Column::BaselineId) == Datum::Text(self.baseline_id@)
        &&& crate::model::value(row, Column::TenantId) == Datum::Text(self.tenant_id@)
        &&& crate::model::value(row, Column::Name) == Datum::Text(self.name@)
        &&& crate::model::value(row, Column::PromptAssetId) == Datum::Text(self.prompt_asset_id@)
        &&& crate::model::value(row, Column::CreatedAtMs) == Datum::Int(self.created_at_ms as int)
        &&& crate::model::value(row, Column::Locked) == Datum::Int(self.locked as int)
    }

    /// The query of [`EvalBaselineRow::get_baseline`].
    pub open spec fn spec_get_baseline(baseline_id: Seq<char>) -> QueryView {
        QueryView::on(Table::EvalBaselines, OutputView::Rows(Self::spec_columns()))
            .equals(Column::BaselineId, ValueView::Text(baseline_id))
    }

    /// Finds a baseline.
    pub fn get_baseline(baseline_id: &str) -> (r: Query)
        ensures
            r@ == Self::spec_get_baseline(baseline_id@),
    {
        Query::on(Table::EvalBaselines, Output::Rows(Self::columns()))
            .equals(Column::BaselineId, text(baseline_id))
    }
}

impl EvalBaselineRow {
    /// The query of [`EvalBaselineRow::list_by_tenant`].
    pub open spec fn spec_list_by_tenant(
        tenant_id: Seq<char>,
        limit: usize,
        offset: usize,
    ) -> QueryView {
        QueryView::on(Table::EvalBaselines, OutputView::Rows(Self::spec_columns()))
            .of_tenant(tenant_id)
            .ascending(Column::BaselineId)
            .limit(limit as i64)
            .offset(offset as i64)
    }

    /// The baselines of a tenant, by id. An empty
    /// name stands for all tenants.
    pub fn list_by_tenant(tenant_id: &str, limit: usize, offset: usize) -> (r: Query)
        ensures
            r@ == Self::spec_list_by_tenant(tenant_id@, limit, offset),
    {
        of_tenant(Query::on(Table::EvalBaselines, Output::Rows(Self::columns())), tenant_id)
            .ascending(Column::BaselineId)
            .limit(limit as i64)
            .offset(offset as i64)
    }
}

impl StoredRow for EvalBaselineRow {
    type Record = EvalBaseline;

    open spec fn fault(&self, names: &DomainNames) -> Option<ErrorView> {
        None
    }

    open spec fn holds(&self, names: &DomainNames, record: &EvalBaseline) -> bool {
        &&& record.baseline_id == self.baseline_id
        &&& record.tenant_id == self.tenant_id
        &&& record.name == self.name
        &&& record.prompt_asset_id == self.prompt_asset_id
        &&& record.metrics is None
        &&& record.created_at_ms == crate::read::floor8(self.created_at_ms)
        &&& record.locked == (self.locked != 0)
    }

    fn into_record(self, names: &DomainNames) -> (r: Result<EvalBaseline, StoreError>) {
        Ok(
            EvalBaseline {
                baseline_id: self.baseline_id,
                tenant_id: self.tenant_id,
                name: self.name,
                prompt_asset_id: self.prompt_asset_id,
                metrics: None,
                created_at_ms: to_floor8(self.created_at_ms),
                locked: self.locked != 0,
            },
        )
    }
}

/// A row of `eval_datasets`.
#[derive(Debug, PartialEq, Eq)]
pub struct EvalDatasetRow {
    pub dataset_id: String,
    pub tenant_id: String,
    pub name: String,
    pub subject_kind: String,
    pub created_at_ms: i64,
}

/// A row of `eval_dataset_entries`: the dataset and the entry.
#[derive(Debug, PartialEq, Eq)]
pub struct EvalDatasetEntryRow {
    pub dataset_id: String,
    pub entry_id: String,
}

impl EvalDatasetEntryRow {
    /// Whether this is what a stored row holds in the columns that are read.
    pub open spec fn is_of(self, row: crate::model::Row) -> bool {
        &&& crate::model::value(row, Column::DatasetId) == Datum::Text(self.dataset_id@)
        &&& crate::model::value(row, Column::EntryId) == Datum::Text(self.entry_id@)
    }
}

/// An entry of a dataset. The input is a JSON text that names the entry.
#[derive(Debug, PartialEq, Eq)]
pub struct EvalDatasetEntry {
    pub input: String,
    pub expected_output: Option<String>,
    pub tags: Vec<String>,
}

/// The mathematical value of an [`EvalDatasetEntry`].
pub struct EntryView {
    pub input: Seq<char>,
    pub expected_output: Option<Seq<char>>,
    pub tags: Seq<Seq<char>>,
}

impl View for EvalDatasetEntry {
    type V = EntryView;

    open spec fn view(&self) -> EntryView {
        EntryView {
            input: self.input@,
            expected_output: self.expected_output.deep_view(),
            tags: self.tags.deep_view(),
        }
    }
}

/// The views of entries.
pub open spec fn entry_views(entries: Seq<EvalDatasetEntry>) -> Seq<EntryView> {
    entries.map_values(|e: EvalDatasetEntry| e@)
}

/// A dataset with its entries.
#[derive(Debug, PartialEq, Eq)]
pub struct EvalDataset {
    pub dataset_id: String,
    pub tenant_id: String,
    pub name: String,
    pub subject_kind: EvalSubjectKind,
    pub entries: Vec<EvalDatasetEntry>,
    pub created_at_ms: u64,
}

/// The entry with an id.
pub open spec fn entry(entry_id: Seq<char>) -> EntryView {
    EntryView {
        input: crate::json::object_as_json(
            seq![("entry_id"@, Some(entry_id))],
            Seq::<(Seq<char>, u64)>::empty(),
        ),
        expected_output: None,
        tags: seq![entry_id],
    }
}

/// The entries of a dataset among those read, in order.
pub open spec fn entries_of(rows: Seq<EvalDatasetEntryRow>, dataset_id: Seq<char>) -> Seq<EntryView>
    decreases rows.len(),
{
    if rows.len() == 0 {
        Seq::empty()
    } else {
        let before = entries_of(rows.drop_last(), dataset_id);
        if rows.last().dataset_id@ == dataset_id {
            before.push(entry(rows.last().entry_id@))
        } else {
            before
        }
    }
}

fn build_entry(entry_id: &str) -> (r: Result<EvalDatasetEntry, StoreError>)
    ensures
        r is Ok,
        r->Ok_0@ == entry(entry_id@),
{
    let mut texts: Vec<(String, Option<String>)> = Vec::new();
    texts.push(("entry_id".to_owned(), Some(entry_id.to_owned())));
    let numbers: Vec<(String, u64)> = Vec::new();
    assert(texts.deep_view() =~= seq![("entry_id"@, Some(entry_id@))]);
    assert(numbers.deep_view() =~= Seq::<(Seq<char>, u64)>::empty());
    match encode_object(&texts, &numbers) {
        Ok(input) => {
            let mut tags: Vec<String> = Vec::new();
            tags.push(entry_id.to_owned());
            assert(tags.deep_view() =~= seq![entry_id@]);
            Ok(EvalDatasetEntry { input, expected_output: None, tags })
        },
        Err(m) => Err(StoreError::Serialization(m)),
    }
}

fn collect_entries(rows: &Vec<EvalDatasetEntryRow>, dataset_id: &String) -> (r: Result<
    Vec<EvalDatasetEntry>,
    StoreError,
>)
    ensures
        r is Ok,
        entry_views(r->Ok_0@) == entries_of(rows@, dataset_id@),
{
    let mut entries: Vec<EvalDatasetEntry> = Vec::new();
    let mut i: usize = 0;
    assert(entry_views(entries@) =~= entries_of(rows@.take(0), dataset_id@));
    while i < rows.len()
        invariant
            i <= rows.len(),
            entry_views(entries@) == entries_of(rows@.take(i as int), dataset_id@),
        decreases rows.len() - i,
    {
        assert(rows@.take(i + 1).drop_last() =~= rows@.take(i as int));
        if rows[i].dataset_id == *dataset_id {
            match build_entry(&rows[i].entry_id) {
                Ok(built) => {
                    let ghost before = entries@;
                    entries.push(built);
                    assert(entry_views(entries@) =~= entry_views(before).push(built@));
                },
                Err(e) => return Err(e),
            }
        }
        i = i + 1;
    }
    assert(rows@.take(i as int) =~= rows@);
    Ok(entries)
}

/// How many datasets one query for entries names at most.
pub const ENTRIES_CHUNK: usize = 900;

/// How many of the datasets from `done` on the next query names.
pub open spec fn named_next(total: int, done: int) -> int {
    if total - done < ENTRIES_CHUNK {
        total - done
    } else {
        ENTRIES_CHUNK as int
    }
}

impl SqlView {
    /// With the ids of the first `n` datasets, separated by commas.
    pub open spec fn dataset_ids(self, rows: Seq<EvalDatasetRow>, n: nat) -> SqlView
        decreases n,
    {
        if n == 0 {
            self
        } else {
            self.dataset_ids(rows, (n - 1) as nat).comma((n - 1) as nat).param(
                ValueView::Text(rows[n - 1].dataset_id@),
            )
        }
    }
}

impl EvalDatasetRow {
    /// The columns that the row is read from.
    pub open spec fn spec_columns() -> Seq<Column> {
        seq![
            Column::DatasetId,
            Column::TenantId,
            Column::Name,
            Column::SubjectKind,
            Column::CreatedAtMs,
        ]
    }

    fn columns() -> (r: Vec<Column>)
        ensures
            r@ == Self::spec_columns(),
    {
        vec![
            Column::DatasetId,
            Column::TenantId,
            Column::Name,
            Column::SubjectKind,
            Column::CreatedAtMs,
        ]
    }

    /// Whether this is what a stored row holds in those columns.
    pub open spec fn is_of(self, row: crate::model::Row) -> bool {
        &&& crate::model::value(row, Column::DatasetId) == Datum::Text(self.dataset_id@)
        &&& crate::model::value(row, Column::TenantId) == Datum::Text(self.tenant_id@)
        &&& crate::model::value(row, Column::Name) == Datum::Text(self.name@)
        &&& crate::model::value(row, Column::SubjectKind) == Datum::Text(self.subject_kind@)
        &&& crate::model::value(row, Column::CreatedAtMs) == Datum::Int(self.created_at_ms as int)
    }

    /// The query of [`EvalDatasetRow::get_dataset`].
    pub open spec fn spec_get_dataset(dataset_id: Seq<char>) -> QueryView {
        QueryView::on(Table::EvalDatasets, OutputView::Rows(Self::spec_columns()))
            .equals(Column::DatasetId, ValueView::Text(dataset_id))
    }

    /// Finds a dataset.
    pub fn get_dataset(dataset_id: &str) -> (r: Query)
        ensures
            r@ == Self::spec_get_dataset(dataset_id@),
    {
        Query::on(Table::EvalDatasets, Output::Rows(Self::columns()))
            .equals(Column::DatasetId, text(dataset_id))
    }

    /// The query of [`EvalDatasetRow::list_by_tenant`].
    pub open spec fn spec_list_by_tenant(
        tenant_id: Seq<char>,
        limit: usize,
        offset: usize,
    ) -> QueryView {
        QueryView::on(Table::EvalDatasets, OutputView::Rows(Self::spec_columns()))
            .of_tenant(tenant_id)
            .ascending(Column::CreatedAtMs)
            .ascending(Column::DatasetId)
            .limit(limit as i64)
            .offset(offset as i64)
    }

    /// The datasets of a tenant, the oldest first. An empty
    /// name stands for all tenants.
    pub fn list_by_tenant(tenant_id: &str, limit: usize, offset: usize) -> (r: Query)
        ensures
            r@ == Self::spec_list_by_tenant(tenant_id@, limit, offset),
    {
        of_tenant(Query::on(Table::EvalDatasets, Output::Rows(Self::columns())), tenant_id)
            .ascending(Column::CreatedAtMs)
            .ascending(Column::DatasetId)
            .limit(limit as i64)
            .offset(offset as i64)
    }

    /// The query of [`EvalDatasetRow::load_eval_dataset_entries`].
    pub open spec fn spec_load_eval_dataset_entries(dataset_id: Seq<char>) -> QueryView {
        QueryView::on(
            Table::EvalDatasetEntries,
            OutputView::Rows(seq![Column::DatasetId, Column::EntryId]),
        )
            .equals(Column::DatasetId, ValueView::Text(dataset_id))
            .ascending(Column::AddedAtMs)
            .ascending(Column::EntryId)
    }

    /// The entries of one dataset, the first added first.
    pub fn load_eval_dataset_entries(dataset_id: &str) -> (r: Query)
        ensures
            r@ == Self::spec_load_eval_dataset_entries(dataset_id@),
    {
        Query::on(
            Table::EvalDatasetEntries,
            Output::Rows(vec![Column::DatasetId, Column::EntryId]),
        )
            .equals(Column::DatasetId, text(dataset_id))
            .ascending(Column::AddedAtMs)
            .ascending(Column::EntryId)
    }

    /// The query for the entries of some datasets.
    pub open spec fn entries_query(rows: Seq<EvalDatasetRow>) -> SqlView {
        SqlView::new().text(
            "SELECT dataset_id, entry_id FROM eval_dataset_entries WHERE dataset_id IN ("@,
        ).dataset_ids(rows, rows.len()).text(
            ") ORDER BY dataset_id ASC, added_at_ms ASC, entry_id ASC"@,
        )
    }

    /// The query for the entries of the next datasets, after those that were
    /// asked for; none once all were.
    pub fn next_entries(rows: &Vec<EvalDatasetRow>, done: usize) -> (r: Option<(Sql, usize)>)
        requires
            done <= rows@.len(),
        ensures
            match r {
                None => done == rows@.len(),
                Some((sql, after)) => {
                    let n = named_next(rows@.len() as int, done as int);
                    &&& done < rows@.len()
                    &&& after == done + n
                    &&& sql@ == Self::entries_query(rows@.subrange(done as int, done + n))
                },
            },
    {
        if done == rows.len() {
            return None;
        }
        let rest: usize = rows.len() - done;
        let n: usize = if rest < ENTRIES_CHUNK {
            rest
        } else {
            ENTRIES_CHUNK
        };
        let ghost named = rows@.subrange(done as int, done + n);
        let mut out = Sql::new();
        out.text("SELECT dataset_id, entry_id FROM eval_dataset_entries WHERE dataset_id IN (");
        let ghost head = out@;
        let mut i: usize = 0;
        while i < n
            invariant
                i <= n,
                done + n <= rows.len(),
                named == rows@.subrange(done as int, done + n),
                out@ == head.dataset_ids(named, i as nat),
            decreases n - i,
        {
            out.comma(i);
            let at: usize = done + i;
            out.param(text(&rows[at].dataset_id));
            i = i + 1;
        }
        out.text(") ORDER BY dataset_id ASC, added_at_ms ASC, entry_id ASC");
        Some((out, done + n))
    }

    /// The dataset that a row and its entries make.
    pub open spec fn makes(self, entries: Seq<EntryView>, dataset: EvalDataset) -> bool {
        &&& dataset.dataset_id == self.dataset_id
        &&& dataset.tenant_id == self.tenant_id
        &&& dataset.name == self.name
        &&& dataset.subject_kind == EvalSubjectKind::PromptRelease
        &&& entry_views(dataset.entries@) == entries
        &&& dataset.created_at_ms == crate::read::floor8(self.created_at_ms)
    }

    /// The dataset of a row, with its entries.
    pub fn into_dataset(self, entries: &Vec<EvalDatasetEntryRow>) -> (r: Result<
        EvalDataset,
        StoreError,
    >)
        ensures
            r is Ok,
            self.makes(entries_of(entries@, self.dataset_id@), r->Ok_0),
    {
        let built = match collect_entries(entries, &self.dataset_id) {
            Ok(v) => v,
            Err(e) => return Err(e),
        };
        Ok(
            EvalDataset {
                dataset_id: self.dataset_id,
                tenant_id: self.tenant_id,
                name: self.name,
                subject_kind: EvalSubjectKind::PromptRelease,
                entries: built,
                created_at_ms: to_floor8(self.created_at_ms),
            },
        )
    }

    /// The datasets of the rows, in order, each with its entries.
    pub fn into_datasets(rows: Vec<EvalDatasetRow>, entries: &Vec<EvalDatasetEntryRow>) -> (r:
        Result<Vec<EvalDataset>, StoreError>)
        ensures
            r is Ok,
            r->Ok_0@.len() == rows@.len(),
            forall|i: int|
                0 <= i < rows@.len() ==> (#[trigger] rows@[i]).makes(
                    entries_of(entries@, rows@[i].dataset_id@),
                    r->Ok_0@[i],
                ),
    {
        let ghost all = rows@;
        let mut datasets: Vec<EvalDataset> = Vec::new();
        for row in iter: rows.into_iter()
            invariant
                iter.seq() == all,
                datasets@.len() == iter.index(),
                forall|i: int|
                    0 <= i < datasets@.len() ==> (#[trigger] all[i]).makes(
                        entries_of(entries@, all[i].dataset_id@),
                        datasets@[i],
                    ),
        {
            let ghost at = datasets@.len() as int;
            assert(all[at] == row);
            match row.into_dataset(entries) {
                Ok(dataset) => datasets.push(dataset),
                Err(e) => return Err(e),
            }
        }
        Ok(datasets)
    }
}

} // verus!
