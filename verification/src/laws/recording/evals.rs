//! What the records say of the stored rows: evals.

use crate::domain::DomainNames;
use crate::error::ErrorView;
use crate::model::{Datum, Row};
use crate::read::StoredRow;
use crate::read::evals::{
    EvalBaseline, EvalBaselineRow, EvalRubric, EvalRubricRow, EvalRunRecord, EvalRunRow,
};
use crate::schema::Column;
use vstd::prelude::*;

verus! {

/// What the fields of a [`EvalRunRecord`] say of the stored row.
pub proof fn the_record_of_an_eval_run_row(
    row: EvalRunRow,
    stored: Row,
    names: DomainNames,
    record: EvalRunRecord,
)
    requires
        row.is_of(stored),
        row.holds(&names, &record),
    ensures
        crate::model::value(stored, Column::EvalRunId) == Datum::Text(record.eval_run_id@),
        crate::model::value(stored, Column::TenantId) == Datum::Text(record.project.tenant_id@),
        crate::model::value(stored, Column::WorkspaceId)
            == Datum::Text(record.project.workspace_id@),
        crate::model::value(stored, Column::ProjectId) == Datum::Text(record.project.project_id@),
        crate::model::value(stored, Column::SubjectKind) == Datum::Text(record.subject_kind@),
        crate::model::value(stored, Column::EvaluatorType) == Datum::Text(record.evaluator_type@),
        crate::model::value(stored, Column::ErrorMessage)
            == crate::laws::storing::optional_text(record.error_message),
        crate::laws::recording::is_at_least_zero(
            crate::model::value(stored, Column::StartedAt),
            record.started_at as int,
        ),
        match record.completed_at {
            Some(n) => crate::laws::recording::is_at_least_zero(
                crate::model::value(stored, Column::CompletedAt),
                n as int,
            ),
            None => crate::model::value(stored, Column::CompletedAt) == Datum::Null,
        },
        match record.archived_at {
            Some(n) => crate::laws::recording::is_at_least_zero(
                crate::model::value(stored, Column::ArchivedAt),
                n as int,
            ),
            None => crate::model::value(stored, Column::ArchivedAt) == Datum::Null,
        },
        match record.metrics {
            Some(text) => crate::model::value(stored, Column::MetricsJson) == Datum::Text(text@),
            None => crate::model::value(stored, Column::MetricsJson) == Datum::Null,
        },
        match row.rubric_score {
            Some(d) => d.score is Ok && record.rubric_score == Some(d.score->Ok_0),
            None => record.rubric_score is None,
        },
        crate::model::value(stored, Column::DatasetId)
            == crate::laws::storing::optional_text(record.dataset_id),
        crate::model::value(stored, Column::RubricId)
            == crate::laws::storing::optional_text(record.rubric_id),
        crate::model::value(stored, Column::BaselineId)
            == crate::laws::storing::optional_text(record.baseline_id),
        crate::model::value(stored, Column::PromptAssetId)
            == crate::laws::storing::optional_text(record.prompt_asset_id),
        crate::model::value(stored, Column::PromptVersionId)
            == crate::laws::storing::optional_text(record.prompt_version_id),
        crate::model::value(stored, Column::PromptReleaseId)
            == crate::laws::storing::optional_text(record.prompt_release_id),
        crate::model::value(stored, Column::CreatedBy)
            == crate::laws::storing::optional_text(record.created_by),
{
}

/// A [`EvalRunRow`] says nothing of a stored row but what the columns that it asks for
/// hold.
pub proof fn the_columns_of_an_eval_run_row(row: EvalRunRow, stored: Row, other: Row)
    requires
        forall|i: int|
            0 <= i < EvalRunRow::spec_columns().len()
                ==> crate::model::value(stored, #[trigger] EvalRunRow::spec_columns()[i])
                    == crate::model::value(other, EvalRunRow::spec_columns()[i]),
    ensures
        row.is_of(stored) == row.is_of(other),
{
    let columns = EvalRunRow::spec_columns();
    assert(columns[0] == Column::EvalRunId);
    assert(columns[1] == Column::TenantId);
    assert(columns[2] == Column::WorkspaceId);
    assert(columns[3] == Column::ProjectId);
    assert(columns[4] == Column::SubjectKind);
    assert(columns[5] == Column::EvaluatorType);
    assert(columns[6] == Column::Success);
    assert(columns[7] == Column::ErrorMessage);
    assert(columns[8] == Column::StartedAt);
    assert(columns[9] == Column::CompletedAt);
    assert(columns[10] == Column::ArchivedAt);
    assert(columns[11] == Column::MetricsJson);
    assert(columns[12] == Column::RubricScoreJson);
    assert(columns[13] == Column::DatasetId);
    assert(columns[14] == Column::RubricId);
    assert(columns[15] == Column::BaselineId);
    assert(columns[16] == Column::PromptAssetId);
    assert(columns[17] == Column::PromptVersionId);
    assert(columns[18] == Column::PromptReleaseId);
    assert(columns[19] == Column::CreatedBy);
}

/// When a [`EvalRunRow`] holds no record, and how it is refused.
pub proof fn the_faults_of_an_eval_run_row(row: EvalRunRow, names: DomainNames)
    ensures
        row.metrics is Some && row.metrics->Some_0.fault is Some
            ==> row.fault(&names)
                == Some(
                    ErrorView::Internal(
                        "eval_runs.metrics_json parse error for "@ + row.eval_run_id@ + ": "@
                            + row.metrics->Some_0.fault->Some_0@,
                    ),
                ),
        !(row.metrics is Some && row.metrics->Some_0.fault is Some) && row.rubric_score is Some
            && row.rubric_score->Some_0.score is Err
            ==> row.fault(&names)
                == Some(
                    ErrorView::Internal(
                        "eval_runs.rubric_score_json parse error for "@ + row.eval_run_id@ + ": "@
                            + row.rubric_score->Some_0.score->Err_0@,
                    ),
                ),
        !(row.metrics is Some && row.metrics->Some_0.fault is Some)
            && !(row.rubric_score is Some && row.rubric_score->Some_0.score is Err)
            ==> row.fault(&names) is None,
{
}

/// What the fields of a [`EvalRubric`] say of the stored row.
pub proof fn the_record_of_an_eval_rubric_row(
    row: EvalRubricRow,
    stored: Row,
    names: DomainNames,
    record: EvalRubric,
)
    requires
        row.is_of(stored),
        row.holds(&names, &record),
    ensures
        crate::model::value(stored, Column::RubricId) == Datum::Text(record.rubric_id@),
        crate::model::value(stored, Column::TenantId) == Datum::Text(record.tenant_id@),
        crate::model::value(stored, Column::Name) == Datum::Text(record.name@),
        record.dimensions@.len() == 0,
        crate::laws::recording::is_at_least_zero(
            crate::model::value(stored, Column::CreatedAtMs),
            record.created_at_ms as int,
        ),
{
}

/// A [`EvalRubricRow`] says nothing of a stored row but what the columns that it asks for
/// hold.
pub proof fn the_columns_of_an_eval_rubric_row(row: EvalRubricRow, stored: Row, other: Row)
    requires
        forall|i: int|
            0 <= i < EvalRubricRow::spec_columns().len()
                ==> crate::model::value(stored, #[trigger] EvalRubricRow::spec_columns()[i])
                    == crate::model::value(other, EvalRubricRow::spec_columns()[i]),
    ensures
        row.is_of(stored) == row.is_of(other),
{
    let columns = EvalRubricRow::spec_columns();
    assert(columns[0] == Column::RubricId);
    assert(columns[1] == Column::TenantId);
    assert(columns[2] == Column::Name);
    assert(columns[3] == Column::CreatedAtMs);
}

/// Every [`EvalRubricRow`] holds a record.
pub proof fn the_faults_of_an_eval_rubric_row(row: EvalRubricRow, names: DomainNames)
    ensures
        row.fault(&names) is None,
{
}

/// What the fields of a [`EvalBaseline`] say of the stored row.
pub proof fn the_record_of_an_eval_baseline_row(
    row: EvalBaselineRow,
    stored: Row,
    names: DomainNames,
    record: EvalBaseline,
)
    requires
        row.is_of(stored),
        row.holds(&names, &record),
    ensures
        crate::model::value(stored, Column::BaselineId) == Datum::Text(record.baseline_id@),
        crate::model::value(stored, Column::TenantId) == Datum::Text(record.tenant_id@),
        crate::model::value(stored, Column::Name) == Datum::Text(record.name@),
        crate::model::value(stored, Column::PromptAssetId) == Datum::Text(record.prompt_asset_id@),
        record.metrics is None,
        crate::laws::recording::is_at_least_zero(
            crate::model::value(stored, Column::CreatedAtMs),
            record.created_at_ms as int,
        ),
        record.locked <==> crate::model::value(stored, Column::Locked) != Datum::Int(0),
{
}

/// A [`EvalBaselineRow`] says nothing of a stored row but what the columns that it asks for
/// hold.
pub proof fn the_columns_of_an_eval_baseline_row(row: EvalBaselineRow, stored: Row, other: Row)
    requires
        forall|i: int|
            0 <= i < EvalBaselineRow::spec_columns().len()
                ==> crate::model::value(stored, #[trigger] EvalBaselineRow::spec_columns()[i])
                    == crate::model::value(other, EvalBaselineRow::spec_columns()[i]),
    ensures
        row.is_of(stored) == row.is_of(other),
{
    let columns = EvalBaselineRow::spec_columns();
    assert(columns[0] == Column::BaselineId);
    assert(columns[1] == Column::TenantId);
    assert(columns[2] == Column::Name);
    assert(columns[3] == Column::PromptAssetId);
    assert(columns[4] == Column::CreatedAtMs);
    assert(columns[5] == Column::Locked);
}

/// Every [`EvalBaselineRow`] holds a record.
pub proof fn the_faults_of_an_eval_baseline_row(row: EvalBaselineRow, names: DomainNames)
    ensures
        row.fault(&names) is None,
{
}

} // verus!
