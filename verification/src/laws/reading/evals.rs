//! What is read back of what was written: evals.

use crate::domain::DomainNames;
use crate::laws::rows::group_rows;
use crate::model::{Database, Row};
use crate::plan::Moment;
use crate::projections::evals::{
    EvalBaselineLocked, EvalBaselineSet, EvalDatasetCreated, EvalDatasetEntryAdded,
    EvalRubricCreated, EvalRubricScored, EvalRunArchived, EvalRunCompleted, EvalRunScored,
    EvalRunStarted,
};
use crate::read::StoredRow;
use crate::read::evals::{
    EntryView, EvalBaseline, EvalBaselineRow, EvalDataset, EvalDatasetEntryRow, EvalDatasetRow,
    EvalRubric, EvalRubricRow, EvalRubricScoreSummary, EvalRunRecord, EvalRunRow,
};
use crate::schema::Column;
use vstd::prelude::*;

verus! {

/// The record that is read back after a `EvalRunStarted` event holds what the event says.
pub proof fn eval_run_started_is_read_back(
    e: EvalRunStarted,
    at: Moment,
    db: Database,
    row: EvalRunRow,
    names: DomainNames,
    record: EvalRunRecord,
)
    requires
        e.writes(at) is Writes,
        e.writes(at).statements().len() > 0,
        row.is_of(crate::laws::rows::left_by(db, e.writes(at).statements()[0], None)),
        row.holds(&names, &record),
    ensures
        record.eval_run_id@ == e.eval_run_id@,
        record.project@ == e.project@,
        record.subject_kind@ == e.subject_kind@,
        record.evaluator_type@ == e.evaluator_type@,
        record.success is None,
        record.error_message is None,
        e.started_at <= i64::MAX ==> record.started_at == e.started_at,
        record.completed_at is None,
        record.archived_at is None,
        record.metrics is None,
        record.dataset_id.deep_view() == e.dataset_id.deep_view(),
        record.rubric_id.deep_view() == e.rubric_id.deep_view(),
        record.baseline_id.deep_view() == e.baseline_id.deep_view(),
        record.prompt_asset_id.deep_view() == e.prompt_asset_id.deep_view(),
        record.prompt_version_id.deep_view() == e.prompt_version_id.deep_view(),
        record.prompt_release_id.deep_view() == e.prompt_release_id.deep_view(),
        record.created_by.deep_view() == e.created_by.deep_view(),
        record.rubric_score is None,
{
    broadcast use group_rows;
}

/// The record that is read back after a `EvalRubricCreated` event holds what the event says.
pub proof fn eval_rubric_created_is_read_back(
    e: EvalRubricCreated,
    at: Moment,
    db: Database,
    row: EvalRubricRow,
    names: DomainNames,
    record: EvalRubric,
)
    requires
        e.writes(at) is Writes,
        e.writes(at).statements().len() > 0,
        row.is_of(crate::laws::rows::left_by(db, e.writes(at).statements()[0], None)),
        row.holds(&names, &record),
    ensures
        record.rubric_id@ == e.rubric_id@,
        record.tenant_id@ == ""@,
        record.name@ == e.name@,
        e.created_at_ms <= i64::MAX ==> record.created_at_ms == e.created_at_ms,
        record.dimensions@.len() == 0,
{
    broadcast use group_rows;
}

/// The record that is read back after a `EvalBaselineSet` event holds what the event says.
pub proof fn eval_baseline_set_is_read_back(
    e: EvalBaselineSet,
    at: Moment,
    db: Database,
    was: Option<Row>,
    before: EvalBaselineRow,
    row: EvalBaselineRow,
    names: DomainNames,
    old: EvalBaseline,
    record: EvalBaseline,
)
    requires
        e.writes(at) is Writes,
        e.writes(at).statements().len() > 0,
        was is Some ==> crate::laws::rows::replaces(
            db,
            e.writes(at).statements()[0],
            was->Some_0,
        ),
        was is Some ==> before.is_of(was->Some_0) && before.holds(&names, &old),
        row.is_of(crate::laws::rows::left_by(db, e.writes(at).statements()[0], was)),
        row.holds(&names, &record),
    ensures
        record.baseline_id@ == e.baseline_id@,
        was is None ==> (record.tenant_id@ == ""@),
        record.name@ == e.baseline_id@ + "["@ + e.metric@ + "="@ + e.value@ + "]"@,
        was is None ==> (record.prompt_asset_id@ == ""@),
        was is None ==> (e.set_at_ms <= i64::MAX ==> record.created_at_ms == e.set_at_ms),
        was is None ==> (record.locked == false),
        record.metrics is None,
        was is Some ==> record.tenant_id@ == old.tenant_id@,
        was is Some ==> record.prompt_asset_id@ == old.prompt_asset_id@,
        was is Some ==> record.created_at_ms == old.created_at_ms,
        was is Some ==> record.locked == old.locked,
{
    broadcast use group_rows;

    let key = e.writes(at).statements()[0]->Insert_conflict->Merge_key;
    assert(key[0] == Column::BaselineId);
}

/// The record that is read back of a row that a `EvalRunCompleted` event changes holds what the
/// event says.
pub proof fn eval_run_completed_is_read_back(
    e: EvalRunCompleted,
    at: Moment,
    db: Database,
    was: Row,
    before: EvalRunRow,
    row: EvalRunRow,
    names: DomainNames,
    old: EvalRunRecord,
    record: EvalRunRecord,
)
    requires
        e.writes(at) is Writes,
        e.writes(at).statements().len() > 0,
        crate::model::passes_all(db, was, e.writes(at).statements()[0]->Update_filter),
        before.is_of(was),
        row.is_of(crate::laws::rows::updated_by(db, e.writes(at).statements()[0], was)),
        before.holds(&names, &old),
        row.holds(&names, &record),
    ensures
        record.error_message.deep_view() == e.error_message.deep_view(),
        e.completed_at <= i64::MAX ==> record.completed_at == Some(e.completed_at),
        record.eval_run_id@ == old.eval_run_id@,
        record.project@ == old.project@,
        record.subject_kind@ == old.subject_kind@,
        record.evaluator_type@ == old.evaluator_type@,
        record.started_at == old.started_at,
        record.archived_at == old.archived_at,
        record.metrics.deep_view() == old.metrics.deep_view(),
        record.dataset_id.deep_view() == old.dataset_id.deep_view(),
        record.rubric_id.deep_view() == old.rubric_id.deep_view(),
        record.baseline_id.deep_view() == old.baseline_id.deep_view(),
        record.prompt_asset_id.deep_view() == old.prompt_asset_id.deep_view(),
        record.prompt_version_id.deep_view() == old.prompt_version_id.deep_view(),
        record.prompt_release_id.deep_view() == old.prompt_release_id.deep_view(),
        record.created_by.deep_view() == old.created_by.deep_view(),
        record.success == Some(e.success),
        record.rubric_score is Some <==> old.rubric_score is Some,
        row.score_text() == before.score_text(),
        row.rubric_score is Some && row.rubric_score->Some_0.score
            == before.rubric_score->Some_0.score ==> record.rubric_score == old.rubric_score,
{
    broadcast use group_rows;
}

/// The record that is read back of a row that a `EvalRunArchived` event changes holds what the
/// event says.
pub proof fn eval_run_archived_is_read_back(
    e: EvalRunArchived,
    at: Moment,
    db: Database,
    was: Row,
    before: EvalRunRow,
    row: EvalRunRow,
    names: DomainNames,
    old: EvalRunRecord,
    record: EvalRunRecord,
)
    requires
        e.writes(at) is Writes,
        e.writes(at).statements().len() > 0,
        crate::model::passes_all(db, was, e.writes(at).statements()[0]->Update_filter),
        before.is_of(was),
        row.is_of(crate::laws::rows::updated_by(db, e.writes(at).statements()[0], was)),
        before.holds(&names, &old),
        row.holds(&names, &record),
    ensures
        e.archived_at <= i64::MAX ==> record.archived_at == Some(e.archived_at),
        record.eval_run_id@ == old.eval_run_id@,
        record.project@ == old.project@,
        record.subject_kind@ == old.subject_kind@,
        record.evaluator_type@ == old.evaluator_type@,
        record.success == old.success,
        record.error_message.deep_view() == old.error_message.deep_view(),
        record.started_at == old.started_at,
        record.completed_at == old.completed_at,
        record.metrics.deep_view() == old.metrics.deep_view(),
        record.dataset_id.deep_view() == old.dataset_id.deep_view(),
        record.rubric_id.deep_view() == old.rubric_id.deep_view(),
        record.baseline_id.deep_view() == old.baseline_id.deep_view(),
        record.prompt_asset_id.deep_view() == old.prompt_asset_id.deep_view(),
        record.prompt_version_id.deep_view() == old.prompt_version_id.deep_view(),
        record.prompt_release_id.deep_view() == old.prompt_release_id.deep_view(),
        record.created_by.deep_view() == old.created_by.deep_view(),
        record.rubric_score is Some <==> old.rubric_score is Some,
        row.score_text() == before.score_text(),
        row.rubric_score is Some && row.rubric_score->Some_0.score
            == before.rubric_score->Some_0.score ==> record.rubric_score == old.rubric_score,
{
    broadcast use group_rows;
}

/// The record that is read back of a row that a `EvalRunScored` event changes holds what the
/// event says.
pub proof fn eval_run_scored_is_read_back(
    e: EvalRunScored,
    at: Moment,
    db: Database,
    was: Row,
    before: EvalRunRow,
    row: EvalRunRow,
    names: DomainNames,
    old: EvalRunRecord,
    record: EvalRunRecord,
)
    requires
        e.writes(at) is Writes,
        e.writes(at).statements().len() > 0,
        crate::model::passes_all(db, was, e.writes(at).statements()[0]->Update_filter),
        before.is_of(was),
        row.is_of(crate::laws::rows::updated_by(db, e.writes(at).statements()[0], was)),
        before.holds(&names, &old),
        row.holds(&names, &record),
    ensures
        record.metrics.deep_view() == Some(e.metrics_json@),
        record.eval_run_id@ == old.eval_run_id@,
        record.project@ == old.project@,
        record.subject_kind@ == old.subject_kind@,
        record.evaluator_type@ == old.evaluator_type@,
        record.success == old.success,
        record.error_message.deep_view() == old.error_message.deep_view(),
        record.started_at == old.started_at,
        record.completed_at == old.completed_at,
        record.archived_at == old.archived_at,
        record.dataset_id.deep_view() == old.dataset_id.deep_view(),
        record.rubric_id.deep_view() == old.rubric_id.deep_view(),
        record.baseline_id.deep_view() == old.baseline_id.deep_view(),
        record.prompt_asset_id.deep_view() == old.prompt_asset_id.deep_view(),
        record.prompt_version_id.deep_view() == old.prompt_version_id.deep_view(),
        record.prompt_release_id.deep_view() == old.prompt_release_id.deep_view(),
        record.created_by.deep_view() == old.created_by.deep_view(),
        record.rubric_score is Some <==> old.rubric_score is Some,
        row.score_text() == before.score_text(),
        row.rubric_score is Some && row.rubric_score->Some_0.score
            == before.rubric_score->Some_0.score ==> record.rubric_score == old.rubric_score,
{
    broadcast use group_rows;
}

/// The record that is read back of a row that a `EvalBaselineLocked` event changes holds what
/// the event says.
pub proof fn eval_baseline_locked_is_read_back(
    e: EvalBaselineLocked,
    at: Moment,
    db: Database,
    was: Row,
    before: EvalBaselineRow,
    row: EvalBaselineRow,
    names: DomainNames,
    old: EvalBaseline,
    record: EvalBaseline,
)
    requires
        e.writes(at) is Writes,
        e.writes(at).statements().len() > 0,
        crate::model::passes_all(db, was, e.writes(at).statements()[0]->Update_filter),
        before.is_of(was),
        row.is_of(crate::laws::rows::updated_by(db, e.writes(at).statements()[0], was)),
        before.holds(&names, &old),
        row.holds(&names, &record),
    ensures
        record.locked == true,
        record.baseline_id@ == old.baseline_id@,
        record.tenant_id@ == old.tenant_id@,
        record.name@ == old.name@,
        record.prompt_asset_id@ == old.prompt_asset_id@,
        record.metrics.deep_view() == old.metrics.deep_view(),
        record.created_at_ms == old.created_at_ms,
{
    broadcast use group_rows;
}

/// The record that is read back of a row that a `EvalRubricScored` event changes holds what
/// the event says.
pub proof fn eval_rubric_scored_is_read_back(
    e: EvalRubricScored,
    at: Moment,
    db: Database,
    was: Row,
    before: EvalRunRow,
    row: EvalRunRow,
    names: DomainNames,
    old: EvalRunRecord,
    record: EvalRunRecord,
)
    requires
        crate::model::passes_all(db, was, e.writes(at).statements()[0]->Update_filter),
        before.is_of(was),
        row.is_of(crate::laws::rows::updated_by(db, e.writes(at).statements()[0], was)),
        before.holds(&names, &old),
        row.holds(&names, &record),
    ensures
        record.rubric_score is Some,
        row.score_text() == Some(e.rubric_score_json@),
        row.rubric_score->Some_0.score == Ok::<EvalRubricScoreSummary, String>(
            record.rubric_score->Some_0,
        ),
        record.eval_run_id@ == old.eval_run_id@,
        record.project@ == old.project@,
        record.subject_kind@ == old.subject_kind@,
        record.evaluator_type@ == old.evaluator_type@,
        record.success == old.success,
        record.error_message.deep_view() == old.error_message.deep_view(),
        record.started_at == old.started_at,
        record.completed_at == old.completed_at,
        record.archived_at == old.archived_at,
        record.metrics.deep_view() == old.metrics.deep_view(),
        record.dataset_id.deep_view() == old.dataset_id.deep_view(),
        record.rubric_id.deep_view() == old.rubric_id.deep_view(),
        record.baseline_id.deep_view() == old.baseline_id.deep_view(),
        record.prompt_asset_id.deep_view() == old.prompt_asset_id.deep_view(),
        record.prompt_version_id.deep_view() == old.prompt_version_id.deep_view(),
        record.prompt_release_id.deep_view() == old.prompt_release_id.deep_view(),
        record.created_by.deep_view() == old.created_by.deep_view(),
{
    broadcast use group_rows;
}

/// The dataset that is read back after a `EvalDatasetCreated` event holds what the event says.
pub proof fn eval_dataset_created_is_read_back(
    e: EvalDatasetCreated,
    at: Moment,
    db: Database,
    row: EvalDatasetRow,
    entries: Seq<EntryView>,
    dataset: EvalDataset,
)
    requires
        e.writes(at) is Writes,
        row.is_of(crate::laws::rows::left_by(db, e.writes(at).statements()[0], None)),
        row.makes(entries, dataset),
    ensures
        dataset.dataset_id@ == e.dataset_id@,
        dataset.tenant_id@ == ""@,
        dataset.name@ == e.name@,
        dataset.subject_kind is PromptRelease,
        dataset.created_at_ms == e.created_at_ms,
        crate::read::evals::entry_views(dataset.entries@) == entries,
{
    broadcast use group_rows;
}

/// An entry that a `EvalDatasetEntryAdded` event adds is read back in its dataset, behind those
/// that were read before it, and in no other.
pub proof fn eval_dataset_entry_added_is_read_back(
    e: EvalDatasetEntryAdded,
    at: Moment,
    db: Database,
    earlier: Seq<EvalDatasetEntryRow>,
    row: EvalDatasetEntryRow,
    dataset_id: Seq<char>,
)
    requires
        e.writes(at) is Writes,
        row.is_of(crate::laws::rows::left_by(db, e.writes(at).statements()[0], None)),
    ensures
        crate::read::evals::entries_of(earlier.push(row), dataset_id) == if dataset_id
            == e.dataset_id@ {
            crate::read::evals::entries_of(earlier, dataset_id).push(
                crate::read::evals::entry(e.entry_id@),
            )
        } else {
            crate::read::evals::entries_of(earlier, dataset_id)
        },
{
    broadcast use group_rows;

    assert(earlier.push(row).drop_last() =~= earlier);
}

/// A dataset is read back with every entry that was added to it, wherever the entry's row stands
/// among those read.
pub proof fn a_dataset_is_read_back_with_its_entries(
    e: EvalDatasetEntryAdded,
    at: Moment,
    db: Database,
    rows: Seq<EvalDatasetEntryRow>,
    i: int,
    row: EvalDatasetRow,
    dataset: EvalDataset,
)
    requires
        e.writes(at) is Writes,
        0 <= i < rows.len(),
        rows[i].is_of(crate::laws::rows::left_by(db, e.writes(at).statements()[0], None)),
        row.dataset_id@ == e.dataset_id@,
        row.makes(crate::read::evals::entries_of(rows, row.dataset_id@), dataset),
    ensures
        crate::read::evals::entry_views(dataset.entries@).contains(
            crate::read::evals::entry(e.entry_id@),
        ),
{
    broadcast use group_rows;

    entries_hold_every_row_of_the_dataset(rows, row.dataset_id@, i);
}

proof fn entries_hold_every_row_of_the_dataset(
    rows: Seq<EvalDatasetEntryRow>,
    dataset_id: Seq<char>,
    i: int,
)
    requires
        0 <= i < rows.len(),
        rows[i].dataset_id@ == dataset_id,
    ensures
        crate::read::evals::entries_of(rows, dataset_id).contains(
            crate::read::evals::entry(rows[i].entry_id@),
        ),
    decreases rows.len(),
{
    let front = rows.drop_last();
    let wanted = crate::read::evals::entry(rows[i].entry_id@);
    let before = crate::read::evals::entries_of(front, dataset_id);
    let all = crate::read::evals::entries_of(rows, dataset_id);
    if i < rows.len() - 1 {
        assert(front[i] == rows[i]);
        entries_hold_every_row_of_the_dataset(front, dataset_id, i);
        let k = choose|k: int| 0 <= k < before.len() && before[k] == wanted;
        assert(all[k] == wanted);
    } else {
        assert(all.last() == wanted);
        assert(all[all.len() - 1] == wanted);
    }
}

} // verus!
