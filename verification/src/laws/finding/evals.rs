//! What is found of what was written: evals.

use crate::laws::finding::group_queries;
use crate::laws::rows::group_rows;
use crate::model::{Database, Row};
use crate::plan::Moment;
use crate::projections::evals::{
    EvalBaselineSet, EvalDatasetCreated, EvalDatasetEntryAdded, EvalRubricCreated, EvalRunStarted,
};
use crate::read::evals::{EvalBaselineRow, EvalDatasetRow, EvalRubricRow, EvalRunRow};
use crate::schema::Column;
use vstd::prelude::*;

verus! {

/// The row that a `EvalRunStarted` event leaves is found by the queries for what it names.
pub proof fn eval_run_started_is_found(
    e: EvalRunStarted,
    at: Moment,
    db: Database,
    later: Database,
    limit: usize,
    offset: usize,
)
    requires
        e.writes(at) is Writes,
        e.writes(at).statements().len() > 0,
    ensures
        ({
            let s = e.writes(at).statements()[0];
            let row = crate::laws::rows::left_by(db, s, None);
            &&& EvalRunRow::spec_get(e.eval_run_id@).finds(later, s.table(), row)
            &&& EvalRunRow::spec_list_by_project(
                e.project@,
                limit,
                offset,
            ).finds(later, s.table(), row)
        }),
{
    broadcast use {group_queries, group_rows};
}

/// The row that a `EvalRubricCreated` event leaves is found by the query for what it names.
pub proof fn eval_rubric_created_is_found(
    e: EvalRubricCreated,
    at: Moment,
    db: Database,
    later: Database,
)
    requires
        e.writes(at) is Writes,
        e.writes(at).statements().len() > 0,
    ensures
        ({
            let s = e.writes(at).statements()[0];
            let row = crate::laws::rows::left_by(db, s, None);
            &&& EvalRubricRow::spec_get_rubric(e.rubric_id@).finds(later, s.table(), row)
        }),
{
    broadcast use {group_queries, group_rows};
}

/// The row that a `EvalBaselineSet` event leaves is found by the query for what it names.
pub proof fn eval_baseline_set_is_found(
    e: EvalBaselineSet,
    at: Moment,
    db: Database,
    was: Option<Row>,
    later: Database,
)
    requires
        e.writes(at) is Writes,
        e.writes(at).statements().len() > 0,
        was is Some ==> crate::laws::rows::replaces(
            db,
            e.writes(at).statements()[0],
            was->Some_0,
        ),
    ensures
        ({
            let s = e.writes(at).statements()[0];
            let row = crate::laws::rows::left_by(db, s, was);
            &&& EvalBaselineRow::spec_get_baseline(e.baseline_id@).finds(later, s.table(), row)
        }),
{
    broadcast use {group_queries, group_rows};

    let key = e.writes(at).statements()[0]->Insert_conflict->Merge_key;
    assert(key[0] == Column::BaselineId);
}

/// The rows that an `EvalDatasetCreated` and an `EvalDatasetEntryAdded` event leave are found by
/// the queries for the dataset and for its entries.
pub proof fn an_eval_dataset_is_found(
    created: EvalDatasetCreated,
    added: EvalDatasetEntryAdded,
    at: Moment,
    db: Database,
    later: Database,
)
    requires
        created.writes(at) is Writes,
        added.writes(at) is Writes,
    ensures
        ({
            let s = created.writes(at).statements()[0];
            let row = crate::laws::rows::left_by(db, s, None);
            EvalDatasetRow::spec_get_dataset(created.dataset_id@).finds(later, s.table(), row)
        }),
        ({
            let s = added.writes(at).statements()[0];
            let row = crate::laws::rows::left_by(db, s, None);
            EvalDatasetRow::spec_load_eval_dataset_entries(added.dataset_id@).finds(
                later,
                s.table(),
                row,
            )
        }),
{
    broadcast use {group_queries, group_rows};
}

} // verus!
