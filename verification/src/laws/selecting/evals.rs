//! What the queries select: evals.

use crate::domain::ProjectView;
use crate::laws::finding::group_queries;
use crate::model::{Database, Datum, Row};
use crate::query::{Order, OutputView};
use crate::read::evals::{EvalBaselineRow, EvalDatasetRow, EvalRubricRow, EvalRunRow};
use crate::schema::{Column, Table};
use crate::sql::SqlView;
use crate::value::ValueView;
use vstd::prelude::*;

verus! {

/// The rows that [`EvalRunRow::get`] selects, and in which order.
pub proof fn eval_run_row_get_selects(db: Database, row: Row, eval_run_id: Seq<char>)
    ensures
        ({
            let query = EvalRunRow::spec_get(eval_run_id);
            &&& query.table == Table::EvalRuns
            &&& query.output == OutputView::Rows(EvalRunRow::spec_columns())
            &&& query.selects(db, row)
                <==> crate::model::value(row, Column::EvalRunId) == Datum::Text(eval_run_id)
            &&& query.order.len() == 0
            &&& query.limit == None::<i64>
            &&& query.offset == None::<i64>
        }),
{
    broadcast use group_queries;
}

/// The rows that [`EvalRunRow::list_by_project`] selects, and in which order.
pub proof fn eval_run_row_list_by_project_selects(
    db: Database,
    row: Row,
    project: ProjectView,
    limit: usize,
    offset: usize,
)
    ensures
        ({
            let query = EvalRunRow::spec_list_by_project(project, limit, offset);
            &&& query.table == Table::EvalRuns
            &&& query.output == OutputView::Rows(EvalRunRow::spec_columns())
            &&& query.selects(db, row)
                <==> crate::model::value(row, Column::TenantId) == Datum::Text(project.tenant_id)
                && crate::model::value(row, Column::WorkspaceId)
                    == Datum::Text(project.workspace_id)
                && crate::model::value(row, Column::ProjectId) == Datum::Text(project.project_id)
            &&& query.order.len() == 2
            &&& query.order[0] == Order::Ascending(Column::StartedAt)
            &&& query.order[1] == Order::Ascending(Column::EvalRunId)
            &&& query.limit == Some(limit as i64)
            &&& query.offset == Some(offset as i64)
        }),
{
    broadcast use group_queries;
}

/// The rows that [`EvalRubricRow::get_rubric`] selects, and in which order.
pub proof fn eval_rubric_row_get_rubric_selects(db: Database, row: Row, rubric_id: Seq<char>)
    ensures
        ({
            let query = EvalRubricRow::spec_get_rubric(rubric_id);
            &&& query.table == Table::EvalRubrics
            &&& query.output == OutputView::Rows(EvalRubricRow::spec_columns())
            &&& query.selects(db, row)
                <==> crate::model::value(row, Column::RubricId) == Datum::Text(rubric_id)
            &&& query.order.len() == 0
            &&& query.limit == None::<i64>
            &&& query.offset == None::<i64>
        }),
{
    broadcast use group_queries;
}

/// The rows that [`EvalRubricRow::list_by_tenant`] selects, and in which order.
pub proof fn eval_rubric_row_list_by_tenant_selects(
    db: Database,
    row: Row,
    tenant_id: Seq<char>,
    limit: usize,
    offset: usize,
)
    ensures
        ({
            let query = EvalRubricRow::spec_list_by_tenant(tenant_id, limit, offset);
            &&& query.table == Table::EvalRubrics
            &&& query.output == OutputView::Rows(EvalRubricRow::spec_columns())
            &&& query.selects(db, row)
                <==> (tenant_id.len() == 0 || crate::model::value(row, Column::TenantId)
                    == Datum::Text(tenant_id))
            &&& query.order.len() == 1
            &&& query.order[0] == Order::Ascending(Column::RubricId)
            &&& query.limit == Some(limit as i64)
            &&& query.offset == Some(offset as i64)
        }),
{
    broadcast use group_queries;
}

/// The rows that [`EvalBaselineRow::get_baseline`] selects, and in which order.
pub proof fn eval_baseline_row_get_baseline_selects(db: Database, row: Row, baseline_id: Seq<char>)
    ensures
        ({
            let query = EvalBaselineRow::spec_get_baseline(baseline_id);
            &&& query.table == Table::EvalBaselines
            &&& query.output == OutputView::Rows(EvalBaselineRow::spec_columns())
            &&& query.selects(db, row)
                <==> crate::model::value(row, Column::BaselineId) == Datum::Text(baseline_id)
            &&& query.order.len() == 0
            &&& query.limit == None::<i64>
            &&& query.offset == None::<i64>
        }),
{
    broadcast use group_queries;
}

/// The rows that [`EvalBaselineRow::list_by_tenant`] selects, and in which order.
pub proof fn eval_baseline_row_list_by_tenant_selects(
    db: Database,
    row: Row,
    tenant_id: Seq<char>,
    limit: usize,
    offset: usize,
)
    ensures
        ({
            let query = EvalBaselineRow::spec_list_by_tenant(tenant_id, limit, offset);
            &&& query.table == Table::EvalBaselines
            &&& query.output == OutputView::Rows(EvalBaselineRow::spec_columns())
            &&& query.selects(db, row)
                <==> (tenant_id.len() == 0 || crate::model::value(row, Column::TenantId)
                    == Datum::Text(tenant_id))
            &&& query.order.len() == 1
            &&& query.order[0] == Order::Ascending(Column::BaselineId)
            &&& query.limit == Some(limit as i64)
            &&& query.offset == Some(offset as i64)
        }),
{
    broadcast use group_queries;
}

/// The rows that [`EvalDatasetRow::get_dataset`] selects, and in which order.
pub proof fn eval_dataset_row_get_dataset_selects(db: Database, row: Row, dataset_id: Seq<char>)
    ensures
        ({
            let query = EvalDatasetRow::spec_get_dataset(dataset_id);
            &&& query.table == Table::EvalDatasets
            &&& query.output == OutputView::Rows(EvalDatasetRow::spec_columns())
            &&& query.selects(db, row)
                <==> crate::model::value(row, Column::DatasetId) == Datum::Text(dataset_id)
            &&& query.order.len() == 0
            &&& query.limit == None::<i64>
            &&& query.offset == None::<i64>
        }),
{
    broadcast use group_queries;
}

/// The rows that [`EvalDatasetRow::list_by_tenant`] selects, and in which order.
pub proof fn eval_dataset_row_list_by_tenant_selects(
    db: Database,
    row: Row,
    tenant_id: Seq<char>,
    limit: usize,
    offset: usize,
)
    ensures
        ({
            let query = EvalDatasetRow::spec_list_by_tenant(tenant_id, limit, offset);
            &&& query.table == Table::EvalDatasets
            &&& query.output == OutputView::Rows(EvalDatasetRow::spec_columns())
            &&& query.selects(db, row)
                <==> (tenant_id.len() == 0 || crate::model::value(row, Column::TenantId)
                    == Datum::Text(tenant_id))
            &&& query.order.len() == 2
            &&& query.order[0] == Order::Ascending(Column::CreatedAtMs)
            &&& query.order[1] == Order::Ascending(Column::DatasetId)
            &&& query.limit == Some(limit as i64)
            &&& query.offset == Some(offset as i64)
        }),
{
    broadcast use group_queries;
}

/// The rows that [`EvalDatasetRow::load_eval_dataset_entries`] selects, and in which order.
pub proof fn eval_dataset_row_load_eval_dataset_entries_selects(
    db: Database,
    row: Row,
    dataset_id: Seq<char>,
)
    ensures
        ({
            let query = EvalDatasetRow::spec_load_eval_dataset_entries(dataset_id);
            &&& query.table == Table::EvalDatasetEntries
            &&& query.output == OutputView::Rows(seq![Column::DatasetId, Column::EntryId])
            &&& query.selects(db, row)
                <==> crate::model::value(row, Column::DatasetId) == Datum::Text(dataset_id)
            &&& query.order.len() == 2
            &&& query.order[0] == Order::Ascending(Column::AddedAtMs)
            &&& query.order[1] == Order::Ascending(Column::EntryId)
            &&& query.limit == None::<i64>
            &&& query.offset == None::<i64>
        }),
{
    broadcast use group_queries;
}

/// The datasets are asked for their entries by nine hundred at a time.
pub proof fn how_many_datasets_are_named(total: int, done: int)
    requires
        0 <= done < total,
    ensures
        crate::read::evals::named_next(total, done) == if total - done < 900 {
            total - done
        } else {
            900
        },
{
}

proof fn ids_are_bound(sql: SqlView, rows: Seq<EvalDatasetRow>, n: nat)
    requires
        n <= rows.len(),
    ensures
        ({
            let named = sql.dataset_ids(rows, n);
            &&& named.params.len() == sql.params.len() + n
            &&& forall|i: int|
                0 <= i < sql.params.len() ==> #[trigger] named.params[i] == sql.params[i]
            &&& forall|i: int|
                0 <= i < n ==> #[trigger] named.params[sql.params.len() + i] == ValueView::Text(
                    rows[i].dataset_id@,
                )
        }),
    decreases n,
{
    if n > 0 {
        ids_are_bound(sql, rows, (n - 1) as nat);
        let before = sql.dataset_ids(rows, (n - 1) as nat);
        let named = sql.dataset_ids(rows, n);
        assert forall|i: int| 0 <= i < n implies #[trigger] named.params[sql.params.len() + i]
            == ValueView::Text(rows[i].dataset_id@) by {
            if i < n - 1 {
                assert(before.params[sql.params.len() + i] == ValueView::Text(
                    rows[i].dataset_id@,
                ));
            }
        }
    }
}

/// The query for the entries of some datasets names each of them, in order, and
/// asks for the entries of each dataset in the order in which they were added.
pub proof fn the_entries_of_datasets_are_asked_for(rows: Seq<EvalDatasetRow>, i: int)
    requires
        0 <= i < rows.len(),
    ensures
        ({
            let query = EvalDatasetRow::entries_query(rows);
            &&& query.params.len() == rows.len()
            &&& query.params[i] == ValueView::Text(rows[i].dataset_id@)
            &&& query.text == SqlView::new().text(
                "SELECT dataset_id, entry_id FROM eval_dataset_entries WHERE dataset_id IN ("@,
            ).dataset_ids(rows, rows.len()).text
                + ") ORDER BY dataset_id ASC, added_at_ms ASC, entry_id ASC"@
            &&& SqlView::new().dataset_ids(rows, 1).text == Seq::<char>::empty() + "$"@
                + crate::text::decimal(1)
        }),
{
    let start = SqlView::new().text(
        "SELECT dataset_id, entry_id FROM eval_dataset_entries WHERE dataset_id IN ("@,
    );
    ids_are_bound(start, rows, rows.len());
    let named = start.dataset_ids(rows, rows.len());
    assert(named.params[start.params.len() + i] == ValueView::Text(rows[i].dataset_id@));
    reveal_with_fuel(SqlView::dataset_ids, 2);
}

/// The ids of the datasets are separated by commas, each a parameter of its own.
pub proof fn the_ids_of_datasets_stand_in_order(sql: SqlView, rows: Seq<EvalDatasetRow>, n: nat)
    requires
        0 < n < rows.len(),
    ensures
        ({
            let before = sql.dataset_ids(rows, n);
            let after = sql.dataset_ids(rows, n + 1);
            &&& sql.dataset_ids(rows, 0) == sql
            &&& sql.dataset_ids(rows, 1).text == sql.text + "$"@ + crate::text::decimal(
                sql.params.len() + 1,
            )
            &&& after.text == before.text + ", "@ + "$"@ + crate::text::decimal(
                before.params.len() + 1,
            )
            &&& after.params == before.params.push(ValueView::Text(rows[n as int].dataset_id@))
        }),
{
    reveal_with_fuel(SqlView::dataset_ids, 2);
}

} // verus!
