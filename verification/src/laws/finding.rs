//! What is found of what was written.

pub mod approvals;
pub mod checkpoints;
pub mod evals;
pub mod knowledge;
pub mod messages;
pub mod policies;
pub mod providers;
pub mod removed;
pub mod runs;
pub mod sessions;
pub mod tasks;
pub mod tenants;
pub mod tools;
pub mod triggers;

use crate::model::{Database, Row};
use crate::query::{Order, OutputView, QueryView};
use crate::schema::{Column, Table};
use crate::statement::{FilterView, StatementView, TestView};
use vstd::prelude::*;

verus! {

/// A query without tests selects every row.
pub broadcast proof fn every_row_is_selected_without_tests(
    db: Database,
    row: Row,
    table: Table,
    output: OutputView,
)
    ensures
        #[trigger] QueryView::on(table, output).selects(db, row),
{
}

/// A row is selected if it passes each test.
pub broadcast proof fn a_row_is_selected_by_each_test(
    db: Database,
    row: Row,
    query: QueryView,
    test: TestView,
)
    ensures
        #[trigger] query.test(test).selects(db, row) == (crate::model::passes(db, row, test)
            && query.selects(db, row)),
{
    let tests = query.test(test).filter;
    if query.test(test).selects(db, row) {
        assert(crate::model::passes(db, row, tests[query.filter.len() as int]));
        assert forall|i: int| 0 <= i < query.filter.len() implies crate::model::passes(
            db,
            row,
            #[trigger] query.filter[i],
        ) by {
            assert(crate::model::passes(db, row, tests[i]));
        }
    }
}

/// What is selected does not depend on the order.
pub broadcast proof fn the_order_selects_nothing(
    db: Database,
    row: Row,
    query: QueryView,
    column: Column,
)
    ensures
        #[trigger] query.ascending(column).selects(db, row) == query.selects(db, row),
        query.descending(column).selects(db, row) == query.selects(db, row),
{
}

/// What is selected does not depend on an order from the greatest.
pub broadcast proof fn the_falling_order_selects_nothing(
    db: Database,
    row: Row,
    query: QueryView,
    column: Column,
)
    ensures
        #[trigger] query.descending(column).selects(db, row) == query.selects(db, row),
{
}

/// What is selected does not depend on the limit.
pub broadcast proof fn the_limit_selects_nothing(
    db: Database,
    row: Row,
    query: QueryView,
    rows: i64,
)
    ensures
        #[trigger] query.limit(rows).selects(db, row) == query.selects(db, row),
        query.offset(rows).selects(db, row) == query.selects(db, row),
{
}

/// What is selected does not depend on the offset.
pub broadcast proof fn the_offset_selects_nothing(
    db: Database,
    row: Row,
    query: QueryView,
    rows: i64,
)
    ensures
        #[trigger] query.offset(rows).selects(db, row) == query.selects(db, row),
{
}

/// What queries select.
pub broadcast group group_queries {
    every_row_is_selected_without_tests,
    a_row_is_selected_by_each_test,
    the_order_selects_nothing,
    the_falling_order_selects_nothing,
    the_limit_selects_nothing,
    the_offset_selects_nothing,
}

/// Whether every test of a query speaks of the row alone.
pub open spec fn is_plain(query: QueryView) -> bool {
    (FilterView { tests: query.filter }).is_plain()
}

proof fn plain_tests_ask_only_the_row(db: Database, other: Database, row: Row, tests: Seq<TestView>)
    requires
        (FilterView { tests }).is_plain(),
    ensures
        crate::model::passes_all(db, row, tests) == crate::model::passes_all(other, row, tests),
    decreases tests.len(),
{
    broadcast use crate::laws::rows::group_filters;

    if tests.len() > 0 {
        let front = FilterView { tests: tests.drop_last() };
        plain_tests_ask_only_the_row(db, other, row, front.tests);
        assert(front.test(tests.last()).tests =~= tests);
    }
}

/// Where a query found nothing, it finds the row of an insert under a new key,
/// and nothing else.
pub proof fn a_new_row_is_all_that_is_found(db: Database, s: StatementView, query: QueryView)
    requires
        crate::laws::rows::is_new(db, s),
        is_plain(query),
        query.selected(db).len() == 0,
        query.finds(crate::model::after(db, s), s.table(), crate::laws::rows::left_by(db, s, None)),
    ensures
        query.selected(crate::model::after(db, s)) == seq![
            crate::laws::rows::left_by(db, s, None),
        ],
{
    crate::laws::rows::an_insert_adds_its_row(db, s);
    let after = crate::model::after(db, s);
    let rows = db.rows(s.table());
    let new = crate::laws::rows::left_by(db, s, None);
    let now = |row: Row| query.selects(after, row);
    let before = |row: Row| query.selects(db, row);
    assert forall|row: Row| #[trigger] now(row) == before(row) by {
        plain_tests_ask_only_the_row(after, db, row, query.filter);
    }
    assert(now =~= before);
    reveal(Seq::filter);
    assert(rows.push(new).drop_last() =~= rows);
    assert(rows.push(new).filter(now) =~= rows.filter(now).push(new));
}

/// After a delete, a query with the tests of the delete finds nothing.
pub proof fn nothing_is_found_of_what_was_deleted(
    db: Database,
    s: StatementView,
    query: QueryView,
)
    requires
        s is Delete,
        is_plain(query),
        query.table == s.table(),
        query.filter == s->Delete_filter,
    ensures
        query.selected(crate::model::after(db, s)).len() == 0,
{
    let after = crate::model::after(db, s);
    let rows = after.rows(s.table());
    let selects = |row: Row| query.selects(after, row);
    let found = rows.filter(selects);
    if found.len() > 0 {
        rows.lemma_filter_pred(selects, 0);
        rows.lemma_filter_contains_rev(selects, found[0]);
        crate::laws::rows::a_delete_leaves_no_row_that_it_selects(db, s, found[0]);
        plain_tests_ask_only_the_row(after, db, found[0], query.filter);
    }
}

} // verus!
