//! The queries that projections are read with.

use crate::domain::ProjectView;
use crate::model::{Database, Datum, Row};
use crate::schema::{Column, Table};
use crate::statement::{Test, TestView};
use crate::value::{SqlValue, ValueView};
use vstd::prelude::*;

verus! {

/// What a query answers with.
#[derive(Debug, PartialEq, Eq)]
pub enum Output {
    /// The given columns of each row.
    Rows(Vec<Column>),
    /// Whether there is a row.
    Exists,
    /// How many rows there are.
    Count,
    /// The given column of each row, which stays locked until the transaction ends.
    Locked(Column),
    /// The number after the greatest in the given column; one where there is none.
    NextAfterGreatest(Column),
}

/// The mathematical value of an [`Output`].
pub enum OutputView {
    Rows(Seq<Column>),
    Exists,
    Count,
    Locked(Column),
    NextAfterGreatest(Column),
}

impl View for Output {
    type V = OutputView;

    open spec fn view(&self) -> OutputView {
        match self {
            Output::Rows(columns) => OutputView::Rows(columns@),
            Output::Exists => OutputView::Exists,
            Output::Count => OutputView::Count,
            Output::Locked(c) => OutputView::Locked(*c),
            Output::NextAfterGreatest(c) => OutputView::NextAfterGreatest(*c),
        }
    }
}

/// One key of the order of rows.
#[derive(Clone, Copy, Debug, PartialEq, Eq, Structural)]
pub enum Order {
    Ascending(Column),
    Descending(Column),
}

/// A query on one table.
#[derive(Debug, PartialEq, Eq)]
pub struct Query {
    pub table: Table,
    pub output: Output,
    pub filter: Vec<Test>,
    pub order: Vec<Order>,
    pub limit: Option<i64>,
    pub offset: Option<i64>,
}

/// The mathematical value of a [`Query`].
pub struct QueryView {
    pub table: Table,
    pub output: OutputView,
    pub filter: Seq<TestView>,
    pub order: Seq<Order>,
    pub limit: Option<i64>,
    pub offset: Option<i64>,
}

impl View for Query {
    type V = QueryView;

    open spec fn view(&self) -> QueryView {
        QueryView {
            table: self.table,
            output: self.output@,
            filter: self.filter@.map_values(|t: Test| t@),
            order: self.order@,
            limit: self.limit,
            offset: self.offset,
        }
    }
}

impl QueryView {
    /// Every row of a table.
    pub open spec fn on(table: Table, output: OutputView) -> QueryView {
        QueryView {
            table,
            output,
            filter: Seq::empty(),
            order: Seq::empty(),
            limit: None,
            offset: None,
        }
    }

    /// Only the rows that hold a value.
    pub open spec fn equals(self, column: Column, value: ValueView) -> QueryView {
        self.test(TestView::Equals(column, value))
    }

    /// Only the rows that pass a test.
    pub open spec fn test(self, test: TestView) -> QueryView {
        QueryView { filter: self.filter.push(test), ..self }
    }

    /// Whether a row of the table passes the query's tests.
    pub open spec fn selects(self, db: Database, row: Row) -> bool {
        crate::model::passes_all(db, row, self.filter)
    }

    /// Whether the query finds a row that stands in a table.
    pub open spec fn finds(self, db: Database, table: Table, row: Row) -> bool {
        self.table == table && self.selects(db, row)
    }

    /// The rows that pass the query's tests, before they are put in order and cut
    /// to its limit.
    pub open spec fn selected(self, db: Database) -> Seq<Row> {
        db.rows(self.table).filter(|row: Row| self.selects(db, row))
    }

    /// Whether the query selects rows of one project only, in a table with the
    /// project's workspace in a given column.
    pub open spec fn stays_in(self, workspace: Column, project: ProjectView) -> bool {
        forall|db: Database, row: Row| #[trigger]
            self.selects(db, row) ==> {
                &&& crate::model::value(row, Column::TenantId) == Datum::Text(project.tenant_id)
                &&& crate::model::value(row, workspace) == Datum::Text(project.workspace_id)
                &&& crate::model::value(row, Column::ProjectId) == Datum::Text(project.project_id)
            }
    }

    /// A query that tests for the three ids of a project stays in it.
    pub proof fn tests_keep_to_a_project(self, at: int, workspace: Column, project: ProjectView)
        requires
            0 <= at,
            at + 2 < self.filter.len(),
            self.filter[at] == TestView::Equals(
                Column::TenantId,
                ValueView::Text(project.tenant_id),
            ),
            self.filter[at + 1] == TestView::Equals(
                workspace,
                ValueView::Text(project.workspace_id),
            ),
            self.filter[at + 2] == TestView::Equals(
                Column::ProjectId,
                ValueView::Text(project.project_id),
            ),
        ensures
            self.stays_in(workspace, project),
    {
        assert forall|db: Database, row: Row| #[trigger] self.selects(db, row) implies {
            &&& crate::model::value(row, Column::TenantId) == Datum::Text(project.tenant_id)
            &&& crate::model::value(row, workspace) == Datum::Text(project.workspace_id)
            &&& crate::model::value(row, Column::ProjectId) == Datum::Text(project.project_id)
        } by {
            assert(crate::model::passes(db, row, self.filter[at]));
            assert(crate::model::passes(db, row, self.filter[at + 1]));
            assert(crate::model::passes(db, row, self.filter[at + 2]));
        }
    }

    /// Ordered, after the keys before, by a column from the least.
    pub open spec fn ascending(self, column: Column) -> QueryView {
        QueryView { order: self.order.push(Order::Ascending(column)), ..self }
    }

    /// Ordered, after the keys before, by a column from the greatest.
    pub open spec fn descending(self, column: Column) -> QueryView {
        QueryView { order: self.order.push(Order::Descending(column)), ..self }
    }

    /// No more than so many rows.
    pub open spec fn limit(self, limit: i64) -> QueryView {
        QueryView { limit: Some(limit), ..self }
    }

    /// Without so many rows at the front.
    pub open spec fn offset(self, offset: i64) -> QueryView {
        QueryView { offset: Some(offset), ..self }
    }
}

impl Query {
    /// Every row of a table.
    pub fn on(table: Table, output: Output) -> (r: Query)
        ensures
            r@ == QueryView::on(table, output@),
    {
        let r = Query {
            table,
            output,
            filter: Vec::new(),
            order: Vec::new(),
            limit: None,
            offset: None,
        };
        assert(r@.filter =~= Seq::empty());
        assert(r@.order =~= Seq::empty());
        r
    }

    /// Only the rows that hold a value.
    pub fn equals(self, column: Column, value: SqlValue) -> (r: Query)
        ensures
            r@ == self@.equals(column, value@),
    {
        self.test(Test::Equals(column, value))
    }

    /// Only the rows that pass a test.
    pub fn test(self, test: Test) -> (r: Query)
        ensures
            r@ == self@.test(test@),
    {
        let mut r = self;
        r.filter.push(test);
        assert(r@.filter =~= self@.filter.push(test@));
        r
    }

    /// Ordered, after the keys before, by a column from the least.
    pub fn ascending(self, column: Column) -> (r: Query)
        ensures
            r@ == self@.ascending(column),
    {
        let mut r = self;
        r.order.push(Order::Ascending(column));
        r
    }

    /// Ordered, after the keys before, by a column from the greatest.
    pub fn descending(self, column: Column) -> (r: Query)
        ensures
            r@ == self@.descending(column),
    {
        let mut r = self;
        r.order.push(Order::Descending(column));
        r
    }

    /// No more than so many rows.
    pub fn limit(self, limit: i64) -> (r: Query)
        ensures
            r@ == self@.limit(limit),
    {
        let mut r = self;
        r.limit = Some(limit);
        r
    }

    /// Without so many rows at the front.
    pub fn offset(self, offset: i64) -> (r: Query)
        ensures
            r@ == self@.offset(offset),
    {
        let mut r = self;
        r.offset = Some(offset);
        r
    }
}

} // verus!
