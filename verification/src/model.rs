//! A mathematical model of the projection tables: what each statement does to
//! the rows that are stored.

use crate::schema::{Column, Table};
use crate::statement::{
    ConflictView, GuardView, OperandView, SourceView, StatementView, TestView,
};
use crate::value::ValueView;
use vstd::prelude::*;

verus! {

/// A stored value. The width of a number is its column's affair.
pub enum Datum {
    Null,
    Text(Seq<char>),
    Int(int),
    Bool(bool),
    Float8(u64),
    Bytes(Seq<u8>),
    Json(Seq<char>),
}

/// A stored row; a column that it does not name is missing.
pub type Row = Map<Column, Datum>;

/// The stored rows of each table, with the row of column defaults that an
/// insert starts from.
pub struct Database {
    pub tables: Map<Table, Seq<Row>>,
    pub defaults: Map<Table, Row>,
}

/// What is stored for a bound value.
pub open spec fn datum(v: ValueView) -> Datum {
    match v {
        ValueView::Null(_) => Datum::Null,
        ValueView::Text(s) => Datum::Text(s),
        ValueView::Int2(n) => Datum::Int(n as int),
        ValueView::Int4(n) => Datum::Int(n as int),
        ValueView::Int8(n) => Datum::Int(n as int),
        ValueView::Bool(b) => Datum::Bool(b),
        ValueView::Float8(b) => Datum::Float8(b),
        ValueView::Bytes(b) => Datum::Bytes(b),
        ValueView::Json(s) => Datum::Json(s),
    }
}

/// The value of a row's column.
pub open spec fn value(row: Row, column: Column) -> Datum {
    if row.contains_key(column) {
        row[column]
    } else {
        Datum::Null
    }
}

impl Database {
    /// The rows of a table.
    pub open spec fn rows(self, table: Table) -> Seq<Row> {
        if self.tables.contains_key(table) {
            self.tables[table]
        } else {
            Seq::empty()
        }
    }

    /// The database with the rows of one table replaced.
    pub open spec fn with(self, table: Table, rows: Seq<Row>) -> Database {
        Database { tables: self.tables.insert(table, rows), defaults: self.defaults }
    }

    /// What an insert leaves in a column that it does not name.
    pub open spec fn default_of(self, table: Table, column: Column) -> Datum {
        value(self.blank(table), column)
    }

    /// The row that an insert starts from.
    pub open spec fn blank(self, table: Table) -> Row {
        if self.defaults.contains_key(table) {
            self.defaults[table]
        } else {
            Map::empty()
        }
    }
}

/// The first row whose `column` holds `key`, if there is one.
pub open spec fn first_with(rows: Seq<Row>, column: Column, key: Datum) -> Option<Row>
    decreases rows.len(),
{
    if rows.len() == 0 {
        None
    } else if key != Datum::Null && value(rows[0], column) == key {
        Some(rows[0])
    } else {
        first_with(rows.drop_first(), column, key)
    }
}

/// The `wanted` column of the run `run_id`; missing where there is no such run.
pub open spec fn of_run(db: Database, run_id: Seq<char>, wanted: Column) -> Datum {
    match first_with(db.rows(Table::Runs), Column::RunId, Datum::Text(run_id)) {
        Some(row) => value(row, wanted),
        None => Datum::Null,
    }
}

/// What an operand stands for.
pub open spec fn operand_value(db: Database, operand: OperandView) -> Datum {
    match operand {
        OperandView::Value(v) => datum(v),
        OperandView::RootRun { run_id, parent_run_id } => match parent_run_id {
            None => Datum::Text(run_id),
            Some(parent) => of_run(db, parent, Column::RootRunId),
        },
        OperandView::SessionOf { session_id, parent_run_id } => match (session_id, parent_run_id) {
            (Some(s), _) => Datum::Text(s),
            (None, Some(r)) => of_run(db, r, Column::SessionId),
            (None, None) => Datum::Null,
        },
    }
}

/// The row that an insert offers: the defaults under the given cells.
pub open spec fn offered(
    db: Database,
    table: Table,
    cells: Seq<(Column, OperandView)>,
) -> Row
    decreases cells.len(),
{
    if cells.len() == 0 {
        db.blank(table)
    } else {
        offered(db, table, cells.drop_last()).insert(
            cells.last().0,
            operand_value(db, cells.last().1),
        )
    }
}

/// Whether two rows have the same key. A missing value equals nothing.
pub open spec fn same_key(a: Row, b: Row, key: Seq<Column>) -> bool {
    forall|i: int|
        0 <= i < key.len() ==> value(a, #[trigger] key[i]) == value(b, key[i]) && value(a, key[i])
            != Datum::Null
}

/// Whether a row with the key of `row` is stored.
pub open spec fn stored(rows: Seq<Row>, row: Row, key: Seq<Column>) -> bool {
    exists|i: int| 0 <= i < rows.len() && same_key(#[trigger] rows[i], row, key)
}

/// The sum of two numbers; missing where one of them is.
pub open spec fn plus(a: Datum, b: Datum) -> Datum {
    match (a, b) {
        (Datum::Int(x), Datum::Int(y)) => Datum::Int(x + y),
        _ => Datum::Null,
    }
}

/// The greater of two numbers, of which one may be missing.
pub open spec fn greatest(a: Datum, b: Datum) -> Datum {
    match (a, b) {
        (Datum::Int(x), Datum::Int(y)) => Datum::Int(if x < y { y } else { x }),
        (Datum::Null, _) => b,
        _ => a,
    }
}

/// `a`, or `b` where `a` is missing.
pub open spec fn coalesce(a: Datum, b: Datum) -> Datum {
    if a == Datum::Null {
        b
    } else {
        a
    }
}

/// What an assignment to `column` puts there.
pub open spec fn source_value(
    was: Row,
    excluded: Row,
    column: Column,
    source: SourceView,
) -> Datum {
    match source {
        SourceView::Value(v) => datum(v),
        SourceView::Excluded => value(excluded, column),
        SourceView::Plus(v) => plus(value(was, column), datum(v)),
        SourceView::PlusExcluded => plus(value(was, column), value(excluded, column)),
        SourceView::Greatest(v) => greatest(value(was, column), datum(v)),
        SourceView::GreatestExcluded => greatest(value(was, column), value(excluded, column)),
        SourceView::ValueOrStored(v) => coalesce(datum(v), value(was, column)),
        SourceView::StoredOrValue(v) => coalesce(value(was, column), datum(v)),
        SourceView::ColumnPlus(c, v) => plus(value(was, c), datum(v)),
    }
}

/// The row `was` with every assignment made. Each reads the row as it was.
pub open spec fn changed(was: Row, excluded: Row, set: Seq<(Column, SourceView)>) -> Row
    decreases set.len(),
{
    if set.len() == 0 {
        was
    } else {
        changed(was, excluded, set.drop_last()).insert(
            set.last().0,
            source_value(was, excluded, set.last().0, set.last().1),
        )
    }
}

/// Whether a merge changes the stored row `was`.
pub open spec fn allowed(was: Row, excluded: Row, guard: GuardView) -> bool {
    match guard {
        GuardView::Always => true,
        GuardView::SameAsExcluded(c) => value(was, c) == value(excluded, c) && value(was, c)
            != Datum::Null,
        GuardView::StoredIs(c, v) => value(was, c) == datum(v) && value(was, c) != Datum::Null,
        GuardView::ExcludedAtLeastStored(c) => match (value(excluded, c), value(was, c)) {
            (Datum::Int(new), Datum::Int(old_value)) => new >= old_value,
            _ => false,
        },
    }
}

/// Whether `a` is a number below the number `b`.
pub open spec fn below(a: Datum, b: Datum) -> bool {
    match (a, b) {
        (Datum::Int(x), Datum::Int(y)) => x < y,
        _ => false,
    }
}

/// Whether `a` is a number at most the number `b`.
pub open spec fn at_most(a: Datum, b: Datum) -> bool {
    match (a, b) {
        (Datum::Int(x), Datum::Int(y)) => x <= y,
        _ => false,
    }
}

/// Whether a row passes a test. A missing value passes only the tests for it.
pub open spec fn passes(db: Database, row: Row, test: TestView) -> bool {
    match test {
        TestView::Equals(c, v) => datum(v) != Datum::Null && value(row, c) == datum(v),
        TestView::Below(c, v) => below(value(row, c), datum(v)),
        TestView::AtMost(c, v) => at_most(value(row, c), datum(v)),
        TestView::AtLeast(c, v) => at_most(datum(v), value(row, c)),
        TestView::Above(c, v) => below(datum(v), value(row, c)),
        TestView::Differs(c, v) => datum(v) != Datum::Null && value(row, c) != Datum::Null && value(
            row,
            c,
        ) != datum(v),
        TestView::IsNull(c) => value(row, c) == Datum::Null,
        TestView::NotNull(c) => value(row, c) != Datum::Null,
        TestView::NullOr(c, v) => value(row, c) == Datum::Null || (datum(v) != Datum::Null && value(
            row,
            c,
        ) == datum(v)),
        TestView::OneOf(c, names) => exists|i: int|
            0 <= i < names.len() && value(row, c) == Datum::Text(#[trigger] names[i]),
        TestView::NoneOf(c, names) => value(row, c) != Datum::Null && forall|i: int|
            0 <= i < names.len() ==> value(row, c) != Datum::Text(#[trigger] names[i]),
        TestView::IsRootOf(run_id) => {
            &&& of_run(db, run_id, Column::ParentRunId) != Datum::Null
            &&& of_run(db, run_id, Column::RootRunId) != Datum::Null
            &&& value(row, Column::RunId) == of_run(db, run_id, Column::RootRunId)
        },
        TestView::RunOfSession(session_id) => exists|i: int|
            0 <= i < db.rows(Table::Runs).len() && run_in_session(
                #[trigger] db.rows(Table::Runs)[i],
                row,
                session_id,
            ),
    }
}

/// Whether `run` is the run that `row` names and belongs to the session.
pub open spec fn run_in_session(run: Row, row: Row, session_id: Seq<char>) -> bool {
    &&& value(run, Column::RunId) == value(row, Column::RunId)
    &&& value(run, Column::RunId) != Datum::Null
    &&& value(run, Column::SessionId) == Datum::Text(session_id)
}

/// Whether a row passes every test.
pub open spec fn passes_all(db: Database, row: Row, filter: Seq<TestView>) -> bool {
    forall|i: int| 0 <= i < filter.len() ==> passes(db, row, #[trigger] filter[i])
}

/// The database after a statement that it accepts.
pub open spec fn after(db: Database, statement: StatementView) -> Database {
    match statement {
        StatementView::Insert { table, cells, conflict } => {
            let rows = db.rows(table);
            let new = offered(db, table, cells);
            match conflict {
                ConflictView::Fail => db.with(table, rows.push(new)),
                ConflictView::Ignore(key) => if stored(rows, new, key) {
                    db
                } else {
                    db.with(table, rows.push(new))
                },
                ConflictView::Merge { key, set, guard } => if stored(rows, new, key) {
                    db.with(
                        table,
                        Seq::new(
                            rows.len(),
                            |i: int|
                                if same_key(rows[i], new, key) && allowed(rows[i], new, guard) {
                                    changed(rows[i], new, set)
                                } else {
                                    rows[i]
                                },
                        ),
                    )
                } else {
                    db.with(table, rows.push(new))
                },
            }
        },
        StatementView::Update { table, set, filter } => {
            let rows = db.rows(table);
            db.with(
                table,
                Seq::new(
                    rows.len(),
                    |i: int|
                        if passes_all(db, rows[i], filter) {
                            changed(rows[i], rows[i], set)
                        } else {
                            rows[i]
                        },
                ),
            )
        },
        StatementView::Delete { table, filter } => db.with(
            table,
            db.rows(table).filter(|row: Row| !passes_all(db, row, filter)),
        ),
    }
}

/// The database after a sequence of statements that it accepts.
pub open spec fn after_all(db: Database, statements: Seq<StatementView>) -> Database
    decreases statements.len(),
{
    if statements.len() == 0 {
        db
    } else {
        after(after_all(db, statements.drop_last()), statements.last())
    }
}

} // verus!
