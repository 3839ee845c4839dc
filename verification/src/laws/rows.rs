//! What single statements do to the stored rows.

use crate::model::{Database, Datum, Row};
use crate::schema::{Column, Table};
use crate::statement::{
    ChangesView, ConflictView, FilterView, GuardView, OperandView, RowView, SourceView,
    StatementView, TestView,
};
use vstd::prelude::*;

verus! {

impl RowView {
    /// What the row holds in a column; none where it does not name the column.
    pub open spec fn held(self, column: Column) -> Option<OperandView>
        decreases self.cells.len(),
    {
        if self.cells.len() == 0 {
            None
        } else if self.cells.last().0 == column {
            Some(self.cells.last().1)
        } else {
            (RowView { cells: self.cells.drop_last() }).held(column)
        }
    }

    /// Whether the row holds only given values.
    pub open spec fn is_plain(self) -> bool
        decreases self.cells.len(),
    {
        self.cells.len() == 0 || (self.cells.last().1 is Value && (RowView {
            cells: self.cells.drop_last(),
        }).is_plain())
    }
}

impl ChangesView {
    /// What is assigned to a column; none where nothing is.
    pub open spec fn assigned(self, column: Column) -> Option<SourceView>
        decreases self.set.len(),
    {
        if self.set.len() == 0 {
            None
        } else if self.set.last().0 == column {
            Some(self.set.last().1)
        } else {
            (ChangesView { set: self.set.drop_last() }).assigned(column)
        }
    }

    /// Whether no assignment depends on the stored row.
    pub open spec fn is_constant(self) -> bool
        decreases self.set.len(),
    {
        self.set.len() == 0 || ((self.set.last().1 is Value || self.set.last().1 is Excluded) && (
        ChangesView { set: self.set.drop_last() }).is_constant())
    }
}

impl FilterView {
    /// Whether every test speaks of the row alone.
    pub open spec fn is_plain(self) -> bool
        decreases self.tests.len(),
    {
        self.tests.len() == 0 || (!(self.tests.last() is IsRootOf) && !(
        self.tests.last() is RunOfSession) && (FilterView {
            tests: self.tests.drop_last(),
        }).is_plain())
    }
}

/// A new row holds nothing.
pub broadcast proof fn a_new_row_holds_nothing(column: Column)
    ensures
        #[trigger] RowView::new().held(column) is None,
{
}

/// A row holds what was last put into a column.
pub broadcast proof fn a_row_holds_what_was_put(
    row: RowView,
    column: Column,
    operand: OperandView,
    wanted: Column,
)
    ensures
        #[trigger] row.operand(column, operand).held(wanted) == if column == wanted {
            Some(operand)
        } else {
            row.held(wanted)
        },
{
    assert(row.operand(column, operand).cells.drop_last() =~= row.cells);
}

/// A new row holds only given values.
pub broadcast proof fn a_new_row_is_plain()
    ensures
        #[trigger] RowView::new().is_plain(),
{
}

/// A row stays plain where a given value is put into it.
pub broadcast proof fn a_row_of_values_is_plain(
    row: RowView,
    column: Column,
    operand: OperandView,
)
    ensures
        #[trigger] row.operand(column, operand).is_plain() == (operand is Value && row.is_plain()),
{
    assert(row.operand(column, operand).cells.drop_last() =~= row.cells);
}

/// Without changes nothing is assigned.
pub broadcast proof fn no_changes_assign_nothing(column: Column)
    ensures
        #[trigger] ChangesView::new().assigned(column) is None,
{
}

/// Changes assign what was last given for a column.
pub broadcast proof fn changes_assign_what_was_put(
    changes: ChangesView,
    column: Column,
    source: SourceView,
    wanted: Column,
)
    ensures
        #[trigger] changes.source(column, source).assigned(wanted) == if column == wanted {
            Some(source)
        } else {
            changes.assigned(wanted)
        },
{
    assert(changes.source(column, source).set.drop_last() =~= changes.set);
}

/// Without changes nothing depends on the stored row.
pub broadcast proof fn no_changes_are_constant()
    ensures
        #[trigger] ChangesView::new().is_constant(),
{
}

/// Changes stay constant where a given or an offered value is assigned.
pub broadcast proof fn changes_to_values_are_constant(
    changes: ChangesView,
    column: Column,
    source: SourceView,
)
    ensures
        #[trigger] changes.source(column, source).is_constant() == ((source is Value
            || source is Excluded) && changes.is_constant()),
{
    assert(changes.source(column, source).set.drop_last() =~= changes.set);
}

/// A filter without tests is plain.
pub broadcast proof fn no_tests_are_plain()
    ensures
        #[trigger] FilterView::new().is_plain(),
{
}

/// A filter stays plain where a test of the row alone is added.
pub broadcast proof fn tests_of_the_row_are_plain(filter: FilterView, test: TestView)
    ensures
        #[trigger] filter.test(test).is_plain() == (!(test is IsRootOf) && !(test is RunOfSession)
            && filter.is_plain()),
{
    assert(filter.test(test).tests.drop_last() =~= filter.tests);
}

/// An offered row holds its cells and, for the rest, the defaults of its table.
pub broadcast proof fn an_offered_row_holds_its_cells(
    db: Database,
    table: Table,
    row: RowView,
    column: Column,
)
    ensures
        #[trigger] crate::model::value(crate::model::offered(db, table, row.cells), column)
            == match row.held(column) {
            Some(operand) => crate::model::operand_value(db, operand),
            None => crate::model::value(db.blank(table), column),
        },
    decreases row.cells.len(),
{
    if row.cells.len() > 0 {
        an_offered_row_holds_its_cells(
            db,
            table,
            RowView { cells: row.cells.drop_last() },
            column,
        );
    }
}

/// A changed row holds what was assigned and, for the rest, what it held.
pub broadcast proof fn a_changed_row_holds_what_was_assigned(
    was: Row,
    excluded: Row,
    changes: ChangesView,
    column: Column,
)
    ensures
        #[trigger] crate::model::value(crate::model::changed(was, excluded, changes.set), column)
            == match changes.assigned(column) {
            Some(source) => crate::model::source_value(was, excluded, column, source),
            None => crate::model::value(was, column),
        },
    decreases changes.set.len(),
{
    if changes.set.len() > 0 {
        a_changed_row_holds_what_was_assigned(
            was,
            excluded,
            ChangesView { set: changes.set.drop_last() },
            column,
        );
    }
}

/// Every row passes a filter without tests.
pub broadcast proof fn every_row_passes_no_tests(db: Database, row: Row)
    ensures
        #[trigger] crate::model::passes_all(db, row, FilterView::new().tests),
{
}

/// A row passes a filter if it passes each of its tests.
pub broadcast proof fn a_row_passes_each_test(
    db: Database,
    row: Row,
    filter: FilterView,
    test: TestView,
)
    ensures
        #[trigger] crate::model::passes_all(db, row, filter.test(test).tests) == (
        crate::model::passes(db, row, test) && crate::model::passes_all(db, row, filter.tests)),
{
    let tests = filter.test(test).tests;
    if crate::model::passes_all(db, row, tests) {
        assert(crate::model::passes(db, row, tests[filter.tests.len() as int]));
        assert forall|i: int| 0 <= i < filter.tests.len() implies crate::model::passes(
            db,
            row,
            #[trigger] filter.tests[i],
        ) by {
            assert(crate::model::passes(db, row, tests[i]));
        }
    }
}

/// What a filter selects.
pub broadcast group group_filters {
    every_row_passes_no_tests,
    a_row_passes_each_test,
}

/// What rows and changes hold.
pub broadcast group group_rows {
    a_new_row_holds_nothing,
    a_row_holds_what_was_put,
    a_new_row_is_plain,
    a_row_of_values_is_plain,
    no_changes_assign_nothing,
    changes_assign_what_was_put,
    no_changes_are_constant,
    changes_to_values_are_constant,
    no_tests_are_plain,
    tests_of_the_row_are_plain,
    an_offered_row_holds_its_cells,
    a_changed_row_holds_what_was_assigned,
}

/// The row that an insert offers.
pub open spec fn offered_by(db: Database, s: StatementView) -> Row {
    match s {
        StatementView::Insert { table, cells, .. } => crate::model::offered(db, table, cells),
        _ => Map::empty(),
    }
}

/// Whether an insert changes a stored row.
pub open spec fn replaces(db: Database, s: StatementView, was: Row) -> bool {
    match s {
        StatementView::Insert { conflict: ConflictView::Merge { key, guard, .. }, .. } => {
            &&& crate::model::same_key(was, offered_by(db, s), key)
            &&& crate::model::allowed(was, offered_by(db, s), guard)
        },
        _ => false,
    }
}

/// The row that an insert leaves in place of a stored row or, where there was
/// none under its key, as a new row.
pub open spec fn left_by(db: Database, s: StatementView, was: Option<Row>) -> Row {
    match (s, was) {
        (
            StatementView::Insert { conflict: ConflictView::Merge { set, .. }, .. },
            Some(row),
        ) => crate::model::changed(row, offered_by(db, s), set),
        _ => offered_by(db, s),
    }
}

/// Whether no stored row has the key of the row that an insert offers.
pub open spec fn is_new(db: Database, s: StatementView) -> bool {
    match s {
        StatementView::Insert { table, conflict, .. } => match conflict {
            ConflictView::Fail => true,
            ConflictView::Ignore(key) => !crate::model::stored(
                db.rows(table),
                offered_by(db, s),
                key,
            ),
            ConflictView::Merge { key, .. } => !crate::model::stored(
                db.rows(table),
                offered_by(db, s),
                key,
            ),
        },
        _ => false,
    }
}

/// An insert of a row whose key is not stored adds that row, and changes no
/// other.
pub proof fn an_insert_adds_its_row(db: Database, s: StatementView)
    requires
        is_new(db, s),
    ensures
        crate::model::after(db, s).rows(s.table()) == db.rows(s.table()).push(left_by(db, s, None)),
{
}

/// An insert with a merge rule changes the rows that it replaces, and no other.
pub proof fn a_merge_changes_the_rows_of_its_key(db: Database, s: StatementView, i: int)
    requires
        s is Insert,
        s->Insert_conflict is Merge,
        !is_new(db, s),
        0 <= i < db.rows(s.table()).len(),
    ensures
        ({
            let was = db.rows(s.table())[i];
            let rows = crate::model::after(db, s).rows(s.table());
            &&& rows.len() == db.rows(s.table()).len()
            &&& rows[i] == if replaces(db, s, was) {
                left_by(db, s, Some(was))
            } else {
                was
            }
        }),
{
}

/// The row that an update leaves in place of a stored row.
pub open spec fn updated_by(db: Database, s: StatementView, was: Row) -> Row {
    match s {
        StatementView::Update { set, filter, .. } => if crate::model::passes_all(db, was, filter) {
            crate::model::changed(was, was, set)
        } else {
            was
        },
        _ => was,
    }
}

/// An update changes the rows that it selects, and no other.
pub proof fn an_update_changes_the_rows_that_it_selects(db: Database, s: StatementView, i: int)
    requires
        s is Update,
        0 <= i < db.rows(s.table()).len(),
    ensures
        crate::model::after(db, s).rows(s.table()).len() == db.rows(s.table()).len(),
        crate::model::after(db, s).rows(s.table())[i] == updated_by(db, s, db.rows(s.table())[i]),
{
}

/// A delete leaves no row that it selects.
pub proof fn a_delete_leaves_no_row_that_it_selects(db: Database, s: StatementView, row: Row)
    requires
        s is Delete,
        crate::model::after(db, s).rows(s.table()).contains(row),
    ensures
        db.rows(s.table()).contains(row),
        !crate::model::passes_all(db, row, s->Delete_filter),
{
    let keeps = |r: Row| !crate::model::passes_all(db, r, s->Delete_filter);
    let rows = db.rows(s.table());
    rows.lemma_filter_contains_rev(keeps, row);
    let i = choose|i: int| 0 <= i < rows.filter(keeps).len() && rows.filter(keeps)[i] == row;
    rows.lemma_filter_pred(keeps, i);
}

/// A statement changes no table but its own.
pub proof fn a_statement_changes_its_own_table(
    db: Database,
    statement: StatementView,
    other: Table,
)
    requires
        other != statement.table(),
    ensures
        crate::model::after(db, statement).rows(other) == db.rows(other),
{
}

} // verus!
