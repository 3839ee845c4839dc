//! The statements that projections write with: inserts with a conflict rule,
//! updates and deletes.

use crate::schema::{Column, Table};
use crate::value::{SqlValue, ValueView};
use vstd::prelude::*;

verus! {

/// What an inserted row holds in one column.
#[derive(Debug, PartialEq, Eq)]
pub enum Operand {
    Value(SqlValue),
    /// The root of a run: the run itself where it has no parent, else the root
    /// that is stored for the parent.
    RootRun { run_id: String, parent_run_id: Option<String> },
    /// A session: the one given, else the one that is stored for the run.
    SessionOf { session_id: Option<String>, parent_run_id: Option<String> },
}

/// The mathematical value of an [`Operand`].
pub enum OperandView {
    Value(ValueView),
    RootRun { run_id: Seq<char>, parent_run_id: Option<Seq<char>> },
    SessionOf { session_id: Option<Seq<char>>, parent_run_id: Option<Seq<char>> },
}

impl View for Operand {
    type V = OperandView;

    open spec fn view(&self) -> OperandView {
        match self {
            Operand::Value(v) => OperandView::Value(v@),
            Operand::RootRun { run_id, parent_run_id } => OperandView::RootRun {
                run_id: run_id@,
                parent_run_id: parent_run_id.deep_view(),
            },
            Operand::SessionOf { session_id, parent_run_id } => OperandView::SessionOf {
                session_id: session_id.deep_view(),
                parent_run_id: parent_run_id.deep_view(),
            },
        }
    }
}

/// One column of an inserted row.
#[derive(Debug, PartialEq, Eq)]
pub struct Cell {
    pub column: Column,
    pub operand: Operand,
}

impl View for Cell {
    type V = (Column, OperandView);

    open spec fn view(&self) -> (Column, OperandView) {
        (self.column, self.operand@)
    }
}

/// What an assignment puts into its column. The stored row is the one that is
/// changed; the excluded row is the one that an insert offered.
#[derive(Debug, PartialEq, Eq)]
pub enum Source {
    Value(SqlValue),
    /// The excluded row's value.
    Excluded,
    /// The stored value plus a number.
    Plus(SqlValue),
    /// The stored value plus the excluded row's.
    PlusExcluded,
    /// The greater of the stored value and a number.
    Greatest(SqlValue),
    /// The greater of the stored value and the excluded row's.
    GreatestExcluded,
    /// The given value, or the stored one where it is missing.
    ValueOrStored(SqlValue),
    /// The stored value, or the given one where it is missing.
    StoredOrValue(SqlValue),
    /// Another stored column plus a number.
    ColumnPlus(Column, SqlValue),
}

/// The mathematical value of a [`Source`].
pub enum SourceView {
    Value(ValueView),
    Excluded,
    Plus(ValueView),
    PlusExcluded,
    Greatest(ValueView),
    GreatestExcluded,
    ValueOrStored(ValueView),
    StoredOrValue(ValueView),
    ColumnPlus(Column, ValueView),
}

impl View for Source {
    type V = SourceView;

    open spec fn view(&self) -> SourceView {
        match self {
            Source::Value(v) => SourceView::Value(v@),
            Source::Excluded => SourceView::Excluded,
            Source::Plus(v) => SourceView::Plus(v@),
            Source::PlusExcluded => SourceView::PlusExcluded,
            Source::Greatest(v) => SourceView::Greatest(v@),
            Source::GreatestExcluded => SourceView::GreatestExcluded,
            Source::ValueOrStored(v) => SourceView::ValueOrStored(v@),
            Source::StoredOrValue(v) => SourceView::StoredOrValue(v@),
            Source::ColumnPlus(c, v) => SourceView::ColumnPlus(*c, v@),
        }
    }
}

/// One column of an update.
#[derive(Debug, PartialEq, Eq)]
pub struct Assignment {
    pub column: Column,
    pub source: Source,
}

impl View for Assignment {
    type V = (Column, SourceView);

    open spec fn view(&self) -> (Column, SourceView) {
        (self.column, self.source@)
    }
}

/// When a merge changes the stored row.
#[derive(Debug, PartialEq, Eq)]
pub enum Guard {
    Always,
    /// Where the stored and the excluded row agree on a column.
    SameAsExcluded(Column),
    /// Where the stored row holds a value.
    StoredIs(Column, SqlValue),
    /// Where the excluded row's value is at least the stored one.
    ExcludedAtLeastStored(Column),
}

/// The mathematical value of a [`Guard`].
pub enum GuardView {
    Always,
    SameAsExcluded(Column),
    StoredIs(Column, ValueView),
    ExcludedAtLeastStored(Column),
}

impl View for Guard {
    type V = GuardView;

    open spec fn view(&self) -> GuardView {
        match self {
            Guard::Always => GuardView::Always,
            Guard::SameAsExcluded(c) => GuardView::SameAsExcluded(*c),
            Guard::StoredIs(c, v) => GuardView::StoredIs(*c, v@),
            Guard::ExcludedAtLeastStored(c) => GuardView::ExcludedAtLeastStored(*c),
        }
    }
}

/// What an insert does where a row with the same key is stored already.
#[derive(Debug, PartialEq, Eq)]
pub enum Conflict {
    /// The statement fails.
    Fail,
    /// The stored row stays as it is.
    Ignore(Vec<Column>),
    /// The stored row is changed.
    Merge { key: Vec<Column>, set: Vec<Assignment>, guard: Guard },
}

/// The mathematical value of a [`Conflict`].
pub enum ConflictView {
    Fail,
    Ignore(Seq<Column>),
    Merge { key: Seq<Column>, set: Seq<(Column, SourceView)>, guard: GuardView },
}

/// The views of assignments.
pub open spec fn assignment_views(s: Seq<Assignment>) -> Seq<(Column, SourceView)> {
    s.map_values(|a: Assignment| a@)
}

/// The views of cells.
pub open spec fn cell_views(s: Seq<Cell>) -> Seq<(Column, OperandView)> {
    s.map_values(|c: Cell| c@)
}

impl View for Conflict {
    type V = ConflictView;

    open spec fn view(&self) -> ConflictView {
        match self {
            Conflict::Fail => ConflictView::Fail,
            Conflict::Ignore(key) => ConflictView::Ignore(key@),
            Conflict::Merge { key, set, guard } => ConflictView::Merge {
                key: key@,
                set: assignment_views(set@),
                guard: guard@,
            },
        }
    }
}

/// A condition on a row.
#[derive(Debug, PartialEq, Eq)]
pub enum Test {
    Equals(Column, SqlValue),
    Below(Column, SqlValue),
    AtMost(Column, SqlValue),
    AtLeast(Column, SqlValue),
    Above(Column, SqlValue),
    Differs(Column, SqlValue),
    IsNull(Column),
    NotNull(Column),
    /// The column is missing or holds the value.
    NullOr(Column, SqlValue),
    /// The column holds one of the names.
    OneOf(Column, Vec<&'static str>),
    /// The column holds none of the names.
    NoneOf(Column, Vec<&'static str>),
    /// The row is the root of the given run, which has a parent.
    IsRootOf(String),
    /// The row's run belongs to the session.
    RunOfSession(String),
}

/// The mathematical value of a [`Test`].
pub enum TestView {
    Equals(Column, ValueView),
    Below(Column, ValueView),
    AtMost(Column, ValueView),
    AtLeast(Column, ValueView),
    Above(Column, ValueView),
    Differs(Column, ValueView),
    IsNull(Column),
    NotNull(Column),
    NullOr(Column, ValueView),
    OneOf(Column, Seq<Seq<char>>),
    NoneOf(Column, Seq<Seq<char>>),
    IsRootOf(Seq<char>),
    RunOfSession(Seq<char>),
}

/// The views of names.
pub open spec fn name_views(s: Seq<&'static str>) -> Seq<Seq<char>> {
    s.map_values(|n: &'static str| n@)
}

impl View for Test {
    type V = TestView;

    open spec fn view(&self) -> TestView {
        match self {
            Test::Equals(c, v) => TestView::Equals(*c, v@),
            Test::Below(c, v) => TestView::Below(*c, v@),
            Test::AtMost(c, v) => TestView::AtMost(*c, v@),
            Test::AtLeast(c, v) => TestView::AtLeast(*c, v@),
            Test::Above(c, v) => TestView::Above(*c, v@),
            Test::Differs(c, v) => TestView::Differs(*c, v@),
            Test::IsNull(c) => TestView::IsNull(*c),
            Test::NotNull(c) => TestView::NotNull(*c),
            Test::NullOr(c, v) => TestView::NullOr(*c, v@),
            Test::OneOf(c, names) => TestView::OneOf(*c, name_views(names@)),
            Test::NoneOf(c, names) => TestView::NoneOf(*c, name_views(names@)),
            Test::IsRootOf(run_id) => TestView::IsRootOf(run_id@),
            Test::RunOfSession(session_id) => TestView::RunOfSession(session_id@),
        }
    }
}

/// The views of tests.
pub open spec fn test_views(s: Seq<Test>) -> Seq<TestView> {
    s.map_values(|t: Test| t@)
}

/// A write to one table.
#[derive(Debug, PartialEq, Eq)]
pub enum Statement {
    Insert { table: Table, cells: Vec<Cell>, conflict: Conflict },
    Update { table: Table, set: Vec<Assignment>, filter: Vec<Test> },
    Delete { table: Table, filter: Vec<Test> },
}

/// The mathematical value of a [`Statement`].
pub enum StatementView {
    Insert { table: Table, cells: Seq<(Column, OperandView)>, conflict: ConflictView },
    Update { table: Table, set: Seq<(Column, SourceView)>, filter: Seq<TestView> },
    Delete { table: Table, filter: Seq<TestView> },
}

impl StatementView {
    /// The views of statements.
    pub open spec fn all(s: Seq<Statement>) -> Seq<StatementView> {
        s.map_values(|t: Statement| t@)
    }

    /// The table that the statement writes to.
    pub open spec fn table(self) -> Table {
        match self {
            StatementView::Insert { table, .. } => table,
            StatementView::Update { table, .. } => table,
            StatementView::Delete { table, .. } => table,
        }
    }
}

impl View for Statement {
    type V = StatementView;

    open spec fn view(&self) -> StatementView {
        match self {
            Statement::Insert { table, cells, conflict } => StatementView::Insert {
                table: *table,
                cells: cell_views(cells@),
                conflict: conflict@,
            },
            Statement::Update { table, set, filter } => StatementView::Update {
                table: *table,
                set: assignment_views(set@),
                filter: test_views(filter@),
            },
            Statement::Delete { table, filter } => StatementView::Delete {
                table: *table,
                filter: test_views(filter@),
            },
        }
    }
}

/// The mathematical value of the [`Cells`] of a row.
pub struct RowView {
    pub cells: Seq<(Column, OperandView)>,
}

impl RowView {
    /// No cells yet.
    pub open spec fn new() -> RowView {
        RowView { cells: Seq::empty() }
    }

    /// The row with one more column, which holds a given value.
    pub open spec fn put(self, column: Column, value: ValueView) -> RowView {
        self.operand(column, OperandView::Value(value))
    }

    /// The row with one more column.
    pub open spec fn operand(self, column: Column, operand: OperandView) -> RowView {
        RowView { cells: self.cells.push((column, operand)) }
    }

    /// An insert that fails where its key is stored already.
    pub open spec fn insert(self, table: Table) -> StatementView {
        StatementView::Insert { table, cells: self.cells, conflict: ConflictView::Fail }
    }

    /// An insert that does nothing where its key is stored already.
    pub open spec fn insert_new(self, table: Table, key: Seq<Column>) -> StatementView {
        StatementView::Insert { table, cells: self.cells, conflict: ConflictView::Ignore(key) }
    }

    /// An insert that changes the stored row where its key is stored already.
    pub open spec fn upsert(
        self,
        table: Table,
        key: Seq<Column>,
        changes: ChangesView,
    ) -> StatementView {
        self.guarded_upsert(table, key, changes, GuardView::Always)
    }

    /// As [`RowView::upsert`], but the stored row changes only where `guard` holds.
    pub open spec fn guarded_upsert(
        self,
        table: Table,
        key: Seq<Column>,
        changes: ChangesView,
        guard: GuardView,
    ) -> StatementView {
        StatementView::Insert {
            table,
            cells: self.cells,
            conflict: ConflictView::Merge { key, set: changes.set, guard },
        }
    }
}

/// The mathematical value of the [`Changes`] of an update.
pub struct ChangesView {
    pub set: Seq<(Column, SourceView)>,
}

impl ChangesView {
    /// No assignments yet.
    pub open spec fn new() -> ChangesView {
        ChangesView { set: Seq::empty() }
    }

    /// One more assignment, of a given value.
    pub open spec fn put(self, column: Column, value: ValueView) -> ChangesView {
        self.source(column, SourceView::Value(value))
    }

    /// One more assignment, of the excluded row's value.
    pub open spec fn excluded(self, column: Column) -> ChangesView {
        self.source(column, SourceView::Excluded)
    }

    /// One more assignment.
    pub open spec fn source(self, column: Column, source: SourceView) -> ChangesView {
        ChangesView { set: self.set.push((column, source)) }
    }

    /// An update of the rows that pass every test.
    pub open spec fn update(self, table: Table, filter: FilterView) -> StatementView {
        StatementView::Update { table, set: self.set, filter: filter.tests }
    }
}

/// The mathematical value of a [`Filter`].
pub struct FilterView {
    pub tests: Seq<TestView>,
}

impl FilterView {
    /// No tests yet.
    pub open spec fn new() -> FilterView {
        FilterView { tests: Seq::empty() }
    }

    /// One more test: that a column holds a value.
    pub open spec fn equals(self, column: Column, value: ValueView) -> FilterView {
        self.test(TestView::Equals(column, value))
    }

    /// One more test.
    pub open spec fn test(self, test: TestView) -> FilterView {
        FilterView { tests: self.tests.push(test) }
    }

    /// A delete of the rows that pass every test.
    pub open spec fn delete(self, table: Table) -> StatementView {
        StatementView::Delete { table, filter: self.tests }
    }
}

/// The key of a single column.
pub fn only(column: Column) -> (r: Vec<Column>)
    ensures
        r@ == seq![column],
{
    let r = vec![column];
    assert(r@ =~= seq![column]);
    r
}

/// The cells of a row under construction.
pub struct Cells {
    pub cells: Vec<Cell>,
}

impl View for Cells {
    type V = RowView;

    open spec fn view(&self) -> RowView {
        RowView { cells: cell_views(self.cells@) }
    }
}

impl Cells {
    /// No cells yet.
    pub fn new() -> (r: Self)
        ensures
            r@ == RowView::new(),
    {
        let r = Cells { cells: Vec::new() };
        assert(r@.cells =~= Seq::empty());
        r
    }

    /// Adds a column with a given value.
    pub fn put(&mut self, column: Column, value: SqlValue)
        ensures
            final(self)@ == old(self)@.put(column, value@),
    {
        self.operand(column, Operand::Value(value));
    }

    /// Adds a column with any operand.
    pub fn operand(&mut self, column: Column, operand: Operand)
        ensures
            final(self)@ == old(self)@.operand(column, operand@),
    {
        self.cells.push(Cell { column, operand });
        assert(self@.cells =~= old(self)@.cells.push((column, operand@)));
    }

    /// An insert of these cells that fails where its key is stored already.
    pub fn insert(self, table: Table) -> (r: Statement)
        ensures
            r@ == self@.insert(table),
    {
        Statement::Insert { table, cells: self.cells, conflict: Conflict::Fail }
    }

    /// An insert of these cells that does nothing where `key` is stored already.
    pub fn insert_new(self, table: Table, key: Vec<Column>) -> (r: Statement)
        ensures
            r@ == self@.insert_new(table, key@),
    {
        Statement::Insert { table, cells: self.cells, conflict: Conflict::Ignore(key) }
    }

    /// An insert of these cells that changes the row where `key` is stored already.
    pub fn upsert(self, table: Table, key: Vec<Column>, changes: Changes) -> (r: Statement)
        ensures
            r@ == self@.upsert(table, key@, changes@),
    {
        self.guarded_upsert(table, key, changes, Guard::Always)
    }

    /// As [`Cells::upsert`], where `guard` holds of the stored row.
    pub fn guarded_upsert(
        self,
        table: Table,
        key: Vec<Column>,
        changes: Changes,
        guard: Guard,
    ) -> (r: Statement)
        ensures
            r@ == self@.guarded_upsert(table, key@, changes@, guard@),
    {
        Statement::Insert {
            table,
            cells: self.cells,
            conflict: Conflict::Merge { key, set: changes.set, guard },
        }
    }
}

/// The assignments of an update under construction.
pub struct Changes {
    pub set: Vec<Assignment>,
}

impl View for Changes {
    type V = ChangesView;

    open spec fn view(&self) -> ChangesView {
        ChangesView { set: assignment_views(self.set@) }
    }
}

impl Changes {
    /// No assignments yet.
    pub fn new() -> (r: Self)
        ensures
            r@ == ChangesView::new(),
    {
        let r = Changes { set: Vec::new() };
        assert(r@.set =~= Seq::empty());
        r
    }

    /// Adds an assignment of a given value.
    pub fn put(&mut self, column: Column, value: SqlValue)
        ensures
            final(self)@ == old(self)@.put(column, value@),
    {
        self.source(column, Source::Value(value));
    }

    /// Adds an assignment of the excluded row's value.
    pub fn excluded(&mut self, column: Column)
        ensures
            final(self)@ == old(self)@.excluded(column),
    {
        self.source(column, Source::Excluded);
    }

    /// Adds an assignment from any source.
    pub fn source(&mut self, column: Column, source: Source)
        ensures
            final(self)@ == old(self)@.source(column, source@),
    {
        self.set.push(Assignment { column, source });
        assert(self@.set =~= old(self)@.set.push((column, source@)));
    }

    /// An update with these assignments.
    pub fn update(self, table: Table, filter: Filter) -> (r: Statement)
        ensures
            r@ == self@.update(table, filter@),
    {
        Statement::Update { table, set: self.set, filter: filter.tests }
    }
}

/// The tests of a filter under construction.
pub struct Filter {
    pub tests: Vec<Test>,
}

impl View for Filter {
    type V = FilterView;

    open spec fn view(&self) -> FilterView {
        FilterView { tests: test_views(self.tests@) }
    }
}

impl Filter {
    /// No tests yet: every row passes.
    pub fn new() -> (r: Self)
        ensures
            r@ == FilterView::new(),
    {
        let r = Filter { tests: Vec::new() };
        assert(r@.tests =~= Seq::empty());
        r
    }

    /// Adds the test that a column holds a value.
    pub fn equals(&mut self, column: Column, value: SqlValue)
        ensures
            final(self)@ == old(self)@.equals(column, value@),
    {
        self.test(Test::Equals(column, value));
    }

    /// Adds any test.
    pub fn test(&mut self, test: Test)
        ensures
            final(self)@ == old(self)@.test(test@),
    {
        self.tests.push(test);
        assert(self@.tests =~= old(self)@.tests.push(test@));
    }

    /// A delete of the rows that pass.
    pub fn delete(self, table: Table) -> (r: Statement)
        ensures
            r@ == self@.delete(table),
    {
        Statement::Delete { table, filter: self.tests }
    }
}

} // verus!
