//! The text of statements and queries, with numbered parameters.

use crate::query::{Order, Output, OutputView, Query, QueryView};
use crate::schema::{Column, Table};
use crate::statement::{
    Assignment, Cell, Conflict, ConflictView, Guard, GuardView, Operand, OperandView, Source,
    SourceView, Statement, StatementView, Test, TestView,
};
use crate::text::push_decimal;
use crate::value::{opt_text, text, SqlValue, ValueView};
use vstd::prelude::*;
use vstd::string::*;

verus! {

/// SQL text with the values of its parameters, in the order of their numbers.
#[derive(Debug, PartialEq, Eq)]
pub struct Sql {
    pub text: String,
    pub params: Vec<SqlValue>,
}

/// The mathematical value of a [`Sql`].
pub struct SqlView {
    pub text: Seq<char>,
    pub params: Seq<ValueView>,
}

impl View for Sql {
    type V = SqlView;

    open spec fn view(&self) -> SqlView {
        SqlView { text: self.text@, params: self.params@.map_values(|v: SqlValue| v@) }
    }
}

impl SqlView {
    /// No text yet.
    pub open spec fn new() -> SqlView {
        SqlView { text: Seq::empty(), params: Seq::empty() }
    }

    /// With more text.
    pub open spec fn text(self, t: Seq<char>) -> SqlView {
        SqlView { text: self.text + t, params: self.params }
    }

    /// With one more parameter, which takes the next number.
    pub open spec fn param(self, v: ValueView) -> SqlView {
        SqlView {
            text: self.text + "$"@ + crate::text::decimal(self.params.len() + 1),
            params: self.params.push(v),
        }
    }

    /// With a comma, where something was listed before.
    pub open spec fn comma(self, listed: nat) -> SqlView {
        if listed == 0 {
            self
        } else {
            self.text(", "@)
        }
    }

    /// With the first `n` columns, separated by commas.
    pub open spec fn columns(self, columns: Seq<Column>, n: nat) -> SqlView
        decreases n,
    {
        if n == 0 {
            self
        } else {
            self.columns(columns, (n - 1) as nat).comma((n - 1) as nat).text(
                columns[n - 1].spec_name(),
            )
        }
    }

    /// With the columns of the first `n` cells, separated by commas.
    pub open spec fn cell_columns(self, cells: Seq<(Column, OperandView)>, n: nat) -> SqlView
        decreases n,
    {
        if n == 0 {
            self
        } else {
            self.cell_columns(cells, (n - 1) as nat).comma((n - 1) as nat).text(
                cells[n - 1].0.spec_name(),
            )
        }
    }

    /// With an operand.
    pub open spec fn operand(self, operand: OperandView) -> SqlView {
        match operand {
            OperandView::Value(v) => self.param(v),
            OperandView::RootRun { run_id, parent_run_id } => self.text("CASE WHEN "@).param(
                ValueView::opt_seq(parent_run_id),
            ).text("::TEXT IS NULL THEN "@).param(ValueView::Text(run_id)).text(
                " ELSE (SELECT root_run_id FROM runs WHERE run_id = "@,
            ).param(ValueView::opt_seq(parent_run_id)).text(") END"@),
            OperandView::SessionOf { session_id, parent_run_id } => self.text("COALESCE("@).param(
                ValueView::opt_seq(session_id),
            ).text(", (SELECT session_id FROM runs WHERE run_id = "@).param(
                ValueView::opt_seq(parent_run_id),
            ).text("))"@),
        }
    }

    /// With the operands of the first `n` cells, separated by commas.
    pub open spec fn operands(self, cells: Seq<(Column, OperandView)>, n: nat) -> SqlView
        decreases n,
    {
        if n == 0 {
            self
        } else {
            self.operands(cells, (n - 1) as nat).comma((n - 1) as nat).operand(cells[n - 1].1)
        }
    }

    /// With the stored value of a column.
    pub open spec fn stored(self, table: Table, column: Column) -> SqlView {
        self.text(table.spec_name()).text("."@).text(column.spec_name())
    }

    /// With the excluded row's value of a column.
    pub open spec fn excluded(self, column: Column) -> SqlView {
        self.text("EXCLUDED."@).text(column.spec_name())
    }

    /// With an assignment.
    pub open spec fn assignment(self, table: Table, column: Column, source: SourceView) -> SqlView {
        let head = self.text(column.spec_name()).text(" = "@);
        match source {
            SourceView::Value(v) => head.param(v),
            SourceView::Excluded => head.excluded(column),
            SourceView::Plus(v) => head.stored(table, column).text(" + "@).param(v),
            SourceView::PlusExcluded => head.stored(table, column).text(" + "@).excluded(column),
            SourceView::Greatest(v) => head.text("GREATEST("@).stored(table, column).text(
                ", "@,
            ).param(v).text(")"@),
            SourceView::GreatestExcluded => head.text("GREATEST("@).stored(table, column).text(
                ", "@,
            ).excluded(column).text(")"@),
            SourceView::ValueOrStored(v) => head.text("COALESCE("@).param(v).text(", "@).stored(
                table,
                column,
            ).text(")"@),
            SourceView::StoredOrValue(v) => head.text("COALESCE("@).stored(table, column).text(
                ", "@,
            ).param(v).text(")"@),
            SourceView::ColumnPlus(other, v) => head.stored(table, other).text(" + "@).param(v),
        }
    }

    /// With the first `n` assignments, separated by commas.
    pub open spec fn assignments(
        self,
        table: Table,
        set: Seq<(Column, SourceView)>,
        n: nat,
    ) -> SqlView
        decreases n,
    {
        if n == 0 {
            self
        } else {
            self.assignments(table, set, (n - 1) as nat).comma((n - 1) as nat).assignment(
                table,
                set[n - 1].0,
                set[n - 1].1,
            )
        }
    }

    /// With the guard of a merge.
    pub open spec fn guard(self, table: Table, guard: GuardView) -> SqlView {
        match guard {
            GuardView::Always => self,
            GuardView::SameAsExcluded(c) => self.text(" WHERE "@).stored(table, c).text(
                " = "@,
            ).excluded(c),
            GuardView::StoredIs(c, v) => self.text(" WHERE "@).stored(table, c).text(" = "@).param(
                v,
            ),
            GuardView::ExcludedAtLeastStored(c) => self.text(" WHERE "@).excluded(c).text(
                " >= "@,
            ).stored(table, c),
        }
    }

    /// With the conflict rule of an insert.
    pub open spec fn conflict(self, table: Table, conflict: ConflictView) -> SqlView {
        match conflict {
            ConflictView::Fail => self,
            ConflictView::Ignore(key) => self.text(" ON CONFLICT ("@).columns(key, key.len()).text(
                ") DO NOTHING"@,
            ),
            ConflictView::Merge { key, set, guard } => self.text(" ON CONFLICT ("@).columns(
                key,
                key.len(),
            ).text(") DO UPDATE SET "@).assignments(table, set, set.len()).guard(table, guard),
        }
    }

    /// With the first `n` names, separated by commas.
    pub open spec fn names(self, names: Seq<Seq<char>>, n: nat) -> SqlView
        decreases n,
    {
        if n == 0 {
            self
        } else {
            self.names(names, (n - 1) as nat).comma((n - 1) as nat).param(
                ValueView::Text(names[n - 1]),
            )
        }
    }

    /// With a test.
    pub open spec fn test(self, test: TestView) -> SqlView {
        match test {
            TestView::Equals(c, v) => self.text(c.spec_name()).text(" = "@).param(v),
            TestView::Below(c, v) => self.text(c.spec_name()).text(" < "@).param(v),
            TestView::AtMost(c, v) => self.text(c.spec_name()).text(" <= "@).param(v),
            TestView::AtLeast(c, v) => self.text(c.spec_name()).text(" >= "@).param(v),
            TestView::Above(c, v) => self.text(c.spec_name()).text(" > "@).param(v),
            TestView::Differs(c, v) => self.text(c.spec_name()).text(" <> "@).param(v),
            TestView::IsNull(c) => self.text(c.spec_name()).text(" IS NULL"@),
            TestView::NotNull(c) => self.text(c.spec_name()).text(" IS NOT NULL"@),
            TestView::NullOr(c, v) => self.text("("@).text(c.spec_name()).text(
                " IS NULL OR "@,
            ).text(
                c.spec_name(),
            ).text(" = "@).param(v).text(")"@),
            TestView::OneOf(c, names) => self.text(c.spec_name()).text(" IN ("@).names(
                names,
                names.len(),
            ).text(")"@),
            TestView::NoneOf(c, names) => self.text(c.spec_name()).text(" NOT IN ("@).names(
                names,
                names.len(),
            ).text(")"@),
            TestView::IsRootOf(run_id) => self.text(
                "run_id = (SELECT r.root_run_id FROM runs r WHERE r.run_id = "@,
            ).param(ValueView::Text(run_id)).text(
                " AND r.parent_run_id IS NOT NULL AND r.root_run_id IS NOT NULL)"@,
            ),
            TestView::RunOfSession(session_id) => self.text(
                "run_id IN (SELECT r.run_id FROM runs r WHERE r.session_id = "@,
            ).param(ValueView::Text(session_id)).text(")"@),
        }
    }

    /// With the first `n` tests, all of which have to hold.
    pub open spec fn tests(self, filter: Seq<TestView>, n: nat) -> SqlView
        decreases n,
    {
        if n == 0 {
            self
        } else {
            let before = self.tests(filter, (n - 1) as nat);
            before.text(
                if n == 1 {
                    " WHERE "@
                } else {
                    " AND "@
                },
            ).test(filter[n - 1])
        }
    }

    /// With the first `n` keys of an order.
    pub open spec fn ordered(self, order: Seq<Order>, n: nat) -> SqlView
        decreases n,
    {
        if n == 0 {
            self
        } else {
            let before = self.ordered(order, (n - 1) as nat).text(
                if n == 1 {
                    " ORDER BY "@
                } else {
                    ", "@
                },
            );
            match order[n - 1] {
                Order::Ascending(c) => before.text(c.spec_name()).text(" ASC"@),
                Order::Descending(c) => before.text(c.spec_name()).text(" DESC"@),
            }
        }
    }

    /// With a number after a keyword, where there is one.
    pub open spec fn bounded(self, keyword: Seq<char>, bound: Option<i64>) -> SqlView {
        match bound {
            Some(n) => self.text(keyword).param(ValueView::Int8(n)),
            None => self,
        }
    }
}

impl ValueView {
    /// A text, or a missing text.
    pub open spec fn opt_seq(s: Option<Seq<char>>) -> ValueView {
        match s {
            Some(t) => ValueView::Text(t),
            None => ValueView::Null(crate::value::SqlType::Text),
        }
    }
}

impl StatementView {
    /// The statement's text and parameters.
    pub open spec fn sql(self) -> SqlView {
        match self {
            StatementView::Insert { table, cells, conflict } => SqlView::new().text(
                "INSERT INTO "@,
            ).text(table.spec_name()).text(" ("@).cell_columns(cells, cells.len()).text(
                ") VALUES ("@,
            ).operands(cells, cells.len()).text(")"@).conflict(table, conflict),
            StatementView::Update { table, set, filter } => SqlView::new().text("UPDATE "@).text(
                table.spec_name(),
            ).text(" SET "@).assignments(table, set, set.len()).tests(filter, filter.len()),
            StatementView::Delete { table, filter } => SqlView::new().text("DELETE FROM "@).text(
                table.spec_name(),
            ).tests(filter, filter.len()),
        }
    }
}

impl QueryView {
    /// The query's text and parameters.
    pub open spec fn sql(self) -> SqlView {
        let body = match self.output {
            OutputView::Rows(columns) => SqlView::new().text("SELECT "@).columns(
                columns,
                columns.len(),
            ),
            OutputView::Exists => SqlView::new().text("SELECT EXISTS(SELECT 1"@),
            OutputView::Count => SqlView::new().text("SELECT COUNT(*)"@),
            OutputView::Locked(c) => SqlView::new().text("SELECT "@).text(c.spec_name()),
            OutputView::NextAfterGreatest(c) => SqlView::new().text("SELECT COALESCE(MAX("@).text(
                c.spec_name(),
            ).text("), 0) + 1"@),
        }.text(" FROM "@).text(self.table.spec_name()).tests(
            self.filter,
            self.filter.len(),
        ).ordered(
            self.order,
            self.order.len(),
        ).bounded(" LIMIT "@, self.limit).bounded(" OFFSET "@, self.offset);
        match self.output {
            OutputView::Exists => body.text(")"@),
            OutputView::Locked(_) => body.text(" FOR UPDATE"@),
            _ => body,
        }
    }
}

impl Sql {
    pub(crate) fn new() -> (r: Sql)
        ensures
            r@ == SqlView::new(),
    {
        let r = Sql { text: String::new(), params: Vec::new() };
        assert(r@.params =~= Seq::empty());
        r
    }

    pub(crate) fn text(&mut self, t: &str)
        ensures
            final(self)@ == old(self)@.text(t@),
    {
        self.text.append(t);
    }

    pub(crate) fn param(&mut self, v: SqlValue)
        ensures
            final(self)@ == old(self)@.param(v@),
    {
        self.text.append("$");
        self.params.push(v);
        push_decimal(&mut self.text, self.params.len() as u64);
        assert(self@.params =~= old(self)@.params.push(v@));
    }

    pub(crate) fn comma(&mut self, listed: usize)
        ensures
            final(self)@ == old(self)@.comma(listed as nat),
    {
        if listed > 0 {
            self.text(", ");
        }
    }

    fn columns(&mut self, columns: &Vec<Column>)
        ensures
            final(self)@ == old(self)@.columns(columns@, columns@.len()),
    {
        let mut i: usize = 0;
        while i < columns.len()
            invariant
                i <= columns.len(),
                self@ == old(self)@.columns(columns@, i as nat),
            decreases columns.len() - i,
        {
            self.comma(i);
            self.text(columns[i].name());
            i = i + 1;
        }
    }

    fn cell_columns(&mut self, cells: &Vec<Cell>)
        ensures
            final(self)@ == old(self)@.cell_columns(
                cells@.map_values(|c: Cell| c@),
                cells@.len(),
            ),
    {
        let ghost views = cells@.map_values(|c: Cell| c@);
        let mut i: usize = 0;
        while i < cells.len()
            invariant
                i <= cells.len(),
                views == cells@.map_values(|c: Cell| c@),
                self@ == old(self)@.cell_columns(views, i as nat),
            decreases cells.len() - i,
        {
            self.comma(i);
            self.text(cells[i].column.name());
            i = i + 1;
        }
    }

    fn operand(&mut self, operand: &Operand)
        ensures
            final(self)@ == old(self)@.operand(operand@),
    {
        match operand {
            Operand::Value(v) => self.param(v.clone()),
            Operand::RootRun { run_id, parent_run_id } => {
                self.text("CASE WHEN ");
                self.param(opt_text(parent_run_id));
                self.text("::TEXT IS NULL THEN ");
                self.param(text(run_id));
                self.text(" ELSE (SELECT root_run_id FROM runs WHERE run_id = ");
                self.param(opt_text(parent_run_id));
                self.text(") END");
            },
            Operand::SessionOf { session_id, parent_run_id } => {
                self.text("COALESCE(");
                self.param(opt_text(session_id));
                self.text(", (SELECT session_id FROM runs WHERE run_id = ");
                self.param(opt_text(parent_run_id));
                self.text("))");
            },
        }
    }

    fn operands(&mut self, cells: &Vec<Cell>)
        ensures
            final(self)@ == old(self)@.operands(cells@.map_values(|c: Cell| c@), cells@.len()),
    {
        let ghost views = cells@.map_values(|c: Cell| c@);
        let mut i: usize = 0;
        while i < cells.len()
            invariant
                i <= cells.len(),
                views == cells@.map_values(|c: Cell| c@),
                self@ == old(self)@.operands(views, i as nat),
            decreases cells.len() - i,
        {
            self.comma(i);
            self.operand(&cells[i].operand);
            i = i + 1;
        }
    }

    fn stored(&mut self, table: Table, column: Column)
        ensures
            final(self)@ == old(self)@.stored(table, column),
    {
        self.text(table.name());
        self.text(".");
        self.text(column.name());
    }

    fn excluded(&mut self, column: Column)
        ensures
            final(self)@ == old(self)@.excluded(column),
    {
        self.text("EXCLUDED.");
        self.text(column.name());
    }

    fn assignment(&mut self, table: Table, column: Column, source: &Source)
        ensures
            final(self)@ == old(self)@.assignment(table, column, source@),
    {
        self.text(column.name());
        self.text(" = ");
        match source {
            Source::Value(v) => self.param(v.clone()),
            Source::Excluded => self.excluded(column),
            Source::Plus(v) => {
                self.stored(table, column);
                self.text(" + ");
                self.param(v.clone());
            },
            Source::PlusExcluded => {
                self.stored(table, column);
                self.text(" + ");
                self.excluded(column);
            },
            Source::Greatest(v) => {
                self.text("GREATEST(");
                self.stored(table, column);
                self.text(", ");
                self.param(v.clone());
                self.text(")");
            },
            Source::GreatestExcluded => {
                self.text("GREATEST(");
                self.stored(table, column);
                self.text(", ");
                self.excluded(column);
                self.text(")");
            },
            Source::ValueOrStored(v) => {
                self.text("COALESCE(");
                self.param(v.clone());
                self.text(", ");
                self.stored(table, column);
                self.text(")");
            },
            Source::StoredOrValue(v) => {
                self.text("COALESCE(");
                self.stored(table, column);
                self.text(", ");
                self.param(v.clone());
                self.text(")");
            },
            Source::ColumnPlus(other, v) => {
                self.stored(table, *other);
                self.text(" + ");
                self.param(v.clone());
            },
        }
    }

    fn assignments(&mut self, table: Table, set: &Vec<Assignment>)
        ensures
            final(self)@ == old(self)@.assignments(
                table,
                set@.map_values(|a: Assignment| a@),
                set@.len(),
            ),
    {
        let ghost views = set@.map_values(|a: Assignment| a@);
        let mut i: usize = 0;
        while i < set.len()
            invariant
                i <= set.len(),
                views == set@.map_values(|a: Assignment| a@),
                self@ == old(self)@.assignments(table, views, i as nat),
            decreases set.len() - i,
        {
            self.comma(i);
            self.assignment(table, set[i].column, &set[i].source);
            i = i + 1;
        }
    }

    fn guard(&mut self, table: Table, guard: &Guard)
        ensures
            final(self)@ == old(self)@.guard(table, guard@),
    {
        match guard {
            Guard::Always => {},
            Guard::SameAsExcluded(c) => {
                self.text(" WHERE ");
                self.stored(table, *c);
                self.text(" = ");
                self.excluded(*c);
            },
            Guard::StoredIs(c, v) => {
                self.text(" WHERE ");
                self.stored(table, *c);
                self.text(" = ");
                self.param(v.clone());
            },
            Guard::ExcludedAtLeastStored(c) => {
                self.text(" WHERE ");
                self.excluded(*c);
                self.text(" >= ");
                self.stored(table, *c);
            },
        }
    }

    fn conflict(&mut self, table: Table, conflict: &Conflict)
        ensures
            final(self)@ == old(self)@.conflict(table, conflict@),
    {
        match conflict {
            Conflict::Fail => {},
            Conflict::Ignore(key) => {
                self.text(" ON CONFLICT (");
                self.columns(key);
                self.text(") DO NOTHING");
            },
            Conflict::Merge { key, set, guard } => {
                self.text(" ON CONFLICT (");
                self.columns(key);
                self.text(") DO UPDATE SET ");
                self.assignments(table, set);
                self.guard(table, guard);
            },
        }
    }

    fn names(&mut self, names: &Vec<&'static str>)
        ensures
            final(self)@ == old(self)@.names(
                names@.map_values(|n: &'static str| n@),
                names@.len(),
            ),
    {
        let ghost views = names@.map_values(|n: &'static str| n@);
        let mut i: usize = 0;
        while i < names.len()
            invariant
                i <= names.len(),
                views == names@.map_values(|n: &'static str| n@),
                self@ == old(self)@.names(views, i as nat),
            decreases names.len() - i,
        {
            self.comma(i);
            self.param(text(names[i]));
            i = i + 1;
        }
    }

    fn compared(&mut self, column: Column, operator: &str, v: &SqlValue)
        ensures
            final(self)@ == old(self)@.text(column.spec_name()).text(operator@).param(v@),
    {
        self.text(column.name());
        self.text(operator);
        self.param(v.clone());
    }

    fn test(&mut self, test: &Test)
        ensures
            final(self)@ == old(self)@.test(test@),
    {
        match test {
            Test::Equals(c, v) => self.compared(*c, " = ", v),
            Test::Below(c, v) => self.compared(*c, " < ", v),
            Test::AtMost(c, v) => self.compared(*c, " <= ", v),
            Test::AtLeast(c, v) => self.compared(*c, " >= ", v),
            Test::Above(c, v) => self.compared(*c, " > ", v),
            Test::Differs(c, v) => self.compared(*c, " <> ", v),
            Test::IsNull(c) => {
                self.text(c.name());
                self.text(" IS NULL");
            },
            Test::NotNull(c) => {
                self.text(c.name());
                self.text(" IS NOT NULL");
            },
            Test::NullOr(c, v) => {
                self.text("(");
                self.text(c.name());
                self.text(" IS NULL OR ");
                self.compared(*c, " = ", v);
                self.text(")");
            },
            Test::OneOf(c, names) => {
                self.text(c.name());
                self.text(" IN (");
                self.names(names);
                self.text(")");
            },
            Test::NoneOf(c, names) => {
                self.text(c.name());
                self.text(" NOT IN (");
                self.names(names);
                self.text(")");
            },
            Test::IsRootOf(run_id) => {
                self.text("run_id = (SELECT r.root_run_id FROM runs r WHERE r.run_id = ");
                self.param(text(run_id));
                self.text(" AND r.parent_run_id IS NOT NULL AND r.root_run_id IS NOT NULL)");
            },
            Test::RunOfSession(session_id) => {
                self.text("run_id IN (SELECT r.run_id FROM runs r WHERE r.session_id = ");
                self.param(text(session_id));
                self.text(")");
            },
        }
    }

    fn tests(&mut self, filter: &Vec<Test>)
        ensures
            final(self)@ == old(self)@.tests(filter@.map_values(|t: Test| t@), filter@.len()),
    {
        let ghost views = filter@.map_values(|t: Test| t@);
        let mut i: usize = 0;
        while i < filter.len()
            invariant
                i <= filter.len(),
                views == filter@.map_values(|t: Test| t@),
                self@ == old(self)@.tests(views, i as nat),
            decreases filter.len() - i,
        {
            if i == 0 {
                self.text(" WHERE ");
            } else {
                self.text(" AND ");
            }
            self.test(&filter[i]);
            i = i + 1;
        }
    }

    fn ordered(&mut self, order: &Vec<Order>)
        ensures
            final(self)@ == old(self)@.ordered(order@, order@.len()),
    {
        let mut i: usize = 0;
        while i < order.len()
            invariant
                i <= order.len(),
                self@ == old(self)@.ordered(order@, i as nat),
            decreases order.len() - i,
        {
            if i == 0 {
                self.text(" ORDER BY ");
            } else {
                self.text(", ");
            }
            match order[i] {
                Order::Ascending(c) => {
                    self.text(c.name());
                    self.text(" ASC");
                },
                Order::Descending(c) => {
                    self.text(c.name());
                    self.text(" DESC");
                },
            }
            i = i + 1;
        }
    }

    fn bounded(&mut self, keyword: &str, bound: Option<i64>)
        ensures
            final(self)@ == old(self)@.bounded(keyword@, bound),
    {
        if let Some(n) = bound {
            self.text(keyword);
            self.param(SqlValue::Int8(n));
        }
    }
}

impl Statement {
    /// The statement's text and parameters.
    pub fn sql(&self) -> (r: Sql)
        ensures
            r@ == self@.sql(),
    {
        let mut out = Sql::new();
        match self {
            Statement::Insert { table, cells, conflict } => {
                out.text("INSERT INTO ");
                out.text(table.name());
                out.text(" (");
                out.cell_columns(cells);
                out.text(") VALUES (");
                out.operands(cells);
                out.text(")");
                out.conflict(*table, conflict);
            },
            Statement::Update { table, set, filter } => {
                out.text("UPDATE ");
                out.text(table.name());
                out.text(" SET ");
                out.assignments(*table, set);
                out.tests(filter);
            },
            Statement::Delete { table, filter } => {
                out.text("DELETE FROM ");
                out.text(table.name());
                out.tests(filter);
            },
        }
        out
    }

    /// The text and parameters of a statement that answers with a column of
    /// each row that it writes.
    pub fn sql_returning(&self, column: Column) -> (r: Sql)
        ensures
            r@ == self@.sql().text(" RETURNING "@).text(column.spec_name()),
    {
        let mut out = self.sql();
        out.text(" RETURNING ");
        out.text(column.name());
        out
    }
}

impl Query {
    /// The query's text and parameters.
    pub fn sql(&self) -> (r: Sql)
        ensures
            r@ == self@.sql(),
    {
        let mut out = Sql::new();
        match &self.output {
            Output::Rows(columns) => {
                out.text("SELECT ");
                out.columns(columns);
            },
            Output::Exists => out.text("SELECT EXISTS(SELECT 1"),
            Output::Count => out.text("SELECT COUNT(*)"),
            Output::Locked(c) => {
                out.text("SELECT ");
                out.text(c.name());
            },
            Output::NextAfterGreatest(c) => {
                out.text("SELECT COALESCE(MAX(");
                out.text(c.name());
                out.text("), 0) + 1");
            },
        }
        out.text(" FROM ");
        out.text(self.table.name());
        out.tests(&self.filter);
        out.ordered(&self.order);
        out.bounded(" LIMIT ", self.limit);
        out.bounded(" OFFSET ", self.offset);
        match &self.output {
            Output::Exists => out.text(")"),
            Output::Locked(_) => out.text(" FOR UPDATE"),
            _ => {},
        }
        out
    }
}

} // verus!
