//! What SQL text means, and that the text of tests, statements and queries means
//! what they are.

use crate::model::{Database, Datum, Row};
use crate::query::{Order, OutputView, QueryView};
use crate::schema::{Column, Table};
use crate::sql::SqlView;
use crate::statement::{
    ConflictView, GuardView, OperandView, SourceView, StatementView, TestView,
};
use crate::value::ValueView;
use vstd::prelude::*;

verus! {

/// What an expression or a condition is evaluated in: the bound parameters, the
/// database, and the row at hand with, in a merge, the row that was offered.
pub struct Scope {
    pub params: Seq<ValueView>,
    pub db: Database,
    pub table: Table,
    pub row: Row,
    pub excluded: Row,
}

/// How two values are compared.
pub enum Comparison {
    Equal,
    Unequal,
    Less,
    LessOrEqual,
    Greater,
    GreaterOrEqual,
}

/// The rows of a table, under the name `r` where they have one, that hold a
/// bound value in a column and some value in each of others.
pub struct Selection {
    pub wanted: Column,
    pub table: Table,
    pub named: bool,
    pub column: Column,
    pub number: nat,
    pub present: Seq<Column>,
}

/// An expression.
pub enum Expression {
    /// A column of the row at hand.
    Own(Column),
    /// A column of the row at hand, by the name of its table.
    Stored(Table, Column),
    /// A column of the row that was offered.
    Offered(Column),
    /// A parameter, by its number.
    Bound(nat),
    Sum(Box<Expression>, Box<Expression>),
    Greatest(Box<Expression>, Box<Expression>),
    Coalesce(Box<Expression>, Box<Expression>),
    /// The second where the first, a text, is missing, else the third.
    IfMissing(Box<Expression>, Box<Expression>, Box<Expression>),
    /// The wanted column of the first row that is selected.
    FirstOf(Selection),
}

/// A condition.
pub enum Condition {
    Compared(Comparison, Expression, Expression),
    Missing(Expression),
    Present(Expression),
    /// One of some parameters.
    Among(Expression, Seq<nat>),
    NotAmong(Expression, Seq<nat>),
    /// One of the wanted values of the rows that are selected.
    AmongSelected(Expression, Selection),
    Either(Box<Condition>, Box<Condition>),
}

/// Texts with a separator between each two of them.
pub open spec fn joined(parts: Seq<Seq<char>>, separator: Seq<char>) -> Seq<char>
    decreases parts.len(),
{
    if parts.len() == 0 {
        Seq::empty()
    } else if parts.len() == 1 {
        parts[0]
    } else {
        joined(parts.drop_last(), separator) + separator + parts.last()
    }
}

/// The text of a comparison.
pub open spec fn sign(c: Comparison) -> Seq<char> {
    match c {
        Comparison::Equal => " = "@,
        Comparison::Unequal => " <> "@,
        Comparison::Less => " < "@,
        Comparison::LessOrEqual => " <= "@,
        Comparison::Greater => " > "@,
        Comparison::GreaterOrEqual => " >= "@,
    }
}

/// The text of a parameter.
pub open spec fn bound(number: nat) -> Seq<char> {
    "$"@ + crate::text::decimal(number)
}

/// The text of a list of parameters.
pub open spec fn bound_list(numbers: Seq<nat>) -> Seq<char> {
    joined(numbers.map_values(|n: nat| bound(n)), ", "@)
}

/// The names of columns.
pub open spec fn column_names(columns: Seq<Column>) -> Seq<Seq<char>> {
    columns.map_values(|c: Column| c.spec_name())
}

impl Selection {
    /// What stands before a column of the selected rows.
    pub open spec fn prefix(self) -> Seq<char> {
        if self.named {
            "r."@
        } else {
            ""@
        }
    }

    /// The text of the columns that have to hold some value.
    pub open spec fn present_text(self) -> Seq<char>
        decreases self.present.len(),
    {
        if self.present.len() == 0 {
            Seq::empty()
        } else {
            (Selection { present: self.present.drop_last(), ..self }).present_text() + " AND "@
                + self.prefix() + self.present.last().spec_name() + " IS NOT NULL"@
        }
    }

    /// The text of the selection.
    pub open spec fn text(self) -> Seq<char> {
        "(SELECT "@ + self.prefix() + self.wanted.spec_name() + " FROM "@ + self.table.spec_name()
            + (if self.named {
            " r"@
        } else {
            ""@
        }) + " WHERE "@ + self.prefix() + self.column.spec_name() + " = "@ + bound(self.number)
            + self.present_text() + ")"@
    }

    /// Whether a row is selected.
    pub open spec fn selects(self, params: Seq<ValueView>, row: Row) -> bool {
        &&& crate::model::datum(params[self.number - 1]) != Datum::Null
        &&& crate::model::value(row, self.column) == crate::model::datum(params[self.number - 1])
        &&& forall|i: int|
            0 <= i < self.present.len() ==> crate::model::value(row, #[trigger] self.present[i])
                != Datum::Null
    }

    /// The wanted column of the first of some rows that is selected; missing
    /// where none is.
    pub open spec fn first(self, params: Seq<ValueView>, rows: Seq<Row>) -> Datum
        decreases rows.len(),
    {
        if rows.len() == 0 {
            Datum::Null
        } else if self.selects(params, rows[0]) {
            crate::model::value(rows[0], self.wanted)
        } else {
            self.first(params, rows.drop_first())
        }
    }
}

impl Expression {
    /// The text of the expression.
    pub open spec fn text(self) -> Seq<char>
        decreases self,
    {
        match self {
            Expression::Own(c) => c.spec_name(),
            Expression::Stored(t, c) => t.spec_name() + "."@ + c.spec_name(),
            Expression::Offered(c) => "EXCLUDED."@ + c.spec_name(),
            Expression::Bound(n) => bound(n),
            Expression::Sum(a, b) => a.text() + " + "@ + b.text(),
            Expression::Greatest(a, b) => "GREATEST("@ + a.text() + ", "@ + b.text() + ")"@,
            Expression::Coalesce(a, b) => "COALESCE("@ + a.text() + ", "@ + b.text() + ")"@,
            Expression::IfMissing(a, b, c) => "CASE WHEN "@ + a.text() + "::TEXT IS NULL THEN "@
                + b.text() + " ELSE "@ + c.text() + " END"@,
            Expression::FirstOf(s) => s.text(),
        }
    }

    /// The value of the expression.
    pub open spec fn value(self, scope: Scope) -> Datum
        decreases self,
    {
        match self {
            Expression::Own(c) => crate::model::value(scope.row, c),
            Expression::Stored(t, c) => if t == scope.table {
                crate::model::value(scope.row, c)
            } else {
                Datum::Null
            },
            Expression::Offered(c) => crate::model::value(scope.excluded, c),
            Expression::Bound(n) => crate::model::datum(scope.params[n - 1]),
            Expression::Sum(a, b) => match (a.value(scope), b.value(scope)) {
                (Datum::Int(x), Datum::Int(y)) => Datum::Int(x + y),
                _ => Datum::Null,
            },
            Expression::Greatest(a, b) => match (a.value(scope), b.value(scope)) {
                (Datum::Int(x), Datum::Int(y)) => Datum::Int(
                    if x >= y {
                        x
                    } else {
                        y
                    },
                ),
                (Datum::Null, other) => other,
                (other, _) => other,
            },
            Expression::Coalesce(a, b) => if a.value(scope) is Null {
                b.value(scope)
            } else {
                a.value(scope)
            },
            Expression::IfMissing(a, b, c) => if a.value(scope) is Null {
                b.value(scope)
            } else {
                c.value(scope)
            },
            Expression::FirstOf(s) => s.first(scope.params, scope.db.rows(s.table)),
        }
    }
}

/// Whether a comparison holds; not known where a value is missing.
pub open spec fn compared(c: Comparison, a: Datum, b: Datum) -> Option<bool> {
    if a is Null || b is Null {
        None
    } else {
        match c {
            Comparison::Equal => Some(a == b),
            Comparison::Unequal => Some(a != b),
            Comparison::Less => Some(a is Int && b is Int && a->Int_0 < b->Int_0),
            Comparison::LessOrEqual => Some(a is Int && b is Int && a->Int_0 <= b->Int_0),
            Comparison::Greater => Some(a is Int && b is Int && a->Int_0 > b->Int_0),
            Comparison::GreaterOrEqual => Some(a is Int && b is Int && a->Int_0 >= b->Int_0),
        }
    }
}

impl Condition {
    /// The text of the condition.
    pub open spec fn text(self) -> Seq<char>
        decreases self,
    {
        match self {
            Condition::Compared(c, a, b) => a.text() + sign(c) + b.text(),
            Condition::Missing(a) => a.text() + " IS NULL"@,
            Condition::Present(a) => a.text() + " IS NOT NULL"@,
            Condition::Among(a, numbers) => a.text() + " IN ("@ + bound_list(numbers) + ")"@,
            Condition::NotAmong(a, numbers) => a.text() + " NOT IN ("@ + bound_list(numbers)
                + ")"@,
            Condition::AmongSelected(a, s) => a.text() + " IN "@ + s.text(),
            Condition::Either(a, b) => "("@ + a.text() + " OR "@ + b.text() + ")"@,
        }
    }

    /// Whether a row is accepted: the condition is known to hold of it.
    pub open spec fn accepts(self, scope: Scope) -> bool
        decreases self,
    {
        match self {
            Condition::Compared(c, a, b) => compared(c, a.value(scope), b.value(scope)) == Some(
                true,
            ),
            Condition::Missing(a) => a.value(scope) is Null,
            Condition::Present(a) => !(a.value(scope) is Null),
            Condition::Among(a, numbers) => !(a.value(scope) is Null) && exists|i: int|
                0 <= i < numbers.len() && a.value(scope) == crate::model::datum(
                    scope.params[#[trigger] numbers[i] - 1],
                ),
            Condition::NotAmong(a, numbers) => !(a.value(scope) is Null) && forall|i: int|
                0 <= i < numbers.len() ==> {
                    let other = crate::model::datum(scope.params[#[trigger] numbers[i] - 1]);
                    !(other is Null) && a.value(scope) != other
                },
            Condition::AmongSelected(a, s) => !(a.value(scope) is Null) && exists|i: int|
                0 <= i < scope.db.rows(s.table).len() && s.selects(
                    scope.params,
                    #[trigger] scope.db.rows(s.table)[i],
                ) && crate::model::value(scope.db.rows(s.table)[i], s.wanted) == a.value(scope),
            Condition::Either(a, b) => a.accepts(scope) || b.accepts(scope),
        }
    }
}

/// The words that conditions and expressions are written with.
pub proof fn the_words_of_conditions(
    a: Expression,
    b: Expression,
    c: Expression,
    numbers: Seq<nat>,
    number: nat,
    one: Condition,
    other: Condition,
    s: Selection,
    table: Table,
    column: Column,
)
    ensures
        Condition::Compared(Comparison::Equal, a, b).text() == a.text() + " = "@ + b.text(),
        Condition::Compared(Comparison::Unequal, a, b).text() == a.text() + " <> "@ + b.text(),
        Condition::Compared(Comparison::Less, a, b).text() == a.text() + " < "@ + b.text(),
        Condition::Compared(Comparison::LessOrEqual, a, b).text() == a.text() + " <= "@ + b.text(),
        Condition::Compared(Comparison::Greater, a, b).text() == a.text() + " > "@ + b.text(),
        Condition::Compared(Comparison::GreaterOrEqual, a, b).text() == a.text() + " >= "@
            + b.text(),
        Condition::Missing(a).text() == a.text() + " IS NULL"@,
        Condition::Present(a).text() == a.text() + " IS NOT NULL"@,
        Condition::Among(a, numbers).text() == a.text() + " IN ("@ + bound_list(numbers) + ")"@,
        Condition::NotAmong(a, numbers).text() == a.text() + " NOT IN ("@ + bound_list(numbers)
            + ")"@,
        Condition::AmongSelected(a, s).text() == a.text() + " IN "@ + s.text(),
        Condition::Either(Box::new(one), Box::new(other)).text() == "("@ + one.text() + " OR "@
            + other.text() + ")"@,
        Expression::Own(column).text() == column.spec_name(),
        Expression::Stored(table, column).text() == table.spec_name() + "."@ + column.spec_name(),
        Expression::Offered(column).text() == "EXCLUDED."@ + column.spec_name(),
        Expression::Bound(number).text() == "$"@ + crate::text::decimal(number),
        Expression::Sum(Box::new(a), Box::new(b)).text() == a.text() + " + "@ + b.text(),
        Expression::Greatest(Box::new(a), Box::new(b)).text() == "GREATEST("@ + a.text() + ", "@
            + b.text() + ")"@,
        Expression::Coalesce(Box::new(a), Box::new(b)).text() == "COALESCE("@ + a.text() + ", "@
            + b.text() + ")"@,
        Expression::IfMissing(Box::new(a), Box::new(b), Box::new(c)).text() == "CASE WHEN "@
            + a.text() + "::TEXT IS NULL THEN "@ + b.text() + " ELSE "@ + c.text() + " END"@,
{
}

/// Whether parameters start with those that were bound so far.
pub open spec fn starts_with(params: Seq<ValueView>, bound_so_far: Seq<ValueView>) -> bool {
    bound_so_far.len() <= params.len() && forall|i: int|
        0 <= i < bound_so_far.len() ==> #[trigger] params[i] == bound_so_far[i]
}

/// Whether a text goes on with a further text, and binds no other values than
/// further ones.
pub open spec fn goes_on(from: SqlView, to: SqlView, text: Seq<char>) -> bool {
    to.text == from.text + text && starts_with(to.params, from.params)
}

/// Whether no two runs have the same id.
pub open spec fn runs_are_distinct(db: Database) -> bool {
    let runs = db.rows(Table::Runs);
    forall|i: int, j: int|
        0 <= i < runs.len() && 0 <= j < runs.len() && i != j ==> crate::model::value(
            #[trigger] runs[i],
            Column::RunId,
        ) != crate::model::value(#[trigger] runs[j], Column::RunId) || crate::model::value(
            runs[i],
            Column::RunId,
        ) is Null
}

/// Whether a condition is the meaning of a test: in every scope with the given
/// parameters it accepts the rows that pass the test, and no others.
pub open spec fn means(condition: Condition, params: Seq<ValueView>, test: TestView) -> bool {
    forall|scope: Scope|
        starts_with(scope.params, params) && runs_are_distinct(scope.db) ==> (
        #[trigger] condition.accepts(scope) <==> crate::model::passes(scope.db, scope.row, test))
}

/// The numbers of so many parameters after the first `bound_so_far`.
spec fn next_numbers(bound_so_far: nat, count: nat) -> Seq<nat> {
    Seq::new(count, |i: int| (bound_so_far + 1 + i) as nat)
}

/// The condition that a test is written as, after `n` parameters.
spec fn condition_of(test: TestView, n: nat) -> Condition {
    let next = Expression::Bound(n + 1);
    match test {
        TestView::Equals(c, _) => Condition::Compared(Comparison::Equal, Expression::Own(c), next),
        TestView::Below(c, _) => Condition::Compared(Comparison::Less, Expression::Own(c), next),
        TestView::AtMost(c, _) => Condition::Compared(
            Comparison::LessOrEqual,
            Expression::Own(c),
            next,
        ),
        TestView::AtLeast(c, _) => Condition::Compared(
            Comparison::GreaterOrEqual,
            Expression::Own(c),
            next,
        ),
        TestView::Above(c, _) => Condition::Compared(
            Comparison::Greater,
            Expression::Own(c),
            next,
        ),
        TestView::Differs(c, _) => Condition::Compared(
            Comparison::Unequal,
            Expression::Own(c),
            next,
        ),
        TestView::IsNull(c) => Condition::Missing(Expression::Own(c)),
        TestView::NotNull(c) => Condition::Present(Expression::Own(c)),
        TestView::NullOr(c, _) => Condition::Either(
            Box::new(Condition::Missing(Expression::Own(c))),
            Box::new(Condition::Compared(Comparison::Equal, Expression::Own(c), next)),
        ),
        TestView::OneOf(c, names) => Condition::Among(
            Expression::Own(c),
            next_numbers(n, names.len()),
        ),
        TestView::NoneOf(c, names) => Condition::NotAmong(
            Expression::Own(c),
            next_numbers(n, names.len()),
        ),
        TestView::IsRootOf(_) => Condition::Compared(
            Comparison::Equal,
            Expression::Own(Column::RunId),
            Expression::FirstOf(root_selection(n + 1)),
        ),
        TestView::RunOfSession(_) => Condition::AmongSelected(
            Expression::Own(Column::RunId),
            session_selection(n + 1),
        ),
    }
}

spec fn root_selection(number: nat) -> Selection {
    Selection {
        wanted: Column::RootRunId,
        table: Table::Runs,
        named: true,
        column: Column::RunId,
        number,
        present: seq![Column::ParentRunId, Column::RootRunId],
    }
}

spec fn session_selection(number: nat) -> Selection {
    Selection {
        wanted: Column::RunId,
        table: Table::Runs,
        named: true,
        column: Column::SessionId,
        number,
        present: Seq::empty(),
    }
}

/// Texts that are put together can be put together in any order.
broadcast proof fn texts_are_put_together(a: Seq<char>, b: Seq<char>, c: Seq<char>)
    ensures
        #[trigger] ((a + b) + c) == a + (b + c),
{
    assert((a + b) + c =~= a + (b + c));
}

proof fn a_list_grows(parts: Seq<Seq<char>>, more: Seq<char>, separator: Seq<char>)
    ensures
        joined(parts.push(more), separator) == if parts.len() == 0 {
            more
        } else {
            joined(parts, separator) + separator + more
        },
{
    assert(parts.push(more).drop_last() =~= parts);
}

proof fn names_are_bound(sql: SqlView, names: Seq<Seq<char>>, n: nat)
    requires
        n <= names.len(),
    ensures
        sql.names(names, n).text == sql.text + bound_list(next_numbers(sql.params.len(), n)),
        sql.names(names, n).params == sql.params + names.take(n as int).map_values(
            |name: Seq<char>| ValueView::Text(name),
        ),
    decreases n,
{
    broadcast use texts_are_put_together;

    let numbers = next_numbers(sql.params.len(), n);
    if n > 0 {
        let m = (n - 1) as nat;
        names_are_bound(sql, names, m);
        let before = next_numbers(sql.params.len(), m);
        let texts = before.map_values(|k: nat| bound(k));
        let last = bound((sql.params.len() + n) as nat);
        assert(numbers.map_values(|k: nat| bound(k)) =~= texts.push(last));
        a_list_grows(texts, last, ", "@);
        assert(sql.names(names, n).params =~= sql.params + names.take(n as int).map_values(
            |name: Seq<char>| ValueView::Text(name),
        ));
        assert(sql.names(names, n).text =~= sql.text + bound_list(numbers));
    } else {
        assert(numbers.map_values(|k: nat| bound(k)) =~= Seq::empty());
        assert(sql.text + bound_list(numbers) =~= sql.text);
        assert(sql.params + names.take(0).map_values(|name: Seq<char>| ValueView::Text(name))
            =~= sql.params);
    }
}

proof fn two_texts(sql: SqlView, a: Seq<char>, b: Seq<char>)
    ensures
        goes_on(sql, sql.text(a).text(b), a + b),
{
    broadcast use texts_are_put_together;

}

proof fn two_texts_and_a_value(sql: SqlView, a: Seq<char>, b: Seq<char>, v: ValueView)
    ensures
        goes_on(sql, sql.text(a).text(b).param(v), a + b + bound(sql.params.len() + 1)),
{
    broadcast use texts_are_put_together;

}

proof fn two_texts_and_a_list(sql: SqlView, a: Seq<char>, b: Seq<char>, names: Seq<Seq<char>>)
    ensures
        goes_on(
            sql,
            sql.text(a).text(b).names(names, names.len()).text(")"@),
            a + b + bound_list(next_numbers(sql.params.len(), names.len())) + ")"@,
        ),
{
    broadcast use texts_are_put_together;

    names_are_bound(sql.text(a).text(b), names, names.len());
}

proof fn a_text_a_value_and_a_text(sql: SqlView, a: Seq<char>, v: ValueView, b: Seq<char>)
    ensures
        goes_on(sql, sql.text(a).param(v).text(b), a + bound(sql.params.len() + 1) + b),
{
    broadcast use texts_are_put_together;

}

#[verifier::rlimit(50)]
#[verifier::spinoff_prover]
proof fn a_test_is_written(sql: SqlView, test: TestView)
    ensures
        goes_on(sql, sql.test(test), condition_of(test, sql.params.len()).text()),
{
    match test {
        TestView::Equals(c, v) => two_texts_and_a_value(sql, c.spec_name(), " = "@, v),
        TestView::Below(c, v) => two_texts_and_a_value(sql, c.spec_name(), " < "@, v),
        TestView::AtMost(c, v) => two_texts_and_a_value(sql, c.spec_name(), " <= "@, v),
        TestView::AtLeast(c, v) => two_texts_and_a_value(sql, c.spec_name(), " >= "@, v),
        TestView::Above(c, v) => two_texts_and_a_value(sql, c.spec_name(), " > "@, v),
        TestView::Differs(c, v) => two_texts_and_a_value(sql, c.spec_name(), " <> "@, v),
        TestView::IsNull(c) => two_texts(sql, c.spec_name(), " IS NULL"@),
        TestView::NotNull(c) => two_texts(sql, c.spec_name(), " IS NOT NULL"@),
        TestView::NullOr(c, v) => a_test_for_a_missing_value_is_written(sql, c, v),
        TestView::OneOf(c, names) => two_texts_and_a_list(sql, c.spec_name(), " IN ("@, names),
        TestView::NoneOf(c, names) => two_texts_and_a_list(
            sql,
            c.spec_name(),
            " NOT IN ("@,
            names,
        ),
        TestView::IsRootOf(run_id) => {
            root_selection_text(sql.params.len() + 1);
            a_text_a_value_and_a_text(
                sql,
                "run_id = (SELECT r.root_run_id FROM runs r WHERE r.run_id = "@,
                ValueView::Text(run_id),
                " AND r.parent_run_id IS NOT NULL AND r.root_run_id IS NOT NULL)"@,
            );
        },
        TestView::RunOfSession(session_id) => {
            session_selection_text(sql.params.len() + 1);
            a_text_a_value_and_a_text(
                sql,
                "run_id IN (SELECT r.run_id FROM runs r WHERE r.session_id = "@,
                ValueView::Text(session_id),
                ")"@,
            );
        },
    }
}

proof fn a_missing_value_or_a_value(sql: SqlView, name: Seq<char>, v: ValueView)
    ensures
        goes_on(
            sql,
            sql.text("("@).text(name).text(" IS NULL OR "@).text(name).text(" = "@).param(v).text(
                ")"@,
            ),
            "("@ + (name + " IS NULL"@) + " OR "@ + (name + " = "@ + bound(sql.params.len() + 1))
                + ")"@,
        ),
{
    broadcast use texts_are_put_together;

    assert(" IS NULL OR "@ == " IS NULL"@ + " OR "@) by {
        reveal_strlit(" IS NULL OR ");
        reveal_strlit(" IS NULL");
        reveal_strlit(" OR ");
        assert(" IS NULL OR "@ =~= " IS NULL"@ + " OR "@);
    }
}

proof fn a_test_for_a_missing_value_is_written(sql: SqlView, c: Column, v: ValueView)
    ensures
        goes_on(
            sql,
            sql.test(TestView::NullOr(c, v)),
            condition_of(TestView::NullOr(c, v), sql.params.len()).text(),
        ),
{
    reveal_with_fuel(Condition::text, 2);
    a_missing_value_or_a_value(sql, c.spec_name(), v);
}

proof fn root_selection_text(number: nat)
    ensures
        "run_id"@ + " = "@ + root_selection(number).text()
            == "run_id = (SELECT r.root_run_id FROM runs r WHERE r.run_id = "@ + bound(number)
            + " AND r.parent_run_id IS NOT NULL AND r.root_run_id IS NOT NULL)"@,
{
    reveal_strlit("run_id = (SELECT r.root_run_id FROM runs r WHERE r.run_id = ");
    reveal_strlit(" AND r.parent_run_id IS NOT NULL AND r.root_run_id IS NOT NULL)");
    reveal_strlit("run_id");
    reveal_strlit(" = ");
    reveal_strlit("(SELECT ");
    reveal_strlit("r.");
    reveal_strlit("root_run_id");
    reveal_strlit("parent_run_id");
    reveal_strlit(" FROM ");
    reveal_strlit("runs");
    reveal_strlit(" r");
    reveal_strlit(" WHERE ");
    reveal_strlit(" AND ");
    reveal_strlit(" IS NOT NULL");
    reveal_strlit(")");
    reveal_with_fuel(Selection::present_text, 3);
    let s = root_selection(number);
    assert(s.present.drop_last() =~= seq![Column::ParentRunId]);
    assert(s.present.drop_last().drop_last() =~= Seq::empty());
    let head = "run_id"@ + " = "@ + "(SELECT "@ + "r."@ + "root_run_id"@ + " FROM "@ + "runs"@
        + " r"@ + " WHERE "@ + "r."@ + "run_id"@ + " = "@;
    assert(head =~= "run_id = (SELECT r.root_run_id FROM runs r WHERE r.run_id = "@);
    let tail = " AND "@ + "r."@ + "parent_run_id"@ + " IS NOT NULL"@ + " AND "@ + "r."@
        + "root_run_id"@ + " IS NOT NULL"@ + ")"@;
    assert(tail =~= " AND r.parent_run_id IS NOT NULL AND r.root_run_id IS NOT NULL)"@);
    assert("run_id"@ + " = "@ + s.text() =~= head + bound(number) + tail);
}

proof fn session_selection_text(number: nat)
    ensures
        "run_id"@ + " IN "@ + session_selection(number).text()
            == "run_id IN (SELECT r.run_id FROM runs r WHERE r.session_id = "@ + bound(number)
            + ")"@,
{
    reveal_strlit("run_id IN (SELECT r.run_id FROM runs r WHERE r.session_id = ");
    reveal_strlit("run_id");
    reveal_strlit(" IN ");
    reveal_strlit(" = ");
    reveal_strlit("(SELECT ");
    reveal_strlit("r.");
    reveal_strlit("session_id");
    reveal_strlit(" FROM ");
    reveal_strlit("runs");
    reveal_strlit(" r");
    reveal_strlit(" WHERE ");
    let s = session_selection(number);
    let head = "run_id"@ + " IN "@ + "(SELECT "@ + "r."@ + "run_id"@ + " FROM "@ + "runs"@ + " r"@
        + " WHERE "@ + "r."@ + "session_id"@ + " = "@;
    assert(head =~= "run_id IN (SELECT r.run_id FROM runs r WHERE r.session_id = "@);
    assert("run_id"@ + " IN "@ + s.text() =~= head + bound(number) + ")"@);
}

proof fn the_first_run_with_an_id(
    rows: Seq<Row>,
    params: Seq<ValueView>,
    s: Selection,
    run_id: Seq<char>,
)
    requires
        s.column == Column::RunId,
        s.present.len() == 0,
        1 <= s.number <= params.len(),
        params[s.number - 1] == ValueView::Text(run_id),
    ensures
        s.first(params, rows) == match crate::model::first_with(
            rows,
            Column::RunId,
            Datum::Text(run_id),
        ) {
            Some(row) => crate::model::value(row, s.wanted),
            None => Datum::Null,
        },
    decreases rows.len(),
{
    if rows.len() > 0 {
        the_first_run_with_an_id(rows.drop_first(), params, s, run_id);
    }
}

proof fn no_run_is_selected(rows: Seq<Row>, params: Seq<ValueView>, s: Selection)
    requires
        1 <= s.number <= params.len(),
        params[s.number - 1] is Null,
    ensures
        s.first(params, rows) is Null,
    decreases rows.len(),
{
    if rows.len() > 0 {
        no_run_is_selected(rows.drop_first(), params, s);
    }
}

/// Among runs with distinct ids, the root is that of the one run with the id.
proof fn the_root_of_a_run(rows: Seq<Row>, params: Seq<ValueView>, number: nat, run_id: Seq<char>)
    requires
        1 <= number <= params.len(),
        params[number - 1] == ValueView::Text(run_id),
        forall|i: int, j: int|
            0 <= i < rows.len() && 0 <= j < rows.len() && i != j ==> crate::model::value(
                #[trigger] rows[i],
                Column::RunId,
            ) != crate::model::value(#[trigger] rows[j], Column::RunId) || crate::model::value(
                rows[i],
                Column::RunId,
            ) is Null,
    ensures
        ({
            let root = root_selection(number).first(params, rows);
            match crate::model::first_with(rows, Column::RunId, Datum::Text(run_id)) {
                Some(row) => root == if crate::model::value(row, Column::ParentRunId)
                    != Datum::Null {
                    crate::model::value(row, Column::RootRunId)
                } else {
                    Datum::Null
                },
                None => root == Datum::Null,
            }
        }),
    decreases rows.len(),
{
    if rows.len() > 0 {
        let s = root_selection(number);
        let rest = rows.drop_first();
        assert forall|i: int, j: int|
            0 <= i < rest.len() && 0 <= j < rest.len() && i != j implies crate::model::value(
            #[trigger] rest[i],
            Column::RunId,
        ) != crate::model::value(#[trigger] rest[j], Column::RunId) || crate::model::value(
            rest[i],
            Column::RunId,
        ) is Null by {
            assert(rest[i] == rows[i + 1] && rest[j] == rows[j + 1]);
        }
        the_root_of_a_run(rest, params, number, run_id);
        assert(s.present[0] == Column::ParentRunId && s.present[1] == Column::RootRunId);
        if crate::model::value(rows[0], Column::RunId) == Datum::Text(run_id) {
            if !s.selects(params, rows[0]) {
                assert forall|i: int| 0 <= i < rest.len() implies crate::model::value(
                    #[trigger] rest[i],
                    Column::RunId,
                ) != Datum::Text(run_id) by {
                    assert(rest[i] == rows[i + 1]);
                }
                nothing_has_the_id(rest, params, number, run_id);
            }
        }
    }
}

proof fn nothing_has_the_id(rows: Seq<Row>, params: Seq<ValueView>, number: nat, run_id: Seq<char>)
    requires
        1 <= number <= params.len(),
        params[number - 1] == ValueView::Text(run_id),
        forall|i: int|
            0 <= i < rows.len() ==> crate::model::value(#[trigger] rows[i], Column::RunId)
                != Datum::Text(run_id),
    ensures
        root_selection(number).first(params, rows) is Null,
    decreases rows.len(),
{
    if rows.len() > 0 {
        let rest = rows.drop_first();
        assert forall|i: int| 0 <= i < rest.len() implies crate::model::value(
            #[trigger] rest[i],
            Column::RunId,
        ) != Datum::Text(run_id) by {
            assert(rest[i] == rows[i + 1]);
        }
        assert(crate::model::value(rows[0], Column::RunId) != Datum::Text(run_id));
        nothing_has_the_id(rest, params, number, run_id);
    }
}

proof fn a_condition_accepts_what_passes(sql: SqlView, test: TestView, scope: Scope)
    requires
        starts_with(scope.params, sql.test(test).params),
        runs_are_distinct(scope.db),
    ensures
        condition_of(test, sql.params.len()).accepts(scope) <==> crate::model::passes(
            scope.db,
            scope.row,
            test,
        ),
{
    let n = sql.params.len();
    let to = sql.test(test);
    match test {
        TestView::Equals(_, _) | TestView::Below(_, _) | TestView::AtMost(_, _)
        | TestView::AtLeast(_, _) | TestView::Above(_, _) | TestView::Differs(_, _)
        | TestView::NullOr(_, _) => {
            reveal_with_fuel(Condition::accepts, 2);
            assert(scope.params[n as int] == to.params[n as int]);
        },
        TestView::IsNull(_) | TestView::NotNull(_) => {},
        TestView::OneOf(c, names) => {
            let head = sql.text(c.spec_name()).text(" IN ("@);
            names_are_bound(head, names, names.len());
            names_stand_in_the_scope(sql, names, scope);
            let numbers = next_numbers(n, names.len());
            let own = crate::model::value(scope.row, c);
            if crate::model::passes(scope.db, scope.row, test) {
                let i = choose|i: int| 0 <= i < names.len() && own == Datum::Text(#[trigger] names[i]);
                assert(crate::model::datum(scope.params[numbers[i] - 1]) == own);
            }
            if condition_of(test, n).accepts(scope) {
                let i = choose|i: int|
                    0 <= i < numbers.len() && own == crate::model::datum(
                        scope.params[#[trigger] numbers[i] - 1],
                    );
                assert(own == Datum::Text(names[i]));
            }
        },
        TestView::NoneOf(c, names) => {
            let head = sql.text(c.spec_name()).text(" NOT IN ("@);
            names_are_bound(head, names, names.len());
            names_stand_in_the_scope(sql, names, scope);
            let numbers = next_numbers(n, names.len());
            let own = crate::model::value(scope.row, c);
            if crate::model::passes(scope.db, scope.row, test) {
                assert forall|i: int| 0 <= i < numbers.len() implies {
                    let other = crate::model::datum(scope.params[#[trigger] numbers[i] - 1]);
                    !(other is Null) && own != other
                } by {
                    assert(own != Datum::Text(names[i]));
                }
            }
            if condition_of(test, n).accepts(scope) {
                assert forall|i: int| 0 <= i < names.len() implies own != Datum::Text(
                    #[trigger] names[i],
                ) by {
                    assert(crate::model::datum(scope.params[numbers[i] - 1]) == Datum::Text(
                        names[i],
                    ));
                }
            }
        },
        TestView::IsRootOf(run_id) => {
            assert(scope.params[n as int] == to.params[n as int]);
            the_root_of_a_run(scope.db.rows(Table::Runs), scope.params, n + 1, run_id);
        },
        TestView::RunOfSession(session_id) => {
            assert(scope.params[n as int] == to.params[n as int]);
            let s = session_selection(n + 1);
            let runs = scope.db.rows(Table::Runs);
            if crate::model::passes(scope.db, scope.row, test) {
                let i = choose|i: int|
                    0 <= i < runs.len() && crate::model::run_in_session(
                        #[trigger] runs[i],
                        scope.row,
                        session_id,
                    );
                assert(s.selects(scope.params, runs[i]));
            }
            if condition_of(test, n).accepts(scope) {
                let i = choose|i: int|
                    0 <= i < runs.len() && s.selects(scope.params, #[trigger] runs[i])
                        && crate::model::value(runs[i], Column::RunId) == crate::model::value(
                        scope.row,
                        Column::RunId,
                    );
                assert(crate::model::run_in_session(runs[i], scope.row, session_id));
            }
        },
    }
}

proof fn names_stand_in_the_scope(sql: SqlView, names: Seq<Seq<char>>, scope: Scope)
    requires
        starts_with(
            scope.params,
            sql.params + names.take(names.len() as int).map_values(
                |name: Seq<char>| ValueView::Text(name),
            ),
        ),
    ensures
        forall|i: int|
            0 <= i < names.len() ==> scope.params[sql.params.len() + i] == ValueView::Text(
                #[trigger] names[i],
            ),
{
    let all = sql.params + names.take(names.len() as int).map_values(
        |name: Seq<char>| ValueView::Text(name),
    );
    assert forall|i: int| 0 <= i < names.len() implies scope.params[sql.params.len() + i]
        == ValueView::Text(#[trigger] names[i]) by {
        assert(all[sql.params.len() + i] == ValueView::Text(names[i]));
    }
}

/// The text of a test means the test: it is that of a condition that accepts the
/// rows that pass the test, and no others.
pub proof fn the_text_of_a_test_means_the_test(sql: SqlView, test: TestView)
    ensures
        exists|condition: Condition|
            goes_on(sql, sql.test(test), condition.text()) && #[trigger] means(
                condition,
                sql.test(test).params,
                test,
            ),
{
    let condition = condition_of(test, sql.params.len());
    a_test_is_written(sql, test);
    assert forall|scope: Scope|
        starts_with(scope.params, sql.test(test).params) && runs_are_distinct(scope.db) implies (
    #[trigger] condition.accepts(scope) <==> crate::model::passes(scope.db, scope.row, test)) by {
        a_condition_accepts_what_passes(sql, test, scope);
    }
    assert(means(condition, sql.test(test).params, test));
}

/// The text of a `WHERE` clause.
pub open spec fn where_text(conditions: Seq<Condition>) -> Seq<char> {
    if conditions.len() == 0 {
        Seq::empty()
    } else {
        " WHERE "@ + joined(conditions.map_values(|c: Condition| c.text()), " AND "@)
    }
}

/// Whether all of some conditions accept a row.
pub open spec fn all_accept(conditions: Seq<Condition>, scope: Scope) -> bool {
    forall|i: int| 0 <= i < conditions.len() ==> (#[trigger] conditions[i]).accepts(scope)
}

/// Whether conditions are the meaning of a filter.
pub open spec fn mean_the_filter(
    conditions: Seq<Condition>,
    params: Seq<ValueView>,
    filter: Seq<TestView>,
) -> bool {
    forall|scope: Scope|
        starts_with(scope.params, params) && runs_are_distinct(scope.db) ==> (#[trigger] all_accept(
            conditions,
            scope,
        ) <==> crate::model::passes_all(scope.db, scope.row, filter))
}

spec fn conditions_of(sql: SqlView, filter: Seq<TestView>, n: nat) -> Seq<Condition>
    decreases n,
{
    if n == 0 {
        Seq::empty()
    } else {
        let m = (n - 1) as nat;
        conditions_of(sql, filter, m).push(
            condition_of(filter[m as int], sql.tests(filter, m).params.len()),
        )
    }
}

proof fn starting_is_transitive(a: Seq<ValueView>, b: Seq<ValueView>, c: Seq<ValueView>)
    requires
        starts_with(b, a),
        starts_with(c, b),
    ensures
        starts_with(c, a),
{
    assert forall|i: int| 0 <= i < a.len() implies #[trigger] c[i] == a[i] by {
        assert(b[i] == a[i]);
    }
}

proof fn tests_are_written(sql: SqlView, filter: Seq<TestView>, n: nat)
    requires
        n <= filter.len(),
    ensures
        conditions_of(sql, filter, n).len() == n,
        goes_on(sql, sql.tests(filter, n), where_text(conditions_of(sql, filter, n))),
    decreases n,
{
    broadcast use texts_are_put_together;

    let conditions = conditions_of(sql, filter, n);
    if n == 0 {
        assert(sql.text + where_text(conditions) =~= sql.text);
    } else {
        let m = (n - 1) as nat;
        tests_are_written(sql, filter, m);
        let before = sql.tests(filter, m);
        let word = if n == 1 {
            " WHERE "@
        } else {
            " AND "@
        };
        let head = before.text(word);
        let test = filter[m as int];
        a_test_is_written(head, test);
        let earlier = conditions_of(sql, filter, m);
        let last = condition_of(test, before.params.len());
        let texts = earlier.map_values(|c: Condition| c.text());
        assert(conditions.map_values(|c: Condition| c.text()) =~= texts.push(last.text()));
        a_list_grows(texts, last.text(), " AND "@);
        assert(sql.tests(filter, n) == head.test(test));
        assert(sql.tests(filter, n).text =~= sql.text + where_text(conditions));
        starting_is_transitive(sql.params, before.params, sql.tests(filter, n).params);
    }
}

proof fn conditions_accept_what_passes(sql: SqlView, filter: Seq<TestView>, n: nat, scope: Scope)
    requires
        n <= filter.len(),
        starts_with(scope.params, sql.tests(filter, n).params),
        runs_are_distinct(scope.db),
    ensures
        all_accept(conditions_of(sql, filter, n), scope) <==> crate::model::passes_all(
            scope.db,
            scope.row,
            filter.take(n as int),
        ),
    decreases n,
{
    tests_are_written(sql, filter, n);
    if n > 0 {
        let m = (n - 1) as nat;
        let before = sql.tests(filter, m);
        let head = before.text(
            if n == 1 {
                " WHERE "@
            } else {
                " AND "@
            },
        );
        let test = filter[m as int];
        a_test_is_written(head, test);
        starting_is_transitive(before.params, sql.tests(filter, n).params, scope.params);
        conditions_accept_what_passes(sql, filter, m, scope);
        tests_are_written(sql, filter, m);
        a_condition_accepts_what_passes(head, test, scope);
        let all = conditions_of(sql, filter, n);
        let earlier = conditions_of(sql, filter, m);
        let tests = filter.take(n as int);
        let front = filter.take(m as int);
        assert(all[m as int] == condition_of(test, head.params.len()));
        if all_accept(all, scope) {
            assert forall|i: int| 0 <= i < earlier.len() implies (
            #[trigger] earlier[i]).accepts(scope) by {
                assert(all[i] == earlier[i]);
            }
            assert(all[m as int].accepts(scope));
            assert forall|i: int| 0 <= i < tests.len() implies crate::model::passes(
                scope.db,
                scope.row,
                #[trigger] tests[i],
            ) by {
                if i < m {
                    assert(tests[i] == front[i]);
                }
            }
        }
        if crate::model::passes_all(scope.db, scope.row, tests) {
            assert forall|i: int| 0 <= i < front.len() implies crate::model::passes(
                scope.db,
                scope.row,
                #[trigger] front[i],
            ) by {
                assert(tests[i] == front[i]);
            }
            assert(crate::model::passes(scope.db, scope.row, tests[m as int]));
            assert forall|i: int| 0 <= i < all.len() implies (#[trigger] all[i]).accepts(
                scope,
            ) by {
                if i < m {
                    assert(all[i] == earlier[i]);
                }
            }
        }
    }
}

/// The text of a filter means the filter: it is a `WHERE` clause of conditions
/// which together accept the rows that pass every test, and no others.
pub proof fn the_text_of_a_filter_means_the_filter(sql: SqlView, filter: Seq<TestView>)
    ensures
        exists|conditions: Seq<Condition>|
            conditions.len() == filter.len() && goes_on(
                sql,
                sql.tests(filter, filter.len()),
                where_text(conditions),
            ) && #[trigger] mean_the_filter(
                conditions,
                sql.tests(filter, filter.len()).params,
                filter,
            ),
{
    let n = filter.len();
    let conditions = conditions_of(sql, filter, n);
    tests_are_written(sql, filter, n);
    assert(filter.take(n as int) =~= filter);
    assert forall|scope: Scope|
        starts_with(scope.params, sql.tests(filter, n).params) && runs_are_distinct(
            scope.db,
        ) implies (#[trigger] all_accept(conditions, scope) <==> crate::model::passes_all(
        scope.db,
        scope.row,
        filter,
    )) by {
        conditions_accept_what_passes(sql, filter, n, scope);
    }
    assert(mean_the_filter(conditions, sql.tests(filter, n).params, filter));
}

/// Whether an expression is the meaning of what an assignment puts into a
/// column.
pub open spec fn means_the_source(
    e: Expression,
    params: Seq<ValueView>,
    table: Table,
    column: Column,
    source: SourceView,
) -> bool {
    forall|scope: Scope|
        starts_with(scope.params, params) && scope.table == table ==> #[trigger] e.value(scope)
            == crate::model::source_value(scope.row, scope.excluded, column, source)
}

spec fn source_expression(table: Table, column: Column, source: SourceView, n: nat) -> Expression {
    let stored = Box::new(Expression::Stored(table, column));
    let next = Box::new(Expression::Bound(n + 1));
    let offered = Box::new(Expression::Offered(column));
    match source {
        SourceView::Value(_) => *next,
        SourceView::Excluded => *offered,
        SourceView::Plus(_) => Expression::Sum(stored, next),
        SourceView::PlusExcluded => Expression::Sum(stored, offered),
        SourceView::Greatest(_) => Expression::Greatest(stored, next),
        SourceView::GreatestExcluded => Expression::Greatest(stored, offered),
        SourceView::ValueOrStored(_) => Expression::Coalesce(next, stored),
        SourceView::StoredOrValue(_) => Expression::Coalesce(stored, next),
        SourceView::ColumnPlus(other, _) => Expression::Sum(
            Box::new(Expression::Stored(table, other)),
            next,
        ),
    }
}

proof fn assignments_of_values(
    sql: SqlView,
    name: Seq<char>,
    t: Seq<char>,
    other: Seq<char>,
    v: ValueView,
)
    ensures
        ({
            let head = sql.text(name).text(" = "@);
            let start = name + " = "@;
            let next = bound(sql.params.len() + 1);
            let stored = t + "."@ + name;
            &&& goes_on(sql, head.param(v), start + next)
            &&& goes_on(
                sql,
                head.text(t).text("."@).text(name).text(" + "@).param(v),
                start + (stored + " + "@ + next),
            )
            &&& goes_on(
                sql,
                head.text(t).text("."@).text(other).text(" + "@).param(v),
                start + (t + "."@ + other + " + "@ + next),
            )
            &&& goes_on(
                sql,
                head.text("GREATEST("@).text(t).text("."@).text(name).text(", "@).param(v).text(
                    ")"@,
                ),
                start + ("GREATEST("@ + stored + ", "@ + next + ")"@),
            )
            &&& goes_on(
                sql,
                head.text("COALESCE("@).param(v).text(", "@).text(t).text("."@).text(name).text(
                    ")"@,
                ),
                start + ("COALESCE("@ + next + ", "@ + stored + ")"@),
            )
            &&& goes_on(
                sql,
                head.text("COALESCE("@).text(t).text("."@).text(name).text(", "@).param(v).text(
                    ")"@,
                ),
                start + ("COALESCE("@ + stored + ", "@ + next + ")"@),
            )
        }),
{
    broadcast use texts_are_put_together;

}

proof fn assignments_of_offered_values(sql: SqlView, name: Seq<char>, t: Seq<char>)
    ensures
        ({
            let head = sql.text(name).text(" = "@);
            let start = name + " = "@;
            let stored = t + "."@ + name;
            let offered = "EXCLUDED."@ + name;
            &&& goes_on(sql, head.text("EXCLUDED."@).text(name), start + offered)
            &&& goes_on(
                sql,
                head.text(t).text("."@).text(name).text(" + "@).text("EXCLUDED."@).text(name),
                start + (stored + " + "@ + offered),
            )
            &&& goes_on(
                sql,
                head.text("GREATEST("@).text(t).text("."@).text(name).text(", "@).text(
                    "EXCLUDED."@,
                ).text(name).text(")"@),
                start + ("GREATEST("@ + stored + ", "@ + offered + ")"@),
            )
        }),
{
    broadcast use texts_are_put_together;

}

#[verifier::rlimit(50)]
#[verifier::spinoff_prover]
proof fn an_assignment_is_written(sql: SqlView, table: Table, column: Column, source: SourceView)
    ensures
        goes_on(
            sql,
            sql.assignment(table, column, source),
            column.spec_name() + " = "@ + source_expression(
                table,
                column,
                source,
                sql.params.len(),
            ).text(),
        ),
{
    reveal_with_fuel(Expression::text, 2);
    let name = column.spec_name();
    let t = table.spec_name();
    match source {
        SourceView::Value(v) | SourceView::Plus(v) | SourceView::Greatest(v)
        | SourceView::ValueOrStored(v) | SourceView::StoredOrValue(v) => assignments_of_values(
            sql,
            name,
            t,
            name,
            v,
        ),
        SourceView::Excluded | SourceView::PlusExcluded | SourceView::GreatestExcluded => {
            assignments_of_offered_values(sql, name, t);
        },
        SourceView::ColumnPlus(other, v) => assignments_of_values(
            sql,
            name,
            t,
            other.spec_name(),
            v,
        ),
    }
}

proof fn an_assignment_has_its_value(
    sql: SqlView,
    table: Table,
    column: Column,
    source: SourceView,
)
    ensures
        means_the_source(
            source_expression(table, column, source, sql.params.len()),
            sql.assignment(table, column, source).params,
            table,
            column,
            source,
        ),
{
    reveal_with_fuel(Expression::value, 2);
    let n = sql.params.len();
    let e = source_expression(table, column, source, n);
    let to = sql.assignment(table, column, source);
    assert forall|scope: Scope|
        starts_with(scope.params, to.params) && scope.table == table implies #[trigger] e.value(
        scope,
    ) == crate::model::source_value(scope.row, scope.excluded, column, source) by {
        if to.params.len() > n {
            assert(scope.params[n as int] == to.params[n as int]);
        }
    }
}

/// The text of an assignment means the assignment: it is that of the column and
/// of an expression whose value is what the assignment puts there.
pub proof fn the_text_of_an_assignment_means_the_assignment(
    sql: SqlView,
    table: Table,
    column: Column,
    source: SourceView,
)
    ensures
        exists|e: Expression|
            goes_on(
                sql,
                sql.assignment(table, column, source),
                column.spec_name() + " = "@ + e.text(),
            ) && #[trigger] means_the_source(
                e,
                sql.assignment(table, column, source).params,
                table,
                column,
                source,
            ),
{
    an_assignment_is_written(sql, table, column, source);
    an_assignment_has_its_value(sql, table, column, source);
}

/// Whether an expression is the meaning of an operand.
pub open spec fn means_the_operand(
    e: Expression,
    params: Seq<ValueView>,
    operand: OperandView,
) -> bool {
    forall|scope: Scope|
        starts_with(scope.params, params) ==> #[trigger] e.value(scope)
            == crate::model::operand_value(scope.db, operand)
}

spec fn run_selection(wanted: Column, number: nat) -> Selection {
    Selection {
        wanted,
        table: Table::Runs,
        named: false,
        column: Column::RunId,
        number,
        present: Seq::empty(),
    }
}

spec fn operand_expression(operand: OperandView, n: nat) -> Expression {
    match operand {
        OperandView::Value(_) => Expression::Bound(n + 1),
        OperandView::RootRun { .. } => Expression::IfMissing(
            Box::new(Expression::Bound(n + 1)),
            Box::new(Expression::Bound(n + 2)),
            Box::new(Expression::FirstOf(run_selection(Column::RootRunId, n + 3))),
        ),
        OperandView::SessionOf { .. } => Expression::Coalesce(
            Box::new(Expression::Bound(n + 1)),
            Box::new(Expression::FirstOf(run_selection(Column::SessionId, n + 2))),
        ),
    }
}

proof fn run_selection_texts(number: nat)
    ensures
        " ELSE "@ + run_selection(Column::RootRunId, number).text() + " END"@
            == " ELSE (SELECT root_run_id FROM runs WHERE run_id = "@ + bound(number) + ") END"@,
        ", "@ + run_selection(Column::SessionId, number).text() + ")"@
            == ", (SELECT session_id FROM runs WHERE run_id = "@ + bound(number) + "))"@,
{
    reveal_strlit(" ELSE (SELECT root_run_id FROM runs WHERE run_id = ");
    reveal_strlit(", (SELECT session_id FROM runs WHERE run_id = ");
    reveal_strlit(") END");
    reveal_strlit("))");
    reveal_strlit(" ELSE ");
    reveal_strlit(" END");
    reveal_strlit(", ");
    reveal_strlit(")");
    reveal_strlit("");
    reveal_strlit("run_id");
    reveal_strlit(" = ");
    reveal_strlit("(SELECT ");
    reveal_strlit("root_run_id");
    reveal_strlit("session_id");
    reveal_strlit(" FROM ");
    reveal_strlit("runs");
    reveal_strlit(" WHERE ");
    let root = run_selection(Column::RootRunId, number);
    let session = run_selection(Column::SessionId, number);
    let head = " ELSE "@ + "(SELECT "@ + ""@ + "root_run_id"@ + " FROM "@ + "runs"@ + ""@
        + " WHERE "@ + ""@ + "run_id"@ + " = "@;
    assert(head =~= " ELSE (SELECT root_run_id FROM runs WHERE run_id = "@);
    assert(")"@ + " END"@ =~= ") END"@);
    assert(" ELSE "@ + root.text() + " END"@ =~= head + bound(number) + (")"@ + " END"@));
    let other = ", "@ + "(SELECT "@ + ""@ + "session_id"@ + " FROM "@ + "runs"@ + ""@ + " WHERE "@
        + ""@ + "run_id"@ + " = "@;
    assert(other =~= ", (SELECT session_id FROM runs WHERE run_id = "@);
    assert(")"@ + ")"@ =~= "))"@);
    assert(", "@ + session.text() + ")"@ =~= other + bound(number) + (")"@ + ")"@));
}

proof fn a_looked_up_root(
    sql: SqlView,
    a: ValueView,
    b: ValueView,
    c: ValueView,
    from: Seq<char>,
    to: Seq<char>,
    selection: Seq<char>,
)
    requires
        " ELSE "@ + selection + " END"@ == from + bound(sql.params.len() + 3) + to,
    ensures
        goes_on(
            sql,
            sql.text("CASE WHEN "@).param(a).text("::TEXT IS NULL THEN "@).param(b).text(from).param(
                c,
            ).text(to),
            "CASE WHEN "@ + bound(sql.params.len() + 1) + "::TEXT IS NULL THEN "@ + bound(
                sql.params.len() + 2,
            ) + " ELSE "@ + selection + " END"@,
        ),
{
    broadcast use texts_are_put_together;

}

proof fn a_looked_up_session(
    sql: SqlView,
    a: ValueView,
    b: ValueView,
    from: Seq<char>,
    to: Seq<char>,
    selection: Seq<char>,
)
    requires
        ", "@ + selection + ")"@ == from + bound(sql.params.len() + 2) + to,
    ensures
        goes_on(
            sql,
            sql.text("COALESCE("@).param(a).text(from).param(b).text(to),
            "COALESCE("@ + bound(sql.params.len() + 1) + ", "@ + selection + ")"@,
        ),
{
    broadcast use texts_are_put_together;

}

proof fn an_operand_is_written(sql: SqlView, operand: OperandView)
    ensures
        goes_on(sql, sql.operand(operand), operand_expression(operand, sql.params.len()).text()),
{
    reveal_with_fuel(Expression::text, 2);
    let n = sql.params.len();
    match operand {
        OperandView::Value(_) => {
            texts_are_put_together(sql.text, "$"@, crate::text::decimal(n + 1));
        },
        OperandView::RootRun { run_id, parent_run_id } => {
            run_selection_texts(n + 3);
            a_looked_up_root(
                sql,
                ValueView::opt_seq(parent_run_id),
                ValueView::Text(run_id),
                ValueView::opt_seq(parent_run_id),
                " ELSE (SELECT root_run_id FROM runs WHERE run_id = "@,
                ") END"@,
                run_selection(Column::RootRunId, n + 3).text(),
            );
        },
        OperandView::SessionOf { session_id, parent_run_id } => {
            run_selection_texts(n + 2);
            a_looked_up_session(
                sql,
                ValueView::opt_seq(session_id),
                ValueView::opt_seq(parent_run_id),
                ", (SELECT session_id FROM runs WHERE run_id = "@,
                "))"@,
                run_selection(Column::SessionId, n + 2).text(),
            );
        },
    }
}

proof fn an_operand_has_its_value(sql: SqlView, operand: OperandView)
    ensures
        means_the_operand(
            operand_expression(operand, sql.params.len()),
            sql.operand(operand).params,
            operand,
        ),
{
    reveal_with_fuel(Expression::value, 2);
    let n = sql.params.len();
    let e = operand_expression(operand, n);
    let to = sql.operand(operand);
    assert forall|scope: Scope| starts_with(scope.params, to.params) implies #[trigger] e.value(
        scope,
    ) == crate::model::operand_value(scope.db, operand) by {
        let runs = scope.db.rows(Table::Runs);
        assert(scope.params[n as int] == to.params[n as int]);
        match operand {
            OperandView::Value(_) => {},
            OperandView::RootRun { run_id, parent_run_id } => {
                assert(scope.params[(n + 1) as int] == to.params[(n + 1) as int]);
                assert(scope.params[(n + 2) as int] == to.params[(n + 2) as int]);
                if let Some(parent) = parent_run_id {
                    the_first_run_with_an_id(
                        runs,
                        scope.params,
                        run_selection(Column::RootRunId, n + 3),
                        parent,
                    );
                }
            },
            OperandView::SessionOf { session_id, parent_run_id } => {
                assert(scope.params[(n + 1) as int] == to.params[(n + 1) as int]);
                let s = run_selection(Column::SessionId, n + 2);
                match parent_run_id {
                    Some(parent) => the_first_run_with_an_id(runs, scope.params, s, parent),
                    None => no_run_is_selected(runs, scope.params, s),
                }
            },
        }
    }
}

/// The text of an operand means the operand: it is that of an expression with
/// the operand's value.
pub proof fn the_text_of_an_operand_means_the_operand(sql: SqlView, operand: OperandView)
    ensures
        exists|e: Expression|
            goes_on(sql, sql.operand(operand), e.text()) && #[trigger] means_the_operand(
                e,
                sql.operand(operand).params,
                operand,
            ),
{
    an_operand_is_written(sql, operand);
    an_operand_has_its_value(sql, operand);
}

/// Whether a condition is the meaning of the guard of a merge.
pub open spec fn means_the_guard(
    condition: Condition,
    params: Seq<ValueView>,
    table: Table,
    guard: GuardView,
) -> bool {
    forall|scope: Scope|
        starts_with(scope.params, params) && scope.table == table ==> (
        #[trigger] condition.accepts(scope) <==> crate::model::allowed(
            scope.row,
            scope.excluded,
            guard,
        ))
}

spec fn guard_condition(table: Table, guard: GuardView, n: nat) -> Condition {
    match guard {
        GuardView::Always => Condition::Missing(Expression::Bound(0)),
        GuardView::SameAsExcluded(c) => Condition::Compared(
            Comparison::Equal,
            Expression::Stored(table, c),
            Expression::Offered(c),
        ),
        GuardView::StoredIs(c, _) => Condition::Compared(
            Comparison::Equal,
            Expression::Stored(table, c),
            Expression::Bound(n + 1),
        ),
        GuardView::ExcludedAtLeastStored(c) => Condition::Compared(
            Comparison::GreaterOrEqual,
            Expression::Offered(c),
            Expression::Stored(table, c),
        ),
    }
}

proof fn guards_are_written(sql: SqlView, name: Seq<char>, t: Seq<char>, v: ValueView)
    ensures
        ({
            let head = sql.text(" WHERE "@);
            let stored = t + "."@ + name;
            let offered = "EXCLUDED."@ + name;
            &&& goes_on(
                sql,
                head.text(t).text("."@).text(name).text(" = "@).text("EXCLUDED."@).text(name),
                " WHERE "@ + (stored + " = "@ + offered),
            )
            &&& goes_on(
                sql,
                head.text(t).text("."@).text(name).text(" = "@).param(v),
                " WHERE "@ + (stored + " = "@ + bound(sql.params.len() + 1)),
            )
            &&& goes_on(
                sql,
                head.text("EXCLUDED."@).text(name).text(" >= "@).text(t).text("."@).text(name),
                " WHERE "@ + (offered + " >= "@ + stored),
            )
        }),
{
    broadcast use texts_are_put_together;

}

proof fn a_guard_is_written(sql: SqlView, table: Table, guard: GuardView)
    requires
        !(guard is Always),
    ensures
        goes_on(
            sql,
            sql.guard(table, guard),
            " WHERE "@ + guard_condition(table, guard, sql.params.len()).text(),
        ),
{
    let t = table.spec_name();
    match guard {
        GuardView::Always => {},
        GuardView::SameAsExcluded(c) | GuardView::ExcludedAtLeastStored(c) => {
            guards_are_written(sql, c.spec_name(), t, ValueView::Bool(true));
        },
        GuardView::StoredIs(c, v) => guards_are_written(sql, c.spec_name(), t, v),
    }
}

/// The text of a guard means the guard: there is none where a merge always
/// changes the stored row, and else it is a `WHERE` clause that accepts the rows
/// which the merge changes, and no others.
pub proof fn the_text_of_a_guard_means_the_guard(sql: SqlView, table: Table, guard: GuardView)
    ensures
        guard is Always ==> sql.guard(table, guard) == sql && forall|was: Row, offered: Row|
            #[trigger] crate::model::allowed(was, offered, guard),
        !(guard is Always) ==> exists|condition: Condition|
            goes_on(sql, sql.guard(table, guard), " WHERE "@ + condition.text())
                && #[trigger] means_the_guard(
                condition,
                sql.guard(table, guard).params,
                table,
                guard,
            ),
{
    let n = sql.params.len();
    let condition = guard_condition(table, guard, n);
    let to = sql.guard(table, guard);
    if !(guard is Always) {
        a_guard_is_written(sql, table, guard);
        assert forall|scope: Scope|
            starts_with(scope.params, to.params) && scope.table == table implies (
        #[trigger] condition.accepts(scope) <==> crate::model::allowed(
            scope.row,
            scope.excluded,
            guard,
        )) by {
            if to.params.len() > n {
                assert(scope.params[n as int] == to.params[n as int]);
            }
        }
        assert(means_the_guard(condition, to.params, table, guard));
    }
}

proof fn going_on_twice(a: SqlView, b: SqlView, c: SqlView, first: Seq<char>, second: Seq<char>)
    requires
        goes_on(a, b, first),
        goes_on(b, c, second),
    ensures
        goes_on(a, c, first + second),
{
    texts_are_put_together(a.text, first, second);
    starting_is_transitive(a.params, b.params, c.params);
}

proof fn more_parameters_keep_an_operand(
    e: Expression,
    params: Seq<ValueView>,
    more: Seq<ValueView>,
    operand: OperandView,
)
    requires
        means_the_operand(e, params, operand),
        starts_with(more, params),
    ensures
        means_the_operand(e, more, operand),
{
    assert forall|scope: Scope| starts_with(scope.params, more) implies #[trigger] e.value(scope)
        == crate::model::operand_value(scope.db, operand) by {
        starting_is_transitive(params, more, scope.params);
    }
}

proof fn more_parameters_keep_a_source(
    e: Expression,
    params: Seq<ValueView>,
    more: Seq<ValueView>,
    table: Table,
    column: Column,
    source: SourceView,
)
    requires
        means_the_source(e, params, table, column, source),
        starts_with(more, params),
    ensures
        means_the_source(e, more, table, column, source),
{
    assert forall|scope: Scope|
        starts_with(scope.params, more) && scope.table == table implies #[trigger] e.value(scope)
        == crate::model::source_value(scope.row, scope.excluded, column, source) by {
        starting_is_transitive(params, more, scope.params);
    }
}

proof fn more_parameters_keep_a_filter(
    conditions: Seq<Condition>,
    params: Seq<ValueView>,
    more: Seq<ValueView>,
    filter: Seq<TestView>,
)
    requires
        mean_the_filter(conditions, params, filter),
        starts_with(more, params),
    ensures
        mean_the_filter(conditions, more, filter),
{
    assert forall|scope: Scope|
        starts_with(scope.params, more) && runs_are_distinct(scope.db) implies (
    #[trigger] all_accept(conditions, scope) <==> crate::model::passes_all(
        scope.db,
        scope.row,
        filter,
    )) by {
        starting_is_transitive(params, more, scope.params);
    }
}

proof fn columns_are_listed(sql: SqlView, columns: Seq<Column>, n: nat)
    requires
        n <= columns.len(),
    ensures
        goes_on(
            sql,
            sql.columns(columns, n),
            joined(column_names(columns.take(n as int)), ", "@),
        ),
        sql.columns(columns, n).params == sql.params,
    decreases n,
{
    let names = column_names(columns.take(n as int));
    if n == 0 {
        assert(sql.text + joined(names, ", "@) =~= sql.text);
    } else {
        let m = (n - 1) as nat;
        columns_are_listed(sql, columns, m);
        let before = column_names(columns.take(m as int));
        let last = columns[m as int].spec_name();
        assert(names =~= before.push(last));
        a_list_grows(before, last, ", "@);
        a_listed_text(sql, sql.columns(columns, m), m, joined(before, ", "@), last);
    }
}

proof fn a_listed_text(
    sql: SqlView,
    before: SqlView,
    listed: nat,
    text: Seq<char>,
    last: Seq<char>,
)
    requires
        goes_on(sql, before, text),
        listed == 0 ==> text.len() == 0,
    ensures
        goes_on(
            sql,
            before.comma(listed).text(last),
            if listed == 0 {
                last
            } else {
                text + ", "@ + last
            },
        ),
{
    broadcast use texts_are_put_together;

    if listed == 0 {
        assert(text =~= Seq::empty());
        assert(sql.text + text =~= sql.text);
    }
}

/// The columns of cells.
pub open spec fn cell_columns(cells: Seq<(Column, OperandView)>) -> Seq<Column> {
    cells.map_values(|c: (Column, OperandView)| c.0)
}

proof fn cell_columns_are_listed(sql: SqlView, cells: Seq<(Column, OperandView)>, n: nat)
    requires
        n <= cells.len(),
    ensures
        sql.cell_columns(cells, n) == sql.columns(cell_columns(cells), n),
    decreases n,
{
    if n > 0 {
        cell_columns_are_listed(sql, cells, (n - 1) as nat);
    }
}

/// The texts of expressions.
pub open spec fn expression_texts(values: Seq<Expression>) -> Seq<Seq<char>> {
    values.map_values(|e: Expression| e.text())
}

spec fn operand_expressions(sql: SqlView, cells: Seq<(Column, OperandView)>, n: nat) -> Seq<
    Expression,
>
    decreases n,
{
    if n == 0 {
        Seq::empty()
    } else {
        let m = (n - 1) as nat;
        operand_expressions(sql, cells, m).push(
            operand_expression(cells[m as int].1, sql.operands(cells, m).params.len()),
        )
    }
}

proof fn operands_are_listed(sql: SqlView, cells: Seq<(Column, OperandView)>, n: nat)
    requires
        n <= cells.len(),
    ensures
        operand_expressions(sql, cells, n).len() == n,
        goes_on(
            sql,
            sql.operands(cells, n),
            joined(expression_texts(operand_expressions(sql, cells, n)), ", "@),
        ),
        forall|i: int|
            0 <= i < n ==> means_the_operand(
                #[trigger] operand_expressions(sql, cells, n)[i],
                sql.operands(cells, n).params,
                cells[i].1,
            ),
    decreases n,
{
    let all = operand_expressions(sql, cells, n);
    if n == 0 {
        assert(sql.text + joined(expression_texts(all), ", "@) =~= sql.text);
    } else {
        let m = (n - 1) as nat;
        operands_are_listed(sql, cells, m);
        let earlier = operand_expressions(sql, cells, m);
        let before = sql.operands(cells, m);
        let head = before.comma(m);
        let operand = cells[m as int].1;
        let to = sql.operands(cells, n);
        an_operand_is_written(head, operand);
        an_operand_has_its_value(head, operand);
        let texts = expression_texts(earlier);
        let last = operand_expression(operand, head.params.len()).text();
        assert(expression_texts(all) =~= texts.push(last));
        a_list_grows(texts, last, ", "@);
        comma_goes_on(before, m);
        let comma = if m == 0 {
            Seq::<char>::empty()
        } else {
            ", "@
        };
        going_on_twice(sql, before, head, joined(texts, ", "@), comma);
        going_on_twice(sql, head, to, joined(texts, ", "@) + comma, last);
        if m == 0 {
            assert(joined(texts, ", "@) + comma + last =~= last);
        }
        assert forall|i: int| 0 <= i < n implies means_the_operand(
            #[trigger] all[i],
            to.params,
            cells[i].1,
        ) by {
            if i < m {
                assert(all[i] == earlier[i]);
                starting_is_transitive(before.params, head.params, to.params);
                more_parameters_keep_an_operand(all[i], before.params, to.params, cells[i].1);
            }
        }
    }
}

proof fn comma_goes_on(sql: SqlView, listed: nat)
    ensures
        goes_on(
            sql,
            sql.comma(listed),
            if listed == 0 {
                Seq::<char>::empty()
            } else {
                ", "@
            },
        ),
{
    assert(sql.text + Seq::<char>::empty() =~= sql.text);
}

spec fn source_expressions(
    sql: SqlView,
    table: Table,
    set: Seq<(Column, SourceView)>,
    n: nat,
) -> Seq<Expression>
    decreases n,
{
    if n == 0 {
        Seq::empty()
    } else {
        let m = (n - 1) as nat;
        source_expressions(sql, table, set, m).push(
            source_expression(
                table,
                set[m as int].0,
                set[m as int].1,
                sql.assignments(table, set, m).params.len(),
            ),
        )
    }
}

/// The text of assignments.
pub open spec fn assignments_text(columns: Seq<Column>, values: Seq<Expression>) -> Seq<char> {
    joined(
        Seq::new(
            columns.len(),
            |i: int| columns[i].spec_name() + " = "@ + values[i].text(),
        ),
        ", "@,
    )
}

/// The columns of assignments.
pub open spec fn set_columns(set: Seq<(Column, SourceView)>) -> Seq<Column> {
    set.map_values(|a: (Column, SourceView)| a.0)
}

/// Whether expressions are the meaning of assignments.
pub open spec fn mean_the_set(
    values: Seq<Expression>,
    params: Seq<ValueView>,
    table: Table,
    set: Seq<(Column, SourceView)>,
) -> bool {
    values.len() == set.len() && forall|i: int|
        0 <= i < set.len() ==> means_the_source(
            #[trigger] values[i],
            params,
            table,
            set[i].0,
            set[i].1,
        )
}

proof fn assignments_are_listed(
    sql: SqlView,
    table: Table,
    set: Seq<(Column, SourceView)>,
    n: nat,
)
    requires
        n <= set.len(),
    ensures
        goes_on(
            sql,
            sql.assignments(table, set, n),
            assignments_text(
                set_columns(set.take(n as int)),
                source_expressions(sql, table, set, n),
            ),
        ),
        mean_the_set(
            source_expressions(sql, table, set, n),
            sql.assignments(table, set, n).params,
            table,
            set.take(n as int),
        ),
    decreases n,
{
    let all = source_expressions(sql, table, set, n);
    let columns = set_columns(set.take(n as int));
    let texts = Seq::new(
        columns.len(),
        |i: int| columns[i].spec_name() + " = "@ + all[i].text(),
    );
    if n == 0 {
        assert(sql.text + joined(texts, ", "@) =~= sql.text);
    } else {
        let m = (n - 1) as nat;
        assignments_are_listed(sql, table, set, m);
        let earlier = source_expressions(sql, table, set, m);
        let before = sql.assignments(table, set, m);
        let head = before.comma(m);
        let column = set[m as int].0;
        let source = set[m as int].1;
        let to = sql.assignments(table, set, n);
        an_assignment_is_written(head, table, column, source);
        an_assignment_has_its_value(head, table, column, source);
        let front = set_columns(set.take(m as int));
        let front_texts = Seq::new(
            front.len(),
            |i: int| front[i].spec_name() + " = "@ + earlier[i].text(),
        );
        let last = column.spec_name() + " = "@ + source_expression(
            table,
            column,
            source,
            head.params.len(),
        ).text();
        assert(texts =~= front_texts.push(last)) by {
            assert forall|i: int| 0 <= i < texts.len() implies texts[i] == front_texts.push(
                last,
            )[i] by {
                if i < m {
                    assert(columns[i] == front[i]);
                    assert(all[i] == earlier[i]);
                }
            }
        }
        a_list_grows(front_texts, last, ", "@);
        comma_goes_on(before, m);
        let comma = if m == 0 {
            Seq::<char>::empty()
        } else {
            ", "@
        };
        going_on_twice(sql, before, head, joined(front_texts, ", "@), comma);
        going_on_twice(sql, head, to, joined(front_texts, ", "@) + comma, last);
        if m == 0 {
            assert(joined(front_texts, ", "@) + comma + last =~= last);
        }
        let tests = set.take(n as int);
        assert forall|i: int| 0 <= i < tests.len() implies means_the_source(
            #[trigger] all[i],
            to.params,
            table,
            tests[i].0,
            tests[i].1,
        ) by {
            if i < m {
                assert(all[i] == earlier[i]);
                assert(set.take(m as int)[i] == tests[i]);
                starting_is_transitive(before.params, head.params, to.params);
                more_parameters_keep_a_source(
                    all[i],
                    before.params,
                    to.params,
                    table,
                    tests[i].0,
                    tests[i].1,
                );
            }
        }
    }
}

/// The text of an update means the update: it names the table, gives each column
/// of the update the value of its assignment, and its conditions accept the rows
/// that pass the filter.
pub proof fn the_text_of_an_update_means_the_update(
    table: Table,
    set: Seq<(Column, SourceView)>,
    filter: Seq<TestView>,
)
    ensures
        ({
            let sql = (StatementView::Update { table, set, filter }).sql();
            exists|values: Seq<Expression>, conditions: Seq<Condition>|
                sql.text == "UPDATE "@ + table.spec_name() + " SET "@ + assignments_text(
                    set_columns(set),
                    values,
                ) + where_text(conditions) && #[trigger] mean_the_set(
                    values,
                    sql.params,
                    table,
                    set,
                ) && #[trigger] mean_the_filter(conditions, sql.params, filter)
        }),
{
    let sql = (StatementView::Update { table, set, filter }).sql();
    let head = SqlView::new().text("UPDATE "@).text(table.spec_name()).text(" SET "@);
    let body = head.assignments(table, set, set.len());
    let values = source_expressions(head, table, set, set.len());
    let conditions = conditions_of(body, filter, filter.len());
    assignments_are_listed(head, table, set, set.len());
    assert(set.take(set.len() as int) =~= set);
    tests_are_written(body, filter, filter.len());
    the_conditions_mean_the_filter(body, filter);
    assert forall|i: int| 0 <= i < set.len() implies means_the_source(
        #[trigger] values[i],
        sql.params,
        table,
        set[i].0,
        set[i].1,
    ) by {
        more_parameters_keep_a_source(
            values[i],
            body.params,
            sql.params,
            table,
            set[i].0,
            set[i].1,
        );
    }
    assert(mean_the_set(values, sql.params, table, set));
    assert(mean_the_filter(conditions, sql.params, filter));
    an_update_is_put_together(
        table.spec_name(),
        assignments_text(set_columns(set), values),
        where_text(conditions),
        head.text,
        body.text,
        sql.text,
    );
}

proof fn an_update_is_put_together(
    t: Seq<char>,
    a: Seq<char>,
    w: Seq<char>,
    head: Seq<char>,
    body: Seq<char>,
    all: Seq<char>,
)
    requires
        head == SqlView::new().text("UPDATE "@).text(t).text(" SET "@).text,
        body == head + a,
        all == body + w,
    ensures
        all == "UPDATE "@ + t + " SET "@ + a + w,
{
    assert(Seq::<char>::empty() + "UPDATE "@ =~= "UPDATE "@);
}

proof fn the_conditions_mean_the_filter(sql: SqlView, filter: Seq<TestView>)
    ensures
        mean_the_filter(
            conditions_of(sql, filter, filter.len()),
            sql.tests(filter, filter.len()).params,
            filter,
        ),
{
    let n = filter.len();
    let conditions = conditions_of(sql, filter, n);
    assert(filter.take(n as int) =~= filter);
    assert forall|scope: Scope|
        starts_with(scope.params, sql.tests(filter, n).params) && runs_are_distinct(
            scope.db,
        ) implies (#[trigger] all_accept(conditions, scope) <==> crate::model::passes_all(
        scope.db,
        scope.row,
        filter,
    )) by {
        conditions_accept_what_passes(sql, filter, n, scope);
    }
}

/// The text of a delete means the delete: it names the table, and its conditions
/// accept the rows that pass the filter.
pub proof fn the_text_of_a_delete_means_the_delete(table: Table, filter: Seq<TestView>)
    ensures
        ({
            let sql = (StatementView::Delete { table, filter }).sql();
            exists|conditions: Seq<Condition>|
                sql.text == "DELETE FROM "@ + table.spec_name() + where_text(conditions)
                    && #[trigger] mean_the_filter(conditions, sql.params, filter)
        }),
{
    let sql = (StatementView::Delete { table, filter }).sql();
    let head = SqlView::new().text("DELETE FROM "@).text(table.spec_name());
    let conditions = conditions_of(head, filter, filter.len());
    tests_are_written(head, filter, filter.len());
    the_conditions_mean_the_filter(head, filter);
    assert(Seq::<char>::empty() + "DELETE FROM "@ =~= "DELETE FROM "@);
    assert(mean_the_filter(conditions, sql.params, filter));
}

/// What an insert does where a row with the same key is stored, as it is written.
pub enum Rule {
    Fails,
    Ignores(Seq<Column>),
    Merges(Seq<Column>, Seq<Column>, Seq<Expression>, Option<Condition>),
}

impl Rule {
    /// The text of the rule.
    pub open spec fn text(self) -> Seq<char> {
        match self {
            Rule::Fails => Seq::empty(),
            Rule::Ignores(key) => " ON CONFLICT ("@ + joined(column_names(key), ", "@)
                + ") DO NOTHING"@,
            Rule::Merges(key, columns, values, guard) => " ON CONFLICT ("@ + joined(
                column_names(key),
                ", "@,
            ) + ") DO UPDATE SET "@ + assignments_text(columns, values) + match guard {
                Some(condition) => " WHERE "@ + condition.text(),
                None => Seq::empty(),
            },
        }
    }

    /// Whether the rule is the meaning of a conflict rule.
    pub open spec fn means(
        self,
        params: Seq<ValueView>,
        table: Table,
        conflict: ConflictView,
    ) -> bool {
        match (self, conflict) {
            (Rule::Fails, ConflictView::Fail) => true,
            (Rule::Ignores(key), ConflictView::Ignore(wanted)) => key == wanted,
            (
                Rule::Merges(key, columns, values, condition),
                ConflictView::Merge { key: wanted, set, guard },
            ) => {
                &&& key == wanted
                &&& columns == set_columns(set)
                &&& mean_the_set(values, params, table, set)
                &&& match condition {
                    Some(c) => means_the_guard(c, params, table, guard),
                    None => guard is Always,
                }
            },
            _ => false,
        }
    }
}

spec fn rule_of(sql: SqlView, table: Table, conflict: ConflictView) -> Rule {
    match conflict {
        ConflictView::Fail => Rule::Fails,
        ConflictView::Ignore(key) => Rule::Ignores(key),
        ConflictView::Merge { key, set, guard } => {
            let head = sql.text(" ON CONFLICT ("@).columns(key, key.len()).text(
                ") DO UPDATE SET "@,
            );
            let body = head.assignments(table, set, set.len());
            Rule::Merges(
                key,
                set_columns(set),
                source_expressions(head, table, set, set.len()),
                if guard is Always {
                    None
                } else {
                    Some(guard_condition(table, guard, body.params.len()))
                },
            )
        },
    }
}

proof fn a_conflict_is_written(sql: SqlView, table: Table, conflict: ConflictView)
    ensures
        goes_on(sql, sql.conflict(table, conflict), rule_of(sql, table, conflict).text()),
        rule_of(sql, table, conflict).means(sql.conflict(table, conflict).params, table, conflict),
{
    match conflict {
        ConflictView::Fail => {
            assert(sql.text + Seq::<char>::empty() =~= sql.text);
        },
        ConflictView::Ignore(key) => {
            let start = sql.text(" ON CONFLICT ("@);
            columns_are_listed(start, key, key.len());
            assert(key.take(key.len() as int) =~= key);
            let list = start.columns(key, key.len());
            let names = joined(column_names(key), ", "@);
            going_on_twice(sql, start, list, " ON CONFLICT ("@, names);
            going_on_twice(
                sql,
                list,
                list.text(") DO NOTHING"@),
                " ON CONFLICT ("@ + names,
                ") DO NOTHING"@,
            );
        },
        ConflictView::Merge { key, set, guard } => {
            let start = sql.text(" ON CONFLICT ("@);
            columns_are_listed(start, key, key.len());
            assert(key.take(key.len() as int) =~= key);
            let list = start.columns(key, key.len());
            let names = joined(column_names(key), ", "@);
            going_on_twice(sql, start, list, " ON CONFLICT ("@, names);
            let head = list.text(") DO UPDATE SET "@);
            going_on_twice(sql, list, head, " ON CONFLICT ("@ + names, ") DO UPDATE SET "@);
            let body = head.assignments(table, set, set.len());
            let values = source_expressions(head, table, set, set.len());
            assignments_are_listed(head, table, set, set.len());
            assert(set.take(set.len() as int) =~= set);
            let assigned = assignments_text(set_columns(set), values);
            let before = " ON CONFLICT ("@ + names + ") DO UPDATE SET "@;
            going_on_twice(sql, head, body, before, assigned);
            let to = body.guard(table, guard);
            if guard is Always {
                assert(before + assigned + Seq::<char>::empty() =~= before + assigned);
            } else {
                a_guard_is_written(body, table, guard);
                a_guard_accepts_what_it_allows(body, table, guard);
                going_on_twice(
                    sql,
                    body,
                    to,
                    before + assigned,
                    " WHERE "@ + guard_condition(table, guard, body.params.len()).text(),
                );
            }
            assert forall|i: int| 0 <= i < set.len() implies means_the_source(
                #[trigger] values[i],
                to.params,
                table,
                set[i].0,
                set[i].1,
            ) by {
                more_parameters_keep_a_source(
                    values[i],
                    body.params,
                    to.params,
                    table,
                    set[i].0,
                    set[i].1,
                );
            }
        },
    }
}

proof fn a_guard_accepts_what_it_allows(sql: SqlView, table: Table, guard: GuardView)
    requires
        !(guard is Always),
    ensures
        means_the_guard(
            guard_condition(table, guard, sql.params.len()),
            sql.guard(table, guard).params,
            table,
            guard,
        ),
{
    let n = sql.params.len();
    let condition = guard_condition(table, guard, n);
    let to = sql.guard(table, guard);
    assert forall|scope: Scope|
        starts_with(scope.params, to.params) && scope.table == table implies (
    #[trigger] condition.accepts(scope) <==> crate::model::allowed(
        scope.row,
        scope.excluded,
        guard,
    )) by {
        if to.params.len() > n {
            assert(scope.params[n as int] == to.params[n as int]);
        }
    }
}

/// Whether expressions are the meaning of cells, one by one.
pub open spec fn mean_the_cells(
    values: Seq<Expression>,
    params: Seq<ValueView>,
    cells: Seq<(Column, OperandView)>,
) -> bool {
    values.len() == cells.len() && forall|i: int|
        0 <= i < cells.len() ==> means_the_operand(#[trigger] values[i], params, cells[i].1)
}

/// The text of an insert means the insert: it names the table, lists the columns
/// of the cells and, in the same order, expressions with their values, and ends
/// with its conflict rule.
pub proof fn the_text_of_an_insert_means_the_insert(
    table: Table,
    cells: Seq<(Column, OperandView)>,
    conflict: ConflictView,
)
    ensures
        ({
            let sql = (StatementView::Insert { table, cells, conflict }).sql();
            exists|values: Seq<Expression>, rule: Rule|
                sql.text == "INSERT INTO "@ + table.spec_name() + " ("@ + joined(
                    column_names(cell_columns(cells)),
                    ", "@,
                ) + ") VALUES ("@ + joined(expression_texts(values), ", "@) + ")"@ + rule.text()
                    && #[trigger] mean_the_cells(values, sql.params, cells) && #[trigger] rule.means(
                    sql.params,
                    table,
                    conflict,
                )
        }),
{
    let sql = (StatementView::Insert { table, cells, conflict }).sql();
    let n = cells.len();
    let start = SqlView::new().text("INSERT INTO "@).text(table.spec_name()).text(" ("@);
    let listed = start.cell_columns(cells, n);
    let head = listed.text(") VALUES ("@);
    let body = head.operands(cells, n);
    let closed = body.text(")"@);
    let columns = cell_columns(cells);
    cell_columns_are_listed(start, cells, n);
    columns_are_listed(start, columns, n);
    assert(columns.take(n as int) =~= columns);
    operands_are_listed(head, cells, n);
    let values = operand_expressions(head, cells, n);
    let rule = rule_of(closed, table, conflict);
    a_conflict_is_written(closed, table, conflict);
    assert forall|i: int| 0 <= i < cells.len() implies means_the_operand(
        #[trigger] values[i],
        sql.params,
        cells[i].1,
    ) by {
        more_parameters_keep_an_operand(values[i], body.params, sql.params, cells[i].1);
    }
    assert(mean_the_cells(values, sql.params, cells));
    assert(rule.means(sql.params, table, conflict));
    assert(Seq::<char>::empty() + "INSERT INTO "@ =~= "INSERT INTO "@);
}

/// The text of the keys of an order.
pub open spec fn order_text(order: Seq<Order>) -> Seq<char> {
    if order.len() == 0 {
        Seq::empty()
    } else {
        " ORDER BY "@ + joined(
            order.map_values(
                |o: Order|
                    match o {
                        Order::Ascending(c) => c.spec_name() + " ASC"@,
                        Order::Descending(c) => c.spec_name() + " DESC"@,
                    },
            ),
            ", "@,
        )
    }
}

proof fn an_order_is_written(sql: SqlView, order: Seq<Order>, n: nat)
    requires
        n <= order.len(),
    ensures
        goes_on(sql, sql.ordered(order, n), order_text(order.take(n as int))),
        sql.ordered(order, n).params == sql.params,
    decreases n,
{
    let keys = order.take(n as int);
    let text = |o: Order|
        match o {
            Order::Ascending(c) => c.spec_name() + " ASC"@,
            Order::Descending(c) => c.spec_name() + " DESC"@,
        };
    if n == 0 {
        assert(sql.text + order_text(keys) =~= sql.text);
    } else {
        let m = (n - 1) as nat;
        an_order_is_written(sql, order, m);
        let before = sql.ordered(order, m);
        let front = order.take(m as int);
        let texts = front.map_values(text);
        let last = text(order[m as int]);
        assert(keys.map_values(text) =~= texts.push(last));
        a_list_grows(texts, last, ", "@);
        let word = if n == 1 {
            " ORDER BY "@
        } else {
            ", "@
        };
        let head = before.text(word);
        let to = sql.ordered(order, n);
        match order[m as int] {
            Order::Ascending(c) => two_texts(head, c.spec_name(), " ASC"@),
            Order::Descending(c) => two_texts(head, c.spec_name(), " DESC"@),
        }
        going_on_twice(sql, before, head, order_text(front), word);
        going_on_twice(sql, head, to, order_text(front) + word, last);
        if m == 0 {
            assert(order_text(front) + word + last =~= word + last);
        } else {
            texts_are_put_together(" ORDER BY "@, joined(texts, ", "@), word);
            texts_are_put_together(" ORDER BY "@, joined(texts, ", "@) + word, last);
        }
    }
}

/// The text of a bound, with the number of the parameter that holds it.
pub open spec fn bound_text(keyword: Seq<char>, limit: Option<i64>, number: nat) -> Seq<char> {
    match limit {
        Some(_) => keyword + bound(number),
        None => Seq::empty(),
    }
}

/// Whether a parameter holds a bound, where there is one.
pub open spec fn holds_bound(params: Seq<ValueView>, limit: Option<i64>, number: nat) -> bool {
    limit is Some ==> 1 <= number <= params.len() && params[number - 1] == ValueView::Int8(
        limit->Some_0,
    )
}

proof fn a_bound_is_written(sql: SqlView, keyword: Seq<char>, limit: Option<i64>)
    ensures
        goes_on(
            sql,
            sql.bounded(keyword, limit),
            bound_text(keyword, limit, sql.params.len() + 1),
        ),
        holds_bound(sql.bounded(keyword, limit).params, limit, sql.params.len() + 1),
{
    broadcast use texts_are_put_together;

    assert(sql.text + Seq::<char>::empty() =~= sql.text);
}

/// The text of a query means the query: it asks for the query's output from its
/// table, its conditions accept the rows that pass the filter, and its order, its
/// limit and its offset are the query's.
pub proof fn the_text_of_a_query_means_the_query(query: QueryView)
    ensures
        exists|conditions: Seq<Condition>, limit: nat, offset: nat|
            query.sql().text == (match query.output {
                OutputView::Rows(columns) => "SELECT "@ + joined(column_names(columns), ", "@),
                OutputView::Exists => "SELECT EXISTS(SELECT 1"@,
                OutputView::Count => "SELECT COUNT(*)"@,
                OutputView::Locked(c) => "SELECT "@ + c.spec_name(),
                OutputView::NextAfterGreatest(c) => "SELECT COALESCE(MAX("@ + c.spec_name()
                    + "), 0) + 1"@,
            }) + " FROM "@ + query.table.spec_name() + where_text(conditions) + order_text(
                query.order,
            ) + bound_text(" LIMIT "@, query.limit, limit) + bound_text(
                " OFFSET "@,
                query.offset,
                offset,
            ) + (match query.output {
                OutputView::Exists => ")"@,
                OutputView::Locked(_) => " FOR UPDATE"@,
                _ => Seq::empty(),
            }) && #[trigger] mean_the_filter(conditions, query.sql().params, query.filter)
                && #[trigger] holds_bound(query.sql().params, query.limit, limit)
                && #[trigger] holds_bound(query.sql().params, query.offset, offset),
{
    let start = match query.output {
        OutputView::Rows(columns) => SqlView::new().text("SELECT "@).columns(
            columns,
            columns.len(),
        ),
        OutputView::Exists => SqlView::new().text("SELECT EXISTS(SELECT 1"@),
        OutputView::Count => SqlView::new().text("SELECT COUNT(*)"@),
        OutputView::Locked(c) => SqlView::new().text("SELECT "@).text(c.spec_name()),
        OutputView::NextAfterGreatest(c) => SqlView::new().text("SELECT COALESCE(MAX("@).text(
            c.spec_name(),
        ).text("), 0) + 1"@),
    };
    let asked = match query.output {
        OutputView::Rows(columns) => "SELECT "@ + joined(column_names(columns), ", "@),
        OutputView::Exists => "SELECT EXISTS(SELECT 1"@,
        OutputView::Count => "SELECT COUNT(*)"@,
        OutputView::Locked(c) => "SELECT "@ + c.spec_name(),
        OutputView::NextAfterGreatest(c) => "SELECT COALESCE(MAX("@ + c.spec_name()
            + "), 0) + 1"@,
    };
    an_output_is_asked_for(query.output);
    let head = start.text(" FROM "@).text(query.table.spec_name());
    let filtered = head.tests(query.filter, query.filter.len());
    let conditions = conditions_of(head, query.filter, query.filter.len());
    tests_are_written(head, query.filter, query.filter.len());
    the_conditions_mean_the_filter(head, query.filter);
    let sorted = filtered.ordered(query.order, query.order.len());
    an_order_is_written(filtered, query.order, query.order.len());
    assert(query.order.take(query.order.len() as int) =~= query.order);
    let limited = sorted.bounded(" LIMIT "@, query.limit);
    a_bound_is_written(sorted, " LIMIT "@, query.limit);
    let body = limited.bounded(" OFFSET "@, query.offset);
    a_bound_is_written(limited, " OFFSET "@, query.offset);
    let all = query.sql();
    let tail = match query.output {
        OutputView::Exists => ")"@,
        OutputView::Locked(_) => " FOR UPDATE"@,
        _ => Seq::empty(),
    };
    assert(body.text + Seq::<char>::empty() =~= body.text);
    let limit = sorted.params.len() + 1;
    let offset = limited.params.len() + 1;
    starting_is_transitive(sorted.params, limited.params, body.params);
    more_parameters_keep_a_filter(conditions, filtered.params, all.params, query.filter);
    if query.limit is Some {
        assert(body.params[limit - 1] == limited.params[limit - 1]);
    }
    assert(holds_bound(all.params, query.limit, limit));
    assert(holds_bound(all.params, query.offset, offset));
}

proof fn an_output_is_asked_for(output: OutputView)
    ensures
        ({
            let start = match output {
                OutputView::Rows(columns) => SqlView::new().text("SELECT "@).columns(
                    columns,
                    columns.len(),
                ),
                OutputView::Exists => SqlView::new().text("SELECT EXISTS(SELECT 1"@),
                OutputView::Count => SqlView::new().text("SELECT COUNT(*)"@),
                OutputView::Locked(c) => SqlView::new().text("SELECT "@).text(c.spec_name()),
                OutputView::NextAfterGreatest(c) => SqlView::new().text(
                    "SELECT COALESCE(MAX("@,
                ).text(c.spec_name()).text("), 0) + 1"@),
            };
            let asked = match output {
                OutputView::Rows(columns) => "SELECT "@ + joined(column_names(columns), ", "@),
                OutputView::Exists => "SELECT EXISTS(SELECT 1"@,
                OutputView::Count => "SELECT COUNT(*)"@,
                OutputView::Locked(c) => "SELECT "@ + c.spec_name(),
                OutputView::NextAfterGreatest(c) => "SELECT COALESCE(MAX("@ + c.spec_name()
                    + "), 0) + 1"@,
            };
            start.text == asked && start.params.len() == 0
        }),
{
    assert(Seq::<char>::empty() + "SELECT "@ =~= "SELECT "@);
    assert(Seq::<char>::empty() + "SELECT EXISTS(SELECT 1"@ =~= "SELECT EXISTS(SELECT 1"@);
    assert(Seq::<char>::empty() + "SELECT COUNT(*)"@ =~= "SELECT COUNT(*)"@);
    assert(Seq::<char>::empty() + "SELECT COALESCE(MAX("@ =~= "SELECT COALESCE(MAX("@);
    if let OutputView::Rows(columns) = output {
        columns_are_listed(SqlView::new().text("SELECT "@), columns, columns.len());
        assert(columns.take(columns.len() as int) =~= columns);
    }
}

/// The words that statements and queries are written with.
pub proof fn the_words_of_statements(
    key: Seq<Column>,
    columns: Seq<Column>,
    values: Seq<Expression>,
    guard: Condition,
    conditions: Seq<Condition>,
    column: Column,
    number: nat,
    limit: i64,
)
    ensures
        Rule::Fails.text() == Seq::<char>::empty(),
        Rule::Ignores(key).text() == " ON CONFLICT ("@ + joined(column_names(key), ", "@)
            + ") DO NOTHING"@,
        Rule::Merges(key, columns, values, Some(guard)).text() == " ON CONFLICT ("@ + joined(
            column_names(key),
            ", "@,
        ) + ") DO UPDATE SET "@ + assignments_text(columns, values) + (" WHERE "@ + guard.text()),
        where_text(seq![guard]) == " WHERE "@ + guard.text(),
        conditions.len() > 0 ==> where_text(conditions.push(guard)) == where_text(conditions)
            + " AND "@ + guard.text(),
        order_text(seq![Order::Ascending(column)]) == " ORDER BY "@ + column.spec_name() + " ASC"@,
        order_text(seq![Order::Descending(column)]) == " ORDER BY "@ + column.spec_name()
            + " DESC"@,
        bound_text(" LIMIT "@, Some(limit), number) == " LIMIT "@ + bound(number),
{
    broadcast use texts_are_put_together;

    let texts = conditions.map_values(|c: Condition| c.text());
    assert(conditions.push(guard).map_values(|c: Condition| c.text()) =~= texts.push(
        guard.text(),
    ));
    a_list_grows(texts, guard.text(), " AND "@);
}

} // verus!
