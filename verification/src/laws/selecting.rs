//! What the queries select, in terms of the values of a row.

pub mod approvals;
pub mod checkpoints;
pub mod evals;
pub mod knowledge;
pub mod messages;
pub mod policies;
pub mod providers;
pub mod runs;
pub mod sessions;
pub mod tasks;
pub mod tenants;
pub mod tools;
pub mod triggers;

use crate::model::{Database, Datum, Row};
use crate::schema::Column;
use crate::statement::TestView;
use vstd::prelude::*;

verus! {

/// Whether a value is a number below a bound.
pub open spec fn is_below(value: Datum, bound: int) -> bool {
    value is Int && value->Int_0 < bound
}

/// Whether a value is a number that does not pass a bound.
pub open spec fn is_at_most(value: Datum, bound: int) -> bool {
    value is Int && value->Int_0 <= bound
}

/// Whether a value is a number that reaches a bound.
pub open spec fn is_at_least(value: Datum, bound: int) -> bool {
    value is Int && value->Int_0 >= bound
}

/// Whether a value is a number above a bound.
pub open spec fn is_above(value: Datum, bound: int) -> bool {
    value is Int && value->Int_0 > bound
}

/// Whether `run` is the run that `row` names, and one of the session.
pub open spec fn is_run_of(run: Row, row: Row, session_id: Seq<char>) -> bool {
    &&& crate::model::value(run, Column::RunId) == crate::model::value(row, Column::RunId)
    &&& crate::model::value(run, Column::RunId) != Datum::Null
    &&& crate::model::value(run, Column::SessionId) == Datum::Text(session_id)
}

proof fn is_none(db: Database, row: Row, column: Column, names: Seq<Seq<char>>)
    ensures
        crate::model::passes(db, row, TestView::NoneOf(column, names)) <==> {
            &&& crate::model::value(row, column) != Datum::Null
            &&& forall|i: int|
                0 <= i < names.len() ==> crate::model::value(row, column) != Datum::Text(
                    #[trigger] names[i],
                )
        },
{
    let test = TestView::NoneOf(column, names);
    let own = crate::model::value(row, column);
    if crate::model::passes(db, row, test) {
        assert(own != Datum::Null);
        assert forall|i: int| 0 <= i < names.len() implies own != Datum::Text(
            #[trigger] names[i],
        ) by {
        }
    }
}

proof fn is_one(db: Database, row: Row, column: Column, names: Seq<Seq<char>>)
    ensures
        crate::model::passes(db, row, TestView::OneOf(column, names)) <==> exists|i: int|
            0 <= i < names.len() && crate::model::value(row, column) == Datum::Text(
                #[trigger] names[i],
            ),
{
}

pub(crate) proof fn none_of_ended_run_states(db: Database, row: Row, column: Column)
    ensures
        crate::model::passes(
            db,
            row,
            TestView::NoneOf(column, crate::read::ended_run_states()),
        ) <==> (crate::model::value(row, column) != Datum::Null
            && crate::model::value(row, column) != Datum::Text("completed"@)
            && crate::model::value(row, column) != Datum::Text("failed"@)
            && crate::model::value(row, column) != Datum::Text("canceled"@)),
{
    let names = crate::read::ended_run_states();
    is_none(db, row, column, names);
    assert(names.len() == 3);
    assert(names[0] == "completed"@);
    assert(names[1] == "failed"@);
    assert(names[2] == "canceled"@);
}

pub(crate) proof fn none_of_closed_states(db: Database, row: Row, column: Column)
    ensures
        crate::model::passes(
            db,
            row,
            TestView::NoneOf(column, crate::read::closed_states()),
        ) <==> (crate::model::value(row, column) != Datum::Null
            && crate::model::value(row, column) != Datum::Text("completed"@)
            && crate::model::value(row, column) != Datum::Text("failed"@)
            && crate::model::value(row, column) != Datum::Text("canceled"@)
            && crate::model::value(row, column) != Datum::Text("dead_lettered"@)),
{
    let names = crate::read::closed_states();
    is_none(db, row, column, names);
    assert(names.len() == 4);
    assert(names[0] == "completed"@);
    assert(names[1] == "failed"@);
    assert(names[2] == "canceled"@);
    assert(names[3] == "dead_lettered"@);
}

pub(crate) proof fn one_of_claimable_run_states(db: Database, row: Row, column: Column)
    ensures
        crate::model::passes(
            db,
            row,
            TestView::OneOf(column, crate::read::claimable_run_states()),
        ) <==> (crate::model::value(row, column) == Datum::Text("pending"@)
            || crate::model::value(row, column) == Datum::Text("running"@)),
{
    let names = crate::read::claimable_run_states();
    is_one(db, row, column, names);
    assert(names.len() == 2);
    assert(names[0] == "pending"@);
    assert(names[1] == "running"@);
}

pub(crate) proof fn one_of_stalled_run_states(db: Database, row: Row, column: Column)
    ensures
        crate::model::passes(
            db,
            row,
            TestView::OneOf(column, crate::read::stalled_run_states()),
        ) <==> (crate::model::value(row, column) == Datum::Text("running"@)
            || crate::model::value(row, column) == Datum::Text("pending"@)),
{
    let names = crate::read::stalled_run_states();
    is_one(db, row, column, names);
    assert(names.len() == 2);
    assert(names[0] == "running"@);
    assert(names[1] == "pending"@);
}

} // verus!
