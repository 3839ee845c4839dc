//! What an event's projection is: the statements to run, or the reason why the
//! event cannot be projected.

use crate::domain::ProjectKey;
use crate::error::{ErrorView, StoreError};
use crate::statement::{Statement, StatementView};
use vstd::prelude::*;

verus! {

/// When an event is projected, and under which id it was logged.
#[derive(Debug, PartialEq, Eq)]
pub struct Moment {
    /// The wall clock in milliseconds.
    pub now: i64,
    /// When the event was stored, in milliseconds: the same on every replay.
    pub event_time_ms: u64,
    /// The id of the event's envelope.
    pub event_id: String,
}

/// What the database holds already of the things that an event refers to.
#[derive(Debug, PartialEq, Eq)]
pub struct Found {
    /// The project of the run or the tool invocation, where there is one.
    pub scope: Option<ProjectKey>,
    /// The session of the run, where there is one.
    pub session_id: Option<String>,
    /// The number after the greatest version of the prompt asset.
    pub next_version: i64,
}

impl Found {
    /// Nothing was looked up.
    pub fn nothing() -> (r: Found)
        ensures
            r == (Found { scope: None, session_id: None, next_version: 0 }),
    {
        Found { scope: None, session_id: None, next_version: 0 }
    }
}

/// The statements of a projection, or why there are none.
pub enum Planned {
    Writes(Seq<StatementView>),
    Refused(ErrorView),
}

impl Planned {
    /// The mathematical value of a planned projection.
    pub open spec fn of(r: Result<Vec<Statement>, StoreError>) -> Planned {
        match r {
            Ok(statements) => Planned::Writes(StatementView::all(statements@)),
            Err(e) => Planned::Refused(e@),
        }
    }

    /// The statements; none where the projection is refused.
    pub open spec fn statements(self) -> Seq<StatementView> {
        match self {
            Planned::Writes(s) => s,
            Planned::Refused(_) => Seq::empty(),
        }
    }
}

/// No statements.
pub fn none() -> (r: Result<Vec<Statement>, StoreError>)
    ensures
        Planned::of(r) == Planned::Writes(Seq::empty()),
{
    let v: Vec<Statement> = Vec::new();
    assert(StatementView::all(v@) =~= Seq::empty());
    Ok(v)
}

/// One statement.
pub fn one(a: Statement) -> (r: Result<Vec<Statement>, StoreError>)
    ensures
        Planned::of(r) == Planned::Writes(seq![a@]),
{
    let mut v: Vec<Statement> = Vec::new();
    v.push(a);
    assert(StatementView::all(v@) =~= seq![a@]);
    Ok(v)
}

/// Two statements.
pub fn two(a: Statement, b: Statement) -> (r: Result<Vec<Statement>, StoreError>)
    ensures
        Planned::of(r) == Planned::Writes(seq![a@, b@]),
{
    let mut v: Vec<Statement> = Vec::new();
    v.push(a);
    v.push(b);
    assert(StatementView::all(v@) =~= seq![a@, b@]);
    Ok(v)
}

} // verus!
