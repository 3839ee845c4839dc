//! What is added up.

use crate::laws::rows::group_rows;
use crate::model::{Database, Datum, Row};
use crate::events::RuntimeEvent;
use crate::plan::{Found, Moment};
use crate::projections::costs::{RunCostUpdated, SessionCostUpdated};
use crate::projections::providers::ProviderCallCompleted;
use crate::schema::{Column, Table};
use vstd::prelude::*;

verus! {

/// The totals of a row: cost, tokens in, tokens out and calls.
pub open spec fn totals(row: Row) -> (Datum, Datum, Datum, Datum) {
    (
        crate::model::value(row, Column::TotalCostMicros),
        crate::model::value(row, Column::TotalTokensIn),
        crate::model::value(row, Column::TotalTokensOut),
        crate::model::value(row, Column::ProviderCalls),
    )
}

/// The totals of a stored run take up what was spent, and a new run starts with
/// it.
pub proof fn the_cost_of_a_run_is_added(
    e: RunCostUpdated,
    at: Moment,
    db: Database,
    was: Row,
    cost: int,
    tokens_in: int,
    tokens_out: int,
    calls: int,
)
    requires
        e.writes(at) is Writes,
        totals(was) == (
            Datum::Int(cost),
            Datum::Int(tokens_in),
            Datum::Int(tokens_out),
            Datum::Int(calls),
        ),
    ensures
        totals(crate::laws::rows::left_by(db, e.writes(at).statements()[0], Some(was))) == (
            Datum::Int(cost + e.delta_cost_micros),
            Datum::Int(tokens_in + e.delta_tokens_in),
            Datum::Int(tokens_out + e.delta_tokens_out),
            Datum::Int(calls + 1),
        ),
        totals(crate::laws::rows::left_by(db, e.writes(at).statements()[0], None)) == (
            Datum::Int(e.delta_cost_micros as int),
            Datum::Int(e.delta_tokens_in as int),
            Datum::Int(e.delta_tokens_out as int),
            Datum::Int(1),
        ),
{
    broadcast use group_rows;
}

/// The totals of a session, of its project and of its workspace take up the same
/// amounts, and a new one starts with them.
pub proof fn the_cost_of_a_session_is_added_in_each_table(
    e: SessionCostUpdated,
    i: int,
    db: Database,
    was: Row,
    cost: int,
    tokens_in: int,
    tokens_out: int,
    calls: int,
)
    requires
        e.writes() is Writes,
        0 <= i < 3,
        totals(was) == (
            Datum::Int(cost),
            Datum::Int(tokens_in),
            Datum::Int(tokens_out),
            Datum::Int(calls),
        ),
    ensures
        e.writes().statements().len() == 3,
        totals(crate::laws::rows::left_by(db, e.writes().statements()[i], Some(was))) == (
            Datum::Int(cost + e.delta_cost_micros),
            Datum::Int(tokens_in + e.delta_tokens_in),
            Datum::Int(tokens_out + e.delta_tokens_out),
            Datum::Int(calls + 1),
        ),
        totals(crate::laws::rows::left_by(db, e.writes().statements()[i], None)) == (
            Datum::Int(e.delta_cost_micros as int),
            Datum::Int(e.delta_tokens_in as int),
            Datum::Int(e.delta_tokens_out as int),
            Datum::Int(1),
        ),
{
    broadcast use group_rows;

    if i == 0 {
    } else if i == 1 {
    } else {
    }
}

/// What two costs of a session add to a stored total does not depend on which
/// is projected first, and neither does the time of the later.
pub proof fn costs_add_up_in_any_order(
    first: SessionCostUpdated,
    second: SessionCostUpdated,
    i: int,
    db: Database,
    was: Row,
)
    requires
        first.writes() is Writes,
        second.writes() is Writes,
        0 <= i < 3,
    ensures
        ({
            let a = first.writes().statements()[i];
            let b = second.writes().statements()[i];
            let ab = crate::laws::rows::left_by(
                db,
                b,
                Some(crate::laws::rows::left_by(db, a, Some(was))),
            );
            let ba = crate::laws::rows::left_by(
                db,
                a,
                Some(crate::laws::rows::left_by(db, b, Some(was))),
            );
            &&& totals(ab) == totals(ba)
            &&& crate::model::value(was, Column::UpdatedAtMs) is Int ==> crate::model::value(
                ab,
                Column::UpdatedAtMs,
            ) == crate::model::value(ba, Column::UpdatedAtMs)
        }),
{
    broadcast use group_rows;

    if i == 0 {
    } else if i == 1 {
    } else {
    }
}

/// What a call cost: micros, tokens in and tokens out; nothing where it does not
/// say.
pub open spec fn spent(e: ProviderCallCompleted) -> (int, int, int) {
    (
        match e.cost_micros {
            Some(micros) => micros as int,
            None => 0,
        },
        match e.input_tokens {
            Some(tokens) => tokens as int,
            None => 0,
        },
        match e.output_tokens {
            Some(tokens) => tokens as int,
            None => 0,
        },
    )
}

/// The session that a call is paid by: the one that it names or, where it names
/// none, the one of its run.
pub open spec fn payer(e: ProviderCallCompleted, found: Found) -> Option<Seq<char>> {
    if e.session_id is Some {
        Some(e.session_id->Some_0@)
    } else if e.run_id is Some && found.session_id is Some {
        Some(found.session_id->Some_0@)
    } else {
        None
    }
}

/// A call without a session is stored alone. What a call of a session cost is
/// stored with the call, and the totals of the session, of its project and of
/// its workspace grow by the same amounts.
pub proof fn the_cost_of_a_call_reaches_every_total(
    e: ProviderCallCompleted,
    at: Moment,
    found: Found,
    i: int,
    db: Database,
    was: Row,
    cost: int,
    tokens_in: int,
    tokens_out: int,
    calls: int,
)
    requires
        RuntimeEvent::ProviderCallCompleted(e).writes(at, found) is Writes,
        1 <= i < 4,
        totals(was) == (
            Datum::Int(cost),
            Datum::Int(tokens_in),
            Datum::Int(tokens_out),
            Datum::Int(calls),
        ),
    ensures
        ({
            let statements = RuntimeEvent::ProviderCallCompleted(e).writes(at, found).statements();
            let call = crate::laws::rows::left_by(db, statements[0], None);
            let held = |column: Column, shown: Option<int>|
                crate::model::value(call, column) == match shown {
                    Some(n) => Datum::Int(n),
                    None => Datum::Null,
                };
            &&& statements.len() == if payer(e, found) is Some {
                4nat
            } else {
                1nat
            }
            &&& statements[0].table() == Table::ProviderCalls
            &&& crate::model::value(call, Column::ProviderCallId) == Datum::Text(
                e.provider_call_id@,
            )
            &&& payer(e, found) is Some ==> held(
                Column::CostMicros,
                match e.cost_micros {
                    Some(_) => Some(spent(e).0),
                    None => None,
                },
            )
            &&& e.input_tokens is Some && spent(e).1 <= i32::MAX ==> crate::model::value(
                call,
                Column::InputTokens,
            ) == Datum::Int(spent(e).1)
            &&& e.output_tokens is Some && spent(e).2 <= i32::MAX ==> crate::model::value(
                call,
                Column::OutputTokens,
            ) == Datum::Int(spent(e).2)
        }),
        payer(e, found) is Some ==> ({
            let statements = RuntimeEvent::ProviderCallCompleted(e).writes(at, found).statements();
            let new = crate::laws::rows::left_by(db, statements[i], None);
            &&& statements[1].table() == Table::SessionCosts
            &&& statements[2].table() == Table::ProjectCosts
            &&& statements[3].table() == Table::WorkspaceCosts
            &&& totals(crate::laws::rows::left_by(db, statements[i], Some(was))) == (
                Datum::Int(cost + spent(e).0),
                Datum::Int(tokens_in + spent(e).1),
                Datum::Int(tokens_out + spent(e).2),
                Datum::Int(calls + 1),
            )
            &&& totals(new) == (
                Datum::Int(spent(e).0),
                Datum::Int(spent(e).1),
                Datum::Int(spent(e).2),
                Datum::Int(1),
            )
            &&& i == 1 ==> crate::model::value(new, Column::SessionId) == Datum::Text(
                payer(e, found)->Some_0,
            )
            &&& crate::model::value(new, Column::TenantId) == Datum::Text(e.project.tenant_id@)
            &&& crate::model::value(new, Column::WorkspaceId) == Datum::Text(
                e.project.workspace_id@,
            )
            &&& i < 3 ==> crate::model::value(new, Column::ProjectId) == Datum::Text(
                e.project.project_id@,
            )
            &&& crate::model::value(new, Column::UpdatedAtMs) == Datum::Int(e.completed_at as int)
        }),
{
    broadcast use group_rows;

    if i == 1 {
    } else if i == 2 {
    } else {
    }
}

/// A call is refused only where a session pays for it and its cost or its time
/// is above what a total can hold.
pub proof fn only_a_cost_above_every_total_is_refused(
    e: ProviderCallCompleted,
    at: Moment,
    found: Found,
)
    ensures
        RuntimeEvent::ProviderCallCompleted(e).writes(at, found) is Refused <==> payer(
            e,
            found,
        ) is Some && (spent(e).0 > i64::MAX || e.completed_at > i64::MAX),
{
}

} // verus!
