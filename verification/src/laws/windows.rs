//! Which times a query selects.

use crate::laws::rows::group_rows;
use crate::model::{Database, Datum, Row};
use crate::plan::Moment;
use crate::projections::runs::RunStateChanged;
use crate::schema::Column;
use crate::statement::TestView;
use crate::value::ValueView;
use vstd::prelude::*;

verus! {

/// A window holds the times from its lower bound on and before its upper bound;
/// a missing bound leaves out no time but, above, the greatest.
pub proof fn a_window_holds_the_times_between_its_bounds(
    since_ms: Option<u64>,
    before_ms: Option<u64>,
    db: Database,
    row: Row,
    ms: i64,
)
    requires
        crate::read::policies::window_fault(since_ms, before_ms) is None,
        crate::model::value(row, Column::OccurredAtMs) == Datum::Int(ms as int),
        before_ms is None ==> ms < i64::MAX,
    ensures
        ({
            &&& crate::model::passes(
                db,
                row,
                TestView::AtLeast(
                    Column::OccurredAtMs,
                    ValueView::Int8(crate::read::policies::bound(since_ms, i64::MIN)),
                ),
            )
            &&& crate::model::passes(
                db,
                row,
                TestView::Below(
                    Column::OccurredAtMs,
                    ValueView::Int8(crate::read::policies::bound(before_ms, i64::MAX)),
                ),
            )
        }) <==> (since_ms is Some ==> since_ms->Some_0 <= ms) && (before_ms is Some ==> ms
            < before_ms->Some_0),
{
}

/// A paused run is due once its delay has passed since the pause was stored,
/// and not before. A time at the end of the range is due at the end of the
/// range.
pub proof fn a_pause_is_due_after_its_delay(
    e: RunStateChanged,
    at: Moment,
    db: Database,
    before_ms: u64,
)
    requires
        e.to@ == "paused"@,
        e.resume_after_ms is Some,
    ensures
        e.schedule_update(at).len() == 1,
        ({
            let row = crate::laws::rows::left_by(db, e.schedule_update(at)[0], None);
            let due = crate::model::passes(
                db,
                row,
                TestView::AtMost(
                    Column::ResumeAtMs,
                    ValueView::Int8(crate::read::runs::nearest(before_ms)),
                ),
            );
            let passed = at.event_time_ms + e.resume_after_ms->Some_0 <= before_ms;
            &&& passed ==> due
            &&& due && before_ms < i64::MAX ==> passed
        }),
{
    broadcast use group_rows;
}

} // verus!
