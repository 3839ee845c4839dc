//! What stays as it is once it is settled.

use crate::laws::rows::{group_filters, group_rows};
use crate::model::{Database, Datum, Row};
use crate::plan::{Found, Moment};
use crate::projections::approvals::{PlanApproved, PlanRejected, PlanRevisionRequested};
use crate::projections::checkpoints::CheckpointRecorded;
use crate::projections::evals::{EvalBaselineLocked, EvalBaselineSet, EvalRunArchived};
use crate::projections::providers::ProviderBudgetExceeded;
use crate::projections::sessions::SessionAttemptStarted;
use crate::projections::tasks::ExternalWorkerRegistered;
use crate::projections::tenants::{TenantRoleGranted, TenantRoleRevoked};
use crate::projections::tools::ToolInvocationProgressUpdated;
use crate::schema::{Column, Table};
use crate::vocabulary::CheckpointDisposition;
use vstd::prelude::*;

verus! {

/// The review of a plan that was resolved once stays as it is: of an approval, a
/// rejection and a request for a revision the first stands.
pub proof fn the_first_resolution_of_a_plan_stands(
    approved: PlanApproved,
    rejected: PlanRejected,
    revised: PlanRevisionRequested,
    at: Moment,
    db: Database,
    was: Row,
)
    requires
        crate::model::value(was, Column::State) != Datum::Text("proposed"@),
    ensures
        forall|i: int|
            0 <= i < approved.writes(at).statements().len() ==> crate::laws::rows::updated_by(
                db,
                #[trigger] approved.writes(at).statements()[i],
                was,
            ) == was,
        forall|i: int|
            0 <= i < rejected.writes(at).statements().len() ==> crate::laws::rows::updated_by(
                db,
                #[trigger] rejected.writes(at).statements()[i],
                was,
            ) == was,
        forall|i: int|
            0 <= i < revised.writes(at).statements().len() ==> crate::laws::rows::updated_by(
                db,
                #[trigger] revised.writes(at).statements()[i],
                was,
            ) == was,
{
    broadcast use {group_filters, group_rows};
}

/// A resolution of a plan takes its review out of the proposed state.
pub proof fn a_resolution_settles_a_plan(e: PlanApproved, at: Moment, db: Database, was: Row)
    requires
        e.writes(at) is Writes,
        crate::model::value(was, Column::PlanRunId) == Datum::Text(e.plan_run_id@),
        crate::model::value(was, Column::State) == Datum::Text("proposed"@),
    ensures
        ({
            let now = crate::laws::rows::updated_by(db, e.writes(at).statements()[0], was);
            &&& crate::model::value(now, Column::State) == Datum::Text("approved"@)
            &&& crate::model::value(now, Column::ResolvedBy) == Datum::Text(e.approved_by@)
            &&& crate::model::value(now, Column::ResolvedAt) == Datum::Int(e.approved_at as int)
        }),
{
    broadcast use {group_filters, group_rows};
}

/// The time at which an eval run was archived first stays.
pub proof fn the_first_archival_stands(e: EvalRunArchived, at: Moment, db: Database, was: Row)
    requires
        crate::model::value(was, Column::ArchivedAt) != Datum::Null,
    ensures
        crate::laws::rows::updated_by(db, e.writes(at).statements()[0], was) == was,
{
    broadcast use {group_filters, group_rows};
}

/// The time at which a budget was exceeded first stays, and what was spent is
/// the limit and the excess.
pub proof fn the_first_excess_stands(e: ProviderBudgetExceeded, at: Moment, db: Database, was: Row)
    requires
        e.writes(at) is Writes,
        crate::model::value(was, Column::BudgetId) == Datum::Text(e.budget_id@),
        crate::model::value(was, Column::LimitMicros) is Int,
    ensures
        ({
            let now = crate::laws::rows::updated_by(db, e.writes(at).statements()[0], was);
            &&& crate::model::value(now, Column::ExceededAtMs) == if crate::model::value(
                was,
                Column::ExceededAtMs,
            ) == Datum::Null {
                Datum::Int(e.exceeded_at_ms as int)
            } else {
                crate::model::value(was, Column::ExceededAtMs)
            }
            &&& crate::model::value(now, Column::CurrentSpendMicros) == Datum::Int(
                crate::model::value(was, Column::LimitMicros)->Int_0 + e.exceeded_by_micros,
            )
        }),
{
    broadcast use {group_filters, group_rows};
}

/// A baseline that is locked keeps its name when it is set again.
pub proof fn a_locked_baseline_stays(
    locked: EvalBaselineLocked,
    e: EvalBaselineSet,
    at: Moment,
    later: Moment,
    db: Database,
    after: Database,
    was: Row,
)
    requires
        e.writes(later) is Writes,
        crate::model::value(was, Column::BaselineId) == Datum::Text(locked.baseline_id@),
    ensures
        ({
            let now = crate::laws::rows::updated_by(db, locked.writes(at).statements()[0], was);
            !crate::laws::rows::replaces(after, e.writes(later).statements()[0], now)
        }),
{
    broadcast use {group_filters, group_rows};
}

/// A worker is not taken over by a registration of another tenant.
pub proof fn a_worker_stays_with_its_tenant(
    e: ExternalWorkerRegistered,
    at: Moment,
    db: Database,
    was: Row,
)
    requires
        e.writes(at) is Writes,
        crate::model::value(was, Column::TenantId) != Datum::Text(e.tenant_id@),
    ensures
        !crate::laws::rows::replaces(db, e.writes(at).statements()[0], was),
{
    broadcast use {group_filters, group_rows};
}

/// An older report of progress does not replace a newer one.
pub proof fn older_progress_does_not_replace_newer(
    e: ToolInvocationProgressUpdated,
    at: Moment,
    found: Found,
    db: Database,
    was: Row,
)
    requires
        e.writes(at, found) is Writes,
        e.writes(at, found).statements().len() > 0,
        crate::model::value(was, Column::UpdatedAtMs) is Int,
        crate::model::value(was, Column::UpdatedAtMs)->Int_0 > e.updated_at_ms,
    ensures
        !crate::laws::rows::replaces(db, e.writes(at, found).statements()[0], was),
{
    broadcast use {group_filters, group_rows};
}

/// The attempts of a session never go down, in whatever order their starts are
/// projected.
pub proof fn attempts_never_go_down(e: SessionAttemptStarted, at: Moment, db: Database, was: Row)
    requires
        e.writes(at) is Writes,
        crate::model::value(was, Column::AttemptsUsed) is Int,
        crate::model::value(was, Column::MaxAttempts) is Int,
    ensures
        ({
            let now = crate::laws::rows::updated_by(db, e.writes(at).statements()[0], was);
            &&& crate::model::value(now, Column::AttemptsUsed) is Int
            &&& crate::model::value(now, Column::AttemptsUsed)->Int_0 >= crate::model::value(
                was,
                Column::AttemptsUsed,
            )->Int_0
            &&& crate::model::value(now, Column::MaxAttempts) is Int
            &&& crate::model::value(now, Column::MaxAttempts)->Int_0 >= crate::model::value(
                was,
                Column::MaxAttempts,
            )->Int_0
            &&& crate::model::value(was, Column::SessionId) == Datum::Text(e.session_id@)
                ==> crate::model::value(now, Column::AttemptsUsed)->Int_0 >= e.attempt_number
        }),
{
    broadcast use {group_filters, group_rows};
}

/// A revoked role that is granted again is in force: nothing of the revocation
/// is left.
pub proof fn a_grant_ends_a_revocation(
    revoked: TenantRoleRevoked,
    granted: TenantRoleGranted,
    at: Moment,
    later: Moment,
    db: Database,
    after: Database,
    was: Row,
)
    requires
        revoked.writes(at) is Writes,
        granted.writes(later) is Writes,
        crate::model::value(was, Column::TenantId) == Datum::Text(granted.tenant_id@),
        crate::model::value(was, Column::OperatorId) == Datum::Text(granted.operator_id@),
    ensures
        ({
            let now = crate::laws::rows::updated_by(db, revoked.writes(at).statements()[0], was);
            let again = crate::laws::rows::left_by(
                after,
                granted.writes(later).statements()[0],
                Some(now),
            );
            &&& crate::laws::rows::replaces(after, granted.writes(later).statements()[0], now)
            &&& crate::model::value(again, Column::RevokedAtMs) == Datum::Null
            &&& crate::model::value(again, Column::RevokedBy) == Datum::Null
            &&& crate::model::value(again, Column::Role) == Datum::Text(granted.role@)
        }),
{
    broadcast use {group_filters, group_rows};

    let key = granted.writes(later).statements()[0]->Insert_conflict->Merge_key;
    assert(key[0] == Column::TenantId);
    assert(key[1] == Column::OperatorId);
}

/// A latest checkpoint of a run supersedes the latest one before it, and leaves
/// the checkpoints of other runs.
pub proof fn a_latest_checkpoint_supersedes_the_last(
    e: CheckpointRecorded,
    at: Moment,
    db: Database,
    was: Row,
)
    requires
        e.disposition == CheckpointDisposition::Latest,
    ensures
        ({
            let now = crate::laws::rows::updated_by(db, e.writes(at).statements()[0], was);
            if crate::model::value(was, Column::RunId) == Datum::Text(e.run_id@)
                && crate::model::value(was, Column::Disposition) == Datum::Text("latest"@) {
                crate::model::value(now, Column::Disposition) == Datum::Text("superseded"@)
            } else {
                now == was
            }
        }),
{
    broadcast use {group_filters, group_rows};
}

/// After a latest checkpoint of a run is recorded, it is the only latest one of
/// the run.
pub proof fn a_run_has_one_latest_checkpoint(
    e: CheckpointRecorded,
    at: Moment,
    db: Database,
    i: int,
)
    requires
        e.disposition == CheckpointDisposition::Latest,
    ensures
        ({
            let rows = crate::model::after_all(db, e.writes(at).statements()).rows(
                Table::Checkpoints,
            );
            &&& rows.len() == db.rows(Table::Checkpoints).len() + 1
            &&& 0 <= i < rows.len() && crate::model::value(rows[i], Column::RunId) == Datum::Text(
                e.run_id@,
            ) && crate::model::value(rows[i], Column::Disposition) == Datum::Text("latest"@)
                ==> i == rows.len() - 1 && crate::model::value(rows[i], Column::CheckpointId)
                == Datum::Text(e.checkpoint_id@)
        }),
{
    broadcast use {group_filters, group_rows};

    let statements = e.writes(at).statements();
    reveal_with_fuel(crate::model::after_all, 3);
    assert(statements.drop_last() =~= seq![statements[0]]);
    assert(statements.drop_last().drop_last() =~= Seq::empty());
    let middle = crate::model::after(db, statements[0]);
    assert(crate::model::after_all(db, statements) == crate::model::after(middle, statements[1]));
    crate::laws::rows::an_insert_adds_its_row(middle, statements[1]);
    if 0 <= i < db.rows(Table::Checkpoints).len() {
        crate::laws::rows::an_update_changes_the_rows_that_it_selects(db, statements[0], i);
        a_latest_checkpoint_supersedes_the_last(e, at, db, db.rows(Table::Checkpoints)[i]);
        reveal_strlit("latest");
        reveal_strlit("superseded");
        assert("latest"@.len() != "superseded"@.len());
    }
}

} // verus!
