//! What is found of what was written: runs.

use crate::laws::finding::group_queries;
use crate::laws::rows::group_rows;
use crate::model::Database;
use crate::plan::Moment;
use crate::projections::approvals::PlanProposed;
use crate::projections::evals::OutcomeRecorded;
use crate::projections::runs::{RunCreated, SubagentSpawned};
use crate::read::runs::{OutcomeRow, PlanReviewRow, RunRow, SubagentSpawnRow};
use vstd::prelude::*;

verus! {

/// The row that a `RunCreated` event leaves is found by the queries for what it names.
pub proof fn run_created_is_found(
    e: RunCreated,
    at: Moment,
    db: Database,
    later: Database,
    limit: usize,
    offset: usize,
)
    requires
        e.writes(at) is Writes,
        e.writes(at).statements().len() > 0,
    ensures
        ({
            let s = e.writes(at).statements()[0];
            let row = crate::laws::rows::left_by(db, s, None);
            &&& RunRow::spec_get(e.run_id@).finds(later, s.table(), row)
            &&& RunRow::spec_list_by_session(
                e.session_id@,
                limit,
                offset,
            ).finds(later, s.table(), row)
            &&& RunRow::spec_list_by_state("pending"@, limit).finds(later, s.table(), row)
            &&& e.parent_run_id is Some ==> RunRow::spec_list_by_parent_run(
                e.parent_run_id->Some_0@,
                limit,
            ).finds(later, s.table(), row)
        }),
{
    broadcast use {group_queries, group_rows};
}

/// The row that a `SubagentSpawned` event leaves is found by the queries for what it names.
pub proof fn subagent_spawned_is_found(
    e: SubagentSpawned,
    at: Moment,
    db: Database,
    later: Database,
)
    requires
        e.writes(at) is Writes,
        e.writes(at).statements().len() > 0,
    ensures
        ({
            let s = e.writes(at).statements()[0];
            let row = crate::laws::rows::left_by(db, s, None);
            &&& SubagentSpawnRow::spec_get_by_child_task(
                e.child_task_id@,
            ).finds(later, s.table(), row)
            &&& e.child_run_id is Some ==> SubagentSpawnRow::spec_get_by_child_run_id(
                e.child_run_id->Some_0@,
            ).finds(later, s.table(), row)
            &&& SubagentSpawnRow::spec_list_by_parent_run(
                e.parent_run_id@,
            ).finds(later, s.table(), row)
        }),
{
    broadcast use {group_queries, group_rows};
}

/// The row that a `OutcomeRecorded` event leaves is found by the queries for what it names.
pub proof fn outcome_recorded_is_found(
    e: OutcomeRecorded,
    at: Moment,
    db: Database,
    later: Database,
    limit: usize,
    offset: usize,
)
    requires
        e.writes(at) is Writes,
        e.writes(at).statements().len() > 0,
    ensures
        ({
            let s = e.writes(at).statements()[0];
            let row = crate::laws::rows::left_by(db, s, None);
            &&& OutcomeRow::spec_get(e.outcome_id@).finds(later, s.table(), row)
            &&& OutcomeRow::spec_list_by_run(e.run_id@, limit).finds(later, s.table(), row)
            &&& OutcomeRow::spec_list_by_project(
                e.project@,
                limit,
                offset,
            ).finds(later, s.table(), row)
        }),
{
    broadcast use {group_queries, group_rows};
}

/// The row that a `PlanProposed` event leaves is found by the queries for what it names.
pub proof fn plan_proposed_is_found(
    e: PlanProposed,
    at: Moment,
    db: Database,
    later: Database,
    limit: usize,
    offset: usize,
)
    requires
        e.writes(at) is Writes,
        e.writes(at).statements().len() > 0,
    ensures
        ({
            let s = e.writes(at).statements()[0];
            let row = crate::laws::rows::left_by(db, s, None);
            &&& PlanReviewRow::spec_get(e.plan_run_id@).finds(later, s.table(), row)
            &&& PlanReviewRow::spec_list_by_project(
                e.project@,
                limit,
                offset,
            ).finds(later, s.table(), row)
            &&& PlanReviewRow::spec_list_by_session(
                e.session_id@,
                limit,
            ).finds(later, s.table(), row)
        }),
{
    broadcast use {group_queries, group_rows};
}

} // verus!
