//! What the queries select: runs.

use crate::domain::ProjectView;
use crate::laws::finding::group_queries;
use crate::model::{Database, Datum, Row};
use crate::query::{Order, OutputView};
use crate::read::runs::{OutcomeRow, PauseScheduleRow, PlanReviewRow, RunRow, SubagentSpawnRow};
use crate::schema::{Column, Table};
use vstd::prelude::*;

verus! {

/// The rows that [`RunRow::get`] selects, and in which order.
pub proof fn run_row_get_selects(db: Database, row: Row, run_id: Seq<char>)
    ensures
        ({
            let query = RunRow::spec_get(run_id);
            &&& query.table == Table::Runs
            &&& query.output == OutputView::Rows(RunRow::spec_columns())
            &&& query.selects(db, row)
                <==> crate::model::value(row, Column::RunId) == Datum::Text(run_id)
            &&& query.order.len() == 0
            &&& query.limit == None::<i64>
            &&& query.offset == None::<i64>
        }),
{
    broadcast use group_queries;
}

/// The rows that [`RunRow::list_by_session`] selects, and in which order.
pub proof fn run_row_list_by_session_selects(
    db: Database,
    row: Row,
    session_id: Seq<char>,
    limit: usize,
    offset: usize,
)
    ensures
        ({
            let query = RunRow::spec_list_by_session(session_id, limit, offset);
            &&& query.table == Table::Runs
            &&& query.output == OutputView::Rows(RunRow::spec_columns())
            &&& query.selects(db, row)
                <==> crate::model::value(row, Column::SessionId) == Datum::Text(session_id)
            &&& query.order.len() == 2
            &&& query.order[0] == Order::Ascending(Column::CreatedAt)
            &&& query.order[1] == Order::Ascending(Column::RunId)
            &&& query.limit == Some(limit as i64)
            &&& query.offset == Some(offset as i64)
        }),
{
    broadcast use group_queries;
}

/// The rows that [`RunRow::any_non_terminal`] selects, and in which order.
pub proof fn run_row_any_non_terminal_selects(db: Database, row: Row, session_id: Seq<char>)
    ensures
        ({
            let query = RunRow::spec_any_non_terminal(session_id);
            &&& query.table == Table::Runs
            &&& query.output == OutputView::Exists
            &&& query.selects(db, row)
                <==> crate::model::value(row, Column::SessionId) == Datum::Text(session_id)
                && crate::model::value(row, Column::State) != Datum::Null
                && crate::model::value(row, Column::State) != Datum::Text("completed"@)
                && crate::model::value(row, Column::State) != Datum::Text("failed"@)
                && crate::model::value(row, Column::State) != Datum::Text("canceled"@)
            &&& query.order.len() == 0
            &&& query.limit == None::<i64>
            &&& query.offset == None::<i64>
        }),
{
    broadcast use group_queries;

    crate::laws::selecting::none_of_ended_run_states(db, row, Column::State);
}

/// The rows that [`RunRow::latest_root_run`] selects, and in which order.
pub proof fn run_row_latest_root_run_selects(db: Database, row: Row, session_id: Seq<char>)
    ensures
        ({
            let query = RunRow::spec_latest_root_run(session_id);
            &&& query.table == Table::Runs
            &&& query.output == OutputView::Rows(RunRow::spec_columns())
            &&& query.selects(db, row)
                <==> crate::model::value(row, Column::SessionId) == Datum::Text(session_id)
                && crate::model::value(row, Column::ParentRunId) == Datum::Null
            &&& query.order.len() == 2
            &&& query.order[0] == Order::Descending(Column::CreatedAt)
            &&& query.order[1] == Order::Descending(Column::RunId)
            &&& query.limit == Some(1i64)
            &&& query.offset == None::<i64>
        }),
{
    broadcast use group_queries;
}

/// The rows that [`RunRow::list_by_state`] selects, and in which order.
pub proof fn run_row_list_by_state_selects(db: Database, row: Row, state: Seq<char>, limit: usize)
    ensures
        ({
            let query = RunRow::spec_list_by_state(state, limit);
            &&& query.table == Table::Runs
            &&& query.output == OutputView::Rows(RunRow::spec_columns())
            &&& query.selects(db, row)
                <==> crate::model::value(row, Column::State) == Datum::Text(state)
            &&& query.order.len() == 2
            &&& query.order[0] == Order::Ascending(Column::CreatedAt)
            &&& query.order[1] == Order::Ascending(Column::RunId)
            &&& query.limit == Some(limit as i64)
            &&& query.offset == None::<i64>
        }),
{
    broadcast use group_queries;
}

/// The rows that [`RunRow::list_driver_claimable_children`] selects, and in which order.
pub proof fn run_row_list_driver_claimable_children_selects(db: Database, row: Row, limit: usize)
    ensures
        ({
            let query = RunRow::spec_list_driver_claimable_children(limit);
            &&& query.table == Table::Runs
            &&& query.output == OutputView::Rows(RunRow::spec_columns())
            &&& query.selects(db, row)
                <==> (crate::model::value(row, Column::State)
                    == Datum::Text("pending"@) || crate::model::value(row, Column::State)
                    == Datum::Text("running"@))
                && crate::model::value(row, Column::ParentRunId) != Datum::Null
            &&& query.order.len() == 2
            &&& query.order[0] == Order::Ascending(Column::CreatedAt)
            &&& query.order[1] == Order::Ascending(Column::RunId)
            &&& query.limit == Some(limit as i64)
            &&& query.offset == None::<i64>
        }),
{
    broadcast use group_queries;

    crate::laws::selecting::one_of_claimable_run_states(db, row, Column::State);
}

/// The rows that [`RunRow::list_active_by_project`] selects, and in which order.
pub proof fn run_row_list_active_by_project_selects(
    db: Database,
    row: Row,
    project: ProjectView,
    limit: usize,
)
    ensures
        ({
            let query = RunRow::spec_list_active_by_project(project, limit);
            &&& query.table == Table::Runs
            &&& query.output == OutputView::Rows(RunRow::spec_columns())
            &&& query.selects(db, row)
                <==> crate::model::value(row, Column::TenantId) == Datum::Text(project.tenant_id)
                && crate::model::value(row, Column::WorkspaceId)
                    == Datum::Text(project.workspace_id)
                && crate::model::value(row, Column::ProjectId) == Datum::Text(project.project_id)
                && crate::model::value(row, Column::State) != Datum::Null
                && crate::model::value(row, Column::State) != Datum::Text("completed"@)
                && crate::model::value(row, Column::State) != Datum::Text("failed"@)
                && crate::model::value(row, Column::State) != Datum::Text("canceled"@)
                && crate::model::value(row, Column::State) != Datum::Text("dead_lettered"@)
            &&& query.order.len() == 2
            &&& query.order[0] == Order::Ascending(Column::CreatedAt)
            &&& query.order[1] == Order::Ascending(Column::RunId)
            &&& query.limit == Some(limit as i64)
            &&& query.offset == None::<i64>
        }),
{
    broadcast use group_queries;

    crate::laws::selecting::none_of_closed_states(db, row, Column::State);
}

/// The rows that [`RunRow::list_by_parent_run`] selects, and in which order.
pub proof fn run_row_list_by_parent_run_selects(
    db: Database,
    row: Row,
    parent_run_id: Seq<char>,
    limit: usize,
)
    ensures
        ({
            let query = RunRow::spec_list_by_parent_run(parent_run_id, limit);
            &&& query.table == Table::Runs
            &&& query.output == OutputView::Rows(RunRow::spec_columns())
            &&& query.selects(db, row)
                <==> crate::model::value(row, Column::ParentRunId) == Datum::Text(parent_run_id)
            &&& query.order.len() == 2
            &&& query.order[0] == Order::Ascending(Column::CreatedAt)
            &&& query.order[1] == Order::Ascending(Column::RunId)
            &&& query.limit == Some(limit as i64)
            &&& query.offset == None::<i64>
        }),
{
    broadcast use group_queries;
}

/// The rows that [`SubagentSpawnRow::get_by_child_task`] selects, and in which order.
pub proof fn subagent_spawn_row_get_by_child_task_selects(
    db: Database,
    row: Row,
    child_task_id: Seq<char>,
)
    ensures
        ({
            let query = SubagentSpawnRow::spec_get_by_child_task(child_task_id);
            &&& query.table == Table::SubagentSpawns
            &&& query.output == OutputView::Rows(SubagentSpawnRow::spec_columns())
            &&& query.selects(db, row)
                <==> crate::model::value(row, Column::ChildTaskId) == Datum::Text(child_task_id)
            &&& query.order.len() == 0
            &&& query.limit == None::<i64>
            &&& query.offset == None::<i64>
        }),
{
    broadcast use group_queries;
}

/// The rows that [`SubagentSpawnRow::get_by_child_run_id`] selects, and in which order.
pub proof fn subagent_spawn_row_get_by_child_run_id_selects(
    db: Database,
    row: Row,
    child_run_id: Seq<char>,
)
    ensures
        ({
            let query = SubagentSpawnRow::spec_get_by_child_run_id(child_run_id);
            &&& query.table == Table::SubagentSpawns
            &&& query.output == OutputView::Rows(SubagentSpawnRow::spec_columns())
            &&& query.selects(db, row)
                <==> crate::model::value(row, Column::ChildRunId) == Datum::Text(child_run_id)
            &&& query.order.len() == 0
            &&& query.limit == Some(1i64)
            &&& query.offset == None::<i64>
        }),
{
    broadcast use group_queries;
}

/// The rows that [`SubagentSpawnRow::list_by_parent_run`] selects, and in which order.
pub proof fn subagent_spawn_row_list_by_parent_run_selects(
    db: Database,
    row: Row,
    parent_run_id: Seq<char>,
)
    ensures
        ({
            let query = SubagentSpawnRow::spec_list_by_parent_run(parent_run_id);
            &&& query.table == Table::SubagentSpawns
            &&& query.output == OutputView::Rows(SubagentSpawnRow::spec_columns())
            &&& query.selects(db, row)
                <==> crate::model::value(row, Column::ParentRunId) == Datum::Text(parent_run_id)
            &&& query.order.len() == 2
            &&& query.order[0] == Order::Ascending(Column::SpawnedAtMs)
            &&& query.order[1] == Order::Ascending(Column::ChildTaskId)
            &&& query.limit == None::<i64>
            &&& query.offset == None::<i64>
        }),
{
    broadcast use group_queries;
}

/// The rows that [`PauseScheduleRow::list_due`] selects, and in which order.
pub proof fn pause_schedule_row_list_due_selects(
    db: Database,
    row: Row,
    tenant_id: Seq<char>,
    before_ms: u64,
    limit: usize,
)
    ensures
        ({
            let query = PauseScheduleRow::spec_list_due(tenant_id, before_ms, limit);
            &&& query.table == Table::PauseSchedules
            &&& query.output == OutputView::Rows(PauseScheduleRow::spec_columns())
            &&& query.selects(db, row)
                <==> crate::model::value(row, Column::TenantId) == Datum::Text(tenant_id)
                && crate::laws::selecting::is_at_most(
                    crate::model::value(row, Column::ResumeAtMs),
                    if before_ms > i64::MAX { i64::MAX as int } else { before_ms as int },
                )
            &&& query.order.len() == 2
            &&& query.order[0] == Order::Ascending(Column::ResumeAtMs)
            &&& query.order[1] == Order::Ascending(Column::RunId)
            &&& query.limit == Some(if limit > i64::MAX { i64::MAX } else { limit as i64 })
            &&& query.offset == None::<i64>
        }),
{
    broadcast use group_queries;
}

/// The rows that [`OutcomeRow::get`] selects, and in which order.
pub proof fn outcome_row_get_selects(db: Database, row: Row, outcome_id: Seq<char>)
    ensures
        ({
            let query = OutcomeRow::spec_get(outcome_id);
            &&& query.table == Table::Outcomes
            &&& query.output == OutputView::Rows(OutcomeRow::spec_columns())
            &&& query.selects(db, row)
                <==> crate::model::value(row, Column::OutcomeId) == Datum::Text(outcome_id)
            &&& query.order.len() == 0
            &&& query.limit == None::<i64>
            &&& query.offset == None::<i64>
        }),
{
    broadcast use group_queries;
}

/// The rows that [`OutcomeRow::list_by_run`] selects, and in which order.
pub proof fn outcome_row_list_by_run_selects(
    db: Database,
    row: Row,
    run_id: Seq<char>,
    limit: usize,
)
    ensures
        ({
            let query = OutcomeRow::spec_list_by_run(run_id, limit);
            &&& query.table == Table::Outcomes
            &&& query.output == OutputView::Rows(OutcomeRow::spec_columns())
            &&& query.selects(db, row)
                <==> crate::model::value(row, Column::RunId) == Datum::Text(run_id)
            &&& query.order.len() == 2
            &&& query.order[0] == Order::Ascending(Column::RecordedAt)
            &&& query.order[1] == Order::Ascending(Column::OutcomeId)
            &&& query.limit == Some(limit as i64)
            &&& query.offset == None::<i64>
        }),
{
    broadcast use group_queries;
}

/// The rows that [`OutcomeRow::list_by_project`] selects, and in which order.
pub proof fn outcome_row_list_by_project_selects(
    db: Database,
    row: Row,
    project: ProjectView,
    limit: usize,
    offset: usize,
)
    ensures
        ({
            let query = OutcomeRow::spec_list_by_project(project, limit, offset);
            &&& query.table == Table::Outcomes
            &&& query.output == OutputView::Rows(OutcomeRow::spec_columns())
            &&& query.selects(db, row)
                <==> crate::model::value(row, Column::TenantId) == Datum::Text(project.tenant_id)
                && crate::model::value(row, Column::WorkspaceId)
                    == Datum::Text(project.workspace_id)
                && crate::model::value(row, Column::ProjectId) == Datum::Text(project.project_id)
            &&& query.order.len() == 2
            &&& query.order[0] == Order::Ascending(Column::RecordedAt)
            &&& query.order[1] == Order::Ascending(Column::OutcomeId)
            &&& query.limit == Some(limit as i64)
            &&& query.offset == Some(offset as i64)
        }),
{
    broadcast use group_queries;
}

/// The rows that [`PlanReviewRow::get`] selects, and in which order.
pub proof fn plan_review_row_get_selects(db: Database, row: Row, plan_run_id: Seq<char>)
    ensures
        ({
            let query = PlanReviewRow::spec_get(plan_run_id);
            &&& query.table == Table::PlanReviews
            &&& query.output == OutputView::Rows(PlanReviewRow::spec_columns())
            &&& query.selects(db, row)
                <==> crate::model::value(row, Column::PlanRunId) == Datum::Text(plan_run_id)
            &&& query.order.len() == 0
            &&& query.limit == None::<i64>
            &&& query.offset == None::<i64>
        }),
{
    broadcast use group_queries;
}

/// The rows that [`PlanReviewRow::list_by_project`] selects, and in which order.
pub proof fn plan_review_row_list_by_project_selects(
    db: Database,
    row: Row,
    project: ProjectView,
    limit: usize,
    offset: usize,
)
    ensures
        ({
            let query = PlanReviewRow::spec_list_by_project(project, limit, offset);
            &&& query.table == Table::PlanReviews
            &&& query.output == OutputView::Rows(PlanReviewRow::spec_columns())
            &&& query.selects(db, row)
                <==> crate::model::value(row, Column::TenantId) == Datum::Text(project.tenant_id)
                && crate::model::value(row, Column::WorkspaceId)
                    == Datum::Text(project.workspace_id)
                && crate::model::value(row, Column::ProjectId) == Datum::Text(project.project_id)
            &&& query.order.len() == 2
            &&& query.order[0] == Order::Descending(Column::ProposedAt)
            &&& query.order[1] == Order::Descending(Column::PlanRunId)
            &&& query.limit == Some(limit as i64)
            &&& query.offset == Some(offset as i64)
        }),
{
    broadcast use group_queries;
}

/// The rows that [`PlanReviewRow::list_pending_by_project`] selects, and in which order.
pub proof fn plan_review_row_list_pending_by_project_selects(
    db: Database,
    row: Row,
    project: ProjectView,
    limit: usize,
)
    ensures
        ({
            let query = PlanReviewRow::spec_list_pending_by_project(project, limit);
            &&& query.table == Table::PlanReviews
            &&& query.output == OutputView::Rows(PlanReviewRow::spec_columns())
            &&& query.selects(db, row)
                <==> crate::model::value(row, Column::TenantId) == Datum::Text(project.tenant_id)
                && crate::model::value(row, Column::WorkspaceId)
                    == Datum::Text(project.workspace_id)
                && crate::model::value(row, Column::ProjectId) == Datum::Text(project.project_id)
                && crate::model::value(row, Column::State) == Datum::Text("proposed"@)
            &&& query.order.len() == 2
            &&& query.order[0] == Order::Descending(Column::ProposedAt)
            &&& query.order[1] == Order::Descending(Column::PlanRunId)
            &&& query.limit == Some(limit as i64)
            &&& query.offset == None::<i64>
        }),
{
    broadcast use group_queries;
}

/// The rows that [`PlanReviewRow::list_by_session`] selects, and in which order.
pub proof fn plan_review_row_list_by_session_selects(
    db: Database,
    row: Row,
    session_id: Seq<char>,
    limit: usize,
)
    ensures
        ({
            let query = PlanReviewRow::spec_list_by_session(session_id, limit);
            &&& query.table == Table::PlanReviews
            &&& query.output == OutputView::Rows(PlanReviewRow::spec_columns())
            &&& query.selects(db, row)
                <==> crate::model::value(row, Column::SessionId) == Datum::Text(session_id)
            &&& query.order.len() == 2
            &&& query.order[0] == Order::Ascending(Column::ProposedAt)
            &&& query.order[1] == Order::Ascending(Column::PlanRunId)
            &&& query.limit == Some(limit as i64)
            &&& query.offset == None::<i64>
        }),
{
    broadcast use group_queries;
}

/// The rows that [`RunRow::list_stalled`] selects, and in which order.
pub proof fn run_row_list_stalled_selects(
    db: Database,
    row: Row,
    tenant_id: Seq<char>,
    now_ms: u64,
    stale_after_ms: u64,
    limit: usize,
    offset: usize,
)
    ensures
        ({
            let query = RunRow::spec_list_stalled(tenant_id, now_ms, stale_after_ms, limit, offset);
            &&& query.table == Table::Runs
            &&& query.output == OutputView::Rows(RunRow::spec_columns())
            &&& query.selects(db, row)
                <==> crate::model::value(row, Column::TenantId) == Datum::Text(tenant_id)
                    && (
                        crate::model::value(row, Column::State) == Datum::Text("running"@)
                            || crate::model::value(row, Column::State) == Datum::Text("pending"@)
                    )
                    && crate::laws::selecting::is_below(
                        crate::model::value(row, Column::UpdatedAt),
                        (
                            if now_ms < stale_after_ms { 0 } else { now_ms - stale_after_ms }
                        ) as i64 as int,
                    )
            &&& query.order.len() == 2
            &&& query.order[0] == Order::Ascending(Column::UpdatedAt)
            &&& query.order[1] == Order::Ascending(Column::RunId)
            &&& query.limit == Some(limit as i64)
            &&& query.offset == Some(offset as i64)
        }),
{
    broadcast use group_queries;

    crate::laws::selecting::one_of_stalled_run_states(db, row, Column::State);
}

/// The rows that [`crate::read::runs::descendants`] selects, and in which order.
pub proof fn descendants_selects(db: Database, row: Row, root_run_id: Seq<char>)
    ensures
        ({
            let query = crate::read::runs::counter_query(root_run_id);
            &&& query.table == Table::Runs
            &&& query.output == OutputView::Rows(seq![Column::InFlightDescendants])
            &&& query.selects(db, row)
                <==> crate::model::value(row, Column::RunId) == Datum::Text(root_run_id)
            &&& query.order.len() == 0
            &&& query.limit == None::<i64>
            &&& query.offset == None::<i64>
        }),
{
    broadcast use group_queries;
}

/// The rows that [`crate::read::runs::list_nonzero_descendant_counters`] selects, and in
/// which order.
pub proof fn list_nonzero_descendant_counters_selects(db: Database, row: Row)
    ensures
        ({
            let query = crate::read::runs::counters_query();
            &&& query.table == Table::Runs
            &&& query.output == OutputView::Rows(seq![Column::RunId, Column::InFlightDescendants])
            &&& query.selects(db, row)
                <==> crate::model::value(row, Column::InFlightDescendants) != Datum::Null
                    && crate::model::value(row, Column::InFlightDescendants) != Datum::Int(0)
            &&& query.order.len() == 1
            &&& query.order[0] == Order::Ascending(Column::RunId)
            &&& query.limit == Some(10_000i64)
            &&& query.offset == None::<i64>
        }),
{
    broadcast use group_queries;
}

} // verus!
