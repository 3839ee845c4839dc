//! Runs and what belongs to them.

use crate::domain::{DomainNames, ProjectKey, ProjectView};
use crate::error::{ErrorView, StoreError};
use crate::json::quote;
use crate::model::Datum;
use crate::query::{Output, OutputView, Query, QueryView};
use crate::read::{
    Decoded, StoredRow, claimable_run_states_list, closed_states_list, ended_run_states_list,
    name_fault, opt_decoded_fault, opt_name_fault, stalled_run_states_list, to_floor4, to_floor8,
    to_opt_decoded, to_opt_floor8, to_opt_unsigned8,
};
use crate::schema::{Column, Table};
use crate::statement::{
    Changes, ChangesView, Filter, FilterView, Source, SourceView, Statement, StatementView, Test,
    TestView, only,
};
use crate::text::{push_decimal, push_signed};
use crate::value::{SqlValue, ValueView, text};
use crate::vocabulary::{ActualOutcome, PlanReviewState};
use vstd::prelude::*;
use vstd::string::*;

verus! {

/// The time before which a run counts as stalled.
pub open spec fn stale_cutoff(now_ms: u64, stale_after_ms: u64) -> u64 {
    if now_ms < stale_after_ms {
        0
    } else {
        (now_ms - stale_after_ms) as u64
    }
}

/// The error for a number of [`RunRow::list_stalled`] that is above its range.
pub open spec fn exceeded(label: Seq<char>, value: nat) -> ErrorView {
    ErrorView::Internal(
        "list_stalled: "@ + label + crate::text::decimal(value) + " exceeds i64::MAX"@,
    )
}

fn exceeds(label: &str, value: u64) -> (r: StoreError)
    ensures
        r@ == exceeded(label@, value as nat),
{
    let mut message: String = "list_stalled: ".to_owned();
    message.append(label);
    push_decimal(&mut message, value);
    message.append(" exceeds i64::MAX");
    StoreError::Internal(message)
}

/// A row of `runs`.
#[derive(Debug, PartialEq, Eq)]
pub struct RunRow {
    pub run_id: String,
    pub session_id: String,
    pub parent_run_id: Option<String>,
    pub tenant_id: String,
    pub workspace_id: String,
    pub project_id: String,
    pub state: String,
    pub failure_class: Option<String>,
    pub version: i64,
    pub created_at: i64,
    pub updated_at: i64,
    pub completion_summary: Option<String>,
    pub completion_verification: Option<Decoded>,
    pub completion_annotated_at_ms: Option<i64>,
    pub terminal_write_recovery: Option<Decoded>,
    pub in_flight_descendants: i64,
    pub root_run_id: Option<String>,
    pub iteration: i32,
}

/// A run.
#[derive(Debug, PartialEq, Eq)]
pub struct RunRecord {
    pub run_id: String,
    pub session_id: String,
    pub parent_run_id: Option<String>,
    pub project: ProjectKey,
    pub state: String,
    pub prompt_release_id: Option<String>,
    pub agent_role_id: Option<String>,
    pub failure_class: Option<String>,
    pub pause_reason: Option<String>,
    pub resume_trigger: Option<String>,
    pub version: u64,
    pub created_at: u64,
    pub updated_at: u64,
    pub completion_summary: Option<String>,
    pub completion_verification: Option<String>,
    pub completion_annotated_at_ms: Option<u64>,
    pub terminal_write_recovery: Option<String>,
    pub in_flight_descendants: i64,
    pub root_run_id: Option<String>,
    pub iteration: u32,
}

impl RunRow {
    /// The columns that the row is read from.
    pub open spec fn spec_columns() -> Seq<Column> {
        seq![
            Column::RunId,
            Column::SessionId,
            Column::ParentRunId,
            Column::TenantId,
            Column::WorkspaceId,
            Column::ProjectId,
            Column::State,
            Column::FailureClass,
            Column::Version,
            Column::CreatedAt,
            Column::UpdatedAt,
            Column::CompletionSummary,
            Column::CompletionVerificationJson,
            Column::CompletionAnnotatedAtMs,
            Column::TerminalWriteRecoveryJson,
            Column::InFlightDescendants,
            Column::RootRunId,
            Column::Iteration,
        ]
    }

    fn columns() -> (r: Vec<Column>)
        ensures
            r@ == Self::spec_columns(),
    {
        vec![
            Column::RunId,
            Column::SessionId,
            Column::ParentRunId,
            Column::TenantId,
            Column::WorkspaceId,
            Column::ProjectId,
            Column::State,
            Column::FailureClass,
            Column::Version,
            Column::CreatedAt,
            Column::UpdatedAt,
            Column::CompletionSummary,
            Column::CompletionVerificationJson,
            Column::CompletionAnnotatedAtMs,
            Column::TerminalWriteRecoveryJson,
            Column::InFlightDescendants,
            Column::RootRunId,
            Column::Iteration,
        ]
    }

    /// Whether this is what a stored row holds in those columns.
    pub open spec fn is_of(self, row: crate::model::Row) -> bool {
        &&& crate::model::value(row, Column::RunId) == Datum::Text(self.run_id@)
        &&& crate::model::value(row, Column::SessionId) == Datum::Text(self.session_id@)
        &&& crate::model::value(row, Column::ParentRunId) == Datum::opt_text(self.parent_run_id)
        &&& crate::model::value(row, Column::TenantId) == Datum::Text(self.tenant_id@)
        &&& crate::model::value(row, Column::WorkspaceId) == Datum::Text(self.workspace_id@)
        &&& crate::model::value(row, Column::ProjectId) == Datum::Text(self.project_id@)
        &&& crate::model::value(row, Column::State) == Datum::Text(self.state@)
        &&& crate::model::value(row, Column::FailureClass) == Datum::opt_text(self.failure_class)
        &&& crate::model::value(row, Column::Version) == Datum::Int(self.version as int)
        &&& crate::model::value(row, Column::CreatedAt) == Datum::Int(self.created_at as int)
        &&& crate::model::value(row, Column::UpdatedAt) == Datum::Int(self.updated_at as int)
        &&& crate::model::value(row, Column::CompletionSummary) == Datum::opt_text(
            self.completion_summary,
        )
        &&& crate::model::value(row, Column::CompletionVerificationJson) == Datum::opt_decoded_text(
            self.completion_verification,
        )
        &&& crate::model::value(row, Column::CompletionAnnotatedAtMs) == Datum::opt_int8(
            self.completion_annotated_at_ms,
        )
        &&& crate::model::value(row, Column::TerminalWriteRecoveryJson) == Datum::opt_decoded_text(
            self.terminal_write_recovery,
        )
        &&& crate::model::value(row, Column::InFlightDescendants) == Datum::Int(
            self.in_flight_descendants as int,
        )
        &&& crate::model::value(row, Column::RootRunId) == Datum::opt_text(self.root_run_id)
        &&& crate::model::value(row, Column::Iteration) == Datum::Int(self.iteration as int)
    }

    /// The query of [`RunRow::get`].
    pub open spec fn spec_get(run_id: Seq<char>) -> QueryView {
        QueryView::on(Table::Runs, OutputView::Rows(Self::spec_columns()))
            .equals(Column::RunId, ValueView::Text(run_id))
    }

    /// Finds a run.
    pub fn get(run_id: &str) -> (r: Query)
        ensures
            r@ == Self::spec_get(run_id@),
    {
        Query::on(Table::Runs, Output::Rows(Self::columns()))
            .equals(Column::RunId, text(run_id))
    }

    /// The query of [`RunRow::list_by_session`].
    pub open spec fn spec_list_by_session(
        session_id: Seq<char>,
        limit: usize,
        offset: usize,
    ) -> QueryView {
        QueryView::on(Table::Runs, OutputView::Rows(Self::spec_columns()))
            .equals(Column::SessionId, ValueView::Text(session_id))
            .ascending(Column::CreatedAt)
            .ascending(Column::RunId)
            .limit(limit as i64)
            .offset(offset as i64)
    }

    /// The runs of a session, the oldest first.
    pub fn list_by_session(session_id: &str, limit: usize, offset: usize) -> (r: Query)
        ensures
            r@ == Self::spec_list_by_session(session_id@, limit, offset),
    {
        Query::on(Table::Runs, Output::Rows(Self::columns()))
            .equals(Column::SessionId, text(session_id))
            .ascending(Column::CreatedAt)
            .ascending(Column::RunId)
            .limit(limit as i64)
            .offset(offset as i64)
    }

    /// The query of [`RunRow::any_non_terminal`].
    pub open spec fn spec_any_non_terminal(session_id: Seq<char>) -> QueryView {
        QueryView::on(Table::Runs, OutputView::Exists)
            .equals(Column::SessionId, ValueView::Text(session_id))
            .test(TestView::NoneOf(Column::State, crate::read::ended_run_states()))
    }

    /// Whether a session has a run that did not end.
    pub fn any_non_terminal(session_id: &str) -> (r: Query)
        ensures
            r@ == Self::spec_any_non_terminal(session_id@),
    {
        Query::on(Table::Runs, Output::Exists)
            .equals(Column::SessionId, text(session_id))
            .test(Test::NoneOf(Column::State, ended_run_states_list()))
    }

    /// The query of [`RunRow::latest_root_run`].
    pub open spec fn spec_latest_root_run(session_id: Seq<char>) -> QueryView {
        QueryView::on(Table::Runs, OutputView::Rows(Self::spec_columns()))
            .equals(Column::SessionId, ValueView::Text(session_id))
            .test(TestView::IsNull(Column::ParentRunId))
            .descending(Column::CreatedAt)
            .descending(Column::RunId)
            .limit(1)
    }

    /// The newest run of a session that has no parent.
    pub fn latest_root_run(session_id: &str) -> (r: Query)
        ensures
            r@ == Self::spec_latest_root_run(session_id@),
    {
        Query::on(Table::Runs, Output::Rows(Self::columns()))
            .equals(Column::SessionId, text(session_id))
            .test(Test::IsNull(Column::ParentRunId))
            .descending(Column::CreatedAt)
            .descending(Column::RunId)
            .limit(1)
    }

    /// The query of [`RunRow::list_by_state`].
    pub open spec fn spec_list_by_state(state: Seq<char>, limit: usize) -> QueryView {
        QueryView::on(Table::Runs, OutputView::Rows(Self::spec_columns()))
            .equals(Column::State, ValueView::Text(state))
            .ascending(Column::CreatedAt)
            .ascending(Column::RunId)
            .limit(limit as i64)
    }

    /// The runs in a state, the oldest first.
    pub fn list_by_state(state: &str, limit: usize) -> (r: Query)
        ensures
            r@ == Self::spec_list_by_state(state@, limit),
    {
        Query::on(Table::Runs, Output::Rows(Self::columns()))
            .equals(Column::State, text(state))
            .ascending(Column::CreatedAt)
            .ascending(Column::RunId)
            .limit(limit as i64)
    }

    /// The query of [`RunRow::list_driver_claimable_children`].
    pub open spec fn spec_list_driver_claimable_children(limit: usize) -> QueryView {
        QueryView::on(Table::Runs, OutputView::Rows(Self::spec_columns()))
            .test(TestView::OneOf(Column::State, crate::read::claimable_run_states()))
            .test(TestView::NotNull(Column::ParentRunId))
            .ascending(Column::CreatedAt)
            .ascending(Column::RunId)
            .limit(limit as i64)
    }

    /// The pending and running runs that have a parent, the oldest first.
    pub fn list_driver_claimable_children(limit: usize) -> (r: Query)
        ensures
            r@ == Self::spec_list_driver_claimable_children(limit),
    {
        Query::on(Table::Runs, Output::Rows(Self::columns()))
            .test(Test::OneOf(Column::State, claimable_run_states_list()))
            .test(Test::NotNull(Column::ParentRunId))
            .ascending(Column::CreatedAt)
            .ascending(Column::RunId)
            .limit(limit as i64)
    }

    /// The query of [`RunRow::list_active_by_project`].
    pub open spec fn spec_list_active_by_project(project: ProjectView, limit: usize) -> QueryView {
        QueryView::on(Table::Runs, OutputView::Rows(Self::spec_columns()))
            .equals(Column::TenantId, ValueView::Text(project.tenant_id))
            .equals(Column::WorkspaceId, ValueView::Text(project.workspace_id))
            .equals(Column::ProjectId, ValueView::Text(project.project_id))
            .test(TestView::NoneOf(Column::State, crate::read::closed_states()))
            .ascending(Column::CreatedAt)
            .ascending(Column::RunId)
            .limit(limit as i64)
    }

    /// The runs of a project that did not end, the oldest first.
    pub fn list_active_by_project(project: &ProjectKey, limit: usize) -> (r: Query)
        ensures
            r@ == Self::spec_list_active_by_project(project@, limit),
            r@.stays_in(Column::WorkspaceId, project@),
    {
        let query = Query::on(Table::Runs, Output::Rows(Self::columns()))
            .equals(Column::TenantId, text(&project.tenant_id))
            .equals(Column::WorkspaceId, text(&project.workspace_id))
            .equals(Column::ProjectId, text(&project.project_id))
            .test(Test::NoneOf(Column::State, closed_states_list()))
            .ascending(Column::CreatedAt)
            .ascending(Column::RunId)
            .limit(limit as i64);
        proof {
            query@.tests_keep_to_a_project(0, Column::WorkspaceId, project@);
        }
        query
    }

    /// The query of [`RunRow::list_by_parent_run`].
    pub open spec fn spec_list_by_parent_run(parent_run_id: Seq<char>, limit: usize) -> QueryView {
        QueryView::on(Table::Runs, OutputView::Rows(Self::spec_columns()))
            .equals(Column::ParentRunId, ValueView::Text(parent_run_id))
            .ascending(Column::CreatedAt)
            .ascending(Column::RunId)
            .limit(limit as i64)
    }

    /// The runs that a run started, the oldest first.
    pub fn list_by_parent_run(parent_run_id: &str, limit: usize) -> (r: Query)
        ensures
            r@ == Self::spec_list_by_parent_run(parent_run_id@, limit),
    {
        Query::on(Table::Runs, Output::Rows(Self::columns()))
            .equals(Column::ParentRunId, text(parent_run_id))
            .ascending(Column::CreatedAt)
            .ascending(Column::RunId)
            .limit(limit as i64)
    }

    /// The query of [`RunRow::list_stalled`].
    pub open spec fn spec_list_stalled(
        tenant_id: Seq<char>,
        now_ms: u64,
        stale_after_ms: u64,
        limit: usize,
        offset: usize,
    ) -> QueryView {
        QueryView::on(Table::Runs, OutputView::Rows(Self::spec_columns()))
            .equals(Column::TenantId, ValueView::Text(tenant_id))
            .test(TestView::OneOf(Column::State, crate::read::stalled_run_states()))
            .test(
                TestView::Below(
                    Column::UpdatedAt,
                    ValueView::Int8(stale_cutoff(now_ms, stale_after_ms) as i64),
                ),
            )
            .ascending(Column::UpdatedAt)
            .ascending(Column::RunId)
            .limit(limit as i64)
            .offset(offset as i64)
    }

    /// The running and pending runs of a tenant that did not change for a time, the longest
    /// unchanged first. A number that is above the range of its column is refused.
    pub fn list_stalled(
        tenant_id: &str,
        now_ms: u64,
        stale_after_ms: u64,
        limit: usize,
        offset: usize,
    ) -> (r: Result<Query, StoreError>)
        ensures
            match r {
                Err(e) => {
                    ||| stale_cutoff(now_ms, stale_after_ms) > i64::MAX
                        && e@ == exceeded(
                            "stale_cutoff_ms="@,
                            stale_cutoff(now_ms, stale_after_ms) as nat,
                        )
                    ||| !(stale_cutoff(now_ms, stale_after_ms) > i64::MAX) && limit > i64::MAX
                        && e@ == exceeded("limit="@, limit as nat)
                    ||| !(stale_cutoff(now_ms, stale_after_ms) > i64::MAX) && !(limit > i64::MAX)
                        && offset > i64::MAX && e@ == exceeded("offset="@, offset as nat)
                },
                Ok(q) => {
                    &&& !(stale_cutoff(now_ms, stale_after_ms) > i64::MAX)
                    &&& !(limit > i64::MAX)
                    &&& !(offset > i64::MAX)
                    &&& q@ == Self::spec_list_stalled(
                        tenant_id@,
                        now_ms,
                        stale_after_ms,
                        limit,
                        offset,
                    )
                },
            },
    {
        let cutoff: u64 = if now_ms < stale_after_ms {
            0
        } else {
            now_ms - stale_after_ms
        };
        if cutoff > i64::MAX as u64 {
            return Err(exceeds("stale_cutoff_ms=", cutoff));
        }
        if limit as u64 > i64::MAX as u64 {
            return Err(exceeds("limit=", limit as u64));
        }
        if offset as u64 > i64::MAX as u64 {
            return Err(exceeds("offset=", offset as u64));
        }
        Ok(
            Query::on(Table::Runs, Output::Rows(Self::columns()))
                .equals(Column::TenantId, text(tenant_id))
                .test(Test::OneOf(Column::State, stalled_run_states_list()))
                .test(Test::Below(Column::UpdatedAt, SqlValue::Int8(cutoff as i64)))
                .ascending(Column::UpdatedAt)
                .ascending(Column::RunId)
                .limit(limit as i64)
                .offset(offset as i64),
        )
    }
}

impl StoredRow for RunRow {
    type Record = RunRecord;

    open spec fn fault(&self, names: &DomainNames) -> Option<ErrorView> {
        if self.completion_verification is Some
            && self.completion_verification->Some_0.fault is Some {
            Some(ErrorView::Serialization(self.completion_verification->Some_0.fault->Some_0@))
        } else if self.completion_annotated_at_ms is Some
            && self.completion_annotated_at_ms->Some_0 < 0 {
            Some(
                ErrorView::Serialization(
                    "runs.completion_annotated_at_ms "@ + crate::text::signed_decimal(
                        self.completion_annotated_at_ms->Some_0 as int,
                    ) + " is negative or out of u64 range"@,
                ),
            )
        } else if !names.run_states.deep_view().contains(self.state@) {
            Some(ErrorView::unknown_name(self.state@, names.run_states.deep_view()))
        } else if self.failure_class is Some
            && !names.failure_classes.deep_view().contains(self.failure_class->Some_0@) {
            Some(
                ErrorView::unknown_name(
                    self.failure_class->Some_0@,
                    names.failure_classes.deep_view(),
                ),
            )
        } else if self.terminal_write_recovery is Some
            && self.terminal_write_recovery->Some_0.fault is Some {
            Some(ErrorView::Serialization(self.terminal_write_recovery->Some_0.fault->Some_0@))
        } else {
            None
        }
    }

    open spec fn holds(&self, names: &DomainNames, record: &RunRecord) -> bool {
        &&& record.run_id == self.run_id
        &&& record.session_id == self.session_id
        &&& record.parent_run_id == self.parent_run_id
        &&& record.project == (ProjectKey {
            tenant_id: self.tenant_id,
            workspace_id: self.workspace_id,
            project_id: self.project_id,
        })
        &&& record.state == self.state
        &&& record.prompt_release_id is None
        &&& record.agent_role_id is None
        &&& record.failure_class == self.failure_class
        &&& record.pause_reason is None
        &&& record.resume_trigger is None
        &&& record.version == self.version as u64
        &&& record.created_at == self.created_at as u64
        &&& record.updated_at == self.updated_at as u64
        &&& record.completion_summary == self.completion_summary
        &&& record.completion_verification == crate::read::opt_decoded(self.completion_verification)
        &&& record.completion_annotated_at_ms == crate::read::opt_unsigned8(
            self.completion_annotated_at_ms,
        )
        &&& record.terminal_write_recovery == crate::read::opt_decoded(self.terminal_write_recovery)
        &&& record.in_flight_descendants == self.in_flight_descendants
        &&& record.root_run_id == self.root_run_id
        &&& record.iteration == crate::read::floor4(self.iteration)
    }

    fn into_record(self, names: &DomainNames) -> (r: Result<RunRecord, StoreError>) {
        if let Some(e) = opt_decoded_fault(&self.completion_verification) {
            return Err(e);
        }
        if let Some(v) = self.completion_annotated_at_ms {
            if v < 0 {
                let mut message: String = "runs.completion_annotated_at_ms ".to_owned();
                push_signed(&mut message, v);
                message.append(" is negative or out of u64 range");
                return Err(StoreError::Serialization(message));
            }
        }
        if let Some(e) = name_fault(&self.state, &names.run_states) {
            return Err(e);
        }
        if let Some(e) = opt_name_fault(&self.failure_class, &names.failure_classes) {
            return Err(e);
        }
        if let Some(e) = opt_decoded_fault(&self.terminal_write_recovery) {
            return Err(e);
        }
        Ok(
            RunRecord {
                run_id: self.run_id,
                session_id: self.session_id,
                parent_run_id: self.parent_run_id,
                project: ProjectKey {
                    tenant_id: self.tenant_id,
                    workspace_id: self.workspace_id,
                    project_id: self.project_id,
                },
                state: self.state,
                prompt_release_id: None,
                agent_role_id: None,
                failure_class: self.failure_class,
                pause_reason: None,
                resume_trigger: None,
                version: self.version as u64,
                created_at: self.created_at as u64,
                updated_at: self.updated_at as u64,
                completion_summary: self.completion_summary,
                completion_verification: to_opt_decoded(self.completion_verification),
                completion_annotated_at_ms: to_opt_unsigned8(self.completion_annotated_at_ms),
                terminal_write_recovery: to_opt_decoded(self.terminal_write_recovery),
                in_flight_descendants: self.in_flight_descendants,
                root_run_id: self.root_run_id,
                iteration: to_floor4(self.iteration),
            },
        )
    }
}

/// How a change of the counter of a root run's unfinished descendants ended.
#[derive(Clone, Copy, Debug, PartialEq, Eq, Structural)]
pub enum DescendantsCapOutcome {
    /// The counter was changed.
    Admitted { new_count: i64 },
    /// The counter has reached the cap.
    CapReached,
    /// There is no such run.
    RootNotFound,
}

/// The increment of a root run's counter of unfinished descendants, which
/// happens only below the cap.
pub open spec fn increment(root_run_id: Seq<char>, cap: i64, now: i64) -> StatementView {
    ChangesView::new()
        .source(Column::InFlightDescendants, SourceView::Plus(ValueView::Int8(1)))
        .source(Column::Version, SourceView::Plus(ValueView::Int8(1)))
        .put(Column::UpdatedAt, ValueView::Int8(now))
        .update(
            Table::Runs,
            FilterView::new()
                .equals(Column::RunId, ValueView::Text(root_run_id))
                .test(TestView::Below(Column::InFlightDescendants, ValueView::Int8(cap))),
        )
}

/// The increment of a root run's counter of unfinished descendants, which
/// happens only below the cap.
pub fn try_increment_descendants(root_run_id: &str, cap: i64, now: i64) -> (r: Statement)
    ensures
        r@ == increment(root_run_id@, cap, now),
{
    let mut changes = Changes::new();
    changes.source(Column::InFlightDescendants, Source::Plus(SqlValue::Int8(1)));
    changes.source(Column::Version, Source::Plus(SqlValue::Int8(1)));
    changes.put(Column::UpdatedAt, SqlValue::Int8(now));
    let mut filter = Filter::new();
    filter.equals(Column::RunId, text(root_run_id));
    filter.test(Test::Below(Column::InFlightDescendants, SqlValue::Int8(cap)));
    changes.update(Table::Runs, filter)
}

/// The decrement of a root run's counter of unfinished descendants.
pub open spec fn decrement(root_run_id: Seq<char>, now: i64) -> StatementView {
    ChangesView::new()
        .source(Column::InFlightDescendants, SourceView::Plus(ValueView::Int8((-1) as i64)))
        .source(Column::Version, SourceView::Plus(ValueView::Int8(1)))
        .put(Column::UpdatedAt, ValueView::Int8(now))
        .update(
            Table::Runs,
            FilterView::new().equals(Column::RunId, ValueView::Text(root_run_id)),
        )
}

/// The decrement of a root run's counter of unfinished descendants.
pub fn decrement_descendants(root_run_id: &str, now: i64) -> (r: Statement)
    ensures
        r@ == decrement(root_run_id@, now),
{
    let mut changes = Changes::new();
    changes.source(Column::InFlightDescendants, Source::Plus(SqlValue::Int8(-1)));
    changes.source(Column::Version, Source::Plus(SqlValue::Int8(1)));
    changes.put(Column::UpdatedAt, SqlValue::Int8(now));
    let mut filter = Filter::new();
    filter.equals(Column::RunId, text(root_run_id));
    changes.update(Table::Runs, filter)
}

/// What an increment did, from the new count that it answered with and, where
/// it answered with none, from whether the run is there.
pub fn incremented(new_count: Option<i64>, found: Option<i64>) -> (r: DescendantsCapOutcome)
    ensures
        r == match (new_count, found) {
            (Some(n), _) => DescendantsCapOutcome::Admitted { new_count: n },
            (None, Some(_)) => DescendantsCapOutcome::CapReached,
            (None, None) => DescendantsCapOutcome::RootNotFound,
        },
{
    match new_count {
        Some(n) => DescendantsCapOutcome::Admitted { new_count: n },
        None => match found {
            Some(_) => DescendantsCapOutcome::CapReached,
            None => DescendantsCapOutcome::RootNotFound,
        },
    }
}

/// What a decrement did, from the new count that it answered with.
pub fn decremented(new_count: Option<i64>) -> (r: DescendantsCapOutcome)
    ensures
        r == match new_count {
            Some(n) => DescendantsCapOutcome::Admitted { new_count: n },
            None => DescendantsCapOutcome::RootNotFound,
        },
{
    match new_count {
        Some(n) => DescendantsCapOutcome::Admitted { new_count: n },
        None => DescendantsCapOutcome::RootNotFound,
    }
}

/// How many counters are listed at most.
pub const RECONCILE_LIMIT: i64 = 10_000;

/// The query of [`descendants`].
pub open spec fn counter_query(root_run_id: Seq<char>) -> QueryView {
    QueryView::on(Table::Runs, OutputView::Rows(seq![Column::InFlightDescendants]))
        .equals(Column::RunId, ValueView::Text(root_run_id))
}

/// The counter of a run's unfinished descendants.
pub fn descendants(root_run_id: &str) -> (r: Query)
    ensures
        r@ == counter_query(root_run_id@),
{
    Query::on(Table::Runs, Output::Rows(only(Column::InFlightDescendants)))
        .equals(Column::RunId, text(root_run_id))
}

/// The query of [`list_nonzero_descendant_counters`].
pub open spec fn counters_query() -> QueryView {
    QueryView::on(
        Table::Runs,
        OutputView::Rows(seq![Column::RunId, Column::InFlightDescendants]),
    )
        .test(TestView::Differs(Column::InFlightDescendants, ValueView::Int8(0)))
        .ascending(Column::RunId)
        .limit(RECONCILE_LIMIT)
}

/// The runs whose counter of unfinished descendants is not zero, with the counter.
pub fn list_nonzero_descendant_counters() -> (r: Query)
    ensures
        r@ == counters_query(),
{
    Query::on(Table::Runs, Output::Rows(vec![Column::RunId, Column::InFlightDescendants]))
        .test(Test::Differs(Column::InFlightDescendants, SqlValue::Int8(0)))
        .ascending(Column::RunId)
        .limit(RECONCILE_LIMIT)
}

/// A row of `subagent_spawns`.
#[derive(Debug, PartialEq, Eq)]
pub struct SubagentSpawnRow {
    pub child_task_id: String,
    pub tenant_id: String,
    pub workspace_id: String,
    pub project_id: String,
    pub parent_run_id: String,
    pub parent_task_id: Option<String>,
    pub child_session_id: String,
    pub child_run_id: Option<String>,
    pub spawned_at_ms: i64,
    pub goal: String,
    pub role: String,
}

/// A subagent that a run started.
#[derive(Debug, PartialEq, Eq)]
pub struct SubagentSpawnRecord {
    pub child_task_id: String,
    pub project: ProjectKey,
    pub parent_run_id: String,
    pub parent_task_id: Option<String>,
    pub child_session_id: String,
    pub child_run_id: Option<String>,
    pub spawned_at_ms: u64,
    pub goal: String,
    pub role: String,
}

impl SubagentSpawnRow {
    /// The columns that the row is read from.
    pub open spec fn spec_columns() -> Seq<Column> {
        seq![
            Column::ChildTaskId,
            Column::TenantId,
            Column::WorkspaceId,
            Column::ProjectId,
            Column::ParentRunId,
            Column::ParentTaskId,
            Column::ChildSessionId,
            Column::ChildRunId,
            Column::SpawnedAtMs,
            Column::Goal,
            Column::Role,
        ]
    }

    fn columns() -> (r: Vec<Column>)
        ensures
            r@ == Self::spec_columns(),
    {
        vec![
            Column::ChildTaskId,
            Column::TenantId,
            Column::WorkspaceId,
            Column::ProjectId,
            Column::ParentRunId,
            Column::ParentTaskId,
            Column::ChildSessionId,
            Column::ChildRunId,
            Column::SpawnedAtMs,
            Column::Goal,
            Column::Role,
        ]
    }

    /// Whether this is what a stored row holds in those columns.
    pub open spec fn is_of(self, row: crate::model::Row) -> bool {
        &&& crate::model::value(row, Column::ChildTaskId) == Datum::Text(self.child_task_id@)
        &&& crate::model::value(row, Column::TenantId) == Datum::Text(self.tenant_id@)
        &&& crate::model::value(row, Column::WorkspaceId) == Datum::Text(self.workspace_id@)
        &&& crate::model::value(row, Column::ProjectId) == Datum::Text(self.project_id@)
        &&& crate::model::value(row, Column::ParentRunId) == Datum::Text(self.parent_run_id@)
        &&& crate::model::value(row, Column::ParentTaskId) == Datum::opt_text(self.parent_task_id)
        &&& crate::model::value(row, Column::ChildSessionId) == Datum::Text(self.child_session_id@)
        &&& crate::model::value(row, Column::ChildRunId) == Datum::opt_text(self.child_run_id)
        &&& crate::model::value(row, Column::SpawnedAtMs) == Datum::Int(self.spawned_at_ms as int)
        &&& crate::model::value(row, Column::Goal) == Datum::Text(self.goal@)
        &&& crate::model::value(row, Column::Role) == Datum::Text(self.role@)
    }

    /// The query of [`SubagentSpawnRow::get_by_child_task`].
    pub open spec fn spec_get_by_child_task(child_task_id: Seq<char>) -> QueryView {
        QueryView::on(Table::SubagentSpawns, OutputView::Rows(Self::spec_columns()))
            .equals(Column::ChildTaskId, ValueView::Text(child_task_id))
    }

    /// Finds the subagent of a task.
    pub fn get_by_child_task(child_task_id: &str) -> (r: Query)
        ensures
            r@ == Self::spec_get_by_child_task(child_task_id@),
    {
        Query::on(Table::SubagentSpawns, Output::Rows(Self::columns()))
            .equals(Column::ChildTaskId, text(child_task_id))
    }

    /// The query of [`SubagentSpawnRow::get_by_child_run_id`].
    pub open spec fn spec_get_by_child_run_id(child_run_id: Seq<char>) -> QueryView {
        QueryView::on(Table::SubagentSpawns, OutputView::Rows(Self::spec_columns()))
            .equals(Column::ChildRunId, ValueView::Text(child_run_id))
            .limit(1)
    }

    /// Finds the subagent of a run.
    pub fn get_by_child_run_id(child_run_id: &str) -> (r: Query)
        ensures
            r@ == Self::spec_get_by_child_run_id(child_run_id@),
    {
        Query::on(Table::SubagentSpawns, Output::Rows(Self::columns()))
            .equals(Column::ChildRunId, text(child_run_id))
            .limit(1)
    }

    /// The query of [`SubagentSpawnRow::list_by_parent_run`].
    pub open spec fn spec_list_by_parent_run(parent_run_id: Seq<char>) -> QueryView {
        QueryView::on(Table::SubagentSpawns, OutputView::Rows(Self::spec_columns()))
            .equals(Column::ParentRunId, ValueView::Text(parent_run_id))
            .ascending(Column::SpawnedAtMs)
            .ascending(Column::ChildTaskId)
    }

    /// The subagents that a run started, the oldest first.
    pub fn list_by_parent_run(parent_run_id: &str) -> (r: Query)
        ensures
            r@ == Self::spec_list_by_parent_run(parent_run_id@),
    {
        Query::on(Table::SubagentSpawns, Output::Rows(Self::columns()))
            .equals(Column::ParentRunId, text(parent_run_id))
            .ascending(Column::SpawnedAtMs)
            .ascending(Column::ChildTaskId)
    }
}

impl StoredRow for SubagentSpawnRow {
    type Record = SubagentSpawnRecord;

    open spec fn fault(&self, names: &DomainNames) -> Option<ErrorView> {
        None
    }

    open spec fn holds(&self, names: &DomainNames, record: &SubagentSpawnRecord) -> bool {
        &&& record.child_task_id == self.child_task_id
        &&& record.project == (ProjectKey {
            tenant_id: self.tenant_id,
            workspace_id: self.workspace_id,
            project_id: self.project_id,
        })
        &&& record.parent_run_id == self.parent_run_id
        &&& record.parent_task_id == self.parent_task_id
        &&& record.child_session_id == self.child_session_id
        &&& record.child_run_id == self.child_run_id
        &&& record.spawned_at_ms == crate::read::floor8(self.spawned_at_ms)
        &&& record.goal == self.goal
        &&& record.role == self.role
    }

    fn into_record(self, names: &DomainNames) -> (r: Result<SubagentSpawnRecord, StoreError>) {
        Ok(
            SubagentSpawnRecord {
                child_task_id: self.child_task_id,
                project: ProjectKey {
                    tenant_id: self.tenant_id,
                    workspace_id: self.workspace_id,
                    project_id: self.project_id,
                },
                parent_run_id: self.parent_run_id,
                parent_task_id: self.parent_task_id,
                child_session_id: self.child_session_id,
                child_run_id: self.child_run_id,
                spawned_at_ms: to_floor8(self.spawned_at_ms),
                goal: self.goal,
                role: self.role,
            },
        )
    }
}

/// A row of `pause_schedules`.
#[derive(Debug, PartialEq, Eq)]
pub struct PauseScheduleRow {
    pub run_id: String,
    pub tenant_id: String,
    pub workspace_id: String,
    pub project_id: String,
    pub resume_at_ms: i64,
    pub created_at_ms: i64,
}

/// A paused run with the time at which it goes on.
#[derive(Debug, PartialEq, Eq)]
pub struct PauseScheduledRecord {
    pub run_id: String,
    pub project: ProjectKey,
    pub resume_at_ms: u64,
    pub created_at_ms: u64,
}

impl PauseScheduleRow {
    /// The columns that the row is read from.
    pub open spec fn spec_columns() -> Seq<Column> {
        seq![
            Column::RunId,
            Column::TenantId,
            Column::WorkspaceId,
            Column::ProjectId,
            Column::ResumeAtMs,
            Column::CreatedAtMs,
        ]
    }

    fn columns() -> (r: Vec<Column>)
        ensures
            r@ == Self::spec_columns(),
    {
        vec![
            Column::RunId,
            Column::TenantId,
            Column::WorkspaceId,
            Column::ProjectId,
            Column::ResumeAtMs,
            Column::CreatedAtMs,
        ]
    }

    /// Whether this is what a stored row holds in those columns.
    pub open spec fn is_of(self, row: crate::model::Row) -> bool {
        &&& crate::model::value(row, Column::RunId) == Datum::Text(self.run_id@)
        &&& crate::model::value(row, Column::TenantId) == Datum::Text(self.tenant_id@)
        &&& crate::model::value(row, Column::WorkspaceId) == Datum::Text(self.workspace_id@)
        &&& crate::model::value(row, Column::ProjectId) == Datum::Text(self.project_id@)
        &&& crate::model::value(row, Column::ResumeAtMs) == Datum::Int(self.resume_at_ms as int)
        &&& crate::model::value(row, Column::CreatedAtMs) == Datum::Int(self.created_at_ms as int)
    }
}

/// The nearest number that a column of 64 bits holds.
pub open spec fn nearest(v: u64) -> i64 {
    if v > i64::MAX {
        i64::MAX
    } else {
        v as i64
    }
}

fn to_nearest(v: u64) -> (r: i64)
    ensures
        r == nearest(v),
{
    if v > i64::MAX as u64 {
        i64::MAX
    } else {
        v as i64
    }
}

impl PauseScheduleRow {
    /// The query of [`PauseScheduleRow::list_due`].
    pub open spec fn spec_list_due(
        tenant_id: Seq<char>,
        before_ms: u64,
        limit: usize,
    ) -> QueryView {
        QueryView::on(Table::PauseSchedules, OutputView::Rows(Self::spec_columns()))
            .equals(Column::TenantId, ValueView::Text(tenant_id))
            .test(TestView::AtMost(Column::ResumeAtMs, ValueView::Int8(nearest(before_ms))))
            .ascending(Column::ResumeAtMs)
            .ascending(Column::RunId)
            .limit(nearest(limit as u64))
    }

    /// The runs of a tenant that are due to go on, the earliest due first.
    pub fn list_due(tenant_id: &str, before_ms: u64, limit: usize) -> (r: Query)
        ensures
            r@ == Self::spec_list_due(tenant_id@, before_ms, limit),
    {
        let before: i64 = to_nearest(before_ms);
        let most: i64 = to_nearest(limit as u64);
        Query::on(Table::PauseSchedules, Output::Rows(Self::columns()))
            .equals(Column::TenantId, text(tenant_id))
            .test(Test::AtMost(Column::ResumeAtMs, SqlValue::Int8(before)))
            .ascending(Column::ResumeAtMs)
            .ascending(Column::RunId)
            .limit(most)
    }
}

impl StoredRow for PauseScheduleRow {
    type Record = PauseScheduledRecord;

    open spec fn fault(&self, names: &DomainNames) -> Option<ErrorView> {
        None
    }

    open spec fn holds(&self, names: &DomainNames, record: &PauseScheduledRecord) -> bool {
        &&& record.run_id == self.run_id
        &&& record.project == (ProjectKey {
            tenant_id: self.tenant_id,
            workspace_id: self.workspace_id,
            project_id: self.project_id,
        })
        &&& record.resume_at_ms == crate::read::floor8(self.resume_at_ms)
        &&& record.created_at_ms == crate::read::floor8(self.created_at_ms)
    }

    fn into_record(self, names: &DomainNames) -> (r: Result<PauseScheduledRecord, StoreError>) {
        Ok(
            PauseScheduledRecord {
                run_id: self.run_id,
                project: ProjectKey {
                    tenant_id: self.tenant_id,
                    workspace_id: self.workspace_id,
                    project_id: self.project_id,
                },
                resume_at_ms: to_floor8(self.resume_at_ms),
                created_at_ms: to_floor8(self.created_at_ms),
            },
        )
    }
}

/// A row of `outcomes`. The predicted confidence is a double, by its bits.
#[derive(Debug, PartialEq, Eq)]
pub struct OutcomeRow {
    pub outcome_id: String,
    pub run_id: String,
    pub tenant_id: String,
    pub workspace_id: String,
    pub project_id: String,
    pub agent_type: String,
    pub predicted_confidence: u64,
    pub actual_outcome: String,
    pub recorded_at: i64,
}

/// How a run turned out.
#[derive(Debug, PartialEq, Eq)]
pub struct OutcomeRecord {
    pub outcome_id: String,
    pub run_id: String,
    pub project: ProjectKey,
    pub agent_type: String,
    pub predicted_confidence: u64,
    pub actual_outcome: ActualOutcome,
    pub recorded_at: u64,
}

impl OutcomeRow {
    /// The columns that the row is read from.
    pub open spec fn spec_columns() -> Seq<Column> {
        seq![
            Column::OutcomeId,
            Column::RunId,
            Column::TenantId,
            Column::WorkspaceId,
            Column::ProjectId,
            Column::AgentType,
            Column::PredictedConfidence,
            Column::ActualOutcome,
            Column::RecordedAt,
        ]
    }

    fn columns() -> (r: Vec<Column>)
        ensures
            r@ == Self::spec_columns(),
    {
        vec![
            Column::OutcomeId,
            Column::RunId,
            Column::TenantId,
            Column::WorkspaceId,
            Column::ProjectId,
            Column::AgentType,
            Column::PredictedConfidence,
            Column::ActualOutcome,
            Column::RecordedAt,
        ]
    }

    /// Whether this is what a stored row holds in those columns.
    pub open spec fn is_of(self, row: crate::model::Row) -> bool {
        &&& crate::model::value(row, Column::OutcomeId) == Datum::Text(self.outcome_id@)
        &&& crate::model::value(row, Column::RunId) == Datum::Text(self.run_id@)
        &&& crate::model::value(row, Column::TenantId) == Datum::Text(self.tenant_id@)
        &&& crate::model::value(row, Column::WorkspaceId) == Datum::Text(self.workspace_id@)
        &&& crate::model::value(row, Column::ProjectId) == Datum::Text(self.project_id@)
        &&& crate::model::value(row, Column::AgentType) == Datum::Text(self.agent_type@)
        &&& crate::model::value(row, Column::PredictedConfidence) == Datum::Float8(
            self.predicted_confidence,
        )
        &&& crate::model::value(row, Column::ActualOutcome) == Datum::Text(self.actual_outcome@)
        &&& crate::model::value(row, Column::RecordedAt) == Datum::Int(self.recorded_at as int)
    }

    /// The query of [`OutcomeRow::get`].
    pub open spec fn spec_get(outcome_id: Seq<char>) -> QueryView {
        QueryView::on(Table::Outcomes, OutputView::Rows(Self::spec_columns()))
            .equals(Column::OutcomeId, ValueView::Text(outcome_id))
    }

    /// Finds an outcome.
    pub fn get(outcome_id: &str) -> (r: Query)
        ensures
            r@ == Self::spec_get(outcome_id@),
    {
        Query::on(Table::Outcomes, Output::Rows(Self::columns()))
            .equals(Column::OutcomeId, text(outcome_id))
    }

    /// The query of [`OutcomeRow::list_by_run`].
    pub open spec fn spec_list_by_run(run_id: Seq<char>, limit: usize) -> QueryView {
        QueryView::on(Table::Outcomes, OutputView::Rows(Self::spec_columns()))
            .equals(Column::RunId, ValueView::Text(run_id))
            .ascending(Column::RecordedAt)
            .ascending(Column::OutcomeId)
            .limit(limit as i64)
    }

    /// The outcomes of a run, the oldest first.
    pub fn list_by_run(run_id: &str, limit: usize) -> (r: Query)
        ensures
            r@ == Self::spec_list_by_run(run_id@, limit),
    {
        Query::on(Table::Outcomes, Output::Rows(Self::columns()))
            .equals(Column::RunId, text(run_id))
            .ascending(Column::RecordedAt)
            .ascending(Column::OutcomeId)
            .limit(limit as i64)
    }

    /// The query of [`OutcomeRow::list_by_project`].
    pub open spec fn spec_list_by_project(
        project: ProjectView,
        limit: usize,
        offset: usize,
    ) -> QueryView {
        QueryView::on(Table::Outcomes, OutputView::Rows(Self::spec_columns()))
            .equals(Column::TenantId, ValueView::Text(project.tenant_id))
            .equals(Column::WorkspaceId, ValueView::Text(project.workspace_id))
            .equals(Column::ProjectId, ValueView::Text(project.project_id))
            .ascending(Column::RecordedAt)
            .ascending(Column::OutcomeId)
            .limit(limit as i64)
            .offset(offset as i64)
    }

    /// The outcomes of a project, the oldest first.
    pub fn list_by_project(project: &ProjectKey, limit: usize, offset: usize) -> (r: Query)
        ensures
            r@ == Self::spec_list_by_project(project@, limit, offset),
            r@.stays_in(Column::WorkspaceId, project@),
    {
        let query = Query::on(Table::Outcomes, Output::Rows(Self::columns()))
            .equals(Column::TenantId, text(&project.tenant_id))
            .equals(Column::WorkspaceId, text(&project.workspace_id))
            .equals(Column::ProjectId, text(&project.project_id))
            .ascending(Column::RecordedAt)
            .ascending(Column::OutcomeId)
            .limit(limit as i64)
            .offset(offset as i64);
        proof {
            query@.tests_keep_to_a_project(0, Column::WorkspaceId, project@);
        }
        query
    }
}

impl StoredRow for OutcomeRow {
    type Record = OutcomeRecord;

    open spec fn fault(&self, names: &DomainNames) -> Option<ErrorView> {
        if ActualOutcome::spec_parse(self.actual_outcome@) is None {
            Some(
                ErrorView::Internal(
                    "outcomes.actual_outcome: unknown value "@ + crate::json::quoted(
                        self.actual_outcome@,
                    ),
                ),
            )
        } else {
            None
        }
    }

    open spec fn holds(&self, names: &DomainNames, record: &OutcomeRecord) -> bool {
        &&& record.outcome_id == self.outcome_id
        &&& record.run_id == self.run_id
        &&& record.project == (ProjectKey {
            tenant_id: self.tenant_id,
            workspace_id: self.workspace_id,
            project_id: self.project_id,
        })
        &&& record.agent_type == self.agent_type
        &&& record.predicted_confidence == self.predicted_confidence
        &&& ActualOutcome::spec_parse(self.actual_outcome@) == Some(record.actual_outcome)
        &&& record.recorded_at == crate::read::floor8(self.recorded_at)
    }

    fn into_record(self, names: &DomainNames) -> (r: Result<OutcomeRecord, StoreError>) {
        let actual_outcome = match ActualOutcome::parse(&self.actual_outcome) {
            Some(v) => v,
            None => {
                let mut message: String = "outcomes.actual_outcome: unknown value ".to_owned();
                message.append(&quote(&self.actual_outcome));
                return Err(StoreError::Internal(message));
            },
        };
        Ok(
            OutcomeRecord {
                outcome_id: self.outcome_id,
                run_id: self.run_id,
                project: ProjectKey {
                    tenant_id: self.tenant_id,
                    workspace_id: self.workspace_id,
                    project_id: self.project_id,
                },
                agent_type: self.agent_type,
                predicted_confidence: self.predicted_confidence,
                actual_outcome,
                recorded_at: to_floor8(self.recorded_at),
            },
        )
    }
}

/// A row of `plan_reviews`.
#[derive(Debug, PartialEq, Eq)]
pub struct PlanReviewRow {
    pub plan_run_id: String,
    pub tenant_id: String,
    pub workspace_id: String,
    pub project_id: String,
    pub session_id: String,
    pub plan_markdown: String,
    pub state: String,
    pub proposed_at: i64,
    pub resolved_by: Option<String>,
    pub resolved_at: Option<i64>,
    pub reviewer_comments: Option<String>,
    pub rejection_reason: Option<String>,
    pub revision_run_id: Option<String>,
}

/// The review of a plan. The fields of the resolution are missing while the plan is proposed.
#[derive(Debug, PartialEq, Eq)]
pub struct PlanReviewRecord {
    pub plan_run_id: String,
    pub project: ProjectKey,
    pub session_id: String,
    pub plan_markdown: String,
    pub state: PlanReviewState,
    pub proposed_at: u64,
    pub resolved_by: Option<String>,
    pub resolved_at: Option<u64>,
    pub reviewer_comments: Option<String>,
    pub rejection_reason: Option<String>,
    pub revision_run_id: Option<String>,
}

impl PlanReviewRow {
    /// The columns that the row is read from.
    pub open spec fn spec_columns() -> Seq<Column> {
        seq![
            Column::PlanRunId,
            Column::TenantId,
            Column::WorkspaceId,
            Column::ProjectId,
            Column::SessionId,
            Column::PlanMarkdown,
            Column::State,
            Column::ProposedAt,
            Column::ResolvedBy,
            Column::ResolvedAt,
            Column::ReviewerComments,
            Column::RejectionReason,
            Column::RevisionRunId,
        ]
    }

    fn columns() -> (r: Vec<Column>)
        ensures
            r@ == Self::spec_columns(),
    {
        vec![
            Column::PlanRunId,
            Column::TenantId,
            Column::WorkspaceId,
            Column::ProjectId,
            Column::SessionId,
            Column::PlanMarkdown,
            Column::State,
            Column::ProposedAt,
            Column::ResolvedBy,
            Column::ResolvedAt,
            Column::ReviewerComments,
            Column::RejectionReason,
            Column::RevisionRunId,
        ]
    }

    /// Whether this is what a stored row holds in those columns.
    pub open spec fn is_of(self, row: crate::model::Row) -> bool {
        &&& crate::model::value(row, Column::PlanRunId) == Datum::Text(self.plan_run_id@)
        &&& crate::model::value(row, Column::TenantId) == Datum::Text(self.tenant_id@)
        &&& crate::model::value(row, Column::WorkspaceId) == Datum::Text(self.workspace_id@)
        &&& crate::model::value(row, Column::ProjectId) == Datum::Text(self.project_id@)
        &&& crate::model::value(row, Column::SessionId) == Datum::Text(self.session_id@)
        &&& crate::model::value(row, Column::PlanMarkdown) == Datum::Text(self.plan_markdown@)
        &&& crate::model::value(row, Column::State) == Datum::Text(self.state@)
        &&& crate::model::value(row, Column::ProposedAt) == Datum::Int(self.proposed_at as int)
        &&& crate::model::value(row, Column::ResolvedBy) == Datum::opt_text(self.resolved_by)
        &&& crate::model::value(row, Column::ResolvedAt) == Datum::opt_int8(self.resolved_at)
        &&& crate::model::value(row, Column::ReviewerComments) == Datum::opt_text(
            self.reviewer_comments,
        )
        &&& crate::model::value(row, Column::RejectionReason) == Datum::opt_text(
            self.rejection_reason,
        )
        &&& crate::model::value(row, Column::RevisionRunId) == Datum::opt_text(self.revision_run_id)
    }

    /// The query of [`PlanReviewRow::get`].
    pub open spec fn spec_get(plan_run_id: Seq<char>) -> QueryView {
        QueryView::on(Table::PlanReviews, OutputView::Rows(Self::spec_columns()))
            .equals(Column::PlanRunId, ValueView::Text(plan_run_id))
    }

    /// Finds the review of a plan.
    pub fn get(plan_run_id: &str) -> (r: Query)
        ensures
            r@ == Self::spec_get(plan_run_id@),
    {
        Query::on(Table::PlanReviews, Output::Rows(Self::columns()))
            .equals(Column::PlanRunId, text(plan_run_id))
    }

    /// The query of [`PlanReviewRow::list_by_project`].
    pub open spec fn spec_list_by_project(
        project: ProjectView,
        limit: usize,
        offset: usize,
    ) -> QueryView {
        QueryView::on(Table::PlanReviews, OutputView::Rows(Self::spec_columns()))
            .equals(Column::TenantId, ValueView::Text(project.tenant_id))
            .equals(Column::WorkspaceId, ValueView::Text(project.workspace_id))
            .equals(Column::ProjectId, ValueView::Text(project.project_id))
            .descending(Column::ProposedAt)
            .descending(Column::PlanRunId)
            .limit(limit as i64)
            .offset(offset as i64)
    }

    /// The reviews of a project, the last proposed first.
    pub fn list_by_project(project: &ProjectKey, limit: usize, offset: usize) -> (r: Query)
        ensures
            r@ == Self::spec_list_by_project(project@, limit, offset),
            r@.stays_in(Column::WorkspaceId, project@),
    {
        let query = Query::on(Table::PlanReviews, Output::Rows(Self::columns()))
            .equals(Column::TenantId, text(&project.tenant_id))
            .equals(Column::WorkspaceId, text(&project.workspace_id))
            .equals(Column::ProjectId, text(&project.project_id))
            .descending(Column::ProposedAt)
            .descending(Column::PlanRunId)
            .limit(limit as i64)
            .offset(offset as i64);
        proof {
            query@.tests_keep_to_a_project(0, Column::WorkspaceId, project@);
        }
        query
    }

    /// The query of [`PlanReviewRow::list_pending_by_project`].
    pub open spec fn spec_list_pending_by_project(project: ProjectView, limit: usize) -> QueryView {
        QueryView::on(Table::PlanReviews, OutputView::Rows(Self::spec_columns()))
            .equals(Column::TenantId, ValueView::Text(project.tenant_id))
            .equals(Column::WorkspaceId, ValueView::Text(project.workspace_id))
            .equals(Column::ProjectId, ValueView::Text(project.project_id))
            .equals(Column::State, ValueView::Text("proposed"@))
            .descending(Column::ProposedAt)
            .descending(Column::PlanRunId)
            .limit(limit as i64)
    }

    /// The unresolved reviews of a project, the last proposed first.
    pub fn list_pending_by_project(project: &ProjectKey, limit: usize) -> (r: Query)
        ensures
            r@ == Self::spec_list_pending_by_project(project@, limit),
            r@.stays_in(Column::WorkspaceId, project@),
    {
        let query = Query::on(Table::PlanReviews, Output::Rows(Self::columns()))
            .equals(Column::TenantId, text(&project.tenant_id))
            .equals(Column::WorkspaceId, text(&project.workspace_id))
            .equals(Column::ProjectId, text(&project.project_id))
            .equals(Column::State, text("proposed"))
            .descending(Column::ProposedAt)
            .descending(Column::PlanRunId)
            .limit(limit as i64);
        proof {
            query@.tests_keep_to_a_project(0, Column::WorkspaceId, project@);
        }
        query
    }

    /// The query of [`PlanReviewRow::list_by_session`].
    pub open spec fn spec_list_by_session(session_id: Seq<char>, limit: usize) -> QueryView {
        QueryView::on(Table::PlanReviews, OutputView::Rows(Self::spec_columns()))
            .equals(Column::SessionId, ValueView::Text(session_id))
            .ascending(Column::ProposedAt)
            .ascending(Column::PlanRunId)
            .limit(limit as i64)
    }

    /// The reviews of a session, the first proposed first.
    pub fn list_by_session(session_id: &str, limit: usize) -> (r: Query)
        ensures
            r@ == Self::spec_list_by_session(session_id@, limit),
    {
        Query::on(Table::PlanReviews, Output::Rows(Self::columns()))
            .equals(Column::SessionId, text(session_id))
            .ascending(Column::ProposedAt)
            .ascending(Column::PlanRunId)
            .limit(limit as i64)
    }
}

impl StoredRow for PlanReviewRow {
    type Record = PlanReviewRecord;

    open spec fn fault(&self, names: &DomainNames) -> Option<ErrorView> {
        if PlanReviewState::spec_parse(self.state@) is None {
            Some(
                ErrorView::Internal(
                    "plan_reviews.state: unknown value "@ + crate::json::quoted(self.state@),
                ),
            )
        } else {
            None
        }
    }

    open spec fn holds(&self, names: &DomainNames, record: &PlanReviewRecord) -> bool {
        &&& record.plan_run_id == self.plan_run_id
        &&& record.project == (ProjectKey {
            tenant_id: self.tenant_id,
            workspace_id: self.workspace_id,
            project_id: self.project_id,
        })
        &&& record.session_id == self.session_id
        &&& record.plan_markdown == self.plan_markdown
        &&& PlanReviewState::spec_parse(self.state@) == Some(record.state)
        &&& record.proposed_at == crate::read::floor8(self.proposed_at)
        &&& record.resolved_by == self.resolved_by
        &&& record.resolved_at == crate::read::opt_floor8(self.resolved_at)
        &&& record.reviewer_comments == self.reviewer_comments
        &&& record.rejection_reason == self.rejection_reason
        &&& record.revision_run_id == self.revision_run_id
    }

    fn into_record(self, names: &DomainNames) -> (r: Result<PlanReviewRecord, StoreError>) {
        let state = match PlanReviewState::parse(&self.state) {
            Some(v) => v,
            None => {
                let mut message: String = "plan_reviews.state: unknown value ".to_owned();
                message.append(&quote(&self.state));
                return Err(StoreError::Internal(message));
            },
        };
        Ok(
            PlanReviewRecord {
                plan_run_id: self.plan_run_id,
                project: ProjectKey {
                    tenant_id: self.tenant_id,
                    workspace_id: self.workspace_id,
                    project_id: self.project_id,
                },
                session_id: self.session_id,
                plan_markdown: self.plan_markdown,
                state,
                proposed_at: to_floor8(self.proposed_at),
                resolved_by: self.resolved_by,
                resolved_at: to_opt_floor8(self.resolved_at),
                reviewer_comments: self.reviewer_comments,
                rejection_reason: self.rejection_reason,
                revision_run_id: self.revision_run_id,
            },
        )
    }
}

} // verus!
