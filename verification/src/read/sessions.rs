//! Sessions, how they end, and their workspaces.

use crate::domain::{DomainNames, ProjectKey, ProjectView};
use crate::error::{ErrorView, StoreError};
use crate::model::Datum;
use crate::query::{Output, OutputView, Query, QueryView};
use crate::read::{StoredRow, name_fault, to_floor4, to_floor8, to_opt_floor8};
use crate::schema::{Column, Table};
use crate::statement::{Changes, ChangesView, Filter, FilterView, Statement, StatementView};
use crate::text::fits_i64;
use crate::value::{SqlValue, ValueView, opt_text, text};
use vstd::prelude::*;

verus! {

/// The caps on the work on a session.
#[derive(Clone, Copy, Debug, PartialEq, Eq)]
pub struct IssueBudget {
    pub max_tokens: Option<u64>,
    pub max_cost_micros: Option<u64>,
    pub max_wall_seconds: Option<u64>,
}

/// A row of `sessions`. The cost cap is in millionths of a dollar.
#[derive(Debug, PartialEq, Eq)]
pub struct SessionRow {
    pub session_id: String,
    pub tenant_id: String,
    pub workspace_id: String,
    pub project_id: String,
    pub state: String,
    pub version: i64,
    pub created_at: i64,
    pub updated_at: i64,
    pub goal_title: Option<String>,
    pub max_attempts: i32,
    pub attempts_used: i32,
    pub wall_clock_ms_cap: Option<i64>,
    pub wall_clock_ms_used: i64,
    pub token_cap: Option<i64>,
    pub tokens_used: i64,
    pub cost_cap_micros: Option<u64>,
    pub cost_usd_used: u64,
}

/// A session.
#[derive(Debug, PartialEq, Eq)]
pub struct SessionRecord {
    pub session_id: String,
    pub project: ProjectKey,
    pub state: String,
    pub version: u64,
    pub created_at: u64,
    pub updated_at: u64,
    pub goal_title: Option<String>,
    pub issue_budget: Option<IssueBudget>,
    pub max_attempts: u32,
    pub attempts_used: u32,
}

impl SessionRow {
    /// The columns that the row is read from.
    pub open spec fn spec_columns() -> Seq<Column> {
        seq![
            Column::SessionId,
            Column::TenantId,
            Column::WorkspaceId,
            Column::ProjectId,
            Column::State,
            Column::Version,
            Column::CreatedAt,
            Column::UpdatedAt,
            Column::GoalTitle,
            Column::MaxAttempts,
            Column::AttemptsUsed,
            Column::WallClockMsCap,
            Column::WallClockMsUsed,
            Column::TokenCap,
            Column::TokensUsed,
            Column::CostUsdCap,
            Column::CostUsdUsed,
        ]
    }

    fn columns() -> (r: Vec<Column>)
        ensures
            r@ == Self::spec_columns(),
    {
        vec![
            Column::SessionId,
            Column::TenantId,
            Column::WorkspaceId,
            Column::ProjectId,
            Column::State,
            Column::Version,
            Column::CreatedAt,
            Column::UpdatedAt,
            Column::GoalTitle,
            Column::MaxAttempts,
            Column::AttemptsUsed,
            Column::WallClockMsCap,
            Column::WallClockMsUsed,
            Column::TokenCap,
            Column::TokensUsed,
            Column::CostUsdCap,
            Column::CostUsdUsed,
        ]
    }

    /// Whether this is what a stored row holds in those columns.
    pub open spec fn is_of(self, row: crate::model::Row) -> bool {
        &&& crate::model::value(row, Column::SessionId) == Datum::Text(self.session_id@)
        &&& crate::model::value(row, Column::TenantId) == Datum::Text(self.tenant_id@)
        &&& crate::model::value(row, Column::WorkspaceId) == Datum::Text(self.workspace_id@)
        &&& crate::model::value(row, Column::ProjectId) == Datum::Text(self.project_id@)
        &&& crate::model::value(row, Column::State) == Datum::Text(self.state@)
        &&& crate::model::value(row, Column::Version) == Datum::Int(self.version as int)
        &&& crate::model::value(row, Column::CreatedAt) == Datum::Int(self.created_at as int)
        &&& crate::model::value(row, Column::UpdatedAt) == Datum::Int(self.updated_at as int)
        &&& crate::model::value(row, Column::GoalTitle) == Datum::opt_text(self.goal_title)
        &&& crate::model::value(row, Column::MaxAttempts) == Datum::Int(self.max_attempts as int)
        &&& crate::model::value(row, Column::AttemptsUsed) == Datum::Int(self.attempts_used as int)
        &&& crate::model::value(row, Column::WallClockMsCap) == Datum::opt_int8(
            self.wall_clock_ms_cap,
        )
        &&& crate::model::value(row, Column::WallClockMsUsed) == Datum::Int(
            self.wall_clock_ms_used as int,
        )
        &&& crate::model::value(row, Column::TokenCap) == Datum::opt_int8(self.token_cap)
        &&& crate::model::value(row, Column::TokensUsed) == Datum::Int(self.tokens_used as int)
        &&& (crate::model::value(row, Column::CostUsdCap) == Datum::Null) == (
            self.cost_cap_micros is None
        )
        &&& crate::model::value(row, Column::CostUsdUsed) == Datum::Float8(self.cost_usd_used)
    }

    /// The query of [`SessionRow::get`].
    pub open spec fn spec_get(session_id: Seq<char>) -> QueryView {
        QueryView::on(Table::Sessions, OutputView::Rows(Self::spec_columns()))
            .equals(Column::SessionId, ValueView::Text(session_id))
    }

    /// Finds a session.
    pub fn get(session_id: &str) -> (r: Query)
        ensures
            r@ == Self::spec_get(session_id@),
    {
        Query::on(Table::Sessions, Output::Rows(Self::columns()))
            .equals(Column::SessionId, text(session_id))
    }

    /// The query of [`SessionRow::list_by_project`].
    pub open spec fn spec_list_by_project(
        project: ProjectView,
        limit: usize,
        offset: usize,
    ) -> QueryView {
        QueryView::on(Table::Sessions, OutputView::Rows(Self::spec_columns()))
            .equals(Column::TenantId, ValueView::Text(project.tenant_id))
            .equals(Column::WorkspaceId, ValueView::Text(project.workspace_id))
            .equals(Column::ProjectId, ValueView::Text(project.project_id))
            .ascending(Column::CreatedAt)
            .ascending(Column::SessionId)
            .limit(limit as i64)
            .offset(offset as i64)
    }

    /// The sessions of a project, the oldest first.
    pub fn list_by_project(project: &ProjectKey, limit: usize, offset: usize) -> (r: Query)
        ensures
            r@ == Self::spec_list_by_project(project@, limit, offset),
            r@.stays_in(Column::WorkspaceId, project@),
    {
        let query = Query::on(Table::Sessions, Output::Rows(Self::columns()))
            .equals(Column::TenantId, text(&project.tenant_id))
            .equals(Column::WorkspaceId, text(&project.workspace_id))
            .equals(Column::ProjectId, text(&project.project_id))
            .ascending(Column::CreatedAt)
            .ascending(Column::SessionId)
            .limit(limit as i64)
            .offset(offset as i64);
        proof {
            query@.tests_keep_to_a_project(0, Column::WorkspaceId, project@);
        }
        query
    }

    /// The query of [`SessionRow::list_active`].
    pub open spec fn spec_list_active(limit: usize) -> QueryView {
        QueryView::on(Table::Sessions, OutputView::Rows(Self::spec_columns()))
            .equals(Column::State, ValueView::Text("open"@))
            .descending(Column::UpdatedAt)
            .ascending(Column::SessionId)
            .limit(limit as i64)
    }

    /// The open sessions, the last changed first.
    pub fn list_active(limit: usize) -> (r: Query)
        ensures
            r@ == Self::spec_list_active(limit),
    {
        Query::on(Table::Sessions, Output::Rows(Self::columns()))
            .equals(Column::State, text("open"))
            .descending(Column::UpdatedAt)
            .ascending(Column::SessionId)
            .limit(limit as i64)
    }
}

impl SessionRow {
    /// The caps on a session; none where no cap is set.
    pub open spec fn budget(self) -> Option<IssueBudget> {
        if self.wall_clock_ms_cap is None && self.token_cap is None
            && self.cost_cap_micros is None {
            None
        } else {
            Some(
                IssueBudget {
                    max_tokens: crate::read::opt_floor8(self.token_cap),
                    max_cost_micros: self.cost_cap_micros,
                    max_wall_seconds: match self.wall_clock_ms_cap {
                        Some(ms) => Some((crate::read::floor8(ms) / 1000) as u64),
                        None => None,
                    },
                },
            )
        }
    }

    fn issue_budget(&self) -> (r: Option<IssueBudget>)
        ensures
            r == self.budget(),
    {
        if self.wall_clock_ms_cap.is_none() && self.token_cap.is_none()
            && self.cost_cap_micros.is_none() {
            None
        } else {
            let max_wall_seconds: Option<u64> = match self.wall_clock_ms_cap {
                Some(ms) => Some(to_floor8(ms) / 1000),
                None => None,
            };
            Some(
                IssueBudget {
                    max_tokens: to_opt_floor8(self.token_cap),
                    max_cost_micros: self.cost_cap_micros,
                    max_wall_seconds,
                },
            )
        }
    }
}

impl StoredRow for SessionRow {
    type Record = SessionRecord;

    open spec fn fault(&self, names: &DomainNames) -> Option<ErrorView> {
        if !names.session_states.deep_view().contains(self.state@) {
            Some(ErrorView::unknown_name(self.state@, names.session_states.deep_view()))
        } else {
            None
        }
    }

    open spec fn holds(&self, names: &DomainNames, record: &SessionRecord) -> bool {
        &&& record.session_id == self.session_id
        &&& record.project == (ProjectKey {
            tenant_id: self.tenant_id,
            workspace_id: self.workspace_id,
            project_id: self.project_id,
        })
        &&& record.state == self.state
        &&& record.version == self.version as u64
        &&& record.created_at == self.created_at as u64
        &&& record.updated_at == self.updated_at as u64
        &&& record.goal_title == self.goal_title
        &&& record.issue_budget == self.budget()
        &&& record.max_attempts == crate::read::floor4(self.max_attempts)
        &&& record.attempts_used == crate::read::floor4(self.attempts_used)
    }

    fn into_record(self, names: &DomainNames) -> (r: Result<SessionRecord, StoreError>) {
        if let Some(e) = name_fault(&self.state, &names.session_states) {
            return Err(e);
        }
        let issue_budget = self.issue_budget();
        Ok(
            SessionRecord {
                session_id: self.session_id,
                project: ProjectKey {
                    tenant_id: self.tenant_id,
                    workspace_id: self.workspace_id,
                    project_id: self.project_id,
                },
                state: self.state,
                version: self.version as u64,
                created_at: self.created_at as u64,
                updated_at: self.updated_at as u64,
                goal_title: self.goal_title,
                issue_budget,
                max_attempts: to_floor4(self.max_attempts),
                attempts_used: to_floor4(self.attempts_used),
            },
        )
    }
}

/// A row of `session_outcomes`. The reason for the end is read from its name and its JSON text,
/// or the error of reading it is kept.
#[derive(Debug, PartialEq, Eq)]
pub struct SessionOutcomeRow {
    pub root_run_id: String,
    pub tenant_id: String,
    pub workspace_scope: String,
    pub project_id: String,
    pub session_id: String,
    pub checkpoint_id: String,
    pub workspace_snapshot_id: Option<String>,
    pub termination_reason: String,
    pub termination_reason_json: Option<String>,
    pub compacted_summary: String,
    pub next_step_hint: Option<String>,
    pub cost_micros: i64,
    pub created_at: i64,
    pub reason: Result<String, StoreError>,
}

/// How the work of a root run ended.
#[derive(Debug, PartialEq, Eq)]
pub struct SessionOutcomeRecord {
    pub root_run_id: String,
    pub project: ProjectKey,
    pub session_id: String,
    pub checkpoint_id: String,
    pub workspace_snapshot_id: Option<String>,
    pub termination_reason: String,
    pub compacted_summary: String,
    pub next_step_hint: Option<String>,
    pub cost_micros: u64,
    pub created_at: u64,
}

impl SessionOutcomeRow {
    /// The columns that the row is read from.
    pub open spec fn spec_columns() -> Seq<Column> {
        seq![
            Column::RootRunId,
            Column::TenantId,
            Column::WorkspaceScope,
            Column::ProjectId,
            Column::SessionId,
            Column::CheckpointId,
            Column::WorkspaceSnapshotId,
            Column::TerminationReason,
            Column::TerminationReasonJson,
            Column::CompactedSummary,
            Column::NextStepHint,
            Column::CostMicros,
            Column::CreatedAt,
        ]
    }

    fn columns() -> (r: Vec<Column>)
        ensures
            r@ == Self::spec_columns(),
    {
        vec![
            Column::RootRunId,
            Column::TenantId,
            Column::WorkspaceScope,
            Column::ProjectId,
            Column::SessionId,
            Column::CheckpointId,
            Column::WorkspaceSnapshotId,
            Column::TerminationReason,
            Column::TerminationReasonJson,
            Column::CompactedSummary,
            Column::NextStepHint,
            Column::CostMicros,
            Column::CreatedAt,
        ]
    }

    /// Whether this is what a stored row holds in those columns.
    pub open spec fn is_of(self, row: crate::model::Row) -> bool {
        &&& crate::model::value(row, Column::RootRunId) == Datum::Text(self.root_run_id@)
        &&& crate::model::value(row, Column::TenantId) == Datum::Text(self.tenant_id@)
        &&& crate::model::value(row, Column::WorkspaceScope) == Datum::Text(self.workspace_scope@)
        &&& crate::model::value(row, Column::ProjectId) == Datum::Text(self.project_id@)
        &&& crate::model::value(row, Column::SessionId) == Datum::Text(self.session_id@)
        &&& crate::model::value(row, Column::CheckpointId) == Datum::Text(self.checkpoint_id@)
        &&& crate::model::value(row, Column::WorkspaceSnapshotId) == Datum::opt_text(
            self.workspace_snapshot_id,
        )
        &&& crate::model::value(row, Column::TerminationReason) == Datum::Text(
            self.termination_reason@,
        )
        &&& crate::model::value(row, Column::TerminationReasonJson) == Datum::opt_text(
            self.termination_reason_json,
        )
        &&& crate::model::value(row, Column::CompactedSummary) == Datum::Text(
            self.compacted_summary@,
        )
        &&& crate::model::value(row, Column::NextStepHint) == Datum::opt_text(self.next_step_hint)
        &&& crate::model::value(row, Column::CostMicros) == Datum::Int(self.cost_micros as int)
        &&& crate::model::value(row, Column::CreatedAt) == Datum::Int(self.created_at as int)
    }

    /// The query of [`SessionOutcomeRow::get_by_root_run`].
    pub open spec fn spec_get_by_root_run(
        project: ProjectView,
        root_run_id: Seq<char>,
    ) -> QueryView {
        QueryView::on(Table::SessionOutcomes, OutputView::Rows(Self::spec_columns()))
            .equals(Column::RootRunId, ValueView::Text(root_run_id))
            .equals(Column::TenantId, ValueView::Text(project.tenant_id))
            .equals(Column::WorkspaceScope, ValueView::Text(project.workspace_id))
            .equals(Column::ProjectId, ValueView::Text(project.project_id))
    }

    /// Finds how a root run of a project ended.
    pub fn get_by_root_run(project: &ProjectKey, root_run_id: &str) -> (r: Query)
        ensures
            r@ == Self::spec_get_by_root_run(project@, root_run_id@),
            r@.stays_in(Column::WorkspaceScope, project@),
    {
        let query = Query::on(Table::SessionOutcomes, Output::Rows(Self::columns()))
            .equals(Column::RootRunId, text(root_run_id))
            .equals(Column::TenantId, text(&project.tenant_id))
            .equals(Column::WorkspaceScope, text(&project.workspace_id))
            .equals(Column::ProjectId, text(&project.project_id));
        proof {
            query@.tests_keep_to_a_project(1, Column::WorkspaceScope, project@);
        }
        query
    }

    /// The query of [`SessionOutcomeRow::list_by_session`].
    pub open spec fn spec_list_by_session(
        project: ProjectView,
        session_id: Seq<char>,
    ) -> QueryView {
        QueryView::on(Table::SessionOutcomes, OutputView::Rows(Self::spec_columns()))
            .equals(Column::SessionId, ValueView::Text(session_id))
            .equals(Column::TenantId, ValueView::Text(project.tenant_id))
            .equals(Column::WorkspaceScope, ValueView::Text(project.workspace_id))
            .equals(Column::ProjectId, ValueView::Text(project.project_id))
            .ascending(Column::CreatedAt)
            .ascending(Column::RootRunId)
    }

    /// How the root runs of a session of a project ended, the oldest first.
    pub fn list_by_session(project: &ProjectKey, session_id: &str) -> (r: Query)
        ensures
            r@ == Self::spec_list_by_session(project@, session_id@),
            r@.stays_in(Column::WorkspaceScope, project@),
    {
        let query = Query::on(Table::SessionOutcomes, Output::Rows(Self::columns()))
            .equals(Column::SessionId, text(session_id))
            .equals(Column::TenantId, text(&project.tenant_id))
            .equals(Column::WorkspaceScope, text(&project.workspace_id))
            .equals(Column::ProjectId, text(&project.project_id))
            .ascending(Column::CreatedAt)
            .ascending(Column::RootRunId);
        proof {
            query@.tests_keep_to_a_project(1, Column::WorkspaceScope, project@);
        }
        query
    }
}

impl StoredRow for SessionOutcomeRow {
    type Record = SessionOutcomeRecord;

    open spec fn fault(&self, names: &DomainNames) -> Option<ErrorView> {
        if self.reason is Err {
            Some(self.reason->Err_0@)
        } else {
            None
        }
    }

    open spec fn holds(&self, names: &DomainNames, record: &SessionOutcomeRecord) -> bool {
        &&& record.root_run_id == self.root_run_id
        &&& record.project == (ProjectKey {
            tenant_id: self.tenant_id,
            workspace_id: self.workspace_scope,
            project_id: self.project_id,
        })
        &&& record.session_id == self.session_id
        &&& record.checkpoint_id == self.checkpoint_id
        &&& record.workspace_snapshot_id == self.workspace_snapshot_id
        &&& self.reason == Ok::<String, StoreError>(record.termination_reason)
        &&& record.compacted_summary == self.compacted_summary
        &&& record.next_step_hint == self.next_step_hint
        &&& record.cost_micros == crate::read::floor8(self.cost_micros)
        &&& record.created_at == crate::read::floor8(self.created_at)
    }

    fn into_record(self, names: &DomainNames) -> (r: Result<SessionOutcomeRecord, StoreError>) {
        let termination_reason = match self.reason {
            Ok(reason) => reason,
            Err(e) => return Err(e),
        };
        Ok(
            SessionOutcomeRecord {
                root_run_id: self.root_run_id,
                project: ProjectKey {
                    tenant_id: self.tenant_id,
                    workspace_id: self.workspace_scope,
                    project_id: self.project_id,
                },
                session_id: self.session_id,
                checkpoint_id: self.checkpoint_id,
                workspace_snapshot_id: self.workspace_snapshot_id,
                termination_reason,
                compacted_summary: self.compacted_summary,
                next_step_hint: self.next_step_hint,
                cost_micros: to_floor8(self.cost_micros),
                created_at: to_floor8(self.created_at),
            },
        )
    }
}

/// A row of `workspace_snapshots`.
#[derive(Debug, PartialEq, Eq)]
pub struct WorkspaceSnapshotRow {
    pub snapshot_id: String,
    pub tenant_id: String,
    pub workspace_scope: String,
    pub project_id: String,
    pub session_id: String,
    pub workspace_id: String,
    pub parent_snapshot_id: Option<String>,
    pub snapshot_path: String,
    pub bytes: i64,
    pub reflink_used: bool,
    pub created_at: i64,
    pub reaped_at: Option<i64>,
}

/// A snapshot of a workspace.
#[derive(Debug, PartialEq, Eq)]
pub struct WorkspaceSnapshotRecord {
    pub snapshot_id: String,
    pub project: ProjectKey,
    pub session_id: String,
    pub workspace_id: String,
    pub parent_snapshot_id: Option<String>,
    pub snapshot_path: String,
    pub bytes: u64,
    pub reflink_used: bool,
    pub created_at: u64,
    pub reaped_at: Option<u64>,
}

impl WorkspaceSnapshotRow {
    /// The columns that the row is read from.
    pub open spec fn spec_columns() -> Seq<Column> {
        seq![
            Column::SnapshotId,
            Column::TenantId,
            Column::WorkspaceScope,
            Column::ProjectId,
            Column::SessionId,
            Column::WorkspaceId,
            Column::ParentSnapshotId,
            Column::SnapshotPath,
            Column::Bytes,
            Column::ReflinkUsed,
            Column::CreatedAt,
            Column::ReapedAt,
        ]
    }

    fn columns() -> (r: Vec<Column>)
        ensures
            r@ == Self::spec_columns(),
    {
        vec![
            Column::SnapshotId,
            Column::TenantId,
            Column::WorkspaceScope,
            Column::ProjectId,
            Column::SessionId,
            Column::WorkspaceId,
            Column::ParentSnapshotId,
            Column::SnapshotPath,
            Column::Bytes,
            Column::ReflinkUsed,
            Column::CreatedAt,
            Column::ReapedAt,
        ]
    }

    /// Whether this is what a stored row holds in those columns.
    pub open spec fn is_of(self, row: crate::model::Row) -> bool {
        &&& crate::model::value(row, Column::SnapshotId) == Datum::Text(self.snapshot_id@)
        &&& crate::model::value(row, Column::TenantId) == Datum::Text(self.tenant_id@)
        &&& crate::model::value(row, Column::WorkspaceScope) == Datum::Text(self.workspace_scope@)
        &&& crate::model::value(row, Column::ProjectId) == Datum::Text(self.project_id@)
        &&& crate::model::value(row, Column::SessionId) == Datum::Text(self.session_id@)
        &&& crate::model::value(row, Column::WorkspaceId) == Datum::Text(self.workspace_id@)
        &&& crate::model::value(row, Column::ParentSnapshotId) == Datum::opt_text(
            self.parent_snapshot_id,
        )
        &&& crate::model::value(row, Column::SnapshotPath) == Datum::Text(self.snapshot_path@)
        &&& crate::model::value(row, Column::Bytes) == Datum::Int(self.bytes as int)
        &&& crate::model::value(row, Column::ReflinkUsed) == Datum::Bool(self.reflink_used)
        &&& crate::model::value(row, Column::CreatedAt) == Datum::Int(self.created_at as int)
        &&& crate::model::value(row, Column::ReapedAt) == Datum::opt_int8(self.reaped_at)
    }

    /// The query of [`WorkspaceSnapshotRow::get`].
    pub open spec fn spec_get(project: ProjectView, snapshot_id: Seq<char>) -> QueryView {
        QueryView::on(Table::WorkspaceSnapshots, OutputView::Rows(Self::spec_columns()))
            .equals(Column::SnapshotId, ValueView::Text(snapshot_id))
            .equals(Column::TenantId, ValueView::Text(project.tenant_id))
            .equals(Column::WorkspaceScope, ValueView::Text(project.workspace_id))
            .equals(Column::ProjectId, ValueView::Text(project.project_id))
    }

    /// Finds a snapshot of a project.
    pub fn get(project: &ProjectKey, snapshot_id: &str) -> (r: Query)
        ensures
            r@ == Self::spec_get(project@, snapshot_id@),
            r@.stays_in(Column::WorkspaceScope, project@),
    {
        let query = Query::on(Table::WorkspaceSnapshots, Output::Rows(Self::columns()))
            .equals(Column::SnapshotId, text(snapshot_id))
            .equals(Column::TenantId, text(&project.tenant_id))
            .equals(Column::WorkspaceScope, text(&project.workspace_id))
            .equals(Column::ProjectId, text(&project.project_id));
        proof {
            query@.tests_keep_to_a_project(1, Column::WorkspaceScope, project@);
        }
        query
    }

    /// The query of [`WorkspaceSnapshotRow::list_by_session`].
    pub open spec fn spec_list_by_session(
        project: ProjectView,
        session_id: Seq<char>,
    ) -> QueryView {
        QueryView::on(Table::WorkspaceSnapshots, OutputView::Rows(Self::spec_columns()))
            .equals(Column::SessionId, ValueView::Text(session_id))
            .equals(Column::TenantId, ValueView::Text(project.tenant_id))
            .equals(Column::WorkspaceScope, ValueView::Text(project.workspace_id))
            .equals(Column::ProjectId, ValueView::Text(project.project_id))
            .ascending(Column::CreatedAt)
            .ascending(Column::SnapshotId)
    }

    /// The snapshots of a session of a project, the oldest first.
    pub fn list_by_session(project: &ProjectKey, session_id: &str) -> (r: Query)
        ensures
            r@ == Self::spec_list_by_session(project@, session_id@),
            r@.stays_in(Column::WorkspaceScope, project@),
    {
        let query = Query::on(Table::WorkspaceSnapshots, Output::Rows(Self::columns()))
            .equals(Column::SessionId, text(session_id))
            .equals(Column::TenantId, text(&project.tenant_id))
            .equals(Column::WorkspaceScope, text(&project.workspace_id))
            .equals(Column::ProjectId, text(&project.project_id))
            .ascending(Column::CreatedAt)
            .ascending(Column::SnapshotId);
        proof {
            query@.tests_keep_to_a_project(1, Column::WorkspaceScope, project@);
        }
        query
    }
}

impl StoredRow for WorkspaceSnapshotRow {
    type Record = WorkspaceSnapshotRecord;

    open spec fn fault(&self, names: &DomainNames) -> Option<ErrorView> {
        None
    }

    open spec fn holds(&self, names: &DomainNames, record: &WorkspaceSnapshotRecord) -> bool {
        &&& record.snapshot_id == self.snapshot_id
        &&& record.project == (ProjectKey {
            tenant_id: self.tenant_id,
            workspace_id: self.workspace_scope,
            project_id: self.project_id,
        })
        &&& record.session_id == self.session_id
        &&& record.workspace_id == self.workspace_id
        &&& record.parent_snapshot_id == self.parent_snapshot_id
        &&& record.snapshot_path == self.snapshot_path
        &&& record.bytes == crate::read::floor8(self.bytes)
        &&& record.reflink_used == self.reflink_used
        &&& record.created_at == crate::read::floor8(self.created_at)
        &&& record.reaped_at == crate::read::opt_floor8(self.reaped_at)
    }

    fn into_record(self, names: &DomainNames) -> (r: Result<WorkspaceSnapshotRecord, StoreError>) {
        Ok(
            WorkspaceSnapshotRecord {
                snapshot_id: self.snapshot_id,
                project: ProjectKey {
                    tenant_id: self.tenant_id,
                    workspace_id: self.workspace_scope,
                    project_id: self.project_id,
                },
                session_id: self.session_id,
                workspace_id: self.workspace_id,
                parent_snapshot_id: self.parent_snapshot_id,
                snapshot_path: self.snapshot_path,
                bytes: to_floor8(self.bytes),
                reflink_used: self.reflink_used,
                created_at: to_floor8(self.created_at),
                reaped_at: to_opt_floor8(self.reaped_at),
            },
        )
    }
}

/// What [`stamp_metadata`] writes.
pub open spec fn stamped(
    snapshot_id: Seq<char>,
    snapshot_path: Seq<char>,
    bytes: i64,
    reflink_used: bool,
    parent_snapshot_id: Option<String>,
) -> StatementView {
    ChangesView::new()
        .put(Column::SnapshotPath, ValueView::Text(snapshot_path))
        .put(Column::Bytes, ValueView::Int8(bytes))
        .put(Column::ReflinkUsed, ValueView::Bool(reflink_used))
        .put(Column::ParentSnapshotId, ValueView::opt_text(parent_snapshot_id))
        .update(
            Table::WorkspaceSnapshots,
            FilterView::new().equals(Column::SnapshotId, ValueView::Text(snapshot_id)),
        )
}

/// Adds to a stored snapshot what is known once it was taken. A size that is
/// above the range of its column is refused.
pub fn stamp_metadata(
    snapshot_id: &str,
    snapshot_path: &str,
    bytes: u64,
    reflink_used: bool,
    parent_snapshot_id: &Option<String>,
) -> (r: Result<Statement, StoreError>)
    ensures
        match r {
            Ok(s) => bytes <= i64::MAX && s@ == stamped(
                snapshot_id@,
                snapshot_path@,
                bytes as i64,
                reflink_used,
                *parent_snapshot_id,
            ),
            Err(e) => bytes > i64::MAX && e@ == ErrorView::exceeds(
                "WorkspaceSnapshotWriter.stamp_metadata.bytes"@,
                bytes as nat,
                "i64::MAX"@,
            ),
        },
{
    let size: i64 = match fits_i64("WorkspaceSnapshotWriter.stamp_metadata.bytes", bytes) {
        Ok(v) => v,
        Err(e) => return Err(e),
    };
    let mut changes = Changes::new();
    changes.put(Column::SnapshotPath, text(snapshot_path));
    changes.put(Column::Bytes, SqlValue::Int8(size));
    changes.put(Column::ReflinkUsed, SqlValue::Bool(reflink_used));
    changes.put(Column::ParentSnapshotId, opt_text(parent_snapshot_id));
    let mut filter = Filter::new();
    filter.equals(Column::SnapshotId, text(snapshot_id));
    Ok(changes.update(Table::WorkspaceSnapshots, filter))
}

/// How many snapshots a lineage holds at most.
pub const MAX_DEPTH: usize = 1024;

/// The walk from a snapshot to its parent, and so on: the snapshots that were
/// found, and which to look for next.
#[derive(Debug, PartialEq, Eq)]
pub struct Lineage {
    pub chain: Vec<WorkspaceSnapshotRecord>,
    pub cursor: Option<String>,
}

impl Lineage {
    /// Whether each snapshot is followed by its parent, and the walk goes on, if
    /// it does, with the parent of the last.
    pub open spec fn is_linked(self) -> bool {
        &&& forall|i: int, j: int|
            0 <= i && j == i + 1 && j < self.chain@.len() ==> (
            #[trigger] self.chain@[i]).parent_snapshot_id.deep_view() == Some(
                (#[trigger] self.chain@[j]).snapshot_id@,
            )
        &&& self.chain@.len() > 0 && self.cursor is Some ==> self.cursor.deep_view()
            == self.chain@.last().parent_snapshot_id.deep_view()
    }

    /// A walk that starts at a snapshot.
    pub fn start(snapshot_id: &str) -> (r: Lineage)
        ensures
            r.chain@.len() == 0,
            r.cursor.deep_view() == Some(snapshot_id@),
            r.is_linked(),
    {
        Lineage { chain: Vec::new(), cursor: Some(snapshot_id.to_owned()) }
    }

    /// The query for the next snapshot, which has to be of the same project;
    /// none where the walk ended.
    pub fn next(&self, project: &ProjectKey) -> (r: Option<Query>)
        ensures
            match (r, self.cursor) {
                (Some(q), Some(id)) => self.chain@.len() < MAX_DEPTH && q@
                    == WorkspaceSnapshotRow::spec_get(project@, id@),
                (Some(_), None) => false,
                (None, c) => c is None || self.chain@.len() >= MAX_DEPTH,
            },
    {
        if self.chain.len() >= MAX_DEPTH {
            return None;
        }
        match &self.cursor {
            Some(id) => Some(WorkspaceSnapshotRow::get(project, id)),
            None => None,
        }
    }

    /// Takes up what the query found. The walk ends where it found nothing or a
    /// snapshot without a parent.
    pub fn absorb(&mut self, found: Option<WorkspaceSnapshotRecord>)
        ensures
            match found {
                Some(record) => {
                    &&& final(self).chain@ == old(self).chain@.push(record)
                    &&& final(self).cursor.deep_view() == record.parent_snapshot_id.deep_view()
                },
                None => final(self).chain == old(self).chain && final(self).cursor is None,
            },
            old(self).is_linked() && (found is Some ==> old(self).cursor.deep_view() == Some(
                found->Some_0.snapshot_id@,
            )) ==> final(self).is_linked(),
    {
        match found {
            Some(record) => {
                self.cursor = record.parent_snapshot_id.clone();
                self.chain.push(record);
            },
            None => {
                self.cursor = None;
            },
        }
    }
}

/// A row of `workspace_registry`.
#[derive(Debug, PartialEq, Eq)]
pub struct WorkspaceRegistryRow {
    pub workspace_id: String,
    pub tenant_id: String,
    pub workspace_scope: String,
    pub project_id: String,
    pub root_run_id: String,
    pub fs_root: String,
    pub status: String,
    pub created_at: i64,
    pub reaped_at: Option<i64>,
}

/// A registered workspace.
#[derive(Debug, PartialEq, Eq)]
pub struct WorkspaceRegistryRecord {
    pub workspace_id: String,
    pub project: ProjectKey,
    pub root_run_id: String,
    pub fs_root: String,
    pub status: String,
    pub created_at: u64,
    pub reaped_at: Option<u64>,
}

impl WorkspaceRegistryRow {
    /// The columns that the row is read from.
    pub open spec fn spec_columns() -> Seq<Column> {
        seq![
            Column::WorkspaceId,
            Column::TenantId,
            Column::WorkspaceScope,
            Column::ProjectId,
            Column::RootRunId,
            Column::FsRoot,
            Column::Status,
            Column::CreatedAt,
            Column::ReapedAt,
        ]
    }

    fn columns() -> (r: Vec<Column>)
        ensures
            r@ == Self::spec_columns(),
    {
        vec![
            Column::WorkspaceId,
            Column::TenantId,
            Column::WorkspaceScope,
            Column::ProjectId,
            Column::RootRunId,
            Column::FsRoot,
            Column::Status,
            Column::CreatedAt,
            Column::ReapedAt,
        ]
    }

    /// Whether this is what a stored row holds in those columns.
    pub open spec fn is_of(self, row: crate::model::Row) -> bool {
        &&& crate::model::value(row, Column::WorkspaceId) == Datum::Text(self.workspace_id@)
        &&& crate::model::value(row, Column::TenantId) == Datum::Text(self.tenant_id@)
        &&& crate::model::value(row, Column::WorkspaceScope) == Datum::Text(self.workspace_scope@)
        &&& crate::model::value(row, Column::ProjectId) == Datum::Text(self.project_id@)
        &&& crate::model::value(row, Column::RootRunId) == Datum::Text(self.root_run_id@)
        &&& crate::model::value(row, Column::FsRoot) == Datum::Text(self.fs_root@)
        &&& crate::model::value(row, Column::Status) == Datum::Text(self.status@)
        &&& crate::model::value(row, Column::CreatedAt) == Datum::Int(self.created_at as int)
        &&& crate::model::value(row, Column::ReapedAt) == Datum::opt_int8(self.reaped_at)
    }

    /// The query of [`WorkspaceRegistryRow::get`].
    pub open spec fn spec_get(project: ProjectView, workspace_id: Seq<char>) -> QueryView {
        QueryView::on(Table::WorkspaceRegistry, OutputView::Rows(Self::spec_columns()))
            .equals(Column::WorkspaceId, ValueView::Text(workspace_id))
            .equals(Column::TenantId, ValueView::Text(project.tenant_id))
            .equals(Column::WorkspaceScope, ValueView::Text(project.workspace_id))
            .equals(Column::ProjectId, ValueView::Text(project.project_id))
    }

    /// Finds a workspace of a project.
    pub fn get(project: &ProjectKey, workspace_id: &str) -> (r: Query)
        ensures
            r@ == Self::spec_get(project@, workspace_id@),
            r@.stays_in(Column::WorkspaceScope, project@),
    {
        let query = Query::on(Table::WorkspaceRegistry, Output::Rows(Self::columns()))
            .equals(Column::WorkspaceId, text(workspace_id))
            .equals(Column::TenantId, text(&project.tenant_id))
            .equals(Column::WorkspaceScope, text(&project.workspace_id))
            .equals(Column::ProjectId, text(&project.project_id));
        proof {
            query@.tests_keep_to_a_project(1, Column::WorkspaceScope, project@);
        }
        query
    }

    /// The query of [`WorkspaceRegistryRow::get_by_root_run`].
    pub open spec fn spec_get_by_root_run(
        project: ProjectView,
        root_run_id: Seq<char>,
    ) -> QueryView {
        QueryView::on(Table::WorkspaceRegistry, OutputView::Rows(Self::spec_columns()))
            .equals(Column::RootRunId, ValueView::Text(root_run_id))
            .equals(Column::TenantId, ValueView::Text(project.tenant_id))
            .equals(Column::WorkspaceScope, ValueView::Text(project.workspace_id))
            .equals(Column::ProjectId, ValueView::Text(project.project_id))
            .descending(Column::CreatedAt)
            .limit(1)
    }

    /// Finds the newest workspace of a root run of a project.
    pub fn get_by_root_run(project: &ProjectKey, root_run_id: &str) -> (r: Query)
        ensures
            r@ == Self::spec_get_by_root_run(project@, root_run_id@),
            r@.stays_in(Column::WorkspaceScope, project@),
    {
        let query = Query::on(Table::WorkspaceRegistry, Output::Rows(Self::columns()))
            .equals(Column::RootRunId, text(root_run_id))
            .equals(Column::TenantId, text(&project.tenant_id))
            .equals(Column::WorkspaceScope, text(&project.workspace_id))
            .equals(Column::ProjectId, text(&project.project_id))
            .descending(Column::CreatedAt)
            .limit(1);
        proof {
            query@.tests_keep_to_a_project(1, Column::WorkspaceScope, project@);
        }
        query
    }
}

impl StoredRow for WorkspaceRegistryRow {
    type Record = WorkspaceRegistryRecord;

    open spec fn fault(&self, names: &DomainNames) -> Option<ErrorView> {
        if !names.workspace_statuses.deep_view().contains(self.status@) {
            Some(ErrorView::unknown_name(self.status@, names.workspace_statuses.deep_view()))
        } else {
            None
        }
    }

    open spec fn holds(&self, names: &DomainNames, record: &WorkspaceRegistryRecord) -> bool {
        &&& record.workspace_id == self.workspace_id
        &&& record.project == (ProjectKey {
            tenant_id: self.tenant_id,
            workspace_id: self.workspace_scope,
            project_id: self.project_id,
        })
        &&& record.root_run_id == self.root_run_id
        &&& record.fs_root == self.fs_root
        &&& record.status == self.status
        &&& record.created_at == crate::read::floor8(self.created_at)
        &&& record.reaped_at == crate::read::opt_floor8(self.reaped_at)
    }

    fn into_record(self, names: &DomainNames) -> (r: Result<WorkspaceRegistryRecord, StoreError>) {
        if let Some(e) = name_fault(&self.status, &names.workspace_statuses) {
            return Err(e);
        }
        Ok(
            WorkspaceRegistryRecord {
                workspace_id: self.workspace_id,
                project: ProjectKey {
                    tenant_id: self.tenant_id,
                    workspace_id: self.workspace_scope,
                    project_id: self.project_id,
                },
                root_run_id: self.root_run_id,
                fs_root: self.fs_root,
                status: self.status,
                created_at: to_floor8(self.created_at),
                reaped_at: to_opt_floor8(self.reaped_at),
            },
        )
    }
}

} // verus!
