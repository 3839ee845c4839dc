//! Approvals.

use crate::domain::{DomainNames, ProjectKey, ProjectView};
use crate::error::{ErrorView, StoreError};
use crate::json::quote;
use crate::model::Datum;
use crate::query::{Output, OutputView, Query, QueryView};
use crate::read::{
    Decoded, StoredRow, name_fault, opt_name_fault, to_floor8, to_opt_decoded, to_opt_unsigned8,
};
use crate::schema::{Column, Table};
use crate::statement::{Test, TestView};
use crate::value::{ValueView, text};
use crate::vocabulary::ToolCallApprovalState;
use vstd::prelude::*;
use vstd::string::*;

verus! {

/// A row of `approvals`.
#[derive(Debug, PartialEq, Eq)]
pub struct ApprovalRow {
    pub approval_id: String,
    pub tenant_id: String,
    pub workspace_id: String,
    pub project_id: String,
    pub run_id: Option<String>,
    pub task_id: Option<String>,
    pub requirement: String,
    pub decision: Option<String>,
    pub title: Option<String>,
    pub description: Option<String>,
    pub version: i64,
    pub created_at: i64,
    pub updated_at: i64,
}

/// A request for approval. The decision is missing while it is open.
#[derive(Debug, PartialEq, Eq)]
pub struct ApprovalRecord {
    pub approval_id: String,
    pub project: ProjectKey,
    pub run_id: Option<String>,
    pub task_id: Option<String>,
    pub requirement: String,
    pub decision: Option<String>,
    pub title: Option<String>,
    pub description: Option<String>,
    pub version: u64,
    pub created_at: u64,
    pub updated_at: u64,
}

impl ApprovalRow {
    /// The columns that the row is read from.
    pub open spec fn spec_columns() -> Seq<Column> {
        seq![
            Column::ApprovalId,
            Column::TenantId,
            Column::WorkspaceId,
            Column::ProjectId,
            Column::RunId,
            Column::TaskId,
            Column::Requirement,
            Column::Decision,
            Column::Title,
            Column::Description,
            Column::Version,
            Column::CreatedAt,
            Column::UpdatedAt,
        ]
    }

    fn columns() -> (r: Vec<Column>)
        ensures
            r@ == Self::spec_columns(),
    {
        vec![
            Column::ApprovalId,
            Column::TenantId,
            Column::WorkspaceId,
            Column::ProjectId,
            Column::RunId,
            Column::TaskId,
            Column::Requirement,
            Column::Decision,
            Column::Title,
            Column::Description,
            Column::Version,
            Column::CreatedAt,
            Column::UpdatedAt,
        ]
    }

    /// Whether this is what a stored row holds in those columns.
    pub open spec fn is_of(self, row: crate::model::Row) -> bool {
        &&& crate::model::value(row, Column::ApprovalId) == Datum::Text(self.approval_id@)
        &&& crate::model::value(row, Column::TenantId) == Datum::Text(self.tenant_id@)
        &&& crate::model::value(row, Column::WorkspaceId) == Datum::Text(self.workspace_id@)
        &&& crate::model::value(row, Column::ProjectId) == Datum::Text(self.project_id@)
        &&& crate::model::value(row, Column::RunId) == Datum::opt_text(self.run_id)
        &&& crate::model::value(row, Column::TaskId) == Datum::opt_text(self.task_id)
        &&& crate::model::value(row, Column::Requirement) == Datum::Text(self.requirement@)
        &&& crate::model::value(row, Column::Decision) == Datum::opt_text(self.decision)
        &&& crate::model::value(row, Column::Title) == Datum::opt_text(self.title)
        &&& crate::model::value(row, Column::Description) == Datum::opt_text(self.description)
        &&& crate::model::value(row, Column::Version) == Datum::Int(self.version as int)
        &&& crate::model::value(row, Column::CreatedAt) == Datum::Int(self.created_at as int)
        &&& crate::model::value(row, Column::UpdatedAt) == Datum::Int(self.updated_at as int)
    }

    /// The query of [`ApprovalRow::get`].
    pub open spec fn spec_get(approval_id: Seq<char>) -> QueryView {
        QueryView::on(Table::Approvals, OutputView::Rows(Self::spec_columns()))
            .equals(Column::ApprovalId, ValueView::Text(approval_id))
    }

    /// Finds a request.
    pub fn get(approval_id: &str) -> (r: Query)
        ensures
            r@ == Self::spec_get(approval_id@),
    {
        Query::on(Table::Approvals, Output::Rows(Self::columns()))
            .equals(Column::ApprovalId, text(approval_id))
    }

    /// The query of [`ApprovalRow::list_pending`].
    pub open spec fn spec_list_pending(
        project: ProjectView,
        limit: usize,
        offset: usize,
    ) -> QueryView {
        QueryView::on(Table::Approvals, OutputView::Rows(Self::spec_columns()))
            .equals(Column::TenantId, ValueView::Text(project.tenant_id))
            .equals(Column::WorkspaceId, ValueView::Text(project.workspace_id))
            .equals(Column::ProjectId, ValueView::Text(project.project_id))
            .test(TestView::IsNull(Column::Decision))
            .ascending(Column::CreatedAt)
            .ascending(Column::ApprovalId)
            .limit(limit as i64)
            .offset(offset as i64)
    }

    /// The open requests of a project, the oldest first.
    pub fn list_pending(project: &ProjectKey, limit: usize, offset: usize) -> (r: Query)
        ensures
            r@ == Self::spec_list_pending(project@, limit, offset),
            r@.stays_in(Column::WorkspaceId, project@),
    {
        let query = Query::on(Table::Approvals, Output::Rows(Self::columns()))
            .equals(Column::TenantId, text(&project.tenant_id))
            .equals(Column::WorkspaceId, text(&project.workspace_id))
            .equals(Column::ProjectId, text(&project.project_id))
            .test(Test::IsNull(Column::Decision))
            .ascending(Column::CreatedAt)
            .ascending(Column::ApprovalId)
            .limit(limit as i64)
            .offset(offset as i64);
        proof {
            query@.tests_keep_to_a_project(0, Column::WorkspaceId, project@);
        }
        query
    }

    /// The query of [`ApprovalRow::list_all`].
    pub open spec fn spec_list_all(project: ProjectView, limit: usize, offset: usize) -> QueryView {
        QueryView::on(Table::Approvals, OutputView::Rows(Self::spec_columns()))
            .equals(Column::TenantId, ValueView::Text(project.tenant_id))
            .equals(Column::WorkspaceId, ValueView::Text(project.workspace_id))
            .equals(Column::ProjectId, ValueView::Text(project.project_id))
            .ascending(Column::CreatedAt)
            .ascending(Column::ApprovalId)
            .limit(limit as i64)
            .offset(offset as i64)
    }

    /// The requests of a project, the oldest first.
    pub fn list_all(project: &ProjectKey, limit: usize, offset: usize) -> (r: Query)
        ensures
            r@ == Self::spec_list_all(project@, limit, offset),
            r@.stays_in(Column::WorkspaceId, project@),
    {
        let query = Query::on(Table::Approvals, Output::Rows(Self::columns()))
            .equals(Column::TenantId, text(&project.tenant_id))
            .equals(Column::WorkspaceId, text(&project.workspace_id))
            .equals(Column::ProjectId, text(&project.project_id))
            .ascending(Column::CreatedAt)
            .ascending(Column::ApprovalId)
            .limit(limit as i64)
            .offset(offset as i64);
        proof {
            query@.tests_keep_to_a_project(0, Column::WorkspaceId, project@);
        }
        query
    }

    /// The query of [`ApprovalRow::has_pending_for_run`].
    pub open spec fn spec_has_pending_for_run(run_id: Seq<char>) -> QueryView {
        QueryView::on(Table::Approvals, OutputView::Count)
            .equals(Column::RunId, ValueView::Text(run_id))
            .test(TestView::IsNull(Column::Decision))
    }

    /// How many open requests a run has.
    pub fn has_pending_for_run(run_id: &str) -> (r: Query)
        ensures
            r@ == Self::spec_has_pending_for_run(run_id@),
    {
        Query::on(Table::Approvals, Output::Count)
            .equals(Column::RunId, text(run_id))
            .test(Test::IsNull(Column::Decision))
    }
}

/// Whether there is an open request, from how many there are.
pub fn any_pending(count: i64) -> (r: bool)
    ensures
        r == (count > 0),
{
    count > 0
}

impl StoredRow for ApprovalRow {
    type Record = ApprovalRecord;

    open spec fn fault(&self, names: &DomainNames) -> Option<ErrorView> {
        if !names.approval_requirements.deep_view().contains(self.requirement@) {
            Some(
                ErrorView::unknown_name(self.requirement@, names.approval_requirements.deep_view()),
            )
        } else if self.decision is Some
            && !names.approval_decisions.deep_view().contains(self.decision->Some_0@) {
            Some(
                ErrorView::unknown_name(
                    self.decision->Some_0@,
                    names.approval_decisions.deep_view(),
                ),
            )
        } else {
            None
        }
    }

    open spec fn holds(&self, names: &DomainNames, record: &ApprovalRecord) -> bool {
        &&& record.approval_id == self.approval_id
        &&& record.project == (ProjectKey {
            tenant_id: self.tenant_id,
            workspace_id: self.workspace_id,
            project_id: self.project_id,
        })
        &&& record.run_id == self.run_id
        &&& record.task_id == self.task_id
        &&& record.requirement == self.requirement
        &&& record.decision == self.decision
        &&& record.title == self.title
        &&& record.description == self.description
        &&& record.version == self.version as u64
        &&& record.created_at == self.created_at as u64
        &&& record.updated_at == self.updated_at as u64
    }

    fn into_record(self, names: &DomainNames) -> (r: Result<ApprovalRecord, StoreError>) {
        if let Some(e) = name_fault(&self.requirement, &names.approval_requirements) {
            return Err(e);
        }
        if let Some(e) = opt_name_fault(&self.decision, &names.approval_decisions) {
            return Err(e);
        }
        Ok(
            ApprovalRecord {
                approval_id: self.approval_id,
                project: ProjectKey {
                    tenant_id: self.tenant_id,
                    workspace_id: self.workspace_id,
                    project_id: self.project_id,
                },
                run_id: self.run_id,
                task_id: self.task_id,
                requirement: self.requirement,
                decision: self.decision,
                title: self.title,
                description: self.description,
                version: self.version as u64,
                created_at: self.created_at as u64,
                updated_at: self.updated_at as u64,
            },
        )
    }
}

/// A row of `approval_delegations`.
#[derive(Debug, PartialEq, Eq)]
pub struct ApprovalDelegationRow {
    pub approval_id: String,
    pub delegation_id: String,
    pub delegated_to: String,
    pub delegated_at_ms: i64,
}

/// A request that was handed to another operator.
#[derive(Debug, PartialEq, Eq)]
pub struct ApprovalDelegationRecord {
    pub approval_id: String,
    pub delegated_to: String,
    pub delegated_at_ms: u64,
    pub delegation_id: String,
}

impl ApprovalDelegationRow {
    /// The columns that the row is read from.
    pub open spec fn spec_columns() -> Seq<Column> {
        seq![
            Column::ApprovalId,
            Column::DelegationId,
            Column::DelegatedTo,
            Column::DelegatedAtMs,
        ]
    }

    fn columns() -> (r: Vec<Column>)
        ensures
            r@ == Self::spec_columns(),
    {
        vec![
            Column::ApprovalId,
            Column::DelegationId,
            Column::DelegatedTo,
            Column::DelegatedAtMs,
        ]
    }

    /// Whether this is what a stored row holds in those columns.
    pub open spec fn is_of(self, row: crate::model::Row) -> bool {
        &&& crate::model::value(row, Column::ApprovalId) == Datum::Text(self.approval_id@)
        &&& crate::model::value(row, Column::DelegationId) == Datum::Text(self.delegation_id@)
        &&& crate::model::value(row, Column::DelegatedTo) == Datum::Text(self.delegated_to@)
        &&& crate::model::value(row, Column::DelegatedAtMs) == Datum::Int(
            self.delegated_at_ms as int,
        )
    }

    /// The query of [`ApprovalDelegationRow::list_for_approval`].
    pub open spec fn spec_list_for_approval(approval_id: Seq<char>) -> QueryView {
        QueryView::on(Table::ApprovalDelegations, OutputView::Rows(Self::spec_columns()))
            .equals(Column::ApprovalId, ValueView::Text(approval_id))
            .ascending(Column::DelegatedAtMs)
            .ascending(Column::DelegationId)
    }

    /// The delegations of a request, the oldest first.
    pub fn list_for_approval(approval_id: &str) -> (r: Query)
        ensures
            r@ == Self::spec_list_for_approval(approval_id@),
    {
        Query::on(Table::ApprovalDelegations, Output::Rows(Self::columns()))
            .equals(Column::ApprovalId, text(approval_id))
            .ascending(Column::DelegatedAtMs)
            .ascending(Column::DelegationId)
    }
}

impl StoredRow for ApprovalDelegationRow {
    type Record = ApprovalDelegationRecord;

    open spec fn fault(&self, names: &DomainNames) -> Option<ErrorView> {
        None
    }

    open spec fn holds(&self, names: &DomainNames, record: &ApprovalDelegationRecord) -> bool {
        &&& record.approval_id == self.approval_id
        &&& record.delegated_to == self.delegated_to
        &&& record.delegated_at_ms == crate::read::floor8(self.delegated_at_ms)
        &&& record.delegation_id == self.delegation_id
    }

    fn into_record(self, names: &DomainNames) -> (r: Result<ApprovalDelegationRecord, StoreError>) {
        Ok(
            ApprovalDelegationRecord {
                approval_id: self.approval_id,
                delegated_to: self.delegated_to,
                delegated_at_ms: to_floor8(self.delegated_at_ms),
                delegation_id: self.delegation_id,
            },
        )
    }
}

/// A row of `tool_call_approvals`.
#[derive(Debug, PartialEq, Eq)]
pub struct ToolCallApprovalRow {
    pub call_id: String,
    pub session_id: String,
    pub run_id: String,
    pub tenant_id: String,
    pub workspace_id: String,
    pub project_id: String,
    pub tool_name: String,
    pub original_tool_args: String,
    pub amended_tool_args: Option<String>,
    pub approved_tool_args: Option<String>,
    pub display_summary: Option<String>,
    pub match_policy: Decoded,
    pub state: String,
    pub operator_id: Option<String>,
    pub scope: Option<Decoded>,
    pub reason: Option<String>,
    pub proposed_at_ms: i64,
    pub approved_at_ms: Option<i64>,
    pub rejected_at_ms: Option<i64>,
    pub last_amended_at_ms: Option<i64>,
    pub version: i64,
    pub created_at: i64,
    pub updated_at: i64,
}

/// The approval of a tool call.
#[derive(Debug, PartialEq, Eq)]
pub struct ToolCallApprovalRecord {
    pub call_id: String,
    pub session_id: String,
    pub run_id: String,
    pub project: ProjectKey,
    pub tool_name: String,
    pub original_tool_args: String,
    pub amended_tool_args: Option<String>,
    pub approved_tool_args: Option<String>,
    pub display_summary: Option<String>,
    pub match_policy: String,
    pub state: ToolCallApprovalState,
    pub operator_id: Option<String>,
    pub scope: Option<String>,
    pub reason: Option<String>,
    pub proposed_at_ms: u64,
    pub approved_at_ms: Option<u64>,
    pub rejected_at_ms: Option<u64>,
    pub last_amended_at_ms: Option<u64>,
    pub version: u64,
    pub created_at: u64,
    pub updated_at: u64,
}

impl ToolCallApprovalRow {
    /// The columns that the row is read from.
    pub open spec fn spec_columns() -> Seq<Column> {
        seq![
            Column::CallId,
            Column::SessionId,
            Column::RunId,
            Column::TenantId,
            Column::WorkspaceId,
            Column::ProjectId,
            Column::ToolName,
            Column::OriginalToolArgs,
            Column::AmendedToolArgs,
            Column::ApprovedToolArgs,
            Column::DisplaySummary,
            Column::MatchPolicy,
            Column::State,
            Column::OperatorId,
            Column::Scope,
            Column::Reason,
            Column::ProposedAtMs,
            Column::ApprovedAtMs,
            Column::RejectedAtMs,
            Column::LastAmendedAtMs,
            Column::Version,
            Column::CreatedAt,
            Column::UpdatedAt,
        ]
    }

    fn columns() -> (r: Vec<Column>)
        ensures
            r@ == Self::spec_columns(),
    {
        vec![
            Column::CallId,
            Column::SessionId,
            Column::RunId,
            Column::TenantId,
            Column::WorkspaceId,
            Column::ProjectId,
            Column::ToolName,
            Column::OriginalToolArgs,
            Column::AmendedToolArgs,
            Column::ApprovedToolArgs,
            Column::DisplaySummary,
            Column::MatchPolicy,
            Column::State,
            Column::OperatorId,
            Column::Scope,
            Column::Reason,
            Column::ProposedAtMs,
            Column::ApprovedAtMs,
            Column::RejectedAtMs,
            Column::LastAmendedAtMs,
            Column::Version,
            Column::CreatedAt,
            Column::UpdatedAt,
        ]
    }

    /// Whether this is what a stored row holds in those columns.
    pub open spec fn is_of(self, row: crate::model::Row) -> bool {
        &&& crate::model::value(row, Column::CallId) == Datum::Text(self.call_id@)
        &&& crate::model::value(row, Column::SessionId) == Datum::Text(self.session_id@)
        &&& crate::model::value(row, Column::RunId) == Datum::Text(self.run_id@)
        &&& crate::model::value(row, Column::TenantId) == Datum::Text(self.tenant_id@)
        &&& crate::model::value(row, Column::WorkspaceId) == Datum::Text(self.workspace_id@)
        &&& crate::model::value(row, Column::ProjectId) == Datum::Text(self.project_id@)
        &&& crate::model::value(row, Column::ToolName) == Datum::Text(self.tool_name@)
        &&& crate::model::value(row, Column::OriginalToolArgs) == Datum::Json(
            self.original_tool_args@,
        )
        &&& crate::model::value(row, Column::AmendedToolArgs) == Datum::opt_json(
            self.amended_tool_args,
        )
        &&& crate::model::value(row, Column::ApprovedToolArgs) == Datum::opt_json(
            self.approved_tool_args,
        )
        &&& crate::model::value(row, Column::DisplaySummary) == Datum::opt_text(
            self.display_summary,
        )
        &&& crate::model::value(row, Column::MatchPolicy) == Datum::Json(self.match_policy.text@)
        &&& crate::model::value(row, Column::State) == Datum::Text(self.state@)
        &&& crate::model::value(row, Column::OperatorId) == Datum::opt_text(self.operator_id)
        &&& crate::model::value(row, Column::Scope) == Datum::opt_decoded_json(self.scope)
        &&& crate::model::value(row, Column::Reason) == Datum::opt_text(self.reason)
        &&& crate::model::value(row, Column::ProposedAtMs) == Datum::Int(self.proposed_at_ms as int)
        &&& crate::model::value(row, Column::ApprovedAtMs) == Datum::opt_int8(self.approved_at_ms)
        &&& crate::model::value(row, Column::RejectedAtMs) == Datum::opt_int8(self.rejected_at_ms)
        &&& crate::model::value(row, Column::LastAmendedAtMs) == Datum::opt_int8(
            self.last_amended_at_ms,
        )
        &&& crate::model::value(row, Column::Version) == Datum::Int(self.version as int)
        &&& crate::model::value(row, Column::CreatedAt) == Datum::Int(self.created_at as int)
        &&& crate::model::value(row, Column::UpdatedAt) == Datum::Int(self.updated_at as int)
    }

    /// The query of [`ToolCallApprovalRow::get`].
    pub open spec fn spec_get(call_id: Seq<char>) -> QueryView {
        QueryView::on(Table::ToolCallApprovals, OutputView::Rows(Self::spec_columns()))
            .equals(Column::CallId, ValueView::Text(call_id))
    }

    /// Finds the approval of a call.
    pub fn get(call_id: &str) -> (r: Query)
        ensures
            r@ == Self::spec_get(call_id@),
    {
        Query::on(Table::ToolCallApprovals, Output::Rows(Self::columns()))
            .equals(Column::CallId, text(call_id))
    }

    /// The query of [`ToolCallApprovalRow::list_for_run`].
    pub open spec fn spec_list_for_run(run_id: Seq<char>) -> QueryView {
        QueryView::on(Table::ToolCallApprovals, OutputView::Rows(Self::spec_columns()))
            .equals(Column::RunId, ValueView::Text(run_id))
            .ascending(Column::ProposedAtMs)
            .ascending(Column::CallId)
    }

    /// The approvals of a run's calls, the first proposed first.
    pub fn list_for_run(run_id: &str) -> (r: Query)
        ensures
            r@ == Self::spec_list_for_run(run_id@),
    {
        Query::on(Table::ToolCallApprovals, Output::Rows(Self::columns()))
            .equals(Column::RunId, text(run_id))
            .ascending(Column::ProposedAtMs)
            .ascending(Column::CallId)
    }

    /// The query of [`ToolCallApprovalRow::list_for_session`].
    pub open spec fn spec_list_for_session(session_id: Seq<char>) -> QueryView {
        QueryView::on(Table::ToolCallApprovals, OutputView::Rows(Self::spec_columns()))
            .equals(Column::SessionId, ValueView::Text(session_id))
            .ascending(Column::ProposedAtMs)
            .ascending(Column::CallId)
    }

    /// The approvals of a session's calls, the first proposed first.
    pub fn list_for_session(session_id: &str) -> (r: Query)
        ensures
            r@ == Self::spec_list_for_session(session_id@),
    {
        Query::on(Table::ToolCallApprovals, Output::Rows(Self::columns()))
            .equals(Column::SessionId, text(session_id))
            .ascending(Column::ProposedAtMs)
            .ascending(Column::CallId)
    }

    /// The query of [`ToolCallApprovalRow::list_pending_for_project`].
    pub open spec fn spec_list_pending_for_project(
        project: ProjectView,
        limit: usize,
        offset: usize,
    ) -> QueryView {
        QueryView::on(Table::ToolCallApprovals, OutputView::Rows(Self::spec_columns()))
            .equals(Column::TenantId, ValueView::Text(project.tenant_id))
            .equals(Column::WorkspaceId, ValueView::Text(project.workspace_id))
            .equals(Column::ProjectId, ValueView::Text(project.project_id))
            .equals(Column::State, ValueView::Text("pending"@))
            .ascending(Column::ProposedAtMs)
            .ascending(Column::CallId)
            .limit(limit as i64)
            .offset(offset as i64)
    }

    /// The open approvals of a project, the first proposed first.
    pub fn list_pending_for_project(project: &ProjectKey, limit: usize, offset: usize) -> (r: Query)
        ensures
            r@ == Self::spec_list_pending_for_project(project@, limit, offset),
            r@.stays_in(Column::WorkspaceId, project@),
    {
        let query = Query::on(Table::ToolCallApprovals, Output::Rows(Self::columns()))
            .equals(Column::TenantId, text(&project.tenant_id))
            .equals(Column::WorkspaceId, text(&project.workspace_id))
            .equals(Column::ProjectId, text(&project.project_id))
            .equals(Column::State, text("pending"))
            .ascending(Column::ProposedAtMs)
            .ascending(Column::CallId)
            .limit(limit as i64)
            .offset(offset as i64);
        proof {
            query@.tests_keep_to_a_project(0, Column::WorkspaceId, project@);
        }
        query
    }

    /// The query of [`ToolCallApprovalRow::list_all_pending`].
    pub open spec fn spec_list_all_pending(limit: usize, offset: usize) -> QueryView {
        QueryView::on(Table::ToolCallApprovals, OutputView::Rows(Self::spec_columns()))
            .equals(Column::State, ValueView::Text("pending"@))
            .ascending(Column::ProposedAtMs)
            .ascending(Column::CallId)
            .limit(limit as i64)
            .offset(offset as i64)
    }

    /// The open approvals, the first proposed first. A number that is above the range of its
    /// column is refused.
    pub fn list_all_pending(limit: usize, offset: usize) -> (r: Result<Query, StoreError>)
        ensures
            match r {
                Err(e) => {
                    ||| limit > i64::MAX && e@ == ErrorView::Internal("limit overflows i64"@)
                    ||| !(limit > i64::MAX) && offset > i64::MAX
                        && e@ == ErrorView::Internal("offset overflows i64"@)
                },
                Ok(q) => {
                    &&& !(limit > i64::MAX)
                    &&& !(offset > i64::MAX)
                    &&& q@ == Self::spec_list_all_pending(limit, offset)
                },
            },
    {
        if limit as u64 > i64::MAX as u64 {
            return Err(StoreError::Internal("limit overflows i64".to_owned()));
        }
        if offset as u64 > i64::MAX as u64 {
            return Err(StoreError::Internal("offset overflows i64".to_owned()));
        }
        Ok(
            Query::on(Table::ToolCallApprovals, Output::Rows(Self::columns()))
                .equals(Column::State, text("pending"))
                .ascending(Column::ProposedAtMs)
                .ascending(Column::CallId)
                .limit(limit as i64)
                .offset(offset as i64),
        )
    }
}

impl StoredRow for ToolCallApprovalRow {
    type Record = ToolCallApprovalRecord;

    open spec fn fault(&self, names: &DomainNames) -> Option<ErrorView> {
        if self.match_policy.fault is Some {
            Some(
                ErrorView::Serialization(
                    "match_policy decode: "@ + self.match_policy.fault->Some_0@,
                ),
            )
        } else if self.scope is Some && self.scope->Some_0.fault is Some {
            Some(ErrorView::Serialization("scope decode: "@ + self.scope->Some_0.fault->Some_0@))
        } else if ToolCallApprovalState::spec_parse(self.state@) is None {
            Some(
                ErrorView::Internal(
                    "tool_call_approvals.state: unknown value "@ + crate::json::quoted(self.state@),
                ),
            )
        } else {
            None
        }
    }

    open spec fn holds(&self, names: &DomainNames, record: &ToolCallApprovalRecord) -> bool {
        &&& record.call_id == self.call_id
        &&& record.session_id == self.session_id
        &&& record.run_id == self.run_id
        &&& record.project == (ProjectKey {
            tenant_id: self.tenant_id,
            workspace_id: self.workspace_id,
            project_id: self.project_id,
        })
        &&& record.tool_name == self.tool_name
        &&& record.original_tool_args == self.original_tool_args
        &&& record.amended_tool_args == self.amended_tool_args
        &&& record.approved_tool_args == self.approved_tool_args
        &&& record.display_summary == self.display_summary
        &&& record.match_policy == self.match_policy.text
        &&& ToolCallApprovalState::spec_parse(self.state@) == Some(record.state)
        &&& record.operator_id == self.operator_id
        &&& record.scope == crate::read::opt_decoded(self.scope)
        &&& record.reason == self.reason
        &&& record.proposed_at_ms == self.proposed_at_ms as u64
        &&& record.approved_at_ms == crate::read::opt_unsigned8(self.approved_at_ms)
        &&& record.rejected_at_ms == crate::read::opt_unsigned8(self.rejected_at_ms)
        &&& record.last_amended_at_ms == crate::read::opt_unsigned8(self.last_amended_at_ms)
        &&& record.version == self.version as u64
        &&& record.created_at == self.created_at as u64
        &&& record.updated_at == self.updated_at as u64
    }

    fn into_record(self, names: &DomainNames) -> (r: Result<ToolCallApprovalRecord, StoreError>) {
        if let Some(m) = &self.match_policy.fault {
            let mut message: String = "match_policy decode: ".to_owned();
            message.append(m);
            return Err(StoreError::Serialization(message));
        }
        if let Some(d) = &self.scope {
            if let Some(m) = &d.fault {
                let mut message: String = "scope decode: ".to_owned();
                message.append(m);
                return Err(StoreError::Serialization(message));
            }
        }
        let state = match ToolCallApprovalState::parse(&self.state) {
            Some(v) => v,
            None => {
                let mut message: String = "tool_call_approvals.state: unknown value ".to_owned();
                message.append(&quote(&self.state));
                return Err(StoreError::Internal(message));
            },
        };
        Ok(
            ToolCallApprovalRecord {
                call_id: self.call_id,
                session_id: self.session_id,
                run_id: self.run_id,
                project: ProjectKey {
                    tenant_id: self.tenant_id,
                    workspace_id: self.workspace_id,
                    project_id: self.project_id,
                },
                tool_name: self.tool_name,
                original_tool_args: self.original_tool_args,
                amended_tool_args: self.amended_tool_args,
                approved_tool_args: self.approved_tool_args,
                display_summary: self.display_summary,
                match_policy: self.match_policy.text,
                state,
                operator_id: self.operator_id,
                scope: to_opt_decoded(self.scope),
                reason: self.reason,
                proposed_at_ms: self.proposed_at_ms as u64,
                approved_at_ms: to_opt_unsigned8(self.approved_at_ms),
                rejected_at_ms: to_opt_unsigned8(self.rejected_at_ms),
                last_amended_at_ms: to_opt_unsigned8(self.last_amended_at_ms),
                version: self.version as u64,
                created_at: self.created_at as u64,
                updated_at: self.updated_at as u64,
            },
        )
    }
}

} // verus!
