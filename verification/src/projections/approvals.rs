//! What approval, tool call and plan review events write.

use crate::domain::ProjectKey;
use crate::error::{ErrorView, StoreError};
use crate::plan::{one, Moment, Planned};
use crate::schema::{Column, Table};
use crate::statement::{
    only, Cells, Changes, ChangesView, Filter, FilterView, RowView, Source, SourceView,
    Statement,
};
use crate::text::fits_i64;
use crate::value::{json, opt_json, opt_text, text, SqlType, SqlValue, ValueView};
use vstd::prelude::*;

verus! {

/// An approval was asked for.
#[derive(Debug, PartialEq, Eq)]
pub struct ApprovalRequested {
    pub requirement: String,
    pub approval_id: String,
    pub project: ProjectKey,
    pub run_id: Option<String>,
    pub task_id: Option<String>,
    pub title: Option<String>,
    pub description: Option<String>,
}

impl ApprovalRequested {
    /// What the event writes.
    pub open spec fn writes(self, at: Moment) -> Planned {
        Planned::Writes(
            seq![
                RowView::new()
                    .put(Column::ApprovalId, ValueView::Text(self.approval_id@))
                    .put(Column::TenantId, ValueView::Text(self.project.tenant_id@))
                    .put(Column::WorkspaceId, ValueView::Text(self.project.workspace_id@))
                    .put(Column::ProjectId, ValueView::Text(self.project.project_id@))
                    .put(Column::RunId, ValueView::opt_text(self.run_id))
                    .put(Column::TaskId, ValueView::opt_text(self.task_id))
                    .put(Column::Requirement, ValueView::Text(self.requirement@))
                    .put(Column::Title, ValueView::opt_text(self.title))
                    .put(Column::Description, ValueView::opt_text(self.description))
                    .put(Column::Version, ValueView::Int8(1))
                    .put(Column::CreatedAt, ValueView::Int8(at.now))
                    .put(Column::UpdatedAt, ValueView::Int8(at.now))
                    .insert(Table::Approvals),
            ],
        )
    }

    /// Plans what the event writes.
    pub fn plan(&self, at: &Moment) -> (r: Result<Vec<Statement>, StoreError>)
        ensures
            Planned::of(r) == self.writes(*at),
    {
        let mut row = Cells::new();
        row.put(Column::ApprovalId, text(&self.approval_id));
        row.put(Column::TenantId, text(&self.project.tenant_id));
        row.put(Column::WorkspaceId, text(&self.project.workspace_id));
        row.put(Column::ProjectId, text(&self.project.project_id));
        row.put(Column::RunId, opt_text(&self.run_id));
        row.put(Column::TaskId, opt_text(&self.task_id));
        row.put(Column::Requirement, text(&self.requirement));
        row.put(Column::Title, opt_text(&self.title));
        row.put(Column::Description, opt_text(&self.description));
        row.put(Column::Version, SqlValue::Int8(1));
        row.put(Column::CreatedAt, SqlValue::Int8(at.now));
        row.put(Column::UpdatedAt, SqlValue::Int8(at.now));
        one(row.insert(Table::Approvals))
    }
}

/// An approval was decided.
#[derive(Debug, PartialEq, Eq)]
pub struct ApprovalResolved {
    pub decision: String,
    pub approval_id: String,
}

impl ApprovalResolved {
    /// What the event writes.
    pub open spec fn writes(self, at: Moment) -> Planned {
        Planned::Writes(
            seq![
                ChangesView::new()
                    .put(Column::Decision, ValueView::Text(self.decision@))
                    .source(Column::Version, SourceView::Plus(ValueView::Int8(1)))
                    .put(Column::UpdatedAt, ValueView::Int8(at.now))
                    .update(
                        Table::Approvals,
                        FilterView::new()
                            .equals(Column::ApprovalId, ValueView::Text(self.approval_id@)),
                    ),
            ],
        )
    }

    /// Plans what the event writes.
    pub fn plan(&self, at: &Moment) -> (r: Result<Vec<Statement>, StoreError>)
        ensures
            Planned::of(r) == self.writes(*at),
    {
        let mut changes = Changes::new();
        changes.put(Column::Decision, text(&self.decision));
        changes.source(Column::Version, Source::Plus(SqlValue::Int8(1)));
        changes.put(Column::UpdatedAt, SqlValue::Int8(at.now));
        let mut filter = Filter::new();
        filter.equals(Column::ApprovalId, text(&self.approval_id));
        one(changes.update(Table::Approvals, filter))
    }
}

/// An approval was delegated.
#[derive(Debug, PartialEq, Eq)]
pub struct ApprovalDelegated {
    pub delegated_at_ms: u64,
    pub approval_id: String,
    pub delegation_id: String,
    pub delegated_to: String,
}

impl ApprovalDelegated {
    /// What the event writes.
    pub open spec fn writes(self, at: Moment) -> Planned {
        if self.delegated_at_ms > i64::MAX {
            Planned::Refused(
                ErrorView::exceeds(
                    "ApprovalDelegated.delegated_at_ms"@,
                    self.delegated_at_ms as nat,
                    "i64::MAX"@,
                ),
            )
        } else {
            Planned::Writes(
                seq![
                    RowView::new()
                        .put(Column::ApprovalId, ValueView::Text(self.approval_id@))
                        .put(Column::DelegationId, ValueView::Text(self.delegation_id@))
                        .put(Column::DelegatedTo, ValueView::Text(self.delegated_to@))
                        .put(Column::DelegatedAtMs, ValueView::Int8(self.delegated_at_ms as i64))
                        .put(Column::CreatedAt, ValueView::Int8(at.now))
                        .insert_new(
                            Table::ApprovalDelegations,
                            seq![Column::ApprovalId, Column::DelegationId],
                        ),
                ],
            )
        }
    }

    /// Plans what the event writes.
    pub fn plan(&self, at: &Moment) -> (r: Result<Vec<Statement>, StoreError>)
        ensures
            Planned::of(r) == self.writes(*at),
    {
        let delegated_at: i64 = match fits_i64(
            "ApprovalDelegated.delegated_at_ms",
            self.delegated_at_ms,
        ) {
            Ok(v) => v,
            Err(e) => return Err(e),
        };
        let mut row = Cells::new();
        row.put(Column::ApprovalId, text(&self.approval_id));
        row.put(Column::DelegationId, text(&self.delegation_id));
        row.put(Column::DelegatedTo, text(&self.delegated_to));
        row.put(Column::DelegatedAtMs, SqlValue::Int8(delegated_at));
        row.put(Column::CreatedAt, SqlValue::Int8(at.now));
        one(
            row.insert_new(
                Table::ApprovalDelegations,
                vec![Column::ApprovalId, Column::DelegationId],
            ),
        )
    }
}

/// A tool call was proposed for approval. An empty summary is stored as missing.
#[derive(Debug, PartialEq, Eq)]
pub struct ToolCallProposed {
    pub match_policy_json: String,
    pub display_summary: String,
    pub call_id: String,
    pub session_id: String,
    pub run_id: String,
    pub project: ProjectKey,
    pub tool_name: String,
    pub tool_args: String,
    pub proposed_at_ms: u64,
}

impl ToolCallProposed {
    /// What the event writes.
    pub open spec fn writes(self, at: Moment) -> Planned {
        Planned::Writes(
            seq![
                RowView::new()
                    .put(Column::CallId, ValueView::Text(self.call_id@))
                    .put(Column::SessionId, ValueView::Text(self.session_id@))
                    .put(Column::RunId, ValueView::Text(self.run_id@))
                    .put(Column::TenantId, ValueView::Text(self.project.tenant_id@))
                    .put(Column::WorkspaceId, ValueView::Text(self.project.workspace_id@))
                    .put(Column::ProjectId, ValueView::Text(self.project.project_id@))
                    .put(Column::ToolName, ValueView::Text(self.tool_name@))
                    .put(Column::OriginalToolArgs, ValueView::Json(self.tool_args@))
                    .put(Column::AmendedToolArgs, ValueView::Null(SqlType::Json))
                    .put(Column::ApprovedToolArgs, ValueView::Null(SqlType::Json))
                    .put(
                        Column::DisplaySummary,
                        if self.display_summary@.len() == 0 {
                            ValueView::Null(SqlType::Text)
                        } else {
                            ValueView::Text(self.display_summary@)
                        },
                    )
                    .put(Column::MatchPolicy, ValueView::Json(self.match_policy_json@))
                    .put(Column::State, ValueView::Text("pending"@))
                    .put(Column::OperatorId, ValueView::Null(SqlType::Text))
                    .put(Column::Scope, ValueView::Null(SqlType::Json))
                    .put(Column::Reason, ValueView::Null(SqlType::Text))
                    .put(Column::ProposedAtMs, ValueView::Int8(self.proposed_at_ms as i64))
                    .put(Column::ApprovedAtMs, ValueView::Null(SqlType::Int8))
                    .put(Column::RejectedAtMs, ValueView::Null(SqlType::Int8))
                    .put(Column::LastAmendedAtMs, ValueView::Null(SqlType::Int8))
                    .put(Column::Version, ValueView::Int8(1))
                    .put(Column::CreatedAt, ValueView::Int8(at.now))
                    .put(Column::UpdatedAt, ValueView::Int8(at.now))
                    .insert_new(Table::ToolCallApprovals, seq![Column::CallId]),
            ],
        )
    }

    /// Plans what the event writes.
    pub fn plan(&self, at: &Moment) -> (r: Result<Vec<Statement>, StoreError>)
        ensures
            Planned::of(r) == self.writes(*at),
    {
        let mut row = Cells::new();
        row.put(Column::CallId, text(&self.call_id));
        row.put(Column::SessionId, text(&self.session_id));
        row.put(Column::RunId, text(&self.run_id));
        row.put(Column::TenantId, text(&self.project.tenant_id));
        row.put(Column::WorkspaceId, text(&self.project.workspace_id));
        row.put(Column::ProjectId, text(&self.project.project_id));
        row.put(Column::ToolName, text(&self.tool_name));
        row.put(Column::OriginalToolArgs, json(&self.tool_args));
        row.put(Column::AmendedToolArgs, SqlValue::Null(SqlType::Json));
        row.put(Column::ApprovedToolArgs, SqlValue::Null(SqlType::Json));
        row.put(
            Column::DisplaySummary,
            if self.display_summary.as_str().is_empty() {
                SqlValue::Null(SqlType::Text)
            } else {
                text(&self.display_summary)
            },
        );
        row.put(Column::MatchPolicy, json(&self.match_policy_json));
        row.put(Column::State, text("pending"));
        row.put(Column::OperatorId, SqlValue::Null(SqlType::Text));
        row.put(Column::Scope, SqlValue::Null(SqlType::Json));
        row.put(Column::Reason, SqlValue::Null(SqlType::Text));
        row.put(Column::ProposedAtMs, SqlValue::Int8(self.proposed_at_ms as i64));
        row.put(Column::ApprovedAtMs, SqlValue::Null(SqlType::Int8));
        row.put(Column::RejectedAtMs, SqlValue::Null(SqlType::Int8));
        row.put(Column::LastAmendedAtMs, SqlValue::Null(SqlType::Int8));
        row.put(Column::Version, SqlValue::Int8(1));
        row.put(Column::CreatedAt, SqlValue::Int8(at.now));
        row.put(Column::UpdatedAt, SqlValue::Int8(at.now));
        one(row.insert_new(Table::ToolCallApprovals, only(Column::CallId)))
    }
}

/// The arguments of a proposed tool call were amended.
#[derive(Debug, PartialEq, Eq)]
pub struct ToolCallAmended {
    pub call_id: String,
    pub new_tool_args: String,
    pub amended_at_ms: u64,
}

impl ToolCallAmended {
    /// What the event writes.
    pub open spec fn writes(self, at: Moment) -> Planned {
        Planned::Writes(
            seq![
                ChangesView::new()
                    .put(Column::AmendedToolArgs, ValueView::Json(self.new_tool_args@))
                    .put(Column::LastAmendedAtMs, ValueView::Int8(self.amended_at_ms as i64))
                    .source(Column::Version, SourceView::Plus(ValueView::Int8(1)))
                    .put(Column::UpdatedAt, ValueView::Int8(at.now))
                    .update(
                        Table::ToolCallApprovals,
                        FilterView::new().equals(Column::CallId, ValueView::Text(self.call_id@)),
                    ),
            ],
        )
    }

    /// Plans what the event writes.
    pub fn plan(&self, at: &Moment) -> (r: Result<Vec<Statement>, StoreError>)
        ensures
            Planned::of(r) == self.writes(*at),
    {
        let mut changes = Changes::new();
        changes.put(Column::AmendedToolArgs, json(&self.new_tool_args));
        changes.put(Column::LastAmendedAtMs, SqlValue::Int8(self.amended_at_ms as i64));
        changes.source(Column::Version, Source::Plus(SqlValue::Int8(1)));
        changes.put(Column::UpdatedAt, SqlValue::Int8(at.now));
        let mut filter = Filter::new();
        filter.equals(Column::CallId, text(&self.call_id));
        one(changes.update(Table::ToolCallApprovals, filter))
    }
}

/// A tool call was approved.
#[derive(Debug, PartialEq, Eq)]
pub struct ToolCallApproved {
    pub scope_json: String,
    pub call_id: String,
    pub operator_id: String,
    pub approved_tool_args: Option<String>,
    pub approved_at_ms: u64,
}

impl ToolCallApproved {
    /// What the event writes.
    pub open spec fn writes(self, at: Moment) -> Planned {
        Planned::Writes(
            seq![
                ChangesView::new()
                    .put(Column::State, ValueView::Text("approved"@))
                    .put(Column::OperatorId, ValueView::Text(self.operator_id@))
                    .put(Column::Scope, ValueView::Json(self.scope_json@))
                    .put(Column::ApprovedToolArgs, ValueView::opt_json(self.approved_tool_args))
                    .put(Column::ApprovedAtMs, ValueView::Int8(self.approved_at_ms as i64))
                    .source(Column::Version, SourceView::Plus(ValueView::Int8(1)))
                    .put(Column::UpdatedAt, ValueView::Int8(at.now))
                    .update(
                        Table::ToolCallApprovals,
                        FilterView::new().equals(Column::CallId, ValueView::Text(self.call_id@)),
                    ),
            ],
        )
    }

    /// Plans what the event writes.
    pub fn plan(&self, at: &Moment) -> (r: Result<Vec<Statement>, StoreError>)
        ensures
            Planned::of(r) == self.writes(*at),
    {
        let mut changes = Changes::new();
        changes.put(Column::State, text("approved"));
        changes.put(Column::OperatorId, text(&self.operator_id));
        changes.put(Column::Scope, json(&self.scope_json));
        changes.put(Column::ApprovedToolArgs, opt_json(&self.approved_tool_args));
        changes.put(Column::ApprovedAtMs, SqlValue::Int8(self.approved_at_ms as i64));
        changes.source(Column::Version, Source::Plus(SqlValue::Int8(1)));
        changes.put(Column::UpdatedAt, SqlValue::Int8(at.now));
        let mut filter = Filter::new();
        filter.equals(Column::CallId, text(&self.call_id));
        one(changes.update(Table::ToolCallApprovals, filter))
    }
}

/// A tool call was rejected.
#[derive(Debug, PartialEq, Eq)]
pub struct ToolCallRejected {
    pub call_id: String,
    pub operator_id: String,
    pub reason: Option<String>,
    pub rejected_at_ms: u64,
}

impl ToolCallRejected {
    /// What the event writes.
    pub open spec fn writes(self, at: Moment) -> Planned {
        Planned::Writes(
            seq![
                ChangesView::new()
                    .put(Column::State, ValueView::Text("rejected"@))
                    .put(Column::OperatorId, ValueView::Text(self.operator_id@))
                    .put(Column::Reason, ValueView::opt_text(self.reason))
                    .put(Column::RejectedAtMs, ValueView::Int8(self.rejected_at_ms as i64))
                    .source(Column::Version, SourceView::Plus(ValueView::Int8(1)))
                    .put(Column::UpdatedAt, ValueView::Int8(at.now))
                    .update(
                        Table::ToolCallApprovals,
                        FilterView::new().equals(Column::CallId, ValueView::Text(self.call_id@)),
                    ),
            ],
        )
    }

    /// Plans what the event writes.
    pub fn plan(&self, at: &Moment) -> (r: Result<Vec<Statement>, StoreError>)
        ensures
            Planned::of(r) == self.writes(*at),
    {
        let mut changes = Changes::new();
        changes.put(Column::State, text("rejected"));
        changes.put(Column::OperatorId, text(&self.operator_id));
        changes.put(Column::Reason, opt_text(&self.reason));
        changes.put(Column::RejectedAtMs, SqlValue::Int8(self.rejected_at_ms as i64));
        changes.source(Column::Version, Source::Plus(SqlValue::Int8(1)));
        changes.put(Column::UpdatedAt, SqlValue::Int8(at.now));
        let mut filter = Filter::new();
        filter.equals(Column::CallId, text(&self.call_id));
        one(changes.update(Table::ToolCallApprovals, filter))
    }
}

/// A plan was proposed for review.
#[derive(Debug, PartialEq, Eq)]
pub struct PlanProposed {
    pub proposed_at: u64,
    pub plan_run_id: String,
    pub project: ProjectKey,
    pub session_id: String,
    pub plan_markdown: String,
}

impl PlanProposed {
    /// What the event writes.
    pub open spec fn writes(self, at: Moment) -> Planned {
        if self.proposed_at > i64::MAX {
            Planned::Refused(
                ErrorView::exceeds(
                    "PlanProposed.proposed_at"@,
                    self.proposed_at as nat,
                    "i64::MAX"@,
                ),
            )
        } else {
            Planned::Writes(
                seq![
                    RowView::new()
                        .put(Column::PlanRunId, ValueView::Text(self.plan_run_id@))
                        .put(Column::TenantId, ValueView::Text(self.project.tenant_id@))
                        .put(Column::WorkspaceId, ValueView::Text(self.project.workspace_id@))
                        .put(Column::ProjectId, ValueView::Text(self.project.project_id@))
                        .put(Column::SessionId, ValueView::Text(self.session_id@))
                        .put(Column::PlanMarkdown, ValueView::Text(self.plan_markdown@))
                        .put(Column::State, ValueView::Text("proposed"@))
                        .put(Column::ProposedAt, ValueView::Int8(self.proposed_at as i64))
                        .insert_new(Table::PlanReviews, seq![Column::PlanRunId]),
                ],
            )
        }
    }

    /// Plans what the event writes.
    pub fn plan(&self, at: &Moment) -> (r: Result<Vec<Statement>, StoreError>)
        ensures
            Planned::of(r) == self.writes(*at),
    {
        let proposed_at: i64 = match fits_i64("PlanProposed.proposed_at", self.proposed_at) {
            Ok(v) => v,
            Err(e) => return Err(e),
        };
        let mut row = Cells::new();
        row.put(Column::PlanRunId, text(&self.plan_run_id));
        row.put(Column::TenantId, text(&self.project.tenant_id));
        row.put(Column::WorkspaceId, text(&self.project.workspace_id));
        row.put(Column::ProjectId, text(&self.project.project_id));
        row.put(Column::SessionId, text(&self.session_id));
        row.put(Column::PlanMarkdown, text(&self.plan_markdown));
        row.put(Column::State, text("proposed"));
        row.put(Column::ProposedAt, SqlValue::Int8(proposed_at));
        one(row.insert_new(Table::PlanReviews, only(Column::PlanRunId)))
    }
}

/// A proposed plan was approved. A plan that is resolved stays as it is.
#[derive(Debug, PartialEq, Eq)]
pub struct PlanApproved {
    pub approved_at: u64,
    pub plan_run_id: String,
    pub approved_by: String,
    pub reviewer_comments: Option<String>,
}

impl PlanApproved {
    /// What the event writes.
    pub open spec fn writes(self, at: Moment) -> Planned {
        if self.approved_at > i64::MAX {
            Planned::Refused(
                ErrorView::exceeds(
                    "PlanApproved.approved_at"@,
                    self.approved_at as nat,
                    "i64::MAX"@,
                ),
            )
        } else {
            Planned::Writes(
                seq![
                    ChangesView::new()
                        .put(Column::State, ValueView::Text("approved"@))
                        .put(Column::ResolvedBy, ValueView::Text(self.approved_by@))
                        .put(Column::ResolvedAt, ValueView::Int8(self.approved_at as i64))
                        .put(Column::ReviewerComments, ValueView::opt_text(self.reviewer_comments))
                        .update(
                            Table::PlanReviews,
                            FilterView::new()
                                .equals(Column::PlanRunId, ValueView::Text(self.plan_run_id@))
                                .equals(Column::State, ValueView::Text("proposed"@)),
                        ),
                ],
            )
        }
    }

    /// Plans what the event writes.
    pub fn plan(&self, at: &Moment) -> (r: Result<Vec<Statement>, StoreError>)
        ensures
            Planned::of(r) == self.writes(*at),
    {
        let approved_at: i64 = match fits_i64("PlanApproved.approved_at", self.approved_at) {
            Ok(v) => v,
            Err(e) => return Err(e),
        };
        let mut changes = Changes::new();
        changes.put(Column::State, text("approved"));
        changes.put(Column::ResolvedBy, text(&self.approved_by));
        changes.put(Column::ResolvedAt, SqlValue::Int8(approved_at));
        changes.put(Column::ReviewerComments, opt_text(&self.reviewer_comments));
        let mut filter = Filter::new();
        filter.equals(Column::PlanRunId, text(&self.plan_run_id));
        filter.equals(Column::State, text("proposed"));
        one(changes.update(Table::PlanReviews, filter))
    }
}

/// A proposed plan was rejected. A plan that is resolved stays as it is.
#[derive(Debug, PartialEq, Eq)]
pub struct PlanRejected {
    pub rejected_at: u64,
    pub plan_run_id: String,
    pub rejected_by: String,
    pub reason: String,
}

impl PlanRejected {
    /// What the event writes.
    pub open spec fn writes(self, at: Moment) -> Planned {
        if self.rejected_at > i64::MAX {
            Planned::Refused(
                ErrorView::exceeds(
                    "PlanRejected.rejected_at"@,
                    self.rejected_at as nat,
                    "i64::MAX"@,
                ),
            )
        } else {
            Planned::Writes(
                seq![
                    ChangesView::new()
                        .put(Column::State, ValueView::Text("rejected"@))
                        .put(Column::ResolvedBy, ValueView::Text(self.rejected_by@))
                        .put(Column::ResolvedAt, ValueView::Int8(self.rejected_at as i64))
                        .put(Column::RejectionReason, ValueView::Text(self.reason@))
                        .update(
                            Table::PlanReviews,
                            FilterView::new()
                                .equals(Column::PlanRunId, ValueView::Text(self.plan_run_id@))
                                .equals(Column::State, ValueView::Text("proposed"@)),
                        ),
                ],
            )
        }
    }

    /// Plans what the event writes.
    pub fn plan(&self, at: &Moment) -> (r: Result<Vec<Statement>, StoreError>)
        ensures
            Planned::of(r) == self.writes(*at),
    {
        let rejected_at: i64 = match fits_i64("PlanRejected.rejected_at", self.rejected_at) {
            Ok(v) => v,
            Err(e) => return Err(e),
        };
        let mut changes = Changes::new();
        changes.put(Column::State, text("rejected"));
        changes.put(Column::ResolvedBy, text(&self.rejected_by));
        changes.put(Column::ResolvedAt, SqlValue::Int8(rejected_at));
        changes.put(Column::RejectionReason, text(&self.reason));
        let mut filter = Filter::new();
        filter.equals(Column::PlanRunId, text(&self.plan_run_id));
        filter.equals(Column::State, text("proposed"));
        one(changes.update(Table::PlanReviews, filter))
    }
}

/// A revision of a proposed plan was asked for. A plan that is resolved stays as it is.
#[derive(Debug, PartialEq, Eq)]
pub struct PlanRevisionRequested {
    pub requested_at: u64,
    pub original_plan_run_id: String,
    pub reviewer_comments: String,
    pub new_plan_run_id: String,
}

impl PlanRevisionRequested {
    /// What the event writes.
    pub open spec fn writes(self, at: Moment) -> Planned {
        if self.requested_at > i64::MAX {
            Planned::Refused(
                ErrorView::exceeds(
                    "PlanRevisionRequested.requested_at"@,
                    self.requested_at as nat,
                    "i64::MAX"@,
                ),
            )
        } else {
            Planned::Writes(
                seq![
                    ChangesView::new()
                        .put(Column::State, ValueView::Text("revision_requested"@))
                        .put(Column::ResolvedAt, ValueView::Int8(self.requested_at as i64))
                        .put(Column::ReviewerComments, ValueView::Text(self.reviewer_comments@))
                        .put(Column::RevisionRunId, ValueView::Text(self.new_plan_run_id@))
                        .update(
                            Table::PlanReviews,
                            FilterView::new()
                                .equals(
                                    Column::PlanRunId,
                                    ValueView::Text(self.original_plan_run_id@),
                                )
                                .equals(Column::State, ValueView::Text("proposed"@)),
                        ),
                ],
            )
        }
    }

    /// Plans what the event writes.
    pub fn plan(&self, at: &Moment) -> (r: Result<Vec<Statement>, StoreError>)
        ensures
            Planned::of(r) == self.writes(*at),
    {
        let requested_at: i64 = match fits_i64(
            "PlanRevisionRequested.requested_at",
            self.requested_at,
        ) {
            Ok(v) => v,
            Err(e) => return Err(e),
        };
        let mut changes = Changes::new();
        changes.put(Column::State, text("revision_requested"));
        changes.put(Column::ResolvedAt, SqlValue::Int8(requested_at));
        changes.put(Column::ReviewerComments, text(&self.reviewer_comments));
        changes.put(Column::RevisionRunId, text(&self.new_plan_run_id));
        let mut filter = Filter::new();
        filter.equals(Column::PlanRunId, text(&self.original_plan_run_id));
        filter.equals(Column::State, text("proposed"));
        one(changes.update(Table::PlanReviews, filter))
    }
}

} // verus!
