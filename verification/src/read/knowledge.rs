//! Ingest jobs, patches and agent roles.

use crate::domain::{DomainNames, ProjectKey, ProjectView};
use crate::error::{ErrorView, StoreError};
use crate::json::quote;
use crate::model::Datum;
use crate::query::{Output, OutputView, Query, QueryView};
use crate::read::{
    Decoded, StoredRow, decoded_fault, to_floor4, to_floor8, to_opt_floor4, to_opt_floor8,
};
use crate::schema::{Column, Table};
use crate::statement::{Test, TestView};
use crate::value::{ValueView, text};
use crate::vocabulary::{IngestJobState, SoulPatchState};
use vstd::prelude::*;
use vstd::string::*;

verus! {

/// The name that a state of an ingest job is stored under.
pub fn ingest_job_state_str(state: IngestJobState) -> (r: &'static str)
    ensures
        r@ == state.spec_name(),
{
    state.name()
}

/// The error for a stored state of an ingest job that is not known.
pub open spec fn unknown_ingest_job_state(raw: Seq<char>) -> ErrorView {
    ErrorView::Internal(
        "ingest_jobs.state = "@ + crate::json::quoted(raw) + " is not a known IngestJobState"@,
    )
}

/// The state of an ingest job that is stored under a name.
pub fn rehydrate_ingest_job_state(raw: &str) -> (r: Result<IngestJobState, StoreError>)
    ensures
        match r {
            Ok(state) => IngestJobState::spec_parse(raw@) == Some(state),
            Err(e) => IngestJobState::spec_parse(raw@) is None && e@ == unknown_ingest_job_state(
                raw@,
            ),
        },
{
    match IngestJobState::parse(raw) {
        Some(state) => Ok(state),
        None => {
            let mut message: String = "ingest_jobs.state = ".to_owned();
            message.append(&quote(raw));
            message.append(" is not a known IngestJobState");
            Err(StoreError::Internal(message))
        },
    }
}

/// A row of `ingest_jobs`.
#[derive(Debug, PartialEq, Eq)]
pub struct IngestJobRow {
    pub job_id: String,
    pub tenant_id: String,
    pub workspace_id: String,
    pub project_id: String,
    pub source_id: Option<String>,
    pub document_count: i32,
    pub state: String,
    pub error_message: Option<String>,
    pub created_at_ms: i64,
    pub updated_at_ms: i64,
}

/// A job that ingests documents.
#[derive(Debug, PartialEq, Eq)]
pub struct IngestJobRecord {
    pub id: String,
    pub project: ProjectKey,
    pub source_id: Option<String>,
    pub document_count: u32,
    pub state: IngestJobState,
    pub error_message: Option<String>,
    pub created_at: u64,
    pub updated_at: u64,
}

impl IngestJobRow {
    /// The columns that the row is read from.
    pub open spec fn spec_columns() -> Seq<Column> {
        seq![
            Column::JobId,
            Column::TenantId,
            Column::WorkspaceId,
            Column::ProjectId,
            Column::SourceId,
            Column::DocumentCount,
            Column::State,
            Column::ErrorMessage,
            Column::CreatedAtMs,
            Column::UpdatedAtMs,
        ]
    }

    fn columns() -> (r: Vec<Column>)
        ensures
            r@ == Self::spec_columns(),
    {
        vec![
            Column::JobId,
            Column::TenantId,
            Column::WorkspaceId,
            Column::ProjectId,
            Column::SourceId,
            Column::DocumentCount,
            Column::State,
            Column::ErrorMessage,
            Column::CreatedAtMs,
            Column::UpdatedAtMs,
        ]
    }

    /// Whether this is what a stored row holds in those columns.
    pub open spec fn is_of(self, row: crate::model::Row) -> bool {
        &&& crate::model::value(row, Column::JobId) == Datum::Text(self.job_id@)
        &&& crate::model::value(row, Column::TenantId) == Datum::Text(self.tenant_id@)
        &&& crate::model::value(row, Column::WorkspaceId) == Datum::Text(self.workspace_id@)
        &&& crate::model::value(row, Column::ProjectId) == Datum::Text(self.project_id@)
        &&& crate::model::value(row, Column::SourceId) == Datum::opt_text(self.source_id)
        &&& crate::model::value(row, Column::DocumentCount) == Datum::Int(
            self.document_count as int,
        )
        &&& crate::model::value(row, Column::State) == Datum::Text(self.state@)
        &&& crate::model::value(row, Column::ErrorMessage) == Datum::opt_text(self.error_message)
        &&& crate::model::value(row, Column::CreatedAtMs) == Datum::Int(self.created_at_ms as int)
        &&& crate::model::value(row, Column::UpdatedAtMs) == Datum::Int(self.updated_at_ms as int)
    }

    /// The query of [`IngestJobRow::get`].
    pub open spec fn spec_get(job_id: Seq<char>) -> QueryView {
        QueryView::on(Table::IngestJobs, OutputView::Rows(Self::spec_columns()))
            .equals(Column::JobId, ValueView::Text(job_id))
    }

    /// Finds a job.
    pub fn get(job_id: &str) -> (r: Query)
        ensures
            r@ == Self::spec_get(job_id@),
    {
        Query::on(Table::IngestJobs, Output::Rows(Self::columns()))
            .equals(Column::JobId, text(job_id))
    }

    /// The query of [`IngestJobRow::list_by_project`].
    pub open spec fn spec_list_by_project(
        project: ProjectView,
        limit: usize,
        offset: usize,
    ) -> QueryView {
        QueryView::on(Table::IngestJobs, OutputView::Rows(Self::spec_columns()))
            .equals(Column::TenantId, ValueView::Text(project.tenant_id))
            .equals(Column::WorkspaceId, ValueView::Text(project.workspace_id))
            .equals(Column::ProjectId, ValueView::Text(project.project_id))
            .ascending(Column::CreatedAtMs)
            .ascending(Column::JobId)
            .limit(limit as i64)
            .offset(offset as i64)
    }

    /// The jobs of a project, the oldest first.
    pub fn list_by_project(project: &ProjectKey, limit: usize, offset: usize) -> (r: Query)
        ensures
            r@ == Self::spec_list_by_project(project@, limit, offset),
            r@.stays_in(Column::WorkspaceId, project@),
    {
        let query = Query::on(Table::IngestJobs, Output::Rows(Self::columns()))
            .equals(Column::TenantId, text(&project.tenant_id))
            .equals(Column::WorkspaceId, text(&project.workspace_id))
            .equals(Column::ProjectId, text(&project.project_id))
            .ascending(Column::CreatedAtMs)
            .ascending(Column::JobId)
            .limit(limit as i64)
            .offset(offset as i64);
        proof {
            query@.tests_keep_to_a_project(0, Column::WorkspaceId, project@);
        }
        query
    }
}

impl StoredRow for IngestJobRow {
    type Record = IngestJobRecord;

    open spec fn fault(&self, names: &DomainNames) -> Option<ErrorView> {
        if IngestJobState::spec_parse(self.state@) is None {
            Some(unknown_ingest_job_state(self.state@))
        } else {
            None
        }
    }

    open spec fn holds(&self, names: &DomainNames, record: &IngestJobRecord) -> bool {
        &&& record.id == self.job_id
        &&& record.project == (ProjectKey {
            tenant_id: self.tenant_id,
            workspace_id: self.workspace_id,
            project_id: self.project_id,
        })
        &&& record.source_id == self.source_id
        &&& record.document_count == crate::read::floor4(self.document_count)
        &&& IngestJobState::spec_parse(self.state@) == Some(record.state)
        &&& record.error_message == self.error_message
        &&& record.created_at == crate::read::floor8(self.created_at_ms)
        &&& record.updated_at == crate::read::floor8(self.updated_at_ms)
    }

    fn into_record(self, names: &DomainNames) -> (r: Result<IngestJobRecord, StoreError>) {
        let state = match rehydrate_ingest_job_state(&self.state) {
            Ok(v) => v,
            Err(e) => return Err(e),
        };
        Ok(
            IngestJobRecord {
                id: self.job_id,
                project: ProjectKey {
                    tenant_id: self.tenant_id,
                    workspace_id: self.workspace_id,
                    project_id: self.project_id,
                },
                source_id: self.source_id,
                document_count: to_floor4(self.document_count),
                state,
                error_message: self.error_message,
                created_at: to_floor8(self.created_at_ms),
                updated_at: to_floor8(self.updated_at_ms),
            },
        )
    }
}

/// A row of `soul_patches`.
#[derive(Debug, PartialEq, Eq)]
pub struct SoulPatchRow {
    pub patch_id: String,
    pub tenant_id: String,
    pub workspace_id: String,
    pub project_id: String,
    pub state: String,
    pub patch_content: String,
    pub requires_approval: bool,
    pub proposed_at_ms: i64,
    pub applied_at_ms: Option<i64>,
    pub new_version: Option<i32>,
}

/// A change to an agent's instructions.
#[derive(Debug, PartialEq, Eq)]
pub struct SoulPatchRecord {
    pub patch_id: String,
    pub project: ProjectKey,
    pub state: SoulPatchState,
    pub patch_content: String,
    pub requires_approval: bool,
    pub proposed_at_ms: u64,
    pub applied_at_ms: Option<u64>,
    pub new_version: Option<u32>,
}

impl SoulPatchRow {
    /// The columns that the row is read from.
    pub open spec fn spec_columns() -> Seq<Column> {
        seq![
            Column::PatchId,
            Column::TenantId,
            Column::WorkspaceId,
            Column::ProjectId,
            Column::State,
            Column::PatchContent,
            Column::RequiresApproval,
            Column::ProposedAtMs,
            Column::AppliedAtMs,
            Column::NewVersion,
        ]
    }

    fn columns() -> (r: Vec<Column>)
        ensures
            r@ == Self::spec_columns(),
    {
        vec![
            Column::PatchId,
            Column::TenantId,
            Column::WorkspaceId,
            Column::ProjectId,
            Column::State,
            Column::PatchContent,
            Column::RequiresApproval,
            Column::ProposedAtMs,
            Column::AppliedAtMs,
            Column::NewVersion,
        ]
    }

    /// Whether this is what a stored row holds in those columns.
    pub open spec fn is_of(self, row: crate::model::Row) -> bool {
        &&& crate::model::value(row, Column::PatchId) == Datum::Text(self.patch_id@)
        &&& crate::model::value(row, Column::TenantId) == Datum::Text(self.tenant_id@)
        &&& crate::model::value(row, Column::WorkspaceId) == Datum::Text(self.workspace_id@)
        &&& crate::model::value(row, Column::ProjectId) == Datum::Text(self.project_id@)
        &&& crate::model::value(row, Column::State) == Datum::Text(self.state@)
        &&& crate::model::value(row, Column::PatchContent) == Datum::Text(self.patch_content@)
        &&& crate::model::value(row, Column::RequiresApproval) == Datum::Bool(
            self.requires_approval,
        )
        &&& crate::model::value(row, Column::ProposedAtMs) == Datum::Int(self.proposed_at_ms as int)
        &&& crate::model::value(row, Column::AppliedAtMs) == Datum::opt_int8(self.applied_at_ms)
        &&& crate::model::value(row, Column::NewVersion) == Datum::opt_int4(self.new_version)
    }

    /// The query of [`SoulPatchRow::get`].
    pub open spec fn spec_get(patch_id: Seq<char>) -> QueryView {
        QueryView::on(Table::SoulPatches, OutputView::Rows(Self::spec_columns()))
            .equals(Column::PatchId, ValueView::Text(patch_id))
    }

    /// Finds a patch.
    pub fn get(patch_id: &str) -> (r: Query)
        ensures
            r@ == Self::spec_get(patch_id@),
    {
        Query::on(Table::SoulPatches, Output::Rows(Self::columns()))
            .equals(Column::PatchId, text(patch_id))
    }

    /// The query of [`SoulPatchRow::list_by_project`].
    pub open spec fn spec_list_by_project(
        project: ProjectView,
        limit: usize,
        offset: usize,
    ) -> QueryView {
        QueryView::on(Table::SoulPatches, OutputView::Rows(Self::spec_columns()))
            .equals(Column::TenantId, ValueView::Text(project.tenant_id))
            .equals(Column::WorkspaceId, ValueView::Text(project.workspace_id))
            .equals(Column::ProjectId, ValueView::Text(project.project_id))
            .descending(Column::ProposedAtMs)
            .descending(Column::PatchId)
            .limit(limit as i64)
            .offset(offset as i64)
    }

    /// The patches of a project, the last proposed first.
    pub fn list_by_project(project: &ProjectKey, limit: usize, offset: usize) -> (r: Query)
        ensures
            r@ == Self::spec_list_by_project(project@, limit, offset),
            r@.stays_in(Column::WorkspaceId, project@),
    {
        let query = Query::on(Table::SoulPatches, Output::Rows(Self::columns()))
            .equals(Column::TenantId, text(&project.tenant_id))
            .equals(Column::WorkspaceId, text(&project.workspace_id))
            .equals(Column::ProjectId, text(&project.project_id))
            .descending(Column::ProposedAtMs)
            .descending(Column::PatchId)
            .limit(limit as i64)
            .offset(offset as i64);
        proof {
            query@.tests_keep_to_a_project(0, Column::WorkspaceId, project@);
        }
        query
    }
}

impl StoredRow for SoulPatchRow {
    type Record = SoulPatchRecord;

    open spec fn fault(&self, names: &DomainNames) -> Option<ErrorView> {
        if SoulPatchState::spec_parse(self.state@) is None {
            Some(
                ErrorView::Serialization(
                    "soul_patches.state "@ + crate::json::quoted(
                        self.state@,
                    ) + " unknown for patch_id="@ + self.patch_id@,
                ),
            )
        } else {
            None
        }
    }

    open spec fn holds(&self, names: &DomainNames, record: &SoulPatchRecord) -> bool {
        &&& record.patch_id == self.patch_id
        &&& record.project == (ProjectKey {
            tenant_id: self.tenant_id,
            workspace_id: self.workspace_id,
            project_id: self.project_id,
        })
        &&& SoulPatchState::spec_parse(self.state@) == Some(record.state)
        &&& record.patch_content == self.patch_content
        &&& record.requires_approval == self.requires_approval
        &&& record.proposed_at_ms == crate::read::floor8(self.proposed_at_ms)
        &&& record.applied_at_ms == crate::read::opt_floor8(self.applied_at_ms)
        &&& record.new_version == crate::read::opt_floor4(self.new_version)
    }

    fn into_record(self, names: &DomainNames) -> (r: Result<SoulPatchRecord, StoreError>) {
        let state = match SoulPatchState::parse(&self.state) {
            Some(v) => v,
            None => {
                let mut message: String = "soul_patches.state ".to_owned();
                message.append(&quote(&self.state));
                message.append(" unknown for patch_id=");
                message.append(&self.patch_id);
                return Err(StoreError::Serialization(message));
            },
        };
        Ok(
            SoulPatchRecord {
                patch_id: self.patch_id,
                project: ProjectKey {
                    tenant_id: self.tenant_id,
                    workspace_id: self.workspace_id,
                    project_id: self.project_id,
                },
                state,
                patch_content: self.patch_content,
                requires_approval: self.requires_approval,
                proposed_at_ms: to_floor8(self.proposed_at_ms),
                applied_at_ms: to_opt_floor8(self.applied_at_ms),
                new_version: to_opt_floor4(self.new_version),
            },
        )
    }
}

/// A row of `project_agent_roles`.
#[derive(Debug, PartialEq, Eq)]
pub struct AgentRoleRow {
    pub tenant_id: String,
    pub workspace_id: String,
    pub project_id: String,
    pub role_id: String,
    pub role: Decoded,
    pub shadows_builtin: Option<String>,
    pub defined_by: String,
    pub defined_at: i64,
    pub retracted_at: Option<i64>,
    pub retracted_by: Option<String>,
}

/// A role that a project defines for its agents. The role is a JSON text.
#[derive(Debug, PartialEq, Eq)]
pub struct AgentRoleRecord {
    pub project: ProjectKey,
    pub role_id: String,
    pub role: String,
    pub shadows_builtin: Option<String>,
    pub defined_by: String,
    pub defined_at: u64,
    pub retracted_at: Option<u64>,
    pub retracted_by: Option<String>,
}

impl AgentRoleRow {
    /// The columns that the row is read from.
    pub open spec fn spec_columns() -> Seq<Column> {
        seq![
            Column::TenantId,
            Column::WorkspaceId,
            Column::ProjectId,
            Column::RoleId,
            Column::RoleJson,
            Column::ShadowsBuiltin,
            Column::DefinedBy,
            Column::DefinedAt,
            Column::RetractedAt,
            Column::RetractedBy,
        ]
    }

    fn columns() -> (r: Vec<Column>)
        ensures
            r@ == Self::spec_columns(),
    {
        vec![
            Column::TenantId,
            Column::WorkspaceId,
            Column::ProjectId,
            Column::RoleId,
            Column::RoleJson,
            Column::ShadowsBuiltin,
            Column::DefinedBy,
            Column::DefinedAt,
            Column::RetractedAt,
            Column::RetractedBy,
        ]
    }

    /// Whether this is what a stored row holds in those columns.
    pub open spec fn is_of(self, row: crate::model::Row) -> bool {
        &&& crate::model::value(row, Column::TenantId) == Datum::Text(self.tenant_id@)
        &&& crate::model::value(row, Column::WorkspaceId) == Datum::Text(self.workspace_id@)
        &&& crate::model::value(row, Column::ProjectId) == Datum::Text(self.project_id@)
        &&& crate::model::value(row, Column::RoleId) == Datum::Text(self.role_id@)
        &&& crate::model::value(row, Column::RoleJson) == Datum::Text(self.role.text@)
        &&& crate::model::value(row, Column::ShadowsBuiltin) == Datum::opt_text(
            self.shadows_builtin,
        )
        &&& crate::model::value(row, Column::DefinedBy) == Datum::Text(self.defined_by@)
        &&& crate::model::value(row, Column::DefinedAt) == Datum::Int(self.defined_at as int)
        &&& crate::model::value(row, Column::RetractedAt) == Datum::opt_int8(self.retracted_at)
        &&& crate::model::value(row, Column::RetractedBy) == Datum::opt_text(self.retracted_by)
    }

    /// The query of [`AgentRoleRow::get_active`].
    pub open spec fn spec_get_active(project: ProjectView, role_id: Seq<char>) -> QueryView {
        QueryView::on(Table::ProjectAgentRoles, OutputView::Rows(Self::spec_columns()))
            .equals(Column::TenantId, ValueView::Text(project.tenant_id))
            .equals(Column::WorkspaceId, ValueView::Text(project.workspace_id))
            .equals(Column::ProjectId, ValueView::Text(project.project_id))
            .equals(Column::RoleId, ValueView::Text(role_id))
            .test(TestView::IsNull(Column::RetractedAt))
    }

    /// Finds a role of a project that was not retracted.
    pub fn get_active(project: &ProjectKey, role_id: &str) -> (r: Query)
        ensures
            r@ == Self::spec_get_active(project@, role_id@),
            r@.stays_in(Column::WorkspaceId, project@),
    {
        let query = Query::on(Table::ProjectAgentRoles, Output::Rows(Self::columns()))
            .equals(Column::TenantId, text(&project.tenant_id))
            .equals(Column::WorkspaceId, text(&project.workspace_id))
            .equals(Column::ProjectId, text(&project.project_id))
            .equals(Column::RoleId, text(role_id))
            .test(Test::IsNull(Column::RetractedAt));
        proof {
            query@.tests_keep_to_a_project(0, Column::WorkspaceId, project@);
        }
        query
    }

    /// The query of [`AgentRoleRow::get_any`].
    pub open spec fn spec_get_any(project: ProjectView, role_id: Seq<char>) -> QueryView {
        QueryView::on(Table::ProjectAgentRoles, OutputView::Rows(Self::spec_columns()))
            .equals(Column::TenantId, ValueView::Text(project.tenant_id))
            .equals(Column::WorkspaceId, ValueView::Text(project.workspace_id))
            .equals(Column::ProjectId, ValueView::Text(project.project_id))
            .equals(Column::RoleId, ValueView::Text(role_id))
    }

    /// Finds a role of a project, retracted or not.
    pub fn get_any(project: &ProjectKey, role_id: &str) -> (r: Query)
        ensures
            r@ == Self::spec_get_any(project@, role_id@),
            r@.stays_in(Column::WorkspaceId, project@),
    {
        let query = Query::on(Table::ProjectAgentRoles, Output::Rows(Self::columns()))
            .equals(Column::TenantId, text(&project.tenant_id))
            .equals(Column::WorkspaceId, text(&project.workspace_id))
            .equals(Column::ProjectId, text(&project.project_id))
            .equals(Column::RoleId, text(role_id));
        proof {
            query@.tests_keep_to_a_project(0, Column::WorkspaceId, project@);
        }
        query
    }

    /// The query of [`AgentRoleRow::list_active`].
    pub open spec fn spec_list_active(project: ProjectView) -> QueryView {
        QueryView::on(Table::ProjectAgentRoles, OutputView::Rows(Self::spec_columns()))
            .equals(Column::TenantId, ValueView::Text(project.tenant_id))
            .equals(Column::WorkspaceId, ValueView::Text(project.workspace_id))
            .equals(Column::ProjectId, ValueView::Text(project.project_id))
            .test(TestView::IsNull(Column::RetractedAt))
            .ascending(Column::RoleId)
    }

    /// The roles of a project that were not retracted, by id.
    pub fn list_active(project: &ProjectKey) -> (r: Query)
        ensures
            r@ == Self::spec_list_active(project@),
            r@.stays_in(Column::WorkspaceId, project@),
    {
        let query = Query::on(Table::ProjectAgentRoles, Output::Rows(Self::columns()))
            .equals(Column::TenantId, text(&project.tenant_id))
            .equals(Column::WorkspaceId, text(&project.workspace_id))
            .equals(Column::ProjectId, text(&project.project_id))
            .test(Test::IsNull(Column::RetractedAt))
            .ascending(Column::RoleId);
        proof {
            query@.tests_keep_to_a_project(0, Column::WorkspaceId, project@);
        }
        query
    }
}

impl AgentRoleRecord {
    /// Whether the role was not retracted.
    pub fn is_active(&self) -> (r: bool)
        ensures
            r == (self.retracted_at is None),
    {
        self.retracted_at.is_none()
    }
}

impl StoredRow for AgentRoleRow {
    type Record = AgentRoleRecord;

    open spec fn fault(&self, names: &DomainNames) -> Option<ErrorView> {
        if self.role.fault is Some {
            Some(ErrorView::Serialization(self.role.fault->Some_0@))
        } else {
            None
        }
    }

    open spec fn holds(&self, names: &DomainNames, record: &AgentRoleRecord) -> bool {
        &&& record.project == (ProjectKey {
            tenant_id: self.tenant_id,
            workspace_id: self.workspace_id,
            project_id: self.project_id,
        })
        &&& record.role_id == self.role_id
        &&& record.role == self.role.text
        &&& record.shadows_builtin == self.shadows_builtin
        &&& record.defined_by == self.defined_by
        &&& record.defined_at == crate::read::floor8(self.defined_at)
        &&& record.retracted_at == crate::read::opt_floor8(self.retracted_at)
        &&& record.retracted_by == self.retracted_by
    }

    fn into_record(self, names: &DomainNames) -> (r: Result<AgentRoleRecord, StoreError>) {
        if let Some(e) = decoded_fault(&self.role) {
            return Err(e);
        }
        Ok(
            AgentRoleRecord {
                project: ProjectKey {
                    tenant_id: self.tenant_id,
                    workspace_id: self.workspace_id,
                    project_id: self.project_id,
                },
                role_id: self.role_id,
                role: self.role.text,
                shadows_builtin: self.shadows_builtin,
                defined_by: self.defined_by,
                defined_at: to_floor8(self.defined_at),
                retracted_at: to_opt_floor8(self.retracted_at),
                retracted_by: self.retracted_by,
            },
        )
    }
}

} // verus!
