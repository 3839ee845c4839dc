//! What knowledge, ingest and soul patch events write.

use crate::domain::ProjectKey;
use crate::error::{ErrorView, StoreError};
use crate::plan::{one, Moment, Planned};
use crate::schema::{Column, Table};
use crate::statement::{only, Cells, Changes, ChangesView, Filter, FilterView, RowView, Statement};
use crate::text::{fits_i32, fits_i64, i32_from_u32};
use crate::value::{opt_text, text, SqlType, SqlValue, ValueView};
use crate::vocabulary::IngestJobState;
use vstd::prelude::*;
use vstd::string::*;

verus! {

/// A knowledge provider was configured for a project.
#[derive(Debug, PartialEq, Eq)]
pub struct KnowledgeProviderConfigured {
    pub project: ProjectKey,
    pub provider_ref: String,
    pub at_ms: u64,
    pub configured_by: String,
}

impl KnowledgeProviderConfigured {
    /// What the event writes.
    pub open spec fn writes(self, at: Moment) -> Planned {
        Planned::Writes(
            seq![
                RowView::new()
                    .put(Column::TenantId, ValueView::Text(self.project.tenant_id@))
                    .put(Column::WorkspaceId, ValueView::Text(self.project.workspace_id@))
                    .put(Column::ProjectId, ValueView::Text(self.project.project_id@))
                    .put(Column::ProviderRef, ValueView::Text(self.provider_ref@))
                    .put(Column::Kind, ValueView::Text("configured"@))
                    .put(Column::AtMs, ValueView::Int8(self.at_ms as i64))
                    .put(Column::ConfiguredBy, ValueView::Text(self.configured_by@))
                    .upsert(
                        Table::ProjectKnowledgeProviders,
                        seq![
                            Column::TenantId,
                            Column::WorkspaceId,
                            Column::ProjectId,
                            Column::ProviderRef,
                            Column::Kind,
                            Column::AtMs,
                        ],
                        ChangesView::new().excluded(Column::ConfiguredBy),
                    ),
            ],
        )
    }

    /// Plans what the event writes.
    pub fn plan(&self, at: &Moment) -> (r: Result<Vec<Statement>, StoreError>)
        ensures
            Planned::of(r) == self.writes(*at),
    {
        let mut row = Cells::new();
        row.put(Column::TenantId, text(&self.project.tenant_id));
        row.put(Column::WorkspaceId, text(&self.project.workspace_id));
        row.put(Column::ProjectId, text(&self.project.project_id));
        row.put(Column::ProviderRef, text(&self.provider_ref));
        row.put(Column::Kind, text("configured"));
        row.put(Column::AtMs, SqlValue::Int8(self.at_ms as i64));
        row.put(Column::ConfiguredBy, text(&self.configured_by));
        let mut changes = Changes::new();
        changes.excluded(Column::ConfiguredBy);
        one(
            row.upsert(
                Table::ProjectKnowledgeProviders,
                vec![
                    Column::TenantId,
                    Column::WorkspaceId,
                    Column::ProjectId,
                    Column::ProviderRef,
                    Column::Kind,
                    Column::AtMs,
                ],
                changes,
            ),
        )
    }
}

/// A knowledge provider of a project was not available.
#[derive(Debug, PartialEq, Eq)]
pub struct KnowledgeProviderUnavailable {
    pub project: ProjectKey,
    pub provider_ref: String,
    pub at_ms: u64,
    pub reason: String,
}

impl KnowledgeProviderUnavailable {
    /// What the event writes.
    pub open spec fn writes(self, at: Moment) -> Planned {
        Planned::Writes(
            seq![
                RowView::new()
                    .put(Column::TenantId, ValueView::Text(self.project.tenant_id@))
                    .put(Column::WorkspaceId, ValueView::Text(self.project.workspace_id@))
                    .put(Column::ProjectId, ValueView::Text(self.project.project_id@))
                    .put(Column::ProviderRef, ValueView::Text(self.provider_ref@))
                    .put(Column::Kind, ValueView::Text("unavailable"@))
                    .put(Column::AtMs, ValueView::Int8(self.at_ms as i64))
                    .put(Column::Reason, ValueView::Text(self.reason@))
                    .insert_new(
                        Table::ProjectKnowledgeProviders,
                        seq![
                            Column::TenantId,
                            Column::WorkspaceId,
                            Column::ProjectId,
                            Column::ProviderRef,
                            Column::Kind,
                            Column::AtMs,
                        ],
                    ),
            ],
        )
    }

    /// Plans what the event writes.
    pub fn plan(&self, at: &Moment) -> (r: Result<Vec<Statement>, StoreError>)
        ensures
            Planned::of(r) == self.writes(*at),
    {
        let mut row = Cells::new();
        row.put(Column::TenantId, text(&self.project.tenant_id));
        row.put(Column::WorkspaceId, text(&self.project.workspace_id));
        row.put(Column::ProjectId, text(&self.project.project_id));
        row.put(Column::ProviderRef, text(&self.provider_ref));
        row.put(Column::Kind, text("unavailable"));
        row.put(Column::AtMs, SqlValue::Int8(self.at_ms as i64));
        row.put(Column::Reason, text(&self.reason));
        one(
            row.insert_new(
                Table::ProjectKnowledgeProviders,
                vec![
                    Column::TenantId,
                    Column::WorkspaceId,
                    Column::ProjectId,
                    Column::ProviderRef,
                    Column::Kind,
                    Column::AtMs,
                ],
            ),
        )
    }
}

/// A knowledge provider of a project changed what it can do.
#[derive(Debug, PartialEq, Eq)]
pub struct KnowledgeProviderCapabilityChanged {
    pub prior_json: String,
    pub current_json: String,
    pub project: ProjectKey,
    pub provider_ref: String,
    pub at_ms: u64,
}

impl KnowledgeProviderCapabilityChanged {
    /// What the event writes.
    pub open spec fn writes(self, at: Moment) -> Planned {
        Planned::Writes(
            seq![
                RowView::new()
                    .put(Column::TenantId, ValueView::Text(self.project.tenant_id@))
                    .put(Column::WorkspaceId, ValueView::Text(self.project.workspace_id@))
                    .put(Column::ProjectId, ValueView::Text(self.project.project_id@))
                    .put(Column::ProviderRef, ValueView::Text(self.provider_ref@))
                    .put(Column::Kind, ValueView::Text("capability_changed"@))
                    .put(Column::AtMs, ValueView::Int8(self.at_ms as i64))
                    .put(Column::PriorSnapshotJson, ValueView::Text(self.prior_json@))
                    .put(Column::CurrentSnapshotJson, ValueView::Text(self.current_json@))
                    .insert_new(
                        Table::ProjectKnowledgeProviders,
                        seq![
                            Column::TenantId,
                            Column::WorkspaceId,
                            Column::ProjectId,
                            Column::ProviderRef,
                            Column::Kind,
                            Column::AtMs,
                        ],
                    ),
            ],
        )
    }

    /// Plans what the event writes.
    pub fn plan(&self, at: &Moment) -> (r: Result<Vec<Statement>, StoreError>)
        ensures
            Planned::of(r) == self.writes(*at),
    {
        let mut row = Cells::new();
        row.put(Column::TenantId, text(&self.project.tenant_id));
        row.put(Column::WorkspaceId, text(&self.project.workspace_id));
        row.put(Column::ProjectId, text(&self.project.project_id));
        row.put(Column::ProviderRef, text(&self.provider_ref));
        row.put(Column::Kind, text("capability_changed"));
        row.put(Column::AtMs, SqlValue::Int8(self.at_ms as i64));
        row.put(Column::PriorSnapshotJson, text(&self.prior_json));
        row.put(Column::CurrentSnapshotJson, text(&self.current_json));
        one(
            row.insert_new(
                Table::ProjectKnowledgeProviders,
                vec![
                    Column::TenantId,
                    Column::WorkspaceId,
                    Column::ProjectId,
                    Column::ProviderRef,
                    Column::Kind,
                    Column::AtMs,
                ],
            ),
        )
    }
}

/// A document was submitted to a knowledge provider. An earlier rejection is forgotten.
#[derive(Debug, PartialEq, Eq)]
pub struct KnowledgeIngestSubmitted {
    pub project: ProjectKey,
    pub document_id: String,
    pub provider_ref: String,
    pub source_type: String,
    pub at_ms: u64,
}

impl KnowledgeIngestSubmitted {
    /// What the event writes.
    pub open spec fn writes(self, at: Moment) -> Planned {
        Planned::Writes(
            seq![
                RowView::new()
                    .put(Column::TenantId, ValueView::Text(self.project.tenant_id@))
                    .put(Column::WorkspaceId, ValueView::Text(self.project.workspace_id@))
                    .put(Column::ProjectId, ValueView::Text(self.project.project_id@))
                    .put(Column::DocumentId, ValueView::Text(self.document_id@))
                    .put(Column::ProviderRef, ValueView::Text(self.provider_ref@))
                    .put(Column::Status, ValueView::Text("submitted"@))
                    .put(Column::SourceType, ValueView::Text(self.source_type@))
                    .put(Column::SubmittedAtMs, ValueView::Int8(self.at_ms as i64))
                    .put(Column::UpdatedAtMs, ValueView::Int8(self.at_ms as i64))
                    .upsert(
                        Table::KnowledgeIngestJobs,
                        seq![
                            Column::TenantId,
                            Column::WorkspaceId,
                            Column::ProjectId,
                            Column::DocumentId,
                        ],
                        ChangesView::new()
                            .excluded(Column::ProviderRef)
                            .put(Column::Status, ValueView::Text("submitted"@))
                            .excluded(Column::SourceType)
                            .excluded(Column::SubmittedAtMs)
                            .excluded(Column::UpdatedAtMs)
                            .put(Column::Reason, ValueView::Null(SqlType::Text)),
                    ),
            ],
        )
    }

    /// Plans what the event writes.
    pub fn plan(&self, at: &Moment) -> (r: Result<Vec<Statement>, StoreError>)
        ensures
            Planned::of(r) == self.writes(*at),
    {
        let mut row = Cells::new();
        row.put(Column::TenantId, text(&self.project.tenant_id));
        row.put(Column::WorkspaceId, text(&self.project.workspace_id));
        row.put(Column::ProjectId, text(&self.project.project_id));
        row.put(Column::DocumentId, text(&self.document_id));
        row.put(Column::ProviderRef, text(&self.provider_ref));
        row.put(Column::Status, text("submitted"));
        row.put(Column::SourceType, text(&self.source_type));
        row.put(Column::SubmittedAtMs, SqlValue::Int8(self.at_ms as i64));
        row.put(Column::UpdatedAtMs, SqlValue::Int8(self.at_ms as i64));
        let mut changes = Changes::new();
        changes.excluded(Column::ProviderRef);
        changes.put(Column::Status, text("submitted"));
        changes.excluded(Column::SourceType);
        changes.excluded(Column::SubmittedAtMs);
        changes.excluded(Column::UpdatedAtMs);
        changes.put(Column::Reason, SqlValue::Null(SqlType::Text));
        one(
            row.upsert(
                Table::KnowledgeIngestJobs,
                vec![Column::TenantId, Column::WorkspaceId, Column::ProjectId, Column::DocumentId],
                changes,
            ),
        )
    }
}

/// A knowledge provider rejected a document, which has no id: the event stands for it.
#[derive(Debug, PartialEq, Eq)]
pub struct KnowledgeIngestRejected {
    pub project: ProjectKey,
    pub provider_ref: String,
    pub reason: String,
    pub at_ms: u64,
}

impl KnowledgeIngestRejected {
    /// What the event writes.
    pub open spec fn writes(self, at: Moment) -> Planned {
        Planned::Writes(
            seq![
                RowView::new()
                    .put(Column::TenantId, ValueView::Text(self.project.tenant_id@))
                    .put(Column::WorkspaceId, ValueView::Text(self.project.workspace_id@))
                    .put(Column::ProjectId, ValueView::Text(self.project.project_id@))
                    .put(
                        Column::DocumentId,
                        ValueView::Text("rejected:"@ + self.provider_ref@ + ":"@ + at.event_id@),
                    )
                    .put(Column::ProviderRef, ValueView::Text(self.provider_ref@))
                    .put(Column::Status, ValueView::Text("rejected"@))
                    .put(Column::Reason, ValueView::Text(self.reason@))
                    .put(Column::SubmittedAtMs, ValueView::Int8(self.at_ms as i64))
                    .put(Column::UpdatedAtMs, ValueView::Int8(self.at_ms as i64))
                    .upsert(
                        Table::KnowledgeIngestJobs,
                        seq![
                            Column::TenantId,
                            Column::WorkspaceId,
                            Column::ProjectId,
                            Column::DocumentId,
                        ],
                        ChangesView::new()
                            .excluded(Column::ProviderRef)
                            .put(Column::Status, ValueView::Text("rejected"@))
                            .excluded(Column::Reason)
                            .excluded(Column::UpdatedAtMs),
                    ),
            ],
        )
    }

    /// Plans what the event writes.
    pub fn plan(&self, at: &Moment) -> (r: Result<Vec<Statement>, StoreError>)
        ensures
            Planned::of(r) == self.writes(*at),
    {
        let mut document_id: String = "rejected:".to_owned();
        document_id.append(&self.provider_ref);
        document_id.append(":");
        document_id.append(&at.event_id);
        let mut row = Cells::new();
        row.put(Column::TenantId, text(&self.project.tenant_id));
        row.put(Column::WorkspaceId, text(&self.project.workspace_id));
        row.put(Column::ProjectId, text(&self.project.project_id));
        row.put(Column::DocumentId, SqlValue::Text(document_id));
        row.put(Column::ProviderRef, text(&self.provider_ref));
        row.put(Column::Status, text("rejected"));
        row.put(Column::Reason, text(&self.reason));
        row.put(Column::SubmittedAtMs, SqlValue::Int8(self.at_ms as i64));
        row.put(Column::UpdatedAtMs, SqlValue::Int8(self.at_ms as i64));
        let mut changes = Changes::new();
        changes.excluded(Column::ProviderRef);
        changes.put(Column::Status, text("rejected"));
        changes.excluded(Column::Reason);
        changes.excluded(Column::UpdatedAtMs);
        one(
            row.upsert(
                Table::KnowledgeIngestJobs,
                vec![Column::TenantId, Column::WorkspaceId, Column::ProjectId, Column::DocumentId],
                changes,
            ),
        )
    }
}

/// A knowledge ingest moved to another status.
#[derive(Debug, PartialEq, Eq)]
pub struct KnowledgeIngestStatusUpdated {
    pub project: ProjectKey,
    pub document_id: String,
    pub status: String,
    pub at_ms: u64,
}

impl KnowledgeIngestStatusUpdated {
    /// What the event writes.
    pub open spec fn writes(self, at: Moment) -> Planned {
        Planned::Writes(
            seq![
                ChangesView::new()
                    .put(Column::Status, ValueView::Text(self.status@))
                    .put(Column::UpdatedAtMs, ValueView::Int8(self.at_ms as i64))
                    .update(
                        Table::KnowledgeIngestJobs,
                        FilterView::new()
                            .equals(Column::TenantId, ValueView::Text(self.project.tenant_id@))
                            .equals(
                                Column::WorkspaceId,
                                ValueView::Text(self.project.workspace_id@),
                            )
                            .equals(Column::ProjectId, ValueView::Text(self.project.project_id@))
                            .equals(Column::DocumentId, ValueView::Text(self.document_id@)),
                    ),
            ],
        )
    }

    /// Plans what the event writes.
    pub fn plan(&self, at: &Moment) -> (r: Result<Vec<Statement>, StoreError>)
        ensures
            Planned::of(r) == self.writes(*at),
    {
        let mut changes = Changes::new();
        changes.put(Column::Status, text(&self.status));
        changes.put(Column::UpdatedAtMs, SqlValue::Int8(self.at_ms as i64));
        let mut filter = Filter::new();
        filter.equals(Column::TenantId, text(&self.project.tenant_id));
        filter.equals(Column::WorkspaceId, text(&self.project.workspace_id));
        filter.equals(Column::ProjectId, text(&self.project.project_id));
        filter.equals(Column::DocumentId, text(&self.document_id));
        one(changes.update(Table::KnowledgeIngestJobs, filter))
    }
}

/// An ingest job started.
#[derive(Debug, PartialEq, Eq)]
pub struct IngestJobStarted {
    pub document_count: u32,
    pub started_at: u64,
    pub job_id: String,
    pub project: ProjectKey,
    pub source_id: Option<String>,
}

impl IngestJobStarted {
    /// What the event writes.
    pub open spec fn writes(self, at: Moment) -> Planned {
        if self.document_count > i32::MAX {
            Planned::Refused(
                ErrorView::exceeds_integer_column(
                    "IngestJobStarted.document_count"@,
                    self.document_count as nat,
                ),
            )
        } else if self.started_at > i64::MAX {
            Planned::Refused(
                ErrorView::exceeds(
                    "IngestJobStarted.started_at"@,
                    self.started_at as nat,
                    "i64::MAX"@,
                ),
            )
        } else {
            Planned::Writes(
                seq![
                    RowView::new()
                        .put(Column::JobId, ValueView::Text(self.job_id@))
                        .put(Column::TenantId, ValueView::Text(self.project.tenant_id@))
                        .put(Column::WorkspaceId, ValueView::Text(self.project.workspace_id@))
                        .put(Column::ProjectId, ValueView::Text(self.project.project_id@))
                        .put(Column::SourceId, ValueView::opt_text(self.source_id))
                        .put(Column::DocumentCount, ValueView::Int4(self.document_count as i32))
                        .put(Column::State, ValueView::Text(IngestJobState::Processing.spec_name()))
                        .put(Column::ErrorMessage, ValueView::Null(SqlType::Text))
                        .put(Column::CreatedAtMs, ValueView::Int8(self.started_at as i64))
                        .put(Column::UpdatedAtMs, ValueView::Int8(self.started_at as i64))
                        .insert_new(Table::IngestJobs, seq![Column::JobId]),
                ],
            )
        }
    }

    /// Plans what the event writes.
    pub fn plan(&self, at: &Moment) -> (r: Result<Vec<Statement>, StoreError>)
        ensures
            Planned::of(r) == self.writes(*at),
    {
        let document_count: i32 = match i32_from_u32(
            "IngestJobStarted.document_count",
            self.document_count,
        ) {
            Ok(v) => v,
            Err(e) => return Err(e),
        };
        let started_at: i64 = match fits_i64("IngestJobStarted.started_at", self.started_at) {
            Ok(v) => v,
            Err(e) => return Err(e),
        };
        let mut row = Cells::new();
        row.put(Column::JobId, text(&self.job_id));
        row.put(Column::TenantId, text(&self.project.tenant_id));
        row.put(Column::WorkspaceId, text(&self.project.workspace_id));
        row.put(Column::ProjectId, text(&self.project.project_id));
        row.put(Column::SourceId, opt_text(&self.source_id));
        row.put(Column::DocumentCount, SqlValue::Int4(document_count));
        row.put(Column::State, text(IngestJobState::Processing.name()));
        row.put(Column::ErrorMessage, SqlValue::Null(SqlType::Text));
        row.put(Column::CreatedAtMs, SqlValue::Int8(started_at));
        row.put(Column::UpdatedAtMs, SqlValue::Int8(started_at));
        one(row.insert_new(Table::IngestJobs, only(Column::JobId)))
    }
}

/// An ingest job ended.
#[derive(Debug, PartialEq, Eq)]
pub struct IngestJobCompleted {
    pub completed_at: u64,
    pub success: bool,
    pub job_id: String,
    pub error_message: Option<String>,
}

impl IngestJobCompleted {
    /// The state that the job ended in.
    pub open spec fn state(self) -> IngestJobState {
        if self.success {
            IngestJobState::Completed
        } else {
            IngestJobState::Failed
        }
    }

    /// What the event writes.
    pub open spec fn writes(self, at: Moment) -> Planned {
        if self.completed_at > i64::MAX {
            Planned::Refused(
                ErrorView::exceeds(
                    "IngestJobCompleted.completed_at"@,
                    self.completed_at as nat,
                    "i64::MAX"@,
                ),
            )
        } else {
            Planned::Writes(
                seq![
                    ChangesView::new()
                        .put(Column::State, ValueView::Text(self.state().spec_name()))
                        .put(Column::ErrorMessage, ValueView::opt_text(self.error_message))
                        .put(Column::UpdatedAtMs, ValueView::Int8(self.completed_at as i64))
                        .update(
                            Table::IngestJobs,
                            FilterView::new().equals(Column::JobId, ValueView::Text(self.job_id@)),
                        ),
                ],
            )
        }
    }

    /// Plans what the event writes.
    pub fn plan(&self, at: &Moment) -> (r: Result<Vec<Statement>, StoreError>)
        ensures
            Planned::of(r) == self.writes(*at),
    {
        let completed_at: i64 = match fits_i64(
            "IngestJobCompleted.completed_at",
            self.completed_at,
        ) {
            Ok(v) => v,
            Err(e) => return Err(e),
        };
        let state = if self.success {
            IngestJobState::Completed
        } else {
            IngestJobState::Failed
        };
        let mut changes = Changes::new();
        changes.put(Column::State, text(state.name()));
        changes.put(Column::ErrorMessage, opt_text(&self.error_message));
        changes.put(Column::UpdatedAtMs, SqlValue::Int8(completed_at));
        let mut filter = Filter::new();
        filter.equals(Column::JobId, text(&self.job_id));
        one(changes.update(Table::IngestJobs, filter))
    }
}

/// A soul patch was proposed.
#[derive(Debug, PartialEq, Eq)]
pub struct SoulPatchProposed {
    pub proposed_at: u64,
    pub patch_id: String,
    pub project: ProjectKey,
    pub patch_content: String,
    pub requires_approval: bool,
}

impl SoulPatchProposed {
    /// What the event writes.
    pub open spec fn writes(self, at: Moment) -> Planned {
        if self.proposed_at > i64::MAX {
            Planned::Refused(
                ErrorView::exceeds(
                    "SoulPatchProposed.proposed_at"@,
                    self.proposed_at as nat,
                    "i64::MAX"@,
                ),
            )
        } else {
            Planned::Writes(
                seq![
                    RowView::new()
                        .put(Column::PatchId, ValueView::Text(self.patch_id@))
                        .put(Column::TenantId, ValueView::Text(self.project.tenant_id@))
                        .put(Column::WorkspaceId, ValueView::Text(self.project.workspace_id@))
                        .put(Column::ProjectId, ValueView::Text(self.project.project_id@))
                        .put(Column::State, ValueView::Text("proposed"@))
                        .put(Column::PatchContent, ValueView::Text(self.patch_content@))
                        .put(Column::RequiresApproval, ValueView::Bool(self.requires_approval))
                        .put(Column::ProposedAtMs, ValueView::Int8(self.proposed_at as i64))
                        .insert_new(Table::SoulPatches, seq![Column::PatchId]),
                ],
            )
        }
    }

    /// Plans what the event writes.
    pub fn plan(&self, at: &Moment) -> (r: Result<Vec<Statement>, StoreError>)
        ensures
            Planned::of(r) == self.writes(*at),
    {
        let proposed_at: i64 = match fits_i64("SoulPatchProposed.proposed_at", self.proposed_at) {
            Ok(v) => v,
            Err(e) => return Err(e),
        };
        let mut row = Cells::new();
        row.put(Column::PatchId, text(&self.patch_id));
        row.put(Column::TenantId, text(&self.project.tenant_id));
        row.put(Column::WorkspaceId, text(&self.project.workspace_id));
        row.put(Column::ProjectId, text(&self.project.project_id));
        row.put(Column::State, text("proposed"));
        row.put(Column::PatchContent, text(&self.patch_content));
        row.put(Column::RequiresApproval, SqlValue::Bool(self.requires_approval));
        row.put(Column::ProposedAtMs, SqlValue::Int8(proposed_at));
        one(row.insert_new(Table::SoulPatches, only(Column::PatchId)))
    }
}

/// A soul patch was applied. One that was never proposed is stored without content.
#[derive(Debug, PartialEq, Eq)]
pub struct SoulPatchApplied {
    pub applied_at: u64,
    pub new_version: u32,
    pub patch_id: String,
    pub project: ProjectKey,
}

impl SoulPatchApplied {
    /// What the event writes.
    pub open spec fn writes(self, at: Moment) -> Planned {
        if self.applied_at > i64::MAX {
            Planned::Refused(
                ErrorView::exceeds(
                    "SoulPatchApplied.applied_at"@,
                    self.applied_at as nat,
                    "i64::MAX"@,
                ),
            )
        } else if self.new_version > i32::MAX {
            Planned::Refused(
                ErrorView::exceeds(
                    "SoulPatchApplied.new_version"@,
                    self.new_version as nat,
                    "i32::MAX"@,
                ),
            )
        } else {
            Planned::Writes(
                seq![
                    RowView::new()
                        .put(Column::PatchId, ValueView::Text(self.patch_id@))
                        .put(Column::TenantId, ValueView::Text(self.project.tenant_id@))
                        .put(Column::WorkspaceId, ValueView::Text(self.project.workspace_id@))
                        .put(Column::ProjectId, ValueView::Text(self.project.project_id@))
                        .put(Column::State, ValueView::Text("applied"@))
                        .put(Column::PatchContent, ValueView::Text(""@))
                        .put(Column::RequiresApproval, ValueView::Bool(false))
                        .put(Column::ProposedAtMs, ValueView::Int8(0))
                        .put(Column::AppliedAtMs, ValueView::Int8(self.applied_at as i64))
                        .put(Column::NewVersion, ValueView::Int4(self.new_version as i32))
                        .upsert(
                            Table::SoulPatches,
                            seq![Column::PatchId],
                            ChangesView::new()
                                .put(Column::State, ValueView::Text("applied"@))
                                .excluded(Column::AppliedAtMs)
                                .excluded(Column::NewVersion),
                        ),
                ],
            )
        }
    }

    /// Plans what the event writes.
    pub fn plan(&self, at: &Moment) -> (r: Result<Vec<Statement>, StoreError>)
        ensures
            Planned::of(r) == self.writes(*at),
    {
        let applied_at: i64 = match fits_i64("SoulPatchApplied.applied_at", self.applied_at) {
            Ok(v) => v,
            Err(e) => return Err(e),
        };
        let new_version: i32 = match fits_i32("SoulPatchApplied.new_version", self.new_version) {
            Ok(v) => v,
            Err(e) => return Err(e),
        };
        let mut row = Cells::new();
        row.put(Column::PatchId, text(&self.patch_id));
        row.put(Column::TenantId, text(&self.project.tenant_id));
        row.put(Column::WorkspaceId, text(&self.project.workspace_id));
        row.put(Column::ProjectId, text(&self.project.project_id));
        row.put(Column::State, text("applied"));
        row.put(Column::PatchContent, text(""));
        row.put(Column::RequiresApproval, SqlValue::Bool(false));
        row.put(Column::ProposedAtMs, SqlValue::Int8(0));
        row.put(Column::AppliedAtMs, SqlValue::Int8(applied_at));
        row.put(Column::NewVersion, SqlValue::Int4(new_version));
        let mut changes = Changes::new();
        changes.put(Column::State, text("applied"));
        changes.excluded(Column::AppliedAtMs);
        changes.excluded(Column::NewVersion);
        one(row.upsert(Table::SoulPatches, only(Column::PatchId), changes))
    }
}

} // verus!
