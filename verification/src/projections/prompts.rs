//! What prompt events write.

use crate::domain::ProjectKey;
use crate::error::StoreError;
use crate::plan::{one, Found, Moment, Planned};
use crate::schema::{Column, Table};
use crate::statement::{only, Cells, Changes, ChangesView, Filter, FilterView, RowView, Statement};
use crate::value::{opt_text, text, SqlType, SqlValue, ValueView};
use vstd::prelude::*;

verus! {

/// A prompt asset was created.
#[derive(Debug, PartialEq, Eq)]
pub struct PromptAssetCreated {
    pub prompt_asset_id: String,
    pub project: ProjectKey,
    pub name: String,
    pub kind: String,
    pub created_at: u64,
}

impl PromptAssetCreated {
    /// What the event writes.
    pub open spec fn writes(self, at: Moment) -> Planned {
        Planned::Writes(
            seq![
                RowView::new()
                    .put(Column::PromptAssetId, ValueView::Text(self.prompt_asset_id@))
                    .put(Column::TenantId, ValueView::Text(self.project.tenant_id@))
                    .put(Column::WorkspaceId, ValueView::Text(self.project.workspace_id@))
                    .put(Column::ProjectId, ValueView::Text(self.project.project_id@))
                    .put(Column::Name, ValueView::Text(self.name@))
                    .put(Column::Kind, ValueView::Text(self.kind@))
                    .put(Column::Scope, ValueView::Null(SqlType::Text))
                    .put(Column::Status, ValueView::Text("draft"@))
                    .put(Column::CreatedAt, ValueView::Int8(self.created_at as i64))
                    .put(Column::UpdatedAt, ValueView::Int8(at.now))
                    .insert_new(Table::PromptAssets, seq![Column::PromptAssetId]),
            ],
        )
    }

    /// Plans what the event writes.
    pub fn plan(&self, at: &Moment) -> (r: Result<Vec<Statement>, StoreError>)
        ensures
            Planned::of(r) == self.writes(*at),
    {
        let mut row = Cells::new();
        row.put(Column::PromptAssetId, text(&self.prompt_asset_id));
        row.put(Column::TenantId, text(&self.project.tenant_id));
        row.put(Column::WorkspaceId, text(&self.project.workspace_id));
        row.put(Column::ProjectId, text(&self.project.project_id));
        row.put(Column::Name, text(&self.name));
        row.put(Column::Kind, text(&self.kind));
        row.put(Column::Scope, SqlValue::Null(SqlType::Text));
        row.put(Column::Status, text("draft"));
        row.put(Column::CreatedAt, SqlValue::Int8(self.created_at as i64));
        row.put(Column::UpdatedAt, SqlValue::Int8(at.now));
        one(row.insert_new(Table::PromptAssets, only(Column::PromptAssetId)))
    }
}

/// A prompt asset got another version, numbered after the greatest stored.
#[derive(Debug, PartialEq, Eq)]
pub struct PromptVersionCreated {
    pub prompt_version_id: String,
    pub prompt_asset_id: String,
    pub project: ProjectKey,
    pub content_hash: String,
    pub created_at: u64,
}

impl PromptVersionCreated {
    /// What the event writes.
    pub open spec fn writes(self, at: Moment, found: Found) -> Planned {
        Planned::Writes(
            seq![
                RowView::new()
                    .put(Column::PromptVersionId, ValueView::Text(self.prompt_version_id@))
                    .put(Column::PromptAssetId, ValueView::Text(self.prompt_asset_id@))
                    .put(Column::TenantId, ValueView::Text(self.project.tenant_id@))
                    .put(Column::WorkspaceId, ValueView::Text(self.project.workspace_id@))
                    .put(Column::ProjectId, ValueView::Text(self.project.project_id@))
                    .put(Column::VersionNumber, ValueView::Int8(found.next_version))
                    .put(Column::ContentHash, ValueView::Text(self.content_hash@))
                    .put(Column::Content, ValueView::Null(SqlType::Text))
                    .put(Column::Format, ValueView::Null(SqlType::Text))
                    .put(Column::CreatedBy, ValueView::Null(SqlType::Text))
                    .put(Column::CreatedAt, ValueView::Int8(self.created_at as i64))
                    .insert_new(Table::PromptVersions, seq![Column::PromptVersionId]),
            ],
        )
    }

    /// Plans what the event writes.
    pub fn plan(&self, at: &Moment, found: &Found) -> (r: Result<Vec<Statement>, StoreError>)
        ensures
            Planned::of(r) == self.writes(*at, *found),
    {
        let mut row = Cells::new();
        row.put(Column::PromptVersionId, text(&self.prompt_version_id));
        row.put(Column::PromptAssetId, text(&self.prompt_asset_id));
        row.put(Column::TenantId, text(&self.project.tenant_id));
        row.put(Column::WorkspaceId, text(&self.project.workspace_id));
        row.put(Column::ProjectId, text(&self.project.project_id));
        row.put(Column::VersionNumber, SqlValue::Int8(found.next_version));
        row.put(Column::ContentHash, text(&self.content_hash));
        row.put(Column::Content, SqlValue::Null(SqlType::Text));
        row.put(Column::Format, SqlValue::Null(SqlType::Text));
        row.put(Column::CreatedBy, SqlValue::Null(SqlType::Text));
        row.put(Column::CreatedAt, SqlValue::Int8(self.created_at as i64));
        one(row.insert_new(Table::PromptVersions, only(Column::PromptVersionId)))
    }
}

/// A release of a prompt version was drafted.
#[derive(Debug, PartialEq, Eq)]
pub struct PromptReleaseCreated {
    pub prompt_release_id: String,
    pub prompt_asset_id: String,
    pub prompt_version_id: String,
    pub project: ProjectKey,
    pub release_tag: Option<String>,
    pub created_at: u64,
}

impl PromptReleaseCreated {
    /// What the event writes.
    pub open spec fn writes(self, at: Moment) -> Planned {
        Planned::Writes(
            seq![
                RowView::new()
                    .put(Column::PromptReleaseId, ValueView::Text(self.prompt_release_id@))
                    .put(Column::PromptAssetId, ValueView::Text(self.prompt_asset_id@))
                    .put(Column::PromptVersionId, ValueView::Text(self.prompt_version_id@))
                    .put(Column::TenantId, ValueView::Text(self.project.tenant_id@))
                    .put(Column::WorkspaceId, ValueView::Text(self.project.workspace_id@))
                    .put(Column::ProjectId, ValueView::Text(self.project.project_id@))
                    .put(Column::ReleaseTag, ValueView::opt_text(self.release_tag))
                    .put(Column::State, ValueView::Text("draft"@))
                    .put(Column::RolloutTarget, ValueView::Null(SqlType::Text))
                    .put(Column::CreatedAt, ValueView::Int8(self.created_at as i64))
                    .put(Column::UpdatedAt, ValueView::Int8(self.created_at as i64))
                    .insert_new(Table::PromptReleases, seq![Column::PromptReleaseId]),
            ],
        )
    }

    /// Plans what the event writes.
    pub fn plan(&self, at: &Moment) -> (r: Result<Vec<Statement>, StoreError>)
        ensures
            Planned::of(r) == self.writes(*at),
    {
        let mut row = Cells::new();
        row.put(Column::PromptReleaseId, text(&self.prompt_release_id));
        row.put(Column::PromptAssetId, text(&self.prompt_asset_id));
        row.put(Column::PromptVersionId, text(&self.prompt_version_id));
        row.put(Column::TenantId, text(&self.project.tenant_id));
        row.put(Column::WorkspaceId, text(&self.project.workspace_id));
        row.put(Column::ProjectId, text(&self.project.project_id));
        row.put(Column::ReleaseTag, opt_text(&self.release_tag));
        row.put(Column::State, text("draft"));
        row.put(Column::RolloutTarget, SqlValue::Null(SqlType::Text));
        row.put(Column::CreatedAt, SqlValue::Int8(self.created_at as i64));
        row.put(Column::UpdatedAt, SqlValue::Int8(self.created_at as i64));
        one(row.insert_new(Table::PromptReleases, only(Column::PromptReleaseId)))
    }
}

/// A prompt release moved to another state.
#[derive(Debug, PartialEq, Eq)]
pub struct PromptReleaseTransitioned {
    pub prompt_release_id: String,
    pub to_state: String,
}

impl PromptReleaseTransitioned {
    /// What the event writes.
    pub open spec fn writes(self, at: Moment) -> Planned {
        Planned::Writes(
            seq![
                ChangesView::new()
                    .put(Column::State, ValueView::Text(self.to_state@))
                    .put(Column::UpdatedAt, ValueView::Int8(at.now))
                    .update(
                        Table::PromptReleases,
                        FilterView::new()
                            .equals(
                                Column::PromptReleaseId,
                                ValueView::Text(self.prompt_release_id@),
                            ),
                    ),
            ],
        )
    }

    /// Plans what the event writes.
    pub fn plan(&self, at: &Moment) -> (r: Result<Vec<Statement>, StoreError>)
        ensures
            Planned::of(r) == self.writes(*at),
    {
        let mut changes = Changes::new();
        changes.put(Column::State, text(&self.to_state));
        changes.put(Column::UpdatedAt, SqlValue::Int8(at.now));
        let mut filter = Filter::new();
        filter.equals(Column::PromptReleaseId, text(&self.prompt_release_id));
        one(changes.update(Table::PromptReleases, filter))
    }
}

} // verus!
