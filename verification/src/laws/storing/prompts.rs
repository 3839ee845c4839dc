//! What the events store: prompts.

use crate::laws::rows::{group_filters, group_rows};
use crate::model::{Database, Datum, Row};
use crate::plan::{Found, Moment};
use crate::projections::prompts::{
    PromptAssetCreated, PromptReleaseCreated, PromptReleaseTransitioned, PromptVersionCreated,
};
use crate::schema::{Column, Table};
use crate::statement::ConflictView;
use vstd::prelude::*;

verus! {

/// What a [`PromptAssetCreated`] event stores.
pub proof fn prompt_asset_created_is_stored(
    e: PromptAssetCreated,
    at: Moment,
    db: Database,
    was: Row,
    other: Column,
)
    ensures
        ({
            let s = e.writes(at).statements()[0];
            let new = crate::laws::rows::left_by(db, s, None);
            &&& e.writes(at) is Writes
            &&& e.writes(at).statements().len() == 1
            &&& s is Insert && s.table() == Table::PromptAssets
            &&& crate::model::value(new, Column::PromptAssetId) == Datum::Text(e.prompt_asset_id@)
            &&& crate::model::value(new, Column::TenantId) == Datum::Text(e.project.tenant_id@)
            &&& crate::model::value(new, Column::WorkspaceId)
                == Datum::Text(e.project.workspace_id@)
            &&& crate::model::value(new, Column::ProjectId) == Datum::Text(e.project.project_id@)
            &&& crate::model::value(new, Column::Name) == Datum::Text(e.name@)
            &&& crate::model::value(new, Column::Kind) == Datum::Text(e.kind@)
            &&& crate::model::value(new, Column::Scope) == Datum::Null
            &&& crate::model::value(new, Column::Status) == Datum::Text("draft"@)
            &&& crate::model::value(new, Column::CreatedAt)
                == Datum::Int(e.created_at as i64 as int)
            &&& crate::model::value(new, Column::UpdatedAt) == Datum::Int(at.now as int)
            &&& other is PromptAssetId || other is TenantId || other is WorkspaceId
                || other is ProjectId || other is Name || other is Kind || other is Scope
                || other is Status || other is CreatedAt || other is UpdatedAt
                || crate::model::value(new, other) == db.default_of(Table::PromptAssets, other)
            &&& s->Insert_conflict == ConflictView::Ignore(seq![Column::PromptAssetId])
        }),
{
    broadcast use {group_rows, group_filters};
}

/// What a [`PromptVersionCreated`] event stores.
pub proof fn prompt_version_created_is_stored(
    e: PromptVersionCreated,
    at: Moment,
    found: Found,
    db: Database,
    was: Row,
    other: Column,
)
    ensures
        ({
            let s = e.writes(at, found).statements()[0];
            let new = crate::laws::rows::left_by(db, s, None);
            &&& e.writes(at, found) is Writes
            &&& e.writes(at, found).statements().len() == 1
            &&& s is Insert && s.table() == Table::PromptVersions
            &&& crate::model::value(new, Column::PromptVersionId)
                == Datum::Text(e.prompt_version_id@)
            &&& crate::model::value(new, Column::PromptAssetId) == Datum::Text(e.prompt_asset_id@)
            &&& crate::model::value(new, Column::TenantId) == Datum::Text(e.project.tenant_id@)
            &&& crate::model::value(new, Column::WorkspaceId)
                == Datum::Text(e.project.workspace_id@)
            &&& crate::model::value(new, Column::ProjectId) == Datum::Text(e.project.project_id@)
            &&& crate::model::value(new, Column::VersionNumber)
                == Datum::Int(found.next_version as int)
            &&& crate::model::value(new, Column::ContentHash) == Datum::Text(e.content_hash@)
            &&& crate::model::value(new, Column::Content) == Datum::Null
            &&& crate::model::value(new, Column::Format) == Datum::Null
            &&& crate::model::value(new, Column::CreatedBy) == Datum::Null
            &&& crate::model::value(new, Column::CreatedAt)
                == Datum::Int(e.created_at as i64 as int)
            &&& other is PromptVersionId || other is PromptAssetId || other is TenantId
                || other is WorkspaceId || other is ProjectId || other is VersionNumber
                || other is ContentHash || other is Content || other is Format || other is CreatedBy
                || other is CreatedAt
                || crate::model::value(new, other) == db.default_of(Table::PromptVersions, other)
            &&& s->Insert_conflict == ConflictView::Ignore(seq![Column::PromptVersionId])
        }),
{
    broadcast use {group_rows, group_filters};
}

/// What a [`PromptReleaseCreated`] event stores.
pub proof fn prompt_release_created_is_stored(
    e: PromptReleaseCreated,
    at: Moment,
    db: Database,
    was: Row,
    other: Column,
)
    ensures
        ({
            let s = e.writes(at).statements()[0];
            let new = crate::laws::rows::left_by(db, s, None);
            &&& e.writes(at) is Writes
            &&& e.writes(at).statements().len() == 1
            &&& s is Insert && s.table() == Table::PromptReleases
            &&& crate::model::value(new, Column::PromptReleaseId)
                == Datum::Text(e.prompt_release_id@)
            &&& crate::model::value(new, Column::PromptAssetId) == Datum::Text(e.prompt_asset_id@)
            &&& crate::model::value(new, Column::PromptVersionId)
                == Datum::Text(e.prompt_version_id@)
            &&& crate::model::value(new, Column::TenantId) == Datum::Text(e.project.tenant_id@)
            &&& crate::model::value(new, Column::WorkspaceId)
                == Datum::Text(e.project.workspace_id@)
            &&& crate::model::value(new, Column::ProjectId) == Datum::Text(e.project.project_id@)
            &&& crate::model::value(new, Column::ReleaseTag)
                == crate::laws::storing::optional_text(e.release_tag)
            &&& crate::model::value(new, Column::State) == Datum::Text("draft"@)
            &&& crate::model::value(new, Column::RolloutTarget) == Datum::Null
            &&& crate::model::value(new, Column::CreatedAt)
                == Datum::Int(e.created_at as i64 as int)
            &&& crate::model::value(new, Column::UpdatedAt)
                == Datum::Int(e.created_at as i64 as int)
            &&& other is PromptReleaseId || other is PromptAssetId || other is PromptVersionId
                || other is TenantId || other is WorkspaceId || other is ProjectId
                || other is ReleaseTag || other is State || other is RolloutTarget
                || other is CreatedAt || other is UpdatedAt
                || crate::model::value(new, other) == db.default_of(Table::PromptReleases, other)
            &&& s->Insert_conflict == ConflictView::Ignore(seq![Column::PromptReleaseId])
        }),
{
    broadcast use {group_rows, group_filters};
}

/// What a [`PromptReleaseTransitioned`] event stores.
pub proof fn prompt_release_transitioned_is_stored(
    e: PromptReleaseTransitioned,
    at: Moment,
    db: Database,
    was: Row,
    other: Column,
)
    ensures
        ({
            let s = e.writes(at).statements()[0];
            let updated = crate::laws::rows::updated_by(db, s, was);
            let selected = crate::model::value(was, Column::PromptReleaseId)
                == Datum::Text(e.prompt_release_id@);
            &&& e.writes(at) is Writes
            &&& e.writes(at).statements().len() == 1
            &&& s is Update && s.table() == Table::PromptReleases
            &&& selected ==> {
                &&& crate::model::value(updated, Column::State) == Datum::Text(e.to_state@)
                &&& crate::model::value(updated, Column::UpdatedAt) == Datum::Int(at.now as int)
                &&& other is State || other is UpdatedAt
                    || crate::model::value(updated, other) == crate::model::value(was, other)
            }
            &&& !selected ==> updated == was
        }),
{
    broadcast use {group_rows, group_filters};
}

} // verus!
