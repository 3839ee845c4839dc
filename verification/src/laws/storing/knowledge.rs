//! What the events store: knowledge.

use crate::laws::rows::{group_filters, group_rows};
use crate::model::{Database, Datum, Row};
use crate::plan::{Moment, Planned};
use crate::projections::knowledge::{
    IngestJobCompleted, IngestJobStarted, KnowledgeIngestRejected, KnowledgeIngestStatusUpdated,
    KnowledgeIngestSubmitted, KnowledgeProviderCapabilityChanged, KnowledgeProviderConfigured,
    KnowledgeProviderUnavailable, SoulPatchApplied, SoulPatchProposed,
};
use crate::schema::{Column, Table};
use crate::statement::{ConflictView, GuardView};
use vstd::prelude::*;

verus! {

/// What a [`SoulPatchProposed`] event stores.
pub proof fn soul_patch_proposed_is_stored(
    e: SoulPatchProposed,
    at: Moment,
    db: Database,
    was: Row,
    other: Column,
)
    ensures
        e.proposed_at > i64::MAX
            ==> e.writes(at)
                == Planned::Refused(
                    crate::laws::storing::too_great(
                        "SoulPatchProposed.proposed_at"@,
                        e.proposed_at as nat,
                        "i64::MAX"@,
                    ),
                ),
        e.proposed_at <= i64::MAX ==> ({
            let s = e.writes(at).statements()[0];
            let new = crate::laws::rows::left_by(db, s, None);
            &&& e.writes(at) is Writes
            &&& e.writes(at).statements().len() == 1
            &&& s is Insert && s.table() == Table::SoulPatches
            &&& crate::model::value(new, Column::PatchId) == Datum::Text(e.patch_id@)
            &&& crate::model::value(new, Column::TenantId) == Datum::Text(e.project.tenant_id@)
            &&& crate::model::value(new, Column::WorkspaceId)
                == Datum::Text(e.project.workspace_id@)
            &&& crate::model::value(new, Column::ProjectId) == Datum::Text(e.project.project_id@)
            &&& crate::model::value(new, Column::State) == Datum::Text("proposed"@)
            &&& crate::model::value(new, Column::PatchContent) == Datum::Text(e.patch_content@)
            &&& crate::model::value(new, Column::RequiresApproval)
                == Datum::Bool(e.requires_approval)
            &&& crate::model::value(new, Column::ProposedAtMs)
                == Datum::Int(e.proposed_at as i64 as int)
            &&& other is PatchId || other is TenantId || other is WorkspaceId || other is ProjectId
                || other is State || other is PatchContent || other is RequiresApproval
                || other is ProposedAtMs
                || crate::model::value(new, other) == db.default_of(Table::SoulPatches, other)
            &&& s->Insert_conflict == ConflictView::Ignore(seq![Column::PatchId])
        }),
{
    broadcast use {group_rows, group_filters};
}

/// What a [`SoulPatchApplied`] event stores.
pub proof fn soul_patch_applied_is_stored(
    e: SoulPatchApplied,
    at: Moment,
    db: Database,
    was: Row,
    other: Column,
)
    ensures
        e.applied_at > i64::MAX
            ==> e.writes(at)
                == Planned::Refused(
                    crate::laws::storing::too_great(
                        "SoulPatchApplied.applied_at"@,
                        e.applied_at as nat,
                        "i64::MAX"@,
                    ),
                ),
        e.applied_at <= i64::MAX && e.new_version > i32::MAX
            ==> e.writes(at)
                == Planned::Refused(
                    crate::laws::storing::too_great(
                        "SoulPatchApplied.new_version"@,
                        e.new_version as nat,
                        "i32::MAX"@,
                    ),
                ),
        e.applied_at <= i64::MAX && e.new_version <= i32::MAX ==> ({
            let s = e.writes(at).statements()[0];
            let merged = crate::laws::rows::left_by(db, s, Some(was));
            let new = crate::laws::rows::left_by(db, s, None);
            &&& e.writes(at) is Writes
            &&& e.writes(at).statements().len() == 1
            &&& s is Insert && s.table() == Table::SoulPatches
            &&& crate::model::value(new, Column::PatchId) == Datum::Text(e.patch_id@)
            &&& crate::model::value(new, Column::TenantId) == Datum::Text(e.project.tenant_id@)
            &&& crate::model::value(new, Column::WorkspaceId)
                == Datum::Text(e.project.workspace_id@)
            &&& crate::model::value(new, Column::ProjectId) == Datum::Text(e.project.project_id@)
            &&& crate::model::value(new, Column::State) == Datum::Text("applied"@)
            &&& crate::model::value(new, Column::PatchContent) == Datum::Text(""@)
            &&& crate::model::value(new, Column::RequiresApproval) == Datum::Bool(false)
            &&& crate::model::value(new, Column::ProposedAtMs) == Datum::Int(0)
            &&& crate::model::value(new, Column::AppliedAtMs)
                == Datum::Int(e.applied_at as i64 as int)
            &&& crate::model::value(new, Column::NewVersion)
                == Datum::Int((e.new_version as i32) as int)
            &&& other is PatchId || other is TenantId || other is WorkspaceId || other is ProjectId
                || other is State || other is PatchContent || other is RequiresApproval
                || other is ProposedAtMs || other is AppliedAtMs || other is NewVersion
                || crate::model::value(new, other) == db.default_of(Table::SoulPatches, other)
            &&& s->Insert_conflict is Merge
            &&& s->Insert_conflict->Merge_key == seq![Column::PatchId]
            &&& s->Insert_conflict->Merge_guard == GuardView::Always
            &&& crate::model::value(merged, Column::State) == Datum::Text("applied"@)
            &&& crate::model::value(merged, Column::AppliedAtMs)
                == Datum::Int(e.applied_at as i64 as int)
            &&& crate::model::value(merged, Column::NewVersion)
                == Datum::Int((e.new_version as i32) as int)
            &&& other is State || other is AppliedAtMs || other is NewVersion
                || crate::model::value(merged, other) == crate::model::value(was, other)
        }),
{
    broadcast use {group_rows, group_filters};
}

/// What a [`IngestJobStarted`] event stores.
pub proof fn ingest_job_started_is_stored(
    e: IngestJobStarted,
    at: Moment,
    db: Database,
    was: Row,
    other: Column,
)
    ensures
        e.document_count > i32::MAX
            ==> e.writes(at)
                == Planned::Refused(
                    crate::laws::storing::too_great_for_an_integer(
                        "IngestJobStarted.document_count"@,
                        e.document_count as nat,
                    ),
                ),
        e.document_count <= i32::MAX && e.started_at > i64::MAX
            ==> e.writes(at)
                == Planned::Refused(
                    crate::laws::storing::too_great(
                        "IngestJobStarted.started_at"@,
                        e.started_at as nat,
                        "i64::MAX"@,
                    ),
                ),
        e.document_count <= i32::MAX && e.started_at <= i64::MAX ==> ({
            let s = e.writes(at).statements()[0];
            let new = crate::laws::rows::left_by(db, s, None);
            &&& e.writes(at) is Writes
            &&& e.writes(at).statements().len() == 1
            &&& s is Insert && s.table() == Table::IngestJobs
            &&& crate::model::value(new, Column::JobId) == Datum::Text(e.job_id@)
            &&& crate::model::value(new, Column::TenantId) == Datum::Text(e.project.tenant_id@)
            &&& crate::model::value(new, Column::WorkspaceId)
                == Datum::Text(e.project.workspace_id@)
            &&& crate::model::value(new, Column::ProjectId) == Datum::Text(e.project.project_id@)
            &&& crate::model::value(new, Column::SourceId)
                == crate::laws::storing::optional_text(e.source_id)
            &&& crate::model::value(new, Column::DocumentCount)
                == Datum::Int((e.document_count as i32) as int)
            &&& crate::model::value(new, Column::State) == Datum::Text("processing"@)
            &&& crate::model::value(new, Column::ErrorMessage) == Datum::Null
            &&& crate::model::value(new, Column::CreatedAtMs)
                == Datum::Int(e.started_at as i64 as int)
            &&& crate::model::value(new, Column::UpdatedAtMs)
                == Datum::Int(e.started_at as i64 as int)
            &&& other is JobId || other is TenantId || other is WorkspaceId || other is ProjectId
                || other is SourceId || other is DocumentCount || other is State
                || other is ErrorMessage || other is CreatedAtMs || other is UpdatedAtMs
                || crate::model::value(new, other) == db.default_of(Table::IngestJobs, other)
            &&& s->Insert_conflict == ConflictView::Ignore(seq![Column::JobId])
        }),
{
    broadcast use {group_rows, group_filters};
}

/// What a [`IngestJobCompleted`] event stores.
pub proof fn ingest_job_completed_is_stored(
    e: IngestJobCompleted,
    at: Moment,
    db: Database,
    was: Row,
    other: Column,
)
    ensures
        e.completed_at > i64::MAX
            ==> e.writes(at)
                == Planned::Refused(
                    crate::laws::storing::too_great(
                        "IngestJobCompleted.completed_at"@,
                        e.completed_at as nat,
                        "i64::MAX"@,
                    ),
                ),
        e.completed_at <= i64::MAX ==> ({
            let s = e.writes(at).statements()[0];
            let updated = crate::laws::rows::updated_by(db, s, was);
            let selected = crate::model::value(was, Column::JobId) == Datum::Text(e.job_id@);
            &&& e.writes(at) is Writes
            &&& e.writes(at).statements().len() == 1
            &&& s is Update && s.table() == Table::IngestJobs
            &&& selected ==> {
                &&& crate::model::value(updated, Column::State)
                    == Datum::Text((if e.success { "completed"@ } else { "failed"@ }))
                &&& crate::model::value(updated, Column::ErrorMessage)
                    == crate::laws::storing::optional_text(e.error_message)
                &&& crate::model::value(updated, Column::UpdatedAtMs)
                    == Datum::Int(e.completed_at as i64 as int)
                &&& other is State || other is ErrorMessage || other is UpdatedAtMs
                    || crate::model::value(updated, other) == crate::model::value(was, other)
            }
            &&& !selected ==> updated == was
        }),
{
    broadcast use {group_rows, group_filters};
}

/// What a [`KnowledgeProviderConfigured`] event stores.
pub proof fn knowledge_provider_configured_is_stored(
    e: KnowledgeProviderConfigured,
    at: Moment,
    db: Database,
    was: Row,
    other: Column,
)
    ensures
        ({
            let s = e.writes(at).statements()[0];
            let merged = crate::laws::rows::left_by(db, s, Some(was));
            let new = crate::laws::rows::left_by(db, s, None);
            &&& e.writes(at) is Writes
            &&& e.writes(at).statements().len() == 1
            &&& s is Insert && s.table() == Table::ProjectKnowledgeProviders
            &&& crate::model::value(new, Column::TenantId) == Datum::Text(e.project.tenant_id@)
            &&& crate::model::value(new, Column::WorkspaceId)
                == Datum::Text(e.project.workspace_id@)
            &&& crate::model::value(new, Column::ProjectId) == Datum::Text(e.project.project_id@)
            &&& crate::model::value(new, Column::ProviderRef) == Datum::Text(e.provider_ref@)
            &&& crate::model::value(new, Column::Kind) == Datum::Text("configured"@)
            &&& crate::model::value(new, Column::AtMs) == Datum::Int(e.at_ms as i64 as int)
            &&& crate::model::value(new, Column::ConfiguredBy) == Datum::Text(e.configured_by@)
            &&& other is TenantId || other is WorkspaceId || other is ProjectId
                || other is ProviderRef || other is Kind || other is AtMs || other is ConfiguredBy
                || crate::model::value(new, other)
                    == db.default_of(Table::ProjectKnowledgeProviders, other)
            &&& s->Insert_conflict is Merge
            &&& s->Insert_conflict->Merge_key
                == seq![
                    Column::TenantId,
                    Column::WorkspaceId,
                    Column::ProjectId,
                    Column::ProviderRef,
                    Column::Kind,
                    Column::AtMs,
                ]
            &&& s->Insert_conflict->Merge_guard == GuardView::Always
            &&& crate::model::value(merged, Column::ConfiguredBy) == Datum::Text(e.configured_by@)
            &&& other is ConfiguredBy
                || crate::model::value(merged, other) == crate::model::value(was, other)
        }),
{
    broadcast use {group_rows, group_filters};
}

/// What a [`KnowledgeProviderUnavailable`] event stores.
pub proof fn knowledge_provider_unavailable_is_stored(
    e: KnowledgeProviderUnavailable,
    at: Moment,
    db: Database,
    was: Row,
    other: Column,
)
    ensures
        ({
            let s = e.writes(at).statements()[0];
            let new = crate::laws::rows::left_by(db, s, None);
            &&& e.writes(at) is Writes
            &&& e.writes(at).statements().len() == 1
            &&& s is Insert && s.table() == Table::ProjectKnowledgeProviders
            &&& crate::model::value(new, Column::TenantId) == Datum::Text(e.project.tenant_id@)
            &&& crate::model::value(new, Column::WorkspaceId)
                == Datum::Text(e.project.workspace_id@)
            &&& crate::model::value(new, Column::ProjectId) == Datum::Text(e.project.project_id@)
            &&& crate::model::value(new, Column::ProviderRef) == Datum::Text(e.provider_ref@)
            &&& crate::model::value(new, Column::Kind) == Datum::Text("unavailable"@)
            &&& crate::model::value(new, Column::AtMs) == Datum::Int(e.at_ms as i64 as int)
            &&& crate::model::value(new, Column::Reason) == Datum::Text(e.reason@)
            &&& other is TenantId || other is WorkspaceId || other is ProjectId
                || other is ProviderRef || other is Kind || other is AtMs || other is Reason
                || crate::model::value(new, other)
                    == db.default_of(Table::ProjectKnowledgeProviders, other)
            &&& s->Insert_conflict
                == ConflictView::Ignore(
                    seq![
                        Column::TenantId,
                        Column::WorkspaceId,
                        Column::ProjectId,
                        Column::ProviderRef,
                        Column::Kind,
                        Column::AtMs,
                    ],
                )
        }),
{
    broadcast use {group_rows, group_filters};
}

/// What a [`KnowledgeProviderCapabilityChanged`] event stores.
pub proof fn knowledge_provider_capability_changed_is_stored(
    e: KnowledgeProviderCapabilityChanged,
    at: Moment,
    db: Database,
    was: Row,
    other: Column,
)
    ensures
        ({
            let s = e.writes(at).statements()[0];
            let new = crate::laws::rows::left_by(db, s, None);
            &&& e.writes(at) is Writes
            &&& e.writes(at).statements().len() == 1
            &&& s is Insert && s.table() == Table::ProjectKnowledgeProviders
            &&& crate::model::value(new, Column::TenantId) == Datum::Text(e.project.tenant_id@)
            &&& crate::model::value(new, Column::WorkspaceId)
                == Datum::Text(e.project.workspace_id@)
            &&& crate::model::value(new, Column::ProjectId) == Datum::Text(e.project.project_id@)
            &&& crate::model::value(new, Column::ProviderRef) == Datum::Text(e.provider_ref@)
            &&& crate::model::value(new, Column::Kind) == Datum::Text("capability_changed"@)
            &&& crate::model::value(new, Column::AtMs) == Datum::Int(e.at_ms as i64 as int)
            &&& crate::model::value(new, Column::PriorSnapshotJson) == Datum::Text(e.prior_json@)
            &&& crate::model::value(new, Column::CurrentSnapshotJson)
                == Datum::Text(e.current_json@)
            &&& other is TenantId || other is WorkspaceId || other is ProjectId
                || other is ProviderRef || other is Kind || other is AtMs
                || other is PriorSnapshotJson || other is CurrentSnapshotJson
                || crate::model::value(new, other)
                    == db.default_of(Table::ProjectKnowledgeProviders, other)
            &&& s->Insert_conflict
                == ConflictView::Ignore(
                    seq![
                        Column::TenantId,
                        Column::WorkspaceId,
                        Column::ProjectId,
                        Column::ProviderRef,
                        Column::Kind,
                        Column::AtMs,
                    ],
                )
        }),
{
    broadcast use {group_rows, group_filters};
}

/// What a [`KnowledgeIngestSubmitted`] event stores.
pub proof fn knowledge_ingest_submitted_is_stored(
    e: KnowledgeIngestSubmitted,
    at: Moment,
    db: Database,
    was: Row,
    other: Column,
)
    ensures
        ({
            let s = e.writes(at).statements()[0];
            let merged = crate::laws::rows::left_by(db, s, Some(was));
            let new = crate::laws::rows::left_by(db, s, None);
            &&& e.writes(at) is Writes
            &&& e.writes(at).statements().len() == 1
            &&& s is Insert && s.table() == Table::KnowledgeIngestJobs
            &&& crate::model::value(new, Column::TenantId) == Datum::Text(e.project.tenant_id@)
            &&& crate::model::value(new, Column::WorkspaceId)
                == Datum::Text(e.project.workspace_id@)
            &&& crate::model::value(new, Column::ProjectId) == Datum::Text(e.project.project_id@)
            &&& crate::model::value(new, Column::DocumentId) == Datum::Text(e.document_id@)
            &&& crate::model::value(new, Column::ProviderRef) == Datum::Text(e.provider_ref@)
            &&& crate::model::value(new, Column::Status) == Datum::Text("submitted"@)
            &&& crate::model::value(new, Column::SourceType) == Datum::Text(e.source_type@)
            &&& crate::model::value(new, Column::SubmittedAtMs) == Datum::Int(e.at_ms as i64 as int)
            &&& crate::model::value(new, Column::UpdatedAtMs) == Datum::Int(e.at_ms as i64 as int)
            &&& other is TenantId || other is WorkspaceId || other is ProjectId
                || other is DocumentId || other is ProviderRef || other is Status
                || other is SourceType || other is SubmittedAtMs || other is UpdatedAtMs
                || crate::model::value(new, other)
                    == db.default_of(Table::KnowledgeIngestJobs, other)
            &&& s->Insert_conflict is Merge
            &&& s->Insert_conflict->Merge_key
                == seq![
                    Column::TenantId,
                    Column::WorkspaceId,
                    Column::ProjectId,
                    Column::DocumentId,
                ]
            &&& s->Insert_conflict->Merge_guard == GuardView::Always
            &&& crate::model::value(merged, Column::ProviderRef) == Datum::Text(e.provider_ref@)
            &&& crate::model::value(merged, Column::Status) == Datum::Text("submitted"@)
            &&& crate::model::value(merged, Column::SourceType) == Datum::Text(e.source_type@)
            &&& crate::model::value(merged, Column::SubmittedAtMs)
                == Datum::Int(e.at_ms as i64 as int)
            &&& crate::model::value(merged, Column::UpdatedAtMs)
                == Datum::Int(e.at_ms as i64 as int)
            &&& crate::model::value(merged, Column::Reason) == Datum::Null
            &&& other is ProviderRef || other is Status || other is SourceType
                || other is SubmittedAtMs || other is UpdatedAtMs || other is Reason
                || crate::model::value(merged, other) == crate::model::value(was, other)
        }),
{
    broadcast use {group_rows, group_filters};
}

/// What a [`KnowledgeIngestRejected`] event stores.
pub proof fn knowledge_ingest_rejected_is_stored(
    e: KnowledgeIngestRejected,
    at: Moment,
    db: Database,
    was: Row,
    other: Column,
)
    ensures
        ({
            let s = e.writes(at).statements()[0];
            let merged = crate::laws::rows::left_by(db, s, Some(was));
            let new = crate::laws::rows::left_by(db, s, None);
            &&& e.writes(at) is Writes
            &&& e.writes(at).statements().len() == 1
            &&& s is Insert && s.table() == Table::KnowledgeIngestJobs
            &&& crate::model::value(new, Column::TenantId) == Datum::Text(e.project.tenant_id@)
            &&& crate::model::value(new, Column::WorkspaceId)
                == Datum::Text(e.project.workspace_id@)
            &&& crate::model::value(new, Column::ProjectId) == Datum::Text(e.project.project_id@)
            &&& crate::model::value(new, Column::DocumentId)
                == Datum::Text("rejected:"@ + e.provider_ref@ + ":"@ + at.event_id@)
            &&& crate::model::value(new, Column::ProviderRef) == Datum::Text(e.provider_ref@)
            &&& crate::model::value(new, Column::Status) == Datum::Text("rejected"@)
            &&& crate::model::value(new, Column::Reason) == Datum::Text(e.reason@)
            &&& crate::model::value(new, Column::SubmittedAtMs) == Datum::Int(e.at_ms as i64 as int)
            &&& crate::model::value(new, Column::UpdatedAtMs) == Datum::Int(e.at_ms as i64 as int)
            &&& other is TenantId || other is WorkspaceId || other is ProjectId
                || other is DocumentId || other is ProviderRef || other is Status || other is Reason
                || other is SubmittedAtMs || other is UpdatedAtMs
                || crate::model::value(new, other)
                    == db.default_of(Table::KnowledgeIngestJobs, other)
            &&& s->Insert_conflict is Merge
            &&& s->Insert_conflict->Merge_key
                == seq![
                    Column::TenantId,
                    Column::WorkspaceId,
                    Column::ProjectId,
                    Column::DocumentId,
                ]
            &&& s->Insert_conflict->Merge_guard == GuardView::Always
            &&& crate::model::value(merged, Column::ProviderRef) == Datum::Text(e.provider_ref@)
            &&& crate::model::value(merged, Column::Status) == Datum::Text("rejected"@)
            &&& crate::model::value(merged, Column::Reason) == Datum::Text(e.reason@)
            &&& crate::model::value(merged, Column::UpdatedAtMs)
                == Datum::Int(e.at_ms as i64 as int)
            &&& other is ProviderRef || other is Status || other is Reason || other is UpdatedAtMs
                || crate::model::value(merged, other) == crate::model::value(was, other)
        }),
{
    broadcast use {group_rows, group_filters};
}

/// What a [`KnowledgeIngestStatusUpdated`] event stores.
pub proof fn knowledge_ingest_status_updated_is_stored(
    e: KnowledgeIngestStatusUpdated,
    at: Moment,
    db: Database,
    was: Row,
    other: Column,
)
    ensures
        ({
            let s = e.writes(at).statements()[0];
            let updated = crate::laws::rows::updated_by(db, s, was);
            let selected = crate::model::value(was, Column::TenantId)
                == Datum::Text(e.project.tenant_id@)
                && crate::model::value(was, Column::WorkspaceId)
                    == Datum::Text(e.project.workspace_id@)
                && crate::model::value(was, Column::ProjectId) == Datum::Text(e.project.project_id@)
                && crate::model::value(was, Column::DocumentId) == Datum::Text(e.document_id@);
            &&& e.writes(at) is Writes
            &&& e.writes(at).statements().len() == 1
            &&& s is Update && s.table() == Table::KnowledgeIngestJobs
            &&& selected ==> {
                &&& crate::model::value(updated, Column::Status) == Datum::Text(e.status@)
                &&& crate::model::value(updated, Column::UpdatedAtMs)
                    == Datum::Int(e.at_ms as i64 as int)
                &&& other is Status || other is UpdatedAtMs
                    || crate::model::value(updated, other) == crate::model::value(was, other)
            }
            &&& !selected ==> updated == was
        }),
{
    broadcast use {group_rows, group_filters};
}

} // verus!
