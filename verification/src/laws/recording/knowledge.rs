//! What the records say of the stored rows: knowledge.

use crate::domain::DomainNames;
use crate::error::ErrorView;
use crate::model::{Datum, Row};
use crate::read::StoredRow;
use crate::read::knowledge::{
    AgentRoleRecord, AgentRoleRow, IngestJobRecord, IngestJobRow, SoulPatchRecord, SoulPatchRow,
};
use crate::schema::Column;
use vstd::prelude::*;

verus! {

/// What the fields of a [`IngestJobRecord`] say of the stored row.
pub proof fn the_record_of_an_ingest_job_row(
    row: IngestJobRow,
    stored: Row,
    names: DomainNames,
    record: IngestJobRecord,
)
    requires
        row.is_of(stored),
        row.holds(&names, &record),
    ensures
        crate::model::value(stored, Column::JobId) == Datum::Text(record.id@),
        crate::model::value(stored, Column::TenantId) == Datum::Text(record.project.tenant_id@),
        crate::model::value(stored, Column::WorkspaceId)
            == Datum::Text(record.project.workspace_id@),
        crate::model::value(stored, Column::ProjectId) == Datum::Text(record.project.project_id@),
        crate::model::value(stored, Column::SourceId)
            == crate::laws::storing::optional_text(record.source_id),
        crate::laws::recording::is_at_least_zero(
            crate::model::value(stored, Column::DocumentCount),
            record.document_count as int,
        ),
        crate::model::value(stored, Column::State) == Datum::Text(record.state.spec_name()),
        crate::model::value(stored, Column::ErrorMessage)
            == crate::laws::storing::optional_text(record.error_message),
        crate::laws::recording::is_at_least_zero(
            crate::model::value(stored, Column::CreatedAtMs),
            record.created_at as int,
        ),
        crate::laws::recording::is_at_least_zero(
            crate::model::value(stored, Column::UpdatedAtMs),
            record.updated_at as int,
        ),
{
    crate::vocabulary::ingest_job_state_names_are_inverse(record.state, row.state@);
}

/// A [`IngestJobRow`] says nothing of a stored row but what the columns that it asks for
/// hold.
pub proof fn the_columns_of_an_ingest_job_row(row: IngestJobRow, stored: Row, other: Row)
    requires
        forall|i: int|
            0 <= i < IngestJobRow::spec_columns().len()
                ==> crate::model::value(stored, #[trigger] IngestJobRow::spec_columns()[i])
                    == crate::model::value(other, IngestJobRow::spec_columns()[i]),
    ensures
        row.is_of(stored) == row.is_of(other),
{
    let columns = IngestJobRow::spec_columns();
    assert(columns[0] == Column::JobId);
    assert(columns[1] == Column::TenantId);
    assert(columns[2] == Column::WorkspaceId);
    assert(columns[3] == Column::ProjectId);
    assert(columns[4] == Column::SourceId);
    assert(columns[5] == Column::DocumentCount);
    assert(columns[6] == Column::State);
    assert(columns[7] == Column::ErrorMessage);
    assert(columns[8] == Column::CreatedAtMs);
    assert(columns[9] == Column::UpdatedAtMs);
}

/// When a [`IngestJobRow`] holds no record, and how it is refused.
pub proof fn the_faults_of_an_ingest_job_row(row: IngestJobRow, names: DomainNames)
    ensures
        row.state@ != "pending"@ && row.state@ != "processing"@ && row.state@ != "completed"@
            && row.state@ != "failed"@
            ==> row.fault(&names)
                == Some(
                    ErrorView::Internal(
                        "ingest_jobs.state = "@ + crate::json::quoted(row.state@)
                            + " is not a known IngestJobState"@,
                    ),
                ),
        !(
            row.state@ != "pending"@ && row.state@ != "processing"@ && row.state@ != "completed"@
                && row.state@ != "failed"@
        )
            ==> row.fault(&names) is None,
{
}

/// What the fields of a [`SoulPatchRecord`] say of the stored row.
pub proof fn the_record_of_a_soul_patch_row(
    row: SoulPatchRow,
    stored: Row,
    names: DomainNames,
    record: SoulPatchRecord,
)
    requires
        row.is_of(stored),
        row.holds(&names, &record),
    ensures
        crate::model::value(stored, Column::PatchId) == Datum::Text(record.patch_id@),
        crate::model::value(stored, Column::TenantId) == Datum::Text(record.project.tenant_id@),
        crate::model::value(stored, Column::WorkspaceId)
            == Datum::Text(record.project.workspace_id@),
        crate::model::value(stored, Column::ProjectId) == Datum::Text(record.project.project_id@),
        crate::model::value(stored, Column::State) == Datum::Text(record.state.spec_name()),
        crate::model::value(stored, Column::PatchContent) == Datum::Text(record.patch_content@),
        crate::model::value(stored, Column::RequiresApproval)
            == Datum::Bool(record.requires_approval),
        crate::laws::recording::is_at_least_zero(
            crate::model::value(stored, Column::ProposedAtMs),
            record.proposed_at_ms as int,
        ),
        match record.applied_at_ms {
            Some(n) => crate::laws::recording::is_at_least_zero(
                crate::model::value(stored, Column::AppliedAtMs),
                n as int,
            ),
            None => crate::model::value(stored, Column::AppliedAtMs) == Datum::Null,
        },
        match record.new_version {
            Some(n) => crate::laws::recording::is_at_least_zero(
                crate::model::value(stored, Column::NewVersion),
                n as int,
            ),
            None => crate::model::value(stored, Column::NewVersion) == Datum::Null,
        },
{
    crate::vocabulary::soul_patch_state_names_are_inverse(record.state, row.state@);
}

/// A [`SoulPatchRow`] says nothing of a stored row but what the columns that it asks for
/// hold.
pub proof fn the_columns_of_a_soul_patch_row(row: SoulPatchRow, stored: Row, other: Row)
    requires
        forall|i: int|
            0 <= i < SoulPatchRow::spec_columns().len()
                ==> crate::model::value(stored, #[trigger] SoulPatchRow::spec_columns()[i])
                    == crate::model::value(other, SoulPatchRow::spec_columns()[i]),
    ensures
        row.is_of(stored) == row.is_of(other),
{
    let columns = SoulPatchRow::spec_columns();
    assert(columns[0] == Column::PatchId);
    assert(columns[1] == Column::TenantId);
    assert(columns[2] == Column::WorkspaceId);
    assert(columns[3] == Column::ProjectId);
    assert(columns[4] == Column::State);
    assert(columns[5] == Column::PatchContent);
    assert(columns[6] == Column::RequiresApproval);
    assert(columns[7] == Column::ProposedAtMs);
    assert(columns[8] == Column::AppliedAtMs);
    assert(columns[9] == Column::NewVersion);
}

/// When a [`SoulPatchRow`] holds no record, and how it is refused.
pub proof fn the_faults_of_a_soul_patch_row(row: SoulPatchRow, names: DomainNames)
    ensures
        row.state@ != "proposed"@ && row.state@ != "applied"@
            ==> row.fault(&names)
                == Some(
                    ErrorView::Serialization(
                        "soul_patches.state "@ + crate::json::quoted( row.state@, )
                            + " unknown for patch_id="@ + row.patch_id@,
                    ),
                ),
        !(row.state@ != "proposed"@ && row.state@ != "applied"@) ==> row.fault(&names) is None,
{
}

/// What the fields of a [`AgentRoleRecord`] say of the stored row.
pub proof fn the_record_of_an_agent_role_row(
    row: AgentRoleRow,
    stored: Row,
    names: DomainNames,
    record: AgentRoleRecord,
)
    requires
        row.is_of(stored),
        row.holds(&names, &record),
    ensures
        crate::model::value(stored, Column::TenantId) == Datum::Text(record.project.tenant_id@),
        crate::model::value(stored, Column::WorkspaceId)
            == Datum::Text(record.project.workspace_id@),
        crate::model::value(stored, Column::ProjectId) == Datum::Text(record.project.project_id@),
        crate::model::value(stored, Column::RoleId) == Datum::Text(record.role_id@),
        crate::model::value(stored, Column::RoleJson) == Datum::Text(record.role@),
        crate::model::value(stored, Column::ShadowsBuiltin)
            == crate::laws::storing::optional_text(record.shadows_builtin),
        crate::model::value(stored, Column::DefinedBy) == Datum::Text(record.defined_by@),
        crate::laws::recording::is_at_least_zero(
            crate::model::value(stored, Column::DefinedAt),
            record.defined_at as int,
        ),
        match record.retracted_at {
            Some(n) => crate::laws::recording::is_at_least_zero(
                crate::model::value(stored, Column::RetractedAt),
                n as int,
            ),
            None => crate::model::value(stored, Column::RetractedAt) == Datum::Null,
        },
        crate::model::value(stored, Column::RetractedBy)
            == crate::laws::storing::optional_text(record.retracted_by),
{
}

/// A [`AgentRoleRow`] says nothing of a stored row but what the columns that it asks for
/// hold.
pub proof fn the_columns_of_an_agent_role_row(row: AgentRoleRow, stored: Row, other: Row)
    requires
        forall|i: int|
            0 <= i < AgentRoleRow::spec_columns().len()
                ==> crate::model::value(stored, #[trigger] AgentRoleRow::spec_columns()[i])
                    == crate::model::value(other, AgentRoleRow::spec_columns()[i]),
    ensures
        row.is_of(stored) == row.is_of(other),
{
    let columns = AgentRoleRow::spec_columns();
    assert(columns[0] == Column::TenantId);
    assert(columns[1] == Column::WorkspaceId);
    assert(columns[2] == Column::ProjectId);
    assert(columns[3] == Column::RoleId);
    assert(columns[4] == Column::RoleJson);
    assert(columns[5] == Column::ShadowsBuiltin);
    assert(columns[6] == Column::DefinedBy);
    assert(columns[7] == Column::DefinedAt);
    assert(columns[8] == Column::RetractedAt);
    assert(columns[9] == Column::RetractedBy);
}

/// When a [`AgentRoleRow`] holds no record, and how it is refused.
pub proof fn the_faults_of_an_agent_role_row(row: AgentRoleRow, names: DomainNames)
    ensures
        row.role.fault is Some
            ==> row.fault(&names) == Some(ErrorView::Serialization(row.role.fault->Some_0@)),
        !(row.role.fault is Some) ==> row.fault(&names) is None,
{
}

} // verus!
