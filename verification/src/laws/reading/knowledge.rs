//! What is read back of what was written: knowledge.

use crate::domain::DomainNames;
use crate::laws::rows::group_rows;
use crate::model::{Database, Datum, Row};
use crate::plan::Moment;
use crate::projections::knowledge::{
    IngestJobCompleted, IngestJobStarted, SoulPatchApplied, SoulPatchProposed,
};
use crate::read::StoredRow;
use crate::read::knowledge::{IngestJobRecord, IngestJobRow, SoulPatchRecord, SoulPatchRow};
use crate::schema::{Column, Table};
use crate::vocabulary::{IngestJobState, SoulPatchState};
use vstd::prelude::*;

verus! {

/// The record that is read back after a `SoulPatchProposed` event holds what the event says.
pub proof fn soul_patch_proposed_is_read_back(
    e: SoulPatchProposed,
    at: Moment,
    db: Database,
    row: SoulPatchRow,
    names: DomainNames,
    record: SoulPatchRecord,
)
    requires
        e.writes(at) is Writes,
        e.writes(at).statements().len() > 0,
        row.is_of(crate::laws::rows::left_by(db, e.writes(at).statements()[0], None)),
        row.holds(&names, &record),
    ensures
        record.patch_id@ == e.patch_id@,
        record.project@ == e.project@,
        record.state == SoulPatchState::Proposed,
        record.patch_content@ == e.patch_content@,
        record.requires_approval == e.requires_approval,
        e.proposed_at <= i64::MAX ==> record.proposed_at_ms == e.proposed_at,
        row.fault(&names) is None,
        db.default_of(Table::SoulPatches, Column::AppliedAtMs) == Datum::Null
            ==> record.applied_at_ms is None,
        db.default_of(Table::SoulPatches, Column::NewVersion) == Datum::Null
            ==> record.new_version is None,
{
    broadcast use group_rows;

    crate::vocabulary::soul_patch_state_names_are_inverse(
        SoulPatchState::Proposed,
        SoulPatchState::Proposed.spec_name(),
    );
}

/// The record that is read back after a `SoulPatchApplied` event holds what the event says.
pub proof fn soul_patch_applied_is_read_back(
    e: SoulPatchApplied,
    at: Moment,
    db: Database,
    was: Option<Row>,
    before: SoulPatchRow,
    row: SoulPatchRow,
    names: DomainNames,
    old: SoulPatchRecord,
    record: SoulPatchRecord,
)
    requires
        e.writes(at) is Writes,
        e.writes(at).statements().len() > 0,
        was is Some ==> crate::laws::rows::replaces(
            db,
            e.writes(at).statements()[0],
            was->Some_0,
        ),
        was is Some ==> before.is_of(was->Some_0) && before.holds(&names, &old),
        row.is_of(crate::laws::rows::left_by(db, e.writes(at).statements()[0], was)),
        row.holds(&names, &record),
    ensures
        record.patch_id@ == e.patch_id@,
        was is None ==> record.project@ == e.project@,
        record.state == SoulPatchState::Applied,
        was is None ==> (record.patch_content@ == ""@),
        was is None ==> (record.requires_approval == false),
        was is None ==> (record.proposed_at_ms == 0),
        e.applied_at <= i64::MAX ==> record.applied_at_ms == Some(e.applied_at),
        e.new_version <= i32::MAX ==> record.new_version == Some(e.new_version),
        row.fault(&names) is None,
        was is Some ==> record.project@ == old.project@,
        was is Some ==> record.patch_content@ == old.patch_content@,
        was is Some ==> record.requires_approval == old.requires_approval,
        was is Some ==> record.proposed_at_ms == old.proposed_at_ms,
{
    broadcast use group_rows;

    let key = e.writes(at).statements()[0]->Insert_conflict->Merge_key;
    assert(key[0] == Column::PatchId);
    crate::vocabulary::soul_patch_state_names_are_inverse(
        SoulPatchState::Applied,
        SoulPatchState::Applied.spec_name(),
    );
}

/// The record that is read back after a `IngestJobStarted` event holds what the event says.
pub proof fn ingest_job_started_is_read_back(
    e: IngestJobStarted,
    at: Moment,
    db: Database,
    row: IngestJobRow,
    names: DomainNames,
    record: IngestJobRecord,
)
    requires
        e.writes(at) is Writes,
        e.writes(at).statements().len() > 0,
        row.is_of(crate::laws::rows::left_by(db, e.writes(at).statements()[0], None)),
        row.holds(&names, &record),
    ensures
        record.id@ == e.job_id@,
        record.project@ == e.project@,
        record.source_id.deep_view() == e.source_id.deep_view(),
        e.document_count <= i32::MAX ==> record.document_count == e.document_count,
        record.state == IngestJobState::Processing,
        record.error_message is None,
        e.started_at <= i64::MAX ==> record.created_at == e.started_at,
        e.started_at <= i64::MAX ==> record.updated_at == e.started_at,
        row.fault(&names) is None,
{
    broadcast use group_rows;

    crate::vocabulary::ingest_job_state_names_are_inverse(
        IngestJobState::Processing,
        IngestJobState::Processing.spec_name(),
    );
}

/// The record that is read back of a row that a `IngestJobCompleted` event changes holds what
/// the event says.
pub proof fn ingest_job_completed_is_read_back(
    e: IngestJobCompleted,
    at: Moment,
    db: Database,
    was: Row,
    before: IngestJobRow,
    row: IngestJobRow,
    names: DomainNames,
    old: IngestJobRecord,
    record: IngestJobRecord,
)
    requires
        e.writes(at) is Writes,
        e.writes(at).statements().len() > 0,
        crate::model::passes_all(db, was, e.writes(at).statements()[0]->Update_filter),
        before.is_of(was),
        row.is_of(crate::laws::rows::updated_by(db, e.writes(at).statements()[0], was)),
        before.holds(&names, &old),
        row.holds(&names, &record),
    ensures
        record.state == e.state(),
        record.error_message.deep_view() == e.error_message.deep_view(),
        e.completed_at <= i64::MAX ==> record.updated_at == e.completed_at,
        record.id@ == old.id@,
        record.project@ == old.project@,
        record.source_id.deep_view() == old.source_id.deep_view(),
        record.document_count == old.document_count,
        record.created_at == old.created_at,
{
    broadcast use group_rows;

    crate::vocabulary::ingest_job_state_names_are_inverse(e.state(), e.state().spec_name());
}

} // verus!
