//! What is found no more once it was removed.

use crate::laws::rows::group_rows;
use crate::model::Database;
use crate::plan::Moment;
use crate::projections::providers::ProviderConnectionDeleted;
use crate::projections::tenants::{DefaultSettingCleared, ResourceShareRevoked};
use crate::projections::triggers::{RunTemplateDeleted, TriggerDeleted};
use crate::read::providers::ProviderConnectionRow;
use crate::read::tasks::{FfLeaseHistoryCursor, LeaseHistoryCursorRow};
use crate::read::tenants::{DefaultSettingRow, ResourceShareRow};
use crate::read::triggers::{RunTemplateRow, TriggerRow};
use crate::statement::FilterView;
use vstd::prelude::*;

verus! {

/// After a `ProviderConnectionDeleted` event nothing is found of what it names.
pub proof fn provider_connection_deleted_is_found_no_more(
    e: ProviderConnectionDeleted,
    at: Moment,
    db: Database,
)
    ensures
        ProviderConnectionRow::spec_get(e.provider_connection_id@).selected(
            crate::model::after_all(db, e.writes(at).statements()),
        ).len() == 0,
{
    broadcast use group_rows;

    let s = e.writes(at).statements()[0];
    let query = ProviderConnectionRow::spec_get(e.provider_connection_id@);
    crate::laws::replay::one_statement(db, s);
    assert(e.writes(at).statements() =~= seq![s]);
    assert((FilterView { tests: query.filter }) == (FilterView { tests: s->Delete_filter }));
    crate::laws::finding::nothing_is_found_of_what_was_deleted(db, s, query);
}

/// After a `ResourceShareRevoked` event nothing is found of what it names.
pub proof fn resource_share_revoked_is_found_no_more(
    e: ResourceShareRevoked,
    at: Moment,
    db: Database,
)
    ensures
        ResourceShareRow::spec_get_share(e.share_id@).selected(
            crate::model::after_all(db, e.writes(at).statements()),
        ).len() == 0,
{
    broadcast use group_rows;

    let s = e.writes(at).statements()[0];
    let query = ResourceShareRow::spec_get_share(e.share_id@);
    crate::laws::replay::one_statement(db, s);
    assert(e.writes(at).statements() =~= seq![s]);
    assert((FilterView { tests: query.filter }) == (FilterView { tests: s->Delete_filter }));
    crate::laws::finding::nothing_is_found_of_what_was_deleted(db, s, query);
}

/// After a `DefaultSettingCleared` event nothing is found of what it names.
pub proof fn default_setting_cleared_is_found_no_more(
    e: DefaultSettingCleared,
    at: Moment,
    db: Database,
)
    ensures
        DefaultSettingRow::spec_get(e.scope, e.scope_id@, e.key@).selected(
            crate::model::after_all(db, e.writes(at).statements()),
        ).len() == 0,
{
    broadcast use group_rows;

    let s = e.writes(at).statements()[0];
    let query = DefaultSettingRow::spec_get(e.scope, e.scope_id@, e.key@);
    crate::laws::replay::one_statement(db, s);
    assert(e.writes(at).statements() =~= seq![s]);
    assert((FilterView { tests: query.filter }) == (FilterView { tests: s->Delete_filter }));
    crate::laws::finding::nothing_is_found_of_what_was_deleted(db, s, query);
}

/// After a `TriggerDeleted` event nothing is found of what it names.
pub proof fn trigger_deleted_is_found_no_more(e: TriggerDeleted, at: Moment, db: Database)
    ensures
        TriggerRow::spec_get_trigger(e.trigger_id@).selected(
            crate::model::after_all(db, e.writes(at).statements()),
        ).len() == 0,
{
    broadcast use group_rows;

    let s = e.writes(at).statements()[0];
    let query = TriggerRow::spec_get_trigger(e.trigger_id@);
    crate::laws::replay::one_statement(db, s);
    assert(e.writes(at).statements() =~= seq![s]);
    assert((FilterView { tests: query.filter }) == (FilterView { tests: s->Delete_filter }));
    crate::laws::finding::nothing_is_found_of_what_was_deleted(db, s, query);
}

/// After a `RunTemplateDeleted` event nothing is found of what it names.
pub proof fn run_template_deleted_is_found_no_more(e: RunTemplateDeleted, at: Moment, db: Database)
    ensures
        RunTemplateRow::spec_get_template(e.template_id@).selected(
            crate::model::after_all(db, e.writes(at).statements()),
        ).len() == 0,
{
    broadcast use group_rows;

    let s = e.writes(at).statements()[0];
    let query = RunTemplateRow::spec_get_template(e.template_id@);
    crate::laws::replay::one_statement(db, s);
    assert(e.writes(at).statements() =~= seq![s]);
    assert((FilterView { tests: query.filter }) == (FilterView { tests: s->Delete_filter }));
    crate::laws::finding::nothing_is_found_of_what_was_deleted(db, s, query);
}

/// After a cursor was forgotten it is found no more.
pub proof fn a_forgotten_cursor_is_found_no_more(
    partition_id: Seq<char>,
    execution_id: Seq<char>,
    db: Database,
)
    ensures
        LeaseHistoryCursorRow::spec_get(partition_id, execution_id).selected(
            crate::model::after(db, FfLeaseHistoryCursor::deleted(partition_id, execution_id)),
        ).len() == 0,
{
    broadcast use group_rows;

    let s = FfLeaseHistoryCursor::deleted(partition_id, execution_id);
    let query = LeaseHistoryCursorRow::spec_get(partition_id, execution_id);
    assert((FilterView { tests: query.filter }) == (FilterView { tests: s->Delete_filter }));
    crate::laws::finding::nothing_is_found_of_what_was_deleted(db, s, query);
}

} // verus!
