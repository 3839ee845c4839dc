//! What is found of what was written: triggers.

use crate::laws::finding::group_queries;
use crate::laws::rows::group_rows;
use crate::model::Database;
use crate::plan::Moment;
use crate::projections::triggers::{RunTemplateCreated, TriggerCreated};
use crate::read::triggers::{RunTemplateRow, TriggerRow};
use vstd::prelude::*;

verus! {

/// The row that a `TriggerCreated` event leaves is found by the queries for what it names.
pub proof fn trigger_created_is_found(
    e: TriggerCreated,
    at: Moment,
    db: Database,
    later: Database,
)
    requires
        e.writes(at) is Writes,
        e.writes(at).statements().len() > 0,
    ensures
        ({
            let s = e.writes(at).statements()[0];
            let row = crate::laws::rows::left_by(db, s, None);
            &&& TriggerRow::spec_get_trigger(e.trigger_id@).finds(later, s.table(), row)
            &&& TriggerRow::spec_list_triggers_by_project(e.project@).finds(later, s.table(), row)
        }),
{
    broadcast use {group_queries, group_rows};
}

/// The row that a `RunTemplateCreated` event leaves is found by the queries for what it names.
pub proof fn run_template_created_is_found(
    e: RunTemplateCreated,
    at: Moment,
    db: Database,
    later: Database,
)
    requires
        e.writes(at) is Writes,
        e.writes(at).statements().len() > 0,
    ensures
        ({
            let s = e.writes(at).statements()[0];
            let row = crate::laws::rows::left_by(db, s, None);
            &&& RunTemplateRow::spec_get_template(e.template_id@).finds(later, s.table(), row)
            &&& RunTemplateRow::spec_list_templates_by_project(
                e.project@,
            ).finds(later, s.table(), row)
        }),
{
    broadcast use {group_queries, group_rows};
}

} // verus!
