//! What is read back of what was written: triggers.

use crate::domain::DomainNames;
use crate::laws::rows::group_rows;
use crate::model::{Database, Row};
use crate::plan::Moment;
use crate::projections::triggers::{
    RunTemplateCreated, TriggerCreated, TriggerDisabled, TriggerEnabled, TriggerResumed,
    TriggerSuspended,
};
use crate::read::StoredRow;
use crate::read::triggers::{RunTemplateRecord, RunTemplateRow, TriggerRecord, TriggerRow};
use crate::vocabulary::TriggerStateKind;
use vstd::prelude::*;

verus! {

/// The record that is read back after a `TriggerCreated` event holds what the event says.
pub proof fn trigger_created_is_read_back(
    e: TriggerCreated,
    at: Moment,
    db: Database,
    row: TriggerRow,
    names: DomainNames,
    record: TriggerRecord,
)
    requires
        e.writes(at) is Writes,
        e.writes(at).statements().len() > 0,
        row.is_of(crate::laws::rows::left_by(db, e.writes(at).statements()[0], None)),
        row.holds(&names, &record),
    ensures
        record.trigger_id@ == e.trigger_id@,
        record.project@ == e.project@,
        record.name@ == e.name@,
        record.description.deep_view() == e.description.deep_view(),
        record.signal_type@ == e.signal_type@,
        record.plugin_id.deep_view() == e.plugin_id.deep_view(),
        record.conditions_json@ == e.conditions_json@,
        record.run_template_id@ == e.run_template_id@,
        record.state == TriggerStateKind::Enabled,
        record.state_reason is None,
        record.suspension_reason is None,
        record.state_since is None,
        record.max_per_minute == e.max_per_minute,
        record.max_burst == e.max_burst,
        record.max_chain_depth == e.max_chain_depth,
        record.created_by@ == e.created_by@,
        e.created_at <= i64::MAX ==> record.created_at == e.created_at,
        e.created_at <= i64::MAX ==> record.updated_at == e.created_at,
        row.fault(&names) is None,
{
    broadcast use group_rows;

    crate::vocabulary::trigger_state_kind_names_are_inverse(
        TriggerStateKind::Enabled,
        TriggerStateKind::Enabled.spec_name(),
    );
}

/// The record that is read back after a `RunTemplateCreated` event holds what the event says.
pub proof fn run_template_created_is_read_back(
    e: RunTemplateCreated,
    at: Moment,
    db: Database,
    row: RunTemplateRow,
    names: DomainNames,
    record: RunTemplateRecord,
)
    requires
        e.writes(at) is Writes,
        e.writes(at).statements().len() > 0,
        row.is_of(crate::laws::rows::left_by(db, e.writes(at).statements()[0], None)),
        row.holds(&names, &record),
    ensures
        record.template_id@ == e.template_id@,
        record.project@ == e.project@,
        record.name@ == e.name@,
        record.description.deep_view() == e.description.deep_view(),
        record.default_mode@ == e.default_mode@,
        record.system_prompt@ == e.system_prompt@,
        record.initial_user_message.deep_view() == e.initial_user_message.deep_view(),
        record.plugin_allowlist_json.deep_view() == match e.plugin_allowlist {
            Some(v) => Some(crate::json::strings_as_json(v.deep_view())),
            None => None,
        },
        record.tool_allowlist_json.deep_view() == match e.tool_allowlist {
            Some(v) => Some(crate::json::strings_as_json(v.deep_view())),
            None => None,
        },
        match e.budget_max_tokens {
            Some(v) => v <= i64::MAX ==> record.budget_max_tokens == Some(v),
            None => record.budget_max_tokens is None,
        },
        match e.budget_max_wall_clock_ms {
            Some(v) => v <= i64::MAX ==> record.budget_max_wall_clock_ms == Some(v),
            None => record.budget_max_wall_clock_ms is None,
        },
        match e.budget_max_iterations {
            Some(v) => record.budget_max_iterations == Some(v),
            None => record.budget_max_iterations is None,
        },
        record.sandbox_hint.deep_view() == e.sandbox_hint.deep_view(),
        record.required_fields_json@ == crate::json::strings_as_json(e.required_fields.deep_view()),
        record.created_by@ == e.created_by@,
        e.created_at <= i64::MAX ==> record.created_at == e.created_at,
        e.created_at <= i64::MAX ==> record.updated_at == e.created_at,
        record.budget_exploration_budget_share is Some
            <==> e.budget_exploration_budget_share is Some,
{
    broadcast use group_rows;
}

/// The record that is read back of a row that a `TriggerEnabled` event changes holds what the
/// event says.
pub proof fn trigger_enabled_is_read_back(
    e: TriggerEnabled,
    at: Moment,
    db: Database,
    was: Row,
    before: TriggerRow,
    row: TriggerRow,
    names: DomainNames,
    old: TriggerRecord,
    record: TriggerRecord,
)
    requires
        e.writes(at) is Writes,
        e.writes(at).statements().len() > 0,
        crate::model::passes_all(db, was, e.writes(at).statements()[0]->Update_filter),
        before.is_of(was),
        row.is_of(crate::laws::rows::updated_by(db, e.writes(at).statements()[0], was)),
        before.holds(&names, &old),
        row.holds(&names, &record),
    ensures
        record.state == TriggerStateKind::Enabled,
        record.state_reason is None,
        record.suspension_reason is None,
        record.state_since is None,
        e.at <= i64::MAX ==> record.updated_at == e.at,
        record.trigger_id@ == old.trigger_id@,
        record.project@ == old.project@,
        record.name@ == old.name@,
        record.description.deep_view() == old.description.deep_view(),
        record.signal_type@ == old.signal_type@,
        record.plugin_id.deep_view() == old.plugin_id.deep_view(),
        record.conditions_json@ == old.conditions_json@,
        record.run_template_id@ == old.run_template_id@,
        record.max_per_minute == old.max_per_minute,
        record.max_burst == old.max_burst,
        record.max_chain_depth == old.max_chain_depth,
        record.created_by@ == old.created_by@,
        record.created_at == old.created_at,
{
    broadcast use group_rows;

    crate::vocabulary::trigger_state_kind_names_are_inverse(
        TriggerStateKind::Enabled,
        TriggerStateKind::Enabled.spec_name(),
    );
}

/// The record that is read back of a row that a `TriggerDisabled` event changes holds what the
/// event says.
pub proof fn trigger_disabled_is_read_back(
    e: TriggerDisabled,
    at: Moment,
    db: Database,
    was: Row,
    before: TriggerRow,
    row: TriggerRow,
    names: DomainNames,
    old: TriggerRecord,
    record: TriggerRecord,
)
    requires
        e.writes(at) is Writes,
        e.writes(at).statements().len() > 0,
        crate::model::passes_all(db, was, e.writes(at).statements()[0]->Update_filter),
        before.is_of(was),
        row.is_of(crate::laws::rows::updated_by(db, e.writes(at).statements()[0], was)),
        before.holds(&names, &old),
        row.holds(&names, &record),
    ensures
        record.state == TriggerStateKind::Disabled,
        record.state_reason.deep_view() == e.reason.deep_view(),
        record.suspension_reason is None,
        e.at <= i64::MAX ==> record.state_since == Some(e.at),
        e.at <= i64::MAX ==> record.updated_at == e.at,
        record.trigger_id@ == old.trigger_id@,
        record.project@ == old.project@,
        record.name@ == old.name@,
        record.description.deep_view() == old.description.deep_view(),
        record.signal_type@ == old.signal_type@,
        record.plugin_id.deep_view() == old.plugin_id.deep_view(),
        record.conditions_json@ == old.conditions_json@,
        record.run_template_id@ == old.run_template_id@,
        record.max_per_minute == old.max_per_minute,
        record.max_burst == old.max_burst,
        record.max_chain_depth == old.max_chain_depth,
        record.created_by@ == old.created_by@,
        record.created_at == old.created_at,
{
    broadcast use group_rows;

    crate::vocabulary::trigger_state_kind_names_are_inverse(
        TriggerStateKind::Disabled,
        TriggerStateKind::Disabled.spec_name(),
    );
}

/// The record that is read back of a row that a `TriggerSuspended` event changes holds what the
/// event says.
pub proof fn trigger_suspended_is_read_back(
    e: TriggerSuspended,
    at: Moment,
    db: Database,
    was: Row,
    before: TriggerRow,
    row: TriggerRow,
    names: DomainNames,
    old: TriggerRecord,
    record: TriggerRecord,
)
    requires
        e.writes(at) is Writes,
        e.writes(at).statements().len() > 0,
        crate::model::passes_all(db, was, e.writes(at).statements()[0]->Update_filter),
        before.is_of(was),
        row.is_of(crate::laws::rows::updated_by(db, e.writes(at).statements()[0], was)),
        before.holds(&names, &old),
        row.holds(&names, &record),
    ensures
        record.state == TriggerStateKind::Suspended,
        record.state_reason is None,
        record.suspension_reason.deep_view() == Some(e.reason@),
        e.at <= i64::MAX ==> record.state_since == Some(e.at),
        e.at <= i64::MAX ==> record.updated_at == e.at,
        record.trigger_id@ == old.trigger_id@,
        record.project@ == old.project@,
        record.name@ == old.name@,
        record.description.deep_view() == old.description.deep_view(),
        record.signal_type@ == old.signal_type@,
        record.plugin_id.deep_view() == old.plugin_id.deep_view(),
        record.conditions_json@ == old.conditions_json@,
        record.run_template_id@ == old.run_template_id@,
        record.max_per_minute == old.max_per_minute,
        record.max_burst == old.max_burst,
        record.max_chain_depth == old.max_chain_depth,
        record.created_by@ == old.created_by@,
        record.created_at == old.created_at,
{
    broadcast use group_rows;

    crate::vocabulary::trigger_state_kind_names_are_inverse(
        TriggerStateKind::Suspended,
        TriggerStateKind::Suspended.spec_name(),
    );
}

/// The record that is read back of a row that a `TriggerResumed` event changes holds what the
/// event says.
pub proof fn trigger_resumed_is_read_back(
    e: TriggerResumed,
    at: Moment,
    db: Database,
    was: Row,
    before: TriggerRow,
    row: TriggerRow,
    names: DomainNames,
    old: TriggerRecord,
    record: TriggerRecord,
)
    requires
        e.writes(at) is Writes,
        e.writes(at).statements().len() > 0,
        crate::model::passes_all(db, was, e.writes(at).statements()[0]->Update_filter),
        before.is_of(was),
        row.is_of(crate::laws::rows::updated_by(db, e.writes(at).statements()[0], was)),
        before.holds(&names, &old),
        row.holds(&names, &record),
    ensures
        record.state == TriggerStateKind::Enabled,
        record.state_reason is None,
        record.suspension_reason is None,
        record.state_since is None,
        e.at <= i64::MAX ==> record.updated_at == e.at,
        record.trigger_id@ == old.trigger_id@,
        record.project@ == old.project@,
        record.name@ == old.name@,
        record.description.deep_view() == old.description.deep_view(),
        record.signal_type@ == old.signal_type@,
        record.plugin_id.deep_view() == old.plugin_id.deep_view(),
        record.conditions_json@ == old.conditions_json@,
        record.run_template_id@ == old.run_template_id@,
        record.max_per_minute == old.max_per_minute,
        record.max_burst == old.max_burst,
        record.max_chain_depth == old.max_chain_depth,
        record.created_by@ == old.created_by@,
        record.created_at == old.created_at,
{
    broadcast use group_rows;

    crate::vocabulary::trigger_state_kind_names_are_inverse(
        TriggerStateKind::Enabled,
        TriggerStateKind::Enabled.spec_name(),
    );
}

} // verus!
