//! What the events store: triggers.

use crate::laws::rows::{group_filters, group_rows};
use crate::model::{Database, Datum, Row};
use crate::plan::Moment;
use crate::projections::triggers::{
    RunTemplateCreated, RunTemplateDeleted, TriggerCreated, TriggerDeleted, TriggerDenied,
    TriggerDisabled, TriggerEnabled, TriggerFired, TriggerPendingApproval, TriggerRateLimited,
    TriggerResumed, TriggerSkipped, TriggerSuspended,
};
use crate::schema::{Column, Table};
use crate::statement::ConflictView;
use vstd::prelude::*;

verus! {

/// What a [`TriggerCreated`] event stores.
pub proof fn trigger_created_is_stored(
    e: TriggerCreated,
    at: Moment,
    db: Database,
    was: Row,
    other: Column,
)
    ensures
        ({
            let s = e.writes(at).statements()[0];
            let new = crate::laws::rows::left_by(db, s, None);
            &&& e.writes(at) is Writes
            &&& e.writes(at).statements().len() == 1
            &&& s is Insert && s.table() == Table::Triggers
            &&& crate::model::value(new, Column::TriggerId) == Datum::Text(e.trigger_id@)
            &&& crate::model::value(new, Column::TenantId) == Datum::Text(e.project.tenant_id@)
            &&& crate::model::value(new, Column::WorkspaceId)
                == Datum::Text(e.project.workspace_id@)
            &&& crate::model::value(new, Column::ProjectId) == Datum::Text(e.project.project_id@)
            &&& crate::model::value(new, Column::Name) == Datum::Text(e.name@)
            &&& crate::model::value(new, Column::Description)
                == crate::laws::storing::optional_text(e.description)
            &&& crate::model::value(new, Column::SignalType) == Datum::Text(e.signal_type@)
            &&& crate::model::value(new, Column::PluginId)
                == crate::laws::storing::optional_text(e.plugin_id)
            &&& crate::model::value(new, Column::ConditionsJson) == Datum::Text(e.conditions_json@)
            &&& crate::model::value(new, Column::RunTemplateId) == Datum::Text(e.run_template_id@)
            &&& crate::model::value(new, Column::State) == Datum::Text("enabled"@)
            &&& crate::model::value(new, Column::StateReason) == Datum::Null
            &&& crate::model::value(new, Column::SuspensionReason) == Datum::Null
            &&& crate::model::value(new, Column::StateSince) == Datum::Null
            &&& crate::model::value(new, Column::MaxPerMinute)
                == Datum::Int(e.max_per_minute as i64 as int)
            &&& crate::model::value(new, Column::MaxBurst) == Datum::Int(e.max_burst as i64 as int)
            &&& crate::model::value(new, Column::MaxChainDepth)
                == Datum::Int((e.max_chain_depth as i32) as int)
            &&& crate::model::value(new, Column::CreatedBy) == Datum::Text(e.created_by@)
            &&& crate::model::value(new, Column::CreatedAt)
                == Datum::Int(e.created_at as i64 as int)
            &&& crate::model::value(new, Column::UpdatedAt)
                == Datum::Int(e.created_at as i64 as int)
            &&& other is TriggerId || other is TenantId || other is WorkspaceId
                || other is ProjectId || other is Name || other is Description
                || other is SignalType || other is PluginId || other is ConditionsJson
                || other is RunTemplateId || other is State || other is StateReason
                || other is SuspensionReason || other is StateSince || other is MaxPerMinute
                || other is MaxBurst || other is MaxChainDepth || other is CreatedBy
                || other is CreatedAt || other is UpdatedAt
                || crate::model::value(new, other) == db.default_of(Table::Triggers, other)
            &&& s->Insert_conflict == ConflictView::Ignore(seq![Column::TriggerId])
        }),
{
    broadcast use {group_rows, group_filters};
}

/// What a [`TriggerEnabled`] event stores.
pub proof fn trigger_enabled_is_stored(
    e: TriggerEnabled,
    at: Moment,
    db: Database,
    was: Row,
    other: Column,
)
    ensures
        ({
            let s = e.writes(at).statements()[0];
            let updated = crate::laws::rows::updated_by(db, s, was);
            let selected = crate::model::value(was, Column::TriggerId)
                == Datum::Text(e.trigger_id@);
            &&& e.writes(at) is Writes
            &&& e.writes(at).statements().len() == 1
            &&& s is Update && s.table() == Table::Triggers
            &&& selected ==> {
                &&& crate::model::value(updated, Column::State) == Datum::Text("enabled"@)
                &&& crate::model::value(updated, Column::StateReason) == Datum::Null
                &&& crate::model::value(updated, Column::SuspensionReason) == Datum::Null
                &&& crate::model::value(updated, Column::StateSince) == Datum::Null
                &&& crate::model::value(updated, Column::UpdatedAt)
                    == Datum::Int(e.at as i64 as int)
                &&& other is State || other is StateReason || other is SuspensionReason
                    || other is StateSince || other is UpdatedAt
                    || crate::model::value(updated, other) == crate::model::value(was, other)
            }
            &&& !selected ==> updated == was
        }),
{
    broadcast use {group_rows, group_filters};
}

/// What a [`TriggerDisabled`] event stores.
pub proof fn trigger_disabled_is_stored(
    e: TriggerDisabled,
    at: Moment,
    db: Database,
    was: Row,
    other: Column,
)
    ensures
        ({
            let s = e.writes(at).statements()[0];
            let updated = crate::laws::rows::updated_by(db, s, was);
            let selected = crate::model::value(was, Column::TriggerId)
                == Datum::Text(e.trigger_id@);
            &&& e.writes(at) is Writes
            &&& e.writes(at).statements().len() == 1
            &&& s is Update && s.table() == Table::Triggers
            &&& selected ==> {
                &&& crate::model::value(updated, Column::State) == Datum::Text("disabled"@)
                &&& crate::model::value(updated, Column::StateReason)
                    == crate::laws::storing::optional_text(e.reason)
                &&& crate::model::value(updated, Column::SuspensionReason) == Datum::Null
                &&& crate::model::value(updated, Column::StateSince)
                    == Datum::Int(e.at as i64 as int)
                &&& crate::model::value(updated, Column::UpdatedAt)
                    == Datum::Int(e.at as i64 as int)
                &&& other is State || other is StateReason || other is SuspensionReason
                    || other is StateSince || other is UpdatedAt
                    || crate::model::value(updated, other) == crate::model::value(was, other)
            }
            &&& !selected ==> updated == was
        }),
{
    broadcast use {group_rows, group_filters};
}

/// What a [`TriggerSuspended`] event stores.
pub proof fn trigger_suspended_is_stored(
    e: TriggerSuspended,
    at: Moment,
    db: Database,
    was: Row,
    other: Column,
)
    ensures
        ({
            let s = e.writes(at).statements()[0];
            let updated = crate::laws::rows::updated_by(db, s, was);
            let selected = crate::model::value(was, Column::TriggerId)
                == Datum::Text(e.trigger_id@);
            &&& e.writes(at) is Writes
            &&& e.writes(at).statements().len() == 1
            &&& s is Update && s.table() == Table::Triggers
            &&& selected ==> {
                &&& crate::model::value(updated, Column::State) == Datum::Text("suspended"@)
                &&& crate::model::value(updated, Column::StateReason) == Datum::Null
                &&& crate::model::value(updated, Column::SuspensionReason) == Datum::Text(e.reason@)
                &&& crate::model::value(updated, Column::StateSince)
                    == Datum::Int(e.at as i64 as int)
                &&& crate::model::value(updated, Column::UpdatedAt)
                    == Datum::Int(e.at as i64 as int)
                &&& other is State || other is StateReason || other is SuspensionReason
                    || other is StateSince || other is UpdatedAt
                    || crate::model::value(updated, other) == crate::model::value(was, other)
            }
            &&& !selected ==> updated == was
        }),
{
    broadcast use {group_rows, group_filters};
}

/// What a [`TriggerResumed`] event stores.
pub proof fn trigger_resumed_is_stored(
    e: TriggerResumed,
    at: Moment,
    db: Database,
    was: Row,
    other: Column,
)
    ensures
        ({
            let s = e.writes(at).statements()[0];
            let updated = crate::laws::rows::updated_by(db, s, was);
            let selected = crate::model::value(was, Column::TriggerId)
                == Datum::Text(e.trigger_id@);
            &&& e.writes(at) is Writes
            &&& e.writes(at).statements().len() == 1
            &&& s is Update && s.table() == Table::Triggers
            &&& selected ==> {
                &&& crate::model::value(updated, Column::State) == Datum::Text("enabled"@)
                &&& crate::model::value(updated, Column::StateReason) == Datum::Null
                &&& crate::model::value(updated, Column::SuspensionReason) == Datum::Null
                &&& crate::model::value(updated, Column::StateSince) == Datum::Null
                &&& crate::model::value(updated, Column::UpdatedAt)
                    == Datum::Int(e.at as i64 as int)
                &&& other is State || other is StateReason || other is SuspensionReason
                    || other is StateSince || other is UpdatedAt
                    || crate::model::value(updated, other) == crate::model::value(was, other)
            }
            &&& !selected ==> updated == was
        }),
{
    broadcast use {group_rows, group_filters};
}

/// What a [`TriggerDeleted`] event stores.
pub proof fn trigger_deleted_is_stored(
    e: TriggerDeleted,
    at: Moment,
    db: Database,
    was: Row,
    other: Column,
)
    ensures
        ({
            let s = e.writes(at).statements()[0];
            &&& e.writes(at) is Writes
            &&& e.writes(at).statements().len() == 1
            &&& s is Delete && s.table() == Table::Triggers
            &&& crate::model::passes_all(db, was, s->Delete_filter)
                <==> crate::model::value(was, Column::TriggerId) == Datum::Text(e.trigger_id@)
        }),
{
    broadcast use {group_rows, group_filters};
}

/// What a [`RunTemplateCreated`] event stores.
pub proof fn run_template_created_is_stored(
    e: RunTemplateCreated,
    at: Moment,
    db: Database,
    was: Row,
    other: Column,
)
    ensures
        ({
            let s = e.writes(at).statements()[0];
            let new = crate::laws::rows::left_by(db, s, None);
            &&& e.writes(at) is Writes
            &&& e.writes(at).statements().len() == 1
            &&& s is Insert && s.table() == Table::RunTemplates
            &&& crate::model::value(new, Column::TemplateId) == Datum::Text(e.template_id@)
            &&& crate::model::value(new, Column::TenantId) == Datum::Text(e.project.tenant_id@)
            &&& crate::model::value(new, Column::WorkspaceId)
                == Datum::Text(e.project.workspace_id@)
            &&& crate::model::value(new, Column::ProjectId) == Datum::Text(e.project.project_id@)
            &&& crate::model::value(new, Column::Name) == Datum::Text(e.name@)
            &&& crate::model::value(new, Column::Description)
                == crate::laws::storing::optional_text(e.description)
            &&& crate::model::value(new, Column::DefaultMode) == Datum::Text(e.default_mode@)
            &&& crate::model::value(new, Column::SystemPrompt) == Datum::Text(e.system_prompt@)
            &&& crate::model::value(new, Column::InitialUserMessage)
                == crate::laws::storing::optional_text(e.initial_user_message)
            &&& crate::model::value(new, Column::PluginAllowlistJson)
                == crate::laws::storing::optional_list(e.plugin_allowlist)
            &&& crate::model::value(new, Column::ToolAllowlistJson)
                == crate::laws::storing::optional_list(e.tool_allowlist)
            &&& crate::model::value(new, Column::BudgetMaxTokens)
                == crate::laws::storing::optional_number(e.budget_max_tokens)
            &&& crate::model::value(new, Column::BudgetMaxWallClockMs)
                == crate::laws::storing::optional_number(e.budget_max_wall_clock_ms)
            &&& crate::model::value(new, Column::BudgetMaxIterations)
                == crate::laws::storing::optional_wide_number(e.budget_max_iterations)
            &&& crate::model::value(new, Column::BudgetExplorationBudgetShare)
                == crate::laws::storing::optional_float(e.budget_exploration_budget_share)
            &&& crate::model::value(new, Column::SandboxHint)
                == crate::laws::storing::optional_text(e.sandbox_hint)
            &&& crate::model::value(new, Column::RequiredFieldsJson)
                == Datum::Text(crate::json::strings_as_json(e.required_fields.deep_view()))
            &&& crate::model::value(new, Column::CreatedBy) == Datum::Text(e.created_by@)
            &&& crate::model::value(new, Column::CreatedAt)
                == Datum::Int(e.created_at as i64 as int)
            &&& crate::model::value(new, Column::UpdatedAt)
                == Datum::Int(e.created_at as i64 as int)
            &&& other is TemplateId || other is TenantId || other is WorkspaceId
                || other is ProjectId || other is Name || other is Description
                || other is DefaultMode || other is SystemPrompt || other is InitialUserMessage
                || other is PluginAllowlistJson || other is ToolAllowlistJson
                || other is BudgetMaxTokens || other is BudgetMaxWallClockMs
                || other is BudgetMaxIterations || other is BudgetExplorationBudgetShare
                || other is SandboxHint || other is RequiredFieldsJson || other is CreatedBy
                || other is CreatedAt || other is UpdatedAt
                || crate::model::value(new, other) == db.default_of(Table::RunTemplates, other)
            &&& s->Insert_conflict == ConflictView::Ignore(seq![Column::TemplateId])
        }),
{
    broadcast use {group_rows, group_filters};
}

/// What a [`RunTemplateDeleted`] event stores.
pub proof fn run_template_deleted_is_stored(
    e: RunTemplateDeleted,
    at: Moment,
    db: Database,
    was: Row,
    other: Column,
)
    ensures
        ({
            let s = e.writes(at).statements()[0];
            &&& e.writes(at) is Writes
            &&& e.writes(at).statements().len() == 1
            &&& s is Delete && s.table() == Table::RunTemplates
            &&& crate::model::passes_all(db, was, s->Delete_filter)
                <==> crate::model::value(was, Column::TemplateId) == Datum::Text(e.template_id@)
        }),
{
    broadcast use {group_rows, group_filters};
}

/// What a [`TriggerFired`] event stores.
pub proof fn trigger_fired_is_stored(
    e: TriggerFired,
    at: Moment,
    db: Database,
    was: Row,
    other: Column,
)
    ensures
        ({
            let s = e.writes(at).statements()[0];
            let new = crate::laws::rows::left_by(db, s, None);
            &&& s is Insert && s.table() == Table::TriggerFires
            &&& crate::model::value(new, Column::TriggerId) == Datum::Text(e.trigger_id@)
            &&& crate::model::value(new, Column::TenantId) == Datum::Text(e.project.tenant_id@)
            &&& crate::model::value(new, Column::WorkspaceId)
                == Datum::Text(e.project.workspace_id@)
            &&& crate::model::value(new, Column::ProjectId) == Datum::Text(e.project.project_id@)
            &&& crate::model::value(new, Column::SignalId) == Datum::Text(e.signal_id@)
            &&& crate::model::value(new, Column::Outcome) == Datum::Text("fired"@)
            &&& crate::model::value(new, Column::SignalType) == Datum::Text(e.signal_type@)
            &&& crate::model::value(new, Column::MetadataJson)
                == Datum::Text(
                    crate::json::object_as_json(
                        seq![("run_id"@, Some(e.run_id@))],
                        seq![("chain_depth"@, e.chain_depth as u64)],
                    ),
                )
            &&& crate::model::value(new, Column::AtMs) == Datum::Int(e.fired_at as i64 as int)
            &&& other is TriggerId || other is TenantId || other is WorkspaceId
                || other is ProjectId || other is SignalId || other is Outcome
                || other is SignalType || other is MetadataJson || other is AtMs
                || crate::model::value(new, other) == db.default_of(Table::TriggerFires, other)
            &&& s->Insert_conflict is Fail
            &&& e.writes(at) is Writes
            &&& e.writes(at).statements().len() == 1
        }),
{
    broadcast use {group_rows, group_filters};
}

/// What a [`TriggerSkipped`] event stores.
pub proof fn trigger_skipped_is_stored(
    e: TriggerSkipped,
    at: Moment,
    db: Database,
    was: Row,
    other: Column,
)
    ensures
        ({
            let s = e.writes(at).statements()[0];
            let new = crate::laws::rows::left_by(db, s, None);
            &&& s is Insert && s.table() == Table::TriggerFires
            &&& crate::model::value(new, Column::TriggerId) == Datum::Text(e.trigger_id@)
            &&& crate::model::value(new, Column::TenantId) == Datum::Text(e.project.tenant_id@)
            &&& crate::model::value(new, Column::WorkspaceId)
                == Datum::Text(e.project.workspace_id@)
            &&& crate::model::value(new, Column::ProjectId) == Datum::Text(e.project.project_id@)
            &&& crate::model::value(new, Column::SignalId) == Datum::Text(e.signal_id@)
            &&& crate::model::value(new, Column::Outcome) == Datum::Text("skipped"@)
            &&& crate::model::value(new, Column::SignalType) == Datum::Null
            &&& crate::model::value(new, Column::MetadataJson)
                == Datum::Text(
                    crate::json::object_as_json(
                        seq![("reason"@, Some(e.reason@)), ("field"@, e.field.deep_view())],
                        Seq::empty(),
                    ),
                )
            &&& crate::model::value(new, Column::AtMs) == Datum::Int(e.skipped_at as i64 as int)
            &&& other is TriggerId || other is TenantId || other is WorkspaceId
                || other is ProjectId || other is SignalId || other is Outcome
                || other is SignalType || other is MetadataJson || other is AtMs
                || crate::model::value(new, other) == db.default_of(Table::TriggerFires, other)
            &&& s->Insert_conflict is Fail
            &&& e.writes(at) is Writes
            &&& e.writes(at).statements().len() == 1
        }),
{
    broadcast use {group_rows, group_filters};
}

/// What a [`TriggerDenied`] event stores.
pub proof fn trigger_denied_is_stored(
    e: TriggerDenied,
    at: Moment,
    db: Database,
    was: Row,
    other: Column,
)
    ensures
        ({
            let s = e.writes(at).statements()[0];
            let new = crate::laws::rows::left_by(db, s, None);
            &&& s is Insert && s.table() == Table::TriggerFires
            &&& crate::model::value(new, Column::TriggerId) == Datum::Text(e.trigger_id@)
            &&& crate::model::value(new, Column::TenantId) == Datum::Text(e.project.tenant_id@)
            &&& crate::model::value(new, Column::WorkspaceId)
                == Datum::Text(e.project.workspace_id@)
            &&& crate::model::value(new, Column::ProjectId) == Datum::Text(e.project.project_id@)
            &&& crate::model::value(new, Column::SignalId) == Datum::Text(e.signal_id@)
            &&& crate::model::value(new, Column::Outcome) == Datum::Text("denied"@)
            &&& crate::model::value(new, Column::SignalType) == Datum::Null
            &&& crate::model::value(new, Column::MetadataJson)
                == Datum::Text(
                    crate::json::object_as_json(
                        seq![("decision_id"@, Some(e.decision_id@)), ("reason"@, Some(e.reason@))],
                        Seq::empty(),
                    ),
                )
            &&& crate::model::value(new, Column::AtMs) == Datum::Int(e.denied_at as i64 as int)
            &&& other is TriggerId || other is TenantId || other is WorkspaceId
                || other is ProjectId || other is SignalId || other is Outcome
                || other is SignalType || other is MetadataJson || other is AtMs
                || crate::model::value(new, other) == db.default_of(Table::TriggerFires, other)
            &&& s->Insert_conflict is Fail
            &&& e.writes(at) is Writes
            &&& e.writes(at).statements().len() == 1
        }),
{
    broadcast use {group_rows, group_filters};
}

/// What a [`TriggerRateLimited`] event stores.
pub proof fn trigger_rate_limited_is_stored(
    e: TriggerRateLimited,
    at: Moment,
    db: Database,
    was: Row,
    other: Column,
)
    ensures
        ({
            let s = e.writes(at).statements()[0];
            let new = crate::laws::rows::left_by(db, s, None);
            &&& s is Insert && s.table() == Table::TriggerFires
            &&& crate::model::value(new, Column::TriggerId) == Datum::Text(e.trigger_id@)
            &&& crate::model::value(new, Column::TenantId) == Datum::Text(e.project.tenant_id@)
            &&& crate::model::value(new, Column::WorkspaceId)
                == Datum::Text(e.project.workspace_id@)
            &&& crate::model::value(new, Column::ProjectId) == Datum::Text(e.project.project_id@)
            &&& crate::model::value(new, Column::SignalId) == Datum::Text(e.signal_id@)
            &&& crate::model::value(new, Column::Outcome) == Datum::Text("rate_limited"@)
            &&& crate::model::value(new, Column::SignalType) == Datum::Null
            &&& crate::model::value(new, Column::MetadataJson)
                == Datum::Text(
                    crate::json::object_as_json(
                        Seq::empty(),
                        seq![
                            ("bucket_remaining"@, e.bucket_remaining as u64),
                            ("bucket_capacity"@, e.bucket_capacity as u64),
                        ],
                    ),
                )
            &&& crate::model::value(new, Column::AtMs)
                == Datum::Int(e.rate_limited_at as i64 as int)
            &&& other is TriggerId || other is TenantId || other is WorkspaceId
                || other is ProjectId || other is SignalId || other is Outcome
                || other is SignalType || other is MetadataJson || other is AtMs
                || crate::model::value(new, other) == db.default_of(Table::TriggerFires, other)
            &&& s->Insert_conflict is Fail
            &&& e.writes(at) is Writes
            &&& e.writes(at).statements().len() == 1
        }),
{
    broadcast use {group_rows, group_filters};
}

/// What a [`TriggerPendingApproval`] event stores.
pub proof fn trigger_pending_approval_is_stored(
    e: TriggerPendingApproval,
    at: Moment,
    db: Database,
    was: Row,
    other: Column,
)
    ensures
        ({
            let s = e.writes(at).statements()[0];
            let new = crate::laws::rows::left_by(db, s, None);
            &&& s is Insert && s.table() == Table::TriggerFires
            &&& crate::model::value(new, Column::TriggerId) == Datum::Text(e.trigger_id@)
            &&& crate::model::value(new, Column::TenantId) == Datum::Text(e.project.tenant_id@)
            &&& crate::model::value(new, Column::WorkspaceId)
                == Datum::Text(e.project.workspace_id@)
            &&& crate::model::value(new, Column::ProjectId) == Datum::Text(e.project.project_id@)
            &&& crate::model::value(new, Column::SignalId) == Datum::Text(e.signal_id@)
            &&& crate::model::value(new, Column::Outcome) == Datum::Text("pending_approval"@)
            &&& crate::model::value(new, Column::SignalType) == Datum::Null
            &&& crate::model::value(new, Column::MetadataJson)
                == Datum::Text(
                    crate::json::object_as_json(
                        seq![("approval_id"@, Some(e.approval_id@))],
                        Seq::empty(),
                    ),
                )
            &&& crate::model::value(new, Column::AtMs) == Datum::Int(e.pending_at as i64 as int)
            &&& other is TriggerId || other is TenantId || other is WorkspaceId
                || other is ProjectId || other is SignalId || other is Outcome
                || other is SignalType || other is MetadataJson || other is AtMs
                || crate::model::value(new, other) == db.default_of(Table::TriggerFires, other)
            &&& s->Insert_conflict is Fail
            &&& e.writes(at) is Writes
            &&& e.writes(at).statements().len() == 1
        }),
{
    broadcast use {group_rows, group_filters};
}

} // verus!
