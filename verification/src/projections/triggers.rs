//! What trigger and run template events write.

use crate::domain::{ProjectKey, ProjectView};
use crate::error::StoreError;
use crate::json::{encode_object, encode_strings};
use crate::plan::{one, Moment, Planned};
use crate::schema::{Column, Table};
use crate::statement::{
    only, Cells, Changes, ChangesView, Filter, FilterView, RowView, Statement, StatementView,
};
use crate::value::{
    opt_bits8, opt_float8, opt_strings, opt_text, opt_wide8, text, SqlType, SqlValue, ValueView,
};
use vstd::prelude::*;

verus! {

/// A trigger was created.
#[derive(Debug, PartialEq, Eq)]
pub struct TriggerCreated {
    pub trigger_id: String,
    pub project: ProjectKey,
    pub name: String,
    pub description: Option<String>,
    pub signal_type: String,
    pub plugin_id: Option<String>,
    pub conditions_json: String,
    pub run_template_id: String,
    pub max_per_minute: u32,
    pub max_burst: u32,
    pub max_chain_depth: u8,
    pub created_by: String,
    pub created_at: u64,
}

impl TriggerCreated {
    /// What the event writes.
    pub open spec fn writes(self, at: Moment) -> Planned {
        Planned::Writes(
            seq![
                RowView::new()
                    .put(Column::TriggerId, ValueView::Text(self.trigger_id@))
                    .put(Column::TenantId, ValueView::Text(self.project.tenant_id@))
                    .put(Column::WorkspaceId, ValueView::Text(self.project.workspace_id@))
                    .put(Column::ProjectId, ValueView::Text(self.project.project_id@))
                    .put(Column::Name, ValueView::Text(self.name@))
                    .put(Column::Description, ValueView::opt_text(self.description))
                    .put(Column::SignalType, ValueView::Text(self.signal_type@))
                    .put(Column::PluginId, ValueView::opt_text(self.plugin_id))
                    .put(Column::ConditionsJson, ValueView::Text(self.conditions_json@))
                    .put(Column::RunTemplateId, ValueView::Text(self.run_template_id@))
                    .put(Column::State, ValueView::Text("enabled"@))
                    .put(Column::StateReason, ValueView::Null(SqlType::Text))
                    .put(Column::SuspensionReason, ValueView::Null(SqlType::Text))
                    .put(Column::StateSince, ValueView::Null(SqlType::Int8))
                    .put(Column::MaxPerMinute, ValueView::Int8(self.max_per_minute as i64))
                    .put(Column::MaxBurst, ValueView::Int8(self.max_burst as i64))
                    .put(Column::MaxChainDepth, ValueView::Int4(self.max_chain_depth as i32))
                    .put(Column::CreatedBy, ValueView::Text(self.created_by@))
                    .put(Column::CreatedAt, ValueView::Int8(self.created_at as i64))
                    .put(Column::UpdatedAt, ValueView::Int8(self.created_at as i64))
                    .insert_new(Table::Triggers, seq![Column::TriggerId]),
            ],
        )
    }

    /// Plans what the event writes.
    pub fn plan(&self, at: &Moment) -> (r: Result<Vec<Statement>, StoreError>)
        ensures
            Planned::of(r) == self.writes(*at),
    {
        let mut row = Cells::new();
        row.put(Column::TriggerId, text(&self.trigger_id));
        row.put(Column::TenantId, text(&self.project.tenant_id));
        row.put(Column::WorkspaceId, text(&self.project.workspace_id));
        row.put(Column::ProjectId, text(&self.project.project_id));
        row.put(Column::Name, text(&self.name));
        row.put(Column::Description, opt_text(&self.description));
        row.put(Column::SignalType, text(&self.signal_type));
        row.put(Column::PluginId, opt_text(&self.plugin_id));
        row.put(Column::ConditionsJson, text(&self.conditions_json));
        row.put(Column::RunTemplateId, text(&self.run_template_id));
        row.put(Column::State, text("enabled"));
        row.put(Column::StateReason, SqlValue::Null(SqlType::Text));
        row.put(Column::SuspensionReason, SqlValue::Null(SqlType::Text));
        row.put(Column::StateSince, SqlValue::Null(SqlType::Int8));
        row.put(Column::MaxPerMinute, SqlValue::Int8(self.max_per_minute as i64));
        row.put(Column::MaxBurst, SqlValue::Int8(self.max_burst as i64));
        row.put(Column::MaxChainDepth, SqlValue::Int4(self.max_chain_depth as i32));
        row.put(Column::CreatedBy, text(&self.created_by));
        row.put(Column::CreatedAt, SqlValue::Int8(self.created_at as i64));
        row.put(Column::UpdatedAt, SqlValue::Int8(self.created_at as i64));
        one(row.insert_new(Table::Triggers, only(Column::TriggerId)))
    }
}

/// A trigger was enabled.
#[derive(Debug, PartialEq, Eq)]
pub struct TriggerEnabled {
    pub trigger_id: String,
    pub at: u64,
}

impl TriggerEnabled {
    /// What the event writes.
    pub open spec fn writes(self, at: Moment) -> Planned {
        Planned::Writes(
            seq![
                ChangesView::new()
                    .put(Column::State, ValueView::Text("enabled"@))
                    .put(Column::StateReason, ValueView::Null(SqlType::Text))
                    .put(Column::SuspensionReason, ValueView::Null(SqlType::Text))
                    .put(Column::StateSince, ValueView::Null(SqlType::Int8))
                    .put(Column::UpdatedAt, ValueView::Int8(self.at as i64))
                    .update(
                        Table::Triggers,
                        FilterView::new()
                            .equals(Column::TriggerId, ValueView::Text(self.trigger_id@)),
                    ),
            ],
        )
    }

    /// Plans what the event writes.
    pub fn plan(&self, at: &Moment) -> (r: Result<Vec<Statement>, StoreError>)
        ensures
            Planned::of(r) == self.writes(*at),
    {
        let mut changes = Changes::new();
        changes.put(Column::State, text("enabled"));
        changes.put(Column::StateReason, SqlValue::Null(SqlType::Text));
        changes.put(Column::SuspensionReason, SqlValue::Null(SqlType::Text));
        changes.put(Column::StateSince, SqlValue::Null(SqlType::Int8));
        changes.put(Column::UpdatedAt, SqlValue::Int8(self.at as i64));
        let mut filter = Filter::new();
        filter.equals(Column::TriggerId, text(&self.trigger_id));
        one(changes.update(Table::Triggers, filter))
    }
}

/// A trigger was disabled.
#[derive(Debug, PartialEq, Eq)]
pub struct TriggerDisabled {
    pub trigger_id: String,
    pub reason: Option<String>,
    pub at: u64,
}

impl TriggerDisabled {
    /// What the event writes.
    pub open spec fn writes(self, at: Moment) -> Planned {
        Planned::Writes(
            seq![
                ChangesView::new()
                    .put(Column::State, ValueView::Text("disabled"@))
                    .put(Column::StateReason, ValueView::opt_text(self.reason))
                    .put(Column::SuspensionReason, ValueView::Null(SqlType::Text))
                    .put(Column::StateSince, ValueView::Int8(self.at as i64))
                    .put(Column::UpdatedAt, ValueView::Int8(self.at as i64))
                    .update(
                        Table::Triggers,
                        FilterView::new()
                            .equals(Column::TriggerId, ValueView::Text(self.trigger_id@)),
                    ),
            ],
        )
    }

    /// Plans what the event writes.
    pub fn plan(&self, at: &Moment) -> (r: Result<Vec<Statement>, StoreError>)
        ensures
            Planned::of(r) == self.writes(*at),
    {
        let mut changes = Changes::new();
        changes.put(Column::State, text("disabled"));
        changes.put(Column::StateReason, opt_text(&self.reason));
        changes.put(Column::SuspensionReason, SqlValue::Null(SqlType::Text));
        changes.put(Column::StateSince, SqlValue::Int8(self.at as i64));
        changes.put(Column::UpdatedAt, SqlValue::Int8(self.at as i64));
        let mut filter = Filter::new();
        filter.equals(Column::TriggerId, text(&self.trigger_id));
        one(changes.update(Table::Triggers, filter))
    }
}

/// A trigger was suspended.
#[derive(Debug, PartialEq, Eq)]
pub struct TriggerSuspended {
    pub reason: String,
    pub trigger_id: String,
    pub at: u64,
}

impl TriggerSuspended {
    /// What the event writes.
    pub open spec fn writes(self, at: Moment) -> Planned {
        Planned::Writes(
            seq![
                ChangesView::new()
                    .put(Column::State, ValueView::Text("suspended"@))
                    .put(Column::StateReason, ValueView::Null(SqlType::Text))
                    .put(Column::SuspensionReason, ValueView::Text(self.reason@))
                    .put(Column::StateSince, ValueView::Int8(self.at as i64))
                    .put(Column::UpdatedAt, ValueView::Int8(self.at as i64))
                    .update(
                        Table::Triggers,
                        FilterView::new()
                            .equals(Column::TriggerId, ValueView::Text(self.trigger_id@)),
                    ),
            ],
        )
    }

    /// Plans what the event writes.
    pub fn plan(&self, at: &Moment) -> (r: Result<Vec<Statement>, StoreError>)
        ensures
            Planned::of(r) == self.writes(*at),
    {
        let mut changes = Changes::new();
        changes.put(Column::State, text("suspended"));
        changes.put(Column::StateReason, SqlValue::Null(SqlType::Text));
        changes.put(Column::SuspensionReason, text(&self.reason));
        changes.put(Column::StateSince, SqlValue::Int8(self.at as i64));
        changes.put(Column::UpdatedAt, SqlValue::Int8(self.at as i64));
        let mut filter = Filter::new();
        filter.equals(Column::TriggerId, text(&self.trigger_id));
        one(changes.update(Table::Triggers, filter))
    }
}

/// A suspended trigger was resumed.
#[derive(Debug, PartialEq, Eq)]
pub struct TriggerResumed {
    pub trigger_id: String,
    pub at: u64,
}

impl TriggerResumed {
    /// What the event writes.
    pub open spec fn writes(self, at: Moment) -> Planned {
        Planned::Writes(
            seq![
                ChangesView::new()
                    .put(Column::State, ValueView::Text("enabled"@))
                    .put(Column::StateReason, ValueView::Null(SqlType::Text))
                    .put(Column::SuspensionReason, ValueView::Null(SqlType::Text))
                    .put(Column::StateSince, ValueView::Null(SqlType::Int8))
                    .put(Column::UpdatedAt, ValueView::Int8(self.at as i64))
                    .update(
                        Table::Triggers,
                        FilterView::new()
                            .equals(Column::TriggerId, ValueView::Text(self.trigger_id@)),
                    ),
            ],
        )
    }

    /// Plans what the event writes.
    pub fn plan(&self, at: &Moment) -> (r: Result<Vec<Statement>, StoreError>)
        ensures
            Planned::of(r) == self.writes(*at),
    {
        let mut changes = Changes::new();
        changes.put(Column::State, text("enabled"));
        changes.put(Column::StateReason, SqlValue::Null(SqlType::Text));
        changes.put(Column::SuspensionReason, SqlValue::Null(SqlType::Text));
        changes.put(Column::StateSince, SqlValue::Null(SqlType::Int8));
        changes.put(Column::UpdatedAt, SqlValue::Int8(self.at as i64));
        let mut filter = Filter::new();
        filter.equals(Column::TriggerId, text(&self.trigger_id));
        one(changes.update(Table::Triggers, filter))
    }
}

/// A trigger was deleted.
#[derive(Debug, PartialEq, Eq)]
pub struct TriggerDeleted {
    pub trigger_id: String,
}

impl TriggerDeleted {
    /// What the event writes.
    pub open spec fn writes(self, at: Moment) -> Planned {
        Planned::Writes(
            seq![
                FilterView::new()
                    .equals(Column::TriggerId, ValueView::Text(self.trigger_id@))
                    .delete(Table::Triggers),
            ],
        )
    }

    /// Plans what the event writes.
    pub fn plan(&self, at: &Moment) -> (r: Result<Vec<Statement>, StoreError>)
        ensures
            Planned::of(r) == self.writes(*at),
    {
        let mut filter = Filter::new();
        filter.equals(Column::TriggerId, text(&self.trigger_id));
        one(filter.delete(Table::Triggers))
    }
}

/// A run template was created.
#[derive(Debug, PartialEq, Eq)]
pub struct RunTemplateCreated {
    pub plugin_allowlist: Option<Vec<String>>,
    pub tool_allowlist: Option<Vec<String>>,
    pub required_fields: Vec<String>,
    pub default_mode: String,
    pub template_id: String,
    pub project: ProjectKey,
    pub name: String,
    pub description: Option<String>,
    pub system_prompt: String,
    pub initial_user_message: Option<String>,
    pub budget_max_tokens: Option<u64>,
    pub budget_max_wall_clock_ms: Option<u64>,
    pub budget_max_iterations: Option<u32>,
    /// By its IEEE 754 bits.
    pub budget_exploration_budget_share: Option<u64>,
    pub sandbox_hint: Option<String>,
    pub created_by: String,
    pub created_at: u64,
}

impl RunTemplateCreated {
    /// What the event writes.
    pub open spec fn writes(self, at: Moment) -> Planned {
        Planned::Writes(
            seq![
                RowView::new()
                    .put(Column::TemplateId, ValueView::Text(self.template_id@))
                    .put(Column::TenantId, ValueView::Text(self.project.tenant_id@))
                    .put(Column::WorkspaceId, ValueView::Text(self.project.workspace_id@))
                    .put(Column::ProjectId, ValueView::Text(self.project.project_id@))
                    .put(Column::Name, ValueView::Text(self.name@))
                    .put(Column::Description, ValueView::opt_text(self.description))
                    .put(Column::DefaultMode, ValueView::Text(self.default_mode@))
                    .put(Column::SystemPrompt, ValueView::Text(self.system_prompt@))
                    .put(Column::InitialUserMessage, ValueView::opt_text(self.initial_user_message))
                    .put(Column::PluginAllowlistJson, ValueView::opt_strings(self.plugin_allowlist))
                    .put(Column::ToolAllowlistJson, ValueView::opt_strings(self.tool_allowlist))
                    .put(Column::BudgetMaxTokens, ValueView::opt_bits8(self.budget_max_tokens))
                    .put(
                        Column::BudgetMaxWallClockMs,
                        ValueView::opt_bits8(self.budget_max_wall_clock_ms),
                    )
                    .put(
                        Column::BudgetMaxIterations,
                        ValueView::opt_wide8(self.budget_max_iterations),
                    )
                    .put(
                        Column::BudgetExplorationBudgetShare,
                        ValueView::opt_float8(self.budget_exploration_budget_share),
                    )
                    .put(Column::SandboxHint, ValueView::opt_text(self.sandbox_hint))
                    .put(
                        Column::RequiredFieldsJson,
                        ValueView::Text(
                            crate::json::strings_as_json(self.required_fields.deep_view()),
                        ),
                    )
                    .put(Column::CreatedBy, ValueView::Text(self.created_by@))
                    .put(Column::CreatedAt, ValueView::Int8(self.created_at as i64))
                    .put(Column::UpdatedAt, ValueView::Int8(self.created_at as i64))
                    .insert_new(Table::RunTemplates, seq![Column::TemplateId]),
            ],
        )
    }

    /// Plans what the event writes.
    pub fn plan(&self, at: &Moment) -> (r: Result<Vec<Statement>, StoreError>)
        ensures
            Planned::of(r) == self.writes(*at),
            r is Ok ==> crate::json::keeps(self.required_fields.deep_view()),
    {
        let plugin_allowlist: SqlValue = match opt_strings(&self.plugin_allowlist) {
            Ok(v) => v,
            Err(e) => return Err(e),
        };
        let tool_allowlist: SqlValue = match opt_strings(&self.tool_allowlist) {
            Ok(v) => v,
            Err(e) => return Err(e),
        };
        let required_fields: String = match encode_strings(&self.required_fields) {
            Ok(t) => t,
            Err(m) => return Err(StoreError::Serialization(m)),
        };
        let mut row = Cells::new();
        row.put(Column::TemplateId, text(&self.template_id));
        row.put(Column::TenantId, text(&self.project.tenant_id));
        row.put(Column::WorkspaceId, text(&self.project.workspace_id));
        row.put(Column::ProjectId, text(&self.project.project_id));
        row.put(Column::Name, text(&self.name));
        row.put(Column::Description, opt_text(&self.description));
        row.put(Column::DefaultMode, text(&self.default_mode));
        row.put(Column::SystemPrompt, text(&self.system_prompt));
        row.put(Column::InitialUserMessage, opt_text(&self.initial_user_message));
        row.put(Column::PluginAllowlistJson, plugin_allowlist);
        row.put(Column::ToolAllowlistJson, tool_allowlist);
        row.put(Column::BudgetMaxTokens, opt_bits8(self.budget_max_tokens));
        row.put(Column::BudgetMaxWallClockMs, opt_bits8(self.budget_max_wall_clock_ms));
        row.put(Column::BudgetMaxIterations, opt_wide8(self.budget_max_iterations));
        row.put(
            Column::BudgetExplorationBudgetShare,
            opt_float8(self.budget_exploration_budget_share),
        );
        row.put(Column::SandboxHint, opt_text(&self.sandbox_hint));
        row.put(Column::RequiredFieldsJson, SqlValue::Text(required_fields));
        row.put(Column::CreatedBy, text(&self.created_by));
        row.put(Column::CreatedAt, SqlValue::Int8(self.created_at as i64));
        row.put(Column::UpdatedAt, SqlValue::Int8(self.created_at as i64));
        one(row.insert_new(Table::RunTemplates, only(Column::TemplateId)))
    }
}

/// A run template was deleted.
#[derive(Debug, PartialEq, Eq)]
pub struct RunTemplateDeleted {
    pub template_id: String,
}

impl RunTemplateDeleted {
    /// What the event writes.
    pub open spec fn writes(self, at: Moment) -> Planned {
        Planned::Writes(
            seq![
                FilterView::new()
                    .equals(Column::TemplateId, ValueView::Text(self.template_id@))
                    .delete(Table::RunTemplates),
            ],
        )
    }

    /// Plans what the event writes.
    pub fn plan(&self, at: &Moment) -> (r: Result<Vec<Statement>, StoreError>)
        ensures
            Planned::of(r) == self.writes(*at),
    {
        let mut filter = Filter::new();
        filter.equals(Column::TemplateId, text(&self.template_id));
        one(filter.delete(Table::RunTemplates))
    }
}

/// The row of one attempt to fire a trigger.
pub open spec fn fire_row(
    trigger_id: Seq<char>,
    project: ProjectView,
    signal_id: Seq<char>,
    outcome: Seq<char>,
    signal_type: ValueView,
    metadata: Seq<char>,
    at_ms: u64,
) -> StatementView {
    RowView::new()
        .put(Column::TriggerId, ValueView::Text(trigger_id))
        .put(Column::TenantId, ValueView::Text(project.tenant_id))
        .put(Column::WorkspaceId, ValueView::Text(project.workspace_id))
        .put(Column::ProjectId, ValueView::Text(project.project_id))
        .put(Column::SignalId, ValueView::Text(signal_id))
        .put(Column::Outcome, ValueView::Text(outcome))
        .put(Column::SignalType, signal_type)
        .put(Column::MetadataJson, ValueView::Text(metadata))
        .put(Column::AtMs, ValueView::Int8(at_ms as i64))
        .insert(Table::TriggerFires)
}

fn fire(
    trigger_id: &str,
    project: &ProjectKey,
    signal_id: &str,
    outcome: &str,
    signal_type: SqlValue,
    metadata: String,
    at_ms: u64,
) -> (r: Statement)
    ensures
        r@ == fire_row(
            trigger_id@,
            project@,
            signal_id@,
            outcome@,
            signal_type@,
            metadata@,
            at_ms,
        ),
{
    let mut row = Cells::new();
    row.put(Column::TriggerId, text(trigger_id));
    row.put(Column::TenantId, text(&project.tenant_id));
    row.put(Column::WorkspaceId, text(&project.workspace_id));
    row.put(Column::ProjectId, text(&project.project_id));
    row.put(Column::SignalId, text(signal_id));
    row.put(Column::Outcome, text(outcome));
    row.put(Column::SignalType, signal_type);
    row.put(Column::MetadataJson, SqlValue::Text(metadata));
    row.put(Column::AtMs, SqlValue::Int8(at_ms as i64));
    row.insert(Table::TriggerFires)
}

/// A trigger fired.
#[derive(Debug, PartialEq, Eq)]
pub struct TriggerFired {
    pub trigger_id: String,
    pub project: ProjectKey,
    pub signal_id: String,
    pub signal_type: String,
    pub run_id: String,
    pub chain_depth: u32,
    pub fired_at: u64,
}

impl TriggerFired {
    /// The details that are stored with the attempt.
    pub open spec fn metadata(self) -> Seq<char> {
        crate::json::object_as_json(
            seq![("run_id"@, Some(self.run_id@))],
            seq![("chain_depth"@, self.chain_depth as u64)],
        )
    }

    /// What the event writes.
    pub open spec fn writes(self, at: Moment) -> Planned {
        Planned::Writes(
            seq![
                fire_row(
                    self.trigger_id@,
                    self.project@,
                    self.signal_id@,
                    "fired"@,
                    ValueView::Text(self.signal_type@),
                    self.metadata(),
                    self.fired_at,
                ),
            ],
        )
    }

    /// Plans what the event writes.
    pub fn plan(&self, at: &Moment) -> (r: Result<Vec<Statement>, StoreError>)
        ensures
            Planned::of(r) == self.writes(*at),
    {
        let mut texts: Vec<(String, Option<String>)> = Vec::new();
        texts.push(("run_id".to_owned(), Some(self.run_id.clone())));
        let mut numbers: Vec<(String, u64)> = Vec::new();
        numbers.push(("chain_depth".to_owned(), self.chain_depth as u64));
        assert(texts.deep_view() =~= seq![("run_id"@, Some(self.run_id@))]);
        assert(numbers.deep_view() =~= seq![("chain_depth"@, self.chain_depth as u64)]);
        let metadata: String = match encode_object(&texts, &numbers) {
            Ok(t) => t,
            Err(m) => return Err(StoreError::Serialization(m)),
        };
        one(
            fire(
                &self.trigger_id,
                &self.project,
                &self.signal_id,
                "fired",
                text(&self.signal_type),
                metadata,
                self.fired_at,
            ),
        )
    }
}

/// A trigger was skipped.
#[derive(Debug, PartialEq, Eq)]
pub struct TriggerSkipped {
    pub trigger_id: String,
    pub project: ProjectKey,
    pub signal_id: String,
    /// The name of the reason.
    pub reason: String,
    /// The required field that was missing, where that is the reason.
    pub field: Option<String>,
    pub skipped_at: u64,
}

impl TriggerSkipped {
    /// The details that are stored with the attempt.
    pub open spec fn metadata(self) -> Seq<char> {
        crate::json::object_as_json(
            seq![("reason"@, Some(self.reason@)), ("field"@, self.field.deep_view())],
            Seq::empty(),
        )
    }

    /// What the event writes.
    pub open spec fn writes(self, at: Moment) -> Planned {
        Planned::Writes(
            seq![
                fire_row(
                    self.trigger_id@,
                    self.project@,
                    self.signal_id@,
                    "skipped"@,
                    ValueView::Null(SqlType::Text),
                    self.metadata(),
                    self.skipped_at,
                ),
            ],
        )
    }

    /// Plans what the event writes.
    pub fn plan(&self, at: &Moment) -> (r: Result<Vec<Statement>, StoreError>)
        ensures
            Planned::of(r) == self.writes(*at),
    {
        let mut texts: Vec<(String, Option<String>)> = Vec::new();
        texts.push(("reason".to_owned(), Some(self.reason.clone())));
        texts.push(("field".to_owned(), self.field.clone()));
        let numbers: Vec<(String, u64)> = Vec::new();
        assert(
            texts.deep_view() =~= seq![
                ("reason"@, Some(self.reason@)),
                ("field"@, self.field.deep_view()),
            ]
        );
        assert(numbers.deep_view() =~= Seq::empty());
        let metadata: String = match encode_object(&texts, &numbers) {
            Ok(t) => t,
            Err(m) => return Err(StoreError::Serialization(m)),
        };
        one(
            fire(
                &self.trigger_id,
                &self.project,
                &self.signal_id,
                "skipped",
                SqlValue::Null(SqlType::Text),
                metadata,
                self.skipped_at,
            ),
        )
    }
}

/// A trigger was denied.
#[derive(Debug, PartialEq, Eq)]
pub struct TriggerDenied {
    pub trigger_id: String,
    pub project: ProjectKey,
    pub signal_id: String,
    pub decision_id: String,
    pub reason: String,
    pub denied_at: u64,
}

impl TriggerDenied {
    /// The details that are stored with the attempt.
    pub open spec fn metadata(self) -> Seq<char> {
        crate::json::object_as_json(
            seq![("decision_id"@, Some(self.decision_id@)), ("reason"@, Some(self.reason@))],
            Seq::empty(),
        )
    }

    /// What the event writes.
    pub open spec fn writes(self, at: Moment) -> Planned {
        Planned::Writes(
            seq![
                fire_row(
                    self.trigger_id@,
                    self.project@,
                    self.signal_id@,
                    "denied"@,
                    ValueView::Null(SqlType::Text),
                    self.metadata(),
                    self.denied_at,
                ),
            ],
        )
    }

    /// Plans what the event writes.
    pub fn plan(&self, at: &Moment) -> (r: Result<Vec<Statement>, StoreError>)
        ensures
            Planned::of(r) == self.writes(*at),
    {
        let mut texts: Vec<(String, Option<String>)> = Vec::new();
        texts.push(("decision_id".to_owned(), Some(self.decision_id.clone())));
        texts.push(("reason".to_owned(), Some(self.reason.clone())));
        let numbers: Vec<(String, u64)> = Vec::new();
        assert(
            texts.deep_view() =~= seq![
                ("decision_id"@, Some(self.decision_id@)),
                ("reason"@, Some(self.reason@)),
            ]
        );
        assert(numbers.deep_view() =~= Seq::empty());
        let metadata: String = match encode_object(&texts, &numbers) {
            Ok(t) => t,
            Err(m) => return Err(StoreError::Serialization(m)),
        };
        one(
            fire(
                &self.trigger_id,
                &self.project,
                &self.signal_id,
                "denied",
                SqlValue::Null(SqlType::Text),
                metadata,
                self.denied_at,
            ),
        )
    }
}

/// A trigger fired too often.
#[derive(Debug, PartialEq, Eq)]
pub struct TriggerRateLimited {
    pub trigger_id: String,
    pub project: ProjectKey,
    pub signal_id: String,
    pub bucket_remaining: u32,
    pub bucket_capacity: u32,
    pub rate_limited_at: u64,
}

impl TriggerRateLimited {
    /// The details that are stored with the attempt.
    pub open spec fn metadata(self) -> Seq<char> {
        crate::json::object_as_json(
            Seq::empty(),
            seq![
                ("bucket_remaining"@, self.bucket_remaining as u64),
                ("bucket_capacity"@, self.bucket_capacity as u64),
            ],
        )
    }

    /// What the event writes.
    pub open spec fn writes(self, at: Moment) -> Planned {
        Planned::Writes(
            seq![
                fire_row(
                    self.trigger_id@,
                    self.project@,
                    self.signal_id@,
                    "rate_limited"@,
                    ValueView::Null(SqlType::Text),
                    self.metadata(),
                    self.rate_limited_at,
                ),
            ],
        )
    }

    /// Plans what the event writes.
    pub fn plan(&self, at: &Moment) -> (r: Result<Vec<Statement>, StoreError>)
        ensures
            Planned::of(r) == self.writes(*at),
    {
        let texts: Vec<(String, Option<String>)> = Vec::new();
        let mut numbers: Vec<(String, u64)> = Vec::new();
        numbers.push(("bucket_remaining".to_owned(), self.bucket_remaining as u64));
        numbers.push(("bucket_capacity".to_owned(), self.bucket_capacity as u64));
        assert(texts.deep_view() =~= Seq::empty());
        assert(
            numbers.deep_view() =~= seq![
                ("bucket_remaining"@, self.bucket_remaining as u64),
                ("bucket_capacity"@, self.bucket_capacity as u64),
            ]
        );
        let metadata: String = match encode_object(&texts, &numbers) {
            Ok(t) => t,
            Err(m) => return Err(StoreError::Serialization(m)),
        };
        one(
            fire(
                &self.trigger_id,
                &self.project,
                &self.signal_id,
                "rate_limited",
                SqlValue::Null(SqlType::Text),
                metadata,
                self.rate_limited_at,
            ),
        )
    }
}

/// A trigger waits for an approval.
#[derive(Debug, PartialEq, Eq)]
pub struct TriggerPendingApproval {
    pub trigger_id: String,
    pub project: ProjectKey,
    pub signal_id: String,
    pub approval_id: String,
    pub pending_at: u64,
}

impl TriggerPendingApproval {
    /// The details that are stored with the attempt.
    pub open spec fn metadata(self) -> Seq<char> {
        crate::json::object_as_json(
            seq![("approval_id"@, Some(self.approval_id@))],
            Seq::empty(),
        )
    }

    /// What the event writes.
    pub open spec fn writes(self, at: Moment) -> Planned {
        Planned::Writes(
            seq![
                fire_row(
                    self.trigger_id@,
                    self.project@,
                    self.signal_id@,
                    "pending_approval"@,
                    ValueView::Null(SqlType::Text),
                    self.metadata(),
                    self.pending_at,
                ),
            ],
        )
    }

    /// Plans what the event writes.
    pub fn plan(&self, at: &Moment) -> (r: Result<Vec<Statement>, StoreError>)
        ensures
            Planned::of(r) == self.writes(*at),
    {
        let mut texts: Vec<(String, Option<String>)> = Vec::new();
        texts.push(("approval_id".to_owned(), Some(self.approval_id.clone())));
        let numbers: Vec<(String, u64)> = Vec::new();
        assert(texts.deep_view() =~= seq![("approval_id"@, Some(self.approval_id@))]);
        assert(numbers.deep_view() =~= Seq::empty());
        let metadata: String = match encode_object(&texts, &numbers) {
            Ok(t) => t,
            Err(m) => return Err(StoreError::Serialization(m)),
        };
        one(
            fire(
                &self.trigger_id,
                &self.project,
                &self.signal_id,
                "pending_approval",
                SqlValue::Null(SqlType::Text),
                metadata,
                self.pending_at,
            ),
        )
    }
}

} // verus!
