//! Triggers and what they start.

use crate::domain::{DomainNames, ProjectKey, ProjectView};
use crate::error::{ErrorView, StoreError};
use crate::json::quote;
use crate::model::Datum;
use crate::query::{Output, OutputView, Query, QueryView};
use crate::read::{StoredRow, to_clamp1, to_clamp4, to_floor8, to_low4, to_opt_floor8, to_opt_low4};
use crate::schema::{Column, Table};
use crate::statement::{Test, TestView, only};
use crate::value::{SqlValue, ValueView, text};
use crate::vocabulary::TriggerStateKind;
use vstd::prelude::*;
use vstd::string::*;

verus! {

/// A row of `triggers`.
#[derive(Debug, PartialEq, Eq)]
pub struct TriggerRow {
    pub trigger_id: String,
    pub tenant_id: String,
    pub workspace_id: String,
    pub project_id: String,
    pub name: String,
    pub description: Option<String>,
    pub signal_type: String,
    pub plugin_id: Option<String>,
    pub conditions_json: String,
    pub run_template_id: String,
    pub state: String,
    pub state_reason: Option<String>,
    pub suspension_reason: Option<String>,
    pub state_since: Option<i64>,
    pub max_per_minute: i64,
    pub max_burst: i64,
    pub max_chain_depth: i32,
    pub created_by: String,
    pub created_at: i64,
    pub updated_at: i64,
}

/// A trigger.
#[derive(Debug, PartialEq, Eq)]
pub struct TriggerRecord {
    pub trigger_id: String,
    pub project: ProjectKey,
    pub name: String,
    pub description: Option<String>,
    pub signal_type: String,
    pub plugin_id: Option<String>,
    pub conditions_json: String,
    pub run_template_id: String,
    pub state: TriggerStateKind,
    pub state_reason: Option<String>,
    pub suspension_reason: Option<String>,
    pub state_since: Option<u64>,
    pub max_per_minute: u32,
    pub max_burst: u32,
    pub max_chain_depth: u8,
    pub created_by: String,
    pub created_at: u64,
    pub updated_at: u64,
}

impl TriggerRow {
    /// The columns that the row is read from.
    pub open spec fn spec_columns() -> Seq<Column> {
        seq![
            Column::TriggerId,
            Column::TenantId,
            Column::WorkspaceId,
            Column::ProjectId,
            Column::Name,
            Column::Description,
            Column::SignalType,
            Column::PluginId,
            Column::ConditionsJson,
            Column::RunTemplateId,
            Column::State,
            Column::StateReason,
            Column::SuspensionReason,
            Column::StateSince,
            Column::MaxPerMinute,
            Column::MaxBurst,
            Column::MaxChainDepth,
            Column::CreatedBy,
            Column::CreatedAt,
            Column::UpdatedAt,
        ]
    }

    fn columns() -> (r: Vec<Column>)
        ensures
            r@ == Self::spec_columns(),
    {
        vec![
            Column::TriggerId,
            Column::TenantId,
            Column::WorkspaceId,
            Column::ProjectId,
            Column::Name,
            Column::Description,
            Column::SignalType,
            Column::PluginId,
            Column::ConditionsJson,
            Column::RunTemplateId,
            Column::State,
            Column::StateReason,
            Column::SuspensionReason,
            Column::StateSince,
            Column::MaxPerMinute,
            Column::MaxBurst,
            Column::MaxChainDepth,
            Column::CreatedBy,
            Column::CreatedAt,
            Column::UpdatedAt,
        ]
    }

    /// Whether this is what a stored row holds in those columns.
    pub open spec fn is_of(self, row: crate::model::Row) -> bool {
        &&& crate::model::value(row, Column::TriggerId) == Datum::Text(self.trigger_id@)
        &&& crate::model::value(row, Column::TenantId) == Datum::Text(self.tenant_id@)
        &&& crate::model::value(row, Column::WorkspaceId) == Datum::Text(self.workspace_id@)
        &&& crate::model::value(row, Column::ProjectId) == Datum::Text(self.project_id@)
        &&& crate::model::value(row, Column::Name) == Datum::Text(self.name@)
        &&& crate::model::value(row, Column::Description) == Datum::opt_text(self.description)
        &&& crate::model::value(row, Column::SignalType) == Datum::Text(self.signal_type@)
        &&& crate::model::value(row, Column::PluginId) == Datum::opt_text(self.plugin_id)
        &&& crate::model::value(row, Column::ConditionsJson) == Datum::Text(self.conditions_json@)
        &&& crate::model::value(row, Column::RunTemplateId) == Datum::Text(self.run_template_id@)
        &&& crate::model::value(row, Column::State) == Datum::Text(self.state@)
        &&& crate::model::value(row, Column::StateReason) == Datum::opt_text(self.state_reason)
        &&& crate::model::value(row, Column::SuspensionReason) == Datum::opt_text(
            self.suspension_reason,
        )
        &&& crate::model::value(row, Column::StateSince) == Datum::opt_int8(self.state_since)
        &&& crate::model::value(row, Column::MaxPerMinute) == Datum::Int(self.max_per_minute as int)
        &&& crate::model::value(row, Column::MaxBurst) == Datum::Int(self.max_burst as int)
        &&& crate::model::value(row, Column::MaxChainDepth) == Datum::Int(
            self.max_chain_depth as int,
        )
        &&& crate::model::value(row, Column::CreatedBy) == Datum::Text(self.created_by@)
        &&& crate::model::value(row, Column::CreatedAt) == Datum::Int(self.created_at as int)
        &&& crate::model::value(row, Column::UpdatedAt) == Datum::Int(self.updated_at as int)
    }

    /// The query of [`TriggerRow::get_trigger`].
    pub open spec fn spec_get_trigger(trigger_id: Seq<char>) -> QueryView {
        QueryView::on(Table::Triggers, OutputView::Rows(Self::spec_columns()))
            .equals(Column::TriggerId, ValueView::Text(trigger_id))
    }

    /// Finds a trigger.
    pub fn get_trigger(trigger_id: &str) -> (r: Query)
        ensures
            r@ == Self::spec_get_trigger(trigger_id@),
    {
        Query::on(Table::Triggers, Output::Rows(Self::columns()))
            .equals(Column::TriggerId, text(trigger_id))
    }

    /// The query of [`TriggerRow::list_triggers_by_project`].
    pub open spec fn spec_list_triggers_by_project(project: ProjectView) -> QueryView {
        QueryView::on(Table::Triggers, OutputView::Rows(Self::spec_columns()))
            .equals(Column::TenantId, ValueView::Text(project.tenant_id))
            .equals(Column::WorkspaceId, ValueView::Text(project.workspace_id))
            .equals(Column::ProjectId, ValueView::Text(project.project_id))
            .ascending(Column::TriggerId)
    }

    /// The triggers of a project, by id.
    pub fn list_triggers_by_project(project: &ProjectKey) -> (r: Query)
        ensures
            r@ == Self::spec_list_triggers_by_project(project@),
            r@.stays_in(Column::WorkspaceId, project@),
    {
        let query = Query::on(Table::Triggers, Output::Rows(Self::columns()))
            .equals(Column::TenantId, text(&project.tenant_id))
            .equals(Column::WorkspaceId, text(&project.workspace_id))
            .equals(Column::ProjectId, text(&project.project_id))
            .ascending(Column::TriggerId);
        proof {
            query@.tests_keep_to_a_project(0, Column::WorkspaceId, project@);
        }
        query
    }

    /// The query of [`TriggerRow::list_matching_enabled`].
    pub open spec fn spec_list_matching_enabled(
        project: ProjectView,
        signal_type: Seq<char>,
        plugin_id: Seq<char>,
    ) -> QueryView {
        QueryView::on(Table::Triggers, OutputView::Rows(Self::spec_columns()))
            .equals(Column::TenantId, ValueView::Text(project.tenant_id))
            .equals(Column::WorkspaceId, ValueView::Text(project.workspace_id))
            .equals(Column::ProjectId, ValueView::Text(project.project_id))
            .equals(Column::State, ValueView::Text("enabled"@))
            .equals(Column::SignalType, ValueView::Text(signal_type))
            .test(TestView::NullOr(Column::PluginId, ValueView::Text(plugin_id)))
            .ascending(Column::TriggerId)
    }

    /// The enabled triggers of a project for a type of signal that are for every plugin or for
    /// the given one, by id.
    pub fn list_matching_enabled(
        project: &ProjectKey,
        signal_type: &str,
        plugin_id: &str,
    ) -> (r: Query)
        ensures
            r@ == Self::spec_list_matching_enabled(project@, signal_type@, plugin_id@),
            r@.stays_in(Column::WorkspaceId, project@),
    {
        let query = Query::on(Table::Triggers, Output::Rows(Self::columns()))
            .equals(Column::TenantId, text(&project.tenant_id))
            .equals(Column::WorkspaceId, text(&project.workspace_id))
            .equals(Column::ProjectId, text(&project.project_id))
            .equals(Column::State, text("enabled"))
            .equals(Column::SignalType, text(signal_type))
            .test(Test::NullOr(Column::PluginId, text(plugin_id)))
            .ascending(Column::TriggerId);
        proof {
            query@.tests_keep_to_a_project(0, Column::WorkspaceId, project@);
        }
        query
    }
}

impl StoredRow for TriggerRow {
    type Record = TriggerRecord;

    open spec fn fault(&self, names: &DomainNames) -> Option<ErrorView> {
        if TriggerStateKind::spec_parse(self.state@) is None {
            Some(
                ErrorView::Internal(
                    "triggers.state: unknown value "@ + crate::json::quoted(self.state@),
                ),
            )
        } else {
            None
        }
    }

    open spec fn holds(&self, names: &DomainNames, record: &TriggerRecord) -> bool {
        &&& record.trigger_id == self.trigger_id
        &&& record.project == (ProjectKey {
            tenant_id: self.tenant_id,
            workspace_id: self.workspace_id,
            project_id: self.project_id,
        })
        &&& record.name == self.name
        &&& record.description == self.description
        &&& record.signal_type == self.signal_type
        &&& record.plugin_id == self.plugin_id
        &&& record.conditions_json == self.conditions_json
        &&& record.run_template_id == self.run_template_id
        &&& TriggerStateKind::spec_parse(self.state@) == Some(record.state)
        &&& record.state_reason == self.state_reason
        &&& record.suspension_reason == self.suspension_reason
        &&& record.state_since == crate::read::opt_floor8(self.state_since)
        &&& record.max_per_minute == crate::read::clamp4(self.max_per_minute)
        &&& record.max_burst == crate::read::clamp4(self.max_burst)
        &&& record.max_chain_depth == crate::read::clamp1(self.max_chain_depth)
        &&& record.created_by == self.created_by
        &&& record.created_at == crate::read::floor8(self.created_at)
        &&& record.updated_at == crate::read::floor8(self.updated_at)
    }

    fn into_record(self, names: &DomainNames) -> (r: Result<TriggerRecord, StoreError>) {
        let state = match TriggerStateKind::parse(&self.state) {
            Some(v) => v,
            None => {
                let mut message: String = "triggers.state: unknown value ".to_owned();
                message.append(&quote(&self.state));
                return Err(StoreError::Internal(message));
            },
        };
        Ok(
            TriggerRecord {
                trigger_id: self.trigger_id,
                project: ProjectKey {
                    tenant_id: self.tenant_id,
                    workspace_id: self.workspace_id,
                    project_id: self.project_id,
                },
                name: self.name,
                description: self.description,
                signal_type: self.signal_type,
                plugin_id: self.plugin_id,
                conditions_json: self.conditions_json,
                run_template_id: self.run_template_id,
                state,
                state_reason: self.state_reason,
                suspension_reason: self.suspension_reason,
                state_since: to_opt_floor8(self.state_since),
                max_per_minute: to_clamp4(self.max_per_minute),
                max_burst: to_clamp4(self.max_burst),
                max_chain_depth: to_clamp1(self.max_chain_depth),
                created_by: self.created_by,
                created_at: to_floor8(self.created_at),
                updated_at: to_floor8(self.updated_at),
            },
        )
    }
}

/// A row of `run_templates`. The share of the exploration budget is a single, by its bits.
#[derive(Debug, PartialEq, Eq)]
pub struct RunTemplateRow {
    pub template_id: String,
    pub tenant_id: String,
    pub workspace_id: String,
    pub project_id: String,
    pub name: String,
    pub description: Option<String>,
    pub default_mode: String,
    pub system_prompt: String,
    pub initial_user_message: Option<String>,
    pub plugin_allowlist_json: Option<String>,
    pub tool_allowlist_json: Option<String>,
    pub budget_max_tokens: Option<i64>,
    pub budget_max_wall_clock_ms: Option<i64>,
    pub budget_max_iterations: Option<i64>,
    pub budget_exploration_budget_share: Option<u32>,
    pub sandbox_hint: Option<String>,
    pub required_fields_json: String,
    pub created_by: String,
    pub created_at: i64,
    pub updated_at: i64,
}

/// What a trigger starts.
#[derive(Debug, PartialEq, Eq)]
pub struct RunTemplateRecord {
    pub template_id: String,
    pub project: ProjectKey,
    pub name: String,
    pub description: Option<String>,
    pub default_mode: String,
    pub system_prompt: String,
    pub initial_user_message: Option<String>,
    pub plugin_allowlist_json: Option<String>,
    pub tool_allowlist_json: Option<String>,
    pub budget_max_tokens: Option<u64>,
    pub budget_max_wall_clock_ms: Option<u64>,
    pub budget_max_iterations: Option<u32>,
    pub budget_exploration_budget_share: Option<u32>,
    pub sandbox_hint: Option<String>,
    pub required_fields_json: String,
    pub created_by: String,
    pub created_at: u64,
    pub updated_at: u64,
}

impl RunTemplateRow {
    /// The columns that the row is read from.
    pub open spec fn spec_columns() -> Seq<Column> {
        seq![
            Column::TemplateId,
            Column::TenantId,
            Column::WorkspaceId,
            Column::ProjectId,
            Column::Name,
            Column::Description,
            Column::DefaultMode,
            Column::SystemPrompt,
            Column::InitialUserMessage,
            Column::PluginAllowlistJson,
            Column::ToolAllowlistJson,
            Column::BudgetMaxTokens,
            Column::BudgetMaxWallClockMs,
            Column::BudgetMaxIterations,
            Column::BudgetExplorationBudgetShare,
            Column::SandboxHint,
            Column::RequiredFieldsJson,
            Column::CreatedBy,
            Column::CreatedAt,
            Column::UpdatedAt,
        ]
    }

    fn columns() -> (r: Vec<Column>)
        ensures
            r@ == Self::spec_columns(),
    {
        vec![
            Column::TemplateId,
            Column::TenantId,
            Column::WorkspaceId,
            Column::ProjectId,
            Column::Name,
            Column::Description,
            Column::DefaultMode,
            Column::SystemPrompt,
            Column::InitialUserMessage,
            Column::PluginAllowlistJson,
            Column::ToolAllowlistJson,
            Column::BudgetMaxTokens,
            Column::BudgetMaxWallClockMs,
            Column::BudgetMaxIterations,
            Column::BudgetExplorationBudgetShare,
            Column::SandboxHint,
            Column::RequiredFieldsJson,
            Column::CreatedBy,
            Column::CreatedAt,
            Column::UpdatedAt,
        ]
    }

    /// Whether this is what a stored row holds in those columns.
    pub open spec fn is_of(self, row: crate::model::Row) -> bool {
        &&& crate::model::value(row, Column::TemplateId) == Datum::Text(self.template_id@)
        &&& crate::model::value(row, Column::TenantId) == Datum::Text(self.tenant_id@)
        &&& crate::model::value(row, Column::WorkspaceId) == Datum::Text(self.workspace_id@)
        &&& crate::model::value(row, Column::ProjectId) == Datum::Text(self.project_id@)
        &&& crate::model::value(row, Column::Name) == Datum::Text(self.name@)
        &&& crate::model::value(row, Column::Description) == Datum::opt_text(self.description)
        &&& crate::model::value(row, Column::DefaultMode) == Datum::Text(self.default_mode@)
        &&& crate::model::value(row, Column::SystemPrompt) == Datum::Text(self.system_prompt@)
        &&& crate::model::value(row, Column::InitialUserMessage) == Datum::opt_text(
            self.initial_user_message,
        )
        &&& crate::model::value(row, Column::PluginAllowlistJson) == Datum::opt_text(
            self.plugin_allowlist_json,
        )
        &&& crate::model::value(row, Column::ToolAllowlistJson) == Datum::opt_text(
            self.tool_allowlist_json,
        )
        &&& crate::model::value(row, Column::BudgetMaxTokens) == Datum::opt_int8(
            self.budget_max_tokens,
        )
        &&& crate::model::value(row, Column::BudgetMaxWallClockMs) == Datum::opt_int8(
            self.budget_max_wall_clock_ms,
        )
        &&& crate::model::value(row, Column::BudgetMaxIterations) == Datum::opt_int8(
            self.budget_max_iterations,
        )
        &&& (crate::model::value(row, Column::BudgetExplorationBudgetShare) == Datum::Null) == (
            self.budget_exploration_budget_share is None
        )
        &&& crate::model::value(row, Column::SandboxHint) == Datum::opt_text(self.sandbox_hint)
        &&& crate::model::value(row, Column::RequiredFieldsJson) == Datum::Text(
            self.required_fields_json@,
        )
        &&& crate::model::value(row, Column::CreatedBy) == Datum::Text(self.created_by@)
        &&& crate::model::value(row, Column::CreatedAt) == Datum::Int(self.created_at as int)
        &&& crate::model::value(row, Column::UpdatedAt) == Datum::Int(self.updated_at as int)
    }

    /// The query of [`RunTemplateRow::get_template`].
    pub open spec fn spec_get_template(template_id: Seq<char>) -> QueryView {
        QueryView::on(Table::RunTemplates, OutputView::Rows(Self::spec_columns()))
            .equals(Column::TemplateId, ValueView::Text(template_id))
    }

    /// Finds a template.
    pub fn get_template(template_id: &str) -> (r: Query)
        ensures
            r@ == Self::spec_get_template(template_id@),
    {
        Query::on(Table::RunTemplates, Output::Rows(Self::columns()))
            .equals(Column::TemplateId, text(template_id))
    }

    /// The query of [`RunTemplateRow::list_templates_by_project`].
    pub open spec fn spec_list_templates_by_project(project: ProjectView) -> QueryView {
        QueryView::on(Table::RunTemplates, OutputView::Rows(Self::spec_columns()))
            .equals(Column::TenantId, ValueView::Text(project.tenant_id))
            .equals(Column::WorkspaceId, ValueView::Text(project.workspace_id))
            .equals(Column::ProjectId, ValueView::Text(project.project_id))
            .ascending(Column::TemplateId)
    }

    /// The templates of a project, by id.
    pub fn list_templates_by_project(project: &ProjectKey) -> (r: Query)
        ensures
            r@ == Self::spec_list_templates_by_project(project@),
            r@.stays_in(Column::WorkspaceId, project@),
    {
        let query = Query::on(Table::RunTemplates, Output::Rows(Self::columns()))
            .equals(Column::TenantId, text(&project.tenant_id))
            .equals(Column::WorkspaceId, text(&project.workspace_id))
            .equals(Column::ProjectId, text(&project.project_id))
            .ascending(Column::TemplateId);
        proof {
            query@.tests_keep_to_a_project(0, Column::WorkspaceId, project@);
        }
        query
    }
}

impl StoredRow for RunTemplateRow {
    type Record = RunTemplateRecord;

    open spec fn fault(&self, names: &DomainNames) -> Option<ErrorView> {
        None
    }

    open spec fn holds(&self, names: &DomainNames, record: &RunTemplateRecord) -> bool {
        &&& record.template_id == self.template_id
        &&& record.project == (ProjectKey {
            tenant_id: self.tenant_id,
            workspace_id: self.workspace_id,
            project_id: self.project_id,
        })
        &&& record.name == self.name
        &&& record.description == self.description
        &&& record.default_mode == self.default_mode
        &&& record.system_prompt == self.system_prompt
        &&& record.initial_user_message == self.initial_user_message
        &&& record.plugin_allowlist_json == self.plugin_allowlist_json
        &&& record.tool_allowlist_json == self.tool_allowlist_json
        &&& record.budget_max_tokens == crate::read::opt_floor8(self.budget_max_tokens)
        &&& record.budget_max_wall_clock_ms == crate::read::opt_floor8(
            self.budget_max_wall_clock_ms,
        )
        &&& record.budget_max_iterations == crate::read::opt_low4(self.budget_max_iterations)
        &&& record.budget_exploration_budget_share == self.budget_exploration_budget_share
        &&& record.sandbox_hint == self.sandbox_hint
        &&& record.required_fields_json == self.required_fields_json
        &&& record.created_by == self.created_by
        &&& record.created_at == crate::read::floor8(self.created_at)
        &&& record.updated_at == crate::read::floor8(self.updated_at)
    }

    fn into_record(self, names: &DomainNames) -> (r: Result<RunTemplateRecord, StoreError>) {
        Ok(
            RunTemplateRecord {
                template_id: self.template_id,
                project: ProjectKey {
                    tenant_id: self.tenant_id,
                    workspace_id: self.workspace_id,
                    project_id: self.project_id,
                },
                name: self.name,
                description: self.description,
                default_mode: self.default_mode,
                system_prompt: self.system_prompt,
                initial_user_message: self.initial_user_message,
                plugin_allowlist_json: self.plugin_allowlist_json,
                tool_allowlist_json: self.tool_allowlist_json,
                budget_max_tokens: to_opt_floor8(self.budget_max_tokens),
                budget_max_wall_clock_ms: to_opt_floor8(self.budget_max_wall_clock_ms),
                budget_max_iterations: to_opt_low4(self.budget_max_iterations),
                budget_exploration_budget_share: self.budget_exploration_budget_share,
                sandbox_hint: self.sandbox_hint,
                required_fields_json: self.required_fields_json,
                created_by: self.created_by,
                created_at: to_floor8(self.created_at),
                updated_at: to_floor8(self.updated_at),
            },
        )
    }
}

/// The query of [`triggers_referencing_template`].
pub open spec fn referring_query(template_id: Seq<char>) -> QueryView {
    QueryView::on(Table::Triggers, OutputView::Rows(seq![Column::TriggerId]))
        .equals(Column::RunTemplateId, ValueView::Text(template_id))
}

/// The triggers that start a template.
pub fn triggers_referencing_template(template_id: &str) -> (r: Query)
    ensures
        r@ == referring_query(template_id@),
{
    Query::on(Table::Triggers, Output::Rows(only(Column::TriggerId)))
        .equals(Column::RunTemplateId, text(template_id))
}

/// The query of [`has_fired`].
pub open spec fn fired_query(trigger_id: Seq<char>, signal_id: Seq<char>) -> QueryView {
    QueryView::on(Table::TriggerFires, OutputView::Exists)
        .equals(Column::TriggerId, ValueView::Text(trigger_id))
        .equals(Column::SignalId, ValueView::Text(signal_id))
        .equals(Column::Outcome, ValueView::Text("fired"@))
}

/// Whether a trigger fired on a signal.
pub fn has_fired(trigger_id: &str, signal_id: &str) -> (r: Query)
    ensures
        r@ == fired_query(trigger_id@, signal_id@),
{
    Query::on(Table::TriggerFires, Output::Exists)
        .equals(Column::TriggerId, text(trigger_id))
        .equals(Column::SignalId, text(signal_id))
        .equals(Column::Outcome, text("fired"))
}

/// The query of [`count_fires_since`].
pub open spec fn fires_query(trigger_id: Seq<char>, since_ms: u64) -> QueryView {
    QueryView::on(Table::TriggerFires, OutputView::Count)
        .equals(Column::TriggerId, ValueView::Text(trigger_id))
        .equals(Column::Outcome, ValueView::Text("fired"@))
        .test(TestView::Above(Column::AtMs, ValueView::Int8(since_ms as i64)))
}

/// How often a trigger fired after a time.
pub fn count_fires_since(trigger_id: &str, since_ms: u64) -> (r: Query)
    ensures
        r@ == fires_query(trigger_id@, since_ms),
{
    Query::on(Table::TriggerFires, Output::Count)
        .equals(Column::TriggerId, text(trigger_id))
        .equals(Column::Outcome, text("fired"))
        .test(Test::Above(Column::AtMs, SqlValue::Int8(since_ms as i64)))
}

/// The query of [`count_project_fires_since`].
pub open spec fn project_fires_query(project: ProjectView, since_ms: u64) -> QueryView {
    QueryView::on(Table::TriggerFires, OutputView::Count)
        .equals(Column::TenantId, ValueView::Text(project.tenant_id))
        .equals(Column::WorkspaceId, ValueView::Text(project.workspace_id))
        .equals(Column::ProjectId, ValueView::Text(project.project_id))
        .equals(Column::Outcome, ValueView::Text("fired"@))
        .test(TestView::Above(Column::AtMs, ValueView::Int8(since_ms as i64)))
}

/// How often the triggers of a project fired after a time.
pub fn count_project_fires_since(project: &ProjectKey, since_ms: u64) -> (r: Query)
    ensures
        r@ == project_fires_query(project@, since_ms),
        r@.stays_in(Column::WorkspaceId, project@),
{
    let query = Query::on(Table::TriggerFires, Output::Count)
        .equals(Column::TenantId, text(&project.tenant_id))
        .equals(Column::WorkspaceId, text(&project.workspace_id))
        .equals(Column::ProjectId, text(&project.project_id))
        .equals(Column::Outcome, text("fired"))
        .test(Test::Above(Column::AtMs, SqlValue::Int8(since_ms as i64)));
    proof {
        query@.tests_keep_to_a_project(0, Column::WorkspaceId, project@);
    }
    query
}

/// A count of fires, from what a query counted.
pub fn fire_count(count: i64) -> (r: u32)
    ensures
        r == crate::read::low4(count),
{
    to_low4(count)
}

} // verus!
