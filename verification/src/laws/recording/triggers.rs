//! What the records say of the stored rows: triggers.

use crate::domain::DomainNames;
use crate::error::ErrorView;
use crate::model::{Datum, Row};
use crate::read::StoredRow;
use crate::read::triggers::{RunTemplateRecord, RunTemplateRow, TriggerRecord, TriggerRow};
use crate::schema::Column;
use vstd::prelude::*;

verus! {

/// What the fields of a [`TriggerRecord`] say of the stored row.
pub proof fn the_record_of_a_trigger_row(
    row: TriggerRow,
    stored: Row,
    names: DomainNames,
    record: TriggerRecord,
)
    requires
        row.is_of(stored),
        row.holds(&names, &record),
    ensures
        crate::model::value(stored, Column::TriggerId) == Datum::Text(record.trigger_id@),
        crate::model::value(stored, Column::TenantId) == Datum::Text(record.project.tenant_id@),
        crate::model::value(stored, Column::WorkspaceId)
            == Datum::Text(record.project.workspace_id@),
        crate::model::value(stored, Column::ProjectId) == Datum::Text(record.project.project_id@),
        crate::model::value(stored, Column::Name) == Datum::Text(record.name@),
        crate::model::value(stored, Column::Description)
            == crate::laws::storing::optional_text(record.description),
        crate::model::value(stored, Column::SignalType) == Datum::Text(record.signal_type@),
        crate::model::value(stored, Column::PluginId)
            == crate::laws::storing::optional_text(record.plugin_id),
        crate::model::value(stored, Column::ConditionsJson) == Datum::Text(record.conditions_json@),
        crate::model::value(stored, Column::RunTemplateId) == Datum::Text(record.run_template_id@),
        crate::model::value(stored, Column::State) == Datum::Text(record.state.spec_name()),
        crate::model::value(stored, Column::StateReason)
            == crate::laws::storing::optional_text(record.state_reason),
        crate::model::value(stored, Column::SuspensionReason)
            == crate::laws::storing::optional_text(record.suspension_reason),
        match record.state_since {
            Some(n) => crate::laws::recording::is_at_least_zero(
                crate::model::value(stored, Column::StateSince),
                n as int,
            ),
            None => crate::model::value(stored, Column::StateSince) == Datum::Null,
        },
        crate::laws::recording::is_between(
            crate::model::value(stored, Column::MaxPerMinute),
            record.max_per_minute as int,
            u32::MAX as int,
        ),
        crate::laws::recording::is_between(
            crate::model::value(stored, Column::MaxBurst),
            record.max_burst as int,
            u32::MAX as int,
        ),
        crate::laws::recording::is_between(
            crate::model::value(stored, Column::MaxChainDepth),
            record.max_chain_depth as int,
            u8::MAX as int,
        ),
        crate::model::value(stored, Column::CreatedBy) == Datum::Text(record.created_by@),
        crate::laws::recording::is_at_least_zero(
            crate::model::value(stored, Column::CreatedAt),
            record.created_at as int,
        ),
        crate::laws::recording::is_at_least_zero(
            crate::model::value(stored, Column::UpdatedAt),
            record.updated_at as int,
        ),
{
    crate::vocabulary::trigger_state_kind_names_are_inverse(record.state, row.state@);
}

/// A [`TriggerRow`] says nothing of a stored row but what the columns that it asks for
/// hold.
pub proof fn the_columns_of_a_trigger_row(row: TriggerRow, stored: Row, other: Row)
    requires
        forall|i: int|
            0 <= i < TriggerRow::spec_columns().len()
                ==> crate::model::value(stored, #[trigger] TriggerRow::spec_columns()[i])
                    == crate::model::value(other, TriggerRow::spec_columns()[i]),
    ensures
        row.is_of(stored) == row.is_of(other),
{
    let columns = TriggerRow::spec_columns();
    assert(columns[0] == Column::TriggerId);
    assert(columns[1] == Column::TenantId);
    assert(columns[2] == Column::WorkspaceId);
    assert(columns[3] == Column::ProjectId);
    assert(columns[4] == Column::Name);
    assert(columns[5] == Column::Description);
    assert(columns[6] == Column::SignalType);
    assert(columns[7] == Column::PluginId);
    assert(columns[8] == Column::ConditionsJson);
    assert(columns[9] == Column::RunTemplateId);
    assert(columns[10] == Column::State);
    assert(columns[11] == Column::StateReason);
    assert(columns[12] == Column::SuspensionReason);
    assert(columns[13] == Column::StateSince);
    assert(columns[14] == Column::MaxPerMinute);
    assert(columns[15] == Column::MaxBurst);
    assert(columns[16] == Column::MaxChainDepth);
    assert(columns[17] == Column::CreatedBy);
    assert(columns[18] == Column::CreatedAt);
    assert(columns[19] == Column::UpdatedAt);
}

/// When a [`TriggerRow`] holds no record, and how it is refused.
pub proof fn the_faults_of_a_trigger_row(row: TriggerRow, names: DomainNames)
    ensures
        row.state@ != "enabled"@ && row.state@ != "disabled"@ && row.state@ != "suspended"@
            ==> row.fault(&names)
                == Some(
                    ErrorView::Internal(
                        "triggers.state: unknown value "@ + crate::json::quoted(row.state@),
                    ),
                ),
        !(row.state@ != "enabled"@ && row.state@ != "disabled"@ && row.state@ != "suspended"@)
            ==> row.fault(&names) is None,
{
}

/// What the fields of a [`RunTemplateRecord`] say of the stored row.
pub proof fn the_record_of_a_run_template_row(
    row: RunTemplateRow,
    stored: Row,
    names: DomainNames,
    record: RunTemplateRecord,
)
    requires
        row.is_of(stored),
        row.holds(&names, &record),
    ensures
        crate::model::value(stored, Column::TemplateId) == Datum::Text(record.template_id@),
        crate::model::value(stored, Column::TenantId) == Datum::Text(record.project.tenant_id@),
        crate::model::value(stored, Column::WorkspaceId)
            == Datum::Text(record.project.workspace_id@),
        crate::model::value(stored, Column::ProjectId) == Datum::Text(record.project.project_id@),
        crate::model::value(stored, Column::Name) == Datum::Text(record.name@),
        crate::model::value(stored, Column::Description)
            == crate::laws::storing::optional_text(record.description),
        crate::model::value(stored, Column::DefaultMode) == Datum::Text(record.default_mode@),
        crate::model::value(stored, Column::SystemPrompt) == Datum::Text(record.system_prompt@),
        crate::model::value(stored, Column::InitialUserMessage)
            == crate::laws::storing::optional_text(record.initial_user_message),
        crate::model::value(stored, Column::PluginAllowlistJson)
            == crate::laws::storing::optional_text(record.plugin_allowlist_json),
        crate::model::value(stored, Column::ToolAllowlistJson)
            == crate::laws::storing::optional_text(record.tool_allowlist_json),
        match record.budget_max_tokens {
            Some(n) => crate::laws::recording::is_at_least_zero(
                crate::model::value(stored, Column::BudgetMaxTokens),
                n as int,
            ),
            None => crate::model::value(stored, Column::BudgetMaxTokens) == Datum::Null,
        },
        match record.budget_max_wall_clock_ms {
            Some(n) => crate::laws::recording::is_at_least_zero(
                crate::model::value(stored, Column::BudgetMaxWallClockMs),
                n as int,
            ),
            None => crate::model::value(stored, Column::BudgetMaxWallClockMs) == Datum::Null,
        },
        match record.budget_max_iterations {
            Some(n) => crate::model::value(stored, Column::BudgetMaxIterations) is Int
                && (
                    0 <= crate::model::value(stored, Column::BudgetMaxIterations)->Int_0 <= u32::MAX
                        ==> n == crate::model::value(stored, Column::BudgetMaxIterations)->Int_0
                ),
            None => crate::model::value(stored, Column::BudgetMaxIterations) == Datum::Null,
        },
        record.budget_exploration_budget_share == row.budget_exploration_budget_share,
        crate::model::value(stored, Column::SandboxHint)
            == crate::laws::storing::optional_text(record.sandbox_hint),
        crate::model::value(stored, Column::RequiredFieldsJson)
            == Datum::Text(record.required_fields_json@),
        crate::model::value(stored, Column::CreatedBy) == Datum::Text(record.created_by@),
        crate::laws::recording::is_at_least_zero(
            crate::model::value(stored, Column::CreatedAt),
            record.created_at as int,
        ),
        crate::laws::recording::is_at_least_zero(
            crate::model::value(stored, Column::UpdatedAt),
            record.updated_at as int,
        ),
{
}

/// A [`RunTemplateRow`] says nothing of a stored row but what the columns that it asks for
/// hold.
pub proof fn the_columns_of_a_run_template_row(row: RunTemplateRow, stored: Row, other: Row)
    requires
        forall|i: int|
            0 <= i < RunTemplateRow::spec_columns().len()
                ==> crate::model::value(stored, #[trigger] RunTemplateRow::spec_columns()[i])
                    == crate::model::value(other, RunTemplateRow::spec_columns()[i]),
    ensures
        row.is_of(stored) == row.is_of(other),
{
    let columns = RunTemplateRow::spec_columns();
    assert(columns[0] == Column::TemplateId);
    assert(columns[1] == Column::TenantId);
    assert(columns[2] == Column::WorkspaceId);
    assert(columns[3] == Column::ProjectId);
    assert(columns[4] == Column::Name);
    assert(columns[5] == Column::Description);
    assert(columns[6] == Column::DefaultMode);
    assert(columns[7] == Column::SystemPrompt);
    assert(columns[8] == Column::InitialUserMessage);
    assert(columns[9] == Column::PluginAllowlistJson);
    assert(columns[10] == Column::ToolAllowlistJson);
    assert(columns[11] == Column::BudgetMaxTokens);
    assert(columns[12] == Column::BudgetMaxWallClockMs);
    assert(columns[13] == Column::BudgetMaxIterations);
    assert(columns[14] == Column::BudgetExplorationBudgetShare);
    assert(columns[15] == Column::SandboxHint);
    assert(columns[16] == Column::RequiredFieldsJson);
    assert(columns[17] == Column::CreatedBy);
    assert(columns[18] == Column::CreatedAt);
    assert(columns[19] == Column::UpdatedAt);
}

/// Every [`RunTemplateRow`] holds a record.
pub proof fn the_faults_of_a_run_template_row(row: RunTemplateRow, names: DomainNames)
    ensures
        row.fault(&names) is None,
{
}

} // verus!
