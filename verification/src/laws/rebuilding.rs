//! What a full rebuild empties, and what it leaves.

use crate::events::RuntimeEvent;
use crate::model::Database;
use crate::plan::{Found, Moment, Planned};
use crate::schema::{Column, Table};
use crate::statement::StatementView;
use vstd::prelude::*;

verus! {

/// The table whose rows are named in a column by the rows that refer to them;
/// none where the column names no other row, or rows of different tables.
pub open spec fn named_table(column: Column) -> Option<Table> {
    match column {
        Column::ParentSnapshotId | Column::WorkspaceSnapshotId => Some(Table::WorkspaceSnapshots),
        Column::RouteDecisionId => Some(Table::RouteDecisions),
        Column::RoutePolicyId => Some(Table::RoutePolicies),
        Column::ProviderBindingId
        | Column::SelectedProviderBindingId => Some(Table::ProviderBindings),
        Column::ProviderConnectionId => Some(Table::ProviderConnections),
        Column::BaselineId => Some(Table::EvalBaselines),
        Column::RubricId => Some(Table::EvalRubrics),
        Column::DatasetId => Some(Table::EvalDatasets),
        Column::TriggerId => Some(Table::Triggers),
        Column::RunTemplateId => Some(Table::RunTemplates),
        Column::SignalId => Some(Table::SignalIngestions),
        Column::ChannelId => Some(Table::Channels),
        Column::InvocationId => Some(Table::ToolInvocations),
        Column::CheckpointId => Some(Table::Checkpoints),
        Column::ApprovalId => Some(Table::Approvals),
        Column::ChildTaskId
        | Column::CurrentTaskId
        | Column::ParentTaskId
        | Column::TaskId => Some(Table::Tasks),
        Column::ChildRunId
        | Column::ParentRunId
        | Column::PlanRunId
        | Column::RevisionRunId
        | Column::RootRunId
        | Column::RunId => Some(Table::Runs),
        Column::ChildSessionId | Column::SessionId => Some(Table::Sessions),
        Column::PromptReleaseId => Some(Table::PromptReleases),
        Column::PromptVersionId => Some(Table::PromptVersions),
        Column::PromptAssetId => Some(Table::PromptAssets),
        Column::CredentialId => Some(Table::Credentials),
        Column::OperatorId => Some(Table::OperatorProfiles),
        Column::ProjectId => Some(Table::Projects),
        Column::SourceWorkspaceId
        | Column::TargetWorkspaceId
        | Column::WorkspaceId => Some(Table::Workspaces),
        Column::TenantId => Some(Table::Tenants),
        _ => None,
    }
}

/// Whether a table is emptied before another.
pub open spec fn is_emptied_before(table: Table, other: Table) -> bool {
    let tables = crate::rebuild::rebuilt_tables();
    tables.contains(table) && tables.contains(other) && tables.index_of(table) < tables.index_of(
        other,
    )
}

/// Whether the rows of a table come from events: only those of the agent roles,
/// of the workspace registry and of the lease history's cursors do not.
pub open spec fn is_projected(table: Table) -> bool {
    !(table is FfLeaseHistoryCursors || table is ProjectAgentRoles || table is WorkspaceRegistry)
}

/// Where a projected table stands among those that are emptied.
spec fn place(table: Table) -> int {
    match table {
        Table::ApprovalDelegations => 0,
        Table::ToolCallApprovals => 1,
        Table::ToolInvocationCacheHits => 2,
        Table::ToolInvocationProgress => 3,
        Table::ToolRecoveryPauses => 4,
        Table::CheckpointStrategies => 5,
        Table::SessionOutcomes => 6,
        Table::WorkspaceSnapshots => 7,
        Table::SubagentSpawns => 8,
        Table::PauseSchedules => 9,
        Table::PlanReviews => 10,
        Table::Outcomes => 11,
        Table::UserMessages => 12,
        Table::LlmCompletions => 13,
        Table::RecoveryAttempts => 14,
        Table::RecoveryCompletions => 15,
        Table::RecoverySummaries => 16,
        Table::DecisionRecords => 17,
        Table::DecisionCacheWarmups => 18,
        Table::RunCosts => 19,
        Table::RunCostAlerts => 20,
        Table::SessionCosts => 21,
        Table::ProjectCosts => 22,
        Table::WorkspaceCosts => 23,
        Table::ProviderCalls => 24,
        Table::RouteDecisions => 25,
        Table::RoutePolicies => 26,
        Table::ProviderBindings => 27,
        Table::ProviderConnections => 28,
        Table::ProviderBudgets => 29,
        Table::EvalRuns => 30,
        Table::EvalBaselines => 31,
        Table::EvalRubrics => 32,
        Table::EvalDatasetEntries => 33,
        Table::EvalDatasets => 34,
        Table::TriggerFires => 35,
        Table::Triggers => 36,
        Table::RunTemplates => 37,
        Table::SignalIngestions => 38,
        Table::ChannelMessages => 39,
        Table::Channels => 40,
        Table::ScheduledTasks => 41,
        Table::ExternalWorkers => 42,
        Table::ToolInvocations => 43,
        Table::MailboxMessages => 44,
        Table::Checkpoints => 45,
        Table::Approvals => 46,
        Table::Tasks => 47,
        Table::Runs => 48,
        Table::Sessions => 49,
        Table::PromptReleases => 50,
        Table::PromptVersions => 51,
        Table::PromptAssets => 52,
        Table::IngestJobs => 53,
        Table::KnowledgeIngestJobs => 54,
        Table::ProjectKnowledgeProviders => 55,
        Table::SoulPatches => 56,
        Table::GuardrailEvaluations => 57,
        Table::GuardrailPolicies => 58,
        Table::AuditLogEntries => 59,
        Table::CredentialRotations => 60,
        Table::Credentials => 61,
        Table::Notifications => 62,
        Table::NotificationPreferences => 63,
        Table::OperatorTenantRoles => 64,
        Table::WorkspaceMembers => 65,
        Table::OperatorProfiles => 66,
        Table::ResourceShares => 67,
        Table::RetentionPolicies => 68,
        Table::EntitlementOverrides => 69,
        Table::Licenses => 70,
        Table::TenantQuotaViolations => 71,
        Table::TenantQuotas => 72,
        Table::DefaultSettings => 73,
        Table::Projects => 74,
        Table::Workspaces => 75,
        Table::Tenants => 76,
        _ => -1,
    }
}

proof fn each_table_has_its_place(table: Table)
    requires
        is_projected(table),
    ensures
        0 <= place(table) < crate::rebuild::rebuilt_tables().len(),
        crate::rebuild::rebuilt_tables()[place(table)] == table,
{
}

proof fn each_place_has_its_table(i: int)
    requires
        0 <= i < crate::rebuild::rebuilt_tables().len(),
    ensures
        is_projected(crate::rebuild::rebuilt_tables()[i]),
        place(crate::rebuild::rebuilt_tables()[i]) == i,
{
}

/// A full rebuild empties the projected tables, each once, and no others.
pub proof fn the_projected_tables_are_rebuilt(table: Table)
    ensures
        crate::rebuild::rebuilt_tables().contains(table) <==> is_projected(table),
        crate::rebuild::rebuilt_tables().no_duplicates(),
{
    let tables = crate::rebuild::rebuilt_tables();
    if is_projected(table) {
        each_table_has_its_place(table);
    }
    if tables.contains(table) {
        let i = choose|i: int| 0 <= i < tables.len() && tables[i] == table;
        each_place_has_its_table(i);
    }
    assert forall|i: int, j: int| 0 <= i < tables.len() && 0 <= j < tables.len() && i
        != j implies tables[i] != tables[j] by {
        each_place_has_its_table(i);
        each_place_has_its_table(j);
    }
}

proof fn a_table_is_found_at_its_place(table: Table)
    requires
        is_projected(table),
    ensures
        crate::rebuild::rebuilt_tables().contains(table),
        crate::rebuild::rebuilt_tables().index_of(table) == place(table),
{
    let tables = crate::rebuild::rebuilt_tables();
    each_table_has_its_place(table);
    let i = tables.index_of(table);
    assert(0 <= i < tables.len() && tables[i] == table);
    each_place_has_its_table(i);
}

/// Whether a statement writes to a projected table, and names only rows of
/// tables that stand behind that one.
spec fn is_in_place(s: StatementView) -> bool {
    &&& is_projected(s.table())
    &&& match s {
        StatementView::Insert { table, cells, .. } => forall|j: int|
            #![trigger cells[j]]
            0 <= j < cells.len() ==> match named_table(cells[j].0) {
                Some(other) => other == table || place(table) < place(other),
                None => true,
            },
        _ => true,
    }
}

spec fn are_in_place(planned: Planned) -> bool {
    forall|i: int|
        #![trigger planned.statements()[i]]
        0 <= i < planned.statements().len() ==> is_in_place(planned.statements()[i])
}

/// A statement in place before others in place.
proof fn a_joined_plan_is_in_place(first: StatementView, rest: Planned, planned: Planned)
    requires
        is_in_place(first),
        are_in_place(rest),
        planned == Planned::Writes(seq![first] + rest.statements()),
    ensures
        are_in_place(planned),
{
    let all = planned.statements();
    assert forall|i: int| 0 <= i < all.len() implies is_in_place(#[trigger] all[i]) by {
        if i > 0 {
            assert(all[i] == rest.statements()[i - 1]);
        }
    }
}

proof fn a_provider_call_is_in_place(e: crate::projections::providers::ProviderCallCompleted)
    ensures
        is_in_place(e.call_row()),
{
}

proof fn session_created_is_in_place(e: crate::projections::sessions::SessionCreated, at: Moment)
    ensures
        are_in_place(e.writes(at)),
{
}

proof fn session_state_changed_is_in_place(
    e: crate::projections::sessions::SessionStateChanged,
    at: Moment,
)
    ensures
        are_in_place(e.writes(at)),
{
}

proof fn run_created_is_in_place(e: crate::projections::runs::RunCreated, at: Moment)
    ensures
        are_in_place(e.writes(at)),
{
}

proof fn run_state_changed_is_in_place(
    e: crate::projections::runs::RunStateChanged,
    at: Moment,
    found: Found,
)
    ensures
        are_in_place(e.writes(at, found)),
{
}

proof fn task_created_is_in_place(e: crate::projections::tasks::TaskCreated, at: Moment)
    ensures
        are_in_place(e.writes(at)),
{
}

proof fn task_lease_claimed_is_in_place(e: crate::projections::tasks::TaskLeaseClaimed, at: Moment)
    ensures
        are_in_place(e.writes(at)),
{
}

proof fn task_lease_heartbeated_is_in_place(
    e: crate::projections::tasks::TaskLeaseHeartbeated,
    at: Moment,
)
    ensures
        are_in_place(e.writes(at)),
{
}

proof fn task_state_changed_is_in_place(e: crate::projections::tasks::TaskStateChanged, at: Moment)
    ensures
        are_in_place(e.writes(at)),
{
}

proof fn approval_requested_is_in_place(
    e: crate::projections::approvals::ApprovalRequested,
    at: Moment,
)
    ensures
        are_in_place(e.writes(at)),
{
}

proof fn approval_resolved_is_in_place(
    e: crate::projections::approvals::ApprovalResolved,
    at: Moment,
)
    ensures
        are_in_place(e.writes(at)),
{
}

proof fn checkpoint_recorded_is_in_place(
    e: crate::projections::checkpoints::CheckpointRecorded,
    at: Moment,
)
    ensures
        are_in_place(e.writes(at)),
{
}

proof fn mailbox_message_appended_is_in_place(
    e: crate::projections::messages::MailboxMessageAppended,
    at: Moment,
)
    ensures
        are_in_place(e.writes(at)),
{
}

proof fn tool_invocation_started_is_in_place(
    e: crate::projections::tools::ToolInvocationStarted,
    at: Moment,
)
    ensures
        are_in_place(e.writes(at)),
{
}

proof fn tool_invocation_completed_is_in_place(
    e: crate::projections::tools::ToolInvocationCompleted,
    at: Moment,
)
    ensures
        are_in_place(e.writes(at)),
{
}

proof fn tool_invocation_failed_is_in_place(
    e: crate::projections::tools::ToolInvocationFailed,
    at: Moment,
)
    ensures
        are_in_place(e.writes(at)),
{
}

proof fn external_worker_registered_is_in_place(
    e: crate::projections::tasks::ExternalWorkerRegistered,
    at: Moment,
)
    ensures
        are_in_place(e.writes(at)),
{
}

proof fn external_worker_suspended_is_in_place(
    e: crate::projections::tasks::ExternalWorkerSuspended,
    at: Moment,
)
    ensures
        are_in_place(e.writes(at)),
{
}

proof fn external_worker_reactivated_is_in_place(
    e: crate::projections::tasks::ExternalWorkerReactivated,
    at: Moment,
)
    ensures
        are_in_place(e.writes(at)),
{
}

proof fn external_worker_reported_is_in_place(
    e: crate::projections::tasks::ExternalWorkerReported,
    at: Moment,
)
    ensures
        are_in_place(e.writes(at)),
{
}

proof fn soul_patch_proposed_is_in_place(
    e: crate::projections::knowledge::SoulPatchProposed,
    at: Moment,
)
    ensures
        are_in_place(e.writes(at)),
{
}

proof fn soul_patch_applied_is_in_place(
    e: crate::projections::knowledge::SoulPatchApplied,
    at: Moment,
)
    ensures
        are_in_place(e.writes(at)),
{
}

proof fn session_cost_updated_is_in_place(e: crate::projections::costs::SessionCostUpdated)
    ensures
        are_in_place(e.writes()),
{
}

proof fn run_cost_updated_is_in_place(e: crate::projections::costs::RunCostUpdated, at: Moment)
    ensures
        are_in_place(e.writes(at)),
{
}

proof fn subagent_spawned_is_in_place(e: crate::projections::runs::SubagentSpawned, at: Moment)
    ensures
        are_in_place(e.writes(at)),
{
}

proof fn recovery_attempted_is_in_place(
    e: crate::projections::recovery::RecoveryAttempted,
    at: Moment,
)
    ensures
        are_in_place(e.writes(at)),
{
}

proof fn recovery_completed_is_in_place(
    e: crate::projections::recovery::RecoveryCompleted,
    at: Moment,
)
    ensures
        are_in_place(e.writes(at)),
{
}

proof fn signal_ingested_is_in_place(e: crate::projections::messages::SignalIngested, at: Moment)
    ensures
        are_in_place(e.writes(at)),
{
}

proof fn user_message_appended_is_in_place(
    e: crate::projections::sessions::UserMessageAppended,
    at: Moment,
)
    ensures
        are_in_place(e.writes(at)),
{
}

proof fn ingest_job_started_is_in_place(
    e: crate::projections::knowledge::IngestJobStarted,
    at: Moment,
)
    ensures
        are_in_place(e.writes(at)),
{
}

proof fn ingest_job_completed_is_in_place(
    e: crate::projections::knowledge::IngestJobCompleted,
    at: Moment,
)
    ensures
        are_in_place(e.writes(at)),
{
}

proof fn eval_run_started_is_in_place(e: crate::projections::evals::EvalRunStarted, at: Moment)
    ensures
        are_in_place(e.writes(at)),
{
}

proof fn eval_run_completed_is_in_place(e: crate::projections::evals::EvalRunCompleted, at: Moment)
    ensures
        are_in_place(e.writes(at)),
{
}

proof fn eval_run_archived_is_in_place(e: crate::projections::evals::EvalRunArchived, at: Moment)
    ensures
        are_in_place(e.writes(at)),
{
}

proof fn eval_run_scored_is_in_place(e: crate::projections::evals::EvalRunScored, at: Moment)
    ensures
        are_in_place(e.writes(at)),
{
}

proof fn eval_rubric_scored_is_in_place(e: crate::projections::evals::EvalRubricScored, at: Moment)
    ensures
        are_in_place(e.writes(at)),
{
}

proof fn outcome_recorded_is_in_place(e: crate::projections::evals::OutcomeRecorded, at: Moment)
    ensures
        are_in_place(e.writes(at)),
{
}

proof fn scheduled_task_created_is_in_place(
    e: crate::projections::tasks::ScheduledTaskCreated,
    at: Moment,
)
    ensures
        are_in_place(e.writes(at)),
{
}

proof fn plan_proposed_is_in_place(e: crate::projections::approvals::PlanProposed, at: Moment)
    ensures
        are_in_place(e.writes(at)),
{
}

proof fn plan_approved_is_in_place(e: crate::projections::approvals::PlanApproved, at: Moment)
    ensures
        are_in_place(e.writes(at)),
{
}

proof fn plan_rejected_is_in_place(e: crate::projections::approvals::PlanRejected, at: Moment)
    ensures
        are_in_place(e.writes(at)),
{
}

proof fn plan_revision_requested_is_in_place(
    e: crate::projections::approvals::PlanRevisionRequested,
    at: Moment,
)
    ensures
        are_in_place(e.writes(at)),
{
}

proof fn provider_budget_set_is_in_place(
    e: crate::projections::providers::ProviderBudgetSet,
    at: Moment,
)
    ensures
        are_in_place(e.writes(at)),
{
}

proof fn channel_created_is_in_place(e: crate::projections::messages::ChannelCreated, at: Moment)
    ensures
        are_in_place(e.writes(at)),
{
}

proof fn channel_message_sent_is_in_place(
    e: crate::projections::messages::ChannelMessageSent,
    at: Moment,
)
    ensures
        are_in_place(e.writes(at)),
{
}

proof fn channel_message_consumed_is_in_place(
    e: crate::projections::messages::ChannelMessageConsumed,
    at: Moment,
)
    ensures
        are_in_place(e.writes(at)),
{
}

proof fn default_setting_set_is_in_place(
    e: crate::projections::tenants::DefaultSettingSet,
    at: Moment,
)
    ensures
        are_in_place(e.writes(at)),
{
}

proof fn default_setting_cleared_is_in_place(
    e: crate::projections::tenants::DefaultSettingCleared,
    at: Moment,
)
    ensures
        are_in_place(e.writes(at)),
{
}

proof fn license_activated_is_in_place(e: crate::projections::tenants::LicenseActivated, at: Moment)
    ensures
        are_in_place(e.writes(at)),
{
}

proof fn entitlement_override_set_is_in_place(
    e: crate::projections::tenants::EntitlementOverrideSet,
    at: Moment,
)
    ensures
        are_in_place(e.writes(at)),
{
}

proof fn notification_preference_set_is_in_place(
    e: crate::projections::messages::NotificationPreferenceSet,
    at: Moment,
)
    ensures
        are_in_place(e.writes(at)),
{
}

proof fn notification_sent_is_in_place(
    e: crate::projections::messages::NotificationSent,
    at: Moment,
)
    ensures
        are_in_place(e.writes(at)),
{
}

proof fn tenant_quota_set_is_in_place(e: crate::projections::tenants::TenantQuotaSet, at: Moment)
    ensures
        are_in_place(e.writes(at)),
{
}

proof fn tenant_quota_violated_is_in_place(
    e: crate::projections::tenants::TenantQuotaViolated,
    at: Moment,
)
    ensures
        are_in_place(e.writes(at)),
{
}

proof fn retention_policy_set_is_in_place(
    e: crate::projections::tenants::RetentionPolicySet,
    at: Moment,
)
    ensures
        are_in_place(e.writes(at)),
{
}

proof fn run_cost_alert_set_is_in_place(e: crate::projections::costs::RunCostAlertSet, at: Moment)
    ensures
        are_in_place(e.writes(at)),
{
}

proof fn run_cost_alert_triggered_is_in_place(
    e: crate::projections::costs::RunCostAlertTriggered,
    at: Moment,
)
    ensures
        are_in_place(e.writes(at)),
{
}

proof fn approval_delegated_is_in_place(
    e: crate::projections::approvals::ApprovalDelegated,
    at: Moment,
)
    ensures
        are_in_place(e.writes(at)),
{
}

proof fn audit_log_entry_recorded_is_in_place(
    e: crate::projections::policies::AuditLogEntryRecorded,
    at: Moment,
)
    ensures
        are_in_place(e.writes(at)),
{
}

proof fn checkpoint_strategy_set_is_in_place(
    e: crate::projections::checkpoints::CheckpointStrategySet,
    at: Moment,
)
    ensures
        are_in_place(e.writes(at)),
{
}

proof fn credential_stored_is_in_place(
    e: crate::projections::policies::CredentialStored,
    at: Moment,
)
    ensures
        are_in_place(e.writes(at)),
{
}

proof fn credential_revoked_is_in_place(
    e: crate::projections::policies::CredentialRevoked,
    at: Moment,
)
    ensures
        are_in_place(e.writes(at)),
{
}

proof fn credential_key_rotated_is_in_place(
    e: crate::projections::policies::CredentialKeyRotated,
    at: Moment,
)
    ensures
        are_in_place(e.writes(at)),
{
}

proof fn eval_dataset_created_is_in_place(
    e: crate::projections::evals::EvalDatasetCreated,
    at: Moment,
)
    ensures
        are_in_place(e.writes(at)),
{
}

proof fn eval_dataset_entry_added_is_in_place(
    e: crate::projections::evals::EvalDatasetEntryAdded,
    at: Moment,
)
    ensures
        are_in_place(e.writes(at)),
{
}

proof fn eval_rubric_created_is_in_place(
    e: crate::projections::evals::EvalRubricCreated,
    at: Moment,
)
    ensures
        are_in_place(e.writes(at)),
{
}

proof fn eval_baseline_set_is_in_place(e: crate::projections::evals::EvalBaselineSet, at: Moment)
    ensures
        are_in_place(e.writes(at)),
{
}

proof fn eval_baseline_locked_is_in_place(
    e: crate::projections::evals::EvalBaselineLocked,
    at: Moment,
)
    ensures
        are_in_place(e.writes(at)),
{
}

proof fn guardrail_policy_created_is_in_place(
    e: crate::projections::policies::GuardrailPolicyCreated,
    at: Moment,
)
    ensures
        are_in_place(e.writes(at)),
{
}

proof fn guardrail_policy_evaluated_is_in_place(
    e: crate::projections::policies::GuardrailPolicyEvaluated,
    at: Moment,
)
    ensures
        are_in_place(e.writes(at)),
{
}

proof fn operator_profile_created_is_in_place(
    e: crate::projections::tenants::OperatorProfileCreated,
    at: Moment,
)
    ensures
        are_in_place(e.writes(at)),
{
}

proof fn operator_profile_updated_is_in_place(
    e: crate::projections::tenants::OperatorProfileUpdated,
    at: Moment,
)
    ensures
        are_in_place(e.writes(at)),
{
}

proof fn tenant_role_granted_is_in_place(
    e: crate::projections::tenants::TenantRoleGranted,
    at: Moment,
)
    ensures
        are_in_place(e.writes(at)),
{
}

proof fn tenant_role_revoked_is_in_place(
    e: crate::projections::tenants::TenantRoleRevoked,
    at: Moment,
)
    ensures
        are_in_place(e.writes(at)),
{
}

proof fn provider_binding_created_is_in_place(
    e: crate::projections::providers::ProviderBindingCreated,
    at: Moment,
)
    ensures
        are_in_place(e.writes(at)),
{
}

proof fn provider_binding_state_changed_is_in_place(
    e: crate::projections::providers::ProviderBindingStateChanged,
    at: Moment,
)
    ensures
        are_in_place(e.writes(at)),
{
}

proof fn provider_budget_alert_triggered_is_in_place(
    e: crate::projections::providers::ProviderBudgetAlertTriggered,
    at: Moment,
)
    ensures
        are_in_place(e.writes(at)),
{
}

proof fn provider_budget_exceeded_is_in_place(
    e: crate::projections::providers::ProviderBudgetExceeded,
    at: Moment,
)
    ensures
        are_in_place(e.writes(at)),
{
}

proof fn provider_connection_registered_is_in_place(
    e: crate::projections::providers::ProviderConnectionRegistered,
    at: Moment,
)
    ensures
        are_in_place(e.writes(at)),
{
}

proof fn provider_connection_deleted_is_in_place(
    e: crate::projections::providers::ProviderConnectionDeleted,
    at: Moment,
)
    ensures
        are_in_place(e.writes(at)),
{
}

proof fn resource_shared_is_in_place(e: crate::projections::tenants::ResourceShared, at: Moment)
    ensures
        are_in_place(e.writes(at)),
{
}

proof fn resource_share_revoked_is_in_place(
    e: crate::projections::tenants::ResourceShareRevoked,
    at: Moment,
)
    ensures
        are_in_place(e.writes(at)),
{
}

proof fn route_policy_updated_is_in_place(
    e: crate::projections::providers::RoutePolicyUpdated,
    at: Moment,
)
    ensures
        are_in_place(e.writes(at)),
{
}

proof fn tool_invocation_cache_hit_is_in_place(
    e: crate::projections::tools::ToolInvocationCacheHit,
    at: Moment,
)
    ensures
        are_in_place(e.writes(at)),
{
}

proof fn tool_recovery_paused_is_in_place(
    e: crate::projections::tools::ToolRecoveryPaused,
    at: Moment,
)
    ensures
        are_in_place(e.writes(at)),
{
}

proof fn tool_invocation_progress_updated_is_in_place(
    e: crate::projections::tools::ToolInvocationProgressUpdated,
    at: Moment,
    found: Found,
)
    ensures
        are_in_place(e.writes(at, found)),
{
}

proof fn recovery_summary_emitted_is_in_place(
    e: crate::projections::recovery::RecoverySummaryEmitted,
    at: Moment,
)
    ensures
        are_in_place(e.writes(at)),
{
}

proof fn tool_call_proposed_is_in_place(
    e: crate::projections::approvals::ToolCallProposed,
    at: Moment,
)
    ensures
        are_in_place(e.writes(at)),
{
}

proof fn tool_call_amended_is_in_place(
    e: crate::projections::approvals::ToolCallAmended,
    at: Moment,
)
    ensures
        are_in_place(e.writes(at)),
{
}

proof fn tool_call_approved_is_in_place(
    e: crate::projections::approvals::ToolCallApproved,
    at: Moment,
)
    ensures
        are_in_place(e.writes(at)),
{
}

proof fn tool_call_rejected_is_in_place(
    e: crate::projections::approvals::ToolCallRejected,
    at: Moment,
)
    ensures
        are_in_place(e.writes(at)),
{
}

proof fn tenant_created_is_in_place(e: crate::projections::tenants::TenantCreated, at: Moment)
    ensures
        are_in_place(e.writes(at)),
{
}

proof fn tenant_updated_is_in_place(e: crate::projections::tenants::TenantUpdated, at: Moment)
    ensures
        are_in_place(e.writes(at)),
{
}

proof fn workspace_created_is_in_place(e: crate::projections::tenants::WorkspaceCreated, at: Moment)
    ensures
        are_in_place(e.writes(at)),
{
}

proof fn workspace_archived_is_in_place(
    e: crate::projections::tenants::WorkspaceArchived,
    at: Moment,
)
    ensures
        are_in_place(e.writes(at)),
{
}

proof fn project_created_is_in_place(e: crate::projections::tenants::ProjectCreated, at: Moment)
    ensures
        are_in_place(e.writes(at)),
{
}

proof fn route_policy_created_is_in_place(
    e: crate::projections::providers::RoutePolicyCreated,
    at: Moment,
)
    ensures
        are_in_place(e.writes(at)),
{
}

proof fn workspace_member_added_is_in_place(
    e: crate::projections::tenants::WorkspaceMemberAdded,
    at: Moment,
)
    ensures
        are_in_place(e.writes(at)),
{
}

proof fn workspace_member_removed_is_in_place(
    e: crate::projections::tenants::WorkspaceMemberRemoved,
    at: Moment,
)
    ensures
        are_in_place(e.writes(at)),
{
}

proof fn prompt_asset_created_is_in_place(
    e: crate::projections::prompts::PromptAssetCreated,
    at: Moment,
)
    ensures
        are_in_place(e.writes(at)),
{
}

proof fn prompt_version_created_is_in_place(
    e: crate::projections::prompts::PromptVersionCreated,
    at: Moment,
    found: Found,
)
    ensures
        are_in_place(e.writes(at, found)),
{
}

proof fn prompt_release_created_is_in_place(
    e: crate::projections::prompts::PromptReleaseCreated,
    at: Moment,
)
    ensures
        are_in_place(e.writes(at)),
{
}

proof fn prompt_release_transitioned_is_in_place(
    e: crate::projections::prompts::PromptReleaseTransitioned,
    at: Moment,
)
    ensures
        are_in_place(e.writes(at)),
{
}

proof fn route_decision_made_is_in_place(
    e: crate::projections::providers::RouteDecisionMade,
    at: Moment,
)
    ensures
        are_in_place(e.writes(at)),
{
}

proof fn provider_call_completed_is_in_place(
    e: crate::projections::providers::ProviderCallCompleted,
    found: Found,
)
    ensures
        are_in_place(e.writes(found)),
{
    a_provider_call_is_in_place(e);
    let nothing = Planned::Writes(Seq::empty());
    match e.paying_session(found) {
        None => {
            assert(seq![e.call_row()] =~= seq![e.call_row()] + nothing.statements());
            a_joined_plan_is_in_place(e.call_row(), nothing, e.writes(found));
        },
        Some(session_id) => {
            let rollups = e.cost(session_id).writes();
            session_cost_updated_is_in_place(e.cost(session_id));
            if rollups is Writes {
                a_joined_plan_is_in_place(e.call_row(), rollups, e.writes(found));
            }
        },
    }
}

proof fn trigger_created_is_in_place(e: crate::projections::triggers::TriggerCreated, at: Moment)
    ensures
        are_in_place(e.writes(at)),
{
}

proof fn trigger_enabled_is_in_place(e: crate::projections::triggers::TriggerEnabled, at: Moment)
    ensures
        are_in_place(e.writes(at)),
{
}

proof fn trigger_disabled_is_in_place(e: crate::projections::triggers::TriggerDisabled, at: Moment)
    ensures
        are_in_place(e.writes(at)),
{
}

proof fn trigger_suspended_is_in_place(
    e: crate::projections::triggers::TriggerSuspended,
    at: Moment,
)
    ensures
        are_in_place(e.writes(at)),
{
}

proof fn trigger_resumed_is_in_place(e: crate::projections::triggers::TriggerResumed, at: Moment)
    ensures
        are_in_place(e.writes(at)),
{
}

proof fn trigger_deleted_is_in_place(e: crate::projections::triggers::TriggerDeleted, at: Moment)
    ensures
        are_in_place(e.writes(at)),
{
}

proof fn run_template_created_is_in_place(
    e: crate::projections::triggers::RunTemplateCreated,
    at: Moment,
)
    ensures
        are_in_place(e.writes(at)),
{
}

proof fn run_template_deleted_is_in_place(
    e: crate::projections::triggers::RunTemplateDeleted,
    at: Moment,
)
    ensures
        are_in_place(e.writes(at)),
{
}

proof fn trigger_fired_is_in_place(e: crate::projections::triggers::TriggerFired, at: Moment)
    ensures
        are_in_place(e.writes(at)),
{
}

proof fn trigger_skipped_is_in_place(e: crate::projections::triggers::TriggerSkipped, at: Moment)
    ensures
        are_in_place(e.writes(at)),
{
}

proof fn trigger_denied_is_in_place(e: crate::projections::triggers::TriggerDenied, at: Moment)
    ensures
        are_in_place(e.writes(at)),
{
}

proof fn trigger_rate_limited_is_in_place(
    e: crate::projections::triggers::TriggerRateLimited,
    at: Moment,
)
    ensures
        are_in_place(e.writes(at)),
{
}

proof fn trigger_pending_approval_is_in_place(
    e: crate::projections::triggers::TriggerPendingApproval,
    at: Moment,
)
    ensures
        are_in_place(e.writes(at)),
{
}

proof fn session_attempt_started_is_in_place(
    e: crate::projections::sessions::SessionAttemptStarted,
    at: Moment,
)
    ensures
        are_in_place(e.writes(at)),
{
}

proof fn checkpoint_persisted_is_in_place(
    e: crate::projections::checkpoints::CheckpointPersisted,
    at: Moment,
)
    ensures
        are_in_place(e.writes(at)),
{
}

proof fn workspace_snapshot_created_is_in_place(
    e: crate::projections::checkpoints::WorkspaceSnapshotCreated,
    at: Moment,
)
    ensures
        are_in_place(e.writes(at)),
{
}

proof fn workspace_snapshot_reaped_is_in_place(
    e: crate::projections::checkpoints::WorkspaceSnapshotReaped,
    at: Moment,
)
    ensures
        are_in_place(e.writes(at)),
{
}

proof fn session_outcome_emitted_is_in_place(
    e: crate::projections::sessions::SessionOutcomeEmitted,
    at: Moment,
)
    ensures
        are_in_place(e.writes(at)),
{
}

proof fn decision_recorded_is_in_place(
    e: crate::projections::recovery::DecisionRecorded,
    at: Moment,
)
    ensures
        are_in_place(e.writes(at)),
{
}

proof fn run_completion_annotated_is_in_place(
    e: crate::projections::runs::RunCompletionAnnotated,
    at: Moment,
)
    ensures
        are_in_place(e.writes(at)),
{
}

proof fn terminal_recovery_attempted_is_in_place(
    e: crate::projections::runs::TerminalRecoveryAttempted,
    at: Moment,
)
    ensures
        are_in_place(e.writes(at)),
{
}

proof fn decision_cache_warmup_is_in_place(
    e: crate::projections::recovery::DecisionCacheWarmup,
    at: Moment,
)
    ensures
        are_in_place(e.writes(at)),
{
}

proof fn llm_completion_recorded_is_in_place(
    e: crate::projections::sessions::LlmCompletionRecorded,
    at: Moment,
)
    ensures
        are_in_place(e.writes(at)),
{
}

proof fn knowledge_provider_configured_is_in_place(
    e: crate::projections::knowledge::KnowledgeProviderConfigured,
    at: Moment,
)
    ensures
        are_in_place(e.writes(at)),
{
}

proof fn knowledge_provider_unavailable_is_in_place(
    e: crate::projections::knowledge::KnowledgeProviderUnavailable,
    at: Moment,
)
    ensures
        are_in_place(e.writes(at)),
{
}

proof fn knowledge_provider_capability_changed_is_in_place(
    e: crate::projections::knowledge::KnowledgeProviderCapabilityChanged,
    at: Moment,
)
    ensures
        are_in_place(e.writes(at)),
{
}

proof fn knowledge_ingest_submitted_is_in_place(
    e: crate::projections::knowledge::KnowledgeIngestSubmitted,
    at: Moment,
)
    ensures
        are_in_place(e.writes(at)),
{
}

proof fn knowledge_ingest_rejected_is_in_place(
    e: crate::projections::knowledge::KnowledgeIngestRejected,
    at: Moment,
)
    ensures
        are_in_place(e.writes(at)),
{
}

proof fn knowledge_ingest_status_updated_is_in_place(
    e: crate::projections::knowledge::KnowledgeIngestStatusUpdated,
    at: Moment,
)
    ensures
        are_in_place(e.writes(at)),
{
}

proof fn every_plan_is_in_place(event: RuntimeEvent, at: Moment, found: Found)
    ensures
        are_in_place(event.writes(at, found)),
{
    match event {
        RuntimeEvent::SessionCreated(e) => session_created_is_in_place(e, at),
        RuntimeEvent::SessionStateChanged(e) => session_state_changed_is_in_place(e, at),
        RuntimeEvent::RunCreated(e) => run_created_is_in_place(e, at),
        RuntimeEvent::RunStateChanged(e) => run_state_changed_is_in_place(e, at, found),
        RuntimeEvent::TaskCreated(e) => task_created_is_in_place(e, at),
        RuntimeEvent::TaskLeaseClaimed(e) => task_lease_claimed_is_in_place(e, at),
        RuntimeEvent::TaskLeaseHeartbeated(e) => task_lease_heartbeated_is_in_place(e, at),
        RuntimeEvent::TaskStateChanged(e) => task_state_changed_is_in_place(e, at),
        RuntimeEvent::ApprovalRequested(e) => approval_requested_is_in_place(e, at),
        RuntimeEvent::ApprovalResolved(e) => approval_resolved_is_in_place(e, at),
        RuntimeEvent::CheckpointRecorded(e) => checkpoint_recorded_is_in_place(e, at),
        RuntimeEvent::MailboxMessageAppended(e) => mailbox_message_appended_is_in_place(e, at),
        RuntimeEvent::ToolInvocationStarted(e) => tool_invocation_started_is_in_place(e, at),
        RuntimeEvent::ToolInvocationCompleted(e) => tool_invocation_completed_is_in_place(e, at),
        RuntimeEvent::ToolInvocationFailed(e) => tool_invocation_failed_is_in_place(e, at),
        RuntimeEvent::ExternalWorkerRegistered(e) => external_worker_registered_is_in_place(e, at),
        RuntimeEvent::ExternalWorkerSuspended(e) => external_worker_suspended_is_in_place(e, at),
        RuntimeEvent::ExternalWorkerReactivated(e) => {
            external_worker_reactivated_is_in_place(e, at);
        },
        RuntimeEvent::ExternalWorkerReported(e) => external_worker_reported_is_in_place(e, at),
        RuntimeEvent::SoulPatchProposed(e) => soul_patch_proposed_is_in_place(e, at),
        RuntimeEvent::SoulPatchApplied(e) => soul_patch_applied_is_in_place(e, at),
        RuntimeEvent::SessionCostUpdated(e) => session_cost_updated_is_in_place(e),
        RuntimeEvent::RunCostUpdated(e) => run_cost_updated_is_in_place(e, at),
        RuntimeEvent::SubagentSpawned(e) => subagent_spawned_is_in_place(e, at),
        RuntimeEvent::RecoveryAttempted(e) => recovery_attempted_is_in_place(e, at),
        RuntimeEvent::RecoveryCompleted(e) => recovery_completed_is_in_place(e, at),
        RuntimeEvent::SignalIngested(e) => signal_ingested_is_in_place(e, at),
        RuntimeEvent::UserMessageAppended(e) => user_message_appended_is_in_place(e, at),
        RuntimeEvent::IngestJobStarted(e) => ingest_job_started_is_in_place(e, at),
        RuntimeEvent::IngestJobCompleted(e) => ingest_job_completed_is_in_place(e, at),
        RuntimeEvent::EvalRunStarted(e) => eval_run_started_is_in_place(e, at),
        RuntimeEvent::EvalRunCompleted(e) => eval_run_completed_is_in_place(e, at),
        RuntimeEvent::EvalRunArchived(e) => eval_run_archived_is_in_place(e, at),
        RuntimeEvent::EvalRunScored(e) => eval_run_scored_is_in_place(e, at),
        RuntimeEvent::EvalRubricScored(e) => eval_rubric_scored_is_in_place(e, at),
        RuntimeEvent::OutcomeRecorded(e) => outcome_recorded_is_in_place(e, at),
        RuntimeEvent::ScheduledTaskCreated(e) => scheduled_task_created_is_in_place(e, at),
        RuntimeEvent::PlanProposed(e) => plan_proposed_is_in_place(e, at),
        RuntimeEvent::PlanApproved(e) => plan_approved_is_in_place(e, at),
        RuntimeEvent::PlanRejected(e) => plan_rejected_is_in_place(e, at),
        RuntimeEvent::PlanRevisionRequested(e) => plan_revision_requested_is_in_place(e, at),
        RuntimeEvent::ProviderBudgetSet(e) => provider_budget_set_is_in_place(e, at),
        RuntimeEvent::ChannelCreated(e) => channel_created_is_in_place(e, at),
        RuntimeEvent::ChannelMessageSent(e) => channel_message_sent_is_in_place(e, at),
        RuntimeEvent::ChannelMessageConsumed(e) => channel_message_consumed_is_in_place(e, at),
        RuntimeEvent::DefaultSettingSet(e) => default_setting_set_is_in_place(e, at),
        RuntimeEvent::DefaultSettingCleared(e) => default_setting_cleared_is_in_place(e, at),
        RuntimeEvent::LicenseActivated(e) => license_activated_is_in_place(e, at),
        RuntimeEvent::EntitlementOverrideSet(e) => entitlement_override_set_is_in_place(e, at),
        RuntimeEvent::NotificationPreferenceSet(e) => {
            notification_preference_set_is_in_place(e, at);
        },
        RuntimeEvent::NotificationSent(e) => notification_sent_is_in_place(e, at),
        RuntimeEvent::TenantQuotaSet(e) => tenant_quota_set_is_in_place(e, at),
        RuntimeEvent::TenantQuotaViolated(e) => tenant_quota_violated_is_in_place(e, at),
        RuntimeEvent::RetentionPolicySet(e) => retention_policy_set_is_in_place(e, at),
        RuntimeEvent::RunCostAlertSet(e) => run_cost_alert_set_is_in_place(e, at),
        RuntimeEvent::RunCostAlertTriggered(e) => run_cost_alert_triggered_is_in_place(e, at),
        RuntimeEvent::ApprovalDelegated(e) => approval_delegated_is_in_place(e, at),
        RuntimeEvent::AuditLogEntryRecorded(e) => audit_log_entry_recorded_is_in_place(e, at),
        RuntimeEvent::CheckpointStrategySet(e) => checkpoint_strategy_set_is_in_place(e, at),
        RuntimeEvent::CredentialStored(e) => credential_stored_is_in_place(e, at),
        RuntimeEvent::CredentialRevoked(e) => credential_revoked_is_in_place(e, at),
        RuntimeEvent::CredentialKeyRotated(e) => credential_key_rotated_is_in_place(e, at),
        RuntimeEvent::EvalDatasetCreated(e) => eval_dataset_created_is_in_place(e, at),
        RuntimeEvent::EvalDatasetEntryAdded(e) => eval_dataset_entry_added_is_in_place(e, at),
        RuntimeEvent::EvalRubricCreated(e) => eval_rubric_created_is_in_place(e, at),
        RuntimeEvent::EvalBaselineSet(e) => eval_baseline_set_is_in_place(e, at),
        RuntimeEvent::EvalBaselineLocked(e) => eval_baseline_locked_is_in_place(e, at),
        RuntimeEvent::GuardrailPolicyCreated(e) => guardrail_policy_created_is_in_place(e, at),
        RuntimeEvent::GuardrailPolicyEvaluated(e) => guardrail_policy_evaluated_is_in_place(e, at),
        RuntimeEvent::OperatorProfileCreated(e) => operator_profile_created_is_in_place(e, at),
        RuntimeEvent::OperatorProfileUpdated(e) => operator_profile_updated_is_in_place(e, at),
        RuntimeEvent::TenantRoleGranted(e) => tenant_role_granted_is_in_place(e, at),
        RuntimeEvent::TenantRoleRevoked(e) => tenant_role_revoked_is_in_place(e, at),
        RuntimeEvent::ProviderBindingCreated(e) => provider_binding_created_is_in_place(e, at),
        RuntimeEvent::ProviderBindingStateChanged(e) => {
            provider_binding_state_changed_is_in_place(e, at);
        },
        RuntimeEvent::ProviderBudgetAlertTriggered(e) => {
            provider_budget_alert_triggered_is_in_place(e, at);
        },
        RuntimeEvent::ProviderBudgetExceeded(e) => provider_budget_exceeded_is_in_place(e, at),
        RuntimeEvent::ProviderConnectionRegistered(e) => {
            provider_connection_registered_is_in_place(e, at);
        },
        RuntimeEvent::ProviderConnectionDeleted(e) => {
            provider_connection_deleted_is_in_place(e, at);
        },
        RuntimeEvent::ResourceShared(e) => resource_shared_is_in_place(e, at),
        RuntimeEvent::ResourceShareRevoked(e) => resource_share_revoked_is_in_place(e, at),
        RuntimeEvent::RoutePolicyUpdated(e) => route_policy_updated_is_in_place(e, at),
        RuntimeEvent::ToolInvocationCacheHit(e) => tool_invocation_cache_hit_is_in_place(e, at),
        RuntimeEvent::ToolRecoveryPaused(e) => tool_recovery_paused_is_in_place(e, at),
        RuntimeEvent::ToolInvocationProgressUpdated(e) => {
            tool_invocation_progress_updated_is_in_place(e, at, found);
        },
        RuntimeEvent::RecoverySummaryEmitted(e) => recovery_summary_emitted_is_in_place(e, at),
        RuntimeEvent::ToolCallProposed(e) => tool_call_proposed_is_in_place(e, at),
        RuntimeEvent::ToolCallAmended(e) => tool_call_amended_is_in_place(e, at),
        RuntimeEvent::ToolCallApproved(e) => tool_call_approved_is_in_place(e, at),
        RuntimeEvent::ToolCallRejected(e) => tool_call_rejected_is_in_place(e, at),
        RuntimeEvent::TenantCreated(e) => tenant_created_is_in_place(e, at),
        RuntimeEvent::TenantUpdated(e) => tenant_updated_is_in_place(e, at),
        RuntimeEvent::WorkspaceCreated(e) => workspace_created_is_in_place(e, at),
        RuntimeEvent::WorkspaceArchived(e) => workspace_archived_is_in_place(e, at),
        RuntimeEvent::ProjectCreated(e) => project_created_is_in_place(e, at),
        RuntimeEvent::RoutePolicyCreated(e) => route_policy_created_is_in_place(e, at),
        RuntimeEvent::WorkspaceMemberAdded(e) => workspace_member_added_is_in_place(e, at),
        RuntimeEvent::WorkspaceMemberRemoved(e) => workspace_member_removed_is_in_place(e, at),
        RuntimeEvent::PromptAssetCreated(e) => prompt_asset_created_is_in_place(e, at),
        RuntimeEvent::PromptVersionCreated(e) => prompt_version_created_is_in_place(e, at, found),
        RuntimeEvent::PromptReleaseCreated(e) => prompt_release_created_is_in_place(e, at),
        RuntimeEvent::PromptReleaseTransitioned(e) => {
            prompt_release_transitioned_is_in_place(e, at);
        },
        RuntimeEvent::RouteDecisionMade(e) => route_decision_made_is_in_place(e, at),
        RuntimeEvent::ProviderCallCompleted(e) => provider_call_completed_is_in_place(e, found),
        RuntimeEvent::TriggerCreated(e) => trigger_created_is_in_place(e, at),
        RuntimeEvent::TriggerEnabled(e) => trigger_enabled_is_in_place(e, at),
        RuntimeEvent::TriggerDisabled(e) => trigger_disabled_is_in_place(e, at),
        RuntimeEvent::TriggerSuspended(e) => trigger_suspended_is_in_place(e, at),
        RuntimeEvent::TriggerResumed(e) => trigger_resumed_is_in_place(e, at),
        RuntimeEvent::TriggerDeleted(e) => trigger_deleted_is_in_place(e, at),
        RuntimeEvent::RunTemplateCreated(e) => run_template_created_is_in_place(e, at),
        RuntimeEvent::RunTemplateDeleted(e) => run_template_deleted_is_in_place(e, at),
        RuntimeEvent::TriggerFired(e) => trigger_fired_is_in_place(e, at),
        RuntimeEvent::TriggerSkipped(e) => trigger_skipped_is_in_place(e, at),
        RuntimeEvent::TriggerDenied(e) => trigger_denied_is_in_place(e, at),
        RuntimeEvent::TriggerRateLimited(e) => trigger_rate_limited_is_in_place(e, at),
        RuntimeEvent::TriggerPendingApproval(e) => trigger_pending_approval_is_in_place(e, at),
        RuntimeEvent::SessionAttemptStarted(e) => session_attempt_started_is_in_place(e, at),
        RuntimeEvent::CheckpointPersisted(e) => checkpoint_persisted_is_in_place(e, at),
        RuntimeEvent::WorkspaceSnapshotCreated(e) => workspace_snapshot_created_is_in_place(e, at),
        RuntimeEvent::WorkspaceSnapshotReaped(e) => workspace_snapshot_reaped_is_in_place(e, at),
        RuntimeEvent::SessionOutcomeEmitted(e) => session_outcome_emitted_is_in_place(e, at),
        RuntimeEvent::DecisionRecorded(e) => decision_recorded_is_in_place(e, at),
        RuntimeEvent::RunCompletionAnnotated(e) => run_completion_annotated_is_in_place(e, at),
        RuntimeEvent::TerminalRecoveryAttempted(e) => {
            terminal_recovery_attempted_is_in_place(e, at);
        },
        RuntimeEvent::DecisionCacheWarmup(e) => decision_cache_warmup_is_in_place(e, at),
        RuntimeEvent::LlmCompletionRecorded(e) => llm_completion_recorded_is_in_place(e, at),
        RuntimeEvent::KnowledgeProviderConfigured(e) => {
            knowledge_provider_configured_is_in_place(e, at);
        },
        RuntimeEvent::KnowledgeProviderUnavailable(e) => {
            knowledge_provider_unavailable_is_in_place(e, at);
        },
        RuntimeEvent::KnowledgeProviderCapabilityChanged(e) => {
            knowledge_provider_capability_changed_is_in_place(e, at);
        },
        RuntimeEvent::KnowledgeIngestSubmitted(e) => knowledge_ingest_submitted_is_in_place(e, at),
        RuntimeEvent::KnowledgeIngestRejected(e) => knowledge_ingest_rejected_is_in_place(e, at),
        RuntimeEvent::KnowledgeIngestStatusUpdated(e) => {
            knowledge_ingest_status_updated_is_in_place(e, at);
        },
        _ => {},
    }
}

/// Every table that an event writes to is emptied by a full rebuild.
pub proof fn every_projected_table_is_rebuilt(
    event: RuntimeEvent,
    at: Moment,
    found: Found,
    i: int,
)
    requires
        0 <= i < event.writes(at, found).statements().len(),
    ensures
        crate::rebuild::rebuilt_tables().contains(event.writes(at, found).statements()[i].table()),
{
    every_plan_is_in_place(event, at, found);
    the_projected_tables_are_rebuilt(event.writes(at, found).statements()[i].table());
}

/// A table is emptied before the tables whose rows its own rows name, so that
/// no delete leaves a row that names one which is gone.
pub proof fn a_row_is_deleted_before_those_it_names(
    event: RuntimeEvent,
    at: Moment,
    found: Found,
    i: int,
    j: int,
)
    requires
        0 <= i < event.writes(at, found).statements().len(),
        event.writes(at, found).statements()[i] is Insert,
        0 <= j < event.writes(at, found).statements()[i]->Insert_cells.len(),
    ensures
        ({
            let insert = event.writes(at, found).statements()[i];
            match named_table(insert->Insert_cells[j].0) {
                Some(other) => other == insert.table() || is_emptied_before(insert.table(), other),
                None => true,
            }
        }),
{
    every_plan_is_in_place(event, at, found);
    let insert = event.writes(at, found).statements()[i];
    assert(is_in_place(insert));
    let cell = insert->Insert_cells[j];
    if let Some(other) = named_table(cell.0) {
        a_table_is_found_at_its_place(insert.table());
        a_table_is_found_at_its_place(other);
    }
}

proof fn statements_leave_the_other_tables(
    db: Database,
    statements: Seq<StatementView>,
    table: Table,
)
    requires
        forall|i: int|
            0 <= i < statements.len() ==> (#[trigger] statements[i]).table() != table,
    ensures
        crate::model::after_all(db, statements).rows(table) == db.rows(table),
    decreases statements.len(),
{
    if statements.len() > 0 {
        let front = statements.drop_last();
        assert forall|i: int| 0 <= i < front.len() implies (#[trigger] front[i]).table()
            != table by {
            assert(front[i] == statements[i]);
        }
        statements_leave_the_other_tables(db, front, table);
        assert(statements[statements.len() - 1].table() != table);
    }
}

/// No event changes a table that a full rebuild leaves as it is.
pub proof fn an_event_leaves_the_other_tables(
    db: Database,
    event: RuntimeEvent,
    at: Moment,
    found: Found,
    table: Table,
)
    requires
        !crate::rebuild::rebuilt_tables().contains(table),
    ensures
        crate::model::after_all(db, event.writes(at, found).statements()).rows(table) == db.rows(
            table,
        ),
{
    let statements = event.writes(at, found).statements();
    assert forall|i: int| 0 <= i < statements.len() implies (#[trigger] statements[i]).table()
        != table by {
        every_projected_table_is_rebuilt(event, at, found, i);
    }
    statements_leave_the_other_tables(db, statements, table);
}

/// After the deletes of a full rebuild no row is left in a table that an event
/// writes to, whatever wrote it.
pub proof fn a_full_rebuild_keeps_no_projected_row(
    db: Database,
    event: RuntimeEvent,
    at: Moment,
    found: Found,
    i: int,
)
    requires
        0 <= i < event.writes(at, found).statements().len(),
    ensures
        crate::model::after_all(db, crate::rebuild::emptyings()).rows(
            event.writes(at, found).statements()[i].table(),
        ).len() == 0,
{
    every_projected_table_is_rebuilt(event, at, found, i);
    crate::rebuild::a_full_rebuild_starts_from_empty_tables(
        db,
        event.writes(at, found).statements()[i].table(),
    );
}

} // verus!
