//! How each event is registered.

use crate::projection_registry::StatusView;
use vstd::prelude::*;

verus! {

/// How the events at 0 to 15 are registered: projected into their tables, or
/// not at all.
pub proof fn the_events_from_0()
    ensures
        super::classification()[0].0 == "ApprovalRequested"@,
        super::classification()[0].1 == (StatusView::Projected { table: Some("approvals"@) }),
        super::classification()[1].0 == "ApprovalResolved"@,
        super::classification()[1].1 == (StatusView::Projected { table: Some("approvals"@) }),
        super::classification()[2].0 == "CheckpointPersisted"@,
        super::classification()[2].1 == (StatusView::Projected { table: Some("checkpoints"@) }),
        super::classification()[3].0 == "CheckpointRecorded"@,
        super::classification()[3].1 == (StatusView::Projected { table: Some("checkpoints"@) }),
        super::classification()[4].0 == "CheckpointRestored"@,
        super::classification()[4].1 == (StatusView::Projected { table: Some("checkpoints"@) }),
        super::classification()[5].0 == "DecisionCacheWarmup"@,
        super::classification()[5].1
            == (StatusView::Projected { table: Some("decision_cache_warmups"@) }),
        super::classification()[6].0 == "DecisionRecorded"@,
        super::classification()[6].1
            == (StatusView::Projected { table: Some("decision_records"@) }),
        super::classification()[7].0 == "EvalRubricScored"@,
        super::classification()[7].1 == (StatusView::Projected { table: Some("eval_runs"@) }),
        super::classification()[8].0 == "EvalRunArchived"@,
        super::classification()[8].1 == (StatusView::Projected { table: Some("eval_runs"@) }),
        super::classification()[9].0 == "EvalRunCompleted"@,
        super::classification()[9].1 == (StatusView::Projected { table: Some("eval_runs"@) }),
        super::classification()[10].0 == "EvalRunScored"@,
        super::classification()[10].1 == (StatusView::Projected { table: Some("eval_runs"@) }),
        super::classification()[11].0 == "EvalRunStarted"@,
        super::classification()[11].1 == (StatusView::Projected { table: Some("eval_runs"@) }),
        super::classification()[12].0 == "MailboxMessageAppended"@,
        super::classification()[12].1
            == (StatusView::Projected { table: Some("mailbox_messages"@) }),
        super::classification()[13].0 == "ProjectCreated"@,
        super::classification()[13].1 == (StatusView::Projected { table: Some("projects"@) }),
        super::classification()[14].0 == "PromptAssetCreated"@,
        super::classification()[14].1 == (StatusView::Projected { table: Some("prompt_assets"@) }),
        super::classification()[15].0 == "PromptReleaseCreated"@,
        super::classification()[15].1
            == (StatusView::Projected { table: Some("prompt_releases"@) }),
{
}

/// How the events at 16 to 31 are registered: projected into their tables, or
/// not at all.
pub proof fn the_events_from_16()
    ensures
        super::classification()[16].0 == "PromptReleaseTransitioned"@,
        super::classification()[16].1
            == (StatusView::Projected { table: Some("prompt_releases"@) }),
        super::classification()[17].0 == "PromptVersionCreated"@,
        super::classification()[17].1
            == (StatusView::Projected { table: Some("prompt_versions"@) }),
        super::classification()[18].0 == "ProviderCallCompleted"@,
        super::classification()[18].1 == (StatusView::Projected { table: Some("provider_calls"@) }),
        super::classification()[19].0 == "RecoveryAttempted"@,
        super::classification()[19].1
            == (StatusView::Projected { table: Some("recovery_attempts"@) }),
        super::classification()[20].0 == "RecoveryCompleted"@,
        super::classification()[20].1
            == (StatusView::Projected { table: Some("recovery_completions"@) }),
        super::classification()[21].0 == "RecoverySummaryEmitted"@,
        super::classification()[21].1
            == (StatusView::Projected { table: Some("recovery_summaries"@) }),
        super::classification()[22].0 == "RouteDecisionMade"@,
        super::classification()[22].1
            == (StatusView::Projected { table: Some("route_decisions"@) }),
        super::classification()[23].0 == "RoutePolicyCreated"@,
        super::classification()[23].1 == (StatusView::Projected { table: Some("route_policies"@) }),
        super::classification()[24].0 == "RunCompletionAnnotated"@,
        super::classification()[24].1 == (StatusView::Projected { table: Some("runs"@) }),
        super::classification()[25].0 == "RunCreated"@,
        super::classification()[25].1 == (StatusView::Projected { table: Some("runs"@) }),
        super::classification()[26].0 == "RunStateChanged"@,
        super::classification()[26].1 == (StatusView::Projected { table: Some("runs"@) }),
        super::classification()[27].0 == "SessionAttemptStarted"@,
        super::classification()[27].1 == (StatusView::Projected { table: Some("sessions"@) }),
        super::classification()[28].0 == "SessionCostUpdated"@,
        super::classification()[28].1 == (StatusView::Projected { table: Some("session_costs"@) }),
        super::classification()[29].0 == "SessionCreated"@,
        super::classification()[29].1 == (StatusView::Projected { table: Some("sessions"@) }),
        super::classification()[30].0 == "SessionOutcomeEmitted"@,
        super::classification()[30].1
            == (StatusView::Projected { table: Some("session_outcomes"@) }),
        super::classification()[31].0 == "SessionStateChanged"@,
        super::classification()[31].1 == (StatusView::Projected { table: Some("sessions"@) }),
{
}

/// How the events at 32 to 47 are registered: projected into their tables, or
/// not at all.
pub proof fn the_events_from_32()
    ensures
        super::classification()[32].0 == "TaskCreated"@,
        super::classification()[32].1 == (StatusView::Projected { table: Some("tasks"@) }),
        super::classification()[33].0 == "TaskLeaseClaimed"@,
        super::classification()[33].1 == (StatusView::Projected { table: Some("tasks"@) }),
        super::classification()[34].0 == "TaskLeaseHeartbeated"@,
        super::classification()[34].1 == (StatusView::Projected { table: Some("tasks"@) }),
        super::classification()[35].0 == "TaskStateChanged"@,
        super::classification()[35].1 == (StatusView::Projected { table: Some("tasks"@) }),
        super::classification()[36].0 == "TenantCreated"@,
        super::classification()[36].1 == (StatusView::Projected { table: Some("tenants"@) }),
        super::classification()[37].0 == "TerminalRecoveryAttempted"@,
        super::classification()[37].1 == (StatusView::Projected { table: Some("runs"@) }),
        super::classification()[38].0 == "ToolCallAmended"@,
        super::classification()[38].1
            == (StatusView::Projected { table: Some("tool_call_approvals"@) }),
        super::classification()[39].0 == "ToolCallApproved"@,
        super::classification()[39].1
            == (StatusView::Projected { table: Some("tool_call_approvals"@) }),
        super::classification()[40].0 == "ToolCallProposed"@,
        super::classification()[40].1
            == (StatusView::Projected { table: Some("tool_call_approvals"@) }),
        super::classification()[41].0 == "ToolCallRejected"@,
        super::classification()[41].1
            == (StatusView::Projected { table: Some("tool_call_approvals"@) }),
        super::classification()[42].0 == "ToolInvocationCacheHit"@,
        super::classification()[42].1
            == (StatusView::Projected { table: Some("tool_invocation_cache_hits"@) }),
        super::classification()[43].0 == "ToolInvocationCompleted"@,
        super::classification()[43].1
            == (StatusView::Projected { table: Some("tool_invocations"@) }),
        super::classification()[44].0 == "ToolInvocationFailed"@,
        super::classification()[44].1
            == (StatusView::Projected { table: Some("tool_invocations"@) }),
        super::classification()[45].0 == "ToolInvocationProgressUpdated"@,
        super::classification()[45].1
            == (StatusView::Projected { table: Some("tool_invocation_progress"@) }),
        super::classification()[46].0 == "ToolInvocationStarted"@,
        super::classification()[46].1
            == (StatusView::Projected { table: Some("tool_invocations"@) }),
        super::classification()[47].0 == "WorkspaceArchived"@,
        super::classification()[47].1 == (StatusView::Projected { table: Some("workspaces"@) }),
{
}

/// How the events at 48 to 63 are registered: projected into their tables, or
/// not at all.
pub proof fn the_events_from_48()
    ensures
        super::classification()[48].0 == "WorkspaceCreated"@,
        super::classification()[48].1 == (StatusView::Projected { table: Some("workspaces"@) }),
        super::classification()[49].0 == "WorkspaceMemberAdded"@,
        super::classification()[49].1
            == (StatusView::Projected { table: Some("workspace_members"@) }),
        super::classification()[50].0 == "WorkspaceMemberRemoved"@,
        super::classification()[50].1
            == (StatusView::Projected { table: Some("workspace_members"@) }),
        super::classification()[51].0 == "WorkspaceSnapshotCreated"@,
        super::classification()[51].1
            == (StatusView::Projected { table: Some("workspace_snapshots"@) }),
        super::classification()[52].0 == "WorkspaceSnapshotReaped"@,
        super::classification()[52].1
            == (StatusView::Projected { table: Some("workspace_snapshots"@) }),
        super::classification()[53].0 == "ApprovalPolicyCreated"@,
        super::classification()[53].1 is Ephemeral,
        super::classification()[54].0 == "BudgetThresholdCrossed"@,
        super::classification()[54].1 is Ephemeral,
        super::classification()[55].0 == "CircuitBreakerTripped"@,
        super::classification()[55].1 is Ephemeral,
        super::classification()[56].0 == "OrchestratorDecisionMade"@,
        super::classification()[56].1 is Ephemeral,
        super::classification()[57].0 == "PromptRolloutStarted"@,
        super::classification()[57].1 is Ephemeral,
        super::classification()[58].0 == "RunSlaBreached"@,
        super::classification()[58].1 is Ephemeral,
        super::classification()[59].0 == "RunSlaSet"@,
        super::classification()[59].1 is Ephemeral,
        super::classification()[60].0 == "RunTemplateCreated"@,
        super::classification()[60].1 == (StatusView::Projected { table: Some("run_templates"@) }),
        super::classification()[61].0 == "RunTemplateDeleted"@,
        super::classification()[61].1 == (StatusView::Projected { table: Some("run_templates"@) }),
        super::classification()[62].0 == "SandboxCrashRecovered"@,
        super::classification()[62].1 is Ephemeral,
        super::classification()[63].0 == "SessionAttemptCompleted"@,
        super::classification()[63].1 is Ephemeral,
{
}

/// How the events at 64 to 79 are registered: projected into their tables, or
/// not at all.
pub proof fn the_events_from_64()
    ensures
        super::classification()[64].0 == "SignalRouted"@,
        super::classification()[64].1 is Ephemeral,
        super::classification()[65].0 == "SignalSubscriptionCreated"@,
        super::classification()[65].1 is Ephemeral,
        super::classification()[66].0 == "SnapshotCreated"@,
        super::classification()[66].1 is Ephemeral,
        super::classification()[67].0 == "SummarizerFallback"@,
        super::classification()[67].1 is Ephemeral,
        super::classification()[68].0 == "TaskDependencyAdded"@,
        super::classification()[68].1 is Ephemeral,
        super::classification()[69].0 == "TaskDependencyResolved"@,
        super::classification()[69].1 is Ephemeral,
        super::classification()[70].0 == "TaskLeaseExpired"@,
        super::classification()[70].1 is Ephemeral,
        super::classification()[71].0 == "TaskPriorityChanged"@,
        super::classification()[71].1 is Ephemeral,
        super::classification()[72].0 == "TriggerCreated"@,
        super::classification()[72].1 == (StatusView::Projected { table: Some("triggers"@) }),
        super::classification()[73].0 == "TriggerDeleted"@,
        super::classification()[73].1 == (StatusView::Projected { table: Some("triggers"@) }),
        super::classification()[74].0 == "TriggerDenied"@,
        super::classification()[74].1 == (StatusView::Projected { table: Some("trigger_fires"@) }),
        super::classification()[75].0 == "TriggerDisabled"@,
        super::classification()[75].1 == (StatusView::Projected { table: Some("triggers"@) }),
        super::classification()[76].0 == "TriggerEnabled"@,
        super::classification()[76].1 == (StatusView::Projected { table: Some("triggers"@) }),
        super::classification()[77].0 == "TriggerFired"@,
        super::classification()[77].1 == (StatusView::Projected { table: Some("trigger_fires"@) }),
        super::classification()[78].0 == "TriggerPendingApproval"@,
        super::classification()[78].1 == (StatusView::Projected { table: Some("trigger_fires"@) }),
        super::classification()[79].0 == "TriggerRateLimited"@,
        super::classification()[79].1 == (StatusView::Projected { table: Some("trigger_fires"@) }),
{
}

/// How the events at 80 to 95 are registered: projected into their tables, or
/// not at all.
pub proof fn the_events_from_80()
    ensures
        super::classification()[80].0 == "TriggerResumed"@,
        super::classification()[80].1 == (StatusView::Projected { table: Some("triggers"@) }),
        super::classification()[81].0 == "TriggerSkipped"@,
        super::classification()[81].1 == (StatusView::Projected { table: Some("trigger_fires"@) }),
        super::classification()[82].0 == "TriggerSuspended"@,
        super::classification()[82].1 == (StatusView::Projected { table: Some("triggers"@) }),
        super::classification()[83].0 == "WorkspaceBackendDegraded"@,
        super::classification()[83].1 is Ephemeral,
        super::classification()[84].0 == "ApprovalDelegated"@,
        super::classification()[84].1
            == (StatusView::Projected { table: Some("approval_delegations"@) }),
        super::classification()[85].0 == "AuditLogEntryRecorded"@,
        super::classification()[85].1
            == (StatusView::Projected { table: Some("audit_log_entries"@) }),
        super::classification()[86].0 == "ChannelCreated"@,
        super::classification()[86].1 == (StatusView::Projected { table: Some("channels"@) }),
        super::classification()[87].0 == "ChannelMessageConsumed"@,
        super::classification()[87].1
            == (StatusView::Projected { table: Some("channel_messages"@) }),
        super::classification()[88].0 == "ChannelMessageSent"@,
        super::classification()[88].1
            == (StatusView::Projected { table: Some("channel_messages"@) }),
        super::classification()[89].0 == "CheckpointStrategySet"@,
        super::classification()[89].1
            == (StatusView::Projected { table: Some("checkpoint_strategies"@) }),
        super::classification()[90].0 == "CredentialKeyRotated"@,
        super::classification()[90].1
            == (StatusView::Projected { table: Some("credential_rotations"@) }),
        super::classification()[91].0 == "CredentialRevoked"@,
        super::classification()[91].1 == (StatusView::Projected { table: Some("credentials"@) }),
        super::classification()[92].0 == "CredentialStored"@,
        super::classification()[92].1 == (StatusView::Projected { table: Some("credentials"@) }),
        super::classification()[93].0 == "DefaultSettingCleared"@,
        super::classification()[93].1
            == (StatusView::Projected { table: Some("default_settings"@) }),
        super::classification()[94].0 == "DefaultSettingSet"@,
        super::classification()[94].1
            == (StatusView::Projected { table: Some("default_settings"@) }),
        super::classification()[95].0 == "EntitlementOverrideSet"@,
        super::classification()[95].1
            == (StatusView::Projected { table: Some("entitlement_overrides"@) }),
{
}

/// How the events at 96 to 111 are registered: projected into their tables, or
/// not at all.
pub proof fn the_events_from_96()
    ensures
        super::classification()[96].0 == "EvalBaselineLocked"@,
        super::classification()[96].1 == (StatusView::Projected { table: Some("eval_baselines"@) }),
        super::classification()[97].0 == "EvalBaselineSet"@,
        super::classification()[97].1 == (StatusView::Projected { table: Some("eval_baselines"@) }),
        super::classification()[98].0 == "EvalDatasetCreated"@,
        super::classification()[98].1 == (StatusView::Projected { table: Some("eval_datasets"@) }),
        super::classification()[99].0 == "EvalDatasetEntryAdded"@,
        super::classification()[99].1
            == (StatusView::Projected { table: Some("eval_dataset_entries"@) }),
        super::classification()[100].0 == "EvalRubricCreated"@,
        super::classification()[100].1 == (StatusView::Projected { table: Some("eval_rubrics"@) }),
        super::classification()[101].0 == "EventLogCompacted"@,
        super::classification()[101].1 is Ephemeral,
        super::classification()[102].0 == "ExternalWorkerReactivated"@,
        super::classification()[102].1
            == (StatusView::Projected { table: Some("external_workers"@) }),
        super::classification()[103].0 == "ExternalWorkerRegistered"@,
        super::classification()[103].1
            == (StatusView::Projected { table: Some("external_workers"@) }),
        super::classification()[104].0 == "ExternalWorkerReported"@,
        super::classification()[104].1
            == (StatusView::Projected { table: Some("external_workers"@) }),
        super::classification()[105].0 == "ExternalWorkerSuspended"@,
        super::classification()[105].1
            == (StatusView::Projected { table: Some("external_workers"@) }),
        super::classification()[106].0 == "GuardrailPolicyCreated"@,
        super::classification()[106].1
            == (StatusView::Projected { table: Some("guardrail_policies"@) }),
        super::classification()[107].0 == "GuardrailPolicyEvaluated"@,
        super::classification()[107].1
            == (StatusView::Projected { table: Some("guardrail_evaluations"@) }),
        super::classification()[108].0 == "IngestJobCompleted"@,
        super::classification()[108].1 == (StatusView::Projected { table: Some("ingest_jobs"@) }),
        super::classification()[109].0 == "IngestJobStarted"@,
        super::classification()[109].1 == (StatusView::Projected { table: Some("ingest_jobs"@) }),
        super::classification()[110].0 == "LicenseActivated"@,
        super::classification()[110].1 == (StatusView::Projected { table: Some("licenses"@) }),
        super::classification()[111].0 == "NotificationPreferenceSet"@,
        super::classification()[111].1
            == (StatusView::Projected { table: Some("notification_preferences"@) }),
{
}

/// How the events at 112 to 127 are registered: projected into their tables, or
/// not at all.
pub proof fn the_events_from_112()
    ensures
        super::classification()[112].0 == "NotificationSent"@,
        super::classification()[112].1 == (StatusView::Projected { table: Some("notifications"@) }),
        super::classification()[113].0 == "OperatorIntervention"@,
        super::classification()[113].1 is Ephemeral,
        super::classification()[114].0 == "OperatorProfileCreated"@,
        super::classification()[114].1
            == (StatusView::Projected { table: Some("operator_profiles"@) }),
        super::classification()[115].0 == "OperatorProfileUpdated"@,
        super::classification()[115].1
            == (StatusView::Projected { table: Some("operator_profiles"@) }),
        super::classification()[116].0 == "OutcomeRecorded"@,
        super::classification()[116].1 == (StatusView::Projected { table: Some("outcomes"@) }),
        super::classification()[117].0 == "PauseScheduled"@,
        super::classification()[117].1
            == (StatusView::Projected { table: Some("pause_schedules"@) }),
        super::classification()[118].0 == "PermissionDecisionRecorded"@,
        super::classification()[118].1 is Stubbed,
        super::classification()[119].0 == "PlanApproved"@,
        super::classification()[119].1 == (StatusView::Projected { table: Some("plan_reviews"@) }),
        super::classification()[120].0 == "PlanProposed"@,
        super::classification()[120].1 == (StatusView::Projected { table: Some("plan_reviews"@) }),
        super::classification()[121].0 == "PlanRejected"@,
        super::classification()[121].1 == (StatusView::Projected { table: Some("plan_reviews"@) }),
        super::classification()[122].0 == "PlanRevisionRequested"@,
        super::classification()[122].1 == (StatusView::Projected { table: Some("plan_reviews"@) }),
        super::classification()[123].0 == "ProviderBindingCreated"@,
        super::classification()[123].1
            == (StatusView::Projected { table: Some("provider_bindings"@) }),
        super::classification()[124].0 == "ProviderBindingStateChanged"@,
        super::classification()[124].1
            == (StatusView::Projected { table: Some("provider_bindings"@) }),
        super::classification()[125].0 == "ProviderBudgetAlertTriggered"@,
        super::classification()[125].1
            == (StatusView::Projected { table: Some("provider_budgets"@) }),
        super::classification()[126].0 == "ProviderBudgetExceeded"@,
        super::classification()[126].1
            == (StatusView::Projected { table: Some("provider_budgets"@) }),
        super::classification()[127].0 == "ProviderBudgetSet"@,
        super::classification()[127].1
            == (StatusView::Projected { table: Some("provider_budgets"@) }),
{
}

/// How the events at 128 to 143 are registered: projected into their tables, or
/// not at all.
pub proof fn the_events_from_128()
    ensures
        super::classification()[128].0 == "ProviderConnectionDeleted"@,
        super::classification()[128].1
            == (StatusView::Projected { table: Some("provider_connections"@) }),
        super::classification()[129].0 == "ProviderConnectionRegistered"@,
        super::classification()[129].1
            == (StatusView::Projected { table: Some("provider_connections"@) }),
        super::classification()[130].0 == "ProviderHealthChecked"@,
        super::classification()[130].1 is Ephemeral,
        super::classification()[131].0 == "ProviderHealthScheduleSet"@,
        super::classification()[131].1 is Ephemeral,
        super::classification()[132].0 == "ProviderHealthScheduleTriggered"@,
        super::classification()[132].1 is Ephemeral,
        super::classification()[133].0 == "ProviderMarkedDegraded"@,
        super::classification()[133].1 is Ephemeral,
        super::classification()[134].0 == "ProviderModelRegistered"@,
        super::classification()[134].1 is Ephemeral,
        super::classification()[135].0 == "ProviderPoolConnectionAdded"@,
        super::classification()[135].1 is Ephemeral,
        super::classification()[136].0 == "ProviderPoolConnectionRemoved"@,
        super::classification()[136].1 is Ephemeral,
        super::classification()[137].0 == "ProviderPoolCreated"@,
        super::classification()[137].1 is Ephemeral,
        super::classification()[138].0 == "ProviderRecovered"@,
        super::classification()[138].1 is Ephemeral,
        super::classification()[139].0 == "ProviderRetryPolicySet"@,
        super::classification()[139].1 is Ephemeral,
        super::classification()[140].0 == "RecoveryEscalated"@,
        super::classification()[140].1 is Ephemeral,
        super::classification()[141].0 == "ResourceShareRevoked"@,
        super::classification()[141].1
            == (StatusView::Projected { table: Some("resource_shares"@) }),
        super::classification()[142].0 == "ResourceShared"@,
        super::classification()[142].1
            == (StatusView::Projected { table: Some("resource_shares"@) }),
        super::classification()[143].0 == "RetentionPolicySet"@,
        super::classification()[143].1
            == (StatusView::Projected { table: Some("retention_policies"@) }),
{
}

/// How the events at 144 to 157 are registered: projected into their tables, or
/// not at all.
pub proof fn the_events_from_144()
    ensures
        super::classification()[144].0 == "RoutePolicyUpdated"@,
        super::classification()[144].1
            == (StatusView::Projected { table: Some("route_policies"@) }),
        super::classification()[145].0 == "RunCostAlertSet"@,
        super::classification()[145].1
            == (StatusView::Projected { table: Some("run_cost_alerts"@) }),
        super::classification()[146].0 == "RunCostAlertTriggered"@,
        super::classification()[146].1
            == (StatusView::Projected { table: Some("run_cost_alerts"@) }),
        super::classification()[147].0 == "RunCostUpdated"@,
        super::classification()[147].1 == (StatusView::Projected { table: Some("run_costs"@) }),
        super::classification()[148].0 == "ScheduledTaskCreated"@,
        super::classification()[148].1
            == (StatusView::Projected { table: Some("scheduled_tasks"@) }),
        super::classification()[149].0 == "SignalIngested"@,
        super::classification()[149].1
            == (StatusView::Projected { table: Some("signal_ingestions"@) }),
        super::classification()[150].0 == "SoulPatchApplied"@,
        super::classification()[150].1 == (StatusView::Projected { table: Some("soul_patches"@) }),
        super::classification()[151].0 == "SoulPatchProposed"@,
        super::classification()[151].1 == (StatusView::Projected { table: Some("soul_patches"@) }),
        super::classification()[152].0 == "SpendAlertTriggered"@,
        super::classification()[152].1 is Ephemeral,
        super::classification()[153].0 == "SubagentSpawned"@,
        super::classification()[153].1
            == (StatusView::Projected { table: Some("subagent_spawns"@) }),
        super::classification()[154].0 == "TenantQuotaSet"@,
        super::classification()[154].1 == (StatusView::Projected { table: Some("tenant_quotas"@) }),
        super::classification()[155].0 == "TenantQuotaViolated"@,
        super::classification()[155].1
            == (StatusView::Projected { table: Some("tenant_quota_violations"@) }),
        super::classification()[156].0 == "ToolRecoveryPaused"@,
        super::classification()[156].1
            == (StatusView::Projected { table: Some("tool_recovery_pauses"@) }),
        super::classification()[157].0 == "UserMessageAppended"@,
        super::classification()[157].1 == (StatusView::Projected { table: Some("user_messages"@) }),
{
}

/// No other events are registered.
pub proof fn the_number_of_registered_events()
    ensures
        super::classification().len() == 158,
{
}

} // verus!
