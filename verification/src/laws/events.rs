//! What holds of every event.

use crate::events::{LookupView, RuntimeEvent};
use crate::laws::finding::group_queries;
use crate::model::{Database, Datum, Row};
use crate::plan::{Found, Moment, Planned};
use crate::query::{OutputView, QueryView};
use crate::schema::{Column, Table};
use vstd::prelude::*;

verus! {

/// Each event goes by the name of its variant.
pub proof fn the_names_of_the_events(event: RuntimeEvent)
    ensures
        event.spec_variant() == match event {
            RuntimeEvent::KnowledgeProviderCapabilityChanged(
                _,
            ) => "KnowledgeProviderCapabilityChanged"@,
            RuntimeEvent::SessionCreated(_) => "SessionCreated"@,
            RuntimeEvent::SessionStateChanged(_) => "SessionStateChanged"@,
            RuntimeEvent::RunCreated(_) => "RunCreated"@,
            RuntimeEvent::RunStateChanged(_) => "RunStateChanged"@,
            RuntimeEvent::TaskCreated(_) => "TaskCreated"@,
            RuntimeEvent::TaskLeaseClaimed(_) => "TaskLeaseClaimed"@,
            RuntimeEvent::TaskLeaseHeartbeated(_) => "TaskLeaseHeartbeated"@,
            RuntimeEvent::TaskStateChanged(_) => "TaskStateChanged"@,
            RuntimeEvent::ApprovalRequested(_) => "ApprovalRequested"@,
            RuntimeEvent::ApprovalResolved(_) => "ApprovalResolved"@,
            RuntimeEvent::CheckpointRecorded(_) => "CheckpointRecorded"@,
            RuntimeEvent::CheckpointRestored => "CheckpointRestored"@,
            RuntimeEvent::MailboxMessageAppended(_) => "MailboxMessageAppended"@,
            RuntimeEvent::ToolInvocationStarted(_) => "ToolInvocationStarted"@,
            RuntimeEvent::ToolInvocationCompleted(_) => "ToolInvocationCompleted"@,
            RuntimeEvent::ToolInvocationFailed(_) => "ToolInvocationFailed"@,
            RuntimeEvent::ExternalWorkerRegistered(_) => "ExternalWorkerRegistered"@,
            RuntimeEvent::ExternalWorkerSuspended(_) => "ExternalWorkerSuspended"@,
            RuntimeEvent::ExternalWorkerReactivated(_) => "ExternalWorkerReactivated"@,
            RuntimeEvent::ExternalWorkerReported(_) => "ExternalWorkerReported"@,
            RuntimeEvent::SoulPatchProposed(_) => "SoulPatchProposed"@,
            RuntimeEvent::SoulPatchApplied(_) => "SoulPatchApplied"@,
            RuntimeEvent::SessionCostUpdated(_) => "SessionCostUpdated"@,
            RuntimeEvent::RunCostUpdated(_) => "RunCostUpdated"@,
            RuntimeEvent::SpendAlertTriggered => "SpendAlertTriggered"@,
            RuntimeEvent::SubagentSpawned(_) => "SubagentSpawned"@,
            RuntimeEvent::RecoveryAttempted(_) => "RecoveryAttempted"@,
            RuntimeEvent::RecoveryCompleted(_) => "RecoveryCompleted"@,
            RuntimeEvent::SignalIngested(_) => "SignalIngested"@,
            RuntimeEvent::UserMessageAppended(_) => "UserMessageAppended"@,
            RuntimeEvent::IngestJobStarted(_) => "IngestJobStarted"@,
            RuntimeEvent::IngestJobCompleted(_) => "IngestJobCompleted"@,
            RuntimeEvent::EvalRunStarted(_) => "EvalRunStarted"@,
            RuntimeEvent::EvalRunCompleted(_) => "EvalRunCompleted"@,
            RuntimeEvent::EvalRunArchived(_) => "EvalRunArchived"@,
            RuntimeEvent::EvalRunScored(_) => "EvalRunScored"@,
            RuntimeEvent::EvalRubricScored(_) => "EvalRubricScored"@,
            RuntimeEvent::OutcomeRecorded(_) => "OutcomeRecorded"@,
            RuntimeEvent::ScheduledTaskCreated(_) => "ScheduledTaskCreated"@,
            RuntimeEvent::PlanProposed(_) => "PlanProposed"@,
            RuntimeEvent::PlanApproved(_) => "PlanApproved"@,
            RuntimeEvent::PlanRejected(_) => "PlanRejected"@,
            RuntimeEvent::PlanRevisionRequested(_) => "PlanRevisionRequested"@,
            RuntimeEvent::ProviderBudgetSet(_) => "ProviderBudgetSet"@,
            RuntimeEvent::ChannelCreated(_) => "ChannelCreated"@,
            RuntimeEvent::ChannelMessageSent(_) => "ChannelMessageSent"@,
            RuntimeEvent::ChannelMessageConsumed(_) => "ChannelMessageConsumed"@,
            RuntimeEvent::DefaultSettingSet(_) => "DefaultSettingSet"@,
            RuntimeEvent::DefaultSettingCleared(_) => "DefaultSettingCleared"@,
            RuntimeEvent::LicenseActivated(_) => "LicenseActivated"@,
            RuntimeEvent::EntitlementOverrideSet(_) => "EntitlementOverrideSet"@,
            RuntimeEvent::NotificationPreferenceSet(_) => "NotificationPreferenceSet"@,
            RuntimeEvent::NotificationSent(_) => "NotificationSent"@,
            RuntimeEvent::ProviderPoolCreated => "ProviderPoolCreated"@,
            RuntimeEvent::ProviderPoolConnectionAdded => "ProviderPoolConnectionAdded"@,
            RuntimeEvent::ProviderPoolConnectionRemoved => "ProviderPoolConnectionRemoved"@,
            RuntimeEvent::TenantQuotaSet(_) => "TenantQuotaSet"@,
            RuntimeEvent::TenantQuotaViolated(_) => "TenantQuotaViolated"@,
            RuntimeEvent::RetentionPolicySet(_) => "RetentionPolicySet"@,
            RuntimeEvent::RunCostAlertSet(_) => "RunCostAlertSet"@,
            RuntimeEvent::RunCostAlertTriggered(_) => "RunCostAlertTriggered"@,
            RuntimeEvent::ApprovalDelegated(_) => "ApprovalDelegated"@,
            RuntimeEvent::AuditLogEntryRecorded(_) => "AuditLogEntryRecorded"@,
            RuntimeEvent::CheckpointStrategySet(_) => "CheckpointStrategySet"@,
            RuntimeEvent::CredentialStored(_) => "CredentialStored"@,
            RuntimeEvent::CredentialRevoked(_) => "CredentialRevoked"@,
            RuntimeEvent::CredentialKeyRotated(_) => "CredentialKeyRotated"@,
            RuntimeEvent::EvalDatasetCreated(_) => "EvalDatasetCreated"@,
            RuntimeEvent::EvalDatasetEntryAdded(_) => "EvalDatasetEntryAdded"@,
            RuntimeEvent::EvalRubricCreated(_) => "EvalRubricCreated"@,
            RuntimeEvent::EvalBaselineSet(_) => "EvalBaselineSet"@,
            RuntimeEvent::EvalBaselineLocked(_) => "EvalBaselineLocked"@,
            RuntimeEvent::EventLogCompacted => "EventLogCompacted"@,
            RuntimeEvent::GuardrailPolicyCreated(_) => "GuardrailPolicyCreated"@,
            RuntimeEvent::GuardrailPolicyEvaluated(_) => "GuardrailPolicyEvaluated"@,
            RuntimeEvent::OperatorIntervention => "OperatorIntervention"@,
            RuntimeEvent::OperatorProfileCreated(_) => "OperatorProfileCreated"@,
            RuntimeEvent::OperatorProfileUpdated(_) => "OperatorProfileUpdated"@,
            RuntimeEvent::TenantRoleGranted(_) => "TenantRoleGranted"@,
            RuntimeEvent::TenantRoleRevoked(_) => "TenantRoleRevoked"@,
            RuntimeEvent::PauseScheduled => "PauseScheduled"@,
            RuntimeEvent::PermissionDecisionRecorded => "PermissionDecisionRecorded"@,
            RuntimeEvent::ProviderBindingCreated(_) => "ProviderBindingCreated"@,
            RuntimeEvent::ProviderBindingStateChanged(_) => "ProviderBindingStateChanged"@,
            RuntimeEvent::ProviderBudgetAlertTriggered(_) => "ProviderBudgetAlertTriggered"@,
            RuntimeEvent::ProviderBudgetExceeded(_) => "ProviderBudgetExceeded"@,
            RuntimeEvent::ProviderConnectionRegistered(_) => "ProviderConnectionRegistered"@,
            RuntimeEvent::ProviderConnectionDeleted(_) => "ProviderConnectionDeleted"@,
            RuntimeEvent::ProviderHealthChecked => "ProviderHealthChecked"@,
            RuntimeEvent::ProviderHealthScheduleSet => "ProviderHealthScheduleSet"@,
            RuntimeEvent::ProviderHealthScheduleTriggered => "ProviderHealthScheduleTriggered"@,
            RuntimeEvent::ProviderMarkedDegraded => "ProviderMarkedDegraded"@,
            RuntimeEvent::ProviderModelRegistered => "ProviderModelRegistered"@,
            RuntimeEvent::ProviderRecovered => "ProviderRecovered"@,
            RuntimeEvent::ProviderRetryPolicySet => "ProviderRetryPolicySet"@,
            RuntimeEvent::RecoveryEscalated => "RecoveryEscalated"@,
            RuntimeEvent::ResourceShared(_) => "ResourceShared"@,
            RuntimeEvent::ResourceShareRevoked(_) => "ResourceShareRevoked"@,
            RuntimeEvent::RoutePolicyUpdated(_) => "RoutePolicyUpdated"@,
            RuntimeEvent::ToolInvocationCacheHit(_) => "ToolInvocationCacheHit"@,
            RuntimeEvent::ToolRecoveryPaused(_) => "ToolRecoveryPaused"@,
            RuntimeEvent::ToolInvocationProgressUpdated(_) => "ToolInvocationProgressUpdated"@,
            RuntimeEvent::RecoverySummaryEmitted(_) => "RecoverySummaryEmitted"@,
            RuntimeEvent::ToolCallProposed(_) => "ToolCallProposed"@,
            RuntimeEvent::ToolCallAmended(_) => "ToolCallAmended"@,
            RuntimeEvent::ToolCallApproved(_) => "ToolCallApproved"@,
            RuntimeEvent::ToolCallRejected(_) => "ToolCallRejected"@,
            RuntimeEvent::TenantCreated(_) => "TenantCreated"@,
            RuntimeEvent::TenantUpdated(_) => "TenantUpdated"@,
            RuntimeEvent::WorkspaceCreated(_) => "WorkspaceCreated"@,
            RuntimeEvent::WorkspaceArchived(_) => "WorkspaceArchived"@,
            RuntimeEvent::ProjectCreated(_) => "ProjectCreated"@,
            RuntimeEvent::RoutePolicyCreated(_) => "RoutePolicyCreated"@,
            RuntimeEvent::WorkspaceMemberAdded(_) => "WorkspaceMemberAdded"@,
            RuntimeEvent::WorkspaceMemberRemoved(_) => "WorkspaceMemberRemoved"@,
            RuntimeEvent::PromptAssetCreated(_) => "PromptAssetCreated"@,
            RuntimeEvent::PromptVersionCreated(_) => "PromptVersionCreated"@,
            RuntimeEvent::PromptReleaseCreated(_) => "PromptReleaseCreated"@,
            RuntimeEvent::PromptReleaseTransitioned(_) => "PromptReleaseTransitioned"@,
            RuntimeEvent::RouteDecisionMade(_) => "RouteDecisionMade"@,
            RuntimeEvent::ProviderCallCompleted(_) => "ProviderCallCompleted"@,
            RuntimeEvent::RunSlaBreached => "RunSlaBreached"@,
            RuntimeEvent::RunSlaSet => "RunSlaSet"@,
            RuntimeEvent::SignalRouted => "SignalRouted"@,
            RuntimeEvent::SignalSubscriptionCreated => "SignalSubscriptionCreated"@,
            RuntimeEvent::SnapshotCreated => "SnapshotCreated"@,
            RuntimeEvent::TaskDependencyAdded => "TaskDependencyAdded"@,
            RuntimeEvent::TaskDependencyResolved => "TaskDependencyResolved"@,
            RuntimeEvent::TaskLeaseExpired => "TaskLeaseExpired"@,
            RuntimeEvent::TaskPriorityChanged => "TaskPriorityChanged"@,
            RuntimeEvent::ApprovalPolicyCreated => "ApprovalPolicyCreated"@,
            RuntimeEvent::PromptRolloutStarted => "PromptRolloutStarted"@,
            RuntimeEvent::TriggerCreated(_) => "TriggerCreated"@,
            RuntimeEvent::TriggerEnabled(_) => "TriggerEnabled"@,
            RuntimeEvent::TriggerDisabled(_) => "TriggerDisabled"@,
            RuntimeEvent::TriggerSuspended(_) => "TriggerSuspended"@,
            RuntimeEvent::TriggerResumed(_) => "TriggerResumed"@,
            RuntimeEvent::TriggerDeleted(_) => "TriggerDeleted"@,
            RuntimeEvent::RunTemplateCreated(_) => "RunTemplateCreated"@,
            RuntimeEvent::RunTemplateDeleted(_) => "RunTemplateDeleted"@,
            RuntimeEvent::TriggerFired(_) => "TriggerFired"@,
            RuntimeEvent::TriggerSkipped(_) => "TriggerSkipped"@,
            RuntimeEvent::TriggerDenied(_) => "TriggerDenied"@,
            RuntimeEvent::TriggerRateLimited(_) => "TriggerRateLimited"@,
            RuntimeEvent::TriggerPendingApproval(_) => "TriggerPendingApproval"@,
            RuntimeEvent::SessionAttemptCompleted => "SessionAttemptCompleted"@,
            RuntimeEvent::CircuitBreakerTripped => "CircuitBreakerTripped"@,
            RuntimeEvent::BudgetThresholdCrossed => "BudgetThresholdCrossed"@,
            RuntimeEvent::OrchestratorDecisionMade => "OrchestratorDecisionMade"@,
            RuntimeEvent::SummarizerFallback => "SummarizerFallback"@,
            RuntimeEvent::WorkspaceBackendDegraded => "WorkspaceBackendDegraded"@,
            RuntimeEvent::SessionAttemptStarted(_) => "SessionAttemptStarted"@,
            RuntimeEvent::CheckpointPersisted(_) => "CheckpointPersisted"@,
            RuntimeEvent::WorkspaceSnapshotCreated(_) => "WorkspaceSnapshotCreated"@,
            RuntimeEvent::WorkspaceSnapshotReaped(_) => "WorkspaceSnapshotReaped"@,
            RuntimeEvent::SessionOutcomeEmitted(_) => "SessionOutcomeEmitted"@,
            RuntimeEvent::DecisionRecorded(_) => "DecisionRecorded"@,
            RuntimeEvent::RunCompletionAnnotated(_) => "RunCompletionAnnotated"@,
            RuntimeEvent::TerminalRecoveryAttempted(_) => "TerminalRecoveryAttempted"@,
            RuntimeEvent::DecisionCacheWarmup(_) => "DecisionCacheWarmup"@,
            RuntimeEvent::SandboxCrashRecovered => "SandboxCrashRecovered"@,
            RuntimeEvent::LlmCompletionRecorded(_) => "LlmCompletionRecorded"@,
            RuntimeEvent::KnowledgeProviderConfigured(_) => "KnowledgeProviderConfigured"@,
            RuntimeEvent::KnowledgeProviderUnavailable(_) => "KnowledgeProviderUnavailable"@,
            RuntimeEvent::KnowledgeIngestSubmitted(_) => "KnowledgeIngestSubmitted"@,
            RuntimeEvent::KnowledgeIngestRejected(_) => "KnowledgeIngestRejected"@,
            RuntimeEvent::KnowledgeIngestStatusUpdated(_) => "KnowledgeIngestStatusUpdated"@,
        },
{
}

/// Each event is projected by its own rule, and those without one store nothing.
pub proof fn each_event_is_projected_by_its_own_rule(
    event: RuntimeEvent,
    at: Moment,
    found: Found,
)
    ensures
        match event {
            RuntimeEvent::SessionCreated(e) => event.writes(at, found) == e.writes(at),
            RuntimeEvent::SessionStateChanged(e) => event.writes(at, found) == e.writes(at),
            RuntimeEvent::RunCreated(e) => event.writes(at, found) == e.writes(at),
            RuntimeEvent::RunStateChanged(e) => event.writes(at, found) == e.writes(at, found),
            RuntimeEvent::TaskCreated(e) => event.writes(at, found) == e.writes(at),
            RuntimeEvent::TaskLeaseClaimed(e) => event.writes(at, found) == e.writes(at),
            RuntimeEvent::TaskLeaseHeartbeated(e) => event.writes(at, found) == e.writes(at),
            RuntimeEvent::TaskStateChanged(e) => event.writes(at, found) == e.writes(at),
            RuntimeEvent::ApprovalRequested(e) => event.writes(at, found) == e.writes(at),
            RuntimeEvent::ApprovalResolved(e) => event.writes(at, found) == e.writes(at),
            RuntimeEvent::CheckpointRecorded(e) => event.writes(at, found) == e.writes(at),
            RuntimeEvent::MailboxMessageAppended(e) => event.writes(at, found) == e.writes(at),
            RuntimeEvent::ToolInvocationStarted(e) => event.writes(at, found) == e.writes(at),
            RuntimeEvent::ToolInvocationCompleted(e) => event.writes(at, found) == e.writes(at),
            RuntimeEvent::ToolInvocationFailed(e) => event.writes(at, found) == e.writes(at),
            RuntimeEvent::ExternalWorkerRegistered(e) => event.writes(at, found) == e.writes(at),
            RuntimeEvent::ExternalWorkerSuspended(e) => event.writes(at, found) == e.writes(at),
            RuntimeEvent::ExternalWorkerReactivated(e) => event.writes(at, found) == e.writes(at),
            RuntimeEvent::ExternalWorkerReported(e) => event.writes(at, found) == e.writes(at),
            RuntimeEvent::SoulPatchProposed(e) => event.writes(at, found) == e.writes(at),
            RuntimeEvent::SoulPatchApplied(e) => event.writes(at, found) == e.writes(at),
            RuntimeEvent::SessionCostUpdated(e) => event.writes(at, found) == e.writes(),
            RuntimeEvent::RunCostUpdated(e) => event.writes(at, found) == e.writes(at),
            RuntimeEvent::SubagentSpawned(e) => event.writes(at, found) == e.writes(at),
            RuntimeEvent::RecoveryAttempted(e) => event.writes(at, found) == e.writes(at),
            RuntimeEvent::RecoveryCompleted(e) => event.writes(at, found) == e.writes(at),
            RuntimeEvent::SignalIngested(e) => event.writes(at, found) == e.writes(at),
            RuntimeEvent::UserMessageAppended(e) => event.writes(at, found) == e.writes(at),
            RuntimeEvent::IngestJobStarted(e) => event.writes(at, found) == e.writes(at),
            RuntimeEvent::IngestJobCompleted(e) => event.writes(at, found) == e.writes(at),
            RuntimeEvent::EvalRunStarted(e) => event.writes(at, found) == e.writes(at),
            RuntimeEvent::EvalRunCompleted(e) => event.writes(at, found) == e.writes(at),
            RuntimeEvent::EvalRunArchived(e) => event.writes(at, found) == e.writes(at),
            RuntimeEvent::EvalRunScored(e) => event.writes(at, found) == e.writes(at),
            RuntimeEvent::EvalRubricScored(e) => event.writes(at, found) == e.writes(at),
            RuntimeEvent::OutcomeRecorded(e) => event.writes(at, found) == e.writes(at),
            RuntimeEvent::ScheduledTaskCreated(e) => event.writes(at, found) == e.writes(at),
            RuntimeEvent::PlanProposed(e) => event.writes(at, found) == e.writes(at),
            RuntimeEvent::PlanApproved(e) => event.writes(at, found) == e.writes(at),
            RuntimeEvent::PlanRejected(e) => event.writes(at, found) == e.writes(at),
            RuntimeEvent::PlanRevisionRequested(e) => event.writes(at, found) == e.writes(at),
            RuntimeEvent::ProviderBudgetSet(e) => event.writes(at, found) == e.writes(at),
            RuntimeEvent::ChannelCreated(e) => event.writes(at, found) == e.writes(at),
            RuntimeEvent::ChannelMessageSent(e) => event.writes(at, found) == e.writes(at),
            RuntimeEvent::ChannelMessageConsumed(e) => event.writes(at, found) == e.writes(at),
            RuntimeEvent::DefaultSettingSet(e) => event.writes(at, found) == e.writes(at),
            RuntimeEvent::DefaultSettingCleared(e) => event.writes(at, found) == e.writes(at),
            RuntimeEvent::LicenseActivated(e) => event.writes(at, found) == e.writes(at),
            RuntimeEvent::EntitlementOverrideSet(e) => event.writes(at, found) == e.writes(at),
            RuntimeEvent::NotificationPreferenceSet(e) => event.writes(at, found) == e.writes(at),
            RuntimeEvent::NotificationSent(e) => event.writes(at, found) == e.writes(at),
            RuntimeEvent::TenantQuotaSet(e) => event.writes(at, found) == e.writes(at),
            RuntimeEvent::TenantQuotaViolated(e) => event.writes(at, found) == e.writes(at),
            RuntimeEvent::RetentionPolicySet(e) => event.writes(at, found) == e.writes(at),
            RuntimeEvent::RunCostAlertSet(e) => event.writes(at, found) == e.writes(at),
            RuntimeEvent::RunCostAlertTriggered(e) => event.writes(at, found) == e.writes(at),
            RuntimeEvent::ApprovalDelegated(e) => event.writes(at, found) == e.writes(at),
            RuntimeEvent::AuditLogEntryRecorded(e) => event.writes(at, found) == e.writes(at),
            RuntimeEvent::CheckpointStrategySet(e) => event.writes(at, found) == e.writes(at),
            RuntimeEvent::CredentialStored(e) => event.writes(at, found) == e.writes(at),
            RuntimeEvent::CredentialRevoked(e) => event.writes(at, found) == e.writes(at),
            RuntimeEvent::CredentialKeyRotated(e) => event.writes(at, found) == e.writes(at),
            RuntimeEvent::EvalDatasetCreated(e) => event.writes(at, found) == e.writes(at),
            RuntimeEvent::EvalDatasetEntryAdded(e) => event.writes(at, found) == e.writes(at),
            RuntimeEvent::EvalRubricCreated(e) => event.writes(at, found) == e.writes(at),
            RuntimeEvent::EvalBaselineSet(e) => event.writes(at, found) == e.writes(at),
            RuntimeEvent::EvalBaselineLocked(e) => event.writes(at, found) == e.writes(at),
            RuntimeEvent::GuardrailPolicyCreated(e) => event.writes(at, found) == e.writes(at),
            RuntimeEvent::GuardrailPolicyEvaluated(e) => event.writes(at, found) == e.writes(at),
            RuntimeEvent::OperatorProfileCreated(e) => event.writes(at, found) == e.writes(at),
            RuntimeEvent::OperatorProfileUpdated(e) => event.writes(at, found) == e.writes(at),
            RuntimeEvent::TenantRoleGranted(e) => event.writes(at, found) == e.writes(at),
            RuntimeEvent::TenantRoleRevoked(e) => event.writes(at, found) == e.writes(at),
            RuntimeEvent::ProviderBindingCreated(e) => event.writes(at, found) == e.writes(at),
            RuntimeEvent::ProviderBindingStateChanged(e) => event.writes(at, found) == e.writes(at),
            RuntimeEvent::ProviderBudgetAlertTriggered(e) => event.writes(at, found)
                == e.writes(at),
            RuntimeEvent::ProviderBudgetExceeded(e) => event.writes(at, found) == e.writes(at),
            RuntimeEvent::ProviderConnectionRegistered(e) => event.writes(at, found)
                == e.writes(at),
            RuntimeEvent::ProviderConnectionDeleted(e) => event.writes(at, found) == e.writes(at),
            RuntimeEvent::ResourceShared(e) => event.writes(at, found) == e.writes(at),
            RuntimeEvent::ResourceShareRevoked(e) => event.writes(at, found) == e.writes(at),
            RuntimeEvent::RoutePolicyUpdated(e) => event.writes(at, found) == e.writes(at),
            RuntimeEvent::ToolInvocationCacheHit(e) => event.writes(at, found) == e.writes(at),
            RuntimeEvent::ToolRecoveryPaused(e) => event.writes(at, found) == e.writes(at),
            RuntimeEvent::ToolInvocationProgressUpdated(e) => event.writes(at, found)
                == e.writes(at, found),
            RuntimeEvent::RecoverySummaryEmitted(e) => event.writes(at, found) == e.writes(at),
            RuntimeEvent::ToolCallProposed(e) => event.writes(at, found) == e.writes(at),
            RuntimeEvent::ToolCallAmended(e) => event.writes(at, found) == e.writes(at),
            RuntimeEvent::ToolCallApproved(e) => event.writes(at, found) == e.writes(at),
            RuntimeEvent::ToolCallRejected(e) => event.writes(at, found) == e.writes(at),
            RuntimeEvent::TenantCreated(e) => event.writes(at, found) == e.writes(at),
            RuntimeEvent::TenantUpdated(e) => event.writes(at, found) == e.writes(at),
            RuntimeEvent::WorkspaceCreated(e) => event.writes(at, found) == e.writes(at),
            RuntimeEvent::WorkspaceArchived(e) => event.writes(at, found) == e.writes(at),
            RuntimeEvent::ProjectCreated(e) => event.writes(at, found) == e.writes(at),
            RuntimeEvent::RoutePolicyCreated(e) => event.writes(at, found) == e.writes(at),
            RuntimeEvent::WorkspaceMemberAdded(e) => event.writes(at, found) == e.writes(at),
            RuntimeEvent::WorkspaceMemberRemoved(e) => event.writes(at, found) == e.writes(at),
            RuntimeEvent::PromptAssetCreated(e) => event.writes(at, found) == e.writes(at),
            RuntimeEvent::PromptVersionCreated(e) => event.writes(at, found) == e.writes(at, found),
            RuntimeEvent::PromptReleaseCreated(e) => event.writes(at, found) == e.writes(at),
            RuntimeEvent::PromptReleaseTransitioned(e) => event.writes(at, found) == e.writes(at),
            RuntimeEvent::RouteDecisionMade(e) => event.writes(at, found) == e.writes(at),
            RuntimeEvent::ProviderCallCompleted(e) => event.writes(at, found) == e.writes(found),
            RuntimeEvent::TriggerCreated(e) => event.writes(at, found) == e.writes(at),
            RuntimeEvent::TriggerEnabled(e) => event.writes(at, found) == e.writes(at),
            RuntimeEvent::TriggerDisabled(e) => event.writes(at, found) == e.writes(at),
            RuntimeEvent::TriggerSuspended(e) => event.writes(at, found) == e.writes(at),
            RuntimeEvent::TriggerResumed(e) => event.writes(at, found) == e.writes(at),
            RuntimeEvent::TriggerDeleted(e) => event.writes(at, found) == e.writes(at),
            RuntimeEvent::RunTemplateCreated(e) => event.writes(at, found) == e.writes(at),
            RuntimeEvent::RunTemplateDeleted(e) => event.writes(at, found) == e.writes(at),
            RuntimeEvent::TriggerFired(e) => event.writes(at, found) == e.writes(at),
            RuntimeEvent::TriggerSkipped(e) => event.writes(at, found) == e.writes(at),
            RuntimeEvent::TriggerDenied(e) => event.writes(at, found) == e.writes(at),
            RuntimeEvent::TriggerRateLimited(e) => event.writes(at, found) == e.writes(at),
            RuntimeEvent::TriggerPendingApproval(e) => event.writes(at, found) == e.writes(at),
            RuntimeEvent::SessionAttemptStarted(e) => event.writes(at, found) == e.writes(at),
            RuntimeEvent::CheckpointPersisted(e) => event.writes(at, found) == e.writes(at),
            RuntimeEvent::WorkspaceSnapshotCreated(e) => event.writes(at, found) == e.writes(at),
            RuntimeEvent::WorkspaceSnapshotReaped(e) => event.writes(at, found) == e.writes(at),
            RuntimeEvent::SessionOutcomeEmitted(e) => event.writes(at, found) == e.writes(at),
            RuntimeEvent::DecisionRecorded(e) => event.writes(at, found) == e.writes(at),
            RuntimeEvent::RunCompletionAnnotated(e) => event.writes(at, found) == e.writes(at),
            RuntimeEvent::TerminalRecoveryAttempted(e) => event.writes(at, found) == e.writes(at),
            RuntimeEvent::DecisionCacheWarmup(e) => event.writes(at, found) == e.writes(at),
            RuntimeEvent::LlmCompletionRecorded(e) => event.writes(at, found) == e.writes(at),
            RuntimeEvent::KnowledgeProviderConfigured(e) => event.writes(at, found) == e.writes(at),
            RuntimeEvent::KnowledgeProviderUnavailable(e) => event.writes(at, found)
                == e.writes(at),
            RuntimeEvent::KnowledgeProviderCapabilityChanged(e) => event.writes(at, found)
                == e.writes(at),
            RuntimeEvent::KnowledgeIngestSubmitted(e) => event.writes(at, found) == e.writes(at),
            RuntimeEvent::KnowledgeIngestRejected(e) => event.writes(at, found) == e.writes(at),
            RuntimeEvent::KnowledgeIngestStatusUpdated(e) => event.writes(at, found)
                == e.writes(at),
            _ => event.writes(at, found) == Planned::Writes(Seq::empty()),
        },
{
}

/// What is read before an event is projected: the project of the run that changed
/// its state, the project of the invocation that made progress, the versions of
/// the prompt asset that got a new one, and the session of the run that made a
/// call without a session. For no other event is anything read.
pub proof fn what_is_read_before_an_event(event: RuntimeEvent)
    ensures
        match event {
            RuntimeEvent::RunStateChanged(e) => event.reads_first() == Some(
                LookupView::RunScope { run_id: e.run_id@ },
            ),
            RuntimeEvent::ToolInvocationProgressUpdated(e) => event.reads_first() == Some(
                LookupView::InvocationScope { invocation_id: e.invocation_id@ },
            ),
            RuntimeEvent::PromptVersionCreated(e) => event.reads_first() == Some(
                LookupView::NextPromptVersion { prompt_asset_id: e.prompt_asset_id@ },
            ),
            RuntimeEvent::ProviderCallCompleted(e) => if e.session_id is None && e.run_id is Some {
                event.reads_first() == Some(
                    LookupView::RunSession { run_id: e.run_id->Some_0@ },
                )
            } else {
                event.reads_first() is None
            },
            _ => event.reads_first() is None,
        },
{
}

/// The queries that answer what is read before an event: the project or the
/// session of the run or invocation with the given id, and, for a new version of
/// a prompt asset, the asset, which is locked, and the number after its greatest
/// version.
pub proof fn how_a_lookup_is_answered(lookup: LookupView, db: Database, row: Row)
    ensures
        match lookup {
            LookupView::RunScope { run_id } => {
                let query = lookup.queries()[0];
                &&& lookup.queries().len() == 1
                &&& query.table == Table::Runs
                &&& query.output == OutputView::Rows(
                    seq![Column::TenantId, Column::WorkspaceId, Column::ProjectId],
                )
                &&& query.selects(db, row) <==> crate::model::value(row, Column::RunId)
                    == Datum::Text(run_id)
                &&& asks_for_all(query)
            },
            LookupView::InvocationScope { invocation_id } => {
                let query = lookup.queries()[0];
                &&& lookup.queries().len() == 1
                &&& query.table == Table::ToolInvocations
                &&& query.output == OutputView::Rows(
                    seq![Column::TenantId, Column::WorkspaceId, Column::ProjectId],
                )
                &&& query.selects(db, row) <==> crate::model::value(row, Column::InvocationId)
                    == Datum::Text(invocation_id)
                &&& asks_for_all(query)
            },
            LookupView::NextPromptVersion { prompt_asset_id } => {
                let asset = lookup.queries()[0];
                let version = lookup.queries()[1];
                &&& lookup.queries().len() == 2
                &&& asset.table == Table::PromptAssets
                &&& asset.output == OutputView::Locked(Column::PromptAssetId)
                &&& asset.selects(db, row) <==> crate::model::value(row, Column::PromptAssetId)
                    == Datum::Text(prompt_asset_id)
                &&& version.table == Table::PromptVersions
                &&& version.output == OutputView::NextAfterGreatest(Column::VersionNumber)
                &&& version.selects(db, row) <==> crate::model::value(row, Column::PromptAssetId)
                    == Datum::Text(prompt_asset_id)
                &&& asks_for_all(asset)
                &&& asks_for_all(version)
            },
            LookupView::RunSession { run_id } => {
                let query = lookup.queries()[0];
                &&& lookup.queries().len() == 1
                &&& query.table == Table::Runs
                &&& query.output == OutputView::Rows(seq![Column::SessionId])
                &&& query.selects(db, row) <==> crate::model::value(row, Column::RunId)
                    == Datum::Text(run_id)
                &&& asks_for_all(query)
            },
        },
{
    broadcast use group_queries;
}

/// Whether a query asks for all rows that it selects, in no order.
pub open spec fn asks_for_all(query: QueryView) -> bool {
    query.order.len() == 0 && query.limit is None && query.offset is None
}

} // verus!
