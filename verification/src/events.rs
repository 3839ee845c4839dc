//! The events of the runtime, and what projecting one means.

use crate::error::StoreError;
use crate::plan::{none, Found, Moment, Planned};
use crate::projections::approvals::{
    ApprovalDelegated, ApprovalRequested, ApprovalResolved, PlanApproved, PlanProposed,
    PlanRejected, PlanRevisionRequested, ToolCallAmended, ToolCallApproved, ToolCallProposed,
    ToolCallRejected,
};
use crate::projections::checkpoints::{
    CheckpointPersisted, CheckpointRecorded, CheckpointStrategySet, WorkspaceSnapshotCreated,
    WorkspaceSnapshotReaped,
};
use crate::projections::costs::{
    RunCostAlertSet, RunCostAlertTriggered, RunCostUpdated, SessionCostUpdated,
};
use crate::projections::evals::{
    EvalBaselineLocked, EvalBaselineSet, EvalDatasetCreated, EvalDatasetEntryAdded,
    EvalRubricCreated, EvalRubricScored, EvalRunArchived, EvalRunCompleted, EvalRunScored,
    EvalRunStarted, OutcomeRecorded,
};
use crate::projections::knowledge::{
    IngestJobCompleted, IngestJobStarted, KnowledgeIngestRejected, KnowledgeIngestStatusUpdated,
    KnowledgeIngestSubmitted, KnowledgeProviderCapabilityChanged, KnowledgeProviderConfigured,
    KnowledgeProviderUnavailable, SoulPatchApplied, SoulPatchProposed,
};
use crate::projections::messages::{
    ChannelCreated, ChannelMessageConsumed, ChannelMessageSent, MailboxMessageAppended,
    NotificationPreferenceSet, NotificationSent, SignalIngested,
};
use crate::projections::policies::{
    AuditLogEntryRecorded, CredentialKeyRotated, CredentialRevoked, CredentialStored,
    GuardrailPolicyCreated, GuardrailPolicyEvaluated,
};
use crate::projections::prompts::{
    PromptAssetCreated, PromptReleaseCreated, PromptReleaseTransitioned, PromptVersionCreated,
};
use crate::projections::providers::{
    ProviderBindingCreated, ProviderBindingStateChanged, ProviderBudgetAlertTriggered,
    ProviderBudgetExceeded, ProviderBudgetSet, ProviderCallCompleted, ProviderConnectionDeleted,
    ProviderConnectionRegistered, RouteDecisionMade, RoutePolicyCreated, RoutePolicyUpdated,
};
use crate::projections::recovery::{
    DecisionCacheWarmup, DecisionRecorded, RecoveryAttempted, RecoveryCompleted,
    RecoverySummaryEmitted,
};
use crate::projections::runs::{
    RunCompletionAnnotated, RunCreated, RunStateChanged, SubagentSpawned,
    TerminalRecoveryAttempted,
};
use crate::projections::sessions::{
    LlmCompletionRecorded, SessionAttemptStarted, SessionCreated, SessionOutcomeEmitted,
    SessionStateChanged, UserMessageAppended,
};
use crate::projections::tasks::{
    ExternalWorkerReactivated, ExternalWorkerRegistered, ExternalWorkerReported,
    ExternalWorkerSuspended, ScheduledTaskCreated, TaskCreated, TaskLeaseClaimed,
    TaskLeaseHeartbeated, TaskStateChanged,
};
use crate::projections::tenants::{
    DefaultSettingCleared, DefaultSettingSet, EntitlementOverrideSet, LicenseActivated,
    OperatorProfileCreated, OperatorProfileUpdated, ProjectCreated, ResourceShareRevoked,
    ResourceShared, RetentionPolicySet, TenantCreated, TenantQuotaSet, TenantQuotaViolated,
    TenantRoleGranted, TenantRoleRevoked, TenantUpdated, WorkspaceArchived, WorkspaceCreated,
    WorkspaceMemberAdded, WorkspaceMemberRemoved,
};
use crate::projections::tools::{
    ToolInvocationCacheHit, ToolInvocationCompleted, ToolInvocationFailed,
    ToolInvocationProgressUpdated, ToolInvocationStarted, ToolRecoveryPaused,
};
use crate::projections::triggers::{
    RunTemplateCreated, RunTemplateDeleted, TriggerCreated, TriggerDeleted, TriggerDenied,
    TriggerDisabled, TriggerEnabled, TriggerFired, TriggerPendingApproval, TriggerRateLimited,
    TriggerResumed, TriggerSkipped, TriggerSuspended,
};
use crate::statement::Statement;
use vstd::prelude::*;

verus! {

/// A runtime event. An event that carries nothing here writes nothing to the
/// projection tables: the event log is all that keeps it.
#[derive(Debug, PartialEq, Eq)]
pub enum RuntimeEvent {
    SessionCreated(SessionCreated),
    SessionStateChanged(SessionStateChanged),
    RunCreated(RunCreated),
    RunStateChanged(RunStateChanged),
    TaskCreated(TaskCreated),
    TaskLeaseClaimed(TaskLeaseClaimed),
    TaskLeaseHeartbeated(TaskLeaseHeartbeated),
    TaskStateChanged(TaskStateChanged),
    ApprovalRequested(ApprovalRequested),
    ApprovalResolved(ApprovalResolved),
    CheckpointRecorded(CheckpointRecorded),
    CheckpointRestored,
    MailboxMessageAppended(MailboxMessageAppended),
    ToolInvocationStarted(ToolInvocationStarted),
    ToolInvocationCompleted(ToolInvocationCompleted),
    ToolInvocationFailed(ToolInvocationFailed),
    ExternalWorkerRegistered(ExternalWorkerRegistered),
    ExternalWorkerSuspended(ExternalWorkerSuspended),
    ExternalWorkerReactivated(ExternalWorkerReactivated),
    ExternalWorkerReported(ExternalWorkerReported),
    SoulPatchProposed(SoulPatchProposed),
    SoulPatchApplied(SoulPatchApplied),
    SessionCostUpdated(SessionCostUpdated),
    RunCostUpdated(RunCostUpdated),
    SpendAlertTriggered,
    SubagentSpawned(SubagentSpawned),
    RecoveryAttempted(RecoveryAttempted),
    RecoveryCompleted(RecoveryCompleted),
    SignalIngested(SignalIngested),
    UserMessageAppended(UserMessageAppended),
    IngestJobStarted(IngestJobStarted),
    IngestJobCompleted(IngestJobCompleted),
    EvalRunStarted(EvalRunStarted),
    EvalRunCompleted(EvalRunCompleted),
    EvalRunArchived(EvalRunArchived),
    EvalRunScored(EvalRunScored),
    EvalRubricScored(EvalRubricScored),
    OutcomeRecorded(OutcomeRecorded),
    ScheduledTaskCreated(ScheduledTaskCreated),
    PlanProposed(PlanProposed),
    PlanApproved(PlanApproved),
    PlanRejected(PlanRejected),
    PlanRevisionRequested(PlanRevisionRequested),
    ProviderBudgetSet(ProviderBudgetSet),
    ChannelCreated(ChannelCreated),
    ChannelMessageSent(ChannelMessageSent),
    ChannelMessageConsumed(ChannelMessageConsumed),
    DefaultSettingSet(DefaultSettingSet),
    DefaultSettingCleared(DefaultSettingCleared),
    LicenseActivated(LicenseActivated),
    EntitlementOverrideSet(EntitlementOverrideSet),
    NotificationPreferenceSet(NotificationPreferenceSet),
    NotificationSent(NotificationSent),
    ProviderPoolCreated,
    ProviderPoolConnectionAdded,
    ProviderPoolConnectionRemoved,
    TenantQuotaSet(TenantQuotaSet),
    TenantQuotaViolated(TenantQuotaViolated),
    RetentionPolicySet(RetentionPolicySet),
    RunCostAlertSet(RunCostAlertSet),
    RunCostAlertTriggered(RunCostAlertTriggered),
    ApprovalDelegated(ApprovalDelegated),
    AuditLogEntryRecorded(AuditLogEntryRecorded),
    CheckpointStrategySet(CheckpointStrategySet),
    CredentialStored(CredentialStored),
    CredentialRevoked(CredentialRevoked),
    CredentialKeyRotated(CredentialKeyRotated),
    EvalDatasetCreated(EvalDatasetCreated),
    EvalDatasetEntryAdded(EvalDatasetEntryAdded),
    EvalRubricCreated(EvalRubricCreated),
    EvalBaselineSet(EvalBaselineSet),
    EvalBaselineLocked(EvalBaselineLocked),
    EventLogCompacted,
    GuardrailPolicyCreated(GuardrailPolicyCreated),
    GuardrailPolicyEvaluated(GuardrailPolicyEvaluated),
    OperatorIntervention,
    OperatorProfileCreated(OperatorProfileCreated),
    OperatorProfileUpdated(OperatorProfileUpdated),
    TenantRoleGranted(TenantRoleGranted),
    TenantRoleRevoked(TenantRoleRevoked),
    PauseScheduled,
    PermissionDecisionRecorded,
    ProviderBindingCreated(ProviderBindingCreated),
    ProviderBindingStateChanged(ProviderBindingStateChanged),
    ProviderBudgetAlertTriggered(ProviderBudgetAlertTriggered),
    ProviderBudgetExceeded(ProviderBudgetExceeded),
    ProviderConnectionRegistered(ProviderConnectionRegistered),
    ProviderConnectionDeleted(ProviderConnectionDeleted),
    ProviderHealthChecked,
    ProviderHealthScheduleSet,
    ProviderHealthScheduleTriggered,
    ProviderMarkedDegraded,
    ProviderModelRegistered,
    ProviderRecovered,
    ProviderRetryPolicySet,
    RecoveryEscalated,
    ResourceShared(ResourceShared),
    ResourceShareRevoked(ResourceShareRevoked),
    RoutePolicyUpdated(RoutePolicyUpdated),
    ToolInvocationCacheHit(ToolInvocationCacheHit),
    ToolRecoveryPaused(ToolRecoveryPaused),
    ToolInvocationProgressUpdated(ToolInvocationProgressUpdated),
    RecoverySummaryEmitted(RecoverySummaryEmitted),
    ToolCallProposed(ToolCallProposed),
    ToolCallAmended(ToolCallAmended),
    ToolCallApproved(ToolCallApproved),
    ToolCallRejected(ToolCallRejected),
    TenantCreated(TenantCreated),
    TenantUpdated(TenantUpdated),
    WorkspaceCreated(WorkspaceCreated),
    WorkspaceArchived(WorkspaceArchived),
    ProjectCreated(ProjectCreated),
    RoutePolicyCreated(RoutePolicyCreated),
    WorkspaceMemberAdded(WorkspaceMemberAdded),
    WorkspaceMemberRemoved(WorkspaceMemberRemoved),
    PromptAssetCreated(PromptAssetCreated),
    PromptVersionCreated(PromptVersionCreated),
    PromptReleaseCreated(PromptReleaseCreated),
    PromptReleaseTransitioned(PromptReleaseTransitioned),
    RouteDecisionMade(RouteDecisionMade),
    ProviderCallCompleted(ProviderCallCompleted),
    RunSlaBreached,
    RunSlaSet,
    SignalRouted,
    SignalSubscriptionCreated,
    SnapshotCreated,
    TaskDependencyAdded,
    TaskDependencyResolved,
    TaskLeaseExpired,
    TaskPriorityChanged,
    ApprovalPolicyCreated,
    PromptRolloutStarted,
    TriggerCreated(TriggerCreated),
    TriggerEnabled(TriggerEnabled),
    TriggerDisabled(TriggerDisabled),
    TriggerSuspended(TriggerSuspended),
    TriggerResumed(TriggerResumed),
    TriggerDeleted(TriggerDeleted),
    RunTemplateCreated(RunTemplateCreated),
    RunTemplateDeleted(RunTemplateDeleted),
    TriggerFired(TriggerFired),
    TriggerSkipped(TriggerSkipped),
    TriggerDenied(TriggerDenied),
    TriggerRateLimited(TriggerRateLimited),
    TriggerPendingApproval(TriggerPendingApproval),
    SessionAttemptCompleted,
    CircuitBreakerTripped,
    BudgetThresholdCrossed,
    OrchestratorDecisionMade,
    SummarizerFallback,
    WorkspaceBackendDegraded,
    SessionAttemptStarted(SessionAttemptStarted),
    CheckpointPersisted(CheckpointPersisted),
    WorkspaceSnapshotCreated(WorkspaceSnapshotCreated),
    WorkspaceSnapshotReaped(WorkspaceSnapshotReaped),
    SessionOutcomeEmitted(SessionOutcomeEmitted),
    DecisionRecorded(DecisionRecorded),
    RunCompletionAnnotated(RunCompletionAnnotated),
    TerminalRecoveryAttempted(TerminalRecoveryAttempted),
    DecisionCacheWarmup(DecisionCacheWarmup),
    SandboxCrashRecovered,
    LlmCompletionRecorded(LlmCompletionRecorded),
    KnowledgeProviderConfigured(KnowledgeProviderConfigured),
    KnowledgeProviderUnavailable(KnowledgeProviderUnavailable),
    KnowledgeProviderCapabilityChanged(KnowledgeProviderCapabilityChanged),
    KnowledgeIngestSubmitted(KnowledgeIngestSubmitted),
    KnowledgeIngestRejected(KnowledgeIngestRejected),
    KnowledgeIngestStatusUpdated(KnowledgeIngestStatusUpdated),
}

/// What has to be read before an event can be projected.
#[derive(Debug, PartialEq, Eq)]
pub enum Lookup {
    /// The project of a run.
    RunScope { run_id: String },
    /// The project of a tool invocation.
    InvocationScope { invocation_id: String },
    /// The number after the greatest version of a prompt asset, whose row is
    /// locked so that two versions do not get one number.
    NextPromptVersion { prompt_asset_id: String },
    /// The session of a run.
    RunSession { run_id: String },
}

/// The mathematical value of a [`Lookup`].
pub enum LookupView {
    RunScope { run_id: Seq<char> },
    InvocationScope { invocation_id: Seq<char> },
    NextPromptVersion { prompt_asset_id: Seq<char> },
    RunSession { run_id: Seq<char> },
}

impl View for Lookup {
    type V = LookupView;

    open spec fn view(&self) -> LookupView {
        match self {
            Lookup::RunScope { run_id } => LookupView::RunScope { run_id: run_id@ },
            Lookup::InvocationScope { invocation_id } => LookupView::InvocationScope {
                invocation_id: invocation_id@,
            },
            Lookup::NextPromptVersion { prompt_asset_id } => LookupView::NextPromptVersion {
                prompt_asset_id: prompt_asset_id@,
            },
            Lookup::RunSession { run_id } => LookupView::RunSession { run_id: run_id@ },
        }
    }
}

impl RuntimeEvent {
    /// The name of the variant.
    pub open spec fn spec_variant(self) -> Seq<char> {
        match self {
            RuntimeEvent::SessionCreated(_) => "SessionCreated"@,
            RuntimeEvent::SessionStateChanged(_) => "SessionStateChanged"@,
            RuntimeEvent::RunCreated(_) => "RunCreated"@,
            RuntimeEvent::RunStateChanged(_) => "RunStateChanged"@,
            RuntimeEvent::TaskCreated(_) => "TaskCreated"@,
            RuntimeEvent::TaskLeaseClaimed(_) => "TaskLeaseClaimed"@,
            RuntimeEvent::TaskLeaseHeartbeated(_) => "TaskLeaseHeartbeated"@,
            RuntimeEvent::TaskStateChanged(_) => "TaskStateChanged"@,
            RuntimeEvent::ApprovalRequested(_) => "ApprovalRequested"@,
            RuntimeEvent::ApprovalResolved(_) => "ApprovalResolved"@,
            RuntimeEvent::CheckpointRecorded(_) => "CheckpointRecorded"@,
            RuntimeEvent::CheckpointRestored => "CheckpointRestored"@,
            RuntimeEvent::MailboxMessageAppended(_) => "MailboxMessageAppended"@,
            RuntimeEvent::ToolInvocationStarted(_) => "ToolInvocationStarted"@,
            RuntimeEvent::ToolInvocationCompleted(_) => "ToolInvocationCompleted"@,
            RuntimeEvent::ToolInvocationFailed(_) => "ToolInvocationFailed"@,
            RuntimeEvent::ExternalWorkerRegistered(_) => "ExternalWorkerRegistered"@,
            RuntimeEvent::ExternalWorkerSuspended(_) => "ExternalWorkerSuspended"@,
            RuntimeEvent::ExternalWorkerReactivated(_) => "ExternalWorkerReactivated"@,
            RuntimeEvent::ExternalWorkerReported(_) => "ExternalWorkerReported"@,
            RuntimeEvent::SoulPatchProposed(_) => "SoulPatchProposed"@,
            RuntimeEvent::SoulPatchApplied(_) => "SoulPatchApplied"@,
            RuntimeEvent::SessionCostUpdated(_) => "SessionCostUpdated"@,
            RuntimeEvent::RunCostUpdated(_) => "RunCostUpdated"@,
            RuntimeEvent::SpendAlertTriggered => "SpendAlertTriggered"@,
            RuntimeEvent::SubagentSpawned(_) => "SubagentSpawned"@,
            RuntimeEvent::RecoveryAttempted(_) => "RecoveryAttempted"@,
            RuntimeEvent::RecoveryCompleted(_) => "RecoveryCompleted"@,
            RuntimeEvent::SignalIngested(_) => "SignalIngested"@,
            RuntimeEvent::UserMessageAppended(_) => "UserMessageAppended"@,
            RuntimeEvent::IngestJobStarted(_) => "IngestJobStarted"@,
            RuntimeEvent::IngestJobCompleted(_) => "IngestJobCompleted"@,
            RuntimeEvent::EvalRunStarted(_) => "EvalRunStarted"@,
            RuntimeEvent::EvalRunCompleted(_) => "EvalRunCompleted"@,
            RuntimeEvent::EvalRunArchived(_) => "EvalRunArchived"@,
            RuntimeEvent::EvalRunScored(_) => "EvalRunScored"@,
            RuntimeEvent::EvalRubricScored(_) => "EvalRubricScored"@,
            RuntimeEvent::OutcomeRecorded(_) => "OutcomeRecorded"@,
            RuntimeEvent::ScheduledTaskCreated(_) => "ScheduledTaskCreated"@,
            RuntimeEvent::PlanProposed(_) => "PlanProposed"@,
            RuntimeEvent::PlanApproved(_) => "PlanApproved"@,
            RuntimeEvent::PlanRejected(_) => "PlanRejected"@,
            RuntimeEvent::PlanRevisionRequested(_) => "PlanRevisionRequested"@,
            RuntimeEvent::ProviderBudgetSet(_) => "ProviderBudgetSet"@,
            RuntimeEvent::ChannelCreated(_) => "ChannelCreated"@,
            RuntimeEvent::ChannelMessageSent(_) => "ChannelMessageSent"@,
            RuntimeEvent::ChannelMessageConsumed(_) => "ChannelMessageConsumed"@,
            RuntimeEvent::DefaultSettingSet(_) => "DefaultSettingSet"@,
            RuntimeEvent::DefaultSettingCleared(_) => "DefaultSettingCleared"@,
            RuntimeEvent::LicenseActivated(_) => "LicenseActivated"@,
            RuntimeEvent::EntitlementOverrideSet(_) => "EntitlementOverrideSet"@,
            RuntimeEvent::NotificationPreferenceSet(_) => "NotificationPreferenceSet"@,
            RuntimeEvent::NotificationSent(_) => "NotificationSent"@,
            RuntimeEvent::ProviderPoolCreated => "ProviderPoolCreated"@,
            RuntimeEvent::ProviderPoolConnectionAdded => "ProviderPoolConnectionAdded"@,
            RuntimeEvent::ProviderPoolConnectionRemoved => "ProviderPoolConnectionRemoved"@,
            RuntimeEvent::TenantQuotaSet(_) => "TenantQuotaSet"@,
            RuntimeEvent::TenantQuotaViolated(_) => "TenantQuotaViolated"@,
            RuntimeEvent::RetentionPolicySet(_) => "RetentionPolicySet"@,
            RuntimeEvent::RunCostAlertSet(_) => "RunCostAlertSet"@,
            RuntimeEvent::RunCostAlertTriggered(_) => "RunCostAlertTriggered"@,
            RuntimeEvent::ApprovalDelegated(_) => "ApprovalDelegated"@,
            RuntimeEvent::AuditLogEntryRecorded(_) => "AuditLogEntryRecorded"@,
            RuntimeEvent::CheckpointStrategySet(_) => "CheckpointStrategySet"@,
            RuntimeEvent::CredentialStored(_) => "CredentialStored"@,
            RuntimeEvent::CredentialRevoked(_) => "CredentialRevoked"@,
            RuntimeEvent::CredentialKeyRotated(_) => "CredentialKeyRotated"@,
            RuntimeEvent::EvalDatasetCreated(_) => "EvalDatasetCreated"@,
            RuntimeEvent::EvalDatasetEntryAdded(_) => "EvalDatasetEntryAdded"@,
            RuntimeEvent::EvalRubricCreated(_) => "EvalRubricCreated"@,
            RuntimeEvent::EvalBaselineSet(_) => "EvalBaselineSet"@,
            RuntimeEvent::EvalBaselineLocked(_) => "EvalBaselineLocked"@,
            RuntimeEvent::EventLogCompacted => "EventLogCompacted"@,
            RuntimeEvent::GuardrailPolicyCreated(_) => "GuardrailPolicyCreated"@,
            RuntimeEvent::GuardrailPolicyEvaluated(_) => "GuardrailPolicyEvaluated"@,
            RuntimeEvent::OperatorIntervention => "OperatorIntervention"@,
            RuntimeEvent::OperatorProfileCreated(_) => "OperatorProfileCreated"@,
            RuntimeEvent::OperatorProfileUpdated(_) => "OperatorProfileUpdated"@,
            RuntimeEvent::TenantRoleGranted(_) => "TenantRoleGranted"@,
            RuntimeEvent::TenantRoleRevoked(_) => "TenantRoleRevoked"@,
            RuntimeEvent::PauseScheduled => "PauseScheduled"@,
            RuntimeEvent::PermissionDecisionRecorded => "PermissionDecisionRecorded"@,
            RuntimeEvent::ProviderBindingCreated(_) => "ProviderBindingCreated"@,
            RuntimeEvent::ProviderBindingStateChanged(_) => "ProviderBindingStateChanged"@,
            RuntimeEvent::ProviderBudgetAlertTriggered(_) => "ProviderBudgetAlertTriggered"@,
            RuntimeEvent::ProviderBudgetExceeded(_) => "ProviderBudgetExceeded"@,
            RuntimeEvent::ProviderConnectionRegistered(_) => "ProviderConnectionRegistered"@,
            RuntimeEvent::ProviderConnectionDeleted(_) => "ProviderConnectionDeleted"@,
            RuntimeEvent::ProviderHealthChecked => "ProviderHealthChecked"@,
            RuntimeEvent::ProviderHealthScheduleSet => "ProviderHealthScheduleSet"@,
            RuntimeEvent::ProviderHealthScheduleTriggered => "ProviderHealthScheduleTriggered"@,
            RuntimeEvent::ProviderMarkedDegraded => "ProviderMarkedDegraded"@,
            RuntimeEvent::ProviderModelRegistered => "ProviderModelRegistered"@,
            RuntimeEvent::ProviderRecovered => "ProviderRecovered"@,
            RuntimeEvent::ProviderRetryPolicySet => "ProviderRetryPolicySet"@,
            RuntimeEvent::RecoveryEscalated => "RecoveryEscalated"@,
            RuntimeEvent::ResourceShared(_) => "ResourceShared"@,
            RuntimeEvent::ResourceShareRevoked(_) => "ResourceShareRevoked"@,
            RuntimeEvent::RoutePolicyUpdated(_) => "RoutePolicyUpdated"@,
            RuntimeEvent::ToolInvocationCacheHit(_) => "ToolInvocationCacheHit"@,
            RuntimeEvent::ToolRecoveryPaused(_) => "ToolRecoveryPaused"@,
            RuntimeEvent::ToolInvocationProgressUpdated(_) => "ToolInvocationProgressUpdated"@,
            RuntimeEvent::RecoverySummaryEmitted(_) => "RecoverySummaryEmitted"@,
            RuntimeEvent::ToolCallProposed(_) => "ToolCallProposed"@,
            RuntimeEvent::ToolCallAmended(_) => "ToolCallAmended"@,
            RuntimeEvent::ToolCallApproved(_) => "ToolCallApproved"@,
            RuntimeEvent::ToolCallRejected(_) => "ToolCallRejected"@,
            RuntimeEvent::TenantCreated(_) => "TenantCreated"@,
            RuntimeEvent::TenantUpdated(_) => "TenantUpdated"@,
            RuntimeEvent::WorkspaceCreated(_) => "WorkspaceCreated"@,
            RuntimeEvent::WorkspaceArchived(_) => "WorkspaceArchived"@,
            RuntimeEvent::ProjectCreated(_) => "ProjectCreated"@,
            RuntimeEvent::RoutePolicyCreated(_) => "RoutePolicyCreated"@,
            RuntimeEvent::WorkspaceMemberAdded(_) => "WorkspaceMemberAdded"@,
            RuntimeEvent::WorkspaceMemberRemoved(_) => "WorkspaceMemberRemoved"@,
            RuntimeEvent::PromptAssetCreated(_) => "PromptAssetCreated"@,
            RuntimeEvent::PromptVersionCreated(_) => "PromptVersionCreated"@,
            RuntimeEvent::PromptReleaseCreated(_) => "PromptReleaseCreated"@,
            RuntimeEvent::PromptReleaseTransitioned(_) => "PromptReleaseTransitioned"@,
            RuntimeEvent::RouteDecisionMade(_) => "RouteDecisionMade"@,
            RuntimeEvent::ProviderCallCompleted(_) => "ProviderCallCompleted"@,
            RuntimeEvent::RunSlaBreached => "RunSlaBreached"@,
            RuntimeEvent::RunSlaSet => "RunSlaSet"@,
            RuntimeEvent::SignalRouted => "SignalRouted"@,
            RuntimeEvent::SignalSubscriptionCreated => "SignalSubscriptionCreated"@,
            RuntimeEvent::SnapshotCreated => "SnapshotCreated"@,
            RuntimeEvent::TaskDependencyAdded => "TaskDependencyAdded"@,
            RuntimeEvent::TaskDependencyResolved => "TaskDependencyResolved"@,
            RuntimeEvent::TaskLeaseExpired => "TaskLeaseExpired"@,
            RuntimeEvent::TaskPriorityChanged => "TaskPriorityChanged"@,
            RuntimeEvent::ApprovalPolicyCreated => "ApprovalPolicyCreated"@,
            RuntimeEvent::PromptRolloutStarted => "PromptRolloutStarted"@,
            RuntimeEvent::TriggerCreated(_) => "TriggerCreated"@,
            RuntimeEvent::TriggerEnabled(_) => "TriggerEnabled"@,
            RuntimeEvent::TriggerDisabled(_) => "TriggerDisabled"@,
            RuntimeEvent::TriggerSuspended(_) => "TriggerSuspended"@,
            RuntimeEvent::TriggerResumed(_) => "TriggerResumed"@,
            RuntimeEvent::TriggerDeleted(_) => "TriggerDeleted"@,
            RuntimeEvent::RunTemplateCreated(_) => "RunTemplateCreated"@,
            RuntimeEvent::RunTemplateDeleted(_) => "RunTemplateDeleted"@,
            RuntimeEvent::TriggerFired(_) => "TriggerFired"@,
            RuntimeEvent::TriggerSkipped(_) => "TriggerSkipped"@,
            RuntimeEvent::TriggerDenied(_) => "TriggerDenied"@,
            RuntimeEvent::TriggerRateLimited(_) => "TriggerRateLimited"@,
            RuntimeEvent::TriggerPendingApproval(_) => "TriggerPendingApproval"@,
            RuntimeEvent::SessionAttemptCompleted => "SessionAttemptCompleted"@,
            RuntimeEvent::CircuitBreakerTripped => "CircuitBreakerTripped"@,
            RuntimeEvent::BudgetThresholdCrossed => "BudgetThresholdCrossed"@,
            RuntimeEvent::OrchestratorDecisionMade => "OrchestratorDecisionMade"@,
            RuntimeEvent::SummarizerFallback => "SummarizerFallback"@,
            RuntimeEvent::WorkspaceBackendDegraded => "WorkspaceBackendDegraded"@,
            RuntimeEvent::SessionAttemptStarted(_) => "SessionAttemptStarted"@,
            RuntimeEvent::CheckpointPersisted(_) => "CheckpointPersisted"@,
            RuntimeEvent::WorkspaceSnapshotCreated(_) => "WorkspaceSnapshotCreated"@,
            RuntimeEvent::WorkspaceSnapshotReaped(_) => "WorkspaceSnapshotReaped"@,
            RuntimeEvent::SessionOutcomeEmitted(_) => "SessionOutcomeEmitted"@,
            RuntimeEvent::DecisionRecorded(_) => "DecisionRecorded"@,
            RuntimeEvent::RunCompletionAnnotated(_) => "RunCompletionAnnotated"@,
            RuntimeEvent::TerminalRecoveryAttempted(_) => "TerminalRecoveryAttempted"@,
            RuntimeEvent::DecisionCacheWarmup(_) => "DecisionCacheWarmup"@,
            RuntimeEvent::SandboxCrashRecovered => "SandboxCrashRecovered"@,
            RuntimeEvent::LlmCompletionRecorded(_) => "LlmCompletionRecorded"@,
            RuntimeEvent::KnowledgeProviderConfigured(_) => "KnowledgeProviderConfigured"@,
            RuntimeEvent::KnowledgeProviderUnavailable(_) => "KnowledgeProviderUnavailable"@,
            RuntimeEvent::KnowledgeProviderCapabilityChanged(
                _,
            ) => "KnowledgeProviderCapabilityChanged"@,
            RuntimeEvent::KnowledgeIngestSubmitted(_) => "KnowledgeIngestSubmitted"@,
            RuntimeEvent::KnowledgeIngestRejected(_) => "KnowledgeIngestRejected"@,
            RuntimeEvent::KnowledgeIngestStatusUpdated(_) => "KnowledgeIngestStatusUpdated"@,
        }
    }

    /// The name of the variant.
    pub fn variant(&self) -> (r: &'static str)
        ensures
            r@ == self.spec_variant(),
    {
        match self {
            RuntimeEvent::SessionCreated(_) => "SessionCreated",
            RuntimeEvent::SessionStateChanged(_) => "SessionStateChanged",
            RuntimeEvent::RunCreated(_) => "RunCreated",
            RuntimeEvent::RunStateChanged(_) => "RunStateChanged",
            RuntimeEvent::TaskCreated(_) => "TaskCreated",
            RuntimeEvent::TaskLeaseClaimed(_) => "TaskLeaseClaimed",
            RuntimeEvent::TaskLeaseHeartbeated(_) => "TaskLeaseHeartbeated",
            RuntimeEvent::TaskStateChanged(_) => "TaskStateChanged",
            RuntimeEvent::ApprovalRequested(_) => "ApprovalRequested",
            RuntimeEvent::ApprovalResolved(_) => "ApprovalResolved",
            RuntimeEvent::CheckpointRecorded(_) => "CheckpointRecorded",
            RuntimeEvent::CheckpointRestored => "CheckpointRestored",
            RuntimeEvent::MailboxMessageAppended(_) => "MailboxMessageAppended",
            RuntimeEvent::ToolInvocationStarted(_) => "ToolInvocationStarted",
            RuntimeEvent::ToolInvocationCompleted(_) => "ToolInvocationCompleted",
            RuntimeEvent::ToolInvocationFailed(_) => "ToolInvocationFailed",
            RuntimeEvent::ExternalWorkerRegistered(_) => "ExternalWorkerRegistered",
            RuntimeEvent::ExternalWorkerSuspended(_) => "ExternalWorkerSuspended",
            RuntimeEvent::ExternalWorkerReactivated(_) => "ExternalWorkerReactivated",
            RuntimeEvent::ExternalWorkerReported(_) => "ExternalWorkerReported",
            RuntimeEvent::SoulPatchProposed(_) => "SoulPatchProposed",
            RuntimeEvent::SoulPatchApplied(_) => "SoulPatchApplied",
            RuntimeEvent::SessionCostUpdated(_) => "SessionCostUpdated",
            RuntimeEvent::RunCostUpdated(_) => "RunCostUpdated",
            RuntimeEvent::SpendAlertTriggered => "SpendAlertTriggered",
            RuntimeEvent::SubagentSpawned(_) => "SubagentSpawned",
            RuntimeEvent::RecoveryAttempted(_) => "RecoveryAttempted",
            RuntimeEvent::RecoveryCompleted(_) => "RecoveryCompleted",
            RuntimeEvent::SignalIngested(_) => "SignalIngested",
            RuntimeEvent::UserMessageAppended(_) => "UserMessageAppended",
            RuntimeEvent::IngestJobStarted(_) => "IngestJobStarted",
            RuntimeEvent::IngestJobCompleted(_) => "IngestJobCompleted",
            RuntimeEvent::EvalRunStarted(_) => "EvalRunStarted",
            RuntimeEvent::EvalRunCompleted(_) => "EvalRunCompleted",
            RuntimeEvent::EvalRunArchived(_) => "EvalRunArchived",
            RuntimeEvent::EvalRunScored(_) => "EvalRunScored",
            RuntimeEvent::EvalRubricScored(_) => "EvalRubricScored",
            RuntimeEvent::OutcomeRecorded(_) => "OutcomeRecorded",
            RuntimeEvent::ScheduledTaskCreated(_) => "ScheduledTaskCreated",
            RuntimeEvent::PlanProposed(_) => "PlanProposed",
            RuntimeEvent::PlanApproved(_) => "PlanApproved",
            RuntimeEvent::PlanRejected(_) => "PlanRejected",
            RuntimeEvent::PlanRevisionRequested(_) => "PlanRevisionRequested",
            RuntimeEvent::ProviderBudgetSet(_) => "ProviderBudgetSet",
            RuntimeEvent::ChannelCreated(_) => "ChannelCreated",
            RuntimeEvent::ChannelMessageSent(_) => "ChannelMessageSent",
            RuntimeEvent::ChannelMessageConsumed(_) => "ChannelMessageConsumed",
            RuntimeEvent::DefaultSettingSet(_) => "DefaultSettingSet",
            RuntimeEvent::DefaultSettingCleared(_) => "DefaultSettingCleared",
            RuntimeEvent::LicenseActivated(_) => "LicenseActivated",
            RuntimeEvent::EntitlementOverrideSet(_) => "EntitlementOverrideSet",
            RuntimeEvent::NotificationPreferenceSet(_) => "NotificationPreferenceSet",
            RuntimeEvent::NotificationSent(_) => "NotificationSent",
            RuntimeEvent::ProviderPoolCreated => "ProviderPoolCreated",
            RuntimeEvent::ProviderPoolConnectionAdded => "ProviderPoolConnectionAdded",
            RuntimeEvent::ProviderPoolConnectionRemoved => "ProviderPoolConnectionRemoved",
            RuntimeEvent::TenantQuotaSet(_) => "TenantQuotaSet",
            RuntimeEvent::TenantQuotaViolated(_) => "TenantQuotaViolated",
            RuntimeEvent::RetentionPolicySet(_) => "RetentionPolicySet",
            RuntimeEvent::RunCostAlertSet(_) => "RunCostAlertSet",
            RuntimeEvent::RunCostAlertTriggered(_) => "RunCostAlertTriggered",
            RuntimeEvent::ApprovalDelegated(_) => "ApprovalDelegated",
            RuntimeEvent::AuditLogEntryRecorded(_) => "AuditLogEntryRecorded",
            RuntimeEvent::CheckpointStrategySet(_) => "CheckpointStrategySet",
            RuntimeEvent::CredentialStored(_) => "CredentialStored",
            RuntimeEvent::CredentialRevoked(_) => "CredentialRevoked",
            RuntimeEvent::CredentialKeyRotated(_) => "CredentialKeyRotated",
            RuntimeEvent::EvalDatasetCreated(_) => "EvalDatasetCreated",
            RuntimeEvent::EvalDatasetEntryAdded(_) => "EvalDatasetEntryAdded",
            RuntimeEvent::EvalRubricCreated(_) => "EvalRubricCreated",
            RuntimeEvent::EvalBaselineSet(_) => "EvalBaselineSet",
            RuntimeEvent::EvalBaselineLocked(_) => "EvalBaselineLocked",
            RuntimeEvent::EventLogCompacted => "EventLogCompacted",
            RuntimeEvent::GuardrailPolicyCreated(_) => "GuardrailPolicyCreated",
            RuntimeEvent::GuardrailPolicyEvaluated(_) => "GuardrailPolicyEvaluated",
            RuntimeEvent::OperatorIntervention => "OperatorIntervention",
            RuntimeEvent::OperatorProfileCreated(_) => "OperatorProfileCreated",
            RuntimeEvent::OperatorProfileUpdated(_) => "OperatorProfileUpdated",
            RuntimeEvent::TenantRoleGranted(_) => "TenantRoleGranted",
            RuntimeEvent::TenantRoleRevoked(_) => "TenantRoleRevoked",
            RuntimeEvent::PauseScheduled => "PauseScheduled",
            RuntimeEvent::PermissionDecisionRecorded => "PermissionDecisionRecorded",
            RuntimeEvent::ProviderBindingCreated(_) => "ProviderBindingCreated",
            RuntimeEvent::ProviderBindingStateChanged(_) => "ProviderBindingStateChanged",
            RuntimeEvent::ProviderBudgetAlertTriggered(_) => "ProviderBudgetAlertTriggered",
            RuntimeEvent::ProviderBudgetExceeded(_) => "ProviderBudgetExceeded",
            RuntimeEvent::ProviderConnectionRegistered(_) => "ProviderConnectionRegistered",
            RuntimeEvent::ProviderConnectionDeleted(_) => "ProviderConnectionDeleted",
            RuntimeEvent::ProviderHealthChecked => "ProviderHealthChecked",
            RuntimeEvent::ProviderHealthScheduleSet => "ProviderHealthScheduleSet",
            RuntimeEvent::ProviderHealthScheduleTriggered => "ProviderHealthScheduleTriggered",
            RuntimeEvent::ProviderMarkedDegraded => "ProviderMarkedDegraded",
            RuntimeEvent::ProviderModelRegistered => "ProviderModelRegistered",
            RuntimeEvent::ProviderRecovered => "ProviderRecovered",
            RuntimeEvent::ProviderRetryPolicySet => "ProviderRetryPolicySet",
            RuntimeEvent::RecoveryEscalated => "RecoveryEscalated",
            RuntimeEvent::ResourceShared(_) => "ResourceShared",
            RuntimeEvent::ResourceShareRevoked(_) => "ResourceShareRevoked",
            RuntimeEvent::RoutePolicyUpdated(_) => "RoutePolicyUpdated",
            RuntimeEvent::ToolInvocationCacheHit(_) => "ToolInvocationCacheHit",
            RuntimeEvent::ToolRecoveryPaused(_) => "ToolRecoveryPaused",
            RuntimeEvent::ToolInvocationProgressUpdated(_) => "ToolInvocationProgressUpdated",
            RuntimeEvent::RecoverySummaryEmitted(_) => "RecoverySummaryEmitted",
            RuntimeEvent::ToolCallProposed(_) => "ToolCallProposed",
            RuntimeEvent::ToolCallAmended(_) => "ToolCallAmended",
            RuntimeEvent::ToolCallApproved(_) => "ToolCallApproved",
            RuntimeEvent::ToolCallRejected(_) => "ToolCallRejected",
            RuntimeEvent::TenantCreated(_) => "TenantCreated",
            RuntimeEvent::TenantUpdated(_) => "TenantUpdated",
            RuntimeEvent::WorkspaceCreated(_) => "WorkspaceCreated",
            RuntimeEvent::WorkspaceArchived(_) => "WorkspaceArchived",
            RuntimeEvent::ProjectCreated(_) => "ProjectCreated",
            RuntimeEvent::RoutePolicyCreated(_) => "RoutePolicyCreated",
            RuntimeEvent::WorkspaceMemberAdded(_) => "WorkspaceMemberAdded",
            RuntimeEvent::WorkspaceMemberRemoved(_) => "WorkspaceMemberRemoved",
            RuntimeEvent::PromptAssetCreated(_) => "PromptAssetCreated",
            RuntimeEvent::PromptVersionCreated(_) => "PromptVersionCreated",
            RuntimeEvent::PromptReleaseCreated(_) => "PromptReleaseCreated",
            RuntimeEvent::PromptReleaseTransitioned(_) => "PromptReleaseTransitioned",
            RuntimeEvent::RouteDecisionMade(_) => "RouteDecisionMade",
            RuntimeEvent::ProviderCallCompleted(_) => "ProviderCallCompleted",
            RuntimeEvent::RunSlaBreached => "RunSlaBreached",
            RuntimeEvent::RunSlaSet => "RunSlaSet",
            RuntimeEvent::SignalRouted => "SignalRouted",
            RuntimeEvent::SignalSubscriptionCreated => "SignalSubscriptionCreated",
            RuntimeEvent::SnapshotCreated => "SnapshotCreated",
            RuntimeEvent::TaskDependencyAdded => "TaskDependencyAdded",
            RuntimeEvent::TaskDependencyResolved => "TaskDependencyResolved",
            RuntimeEvent::TaskLeaseExpired => "TaskLeaseExpired",
            RuntimeEvent::TaskPriorityChanged => "TaskPriorityChanged",
            RuntimeEvent::ApprovalPolicyCreated => "ApprovalPolicyCreated",
            RuntimeEvent::PromptRolloutStarted => "PromptRolloutStarted",
            RuntimeEvent::TriggerCreated(_) => "TriggerCreated",
            RuntimeEvent::TriggerEnabled(_) => "TriggerEnabled",
            RuntimeEvent::TriggerDisabled(_) => "TriggerDisabled",
            RuntimeEvent::TriggerSuspended(_) => "TriggerSuspended",
            RuntimeEvent::TriggerResumed(_) => "TriggerResumed",
            RuntimeEvent::TriggerDeleted(_) => "TriggerDeleted",
            RuntimeEvent::RunTemplateCreated(_) => "RunTemplateCreated",
            RuntimeEvent::RunTemplateDeleted(_) => "RunTemplateDeleted",
            RuntimeEvent::TriggerFired(_) => "TriggerFired",
            RuntimeEvent::TriggerSkipped(_) => "TriggerSkipped",
            RuntimeEvent::TriggerDenied(_) => "TriggerDenied",
            RuntimeEvent::TriggerRateLimited(_) => "TriggerRateLimited",
            RuntimeEvent::TriggerPendingApproval(_) => "TriggerPendingApproval",
            RuntimeEvent::SessionAttemptCompleted => "SessionAttemptCompleted",
            RuntimeEvent::CircuitBreakerTripped => "CircuitBreakerTripped",
            RuntimeEvent::BudgetThresholdCrossed => "BudgetThresholdCrossed",
            RuntimeEvent::OrchestratorDecisionMade => "OrchestratorDecisionMade",
            RuntimeEvent::SummarizerFallback => "SummarizerFallback",
            RuntimeEvent::WorkspaceBackendDegraded => "WorkspaceBackendDegraded",
            RuntimeEvent::SessionAttemptStarted(_) => "SessionAttemptStarted",
            RuntimeEvent::CheckpointPersisted(_) => "CheckpointPersisted",
            RuntimeEvent::WorkspaceSnapshotCreated(_) => "WorkspaceSnapshotCreated",
            RuntimeEvent::WorkspaceSnapshotReaped(_) => "WorkspaceSnapshotReaped",
            RuntimeEvent::SessionOutcomeEmitted(_) => "SessionOutcomeEmitted",
            RuntimeEvent::DecisionRecorded(_) => "DecisionRecorded",
            RuntimeEvent::RunCompletionAnnotated(_) => "RunCompletionAnnotated",
            RuntimeEvent::TerminalRecoveryAttempted(_) => "TerminalRecoveryAttempted",
            RuntimeEvent::DecisionCacheWarmup(_) => "DecisionCacheWarmup",
            RuntimeEvent::SandboxCrashRecovered => "SandboxCrashRecovered",
            RuntimeEvent::LlmCompletionRecorded(_) => "LlmCompletionRecorded",
            RuntimeEvent::KnowledgeProviderConfigured(_) => "KnowledgeProviderConfigured",
            RuntimeEvent::KnowledgeProviderUnavailable(_) => "KnowledgeProviderUnavailable",
            RuntimeEvent::KnowledgeProviderCapabilityChanged(
                _,
            ) => "KnowledgeProviderCapabilityChanged",
            RuntimeEvent::KnowledgeIngestSubmitted(_) => "KnowledgeIngestSubmitted",
            RuntimeEvent::KnowledgeIngestRejected(_) => "KnowledgeIngestRejected",
            RuntimeEvent::KnowledgeIngestStatusUpdated(_) => "KnowledgeIngestStatusUpdated",
        }
    }

    /// What the event writes, under what is stored already.
    pub open spec fn writes(self, at: Moment, found: Found) -> Planned {
        match self {
            RuntimeEvent::SessionCreated(e) => e.writes(at),
            RuntimeEvent::SessionStateChanged(e) => e.writes(at),
            RuntimeEvent::RunCreated(e) => e.writes(at),
            RuntimeEvent::RunStateChanged(e) => e.writes(at, found),
            RuntimeEvent::TaskCreated(e) => e.writes(at),
            RuntimeEvent::TaskLeaseClaimed(e) => e.writes(at),
            RuntimeEvent::TaskLeaseHeartbeated(e) => e.writes(at),
            RuntimeEvent::TaskStateChanged(e) => e.writes(at),
            RuntimeEvent::ApprovalRequested(e) => e.writes(at),
            RuntimeEvent::ApprovalResolved(e) => e.writes(at),
            RuntimeEvent::CheckpointRecorded(e) => e.writes(at),
            RuntimeEvent::MailboxMessageAppended(e) => e.writes(at),
            RuntimeEvent::ToolInvocationStarted(e) => e.writes(at),
            RuntimeEvent::ToolInvocationCompleted(e) => e.writes(at),
            RuntimeEvent::ToolInvocationFailed(e) => e.writes(at),
            RuntimeEvent::ExternalWorkerRegistered(e) => e.writes(at),
            RuntimeEvent::ExternalWorkerSuspended(e) => e.writes(at),
            RuntimeEvent::ExternalWorkerReactivated(e) => e.writes(at),
            RuntimeEvent::ExternalWorkerReported(e) => e.writes(at),
            RuntimeEvent::SoulPatchProposed(e) => e.writes(at),
            RuntimeEvent::SoulPatchApplied(e) => e.writes(at),
            RuntimeEvent::SessionCostUpdated(e) => e.writes(),
            RuntimeEvent::RunCostUpdated(e) => e.writes(at),
            RuntimeEvent::SubagentSpawned(e) => e.writes(at),
            RuntimeEvent::RecoveryAttempted(e) => e.writes(at),
            RuntimeEvent::RecoveryCompleted(e) => e.writes(at),
            RuntimeEvent::SignalIngested(e) => e.writes(at),
            RuntimeEvent::UserMessageAppended(e) => e.writes(at),
            RuntimeEvent::IngestJobStarted(e) => e.writes(at),
            RuntimeEvent::IngestJobCompleted(e) => e.writes(at),
            RuntimeEvent::EvalRunStarted(e) => e.writes(at),
            RuntimeEvent::EvalRunCompleted(e) => e.writes(at),
            RuntimeEvent::EvalRunArchived(e) => e.writes(at),
            RuntimeEvent::EvalRunScored(e) => e.writes(at),
            RuntimeEvent::EvalRubricScored(e) => e.writes(at),
            RuntimeEvent::OutcomeRecorded(e) => e.writes(at),
            RuntimeEvent::ScheduledTaskCreated(e) => e.writes(at),
            RuntimeEvent::PlanProposed(e) => e.writes(at),
            RuntimeEvent::PlanApproved(e) => e.writes(at),
            RuntimeEvent::PlanRejected(e) => e.writes(at),
            RuntimeEvent::PlanRevisionRequested(e) => e.writes(at),
            RuntimeEvent::ProviderBudgetSet(e) => e.writes(at),
            RuntimeEvent::ChannelCreated(e) => e.writes(at),
            RuntimeEvent::ChannelMessageSent(e) => e.writes(at),
            RuntimeEvent::ChannelMessageConsumed(e) => e.writes(at),
            RuntimeEvent::DefaultSettingSet(e) => e.writes(at),
            RuntimeEvent::DefaultSettingCleared(e) => e.writes(at),
            RuntimeEvent::LicenseActivated(e) => e.writes(at),
            RuntimeEvent::EntitlementOverrideSet(e) => e.writes(at),
            RuntimeEvent::NotificationPreferenceSet(e) => e.writes(at),
            RuntimeEvent::NotificationSent(e) => e.writes(at),
            RuntimeEvent::TenantQuotaSet(e) => e.writes(at),
            RuntimeEvent::TenantQuotaViolated(e) => e.writes(at),
            RuntimeEvent::RetentionPolicySet(e) => e.writes(at),
            RuntimeEvent::RunCostAlertSet(e) => e.writes(at),
            RuntimeEvent::RunCostAlertTriggered(e) => e.writes(at),
            RuntimeEvent::ApprovalDelegated(e) => e.writes(at),
            RuntimeEvent::AuditLogEntryRecorded(e) => e.writes(at),
            RuntimeEvent::CheckpointStrategySet(e) => e.writes(at),
            RuntimeEvent::CredentialStored(e) => e.writes(at),
            RuntimeEvent::CredentialRevoked(e) => e.writes(at),
            RuntimeEvent::CredentialKeyRotated(e) => e.writes(at),
            RuntimeEvent::EvalDatasetCreated(e) => e.writes(at),
            RuntimeEvent::EvalDatasetEntryAdded(e) => e.writes(at),
            RuntimeEvent::EvalRubricCreated(e) => e.writes(at),
            RuntimeEvent::EvalBaselineSet(e) => e.writes(at),
            RuntimeEvent::EvalBaselineLocked(e) => e.writes(at),
            RuntimeEvent::GuardrailPolicyCreated(e) => e.writes(at),
            RuntimeEvent::GuardrailPolicyEvaluated(e) => e.writes(at),
            RuntimeEvent::OperatorProfileCreated(e) => e.writes(at),
            RuntimeEvent::OperatorProfileUpdated(e) => e.writes(at),
            RuntimeEvent::TenantRoleGranted(e) => e.writes(at),
            RuntimeEvent::TenantRoleRevoked(e) => e.writes(at),
            RuntimeEvent::ProviderBindingCreated(e) => e.writes(at),
            RuntimeEvent::ProviderBindingStateChanged(e) => e.writes(at),
            RuntimeEvent::ProviderBudgetAlertTriggered(e) => e.writes(at),
            RuntimeEvent::ProviderBudgetExceeded(e) => e.writes(at),
            RuntimeEvent::ProviderConnectionRegistered(e) => e.writes(at),
            RuntimeEvent::ProviderConnectionDeleted(e) => e.writes(at),
            RuntimeEvent::ResourceShared(e) => e.writes(at),
            RuntimeEvent::ResourceShareRevoked(e) => e.writes(at),
            RuntimeEvent::RoutePolicyUpdated(e) => e.writes(at),
            RuntimeEvent::ToolInvocationCacheHit(e) => e.writes(at),
            RuntimeEvent::ToolRecoveryPaused(e) => e.writes(at),
            RuntimeEvent::ToolInvocationProgressUpdated(e) => e.writes(at, found),
            RuntimeEvent::RecoverySummaryEmitted(e) => e.writes(at),
            RuntimeEvent::ToolCallProposed(e) => e.writes(at),
            RuntimeEvent::ToolCallAmended(e) => e.writes(at),
            RuntimeEvent::ToolCallApproved(e) => e.writes(at),
            RuntimeEvent::ToolCallRejected(e) => e.writes(at),
            RuntimeEvent::TenantCreated(e) => e.writes(at),
            RuntimeEvent::TenantUpdated(e) => e.writes(at),
            RuntimeEvent::WorkspaceCreated(e) => e.writes(at),
            RuntimeEvent::WorkspaceArchived(e) => e.writes(at),
            RuntimeEvent::ProjectCreated(e) => e.writes(at),
            RuntimeEvent::RoutePolicyCreated(e) => e.writes(at),
            RuntimeEvent::WorkspaceMemberAdded(e) => e.writes(at),
            RuntimeEvent::WorkspaceMemberRemoved(e) => e.writes(at),
            RuntimeEvent::PromptAssetCreated(e) => e.writes(at),
            RuntimeEvent::PromptVersionCreated(e) => e.writes(at, found),
            RuntimeEvent::PromptReleaseCreated(e) => e.writes(at),
            RuntimeEvent::PromptReleaseTransitioned(e) => e.writes(at),
            RuntimeEvent::RouteDecisionMade(e) => e.writes(at),
            RuntimeEvent::ProviderCallCompleted(e) => e.writes(found),
            RuntimeEvent::TriggerCreated(e) => e.writes(at),
            RuntimeEvent::TriggerEnabled(e) => e.writes(at),
            RuntimeEvent::TriggerDisabled(e) => e.writes(at),
            RuntimeEvent::TriggerSuspended(e) => e.writes(at),
            RuntimeEvent::TriggerResumed(e) => e.writes(at),
            RuntimeEvent::TriggerDeleted(e) => e.writes(at),
            RuntimeEvent::RunTemplateCreated(e) => e.writes(at),
            RuntimeEvent::RunTemplateDeleted(e) => e.writes(at),
            RuntimeEvent::TriggerFired(e) => e.writes(at),
            RuntimeEvent::TriggerSkipped(e) => e.writes(at),
            RuntimeEvent::TriggerDenied(e) => e.writes(at),
            RuntimeEvent::TriggerRateLimited(e) => e.writes(at),
            RuntimeEvent::TriggerPendingApproval(e) => e.writes(at),
            RuntimeEvent::SessionAttemptStarted(e) => e.writes(at),
            RuntimeEvent::CheckpointPersisted(e) => e.writes(at),
            RuntimeEvent::WorkspaceSnapshotCreated(e) => e.writes(at),
            RuntimeEvent::WorkspaceSnapshotReaped(e) => e.writes(at),
            RuntimeEvent::SessionOutcomeEmitted(e) => e.writes(at),
            RuntimeEvent::DecisionRecorded(e) => e.writes(at),
            RuntimeEvent::RunCompletionAnnotated(e) => e.writes(at),
            RuntimeEvent::TerminalRecoveryAttempted(e) => e.writes(at),
            RuntimeEvent::DecisionCacheWarmup(e) => e.writes(at),
            RuntimeEvent::LlmCompletionRecorded(e) => e.writes(at),
            RuntimeEvent::KnowledgeProviderConfigured(e) => e.writes(at),
            RuntimeEvent::KnowledgeProviderUnavailable(e) => e.writes(at),
            RuntimeEvent::KnowledgeProviderCapabilityChanged(e) => e.writes(at),
            RuntimeEvent::KnowledgeIngestSubmitted(e) => e.writes(at),
            RuntimeEvent::KnowledgeIngestRejected(e) => e.writes(at),
            RuntimeEvent::KnowledgeIngestStatusUpdated(e) => e.writes(at),
            RuntimeEvent::CheckpointRestored
            | RuntimeEvent::SpendAlertTriggered
            | RuntimeEvent::ProviderPoolCreated
            | RuntimeEvent::ProviderPoolConnectionAdded
            | RuntimeEvent::ProviderPoolConnectionRemoved
            | RuntimeEvent::EventLogCompacted
            | RuntimeEvent::OperatorIntervention
            | RuntimeEvent::PauseScheduled
            | RuntimeEvent::PermissionDecisionRecorded
            | RuntimeEvent::ProviderHealthChecked
            | RuntimeEvent::ProviderHealthScheduleSet
            | RuntimeEvent::ProviderHealthScheduleTriggered
            | RuntimeEvent::ProviderMarkedDegraded
            | RuntimeEvent::ProviderModelRegistered
            | RuntimeEvent::ProviderRecovered
            | RuntimeEvent::ProviderRetryPolicySet
            | RuntimeEvent::RecoveryEscalated
            | RuntimeEvent::RunSlaBreached
            | RuntimeEvent::RunSlaSet
            | RuntimeEvent::SignalRouted
            | RuntimeEvent::SignalSubscriptionCreated
            | RuntimeEvent::SnapshotCreated
            | RuntimeEvent::TaskDependencyAdded
            | RuntimeEvent::TaskDependencyResolved
            | RuntimeEvent::TaskLeaseExpired
            | RuntimeEvent::TaskPriorityChanged
            | RuntimeEvent::ApprovalPolicyCreated
            | RuntimeEvent::PromptRolloutStarted
            | RuntimeEvent::SessionAttemptCompleted
            | RuntimeEvent::CircuitBreakerTripped
            | RuntimeEvent::BudgetThresholdCrossed
            | RuntimeEvent::OrchestratorDecisionMade
            | RuntimeEvent::SummarizerFallback
            | RuntimeEvent::WorkspaceBackendDegraded
            | RuntimeEvent::SandboxCrashRecovered => Planned::Writes(Seq::empty()),
        }
    }

    /// What has to be read before the event can be projected.
    pub open spec fn reads_first(self) -> Option<LookupView> {
        match self {
            RuntimeEvent::RunStateChanged(e) => Some(LookupView::RunScope { run_id: e.run_id@ }),
            RuntimeEvent::ToolInvocationProgressUpdated(e) => Some(
                LookupView::InvocationScope { invocation_id: e.invocation_id@ },
            ),
            RuntimeEvent::PromptVersionCreated(e) => Some(
                LookupView::NextPromptVersion { prompt_asset_id: e.prompt_asset_id@ },
            ),
            RuntimeEvent::ProviderCallCompleted(e) => match (e.session_id, e.run_id) {
                (None, Some(run_id)) => Some(LookupView::RunSession { run_id: run_id@ }),
                _ => None,
            },
            _ => None,
        }
    }

    /// What has to be read before the event can be projected.
    pub fn lookup(&self) -> (r: Option<Lookup>)
        ensures
            match r {
                Some(l) => self.reads_first() == Some(l@),
                None => self.reads_first() is None,
            },
    {
        match self {
            RuntimeEvent::RunStateChanged(e) => Some(
                Lookup::RunScope { run_id: e.run_id.clone() },
            ),
            RuntimeEvent::ToolInvocationProgressUpdated(e) => Some(
                Lookup::InvocationScope { invocation_id: e.invocation_id.clone() },
            ),
            RuntimeEvent::PromptVersionCreated(e) => Some(
                Lookup::NextPromptVersion { prompt_asset_id: e.prompt_asset_id.clone() },
            ),
            RuntimeEvent::ProviderCallCompleted(e) => match (&e.session_id, &e.run_id) {
                (None, Some(run_id)) => Some(Lookup::RunSession { run_id: run_id.clone() }),
                _ => None,
            },
            _ => None,
        }
    }

    /// Plans what the event writes, under what is stored already.
    pub fn plan(&self, at: &Moment, found: &Found) -> (r: Result<Vec<Statement>, StoreError>)
        ensures
            Planned::of(r) == self.writes(*at, *found),
    {
        match self {
            RuntimeEvent::SessionCreated(e) => e.plan(at),
            RuntimeEvent::SessionStateChanged(e) => e.plan(at),
            RuntimeEvent::RunCreated(e) => e.plan(at),
            RuntimeEvent::RunStateChanged(e) => e.plan(at, found),
            RuntimeEvent::TaskCreated(e) => e.plan(at),
            RuntimeEvent::TaskLeaseClaimed(e) => e.plan(at),
            RuntimeEvent::TaskLeaseHeartbeated(e) => e.plan(at),
            RuntimeEvent::TaskStateChanged(e) => e.plan(at),
            RuntimeEvent::ApprovalRequested(e) => e.plan(at),
            RuntimeEvent::ApprovalResolved(e) => e.plan(at),
            RuntimeEvent::CheckpointRecorded(e) => e.plan(at),
            RuntimeEvent::MailboxMessageAppended(e) => e.plan(at),
            RuntimeEvent::ToolInvocationStarted(e) => e.plan(at),
            RuntimeEvent::ToolInvocationCompleted(e) => e.plan(at),
            RuntimeEvent::ToolInvocationFailed(e) => e.plan(at),
            RuntimeEvent::ExternalWorkerRegistered(e) => e.plan(at),
            RuntimeEvent::ExternalWorkerSuspended(e) => e.plan(at),
            RuntimeEvent::ExternalWorkerReactivated(e) => e.plan(at),
            RuntimeEvent::ExternalWorkerReported(e) => e.plan(at),
            RuntimeEvent::SoulPatchProposed(e) => e.plan(at),
            RuntimeEvent::SoulPatchApplied(e) => e.plan(at),
            RuntimeEvent::SessionCostUpdated(e) => e.plan(),
            RuntimeEvent::RunCostUpdated(e) => e.plan(at),
            RuntimeEvent::SubagentSpawned(e) => e.plan(at),
            RuntimeEvent::RecoveryAttempted(e) => e.plan(at),
            RuntimeEvent::RecoveryCompleted(e) => e.plan(at),
            RuntimeEvent::SignalIngested(e) => e.plan(at),
            RuntimeEvent::UserMessageAppended(e) => e.plan(at),
            RuntimeEvent::IngestJobStarted(e) => e.plan(at),
            RuntimeEvent::IngestJobCompleted(e) => e.plan(at),
            RuntimeEvent::EvalRunStarted(e) => e.plan(at),
            RuntimeEvent::EvalRunCompleted(e) => e.plan(at),
            RuntimeEvent::EvalRunArchived(e) => e.plan(at),
            RuntimeEvent::EvalRunScored(e) => e.plan(at),
            RuntimeEvent::EvalRubricScored(e) => e.plan(at),
            RuntimeEvent::OutcomeRecorded(e) => e.plan(at),
            RuntimeEvent::ScheduledTaskCreated(e) => e.plan(at),
            RuntimeEvent::PlanProposed(e) => e.plan(at),
            RuntimeEvent::PlanApproved(e) => e.plan(at),
            RuntimeEvent::PlanRejected(e) => e.plan(at),
            RuntimeEvent::PlanRevisionRequested(e) => e.plan(at),
            RuntimeEvent::ProviderBudgetSet(e) => e.plan(at),
            RuntimeEvent::ChannelCreated(e) => e.plan(at),
            RuntimeEvent::ChannelMessageSent(e) => e.plan(at),
            RuntimeEvent::ChannelMessageConsumed(e) => e.plan(at),
            RuntimeEvent::DefaultSettingSet(e) => e.plan(at),
            RuntimeEvent::DefaultSettingCleared(e) => e.plan(at),
            RuntimeEvent::LicenseActivated(e) => e.plan(at),
            RuntimeEvent::EntitlementOverrideSet(e) => e.plan(at),
            RuntimeEvent::NotificationPreferenceSet(e) => e.plan(at),
            RuntimeEvent::NotificationSent(e) => e.plan(at),
            RuntimeEvent::TenantQuotaSet(e) => e.plan(at),
            RuntimeEvent::TenantQuotaViolated(e) => e.plan(at),
            RuntimeEvent::RetentionPolicySet(e) => e.plan(at),
            RuntimeEvent::RunCostAlertSet(e) => e.plan(at),
            RuntimeEvent::RunCostAlertTriggered(e) => e.plan(at),
            RuntimeEvent::ApprovalDelegated(e) => e.plan(at),
            RuntimeEvent::AuditLogEntryRecorded(e) => e.plan(at),
            RuntimeEvent::CheckpointStrategySet(e) => e.plan(at),
            RuntimeEvent::CredentialStored(e) => e.plan(at),
            RuntimeEvent::CredentialRevoked(e) => e.plan(at),
            RuntimeEvent::CredentialKeyRotated(e) => e.plan(at),
            RuntimeEvent::EvalDatasetCreated(e) => e.plan(at),
            RuntimeEvent::EvalDatasetEntryAdded(e) => e.plan(at),
            RuntimeEvent::EvalRubricCreated(e) => e.plan(at),
            RuntimeEvent::EvalBaselineSet(e) => e.plan(at),
            RuntimeEvent::EvalBaselineLocked(e) => e.plan(at),
            RuntimeEvent::GuardrailPolicyCreated(e) => e.plan(at),
            RuntimeEvent::GuardrailPolicyEvaluated(e) => e.plan(at),
            RuntimeEvent::OperatorProfileCreated(e) => e.plan(at),
            RuntimeEvent::OperatorProfileUpdated(e) => e.plan(at),
            RuntimeEvent::TenantRoleGranted(e) => e.plan(at),
            RuntimeEvent::TenantRoleRevoked(e) => e.plan(at),
            RuntimeEvent::ProviderBindingCreated(e) => e.plan(at),
            RuntimeEvent::ProviderBindingStateChanged(e) => e.plan(at),
            RuntimeEvent::ProviderBudgetAlertTriggered(e) => e.plan(at),
            RuntimeEvent::ProviderBudgetExceeded(e) => e.plan(at),
            RuntimeEvent::ProviderConnectionRegistered(e) => e.plan(at),
            RuntimeEvent::ProviderConnectionDeleted(e) => e.plan(at),
            RuntimeEvent::ResourceShared(e) => e.plan(at),
            RuntimeEvent::ResourceShareRevoked(e) => e.plan(at),
            RuntimeEvent::RoutePolicyUpdated(e) => e.plan(at),
            RuntimeEvent::ToolInvocationCacheHit(e) => e.plan(at),
            RuntimeEvent::ToolRecoveryPaused(e) => e.plan(at),
            RuntimeEvent::ToolInvocationProgressUpdated(e) => e.plan(at, found),
            RuntimeEvent::RecoverySummaryEmitted(e) => e.plan(at),
            RuntimeEvent::ToolCallProposed(e) => e.plan(at),
            RuntimeEvent::ToolCallAmended(e) => e.plan(at),
            RuntimeEvent::ToolCallApproved(e) => e.plan(at),
            RuntimeEvent::ToolCallRejected(e) => e.plan(at),
            RuntimeEvent::TenantCreated(e) => e.plan(at),
            RuntimeEvent::TenantUpdated(e) => e.plan(at),
            RuntimeEvent::WorkspaceCreated(e) => e.plan(at),
            RuntimeEvent::WorkspaceArchived(e) => e.plan(at),
            RuntimeEvent::ProjectCreated(e) => e.plan(at),
            RuntimeEvent::RoutePolicyCreated(e) => e.plan(at),
            RuntimeEvent::WorkspaceMemberAdded(e) => e.plan(at),
            RuntimeEvent::WorkspaceMemberRemoved(e) => e.plan(at),
            RuntimeEvent::PromptAssetCreated(e) => e.plan(at),
            RuntimeEvent::PromptVersionCreated(e) => e.plan(at, found),
            RuntimeEvent::PromptReleaseCreated(e) => e.plan(at),
            RuntimeEvent::PromptReleaseTransitioned(e) => e.plan(at),
            RuntimeEvent::RouteDecisionMade(e) => e.plan(at),
            RuntimeEvent::ProviderCallCompleted(e) => e.plan(found),
            RuntimeEvent::TriggerCreated(e) => e.plan(at),
            RuntimeEvent::TriggerEnabled(e) => e.plan(at),
            RuntimeEvent::TriggerDisabled(e) => e.plan(at),
            RuntimeEvent::TriggerSuspended(e) => e.plan(at),
            RuntimeEvent::TriggerResumed(e) => e.plan(at),
            RuntimeEvent::TriggerDeleted(e) => e.plan(at),
            RuntimeEvent::RunTemplateCreated(e) => e.plan(at),
            RuntimeEvent::RunTemplateDeleted(e) => e.plan(at),
            RuntimeEvent::TriggerFired(e) => e.plan(at),
            RuntimeEvent::TriggerSkipped(e) => e.plan(at),
            RuntimeEvent::TriggerDenied(e) => e.plan(at),
            RuntimeEvent::TriggerRateLimited(e) => e.plan(at),
            RuntimeEvent::TriggerPendingApproval(e) => e.plan(at),
            RuntimeEvent::SessionAttemptStarted(e) => e.plan(at),
            RuntimeEvent::CheckpointPersisted(e) => e.plan(at),
            RuntimeEvent::WorkspaceSnapshotCreated(e) => e.plan(at),
            RuntimeEvent::WorkspaceSnapshotReaped(e) => e.plan(at),
            RuntimeEvent::SessionOutcomeEmitted(e) => e.plan(at),
            RuntimeEvent::DecisionRecorded(e) => e.plan(at),
            RuntimeEvent::RunCompletionAnnotated(e) => e.plan(at),
            RuntimeEvent::TerminalRecoveryAttempted(e) => e.plan(at),
            RuntimeEvent::DecisionCacheWarmup(e) => e.plan(at),
            RuntimeEvent::LlmCompletionRecorded(e) => e.plan(at),
            RuntimeEvent::KnowledgeProviderConfigured(e) => e.plan(at),
            RuntimeEvent::KnowledgeProviderUnavailable(e) => e.plan(at),
            RuntimeEvent::KnowledgeProviderCapabilityChanged(e) => e.plan(at),
            RuntimeEvent::KnowledgeIngestSubmitted(e) => e.plan(at),
            RuntimeEvent::KnowledgeIngestRejected(e) => e.plan(at),
            RuntimeEvent::KnowledgeIngestStatusUpdated(e) => e.plan(at),
            RuntimeEvent::CheckpointRestored
            | RuntimeEvent::SpendAlertTriggered
            | RuntimeEvent::ProviderPoolCreated
            | RuntimeEvent::ProviderPoolConnectionAdded
            | RuntimeEvent::ProviderPoolConnectionRemoved
            | RuntimeEvent::EventLogCompacted
            | RuntimeEvent::OperatorIntervention
            | RuntimeEvent::PauseScheduled
            | RuntimeEvent::PermissionDecisionRecorded
            | RuntimeEvent::ProviderHealthChecked
            | RuntimeEvent::ProviderHealthScheduleSet
            | RuntimeEvent::ProviderHealthScheduleTriggered
            | RuntimeEvent::ProviderMarkedDegraded
            | RuntimeEvent::ProviderModelRegistered
            | RuntimeEvent::ProviderRecovered
            | RuntimeEvent::ProviderRetryPolicySet
            | RuntimeEvent::RecoveryEscalated
            | RuntimeEvent::RunSlaBreached
            | RuntimeEvent::RunSlaSet
            | RuntimeEvent::SignalRouted
            | RuntimeEvent::SignalSubscriptionCreated
            | RuntimeEvent::SnapshotCreated
            | RuntimeEvent::TaskDependencyAdded
            | RuntimeEvent::TaskDependencyResolved
            | RuntimeEvent::TaskLeaseExpired
            | RuntimeEvent::TaskPriorityChanged
            | RuntimeEvent::ApprovalPolicyCreated
            | RuntimeEvent::PromptRolloutStarted
            | RuntimeEvent::SessionAttemptCompleted
            | RuntimeEvent::CircuitBreakerTripped
            | RuntimeEvent::BudgetThresholdCrossed
            | RuntimeEvent::OrchestratorDecisionMade
            | RuntimeEvent::SummarizerFallback
            | RuntimeEvent::WorkspaceBackendDegraded
            | RuntimeEvent::SandboxCrashRecovered => none(),
        }
    }
}

} // verus!
