//! The registry agrees with what the events write.

use crate::events::RuntimeEvent;
use crate::plan::{Found, Moment, Planned};
use vstd::prelude::*;

verus! {

/// Whether an event writes as its entry in the registry says: a projected event
/// writes first, if it writes at all, to the table of its entry; an event that
/// is not projected writes nothing.
pub open spec fn writes_as_registered(event: RuntimeEvent, at: Moment, found: Found) -> bool {
    match super::status_in(super::classification(), event.spec_variant()) {
        Some(super::StatusView::Projected { table }) => match event.writes(at, found) {
            Planned::Writes(statements) => statements.len() > 0 ==> table == Some(
                statements[0].table().spec_name(),
            ),
            Planned::Refused(_) => true,
        },
        Some(_) => event.writes(at, found) == Planned::Writes(Seq::empty()),
        None => true,
    }
}

#[verifier::rlimit(50)]
proof fn group_0(event: RuntimeEvent, at: Moment, found: Found)
    requires
        event is SessionCreated
            || event is SessionStateChanged
            || event is RunCreated
            || event is RunStateChanged
            || event is TaskCreated
            || event is TaskLeaseClaimed
            || event is TaskLeaseHeartbeated
            || event is TaskStateChanged
            || event is ApprovalRequested
            || event is ApprovalResolved
            || event is CheckpointRecorded
            || event is CheckpointRestored,
    ensures
        writes_as_registered(event, at, found),
{
    match event {
        RuntimeEvent::SessionCreated(_) => {
            super::names::each_entry_is_found_by_its_name(29);
        },
        RuntimeEvent::SessionStateChanged(_) => {
            super::names::each_entry_is_found_by_its_name(31);
        },
        RuntimeEvent::RunCreated(_) => {
            super::names::each_entry_is_found_by_its_name(25);
        },
        RuntimeEvent::RunStateChanged(_) => {
            super::names::each_entry_is_found_by_its_name(26);
        },
        RuntimeEvent::TaskCreated(_) => {
            super::names::each_entry_is_found_by_its_name(32);
        },
        RuntimeEvent::TaskLeaseClaimed(_) => {
            super::names::each_entry_is_found_by_its_name(33);
        },
        RuntimeEvent::TaskLeaseHeartbeated(_) => {
            super::names::each_entry_is_found_by_its_name(34);
        },
        RuntimeEvent::TaskStateChanged(_) => {
            super::names::each_entry_is_found_by_its_name(35);
        },
        RuntimeEvent::ApprovalRequested(_) => {
            super::names::each_entry_is_found_by_its_name(0);
        },
        RuntimeEvent::ApprovalResolved(_) => {
            super::names::each_entry_is_found_by_its_name(1);
        },
        RuntimeEvent::CheckpointRecorded(_) => {
            super::names::each_entry_is_found_by_its_name(3);
        },
        RuntimeEvent::CheckpointRestored => {
            super::names::each_entry_is_found_by_its_name(4);
        },
        _ => {},
    }
}

#[verifier::rlimit(50)]
proof fn group_1(event: RuntimeEvent, at: Moment, found: Found)
    requires
        event is MailboxMessageAppended
            || event is ToolInvocationStarted
            || event is ToolInvocationCompleted
            || event is ToolInvocationFailed
            || event is ExternalWorkerRegistered
            || event is ExternalWorkerSuspended
            || event is ExternalWorkerReactivated
            || event is ExternalWorkerReported
            || event is SoulPatchProposed
            || event is SoulPatchApplied
            || event is SessionCostUpdated
            || event is RunCostUpdated,
    ensures
        writes_as_registered(event, at, found),
{
    match event {
        RuntimeEvent::MailboxMessageAppended(_) => {
            super::names::each_entry_is_found_by_its_name(12);
        },
        RuntimeEvent::ToolInvocationStarted(_) => {
            super::names::each_entry_is_found_by_its_name(46);
        },
        RuntimeEvent::ToolInvocationCompleted(_) => {
            super::names::each_entry_is_found_by_its_name(43);
        },
        RuntimeEvent::ToolInvocationFailed(_) => {
            super::names::each_entry_is_found_by_its_name(44);
        },
        RuntimeEvent::ExternalWorkerRegistered(_) => {
            super::names::each_entry_is_found_by_its_name(103);
        },
        RuntimeEvent::ExternalWorkerSuspended(_) => {
            super::names::each_entry_is_found_by_its_name(105);
        },
        RuntimeEvent::ExternalWorkerReactivated(_) => {
            super::names::each_entry_is_found_by_its_name(102);
        },
        RuntimeEvent::ExternalWorkerReported(_) => {
            super::names::each_entry_is_found_by_its_name(104);
        },
        RuntimeEvent::SoulPatchProposed(_) => {
            super::names::each_entry_is_found_by_its_name(151);
        },
        RuntimeEvent::SoulPatchApplied(_) => {
            super::names::each_entry_is_found_by_its_name(150);
        },
        RuntimeEvent::SessionCostUpdated(_) => {
            super::names::each_entry_is_found_by_its_name(28);
        },
        RuntimeEvent::RunCostUpdated(_) => {
            super::names::each_entry_is_found_by_its_name(147);
        },
        _ => {},
    }
}

#[verifier::rlimit(50)]
proof fn group_2(event: RuntimeEvent, at: Moment, found: Found)
    requires
        event is SpendAlertTriggered
            || event is SubagentSpawned
            || event is RecoveryAttempted
            || event is RecoveryCompleted
            || event is SignalIngested
            || event is UserMessageAppended
            || event is IngestJobStarted
            || event is IngestJobCompleted
            || event is EvalRunStarted
            || event is EvalRunCompleted
            || event is EvalRunArchived
            || event is EvalRunScored,
    ensures
        writes_as_registered(event, at, found),
{
    match event {
        RuntimeEvent::SpendAlertTriggered => {
            super::names::each_entry_is_found_by_its_name(152);
        },
        RuntimeEvent::SubagentSpawned(_) => {
            super::names::each_entry_is_found_by_its_name(153);
        },
        RuntimeEvent::RecoveryAttempted(_) => {
            super::names::each_entry_is_found_by_its_name(19);
        },
        RuntimeEvent::RecoveryCompleted(_) => {
            super::names::each_entry_is_found_by_its_name(20);
        },
        RuntimeEvent::SignalIngested(_) => {
            super::names::each_entry_is_found_by_its_name(149);
        },
        RuntimeEvent::UserMessageAppended(_) => {
            super::names::each_entry_is_found_by_its_name(157);
        },
        RuntimeEvent::IngestJobStarted(_) => {
            super::names::each_entry_is_found_by_its_name(109);
        },
        RuntimeEvent::IngestJobCompleted(_) => {
            super::names::each_entry_is_found_by_its_name(108);
        },
        RuntimeEvent::EvalRunStarted(_) => {
            super::names::each_entry_is_found_by_its_name(11);
        },
        RuntimeEvent::EvalRunCompleted(_) => {
            super::names::each_entry_is_found_by_its_name(9);
        },
        RuntimeEvent::EvalRunArchived(_) => {
            super::names::each_entry_is_found_by_its_name(8);
        },
        RuntimeEvent::EvalRunScored(_) => {
            super::names::each_entry_is_found_by_its_name(10);
        },
        _ => {},
    }
}

#[verifier::rlimit(50)]
proof fn group_3(event: RuntimeEvent, at: Moment, found: Found)
    requires
        event is EvalRubricScored
            || event is OutcomeRecorded
            || event is ScheduledTaskCreated
            || event is PlanProposed
            || event is PlanApproved
            || event is PlanRejected
            || event is PlanRevisionRequested
            || event is ProviderBudgetSet
            || event is ChannelCreated
            || event is ChannelMessageSent
            || event is ChannelMessageConsumed
            || event is DefaultSettingSet,
    ensures
        writes_as_registered(event, at, found),
{
    match event {
        RuntimeEvent::EvalRubricScored(_) => {
            super::names::each_entry_is_found_by_its_name(7);
        },
        RuntimeEvent::OutcomeRecorded(_) => {
            super::names::each_entry_is_found_by_its_name(116);
        },
        RuntimeEvent::ScheduledTaskCreated(_) => {
            super::names::each_entry_is_found_by_its_name(148);
        },
        RuntimeEvent::PlanProposed(_) => {
            super::names::each_entry_is_found_by_its_name(120);
        },
        RuntimeEvent::PlanApproved(_) => {
            super::names::each_entry_is_found_by_its_name(119);
        },
        RuntimeEvent::PlanRejected(_) => {
            super::names::each_entry_is_found_by_its_name(121);
        },
        RuntimeEvent::PlanRevisionRequested(_) => {
            super::names::each_entry_is_found_by_its_name(122);
        },
        RuntimeEvent::ProviderBudgetSet(_) => {
            super::names::each_entry_is_found_by_its_name(127);
        },
        RuntimeEvent::ChannelCreated(_) => {
            super::names::each_entry_is_found_by_its_name(86);
        },
        RuntimeEvent::ChannelMessageSent(_) => {
            super::names::each_entry_is_found_by_its_name(88);
        },
        RuntimeEvent::ChannelMessageConsumed(_) => {
            super::names::each_entry_is_found_by_its_name(87);
        },
        RuntimeEvent::DefaultSettingSet(_) => {
            super::names::each_entry_is_found_by_its_name(94);
        },
        _ => {},
    }
}

#[verifier::rlimit(50)]
proof fn group_4(event: RuntimeEvent, at: Moment, found: Found)
    requires
        event is DefaultSettingCleared
            || event is LicenseActivated
            || event is EntitlementOverrideSet
            || event is NotificationPreferenceSet
            || event is NotificationSent
            || event is ProviderPoolCreated
            || event is ProviderPoolConnectionAdded
            || event is ProviderPoolConnectionRemoved
            || event is TenantQuotaSet
            || event is TenantQuotaViolated
            || event is RetentionPolicySet
            || event is RunCostAlertSet,
    ensures
        writes_as_registered(event, at, found),
{
    match event {
        RuntimeEvent::DefaultSettingCleared(_) => {
            super::names::each_entry_is_found_by_its_name(93);
        },
        RuntimeEvent::LicenseActivated(_) => {
            super::names::each_entry_is_found_by_its_name(110);
        },
        RuntimeEvent::EntitlementOverrideSet(_) => {
            super::names::each_entry_is_found_by_its_name(95);
        },
        RuntimeEvent::NotificationPreferenceSet(_) => {
            super::names::each_entry_is_found_by_its_name(111);
        },
        RuntimeEvent::NotificationSent(_) => {
            super::names::each_entry_is_found_by_its_name(112);
        },
        RuntimeEvent::ProviderPoolCreated => {
            super::names::each_entry_is_found_by_its_name(137);
        },
        RuntimeEvent::ProviderPoolConnectionAdded => {
            super::names::each_entry_is_found_by_its_name(135);
        },
        RuntimeEvent::ProviderPoolConnectionRemoved => {
            super::names::each_entry_is_found_by_its_name(136);
        },
        RuntimeEvent::TenantQuotaSet(_) => {
            super::names::each_entry_is_found_by_its_name(154);
        },
        RuntimeEvent::TenantQuotaViolated(_) => {
            super::names::each_entry_is_found_by_its_name(155);
        },
        RuntimeEvent::RetentionPolicySet(_) => {
            super::names::each_entry_is_found_by_its_name(143);
        },
        RuntimeEvent::RunCostAlertSet(_) => {
            super::names::each_entry_is_found_by_its_name(145);
        },
        _ => {},
    }
}

#[verifier::rlimit(50)]
proof fn group_5(event: RuntimeEvent, at: Moment, found: Found)
    requires
        event is RunCostAlertTriggered
            || event is ApprovalDelegated
            || event is AuditLogEntryRecorded
            || event is CheckpointStrategySet
            || event is CredentialStored
            || event is CredentialRevoked
            || event is CredentialKeyRotated
            || event is EvalDatasetCreated
            || event is EvalDatasetEntryAdded
            || event is EvalRubricCreated
            || event is EvalBaselineSet
            || event is EvalBaselineLocked,
    ensures
        writes_as_registered(event, at, found),
{
    match event {
        RuntimeEvent::RunCostAlertTriggered(_) => {
            super::names::each_entry_is_found_by_its_name(146);
        },
        RuntimeEvent::ApprovalDelegated(_) => {
            super::names::each_entry_is_found_by_its_name(84);
        },
        RuntimeEvent::AuditLogEntryRecorded(_) => {
            super::names::each_entry_is_found_by_its_name(85);
        },
        RuntimeEvent::CheckpointStrategySet(_) => {
            super::names::each_entry_is_found_by_its_name(89);
        },
        RuntimeEvent::CredentialStored(_) => {
            super::names::each_entry_is_found_by_its_name(92);
        },
        RuntimeEvent::CredentialRevoked(_) => {
            super::names::each_entry_is_found_by_its_name(91);
        },
        RuntimeEvent::CredentialKeyRotated(_) => {
            super::names::each_entry_is_found_by_its_name(90);
        },
        RuntimeEvent::EvalDatasetCreated(_) => {
            super::names::each_entry_is_found_by_its_name(98);
        },
        RuntimeEvent::EvalDatasetEntryAdded(_) => {
            super::names::each_entry_is_found_by_its_name(99);
        },
        RuntimeEvent::EvalRubricCreated(_) => {
            super::names::each_entry_is_found_by_its_name(100);
        },
        RuntimeEvent::EvalBaselineSet(_) => {
            super::names::each_entry_is_found_by_its_name(97);
        },
        RuntimeEvent::EvalBaselineLocked(_) => {
            super::names::each_entry_is_found_by_its_name(96);
        },
        _ => {},
    }
}

#[verifier::rlimit(50)]
proof fn group_6(event: RuntimeEvent, at: Moment, found: Found)
    requires
        event is EventLogCompacted
            || event is GuardrailPolicyCreated
            || event is GuardrailPolicyEvaluated
            || event is OperatorIntervention
            || event is OperatorProfileCreated
            || event is OperatorProfileUpdated
            || event is PauseScheduled
            || event is PermissionDecisionRecorded
            || event is ProviderBindingCreated
            || event is ProviderBindingStateChanged
            || event is ProviderBudgetAlertTriggered
            || event is ProviderBudgetExceeded,
    ensures
        writes_as_registered(event, at, found),
{
    match event {
        RuntimeEvent::EventLogCompacted => {
            super::names::each_entry_is_found_by_its_name(101);
        },
        RuntimeEvent::GuardrailPolicyCreated(_) => {
            super::names::each_entry_is_found_by_its_name(106);
        },
        RuntimeEvent::GuardrailPolicyEvaluated(_) => {
            super::names::each_entry_is_found_by_its_name(107);
        },
        RuntimeEvent::OperatorIntervention => {
            super::names::each_entry_is_found_by_its_name(113);
        },
        RuntimeEvent::OperatorProfileCreated(_) => {
            super::names::each_entry_is_found_by_its_name(114);
        },
        RuntimeEvent::OperatorProfileUpdated(_) => {
            super::names::each_entry_is_found_by_its_name(115);
        },
        RuntimeEvent::PauseScheduled => {
            super::names::each_entry_is_found_by_its_name(117);
        },
        RuntimeEvent::PermissionDecisionRecorded => {
            super::names::each_entry_is_found_by_its_name(118);
        },
        RuntimeEvent::ProviderBindingCreated(_) => {
            super::names::each_entry_is_found_by_its_name(123);
        },
        RuntimeEvent::ProviderBindingStateChanged(_) => {
            super::names::each_entry_is_found_by_its_name(124);
        },
        RuntimeEvent::ProviderBudgetAlertTriggered(_) => {
            super::names::each_entry_is_found_by_its_name(125);
        },
        RuntimeEvent::ProviderBudgetExceeded(_) => {
            super::names::each_entry_is_found_by_its_name(126);
        },
        _ => {},
    }
}

#[verifier::rlimit(50)]
proof fn group_7(event: RuntimeEvent, at: Moment, found: Found)
    requires
        event is ProviderConnectionRegistered
            || event is ProviderConnectionDeleted
            || event is ProviderHealthChecked
            || event is ProviderHealthScheduleSet
            || event is ProviderHealthScheduleTriggered
            || event is ProviderMarkedDegraded
            || event is ProviderModelRegistered
            || event is ProviderRecovered
            || event is ProviderRetryPolicySet
            || event is RecoveryEscalated
            || event is ResourceShared
            || event is ResourceShareRevoked,
    ensures
        writes_as_registered(event, at, found),
{
    match event {
        RuntimeEvent::ProviderConnectionRegistered(_) => {
            super::names::each_entry_is_found_by_its_name(129);
        },
        RuntimeEvent::ProviderConnectionDeleted(_) => {
            super::names::each_entry_is_found_by_its_name(128);
        },
        RuntimeEvent::ProviderHealthChecked => {
            super::names::each_entry_is_found_by_its_name(130);
        },
        RuntimeEvent::ProviderHealthScheduleSet => {
            super::names::each_entry_is_found_by_its_name(131);
        },
        RuntimeEvent::ProviderHealthScheduleTriggered => {
            super::names::each_entry_is_found_by_its_name(132);
        },
        RuntimeEvent::ProviderMarkedDegraded => {
            super::names::each_entry_is_found_by_its_name(133);
        },
        RuntimeEvent::ProviderModelRegistered => {
            super::names::each_entry_is_found_by_its_name(134);
        },
        RuntimeEvent::ProviderRecovered => {
            super::names::each_entry_is_found_by_its_name(138);
        },
        RuntimeEvent::ProviderRetryPolicySet => {
            super::names::each_entry_is_found_by_its_name(139);
        },
        RuntimeEvent::RecoveryEscalated => {
            super::names::each_entry_is_found_by_its_name(140);
        },
        RuntimeEvent::ResourceShared(_) => {
            super::names::each_entry_is_found_by_its_name(142);
        },
        RuntimeEvent::ResourceShareRevoked(_) => {
            super::names::each_entry_is_found_by_its_name(141);
        },
        _ => {},
    }
}

#[verifier::rlimit(50)]
proof fn group_8(event: RuntimeEvent, at: Moment, found: Found)
    requires
        event is RoutePolicyUpdated
            || event is ToolInvocationCacheHit
            || event is ToolRecoveryPaused
            || event is ToolInvocationProgressUpdated
            || event is RecoverySummaryEmitted
            || event is ToolCallProposed
            || event is ToolCallAmended
            || event is ToolCallApproved
            || event is ToolCallRejected
            || event is TenantCreated
            || event is WorkspaceCreated
            || event is WorkspaceArchived,
    ensures
        writes_as_registered(event, at, found),
{
    match event {
        RuntimeEvent::RoutePolicyUpdated(_) => {
            super::names::each_entry_is_found_by_its_name(144);
        },
        RuntimeEvent::ToolInvocationCacheHit(_) => {
            super::names::each_entry_is_found_by_its_name(42);
        },
        RuntimeEvent::ToolRecoveryPaused(_) => {
            super::names::each_entry_is_found_by_its_name(156);
        },
        RuntimeEvent::ToolInvocationProgressUpdated(_) => {
            super::names::each_entry_is_found_by_its_name(45);
        },
        RuntimeEvent::RecoverySummaryEmitted(_) => {
            super::names::each_entry_is_found_by_its_name(21);
        },
        RuntimeEvent::ToolCallProposed(_) => {
            super::names::each_entry_is_found_by_its_name(40);
        },
        RuntimeEvent::ToolCallAmended(_) => {
            super::names::each_entry_is_found_by_its_name(38);
        },
        RuntimeEvent::ToolCallApproved(_) => {
            super::names::each_entry_is_found_by_its_name(39);
        },
        RuntimeEvent::ToolCallRejected(_) => {
            super::names::each_entry_is_found_by_its_name(41);
        },
        RuntimeEvent::TenantCreated(_) => {
            super::names::each_entry_is_found_by_its_name(36);
        },
        RuntimeEvent::WorkspaceCreated(_) => {
            super::names::each_entry_is_found_by_its_name(48);
        },
        RuntimeEvent::WorkspaceArchived(_) => {
            super::names::each_entry_is_found_by_its_name(47);
        },
        _ => {},
    }
}

#[verifier::rlimit(50)]
proof fn group_9(event: RuntimeEvent, at: Moment, found: Found)
    requires
        event is ProjectCreated
            || event is RoutePolicyCreated
            || event is WorkspaceMemberAdded
            || event is WorkspaceMemberRemoved
            || event is PromptAssetCreated
            || event is PromptVersionCreated
            || event is PromptReleaseCreated
            || event is PromptReleaseTransitioned
            || event is RouteDecisionMade
            || event is ProviderCallCompleted
            || event is RunSlaBreached
            || event is RunSlaSet,
    ensures
        writes_as_registered(event, at, found),
{
    match event {
        RuntimeEvent::ProjectCreated(_) => {
            super::names::each_entry_is_found_by_its_name(13);
        },
        RuntimeEvent::RoutePolicyCreated(_) => {
            super::names::each_entry_is_found_by_its_name(23);
        },
        RuntimeEvent::WorkspaceMemberAdded(_) => {
            super::names::each_entry_is_found_by_its_name(49);
        },
        RuntimeEvent::WorkspaceMemberRemoved(_) => {
            super::names::each_entry_is_found_by_its_name(50);
        },
        RuntimeEvent::PromptAssetCreated(_) => {
            super::names::each_entry_is_found_by_its_name(14);
        },
        RuntimeEvent::PromptVersionCreated(_) => {
            super::names::each_entry_is_found_by_its_name(17);
        },
        RuntimeEvent::PromptReleaseCreated(_) => {
            super::names::each_entry_is_found_by_its_name(15);
        },
        RuntimeEvent::PromptReleaseTransitioned(_) => {
            super::names::each_entry_is_found_by_its_name(16);
        },
        RuntimeEvent::RouteDecisionMade(_) => {
            super::names::each_entry_is_found_by_its_name(22);
        },
        RuntimeEvent::ProviderCallCompleted(_) => {
            super::names::each_entry_is_found_by_its_name(18);
        },
        RuntimeEvent::RunSlaBreached => {
            super::names::each_entry_is_found_by_its_name(58);
        },
        RuntimeEvent::RunSlaSet => {
            super::names::each_entry_is_found_by_its_name(59);
        },
        _ => {},
    }
}

#[verifier::rlimit(50)]
proof fn group_10(event: RuntimeEvent, at: Moment, found: Found)
    requires
        event is SignalRouted
            || event is SignalSubscriptionCreated
            || event is SnapshotCreated
            || event is TaskDependencyAdded
            || event is TaskDependencyResolved
            || event is TaskLeaseExpired
            || event is TaskPriorityChanged
            || event is ApprovalPolicyCreated
            || event is PromptRolloutStarted
            || event is TriggerCreated
            || event is TriggerEnabled
            || event is TriggerDisabled,
    ensures
        writes_as_registered(event, at, found),
{
    match event {
        RuntimeEvent::SignalRouted => {
            super::names::each_entry_is_found_by_its_name(64);
        },
        RuntimeEvent::SignalSubscriptionCreated => {
            super::names::each_entry_is_found_by_its_name(65);
        },
        RuntimeEvent::SnapshotCreated => {
            super::names::each_entry_is_found_by_its_name(66);
        },
        RuntimeEvent::TaskDependencyAdded => {
            super::names::each_entry_is_found_by_its_name(68);
        },
        RuntimeEvent::TaskDependencyResolved => {
            super::names::each_entry_is_found_by_its_name(69);
        },
        RuntimeEvent::TaskLeaseExpired => {
            super::names::each_entry_is_found_by_its_name(70);
        },
        RuntimeEvent::TaskPriorityChanged => {
            super::names::each_entry_is_found_by_its_name(71);
        },
        RuntimeEvent::ApprovalPolicyCreated => {
            super::names::each_entry_is_found_by_its_name(53);
        },
        RuntimeEvent::PromptRolloutStarted => {
            super::names::each_entry_is_found_by_its_name(57);
        },
        RuntimeEvent::TriggerCreated(_) => {
            super::names::each_entry_is_found_by_its_name(72);
        },
        RuntimeEvent::TriggerEnabled(_) => {
            super::names::each_entry_is_found_by_its_name(76);
        },
        RuntimeEvent::TriggerDisabled(_) => {
            super::names::each_entry_is_found_by_its_name(75);
        },
        _ => {},
    }
}

#[verifier::rlimit(50)]
proof fn group_11(event: RuntimeEvent, at: Moment, found: Found)
    requires
        event is TriggerSuspended
            || event is TriggerResumed
            || event is TriggerDeleted
            || event is RunTemplateCreated
            || event is RunTemplateDeleted
            || event is TriggerFired
            || event is TriggerSkipped
            || event is TriggerDenied
            || event is TriggerRateLimited
            || event is TriggerPendingApproval
            || event is SessionAttemptCompleted
            || event is CircuitBreakerTripped,
    ensures
        writes_as_registered(event, at, found),
{
    match event {
        RuntimeEvent::TriggerSuspended(_) => {
            super::names::each_entry_is_found_by_its_name(82);
        },
        RuntimeEvent::TriggerResumed(_) => {
            super::names::each_entry_is_found_by_its_name(80);
        },
        RuntimeEvent::TriggerDeleted(_) => {
            super::names::each_entry_is_found_by_its_name(73);
        },
        RuntimeEvent::RunTemplateCreated(_) => {
            super::names::each_entry_is_found_by_its_name(60);
        },
        RuntimeEvent::RunTemplateDeleted(_) => {
            super::names::each_entry_is_found_by_its_name(61);
        },
        RuntimeEvent::TriggerFired(_) => {
            super::names::each_entry_is_found_by_its_name(77);
        },
        RuntimeEvent::TriggerSkipped(_) => {
            super::names::each_entry_is_found_by_its_name(81);
        },
        RuntimeEvent::TriggerDenied(_) => {
            super::names::each_entry_is_found_by_its_name(74);
        },
        RuntimeEvent::TriggerRateLimited(_) => {
            super::names::each_entry_is_found_by_its_name(79);
        },
        RuntimeEvent::TriggerPendingApproval(_) => {
            super::names::each_entry_is_found_by_its_name(78);
        },
        RuntimeEvent::SessionAttemptCompleted => {
            super::names::each_entry_is_found_by_its_name(63);
        },
        RuntimeEvent::CircuitBreakerTripped => {
            super::names::each_entry_is_found_by_its_name(55);
        },
        _ => {},
    }
}

#[verifier::rlimit(50)]
proof fn group_12(event: RuntimeEvent, at: Moment, found: Found)
    requires
        event is BudgetThresholdCrossed
            || event is OrchestratorDecisionMade
            || event is SummarizerFallback
            || event is WorkspaceBackendDegraded
            || event is SessionAttemptStarted
            || event is CheckpointPersisted
            || event is WorkspaceSnapshotCreated
            || event is WorkspaceSnapshotReaped
            || event is SessionOutcomeEmitted
            || event is DecisionRecorded
            || event is RunCompletionAnnotated
            || event is TerminalRecoveryAttempted,
    ensures
        writes_as_registered(event, at, found),
{
    match event {
        RuntimeEvent::BudgetThresholdCrossed => {
            super::names::each_entry_is_found_by_its_name(54);
        },
        RuntimeEvent::OrchestratorDecisionMade => {
            super::names::each_entry_is_found_by_its_name(56);
        },
        RuntimeEvent::SummarizerFallback => {
            super::names::each_entry_is_found_by_its_name(67);
        },
        RuntimeEvent::WorkspaceBackendDegraded => {
            super::names::each_entry_is_found_by_its_name(83);
        },
        RuntimeEvent::SessionAttemptStarted(_) => {
            super::names::each_entry_is_found_by_its_name(27);
        },
        RuntimeEvent::CheckpointPersisted(_) => {
            super::names::each_entry_is_found_by_its_name(2);
        },
        RuntimeEvent::WorkspaceSnapshotCreated(_) => {
            super::names::each_entry_is_found_by_its_name(51);
        },
        RuntimeEvent::WorkspaceSnapshotReaped(_) => {
            super::names::each_entry_is_found_by_its_name(52);
        },
        RuntimeEvent::SessionOutcomeEmitted(_) => {
            super::names::each_entry_is_found_by_its_name(30);
        },
        RuntimeEvent::DecisionRecorded(_) => {
            super::names::each_entry_is_found_by_its_name(6);
        },
        RuntimeEvent::RunCompletionAnnotated(_) => {
            super::names::each_entry_is_found_by_its_name(24);
        },
        RuntimeEvent::TerminalRecoveryAttempted(_) => {
            super::names::each_entry_is_found_by_its_name(37);
        },
        _ => {},
    }
}

#[verifier::rlimit(50)]
proof fn group_13(event: RuntimeEvent, at: Moment, found: Found)
    requires
        event is DecisionCacheWarmup
            || event is SandboxCrashRecovered,
    ensures
        writes_as_registered(event, at, found),
{
    match event {
        RuntimeEvent::DecisionCacheWarmup(_) => {
            super::names::each_entry_is_found_by_its_name(5);
        },
        RuntimeEvent::SandboxCrashRecovered => {
            super::names::each_entry_is_found_by_its_name(62);
        },
        _ => {},
    }
}

/// Every event writes as its entry in the registry says.
pub proof fn events_write_as_registered(event: RuntimeEvent, at: Moment, found: Found)
    ensures
        writes_as_registered(event, at, found),
{
    match event {
        RuntimeEvent::SessionCreated(_)
        | RuntimeEvent::SessionStateChanged(_)
        | RuntimeEvent::RunCreated(_)
        | RuntimeEvent::RunStateChanged(_)
        | RuntimeEvent::TaskCreated(_)
        | RuntimeEvent::TaskLeaseClaimed(_)
        | RuntimeEvent::TaskLeaseHeartbeated(_)
        | RuntimeEvent::TaskStateChanged(_)
        | RuntimeEvent::ApprovalRequested(_)
        | RuntimeEvent::ApprovalResolved(_)
        | RuntimeEvent::CheckpointRecorded(_)
        | RuntimeEvent::CheckpointRestored => {
            group_0(event, at, found);
        },
        RuntimeEvent::MailboxMessageAppended(_)
        | RuntimeEvent::ToolInvocationStarted(_)
        | RuntimeEvent::ToolInvocationCompleted(_)
        | RuntimeEvent::ToolInvocationFailed(_)
        | RuntimeEvent::ExternalWorkerRegistered(_)
        | RuntimeEvent::ExternalWorkerSuspended(_)
        | RuntimeEvent::ExternalWorkerReactivated(_)
        | RuntimeEvent::ExternalWorkerReported(_)
        | RuntimeEvent::SoulPatchProposed(_)
        | RuntimeEvent::SoulPatchApplied(_)
        | RuntimeEvent::SessionCostUpdated(_)
        | RuntimeEvent::RunCostUpdated(_) => {
            group_1(event, at, found);
        },
        RuntimeEvent::SpendAlertTriggered
        | RuntimeEvent::SubagentSpawned(_)
        | RuntimeEvent::RecoveryAttempted(_)
        | RuntimeEvent::RecoveryCompleted(_)
        | RuntimeEvent::SignalIngested(_)
        | RuntimeEvent::UserMessageAppended(_)
        | RuntimeEvent::IngestJobStarted(_)
        | RuntimeEvent::IngestJobCompleted(_)
        | RuntimeEvent::EvalRunStarted(_)
        | RuntimeEvent::EvalRunCompleted(_)
        | RuntimeEvent::EvalRunArchived(_)
        | RuntimeEvent::EvalRunScored(_) => {
            group_2(event, at, found);
        },
        RuntimeEvent::EvalRubricScored(_)
        | RuntimeEvent::OutcomeRecorded(_)
        | RuntimeEvent::ScheduledTaskCreated(_)
        | RuntimeEvent::PlanProposed(_)
        | RuntimeEvent::PlanApproved(_)
        | RuntimeEvent::PlanRejected(_)
        | RuntimeEvent::PlanRevisionRequested(_)
        | RuntimeEvent::ProviderBudgetSet(_)
        | RuntimeEvent::ChannelCreated(_)
        | RuntimeEvent::ChannelMessageSent(_)
        | RuntimeEvent::ChannelMessageConsumed(_)
        | RuntimeEvent::DefaultSettingSet(_) => {
            group_3(event, at, found);
        },
        RuntimeEvent::DefaultSettingCleared(_)
        | RuntimeEvent::LicenseActivated(_)
        | RuntimeEvent::EntitlementOverrideSet(_)
        | RuntimeEvent::NotificationPreferenceSet(_)
        | RuntimeEvent::NotificationSent(_)
        | RuntimeEvent::ProviderPoolCreated
        | RuntimeEvent::ProviderPoolConnectionAdded
        | RuntimeEvent::ProviderPoolConnectionRemoved
        | RuntimeEvent::TenantQuotaSet(_)
        | RuntimeEvent::TenantQuotaViolated(_)
        | RuntimeEvent::RetentionPolicySet(_)
        | RuntimeEvent::RunCostAlertSet(_) => {
            group_4(event, at, found);
        },
        RuntimeEvent::RunCostAlertTriggered(_)
        | RuntimeEvent::ApprovalDelegated(_)
        | RuntimeEvent::AuditLogEntryRecorded(_)
        | RuntimeEvent::CheckpointStrategySet(_)
        | RuntimeEvent::CredentialStored(_)
        | RuntimeEvent::CredentialRevoked(_)
        | RuntimeEvent::CredentialKeyRotated(_)
        | RuntimeEvent::EvalDatasetCreated(_)
        | RuntimeEvent::EvalDatasetEntryAdded(_)
        | RuntimeEvent::EvalRubricCreated(_)
        | RuntimeEvent::EvalBaselineSet(_)
        | RuntimeEvent::EvalBaselineLocked(_) => {
            group_5(event, at, found);
        },
        RuntimeEvent::EventLogCompacted
        | RuntimeEvent::GuardrailPolicyCreated(_)
        | RuntimeEvent::GuardrailPolicyEvaluated(_)
        | RuntimeEvent::OperatorIntervention
        | RuntimeEvent::OperatorProfileCreated(_)
        | RuntimeEvent::OperatorProfileUpdated(_)
        | RuntimeEvent::PauseScheduled
        | RuntimeEvent::PermissionDecisionRecorded
        | RuntimeEvent::ProviderBindingCreated(_)
        | RuntimeEvent::ProviderBindingStateChanged(_)
        | RuntimeEvent::ProviderBudgetAlertTriggered(_)
        | RuntimeEvent::ProviderBudgetExceeded(_) => {
            group_6(event, at, found);
        },
        RuntimeEvent::ProviderConnectionRegistered(_)
        | RuntimeEvent::ProviderConnectionDeleted(_)
        | RuntimeEvent::ProviderHealthChecked
        | RuntimeEvent::ProviderHealthScheduleSet
        | RuntimeEvent::ProviderHealthScheduleTriggered
        | RuntimeEvent::ProviderMarkedDegraded
        | RuntimeEvent::ProviderModelRegistered
        | RuntimeEvent::ProviderRecovered
        | RuntimeEvent::ProviderRetryPolicySet
        | RuntimeEvent::RecoveryEscalated
        | RuntimeEvent::ResourceShared(_)
        | RuntimeEvent::ResourceShareRevoked(_) => {
            group_7(event, at, found);
        },
        RuntimeEvent::RoutePolicyUpdated(_)
        | RuntimeEvent::ToolInvocationCacheHit(_)
        | RuntimeEvent::ToolRecoveryPaused(_)
        | RuntimeEvent::ToolInvocationProgressUpdated(_)
        | RuntimeEvent::RecoverySummaryEmitted(_)
        | RuntimeEvent::ToolCallProposed(_)
        | RuntimeEvent::ToolCallAmended(_)
        | RuntimeEvent::ToolCallApproved(_)
        | RuntimeEvent::ToolCallRejected(_)
        | RuntimeEvent::TenantCreated(_)
        | RuntimeEvent::WorkspaceCreated(_)
        | RuntimeEvent::WorkspaceArchived(_) => {
            group_8(event, at, found);
        },
        RuntimeEvent::ProjectCreated(_)
        | RuntimeEvent::RoutePolicyCreated(_)
        | RuntimeEvent::WorkspaceMemberAdded(_)
        | RuntimeEvent::WorkspaceMemberRemoved(_)
        | RuntimeEvent::PromptAssetCreated(_)
        | RuntimeEvent::PromptVersionCreated(_)
        | RuntimeEvent::PromptReleaseCreated(_)
        | RuntimeEvent::PromptReleaseTransitioned(_)
        | RuntimeEvent::RouteDecisionMade(_)
        | RuntimeEvent::ProviderCallCompleted(_)
        | RuntimeEvent::RunSlaBreached
        | RuntimeEvent::RunSlaSet => {
            group_9(event, at, found);
        },
        RuntimeEvent::SignalRouted
        | RuntimeEvent::SignalSubscriptionCreated
        | RuntimeEvent::SnapshotCreated
        | RuntimeEvent::TaskDependencyAdded
        | RuntimeEvent::TaskDependencyResolved
        | RuntimeEvent::TaskLeaseExpired
        | RuntimeEvent::TaskPriorityChanged
        | RuntimeEvent::ApprovalPolicyCreated
        | RuntimeEvent::PromptRolloutStarted
        | RuntimeEvent::TriggerCreated(_)
        | RuntimeEvent::TriggerEnabled(_)
        | RuntimeEvent::TriggerDisabled(_) => {
            group_10(event, at, found);
        },
        RuntimeEvent::TriggerSuspended(_)
        | RuntimeEvent::TriggerResumed(_)
        | RuntimeEvent::TriggerDeleted(_)
        | RuntimeEvent::RunTemplateCreated(_)
        | RuntimeEvent::RunTemplateDeleted(_)
        | RuntimeEvent::TriggerFired(_)
        | RuntimeEvent::TriggerSkipped(_)
        | RuntimeEvent::TriggerDenied(_)
        | RuntimeEvent::TriggerRateLimited(_)
        | RuntimeEvent::TriggerPendingApproval(_)
        | RuntimeEvent::SessionAttemptCompleted
        | RuntimeEvent::CircuitBreakerTripped => {
            group_11(event, at, found);
        },
        RuntimeEvent::BudgetThresholdCrossed
        | RuntimeEvent::OrchestratorDecisionMade
        | RuntimeEvent::SummarizerFallback
        | RuntimeEvent::WorkspaceBackendDegraded
        | RuntimeEvent::SessionAttemptStarted(_)
        | RuntimeEvent::CheckpointPersisted(_)
        | RuntimeEvent::WorkspaceSnapshotCreated(_)
        | RuntimeEvent::WorkspaceSnapshotReaped(_)
        | RuntimeEvent::SessionOutcomeEmitted(_)
        | RuntimeEvent::DecisionRecorded(_)
        | RuntimeEvent::RunCompletionAnnotated(_)
        | RuntimeEvent::TerminalRecoveryAttempted(_) => {
            group_12(event, at, found);
        },
        RuntimeEvent::DecisionCacheWarmup(_)
        | RuntimeEvent::SandboxCrashRecovered => {
            group_13(event, at, found);
        },
        RuntimeEvent::TenantRoleGranted(_)
        | RuntimeEvent::TenantRoleRevoked(_)
        | RuntimeEvent::TenantUpdated(_)
        | RuntimeEvent::LlmCompletionRecorded(_)
        | RuntimeEvent::KnowledgeProviderConfigured(_)
        | RuntimeEvent::KnowledgeProviderUnavailable(_)
        | RuntimeEvent::KnowledgeProviderCapabilityChanged(_)
        | RuntimeEvent::KnowledgeIngestSubmitted(_)
        | RuntimeEvent::KnowledgeIngestRejected(_)
        | RuntimeEvent::KnowledgeIngestStatusUpdated(_) => {
            super::names::some_events_are_not_registered(event.spec_variant());
        },
    }
}

} // verus!
