//! Which events are projected: for each event, the table that it is projected
//! into, or why it is projected into none.

pub mod kinds;
pub mod names;
pub mod projected;

use crate::text::{push_decimal, same_text};
use vstd::prelude::*;
use vstd::string::*;

verus! {

/// The database that a store runs on.
#[derive(Clone, Copy, Debug, PartialEq, Eq, Structural)]
pub enum Backend {
    InMemory,
    Postgres,
    Sqlite,
}

impl Backend {
    /// The backend's name.
    pub open spec fn spec_name(self) -> Seq<char> {
        match self {
            Backend::InMemory => "InMemory"@,
            Backend::Postgres => "Postgres"@,
            Backend::Sqlite => "Sqlite"@,
        }
    }

    /// The backend's name.
    pub fn name(self) -> (r: &'static str)
        ensures
            r@ == self.spec_name(),
    {
        match self {
            Backend::InMemory => "InMemory",
            Backend::Postgres => "Postgres",
            Backend::Sqlite => "Sqlite",
        }
    }
}

/// How an event is projected.
#[derive(Clone, Copy, Debug, PartialEq, Eq)]
pub enum ProjectionStatus {
    /// The event is projected; `table` is the table that it is mainly
    /// projected into.
    Projected { table: Option<&'static str> },
    /// The event is not projected yet.
    Stubbed { tracking: &'static str },
    /// The event is not projected on purpose.
    Ephemeral { reason: &'static str },
}

/// The mathematical value of a [`ProjectionStatus`].
pub enum StatusView {
    Projected { table: Option<Seq<char>> },
    Stubbed { tracking: Seq<char> },
    Ephemeral { reason: Seq<char> },
}

impl View for ProjectionStatus {
    type V = StatusView;

    open spec fn view(&self) -> StatusView {
        match self {
            ProjectionStatus::Projected { table: Some(t) } => StatusView::Projected {
                table: Some(t@),
            },
            ProjectionStatus::Projected { table: None } => StatusView::Projected { table: None },
            ProjectionStatus::Stubbed { tracking } => StatusView::Stubbed { tracking: tracking@ },
            ProjectionStatus::Ephemeral { reason } => StatusView::Ephemeral { reason: reason@ },
        }
    }
}

impl ProjectionStatus {
    /// Whether the event is not projected yet.
    pub fn is_stubbed(&self) -> (r: bool)
        ensures
            r == (self@ is Stubbed),
    {
        match self {
            ProjectionStatus::Stubbed { .. } => true,
            _ => false,
        }
    }

    /// Whether the event is projected.
    pub fn is_projected(&self) -> (r: bool)
        ensures
            r == (self@ is Projected),
    {
        match self {
            ProjectionStatus::Projected { .. } => true,
            _ => false,
        }
    }

    /// Whether the event is not projected on purpose.
    pub fn is_ephemeral(&self) -> (r: bool)
        ensures
            r == (self@ is Ephemeral),
    {
        match self {
            ProjectionStatus::Ephemeral { .. } => true,
            _ => false,
        }
    }
}

/// An event's entry in the registry.
#[derive(Clone, Copy, Debug)]
pub struct ProjectionEntry {
    pub variant: &'static str,
    pub status: ProjectionStatus,
}

impl View for ProjectionEntry {
    type V = (Seq<char>, StatusView);

    open spec fn view(&self) -> (Seq<char>, StatusView) {
        (self.variant@, self.status@)
    }
}

/// The views of entries.
pub open spec fn entry_views(entries: Seq<ProjectionEntry>) -> Seq<(Seq<char>, StatusView)> {
    entries.map_values(|e: ProjectionEntry| e@)
}

/// The name of each registered event, and how it is projected.
pub open spec fn classification() -> Seq<(Seq<char>, StatusView)> {
    seq![
        ("ApprovalRequested"@, StatusView::Projected { table: Some("approvals"@) }),
        ("ApprovalResolved"@, StatusView::Projected { table: Some("approvals"@) }),
        ("CheckpointPersisted"@, StatusView::Projected { table: Some("checkpoints"@) }),
        ("CheckpointRecorded"@, StatusView::Projected { table: Some("checkpoints"@) }),
        ("CheckpointRestored"@, StatusView::Projected { table: Some("checkpoints"@) }),
        ("DecisionCacheWarmup"@, StatusView::Projected { table: Some("decision_cache_warmups"@) }),
        ("DecisionRecorded"@, StatusView::Projected { table: Some("decision_records"@) }),
        ("EvalRubricScored"@, StatusView::Projected { table: Some("eval_runs"@) }),
        ("EvalRunArchived"@, StatusView::Projected { table: Some("eval_runs"@) }),
        ("EvalRunCompleted"@, StatusView::Projected { table: Some("eval_runs"@) }),
        ("EvalRunScored"@, StatusView::Projected { table: Some("eval_runs"@) }),
        ("EvalRunStarted"@, StatusView::Projected { table: Some("eval_runs"@) }),
        ("MailboxMessageAppended"@, StatusView::Projected { table: Some("mailbox_messages"@) }),
        ("ProjectCreated"@, StatusView::Projected { table: Some("projects"@) }),
        ("PromptAssetCreated"@, StatusView::Projected { table: Some("prompt_assets"@) }),
        ("PromptReleaseCreated"@, StatusView::Projected { table: Some("prompt_releases"@) }),
        ("PromptReleaseTransitioned"@, StatusView::Projected { table: Some("prompt_releases"@) }),
        ("PromptVersionCreated"@, StatusView::Projected { table: Some("prompt_versions"@) }),
        ("ProviderCallCompleted"@, StatusView::Projected { table: Some("provider_calls"@) }),
        ("RecoveryAttempted"@, StatusView::Projected { table: Some("recovery_attempts"@) }),
        ("RecoveryCompleted"@, StatusView::Projected { table: Some("recovery_completions"@) }),
        ("RecoverySummaryEmitted"@, StatusView::Projected { table: Some("recovery_summaries"@) }),
        ("RouteDecisionMade"@, StatusView::Projected { table: Some("route_decisions"@) }),
        ("RoutePolicyCreated"@, StatusView::Projected { table: Some("route_policies"@) }),
        ("RunCompletionAnnotated"@, StatusView::Projected { table: Some("runs"@) }),
        ("RunCreated"@, StatusView::Projected { table: Some("runs"@) }),
        ("RunStateChanged"@, StatusView::Projected { table: Some("runs"@) }),
        ("SessionAttemptStarted"@, StatusView::Projected { table: Some("sessions"@) }),
        ("SessionCostUpdated"@, StatusView::Projected { table: Some("session_costs"@) }),
        ("SessionCreated"@, StatusView::Projected { table: Some("sessions"@) }),
        ("SessionOutcomeEmitted"@, StatusView::Projected { table: Some("session_outcomes"@) }),
        ("SessionStateChanged"@, StatusView::Projected { table: Some("sessions"@) }),
        ("TaskCreated"@, StatusView::Projected { table: Some("tasks"@) }),
        ("TaskLeaseClaimed"@, StatusView::Projected { table: Some("tasks"@) }),
        ("TaskLeaseHeartbeated"@, StatusView::Projected { table: Some("tasks"@) }),
        ("TaskStateChanged"@, StatusView::Projected { table: Some("tasks"@) }),
        ("TenantCreated"@, StatusView::Projected { table: Some("tenants"@) }),
        ("TerminalRecoveryAttempted"@, StatusView::Projected { table: Some("runs"@) }),
        ("ToolCallAmended"@, StatusView::Projected { table: Some("tool_call_approvals"@) }),
        ("ToolCallApproved"@, StatusView::Projected { table: Some("tool_call_approvals"@) }),
        ("ToolCallProposed"@, StatusView::Projected { table: Some("tool_call_approvals"@) }),
        ("ToolCallRejected"@, StatusView::Projected { table: Some("tool_call_approvals"@) }),
        (
            "ToolInvocationCacheHit"@,
            StatusView::Projected { table: Some("tool_invocation_cache_hits"@) },
        ),
        ("ToolInvocationCompleted"@, StatusView::Projected { table: Some("tool_invocations"@) }),
        ("ToolInvocationFailed"@, StatusView::Projected { table: Some("tool_invocations"@) }),
        (
            "ToolInvocationProgressUpdated"@,
            StatusView::Projected { table: Some("tool_invocation_progress"@) },
        ),
        ("ToolInvocationStarted"@, StatusView::Projected { table: Some("tool_invocations"@) }),
        ("WorkspaceArchived"@, StatusView::Projected { table: Some("workspaces"@) }),
        ("WorkspaceCreated"@, StatusView::Projected { table: Some("workspaces"@) }),
        ("WorkspaceMemberAdded"@, StatusView::Projected { table: Some("workspace_members"@) }),
        ("WorkspaceMemberRemoved"@, StatusView::Projected { table: Some("workspace_members"@) }),
        (
            "WorkspaceSnapshotCreated"@,
            StatusView::Projected { table: Some("workspace_snapshots"@) },
        ),
        ("WorkspaceSnapshotReaped"@, StatusView::Projected { table: Some("workspace_snapshots"@) }),
        (
            "ApprovalPolicyCreated"@,
            StatusView::Ephemeral {
                reason: "RFC 005 approval policies — no durable table yet; service-layer in-memory registry until table ships"@,
            },
        ),
        (
            "BudgetThresholdCrossed"@,
            StatusView::Ephemeral {
                reason: "F65 observability: SSE + metrics only; no read-model table"@,
            },
        ),
        (
            "CircuitBreakerTripped"@,
            StatusView::Ephemeral {
                reason: "F65 observability: SSE + metrics only; breaker trip is visible via session_outcomes.termination_reason"@,
            },
        ),
        (
            "OrchestratorDecisionMade"@,
            StatusView::Ephemeral {
                reason: "F65 observability: SSE + metrics only; no read-model table"@,
            },
        ),
        (
            "PromptRolloutStarted"@,
            StatusView::Ephemeral {
                reason: "RFC 001 gradual rollout — state tracked via the prompt_releases projection"@,
            },
        ),
        (
            "RunSlaBreached"@,
            StatusView::Ephemeral {
                reason: "SLA breach surfaces via notifications + SSE; no dedicated table"@,
            },
        ),
        (
            "RunSlaSet"@,
            StatusView::Ephemeral {
                reason: "SLA set — policy-layer state, no dedicated runtime table"@,
            },
        ),
        ("RunTemplateCreated"@, StatusView::Projected { table: Some("run_templates"@) }),
        ("RunTemplateDeleted"@, StatusView::Projected { table: Some("run_templates"@) }),
        (
            "SandboxCrashRecovered"@,
            StatusView::Ephemeral {
                reason: "F65 PR-5 #359: crash-recovery umount sweep is observability-only (SSE + metrics)"@,
            },
        ),
        (
            "SessionAttemptCompleted"@,
            StatusView::Ephemeral {
                reason: "Visible via event log + subsequent SessionOutcomeEmitted row; no dedicated table"@,
            },
        ),
        (
            "SignalRouted"@,
            StatusView::Ephemeral {
                reason: "Signal routing — projection lives in cairn-signal service layer, not cairn-store"@,
            },
        ),
        (
            "SignalSubscriptionCreated"@,
            StatusView::Ephemeral {
                reason: "Signal subscription — projection lives in cairn-signal service layer"@,
            },
        ),
        (
            "SnapshotCreated"@,
            StatusView::Ephemeral {
                reason: "Workspace snapshot event predates F65 WorkspaceSnapshotCreated; retained for back-compat"@,
            },
        ),
        (
            "SummarizerFallback"@,
            StatusView::Ephemeral {
                reason: "F65 observability: SSE + metrics only; no read-model table"@,
            },
        ),
        (
            "TaskDependencyAdded"@,
            StatusView::Ephemeral {
                reason: "Task dependency edges — graph projection owns the read model, not cairn-store"@,
            },
        ),
        (
            "TaskDependencyResolved"@,
            StatusView::Ephemeral {
                reason: "Task dependency edges — graph projection owns the read model, not cairn-store"@,
            },
        ),
        (
            "TaskLeaseExpired"@,
            StatusView::Ephemeral {
                reason: "Lease expiry — owned by FlowFabric lease-history; cairn mirrors via TaskStateChanged"@,
            },
        ),
        (
            "TaskPriorityChanged"@,
            StatusView::Ephemeral {
                reason: "Priority changes — scheduler-layer concern; audit via event log"@,
            },
        ),
        ("TriggerCreated"@, StatusView::Projected { table: Some("triggers"@) }),
        ("TriggerDeleted"@, StatusView::Projected { table: Some("triggers"@) }),
        ("TriggerDenied"@, StatusView::Projected { table: Some("trigger_fires"@) }),
        ("TriggerDisabled"@, StatusView::Projected { table: Some("triggers"@) }),
        ("TriggerEnabled"@, StatusView::Projected { table: Some("triggers"@) }),
        ("TriggerFired"@, StatusView::Projected { table: Some("trigger_fires"@) }),
        ("TriggerPendingApproval"@, StatusView::Projected { table: Some("trigger_fires"@) }),
        ("TriggerRateLimited"@, StatusView::Projected { table: Some("trigger_fires"@) }),
        ("TriggerResumed"@, StatusView::Projected { table: Some("triggers"@) }),
        ("TriggerSkipped"@, StatusView::Projected { table: Some("trigger_fires"@) }),
        ("TriggerSuspended"@, StatusView::Projected { table: Some("triggers"@) }),
        (
            "WorkspaceBackendDegraded"@,
            StatusView::Ephemeral {
                reason: "F65 observability: SSE + metrics only; no read-model table"@,
            },
        ),
        ("ApprovalDelegated"@, StatusView::Projected { table: Some("approval_delegations"@) }),
        ("AuditLogEntryRecorded"@, StatusView::Projected { table: Some("audit_log_entries"@) }),
        ("ChannelCreated"@, StatusView::Projected { table: Some("channels"@) }),
        ("ChannelMessageConsumed"@, StatusView::Projected { table: Some("channel_messages"@) }),
        ("ChannelMessageSent"@, StatusView::Projected { table: Some("channel_messages"@) }),
        ("CheckpointStrategySet"@, StatusView::Projected { table: Some("checkpoint_strategies"@) }),
        ("CredentialKeyRotated"@, StatusView::Projected { table: Some("credential_rotations"@) }),
        ("CredentialRevoked"@, StatusView::Projected { table: Some("credentials"@) }),
        ("CredentialStored"@, StatusView::Projected { table: Some("credentials"@) }),
        ("DefaultSettingCleared"@, StatusView::Projected { table: Some("default_settings"@) }),
        ("DefaultSettingSet"@, StatusView::Projected { table: Some("default_settings"@) }),
        (
            "EntitlementOverrideSet"@,
            StatusView::Projected { table: Some("entitlement_overrides"@) },
        ),
        ("EvalBaselineLocked"@, StatusView::Projected { table: Some("eval_baselines"@) }),
        ("EvalBaselineSet"@, StatusView::Projected { table: Some("eval_baselines"@) }),
        ("EvalDatasetCreated"@, StatusView::Projected { table: Some("eval_datasets"@) }),
        ("EvalDatasetEntryAdded"@, StatusView::Projected { table: Some("eval_dataset_entries"@) }),
        ("EvalRubricCreated"@, StatusView::Projected { table: Some("eval_rubrics"@) }),
        (
            "EventLogCompacted"@,
            StatusView::Ephemeral {
                reason: "Event-log compaction is a single-shot maintenance operation — the compaction boundary is visible in `event_log` via the first remaining position; no dedicated read-model row is needed and no operator UI queries by compaction timestamp."@,
            },
        ),
        ("ExternalWorkerReactivated"@, StatusView::Projected { table: Some("external_workers"@) }),
        ("ExternalWorkerRegistered"@, StatusView::Projected { table: Some("external_workers"@) }),
        ("ExternalWorkerReported"@, StatusView::Projected { table: Some("external_workers"@) }),
        ("ExternalWorkerSuspended"@, StatusView::Projected { table: Some("external_workers"@) }),
        ("GuardrailPolicyCreated"@, StatusView::Projected { table: Some("guardrail_policies"@) }),
        (
            "GuardrailPolicyEvaluated"@,
            StatusView::Projected { table: Some("guardrail_evaluations"@) },
        ),
        ("IngestJobCompleted"@, StatusView::Projected { table: Some("ingest_jobs"@) }),
        ("IngestJobStarted"@, StatusView::Projected { table: Some("ingest_jobs"@) }),
        ("LicenseActivated"@, StatusView::Projected { table: Some("licenses"@) }),
        (
            "NotificationPreferenceSet"@,
            StatusView::Projected { table: Some("notification_preferences"@) },
        ),
        ("NotificationSent"@, StatusView::Projected { table: Some("notifications"@) }),
        (
            "OperatorIntervention"@,
            StatusView::Ephemeral {
                reason: "`OperatorInterventionReadModel::list_by_run` walks the event log directly on every backend (pg/sqlite reads replay into `InMemoryStore` at boot; the read impl iterates `state.events` and filters by `run_id`). A dedicated projection table would duplicate the event-log contents without a new read path — the event log itself is the audit trail, which is the Ephemeral contract. Gated by `load_run_visible_to_tenant` for cross-tenant isolation."@,
            },
        ),
        ("OperatorProfileCreated"@, StatusView::Projected { table: Some("operator_profiles"@) }),
        ("OperatorProfileUpdated"@, StatusView::Projected { table: Some("operator_profiles"@) }),
        ("OutcomeRecorded"@, StatusView::Projected { table: Some("outcomes"@) }),
        ("PauseScheduled"@, StatusView::Projected { table: Some("pause_schedules"@) }),
        (
            "PermissionDecisionRecorded"@,
            StatusView::Stubbed {
                tracking: "RFC-025 Phase 2b.5 (permission decisions — Ephemeral reclassification deferred; the in-memory applier is already a no-op and no reader exists anywhere in cairn-runtime / cairn-app, so the pg/sqlite log_stub is purely a tracking signal until the parallel pause-lifecycle work lands and the stub-guard diff window clears)"@,
            },
        ),
        ("PlanApproved"@, StatusView::Projected { table: Some("plan_reviews"@) }),
        ("PlanProposed"@, StatusView::Projected { table: Some("plan_reviews"@) }),
        ("PlanRejected"@, StatusView::Projected { table: Some("plan_reviews"@) }),
        ("PlanRevisionRequested"@, StatusView::Projected { table: Some("plan_reviews"@) }),
        ("ProviderBindingCreated"@, StatusView::Projected { table: Some("provider_bindings"@) }),
        (
            "ProviderBindingStateChanged"@,
            StatusView::Projected { table: Some("provider_bindings"@) },
        ),
        (
            "ProviderBudgetAlertTriggered"@,
            StatusView::Projected { table: Some("provider_budgets"@) },
        ),
        ("ProviderBudgetExceeded"@, StatusView::Projected { table: Some("provider_budgets"@) }),
        ("ProviderBudgetSet"@, StatusView::Projected { table: Some("provider_budgets"@) }),
        (
            "ProviderConnectionDeleted"@,
            StatusView::Projected { table: Some("provider_connections"@) },
        ),
        (
            "ProviderConnectionRegistered"@,
            StatusView::Projected { table: Some("provider_connections"@) },
        ),
        (
            "ProviderHealthChecked"@,
            StatusView::Ephemeral {
                reason: "Health probe status is rebuilt on the next probe cycle. The in-memory `ProviderHealthRecord` exists only for the live `run_due_health_checks` endpoint; operators observe status via SSE + metrics. Persisting every probe hit would grow without bound with no read-after-restart contract. Event log is the audit trail."@,
            },
        ),
        (
            "ProviderHealthScheduleSet"@,
            StatusView::Ephemeral {
                reason: "Health-check schedules are derived configuration rebuilt from provider_bindings at boot (the canonical config). The `ProviderHealthSchedule` in-memory record only drives the in-process scheduler loop; operators view + edit schedules via the binding CRUD path, not a schedule-specific projection. Event log is the audit trail."@,
            },
        ),
        (
            "ProviderHealthScheduleTriggered"@,
            StatusView::Ephemeral {
                reason: "Schedule-tick `last_run_ms` is purely an in-process scheduler marker — restart resets the tick cadence and the next scheduler pass re-triggers probes. No operator read-after-restart surface. Event log is the audit trail."@,
            },
        ),
        (
            "ProviderMarkedDegraded"@,
            StatusView::Ephemeral {
                reason: "The degraded bit lives on the in-memory `ProviderHealthRecord` and is superseded by the next `ProviderHealthChecked` / `ProviderRecovered` event in-process. Persisting it would suggest a read-after-restart contract cairn does not expose — operators see degradation via SSE + metrics. Event log is the audit trail."@,
            },
        ),
        (
            "ProviderModelRegistered"@,
            StatusView::Ephemeral {
                reason: "Capability announcements are informational — the in-memory applier is already a no-op and the runtime layer exposes no `ProviderModelReadModel` consumer today (only the in-memory `InMemoryStore` impl exists, used by a handful of tests). Operator re-announces on restart; the event log keeps the audit trail."@,
            },
        ),
        (
            "ProviderPoolConnectionAdded"@,
            StatusView::Ephemeral {
                reason: "Pool membership tracks live HTTP-client state; it is rebuilt from provider_bindings + provider_connections on boot. Persisting the mutation would diverge from the live pool the moment reqwest reconnects. Event log is the audit trail."@,
            },
        ),
        (
            "ProviderPoolConnectionRemoved"@,
            StatusView::Ephemeral {
                reason: "Counterpart to `ProviderPoolConnectionAdded` — pool membership is live-HTTP-client state rebuilt from bindings + connections at boot. Event log is the audit trail."@,
            },
        ),
        (
            "ProviderPoolCreated"@,
            StatusView::Ephemeral {
                reason: "Pools are live HTTP-client state (active_connections, reqwest::Client references). Rebuilt from provider_bindings + provider_connections on boot; persistence would diverge from reality. Event log is the audit trail."@,
            },
        ),
        (
            "ProviderRecovered"@,
            StatusView::Ephemeral {
                reason: "Recovery flip complements `ProviderMarkedDegraded` — the next probe cycle is authoritative, the in-memory status survives only until the next `ProviderHealthChecked`. No operator read-after-restart surface. Event log is the audit trail."@,
            },
        ),
        (
            "ProviderRetryPolicySet"@,
            StatusView::Ephemeral {
                reason: "Retry policy today has no reader in cairn-runtime — the HTTP handler only appends the event (see `set_provider_retry_policy_handler` in cairn-app/src/handlers/providers.rs). Operator re-sets on restart; persisting would suggest a read-after-restart contract cairn does not implement. Event log is the audit trail."@,
            },
        ),
        (
            "RecoveryEscalated"@,
            StatusView::Ephemeral {
                reason: "The event carries no tenant_id so a tenant-scoped read-model projection would require a new event version (domain change). Until then the `RecoveryEscalationReadModel` in-memory impl keeps the observability-only contract: escalations surface via SSE + metrics and the event log is the audit trail. Revisit post-v0.1 when RecoveryEscalated gains tenant_id."@,
            },
        ),
        ("ResourceShareRevoked"@, StatusView::Projected { table: Some("resource_shares"@) }),
        ("ResourceShared"@, StatusView::Projected { table: Some("resource_shares"@) }),
        ("RetentionPolicySet"@, StatusView::Projected { table: Some("retention_policies"@) }),
        ("RoutePolicyUpdated"@, StatusView::Projected { table: Some("route_policies"@) }),
        ("RunCostAlertSet"@, StatusView::Projected { table: Some("run_cost_alerts"@) }),
        ("RunCostAlertTriggered"@, StatusView::Projected { table: Some("run_cost_alerts"@) }),
        ("RunCostUpdated"@, StatusView::Projected { table: Some("run_costs"@) }),
        ("ScheduledTaskCreated"@, StatusView::Projected { table: Some("scheduled_tasks"@) }),
        ("SignalIngested"@, StatusView::Projected { table: Some("signal_ingestions"@) }),
        ("SoulPatchApplied"@, StatusView::Projected { table: Some("soul_patches"@) }),
        ("SoulPatchProposed"@, StatusView::Projected { table: Some("soul_patches"@) }),
        (
            "SpendAlertTriggered"@,
            StatusView::Ephemeral {
                reason: "No reader in cairn-runtime or cairn-app — the event is appended as an audit record and operators consume it via SSE (see `cairn-app/src/helpers.rs` event-type classification). The in-memory applier is already a no-op; pg/sqlite match. Event log is the audit trail."@,
            },
        ),
        ("SubagentSpawned"@, StatusView::Projected { table: Some("subagent_spawns"@) }),
        ("TenantQuotaSet"@, StatusView::Projected { table: Some("tenant_quotas"@) }),
        ("TenantQuotaViolated"@, StatusView::Projected { table: Some("tenant_quota_violations"@) }),
        ("ToolRecoveryPaused"@, StatusView::Projected { table: Some("tool_recovery_pauses"@) }),
        ("UserMessageAppended"@, StatusView::Projected { table: Some("user_messages"@) }),
    ]
}

/// The registry of events.
#[verifier::rlimit(100)]
pub fn registry() -> (r: Vec<ProjectionEntry>)
    ensures
        entry_views(r@) == classification(),
{
    vec![
        ProjectionEntry {
            variant: "ApprovalRequested",
            status: ProjectionStatus::Projected { table: Some("approvals") },
        },
        ProjectionEntry {
            variant: "ApprovalResolved",
            status: ProjectionStatus::Projected { table: Some("approvals") },
        },
        ProjectionEntry {
            variant: "CheckpointPersisted",
            status: ProjectionStatus::Projected { table: Some("checkpoints") },
        },
        ProjectionEntry {
            variant: "CheckpointRecorded",
            status: ProjectionStatus::Projected { table: Some("checkpoints") },
        },
        ProjectionEntry {
            variant: "CheckpointRestored",
            status: ProjectionStatus::Projected { table: Some("checkpoints") },
        },
        ProjectionEntry {
            variant: "DecisionCacheWarmup",
            status: ProjectionStatus::Projected { table: Some("decision_cache_warmups") },
        },
        ProjectionEntry {
            variant: "DecisionRecorded",
            status: ProjectionStatus::Projected { table: Some("decision_records") },
        },
        ProjectionEntry {
            variant: "EvalRubricScored",
            status: ProjectionStatus::Projected { table: Some("eval_runs") },
        },
        ProjectionEntry {
            variant: "EvalRunArchived",
            status: ProjectionStatus::Projected { table: Some("eval_runs") },
        },
        ProjectionEntry {
            variant: "EvalRunCompleted",
            status: ProjectionStatus::Projected { table: Some("eval_runs") },
        },
        ProjectionEntry {
            variant: "EvalRunScored",
            status: ProjectionStatus::Projected { table: Some("eval_runs") },
        },
        ProjectionEntry {
            variant: "EvalRunStarted",
            status: ProjectionStatus::Projected { table: Some("eval_runs") },
        },
        ProjectionEntry {
            variant: "MailboxMessageAppended",
            status: ProjectionStatus::Projected { table: Some("mailbox_messages") },
        },
        ProjectionEntry {
            variant: "ProjectCreated",
            status: ProjectionStatus::Projected { table: Some("projects") },
        },
        ProjectionEntry {
            variant: "PromptAssetCreated",
            status: ProjectionStatus::Projected { table: Some("prompt_assets") },
        },
        ProjectionEntry {
            variant: "PromptReleaseCreated",
            status: ProjectionStatus::Projected { table: Some("prompt_releases") },
        },
        ProjectionEntry {
            variant: "PromptReleaseTransitioned",
            status: ProjectionStatus::Projected { table: Some("prompt_releases") },
        },
        ProjectionEntry {
            variant: "PromptVersionCreated",
            status: ProjectionStatus::Projected { table: Some("prompt_versions") },
        },
        ProjectionEntry {
            variant: "ProviderCallCompleted",
            status: ProjectionStatus::Projected { table: Some("provider_calls") },
        },
        ProjectionEntry {
            variant: "RecoveryAttempted",
            status: ProjectionStatus::Projected { table: Some("recovery_attempts") },
        },
        ProjectionEntry {
            variant: "RecoveryCompleted",
            status: ProjectionStatus::Projected { table: Some("recovery_completions") },
        },
        ProjectionEntry {
            variant: "RecoverySummaryEmitted",
            status: ProjectionStatus::Projected { table: Some("recovery_summaries") },
        },
        ProjectionEntry {
            variant: "RouteDecisionMade",
            status: ProjectionStatus::Projected { table: Some("route_decisions") },
        },
        ProjectionEntry {
            variant: "RoutePolicyCreated",
            status: ProjectionStatus::Projected { table: Some("route_policies") },
        },
        ProjectionEntry {
            variant: "RunCompletionAnnotated",
            status: ProjectionStatus::Projected { table: Some("runs") },
        },
        ProjectionEntry {
            variant: "RunCreated",
            status: ProjectionStatus::Projected { table: Some("runs") },
        },
        ProjectionEntry {
            variant: "RunStateChanged",
            status: ProjectionStatus::Projected { table: Some("runs") },
        },
        ProjectionEntry {
            variant: "SessionAttemptStarted",
            status: ProjectionStatus::Projected { table: Some("sessions") },
        },
        ProjectionEntry {
            variant: "SessionCostUpdated",
            status: ProjectionStatus::Projected { table: Some("session_costs") },
        },
        ProjectionEntry {
            variant: "SessionCreated",
            status: ProjectionStatus::Projected { table: Some("sessions") },
        },
        ProjectionEntry {
            variant: "SessionOutcomeEmitted",
            status: ProjectionStatus::Projected { table: Some("session_outcomes") },
        },
        ProjectionEntry {
            variant: "SessionStateChanged",
            status: ProjectionStatus::Projected { table: Some("sessions") },
        },
        ProjectionEntry {
            variant: "TaskCreated",
            status: ProjectionStatus::Projected { table: Some("tasks") },
        },
        ProjectionEntry {
            variant: "TaskLeaseClaimed",
            status: ProjectionStatus::Projected { table: Some("tasks") },
        },
        ProjectionEntry {
            variant: "TaskLeaseHeartbeated",
            status: ProjectionStatus::Projected { table: Some("tasks") },
        },
        ProjectionEntry {
            variant: "TaskStateChanged",
            status: ProjectionStatus::Projected { table: Some("tasks") },
        },
        ProjectionEntry {
            variant: "TenantCreated",
            status: ProjectionStatus::Projected { table: Some("tenants") },
        },
        ProjectionEntry {
            variant: "TerminalRecoveryAttempted",
            status: ProjectionStatus::Projected { table: Some("runs") },
        },
        ProjectionEntry {
            variant: "ToolCallAmended",
            status: ProjectionStatus::Projected { table: Some("tool_call_approvals") },
        },
        ProjectionEntry {
            variant: "ToolCallApproved",
            status: ProjectionStatus::Projected { table: Some("tool_call_approvals") },
        },
        ProjectionEntry {
            variant: "ToolCallProposed",
            status: ProjectionStatus::Projected { table: Some("tool_call_approvals") },
        },
        ProjectionEntry {
            variant: "ToolCallRejected",
            status: ProjectionStatus::Projected { table: Some("tool_call_approvals") },
        },
        ProjectionEntry {
            variant: "ToolInvocationCacheHit",
            status: ProjectionStatus::Projected { table: Some("tool_invocation_cache_hits") },
        },
        ProjectionEntry {
            variant: "ToolInvocationCompleted",
            status: ProjectionStatus::Projected { table: Some("tool_invocations") },
        },
        ProjectionEntry {
            variant: "ToolInvocationFailed",
            status: ProjectionStatus::Projected { table: Some("tool_invocations") },
        },
        ProjectionEntry {
            variant: "ToolInvocationProgressUpdated",
            status: ProjectionStatus::Projected { table: Some("tool_invocation_progress") },
        },
        ProjectionEntry {
            variant: "ToolInvocationStarted",
            status: ProjectionStatus::Projected { table: Some("tool_invocations") },
        },
        ProjectionEntry {
            variant: "WorkspaceArchived",
            status: ProjectionStatus::Projected { table: Some("workspaces") },
        },
        ProjectionEntry {
            variant: "WorkspaceCreated",
            status: ProjectionStatus::Projected { table: Some("workspaces") },
        },
        ProjectionEntry {
            variant: "WorkspaceMemberAdded",
            status: ProjectionStatus::Projected { table: Some("workspace_members") },
        },
        ProjectionEntry {
            variant: "WorkspaceMemberRemoved",
            status: ProjectionStatus::Projected { table: Some("workspace_members") },
        },
        ProjectionEntry {
            variant: "WorkspaceSnapshotCreated",
            status: ProjectionStatus::Projected { table: Some("workspace_snapshots") },
        },
        ProjectionEntry {
            variant: "WorkspaceSnapshotReaped",
            status: ProjectionStatus::Projected { table: Some("workspace_snapshots") },
        },
        ProjectionEntry {
            variant: "ApprovalPolicyCreated",
            status: ProjectionStatus::Ephemeral {
                reason: "RFC 005 approval policies — no durable table yet; service-layer in-memory registry until table ships",
            },
        },
        ProjectionEntry {
            variant: "BudgetThresholdCrossed",
            status: ProjectionStatus::Ephemeral {
                reason: "F65 observability: SSE + metrics only; no read-model table",
            },
        },
        ProjectionEntry {
            variant: "CircuitBreakerTripped",
            status: ProjectionStatus::Ephemeral {
                reason: "F65 observability: SSE + metrics only; breaker trip is visible via session_outcomes.termination_reason",
            },
        },
        ProjectionEntry {
            variant: "OrchestratorDecisionMade",
            status: ProjectionStatus::Ephemeral {
                reason: "F65 observability: SSE + metrics only; no read-model table",
            },
        },
        ProjectionEntry {
            variant: "PromptRolloutStarted",
            status: ProjectionStatus::Ephemeral {
                reason: "RFC 001 gradual rollout — state tracked via the prompt_releases projection",
            },
        },
        ProjectionEntry {
            variant: "RunSlaBreached",
            status: ProjectionStatus::Ephemeral {
                reason: "SLA breach surfaces via notifications + SSE; no dedicated table",
            },
        },
        ProjectionEntry {
            variant: "RunSlaSet",
            status: ProjectionStatus::Ephemeral {
                reason: "SLA set — policy-layer state, no dedicated runtime table",
            },
        },
        ProjectionEntry {
            variant: "RunTemplateCreated",
            status: ProjectionStatus::Projected { table: Some("run_templates") },
        },
        ProjectionEntry {
            variant: "RunTemplateDeleted",
            status: ProjectionStatus::Projected { table: Some("run_templates") },
        },
        ProjectionEntry {
            variant: "SandboxCrashRecovered",
            status: ProjectionStatus::Ephemeral {
                reason: "F65 PR-5 #359: crash-recovery umount sweep is observability-only (SSE + metrics)",
            },
        },
        ProjectionEntry {
            variant: "SessionAttemptCompleted",
            status: ProjectionStatus::Ephemeral {
                reason: "Visible via event log + subsequent SessionOutcomeEmitted row; no dedicated table",
            },
        },
        ProjectionEntry {
            variant: "SignalRouted",
            status: ProjectionStatus::Ephemeral {
                reason: "Signal routing — projection lives in cairn-signal service layer, not cairn-store",
            },
        },
        ProjectionEntry {
            variant: "SignalSubscriptionCreated",
            status: ProjectionStatus::Ephemeral {
                reason: "Signal subscription — projection lives in cairn-signal service layer",
            },
        },
        ProjectionEntry {
            variant: "SnapshotCreated",
            status: ProjectionStatus::Ephemeral {
                reason: "Workspace snapshot event predates F65 WorkspaceSnapshotCreated; retained for back-compat",
            },
        },
        ProjectionEntry {
            variant: "SummarizerFallback",
            status: ProjectionStatus::Ephemeral {
                reason: "F65 observability: SSE + metrics only; no read-model table",
            },
        },
        ProjectionEntry {
            variant: "TaskDependencyAdded",
            status: ProjectionStatus::Ephemeral {
                reason: "Task dependency edges — graph projection owns the read model, not cairn-store",
            },
        },
        ProjectionEntry {
            variant: "TaskDependencyResolved",
            status: ProjectionStatus::Ephemeral {
                reason: "Task dependency edges — graph projection owns the read model, not cairn-store",
            },
        },
        ProjectionEntry {
            variant: "TaskLeaseExpired",
            status: ProjectionStatus::Ephemeral {
                reason: "Lease expiry — owned by FlowFabric lease-history; cairn mirrors via TaskStateChanged",
            },
        },
        ProjectionEntry {
            variant: "TaskPriorityChanged",
            status: ProjectionStatus::Ephemeral {
                reason: "Priority changes — scheduler-layer concern; audit via event log",
            },
        },
        ProjectionEntry {
            variant: "TriggerCreated",
            status: ProjectionStatus::Projected { table: Some("triggers") },
        },
        ProjectionEntry {
            variant: "TriggerDeleted",
            status: ProjectionStatus::Projected { table: Some("triggers") },
        },
        ProjectionEntry {
            variant: "TriggerDenied",
            status: ProjectionStatus::Projected { table: Some("trigger_fires") },
        },
        ProjectionEntry {
            variant: "TriggerDisabled",
            status: ProjectionStatus::Projected { table: Some("triggers") },
        },
        ProjectionEntry {
            variant: "TriggerEnabled",
            status: ProjectionStatus::Projected { table: Some("triggers") },
        },
        ProjectionEntry {
            variant: "TriggerFired",
            status: ProjectionStatus::Projected { table: Some("trigger_fires") },
        },
        ProjectionEntry {
            variant: "TriggerPendingApproval",
            status: ProjectionStatus::Projected { table: Some("trigger_fires") },
        },
        ProjectionEntry {
            variant: "TriggerRateLimited",
            status: ProjectionStatus::Projected { table: Some("trigger_fires") },
        },
        ProjectionEntry {
            variant: "TriggerResumed",
            status: ProjectionStatus::Projected { table: Some("triggers") },
        },
        ProjectionEntry {
            variant: "TriggerSkipped",
            status: ProjectionStatus::Projected { table: Some("trigger_fires") },
        },
        ProjectionEntry {
            variant: "TriggerSuspended",
            status: ProjectionStatus::Projected { table: Some("triggers") },
        },
        ProjectionEntry {
            variant: "WorkspaceBackendDegraded",
            status: ProjectionStatus::Ephemeral {
                reason: "F65 observability: SSE + metrics only; no read-model table",
            },
        },
        ProjectionEntry {
            variant: "ApprovalDelegated",
            status: ProjectionStatus::Projected { table: Some("approval_delegations") },
        },
        ProjectionEntry {
            variant: "AuditLogEntryRecorded",
            status: ProjectionStatus::Projected { table: Some("audit_log_entries") },
        },
        ProjectionEntry {
            variant: "ChannelCreated",
            status: ProjectionStatus::Projected { table: Some("channels") },
        },
        ProjectionEntry {
            variant: "ChannelMessageConsumed",
            status: ProjectionStatus::Projected { table: Some("channel_messages") },
        },
        ProjectionEntry {
            variant: "ChannelMessageSent",
            status: ProjectionStatus::Projected { table: Some("channel_messages") },
        },
        ProjectionEntry {
            variant: "CheckpointStrategySet",
            status: ProjectionStatus::Projected { table: Some("checkpoint_strategies") },
        },
        ProjectionEntry {
            variant: "CredentialKeyRotated",
            status: ProjectionStatus::Projected { table: Some("credential_rotations") },
        },
        ProjectionEntry {
            variant: "CredentialRevoked",
            status: ProjectionStatus::Projected { table: Some("credentials") },
        },
        ProjectionEntry {
            variant: "CredentialStored",
            status: ProjectionStatus::Projected { table: Some("credentials") },
        },
        ProjectionEntry {
            variant: "DefaultSettingCleared",
            status: ProjectionStatus::Projected { table: Some("default_settings") },
        },
        ProjectionEntry {
            variant: "DefaultSettingSet",
            status: ProjectionStatus::Projected { table: Some("default_settings") },
        },
        ProjectionEntry {
            variant: "EntitlementOverrideSet",
            status: ProjectionStatus::Projected { table: Some("entitlement_overrides") },
        },
        ProjectionEntry {
            variant: "EvalBaselineLocked",
            status: ProjectionStatus::Projected { table: Some("eval_baselines") },
        },
        ProjectionEntry {
            variant: "EvalBaselineSet",
            status: ProjectionStatus::Projected { table: Some("eval_baselines") },
        },
        ProjectionEntry {
            variant: "EvalDatasetCreated",
            status: ProjectionStatus::Projected { table: Some("eval_datasets") },
        },
        ProjectionEntry {
            variant: "EvalDatasetEntryAdded",
            status: ProjectionStatus::Projected { table: Some("eval_dataset_entries") },
        },
        ProjectionEntry {
            variant: "EvalRubricCreated",
            status: ProjectionStatus::Projected { table: Some("eval_rubrics") },
        },
        ProjectionEntry {
            variant: "EventLogCompacted",
            status: ProjectionStatus::Ephemeral {
                reason: "Event-log compaction is a single-shot maintenance operation — the compaction boundary is visible in `event_log` via the first remaining position; no dedicated read-model row is needed and no operator UI queries by compaction timestamp.",
            },
        },
        ProjectionEntry {
            variant: "ExternalWorkerReactivated",
            status: ProjectionStatus::Projected { table: Some("external_workers") },
        },
        ProjectionEntry {
            variant: "ExternalWorkerRegistered",
            status: ProjectionStatus::Projected { table: Some("external_workers") },
        },
        ProjectionEntry {
            variant: "ExternalWorkerReported",
            status: ProjectionStatus::Projected { table: Some("external_workers") },
        },
        ProjectionEntry {
            variant: "ExternalWorkerSuspended",
            status: ProjectionStatus::Projected { table: Some("external_workers") },
        },
        ProjectionEntry {
            variant: "GuardrailPolicyCreated",
            status: ProjectionStatus::Projected { table: Some("guardrail_policies") },
        },
        ProjectionEntry {
            variant: "GuardrailPolicyEvaluated",
            status: ProjectionStatus::Projected { table: Some("guardrail_evaluations") },
        },
        ProjectionEntry {
            variant: "IngestJobCompleted",
            status: ProjectionStatus::Projected { table: Some("ingest_jobs") },
        },
        ProjectionEntry {
            variant: "IngestJobStarted",
            status: ProjectionStatus::Projected { table: Some("ingest_jobs") },
        },
        ProjectionEntry {
            variant: "LicenseActivated",
            status: ProjectionStatus::Projected { table: Some("licenses") },
        },
        ProjectionEntry {
            variant: "NotificationPreferenceSet",
            status: ProjectionStatus::Projected { table: Some("notification_preferences") },
        },
        ProjectionEntry {
            variant: "NotificationSent",
            status: ProjectionStatus::Projected { table: Some("notifications") },
        },
        ProjectionEntry {
            variant: "OperatorIntervention",
            status: ProjectionStatus::Ephemeral {
                reason: "`OperatorInterventionReadModel::list_by_run` walks the event log directly on every backend (pg/sqlite reads replay into `InMemoryStore` at boot; the read impl iterates `state.events` and filters by `run_id`). A dedicated projection table would duplicate the event-log contents without a new read path — the event log itself is the audit trail, which is the Ephemeral contract. Gated by `load_run_visible_to_tenant` for cross-tenant isolation.",
            },
        },
        ProjectionEntry {
            variant: "OperatorProfileCreated",
            status: ProjectionStatus::Projected { table: Some("operator_profiles") },
        },
        ProjectionEntry {
            variant: "OperatorProfileUpdated",
            status: ProjectionStatus::Projected { table: Some("operator_profiles") },
        },
        ProjectionEntry {
            variant: "OutcomeRecorded",
            status: ProjectionStatus::Projected { table: Some("outcomes") },
        },
        ProjectionEntry {
            variant: "PauseScheduled",
            status: ProjectionStatus::Projected { table: Some("pause_schedules") },
        },
        ProjectionEntry {
            variant: "PermissionDecisionRecorded",
            status: ProjectionStatus::Stubbed {
                tracking: "RFC-025 Phase 2b.5 (permission decisions — Ephemeral reclassification deferred; the in-memory applier is already a no-op and no reader exists anywhere in cairn-runtime / cairn-app, so the pg/sqlite log_stub is purely a tracking signal until the parallel pause-lifecycle work lands and the stub-guard diff window clears)",
            },
        },
        ProjectionEntry {
            variant: "PlanApproved",
            status: ProjectionStatus::Projected { table: Some("plan_reviews") },
        },
        ProjectionEntry {
            variant: "PlanProposed",
            status: ProjectionStatus::Projected { table: Some("plan_reviews") },
        },
        ProjectionEntry {
            variant: "PlanRejected",
            status: ProjectionStatus::Projected { table: Some("plan_reviews") },
        },
        ProjectionEntry {
            variant: "PlanRevisionRequested",
            status: ProjectionStatus::Projected { table: Some("plan_reviews") },
        },
        ProjectionEntry {
            variant: "ProviderBindingCreated",
            status: ProjectionStatus::Projected { table: Some("provider_bindings") },
        },
        ProjectionEntry {
            variant: "ProviderBindingStateChanged",
            status: ProjectionStatus::Projected { table: Some("provider_bindings") },
        },
        ProjectionEntry {
            variant: "ProviderBudgetAlertTriggered",
            status: ProjectionStatus::Projected { table: Some("provider_budgets") },
        },
        ProjectionEntry {
            variant: "ProviderBudgetExceeded",
            status: ProjectionStatus::Projected { table: Some("provider_budgets") },
        },
        ProjectionEntry {
            variant: "ProviderBudgetSet",
            status: ProjectionStatus::Projected { table: Some("provider_budgets") },
        },
        ProjectionEntry {
            variant: "ProviderConnectionDeleted",
            status: ProjectionStatus::Projected { table: Some("provider_connections") },
        },
        ProjectionEntry {
            variant: "ProviderConnectionRegistered",
            status: ProjectionStatus::Projected { table: Some("provider_connections") },
        },
        ProjectionEntry {
            variant: "ProviderHealthChecked",
            status: ProjectionStatus::Ephemeral {
                reason: "Health probe status is rebuilt on the next probe cycle. The in-memory `ProviderHealthRecord` exists only for the live `run_due_health_checks` endpoint; operators observe status via SSE + metrics. Persisting every probe hit would grow without bound with no read-after-restart contract. Event log is the audit trail.",
            },
        },
        ProjectionEntry {
            variant: "ProviderHealthScheduleSet",
            status: ProjectionStatus::Ephemeral {
                reason: "Health-check schedules are derived configuration rebuilt from provider_bindings at boot (the canonical config). The `ProviderHealthSchedule` in-memory record only drives the in-process scheduler loop; operators view + edit schedules via the binding CRUD path, not a schedule-specific projection. Event log is the audit trail.",
            },
        },
        ProjectionEntry {
            variant: "ProviderHealthScheduleTriggered",
            status: ProjectionStatus::Ephemeral {
                reason: "Schedule-tick `last_run_ms` is purely an in-process scheduler marker — restart resets the tick cadence and the next scheduler pass re-triggers probes. No operator read-after-restart surface. Event log is the audit trail.",
            },
        },
        ProjectionEntry {
            variant: "ProviderMarkedDegraded",
            status: ProjectionStatus::Ephemeral {
                reason: "The degraded bit lives on the in-memory `ProviderHealthRecord` and is superseded by the next `ProviderHealthChecked` / `ProviderRecovered` event in-process. Persisting it would suggest a read-after-restart contract cairn does not expose — operators see degradation via SSE + metrics. Event log is the audit trail.",
            },
        },
        ProjectionEntry {
            variant: "ProviderModelRegistered",
            status: ProjectionStatus::Ephemeral {
                reason: "Capability announcements are informational — the in-memory applier is already a no-op and the runtime layer exposes no `ProviderModelReadModel` consumer today (only the in-memory `InMemoryStore` impl exists, used by a handful of tests). Operator re-announces on restart; the event log keeps the audit trail.",
            },
        },
        ProjectionEntry {
            variant: "ProviderPoolConnectionAdded",
            status: ProjectionStatus::Ephemeral {
                reason: "Pool membership tracks live HTTP-client state; it is rebuilt from provider_bindings + provider_connections on boot. Persisting the mutation would diverge from the live pool the moment reqwest reconnects. Event log is the audit trail.",
            },
        },
        ProjectionEntry {
            variant: "ProviderPoolConnectionRemoved",
            status: ProjectionStatus::Ephemeral {
                reason: "Counterpart to `ProviderPoolConnectionAdded` — pool membership is live-HTTP-client state rebuilt from bindings + connections at boot. Event log is the audit trail.",
            },
        },
        ProjectionEntry {
            variant: "ProviderPoolCreated",
            status: ProjectionStatus::Ephemeral {
                reason: "Pools are live HTTP-client state (active_connections, reqwest::Client references). Rebuilt from provider_bindings + provider_connections on boot; persistence would diverge from reality. Event log is the audit trail.",
            },
        },
        ProjectionEntry {
            variant: "ProviderRecovered",
            status: ProjectionStatus::Ephemeral {
                reason: "Recovery flip complements `ProviderMarkedDegraded` — the next probe cycle is authoritative, the in-memory status survives only until the next `ProviderHealthChecked`. No operator read-after-restart surface. Event log is the audit trail.",
            },
        },
        ProjectionEntry {
            variant: "ProviderRetryPolicySet",
            status: ProjectionStatus::Ephemeral {
                reason: "Retry policy today has no reader in cairn-runtime — the HTTP handler only appends the event (see `set_provider_retry_policy_handler` in cairn-app/src/handlers/providers.rs). Operator re-sets on restart; persisting would suggest a read-after-restart contract cairn does not implement. Event log is the audit trail.",
            },
        },
        ProjectionEntry {
            variant: "RecoveryEscalated",
            status: ProjectionStatus::Ephemeral {
                reason: "The event carries no tenant_id so a tenant-scoped read-model projection would require a new event version (domain change). Until then the `RecoveryEscalationReadModel` in-memory impl keeps the observability-only contract: escalations surface via SSE + metrics and the event log is the audit trail. Revisit post-v0.1 when RecoveryEscalated gains tenant_id.",
            },
        },
        ProjectionEntry {
            variant: "ResourceShareRevoked",
            status: ProjectionStatus::Projected { table: Some("resource_shares") },
        },
        ProjectionEntry {
            variant: "ResourceShared",
            status: ProjectionStatus::Projected { table: Some("resource_shares") },
        },
        ProjectionEntry {
            variant: "RetentionPolicySet",
            status: ProjectionStatus::Projected { table: Some("retention_policies") },
        },
        ProjectionEntry {
            variant: "RoutePolicyUpdated",
            status: ProjectionStatus::Projected { table: Some("route_policies") },
        },
        ProjectionEntry {
            variant: "RunCostAlertSet",
            status: ProjectionStatus::Projected { table: Some("run_cost_alerts") },
        },
        ProjectionEntry {
            variant: "RunCostAlertTriggered",
            status: ProjectionStatus::Projected { table: Some("run_cost_alerts") },
        },
        ProjectionEntry {
            variant: "RunCostUpdated",
            status: ProjectionStatus::Projected { table: Some("run_costs") },
        },
        ProjectionEntry {
            variant: "ScheduledTaskCreated",
            status: ProjectionStatus::Projected { table: Some("scheduled_tasks") },
        },
        ProjectionEntry {
            variant: "SignalIngested",
            status: ProjectionStatus::Projected { table: Some("signal_ingestions") },
        },
        ProjectionEntry {
            variant: "SoulPatchApplied",
            status: ProjectionStatus::Projected { table: Some("soul_patches") },
        },
        ProjectionEntry {
            variant: "SoulPatchProposed",
            status: ProjectionStatus::Projected { table: Some("soul_patches") },
        },
        ProjectionEntry {
            variant: "SpendAlertTriggered",
            status: ProjectionStatus::Ephemeral {
                reason: "No reader in cairn-runtime or cairn-app — the event is appended as an audit record and operators consume it via SSE (see `cairn-app/src/helpers.rs` event-type classification). The in-memory applier is already a no-op; pg/sqlite match. Event log is the audit trail.",
            },
        },
        ProjectionEntry {
            variant: "SubagentSpawned",
            status: ProjectionStatus::Projected { table: Some("subagent_spawns") },
        },
        ProjectionEntry {
            variant: "TenantQuotaSet",
            status: ProjectionStatus::Projected { table: Some("tenant_quotas") },
        },
        ProjectionEntry {
            variant: "TenantQuotaViolated",
            status: ProjectionStatus::Projected { table: Some("tenant_quota_violations") },
        },
        ProjectionEntry {
            variant: "ToolRecoveryPaused",
            status: ProjectionStatus::Projected { table: Some("tool_recovery_pauses") },
        },
        ProjectionEntry {
            variant: "UserMessageAppended",
            status: ProjectionStatus::Projected { table: Some("user_messages") },
        },
    ]
}

/// The status of the first entry for an event, if there is one.
pub open spec fn status_in(
    entries: Seq<(Seq<char>, StatusView)>,
    variant: Seq<char>,
) -> Option<StatusView>
    decreases entries.len(),
{
    if entries.len() == 0 {
        None
    } else if entries[0].0 == variant {
        Some(entries[0].1)
    } else {
        status_in(entries.drop_first(), variant)
    }
}

/// How an event is projected; none where it is not registered.
pub fn lookup(variant: &str) -> (r: Option<ProjectionStatus>)
    ensures
        match r {
            Some(status) => status_in(classification(), variant@) == Some(status@),
            None => status_in(classification(), variant@) is None,
        },
{
    let entries = registry();
    let ghost all = entry_views(entries@);
    let mut i: usize = 0;
    assert(all.skip(0) =~= all);
    while i < entries.len()
        invariant
            i <= entries.len(),
            all == entry_views(entries@),
            all == classification(),
            status_in(all, variant@) == status_in(all.skip(i as int), variant@),
        decreases entries.len() - i,
    {
        assert(all.skip(i as int)[0] == entries@[i as int]@);
        assert(all.skip(i as int).drop_first() =~= all.skip(i + 1));
        if same_text(entries[i].variant, variant) {
            return Some(entries[i].status);
        }
        i = i + 1;
    }
    None
}

/// The names of the events that are not projected yet, in order.
pub open spec fn stubbed_in(entries: Seq<(Seq<char>, StatusView)>) -> Seq<Seq<char>>
    decreases entries.len(),
{
    if entries.len() == 0 {
        Seq::empty()
    } else {
        let before = stubbed_in(entries.drop_last());
        if entries.last().1 is Stubbed {
            before.push(entries.last().0)
        } else {
            before
        }
    }
}

/// Why the registry does not fit a backend.
#[derive(Debug)]
pub enum RegistryError {
    /// Some events are not projected yet.
    StubbedVariantsPresent { backend: Backend, stubbed: Vec<&'static str> },
}

/// The names, in order.
pub open spec fn names(s: Seq<&'static str>) -> Seq<Seq<char>> {
    s.map_values(|n: &'static str| n@)
}

/// The first `n` names, separated by commas.
pub open spec fn listed(s: Seq<Seq<char>>, n: nat) -> Seq<char>
    decreases n,
{
    if n == 0 {
        Seq::empty()
    } else if n == 1 {
        s[0]
    } else {
        listed(s, (n - 1) as nat) + ", "@ + s[n - 1]
    }
}

impl RegistryError {
    /// The message.
    pub open spec fn spec_message(self) -> Seq<char> {
        match self {
            RegistryError::StubbedVariantsPresent { backend, stubbed } => "projection registry: "@
                + crate::text::decimal(stubbed@.len())
                + " RuntimeEvent variant(s) are still stubbed for backend "@ + backend.spec_name()
                + " (every variant on a persistent backend must be either Projected or Ephemeral per RFC-025; Stubbed is not a supported steady state): "@
                + listed(names(stubbed@), stubbed@.len()),
        }
    }

    /// The message.
    pub fn to_string(&self) -> (r: String)
        ensures
            r@ == self.spec_message(),
    {
        match self {
            RegistryError::StubbedVariantsPresent { backend, stubbed } => {
                let mut message: String = "projection registry: ".to_owned();
                push_decimal(&mut message, stubbed.len() as u64);
                message.append(" RuntimeEvent variant(s) are still stubbed for backend ");
                message.append(backend.name());
                message.append(
                    " (every variant on a persistent backend must be either Projected or Ephemeral per RFC-025; Stubbed is not a supported steady state): ",
                );
                let ghost head = message@;
                let mut i: usize = 0;
                while i < stubbed.len()
                    invariant
                        i <= stubbed.len(),
                        message@ == head + listed(names(stubbed@), i as nat),
                    decreases stubbed.len() - i,
                {
                    if i > 0 {
                        message.append(", ");
                    }
                    message.append(stubbed[i]);
                    assert(names(stubbed@)[i as int] == stubbed@[i as int]@);
                    assert(message@ =~= head + listed(names(stubbed@), (i + 1) as nat));
                    i = i + 1;
                }
                message
            },
        }
    }
}

/// Refuses a persistent backend while an event is not projected yet, and names
/// each such event.
pub fn assert_no_stubs_for_persistent_backend(backend: Backend) -> (r: Result<(), RegistryError>)
    ensures
        match r {
            Ok(_) => stubbed_in(classification()).len() == 0,
            Err(RegistryError::StubbedVariantsPresent { backend: b, stubbed }) => {
                &&& b == backend
                &&& names(stubbed@) == stubbed_in(classification())
                &&& stubbed@.len() > 0
            },
        },
{
    let entries = registry();
    let ghost all = entry_views(entries@);
    let mut stubbed: Vec<&'static str> = Vec::new();
    let mut i: usize = 0;
    assert(names(stubbed@) =~= Seq::empty());
    while i < entries.len()
        invariant
            i <= entries.len(),
            all == entry_views(entries@),
            names(stubbed@) == stubbed_in(all.take(i as int)),
        decreases entries.len() - i,
    {
        assert(all.take(i + 1).drop_last() =~= all.take(i as int));
        assert(all.take(i + 1).last() == entries@[i as int]@);
        if entries[i].status.is_stubbed() {
            let ghost before = stubbed@;
            stubbed.push(entries[i].variant);
            assert(names(stubbed@) =~= names(before).push(entries@[i as int].variant@));
        }
        i = i + 1;
    }
    assert(all.take(i as int) =~= all);
    assert(names(stubbed@).len() == stubbed@.len());
    if stubbed.len() == 0 {
        Ok(())
    } else {
        Err(RegistryError::StubbedVariantsPresent { backend, stubbed })
    }
}

/// An in-memory store has nothing to refuse.
pub fn assert_no_stubs_for_in_memory() -> (r: Result<(), RegistryError>)
    ensures
        r is Ok,
{
    Ok(())
}

} // verus!
