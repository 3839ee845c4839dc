//! The names that are stored, read and reported.

use crate::event_log::EventSource;
use crate::projection_registry::Backend;
use crate::schema::{Column, Table};
use crate::vocabulary::{
    ActualOutcome, AuditOutcome, CheckpointDisposition, DecisionOutcome, GuardrailDecisionKind,
    GuardrailSubjectType, IngestJobState, OperationKind, PlanReviewState, ProductTier,
    ProviderBudgetPeriod, ProviderConnectionStatus, Scope, SoulPatchState, ToolCallApprovalState,
    ToolInvocationOutcomeKind, ToolInvocationState, TriggerStateKind,
};
use vstd::prelude::*;

verus! {

/// Each table goes by its name in the schema.
pub proof fn the_names_of_the_tables(table: Table)
    ensures
        table.spec_name() == match table {
            Table::ApprovalDelegations => "approval_delegations"@,
            Table::Approvals => "approvals"@,
            Table::AuditLogEntries => "audit_log_entries"@,
            Table::ChannelMessages => "channel_messages"@,
            Table::Channels => "channels"@,
            Table::CheckpointStrategies => "checkpoint_strategies"@,
            Table::Checkpoints => "checkpoints"@,
            Table::CredentialRotations => "credential_rotations"@,
            Table::Credentials => "credentials"@,
            Table::DecisionCacheWarmups => "decision_cache_warmups"@,
            Table::DecisionRecords => "decision_records"@,
            Table::DefaultSettings => "default_settings"@,
            Table::EntitlementOverrides => "entitlement_overrides"@,
            Table::EvalBaselines => "eval_baselines"@,
            Table::EvalDatasetEntries => "eval_dataset_entries"@,
            Table::EvalDatasets => "eval_datasets"@,
            Table::EvalRubrics => "eval_rubrics"@,
            Table::EvalRuns => "eval_runs"@,
            Table::ExternalWorkers => "external_workers"@,
            Table::FfLeaseHistoryCursors => "ff_lease_history_cursors"@,
            Table::GuardrailEvaluations => "guardrail_evaluations"@,
            Table::GuardrailPolicies => "guardrail_policies"@,
            Table::IngestJobs => "ingest_jobs"@,
            Table::KnowledgeIngestJobs => "knowledge_ingest_jobs"@,
            Table::Licenses => "licenses"@,
            Table::LlmCompletions => "llm_completions"@,
            Table::MailboxMessages => "mailbox_messages"@,
            Table::NotificationPreferences => "notification_preferences"@,
            Table::Notifications => "notifications"@,
            Table::OperatorProfiles => "operator_profiles"@,
            Table::OperatorTenantRoles => "operator_tenant_roles"@,
            Table::Outcomes => "outcomes"@,
            Table::PauseSchedules => "pause_schedules"@,
            Table::PlanReviews => "plan_reviews"@,
            Table::ProjectAgentRoles => "project_agent_roles"@,
            Table::ProjectCosts => "project_costs"@,
            Table::ProjectKnowledgeProviders => "project_knowledge_providers"@,
            Table::Projects => "projects"@,
            Table::PromptAssets => "prompt_assets"@,
            Table::PromptReleases => "prompt_releases"@,
            Table::PromptVersions => "prompt_versions"@,
            Table::ProviderBindings => "provider_bindings"@,
            Table::ProviderBudgets => "provider_budgets"@,
            Table::ProviderCalls => "provider_calls"@,
            Table::ProviderConnections => "provider_connections"@,
            Table::RecoveryAttempts => "recovery_attempts"@,
            Table::RecoveryCompletions => "recovery_completions"@,
            Table::RecoverySummaries => "recovery_summaries"@,
            Table::ResourceShares => "resource_shares"@,
            Table::RetentionPolicies => "retention_policies"@,
            Table::RouteDecisions => "route_decisions"@,
            Table::RoutePolicies => "route_policies"@,
            Table::RunCostAlerts => "run_cost_alerts"@,
            Table::RunCosts => "run_costs"@,
            Table::RunTemplates => "run_templates"@,
            Table::Runs => "runs"@,
            Table::ScheduledTasks => "scheduled_tasks"@,
            Table::SessionCosts => "session_costs"@,
            Table::SessionOutcomes => "session_outcomes"@,
            Table::Sessions => "sessions"@,
            Table::SignalIngestions => "signal_ingestions"@,
            Table::SoulPatches => "soul_patches"@,
            Table::SubagentSpawns => "subagent_spawns"@,
            Table::Tasks => "tasks"@,
            Table::TenantQuotaViolations => "tenant_quota_violations"@,
            Table::TenantQuotas => "tenant_quotas"@,
            Table::Tenants => "tenants"@,
            Table::ToolCallApprovals => "tool_call_approvals"@,
            Table::ToolInvocationCacheHits => "tool_invocation_cache_hits"@,
            Table::ToolInvocationProgress => "tool_invocation_progress"@,
            Table::ToolInvocations => "tool_invocations"@,
            Table::ToolRecoveryPauses => "tool_recovery_pauses"@,
            Table::TriggerFires => "trigger_fires"@,
            Table::Triggers => "triggers"@,
            Table::UserMessages => "user_messages"@,
            Table::WorkspaceCosts => "workspace_costs"@,
            Table::WorkspaceMembers => "workspace_members"@,
            Table::WorkspaceRegistry => "workspace_registry"@,
            Table::WorkspaceSnapshots => "workspace_snapshots"@,
            Table::Workspaces => "workspaces"@,
        },
{
}

/// Each column goes by its name in the schema.
pub proof fn the_names_of_the_columns(column: Column)
    ensures
        column.spec_name() == match column {
            Column::Action => "action"@,
            Column::Active => "active"@,
            Column::ActiveTaskCount => "active_task_count"@,
            Column::ActorId => "actor_id"@,
            Column::ActualCostMicros => "actual_cost_micros"@,
            Column::ActualOutcome => "actual_outcome"@,
            Column::AdapterType => "adapter_type"@,
            Column::AddedAtMs => "added_at_ms"@,
            Column::AgentType => "agent_type"@,
            Column::AlertThresholdPercent => "alert_threshold_percent"@,
            Column::AlertTriggeredAtMs => "alert_triggered_at_ms"@,
            Column::Allowed => "allowed"@,
            Column::AmendedToolArgs => "amended_tool_args"@,
            Column::AppendedAtMs => "appended_at_ms"@,
            Column::AppliedAtMs => "applied_at_ms"@,
            Column::ApprovalId => "approval_id"@,
            Column::ApprovedAtMs => "approved_at_ms"@,
            Column::ApprovedToolArgs => "approved_tool_args"@,
            Column::ArchivedAt => "archived_at"@,
            Column::ArgsJson => "args_json"@,
            Column::AtMs => "at_ms"@,
            Column::AttemptCount => "attempt_count"@,
            Column::AttemptsUsed => "attempts_used"@,
            Column::BaselineId => "baseline_id"@,
            Column::Body => "body"@,
            Column::BodySizeBytes => "body_size_bytes"@,
            Column::BootId => "boot_id"@,
            Column::BudgetExplorationBudgetShare => "budget_exploration_budget_share"@,
            Column::BudgetId => "budget_id"@,
            Column::BudgetMaxIterations => "budget_max_iterations"@,
            Column::BudgetMaxTokens => "budget_max_tokens"@,
            Column::BudgetMaxWallClockMs => "budget_max_wall_clock_ms"@,
            Column::Bytes => "bytes"@,
            Column::Cached => "cached"@,
            Column::CallId => "call_id"@,
            Column::Capacity => "capacity"@,
            Column::ChannelId => "channel_id"@,
            Column::ChannelKind => "channel_kind"@,
            Column::ChannelTarget => "channel_target"@,
            Column::ChannelsJson => "channels_json"@,
            Column::CheckpointId => "checkpoint_id"@,
            Column::ChildRunId => "child_run_id"@,
            Column::ChildSessionId => "child_session_id"@,
            Column::ChildTaskId => "child_task_id"@,
            Column::CompactedSummary => "compacted_summary"@,
            Column::CompletedAt => "completed_at"@,
            Column::CompletedAtMs => "completed_at_ms"@,
            Column::CompletionAnnotatedAtMs => "completion_annotated_at_ms"@,
            Column::CompletionSummary => "completion_summary"@,
            Column::CompletionVerificationJson => "completion_verification_json"@,
            Column::ConditionsJson => "conditions_json"@,
            Column::ConfiguredBy => "configured_by"@,
            Column::ConsumedAtMs => "consumed_at_ms"@,
            Column::ConsumedBy => "consumed_by"@,
            Column::Content => "content"@,
            Column::ContentHash => "content_hash"@,
            Column::CostMicros => "cost_micros"@,
            Column::CostUsdCap => "cost_usd_cap"@,
            Column::CostUsdUsed => "cost_usd_used"@,
            Column::CreatedAt => "created_at"@,
            Column::CreatedAtMs => "created_at_ms"@,
            Column::CreatedBy => "created_by"@,
            Column::CredentialId => "credential_id"@,
            Column::CredentialType => "credential_type"@,
            Column::CronExpression => "cron_expression"@,
            Column::CurrentSnapshotJson => "current_snapshot_json"@,
            Column::CurrentSpendMicros => "current_spend_micros"@,
            Column::CurrentStateDays => "current_state_days"@,
            Column::CurrentTaskId => "current_task_id"@,
            Column::CurrentValue => "current_value"@,
            Column::DatasetId => "dataset_id"@,
            Column::DecidedAt => "decided_at"@,
            Column::Decision => "decision"@,
            Column::DecisionCacheEntries => "decision_cache_entries"@,
            Column::DecisionId => "decision_id"@,
            Column::DecisionKeyJson => "decision_key_json"@,
            Column::DefaultMode => "default_mode"@,
            Column::DefinedAt => "defined_at"@,
            Column::DefinedBy => "defined_by"@,
            Column::DelegatedAtMs => "delegated_at_ms"@,
            Column::DelegatedTo => "delegated_to"@,
            Column::DelegationId => "delegation_id"@,
            Column::Delivered => "delivered"@,
            Column::DeliveryError => "delivery_error"@,
            Column::Description => "description"@,
            Column::DimensionsJson => "dimensions_json"@,
            Column::DisplayName => "display_name"@,
            Column::DisplaySummary => "display_summary"@,
            Column::Disposition => "disposition"@,
            Column::DocumentCount => "document_count"@,
            Column::DocumentId => "document_id"@,
            Column::Email => "email"@,
            Column::Enabled => "enabled"@,
            Column::EncryptedAtMs => "encrypted_at_ms"@,
            Column::EncryptedValue => "encrypted_value"@,
            Column::EntitlementsJson => "entitlements_json"@,
            Column::EntryId => "entry_id"@,
            Column::ErrorClass => "error_class"@,
            Column::ErrorMessage => "error_message"@,
            Column::EvalRunId => "eval_run_id"@,
            Column::EvaluatedAtMs => "evaluated_at_ms"@,
            Column::EvaluatorType => "evaluator_type"@,
            Column::EventId => "event_id"@,
            Column::EventJson => "event_json"@,
            Column::EventType => "event_type"@,
            Column::EventTypesJson => "event_types_json"@,
            Column::ExceededAtMs => "exceeded_at_ms"@,
            Column::ExecutionClass => "execution_class"@,
            Column::ExecutionId => "execution_id"@,
            Column::ExpiredAndDropped => "expired_and_dropped"@,
            Column::ExpiresAt => "expires_at"@,
            Column::FailureClass => "failure_class"@,
            Column::FallbackPosition => "fallback_position"@,
            Column::FallbackUsed => "fallback_used"@,
            Column::Feature => "feature"@,
            Column::FinalStatus => "final_status"@,
            Column::FinishedAtMs => "finished_at_ms"@,
            Column::Format => "format"@,
            Column::FsRoot => "fs_root"@,
            Column::FullHistoryDays => "full_history_days"@,
            Column::Goal => "goal"@,
            Column::GoalTitle => "goal_title"@,
            Column::GrantedAtMs => "granted_at_ms"@,
            Column::GrantedBy => "granted_by"@,
            Column::GraphEdgesRecovered => "graph_edges_recovered"@,
            Column::GraphNodesRecovered => "graph_nodes_recovered"@,
            Column::InFlightDescendants => "in_flight_descendants"@,
            Column::InitialUserMessage => "initial_user_message"@,
            Column::InputTokens => "input_tokens"@,
            Column::IntervalMs => "interval_ms"@,
            Column::InvocationId => "invocation_id"@,
            Column::IsAlive => "is_alive"@,
            Column::IssuedAt => "issued_at"@,
            Column::Iteration => "iteration"@,
            Column::JobId => "job_id"@,
            Column::Key => "key"@,
            Column::KeyId => "key_id"@,
            Column::KeyVersion => "key_version"@,
            Column::Kind => "kind"@,
            Column::LastAmendedAtMs => "last_amended_at_ms"@,
            Column::LastHeartbeatMs => "last_heartbeat_ms"@,
            Column::LastRunAt => "last_run_at"@,
            Column::LastStreamId => "last_stream_id"@,
            Column::LatencyMs => "latency_ms"@,
            Column::LeaseExpiresAt => "lease_expires_at"@,
            Column::LeaseOwner => "lease_owner"@,
            Column::LeaseVersion => "lease_version"@,
            Column::LicenseKey => "license_key"@,
            Column::LimitMicros => "limit_micros"@,
            Column::LimitValue => "limit_value"@,
            Column::Locked => "locked"@,
            Column::MatchPolicy => "match_policy"@,
            Column::MaxAttempts => "max_attempts"@,
            Column::MaxBurst => "max_burst"@,
            Column::MaxChainDepth => "max_chain_depth"@,
            Column::MaxCheckpoints => "max_checkpoints"@,
            Column::MaxConcurrentRuns => "max_concurrent_runs"@,
            Column::MaxEventsPerEntity => "max_events_per_entity"@,
            Column::MaxPerMinute => "max_per_minute"@,
            Column::MaxSessionsPerHour => "max_sessions_per_hour"@,
            Column::MaxTasksPerRun => "max_tasks_per_run"@,
            Column::MemoryProjectionEntries => "memory_projection_entries"@,
            Column::Message => "message"@,
            Column::MessageId => "message_id"@,
            Column::MessagesJson => "messages_json"@,
            Column::MetadataJson => "metadata_json"@,
            Column::MetricsJson => "metrics_json"@,
            Column::ModelId => "model_id"@,
            Column::Name => "name"@,
            Column::NewKeyId => "new_key_id"@,
            Column::NewVersion => "new_version"@,
            Column::NextRunAt => "next_run_at"@,
            Column::NextStepHint => "next_step_hint"@,
            Column::OccurredAtMs => "occurred_at_ms"@,
            Column::OldKeyId => "old_key_id"@,
            Column::OperationKind => "operation_kind"@,
            Column::OperatorId => "operator_id"@,
            Column::OriginalCompletedAtMs => "original_completed_at_ms"@,
            Column::OriginalToolArgs => "original_tool_args"@,
            Column::OrphanedSandboxesCleaned => "orphaned_sandboxes_cleaned"@,
            Column::Outcome => "outcome"@,
            Column::OutcomeId => "outcome_id"@,
            Column::OutcomeKind => "outcome_kind"@,
            Column::OutputPreview => "output_preview"@,
            Column::OutputTokens => "output_tokens"@,
            Column::ParentRunId => "parent_run_id"@,
            Column::ParentSnapshotId => "parent_snapshot_id"@,
            Column::ParentTaskId => "parent_task_id"@,
            Column::PartitionId => "partition_id"@,
            Column::PatchContent => "patch_content"@,
            Column::PatchId => "patch_id"@,
            Column::PausedAtMs => "paused_at_ms"@,
            Column::PayloadJson => "payload_json"@,
            Column::Period => "period"@,
            Column::PermissionsJson => "permissions_json"@,
            Column::PlanMarkdown => "plan_markdown"@,
            Column::PlanRunId => "plan_run_id"@,
            Column::PluginAllowlistJson => "plugin_allowlist_json"@,
            Column::PluginId => "plugin_id"@,
            Column::PolicyId => "policy_id"@,
            Column::PredictedConfidence => "predicted_confidence"@,
            Column::PrefId => "pref_id"@,
            Column::PreservedSandboxes => "preserved_sandboxes"@,
            Column::PriorSnapshotJson => "prior_snapshot_json"@,
            Column::ProgressPct => "progress_pct"@,
            Column::ProjectId => "project_id"@,
            Column::PromptAssetId => "prompt_asset_id"@,
            Column::PromptReleaseId => "prompt_release_id"@,
            Column::PromptVersionId => "prompt_version_id"@,
            Column::ProposedAt => "proposed_at"@,
            Column::ProposedAtMs => "proposed_at_ms"@,
            Column::ProviderAdapter => "provider_adapter"@,
            Column::ProviderBindingId => "provider_binding_id"@,
            Column::ProviderCallId => "provider_call_id"@,
            Column::ProviderCalls => "provider_calls"@,
            Column::ProviderConnectionId => "provider_connection_id"@,
            Column::ProviderFamily => "provider_family"@,
            Column::ProviderId => "provider_id"@,
            Column::ProviderModelId => "provider_model_id"@,
            Column::ProviderRef => "provider_ref"@,
            Column::QuotaType => "quota_type"@,
            Column::RawErrorMessage => "raw_error_message"@,
            Column::ReapedAt => "reaped_at"@,
            Column::Reason => "reason"@,
            Column::RecordId => "record_id"@,
            Column::RecordedAt => "recorded_at"@,
            Column::RecordedAtMs => "recorded_at_ms"@,
            Column::Recovered => "recovered"@,
            Column::RecoveredRuns => "recovered_runs"@,
            Column::RecoveredSandboxes => "recovered_sandboxes"@,
            Column::RecoveredTasks => "recovered_tasks"@,
            Column::ReflinkUsed => "reflink_used"@,
            Column::RegisteredAt => "registered_at"@,
            Column::RejectedAtMs => "rejected_at_ms"@,
            Column::RejectionReason => "rejection_reason"@,
            Column::ReleaseTag => "release_tag"@,
            Column::RequestedAtMs => "requested_at_ms"@,
            Column::RequiredFieldsJson => "required_fields_json"@,
            Column::Requirement => "requirement"@,
            Column::RequiresApproval => "requires_approval"@,
            Column::ResolvedAt => "resolved_at"@,
            Column::ResolvedBy => "resolved_by"@,
            Column::ResourceId => "resource_id"@,
            Column::ResourceType => "resource_type"@,
            Column::ResponseText => "response_text"@,
            Column::ResumeAtMs => "resume_at_ms"@,
            Column::RetractedAt => "retracted_at"@,
            Column::RetractedBy => "retracted_by"@,
            Column::RetryCount => "retry_count"@,
            Column::ReviewerComments => "reviewer_comments"@,
            Column::RevisionRunId => "revision_run_id"@,
            Column::RevokedAtMs => "revoked_at_ms"@,
            Column::RevokedBy => "revoked_by"@,
            Column::Role => "role"@,
            Column::RoleId => "role_id"@,
            Column::RoleJson => "role_json"@,
            Column::RolloutTarget => "rollout_target"@,
            Column::RootRunId => "root_run_id"@,
            Column::RotatedAt => "rotated_at"@,
            Column::RotatedBy => "rotated_by"@,
            Column::RotatedCredentials => "rotated_credentials"@,
            Column::RotationId => "rotation_id"@,
            Column::RouteAttemptId => "route_attempt_id"@,
            Column::RouteDecisionId => "route_decision_id"@,
            Column::RoutePolicyId => "route_policy_id"@,
            Column::RubricId => "rubric_id"@,
            Column::RubricScoreJson => "rubric_score_json"@,
            Column::Rules => "rules"@,
            Column::RulesJson => "rules_json"@,
            Column::RunId => "run_id"@,
            Column::RunTemplateId => "run_template_id"@,
            Column::SandboxHint => "sandbox_hint"@,
            Column::ScheduledTaskId => "scheduled_task_id"@,
            Column::SchemaVersion => "schema_version"@,
            Column::Scope => "scope"@,
            Column::ScopeId => "scope_id"@,
            Column::SelectedProviderBindingId => "selected_provider_binding_id"@,
            Column::SelectedRouteAttemptId => "selected_route_attempt_id"@,
            Column::SelectorContext => "selector_context"@,
            Column::SenderId => "sender_id"@,
            Column::SentAtMs => "sent_at_ms"@,
            Column::Sequence => "sequence"@,
            Column::ServedAtMs => "served_at_ms"@,
            Column::SessionId => "session_id"@,
            Column::SetAtMs => "set_at_ms"@,
            Column::SettingsJson => "settings_json"@,
            Column::ShadowsBuiltin => "shadows_builtin"@,
            Column::ShareId => "share_id"@,
            Column::SharedAtMs => "shared_at_ms"@,
            Column::SignalId => "signal_id"@,
            Column::SignalType => "signal_type"@,
            Column::SnapshotId => "snapshot_id"@,
            Column::SnapshotPath => "snapshot_path"@,
            Column::Source => "source"@,
            Column::SourceId => "source_id"@,
            Column::SourceType => "source_type"@,
            Column::SourceWorkspaceId => "source_workspace_id"@,
            Column::SpawnedAtMs => "spawned_at_ms"@,
            Column::StalePendingCleared => "stale_pending_cleared"@,
            Column::StartedAt => "started_at"@,
            Column::StartedAtMs => "started_at_ms"@,
            Column::StartupMs => "startup_ms"@,
            Column::State => "state"@,
            Column::StateReason => "state_reason"@,
            Column::StateSince => "state_since"@,
            Column::Status => "status"@,
            Column::StrategyId => "strategy_id"@,
            Column::SubjectId => "subject_id"@,
            Column::SubjectKind => "subject_kind"@,
            Column::SubjectType => "subject_type"@,
            Column::SubmittedAtMs => "submitted_at_ms"@,
            Column::Success => "success"@,
            Column::SummaryAtMs => "summary_at_ms"@,
            Column::SupportedModelsJson => "supported_models_json"@,
            Column::SuspensionReason => "suspension_reason"@,
            Column::SystemPrompt => "system_prompt"@,
            Column::Target => "target"@,
            Column::TargetWorkspaceId => "target_workspace_id"@,
            Column::TaskId => "task_id"@,
            Column::TemplateId => "template_id"@,
            Column::TenantId => "tenant_id"@,
            Column::TerminalRouteAttemptId => "terminal_route_attempt_id"@,
            Column::TerminalWriteRecoveryJson => "terminal_write_recovery_json"@,
            Column::TerminationReason => "termination_reason"@,
            Column::TerminationReasonJson => "termination_reason_json"@,
            Column::ThresholdMicros => "threshold_micros"@,
            Column::Tier => "tier"@,
            Column::TimestampMs => "timestamp_ms"@,
            Column::Title => "title"@,
            Column::TokenCap => "token_cap"@,
            Column::TokensUsed => "tokens_used"@,
            Column::ToolAllowlistJson => "tool_allowlist_json"@,
            Column::ToolCallId => "tool_call_id"@,
            Column::ToolCallsJson => "tool_calls_json"@,
            Column::ToolDefsJson => "tool_defs_json"@,
            Column::ToolName => "tool_name"@,
            Column::ToolResultCacheEntries => "tool_result_cache_entries"@,
            Column::TotalCostMicros => "total_cost_micros"@,
            Column::TotalTokensIn => "total_tokens_in"@,
            Column::TotalTokensOut => "total_tokens_out"@,
            Column::TraceId => "trace_id"@,
            Column::TriggerId => "trigger_id"@,
            Column::TriggerOnTaskComplete => "trigger_on_task_complete"@,
            Column::TriggerProjections => "trigger_projections"@,
            Column::TriggeredAtMs => "triggered_at_ms"@,
            Column::UpdatedAt => "updated_at"@,
            Column::UpdatedAtMs => "updated_at_ms"@,
            Column::ValueJson => "value_json"@,
            Column::Version => "version"@,
            Column::VersionNumber => "version_number"@,
            Column::WallClockMsCap => "wall_clock_ms_cap"@,
            Column::WallClockMsUsed => "wall_clock_ms_used"@,
            Column::WarmedAt => "warmed_at"@,
            Column::WebhookDedupEntries => "webhook_dedup_entries"@,
            Column::WorkerId => "worker_id"@,
            Column::WorkspaceId => "workspace_id"@,
            Column::WorkspaceScope => "workspace_scope"@,
            Column::WorkspaceSnapshotId => "workspace_snapshot_id"@,
        },
{
}

/// Each ingest job state is written and read by its name.
pub proof fn the_names_of_ingest_job_state(value: IngestJobState, raw: Seq<char>)
    ensures
        value.spec_name() == match value {
            IngestJobState::Pending => "pending"@,
            IngestJobState::Processing => "processing"@,
            IngestJobState::Completed => "completed"@,
            IngestJobState::Failed => "failed"@,
        },
        IngestJobState::spec_parse(raw) == Some(value) <==> raw == match value {
            IngestJobState::Pending => "pending"@,
            IngestJobState::Processing => "processing"@,
            IngestJobState::Completed => "completed"@,
            IngestJobState::Failed => "failed"@,
        },
{
    crate::vocabulary::ingest_job_state_names_are_inverse(value, raw);
}

/// Each scope is written and read by its name.
pub proof fn the_names_of_scope(value: Scope, raw: Seq<char>)
    ensures
        value.spec_name() == match value {
            Scope::System => "system"@,
            Scope::Tenant => "tenant"@,
            Scope::Workspace => "workspace"@,
            Scope::Project => "project"@,
        },
        Scope::spec_parse(raw) == Some(value) <==> raw == match value {
            Scope::System => "system"@,
            Scope::Tenant => "tenant"@,
            Scope::Workspace => "workspace"@,
            Scope::Project => "project"@,
        },
{
    crate::vocabulary::scope_names_are_inverse(value, raw);
}

/// Each provider budget period is written and read by its name.
pub proof fn the_names_of_provider_budget_period(value: ProviderBudgetPeriod, raw: Seq<char>)
    ensures
        value.spec_name() == match value {
            ProviderBudgetPeriod::Daily => "daily"@,
            ProviderBudgetPeriod::Monthly => "monthly"@,
        },
        ProviderBudgetPeriod::spec_parse(raw) == Some(value) <==> raw == match value {
            ProviderBudgetPeriod::Daily => "daily"@,
            ProviderBudgetPeriod::Monthly => "monthly"@,
        },
{
    crate::vocabulary::provider_budget_period_names_are_inverse(value, raw);
}

/// Each product tier is written and read by its name.
pub proof fn the_names_of_product_tier(value: ProductTier, raw: Seq<char>)
    ensures
        value.spec_name() == match value {
            ProductTier::LocalEval => "local_eval"@,
            ProductTier::TeamSelfHosted => "team_self_hosted"@,
            ProductTier::EnterpriseSelfHosted => "enterprise_self_hosted"@,
        },
        ProductTier::spec_parse(raw) == Some(value) <==> raw == match value {
            ProductTier::LocalEval => "local_eval"@,
            ProductTier::TeamSelfHosted => "team_self_hosted"@,
            ProductTier::EnterpriseSelfHosted => "enterprise_self_hosted"@,
        },
{
    crate::vocabulary::product_tier_names_are_inverse(value, raw);
}

/// Each guardrail subject type is written and read by its name.
pub proof fn the_names_of_guardrail_subject_type(value: GuardrailSubjectType, raw: Seq<char>)
    ensures
        value.spec_name() == match value {
            GuardrailSubjectType::Run => "run"@,
            GuardrailSubjectType::Task => "task"@,
            GuardrailSubjectType::Session => "session"@,
            GuardrailSubjectType::Tool => "tool"@,
            GuardrailSubjectType::Provider => "provider"@,
        },
        GuardrailSubjectType::spec_parse(raw) == Some(value) <==> raw == match value {
            GuardrailSubjectType::Run => "run"@,
            GuardrailSubjectType::Task => "task"@,
            GuardrailSubjectType::Session => "session"@,
            GuardrailSubjectType::Tool => "tool"@,
            GuardrailSubjectType::Provider => "provider"@,
        },
{
    crate::vocabulary::guardrail_subject_type_names_are_inverse(value, raw);
}

/// Each guardrail decision kind is written and read by its name.
pub proof fn the_names_of_guardrail_decision_kind(value: GuardrailDecisionKind, raw: Seq<char>)
    ensures
        value.spec_name() == match value {
            GuardrailDecisionKind::Allowed => "allowed"@,
            GuardrailDecisionKind::Denied => "denied"@,
            GuardrailDecisionKind::Warned => "warned"@,
        },
        GuardrailDecisionKind::spec_parse(raw) == Some(value) <==> raw == match value {
            GuardrailDecisionKind::Allowed => "allowed"@,
            GuardrailDecisionKind::Denied => "denied"@,
            GuardrailDecisionKind::Warned => "warned"@,
        },
{
    crate::vocabulary::guardrail_decision_kind_names_are_inverse(value, raw);
}

/// Each provider connection status is written and read by its name.
pub proof fn the_names_of_provider_connection_status(
    value: ProviderConnectionStatus,
    raw: Seq<char>,
)
    ensures
        value.spec_name() == match value {
            ProviderConnectionStatus::Active => "active"@,
            ProviderConnectionStatus::Disabled => "disabled"@,
        },
        ProviderConnectionStatus::spec_parse(raw) == Some(value) <==> raw == match value {
            ProviderConnectionStatus::Active => "active"@,
            ProviderConnectionStatus::Disabled => "disabled"@,
        },
{
    crate::vocabulary::provider_connection_status_names_are_inverse(value, raw);
}

/// Each operation kind is written and read by its name.
pub proof fn the_names_of_operation_kind(value: OperationKind, raw: Seq<char>)
    ensures
        value.spec_name() == match value {
            OperationKind::Generate => "generate"@,
            OperationKind::Embed => "embed"@,
            OperationKind::Rerank => "rerank"@,
        },
        OperationKind::spec_parse(raw) == Some(value) <==> raw == match value {
            OperationKind::Generate => "generate"@,
            OperationKind::Embed => "embed"@,
            OperationKind::Rerank => "rerank"@,
        },
{
    crate::vocabulary::operation_kind_names_are_inverse(value, raw);
}

/// Each audit outcome is written and read by its name.
pub proof fn the_names_of_audit_outcome(value: AuditOutcome, raw: Seq<char>)
    ensures
        value.spec_name() == match value {
            AuditOutcome::Success => "success"@,
            AuditOutcome::Failure => "failure"@,
        },
        AuditOutcome::spec_parse(raw) == Some(value) <==> raw == match value {
            AuditOutcome::Success => "success"@,
            AuditOutcome::Failure => "failure"@,
        },
{
    crate::vocabulary::audit_outcome_names_are_inverse(value, raw);
}

/// Each actual outcome is written and read by its name.
pub proof fn the_names_of_actual_outcome(value: ActualOutcome, raw: Seq<char>)
    ensures
        value.spec_name() == match value {
            ActualOutcome::Success => "success"@,
            ActualOutcome::Failure => "failure"@,
            ActualOutcome::Partial => "partial"@,
        },
        ActualOutcome::spec_parse(raw) == Some(value) <==> raw == match value {
            ActualOutcome::Success => "success"@,
            ActualOutcome::Failure => "failure"@,
            ActualOutcome::Partial => "partial"@,
        },
{
    crate::vocabulary::actual_outcome_names_are_inverse(value, raw);
}

/// Each plan review state is written and read by its name.
pub proof fn the_names_of_plan_review_state(value: PlanReviewState, raw: Seq<char>)
    ensures
        value.spec_name() == match value {
            PlanReviewState::Proposed => "proposed"@,
            PlanReviewState::Approved => "approved"@,
            PlanReviewState::Rejected => "rejected"@,
            PlanReviewState::RevisionRequested => "revision_requested"@,
        },
        PlanReviewState::spec_parse(raw) == Some(value) <==> raw == match value {
            PlanReviewState::Proposed => "proposed"@,
            PlanReviewState::Approved => "approved"@,
            PlanReviewState::Rejected => "rejected"@,
            PlanReviewState::RevisionRequested => "revision_requested"@,
        },
{
    crate::vocabulary::plan_review_state_names_are_inverse(value, raw);
}

/// Each checkpoint disposition is written and read by its name.
pub proof fn the_names_of_checkpoint_disposition(value: CheckpointDisposition, raw: Seq<char>)
    ensures
        value.spec_name() == match value {
            CheckpointDisposition::Latest => "latest"@,
            CheckpointDisposition::Superseded => "superseded"@,
        },
        CheckpointDisposition::spec_parse(raw) == Some(value) <==> raw == match value {
            CheckpointDisposition::Latest => "latest"@,
            CheckpointDisposition::Superseded => "superseded"@,
        },
{
    crate::vocabulary::checkpoint_disposition_names_are_inverse(value, raw);
}

/// Each decision outcome is written and read by its name.
pub proof fn the_names_of_decision_outcome(value: DecisionOutcome, raw: Seq<char>)
    ensures
        value.spec_name() == match value {
            DecisionOutcome::Allowed => "allowed"@,
            DecisionOutcome::Denied => "denied"@,
        },
        DecisionOutcome::spec_parse(raw) == Some(value) <==> raw == match value {
            DecisionOutcome::Allowed => "allowed"@,
            DecisionOutcome::Denied => "denied"@,
        },
{
    crate::vocabulary::decision_outcome_names_are_inverse(value, raw);
}

/// Each trigger state kind is written and read by its name.
pub proof fn the_names_of_trigger_state_kind(value: TriggerStateKind, raw: Seq<char>)
    ensures
        value.spec_name() == match value {
            TriggerStateKind::Enabled => "enabled"@,
            TriggerStateKind::Disabled => "disabled"@,
            TriggerStateKind::Suspended => "suspended"@,
        },
        TriggerStateKind::spec_parse(raw) == Some(value) <==> raw == match value {
            TriggerStateKind::Enabled => "enabled"@,
            TriggerStateKind::Disabled => "disabled"@,
            TriggerStateKind::Suspended => "suspended"@,
        },
{
    crate::vocabulary::trigger_state_kind_names_are_inverse(value, raw);
}

/// Each soul patch state is written and read by its name.
pub proof fn the_names_of_soul_patch_state(value: SoulPatchState, raw: Seq<char>)
    ensures
        value.spec_name() == match value {
            SoulPatchState::Proposed => "proposed"@,
            SoulPatchState::Applied => "applied"@,
        },
        SoulPatchState::spec_parse(raw) == Some(value) <==> raw == match value {
            SoulPatchState::Proposed => "proposed"@,
            SoulPatchState::Applied => "applied"@,
        },
{
    crate::vocabulary::soul_patch_state_names_are_inverse(value, raw);
}

/// Each tool call approval state is written and read by its name.
pub proof fn the_names_of_tool_call_approval_state(value: ToolCallApprovalState, raw: Seq<char>)
    ensures
        value.spec_name() == match value {
            ToolCallApprovalState::Pending => "pending"@,
            ToolCallApprovalState::Approved => "approved"@,
            ToolCallApprovalState::Rejected => "rejected"@,
        },
        ToolCallApprovalState::spec_parse(raw) == Some(value) <==> raw == match value {
            ToolCallApprovalState::Pending => "pending"@,
            ToolCallApprovalState::Approved => "approved"@,
            ToolCallApprovalState::Rejected => "rejected"@,
        },
{
    crate::vocabulary::tool_call_approval_state_names_are_inverse(value, raw);
}

/// Each tool invocation state is written and read by its name.
pub proof fn the_names_of_tool_invocation_state(value: ToolInvocationState, raw: Seq<char>)
    ensures
        value.spec_name() == match value {
            ToolInvocationState::Requested => "requested"@,
            ToolInvocationState::Started => "started"@,
            ToolInvocationState::Completed => "completed"@,
            ToolInvocationState::Failed => "failed"@,
            ToolInvocationState::Canceled => "canceled"@,
        },
        ToolInvocationState::spec_parse(raw) == Some(value) <==> raw == match value {
            ToolInvocationState::Requested => "requested"@,
            ToolInvocationState::Started => "started"@,
            ToolInvocationState::Completed => "completed"@,
            ToolInvocationState::Failed => "failed"@,
            ToolInvocationState::Canceled => "canceled"@,
        },
{
    crate::vocabulary::tool_invocation_state_names_are_inverse(value, raw);
}

/// Each tool invocation outcome kind is written and read by its name.
pub proof fn the_names_of_tool_invocation_outcome_kind(
    value: ToolInvocationOutcomeKind,
    raw: Seq<char>,
)
    ensures
        value.spec_name() == match value {
            ToolInvocationOutcomeKind::Success => "success"@,
            ToolInvocationOutcomeKind::RetryableFailure => "retryable_failure"@,
            ToolInvocationOutcomeKind::PermanentFailure => "permanent_failure"@,
            ToolInvocationOutcomeKind::Timeout => "timeout"@,
            ToolInvocationOutcomeKind::Canceled => "canceled"@,
            ToolInvocationOutcomeKind::ProtocolViolation => "protocol_violation"@,
        },
        ToolInvocationOutcomeKind::spec_parse(raw) == Some(value) <==> raw == match value {
            ToolInvocationOutcomeKind::Success => "success"@,
            ToolInvocationOutcomeKind::RetryableFailure => "retryable_failure"@,
            ToolInvocationOutcomeKind::PermanentFailure => "permanent_failure"@,
            ToolInvocationOutcomeKind::Timeout => "timeout"@,
            ToolInvocationOutcomeKind::Canceled => "canceled"@,
            ToolInvocationOutcomeKind::ProtocolViolation => "protocol_violation"@,
        },
{
    crate::vocabulary::tool_invocation_outcome_kind_names_are_inverse(value, raw);
}

/// Each kind of source is logged by its name.
pub proof fn the_names_of_the_sources(source: EventSource)
    ensures
        source.spec_type() == match source {
            EventSource::Operator { .. } => "operator"@,
            EventSource::Runtime => "runtime"@,
            EventSource::Scheduler => "scheduler"@,
            EventSource::ExternalWorker { .. } => "external_worker"@,
            EventSource::System => "system"@,
        },
{
}

/// Each backend is reported by its name.
pub proof fn the_names_of_the_backends(backend: Backend)
    ensures
        backend.spec_name() == match backend {
            Backend::InMemory => "InMemory"@,
            Backend::Postgres => "Postgres"@,
            Backend::Sqlite => "Sqlite"@,
        },
{
}

/// An invocation that succeeded is completed, one that was canceled is canceled,
/// and one with any other outcome failed.
pub proof fn an_outcome_decides_the_final_state(outcome: ToolInvocationOutcomeKind)
    ensures
        outcome.spec_terminal_state() is Completed <==> outcome is Success,
        outcome.spec_terminal_state() is Canceled <==> outcome is Canceled,
        outcome.spec_terminal_state() is Failed <==> !(outcome is Success)
            && !(outcome is Canceled),
{
}

} // verus!
