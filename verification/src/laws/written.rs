//! Which tables some event writes.

use crate::events::RuntimeEvent;
use crate::plan::{Found, Moment};
use crate::schema::Table;
use vstd::prelude::*;

verus! {

/// Whether a statement of an event writes to a table.
pub open spec fn is_written_by(
    table: Table,
    event: RuntimeEvent,
    at: Moment,
    found: Found,
    i: int,
) -> bool {
    let statements = event.writes(at, found).statements();
    0 <= i < statements.len() && statements[i].table() == table
}

/// Whether there is an event that writes to a table.
pub open spec fn can_be_written(table: Table) -> bool {
    exists|event: RuntimeEvent, at: Moment, found: Found, i: int|
        is_written_by(table, event, at, found, i)
}

proof fn approval_delegations_can_be_written(at: Moment, found: Found)
    requires
        at.event_time_ms <= i64::MAX,
        found.scope is Some,
    ensures
        can_be_written(Table::ApprovalDelegations),
{
    let e = crate::projections::approvals::ApprovalDelegated { delegated_at_ms: 0, ..arbitrary() };
    let event = RuntimeEvent::ApprovalDelegated(e);
    assert(is_written_by(Table::ApprovalDelegations, event, at, found, 0));
}

proof fn tool_call_approvals_can_be_written(at: Moment, found: Found)
    requires
        at.event_time_ms <= i64::MAX,
        found.scope is Some,
    ensures
        can_be_written(Table::ToolCallApprovals),
{
    let e: crate::projections::approvals::ToolCallProposed = arbitrary();
    let event = RuntimeEvent::ToolCallProposed(e);
    assert(is_written_by(Table::ToolCallApprovals, event, at, found, 0));
}

proof fn tool_invocation_cache_hits_can_be_written(at: Moment, found: Found)
    requires
        at.event_time_ms <= i64::MAX,
        found.scope is Some,
    ensures
        can_be_written(Table::ToolInvocationCacheHits),
{
    let e = crate::projections::tools::ToolInvocationCacheHit {
        original_completed_at_ms: 0,
        served_at_ms: 0,
        ..arbitrary()
    };
    let event = RuntimeEvent::ToolInvocationCacheHit(e);
    assert(is_written_by(Table::ToolInvocationCacheHits, event, at, found, 0));
}

proof fn tool_invocation_progress_can_be_written(at: Moment, found: Found)
    requires
        at.event_time_ms <= i64::MAX,
        found.scope is Some,
    ensures
        can_be_written(Table::ToolInvocationProgress),
{
    let e = crate::projections::tools::ToolInvocationProgressUpdated {
        updated_at_ms: 0,
        progress_pct: 0,
        ..arbitrary()
    };
    let event = RuntimeEvent::ToolInvocationProgressUpdated(e);
    assert(is_written_by(Table::ToolInvocationProgress, event, at, found, 0));
}

proof fn tool_recovery_pauses_can_be_written(at: Moment, found: Found)
    requires
        at.event_time_ms <= i64::MAX,
        found.scope is Some,
    ensures
        can_be_written(Table::ToolRecoveryPauses),
{
    let e = crate::projections::tools::ToolRecoveryPaused { paused_at_ms: 0, ..arbitrary() };
    let event = RuntimeEvent::ToolRecoveryPaused(e);
    assert(is_written_by(Table::ToolRecoveryPauses, event, at, found, 0));
}

proof fn checkpoint_strategies_can_be_written(at: Moment, found: Found)
    requires
        at.event_time_ms <= i64::MAX,
        found.scope is Some,
    ensures
        can_be_written(Table::CheckpointStrategies),
{
    let e = crate::projections::checkpoints::CheckpointStrategySet {
        run_id: Some(arbitrary()),
        interval_ms: 0,
        max_checkpoints: 0,
        set_at_ms: 0,
        ..arbitrary()
    };
    let event = RuntimeEvent::CheckpointStrategySet(e);
    assert(is_written_by(Table::CheckpointStrategies, event, at, found, 0));
}

proof fn session_outcomes_can_be_written(at: Moment, found: Found)
    requires
        at.event_time_ms <= i64::MAX,
        found.scope is Some,
    ensures
        can_be_written(Table::SessionOutcomes),
{
    let e = crate::projections::sessions::SessionOutcomeEmitted {
        cost_micros: 0,
        emitted_at: 0,
        ..arbitrary()
    };
    let event = RuntimeEvent::SessionOutcomeEmitted(e);
    assert(is_written_by(Table::SessionOutcomes, event, at, found, 0));
}

proof fn workspace_snapshots_can_be_written(at: Moment, found: Found)
    requires
        at.event_time_ms <= i64::MAX,
        found.scope is Some,
    ensures
        can_be_written(Table::WorkspaceSnapshots),
{
    let e = crate::projections::checkpoints::WorkspaceSnapshotCreated {
        at_ms: 0,
        bytes: 0,
        ..arbitrary()
    };
    let event = RuntimeEvent::WorkspaceSnapshotCreated(e);
    assert(is_written_by(Table::WorkspaceSnapshots, event, at, found, 0));
}

proof fn subagent_spawns_can_be_written(at: Moment, found: Found)
    requires
        at.event_time_ms <= i64::MAX,
        found.scope is Some,
    ensures
        can_be_written(Table::SubagentSpawns),
{
    let e: crate::projections::runs::SubagentSpawned = arbitrary();
    assert(is_written_by(Table::SubagentSpawns, RuntimeEvent::SubagentSpawned(e), at, found, 0));
}

proof fn pause_schedules_can_be_written(at: Moment, found: Found)
    requires
        at.event_time_ms <= i64::MAX,
        found.scope is Some,
    ensures
        can_be_written(Table::PauseSchedules),
{
    let e = crate::projections::runs::RunStateChanged {
        project: found.scope->Some_0,
        resume_after_ms: Some(0),
        ..arbitrary()
    };
    let last = e.writes(at, found).statements().len() - 1;
    let event = RuntimeEvent::RunStateChanged(e);
    assert(is_written_by(Table::PauseSchedules, event, at, found, last));
}

proof fn plan_reviews_can_be_written(at: Moment, found: Found)
    requires
        at.event_time_ms <= i64::MAX,
        found.scope is Some,
    ensures
        can_be_written(Table::PlanReviews),
{
    let e = crate::projections::approvals::PlanProposed { proposed_at: 0, ..arbitrary() };
    assert(is_written_by(Table::PlanReviews, RuntimeEvent::PlanProposed(e), at, found, 0));
}

proof fn outcomes_can_be_written(at: Moment, found: Found)
    requires
        at.event_time_ms <= i64::MAX,
        found.scope is Some,
    ensures
        can_be_written(Table::Outcomes),
{
    let e = crate::projections::evals::OutcomeRecorded {
        recorded_at: 0,
        predicted_confidence: 0,
        ..arbitrary()
    };
    assert(is_written_by(Table::Outcomes, RuntimeEvent::OutcomeRecorded(e), at, found, 0));
}

proof fn user_messages_can_be_written(at: Moment, found: Found)
    requires
        at.event_time_ms <= i64::MAX,
        found.scope is Some,
    ensures
        can_be_written(Table::UserMessages),
{
    let e = crate::projections::sessions::UserMessageAppended {
        appended_at_ms: 0,
        sequence: 0,
        ..arbitrary()
    };
    assert(is_written_by(Table::UserMessages, RuntimeEvent::UserMessageAppended(e), at, found, 0));
}

proof fn llm_completions_can_be_written(at: Moment, found: Found)
    requires
        at.event_time_ms <= i64::MAX,
        found.scope is Some,
    ensures
        can_be_written(Table::LlmCompletions),
{
    let e: crate::projections::sessions::LlmCompletionRecorded = arbitrary();
    let event = RuntimeEvent::LlmCompletionRecorded(e);
    assert(is_written_by(Table::LlmCompletions, event, at, found, 0));
}

proof fn recovery_attempts_can_be_written(at: Moment, found: Found)
    requires
        at.event_time_ms <= i64::MAX,
        found.scope is Some,
    ensures
        can_be_written(Table::RecoveryAttempts),
{
    let e: crate::projections::recovery::RecoveryAttempted = arbitrary();
    let event = RuntimeEvent::RecoveryAttempted(e);
    assert(is_written_by(Table::RecoveryAttempts, event, at, found, 0));
}

proof fn recovery_completions_can_be_written(at: Moment, found: Found)
    requires
        at.event_time_ms <= i64::MAX,
        found.scope is Some,
    ensures
        can_be_written(Table::RecoveryCompletions),
{
    let e: crate::projections::recovery::RecoveryCompleted = arbitrary();
    let event = RuntimeEvent::RecoveryCompleted(e);
    assert(is_written_by(Table::RecoveryCompletions, event, at, found, 0));
}

proof fn recovery_summaries_can_be_written(at: Moment, found: Found)
    requires
        at.event_time_ms <= i64::MAX,
        found.scope is Some,
    ensures
        can_be_written(Table::RecoverySummaries),
{
    let e = crate::projections::recovery::RecoverySummaryEmitted {
        summary_at_ms: 0,
        startup_ms: 0,
        recovered_runs: 0,
        recovered_tasks: 0,
        recovered_sandboxes: 0,
        preserved_sandboxes: 0,
        orphaned_sandboxes_cleaned: 0,
        decision_cache_entries: 0,
        stale_pending_cleared: 0,
        tool_result_cache_entries: 0,
        memory_projection_entries: 0,
        graph_nodes_recovered: 0,
        graph_edges_recovered: 0,
        webhook_dedup_entries: 0,
        trigger_projections: 0,
        ..arbitrary()
    };
    let event = RuntimeEvent::RecoverySummaryEmitted(e);
    assert(is_written_by(Table::RecoverySummaries, event, at, found, 0));
}

proof fn decision_records_can_be_written(at: Moment, found: Found)
    requires
        at.event_time_ms <= i64::MAX,
        found.scope is Some,
    ensures
        can_be_written(Table::DecisionRecords),
{
    let e = crate::projections::recovery::DecisionRecorded {
        expires_at: 0,
        decided_at: 0,
        ..arbitrary()
    };
    assert(is_written_by(Table::DecisionRecords, RuntimeEvent::DecisionRecorded(e), at, found, 0));
}

proof fn decision_cache_warmups_can_be_written(at: Moment, found: Found)
    requires
        at.event_time_ms <= i64::MAX,
        found.scope is Some,
    ensures
        can_be_written(Table::DecisionCacheWarmups),
{
    let e = crate::projections::recovery::DecisionCacheWarmup {
        warmed_at: 0,
        cached: 0,
        expired_and_dropped: 0,
        ..arbitrary()
    };
    let event = RuntimeEvent::DecisionCacheWarmup(e);
    assert(is_written_by(Table::DecisionCacheWarmups, event, at, found, 0));
}

proof fn run_costs_can_be_written(at: Moment, found: Found)
    requires
        at.event_time_ms <= i64::MAX,
        found.scope is Some,
    ensures
        can_be_written(Table::RunCosts),
{
    let e = crate::projections::costs::RunCostUpdated {
        delta_cost_micros: 0,
        delta_tokens_in: 0,
        delta_tokens_out: 0,
        updated_at_ms: 0,
        ..arbitrary()
    };
    assert(is_written_by(Table::RunCosts, RuntimeEvent::RunCostUpdated(e), at, found, 0));
}

proof fn run_cost_alerts_can_be_written(at: Moment, found: Found)
    requires
        at.event_time_ms <= i64::MAX,
        found.scope is Some,
    ensures
        can_be_written(Table::RunCostAlerts),
{
    let e = crate::projections::costs::RunCostAlertSet {
        threshold_micros: 0,
        set_at_ms: 0,
        ..arbitrary()
    };
    assert(is_written_by(Table::RunCostAlerts, RuntimeEvent::RunCostAlertSet(e), at, found, 0));
}

proof fn session_costs_can_be_written(at: Moment, found: Found)
    requires
        at.event_time_ms <= i64::MAX,
        found.scope is Some,
    ensures
        can_be_written(Table::SessionCosts),
{
    let e = crate::projections::costs::SessionCostUpdated {
        delta_cost_micros: 0,
        delta_tokens_in: 0,
        delta_tokens_out: 0,
        updated_at_ms: 0,
        ..arbitrary()
    };
    assert(is_written_by(Table::SessionCosts, RuntimeEvent::SessionCostUpdated(e), at, found, 0));
}

proof fn project_costs_can_be_written(at: Moment, found: Found)
    requires
        at.event_time_ms <= i64::MAX,
        found.scope is Some,
    ensures
        can_be_written(Table::ProjectCosts),
{
    let e = crate::projections::costs::SessionCostUpdated {
        delta_cost_micros: 0,
        delta_tokens_in: 0,
        delta_tokens_out: 0,
        updated_at_ms: 0,
        ..arbitrary()
    };
    assert(is_written_by(Table::ProjectCosts, RuntimeEvent::SessionCostUpdated(e), at, found, 1));
}

proof fn workspace_costs_can_be_written(at: Moment, found: Found)
    requires
        at.event_time_ms <= i64::MAX,
        found.scope is Some,
    ensures
        can_be_written(Table::WorkspaceCosts),
{
    let e = crate::projections::costs::SessionCostUpdated {
        delta_cost_micros: 0,
        delta_tokens_in: 0,
        delta_tokens_out: 0,
        updated_at_ms: 0,
        ..arbitrary()
    };
    let event = RuntimeEvent::SessionCostUpdated(e);
    assert(is_written_by(Table::WorkspaceCosts, event, at, found, 2));
}

proof fn provider_calls_can_be_written(at: Moment, found: Found)
    requires
        at.event_time_ms <= i64::MAX,
        found.scope is Some,
    ensures
        can_be_written(Table::ProviderCalls),
{
    let e = crate::projections::providers::ProviderCallCompleted {
        fallback_position: 0,
        latency_ms: None,
        started_at: 0,
        finished_at: 0,
        input_tokens: None,
        output_tokens: None,
        cost_micros: None,
        retry_count: 0,
        completed_at: 0,
        ..arbitrary()
    };
    let event = RuntimeEvent::ProviderCallCompleted(e);
    assert(is_written_by(Table::ProviderCalls, event, at, found, 0));
}

proof fn route_decisions_can_be_written(at: Moment, found: Found)
    requires
        at.event_time_ms <= i64::MAX,
        found.scope is Some,
    ensures
        can_be_written(Table::RouteDecisions),
{
    let e: crate::projections::providers::RouteDecisionMade = arbitrary();
    assert(is_written_by(Table::RouteDecisions, RuntimeEvent::RouteDecisionMade(e), at, found, 0));
}

proof fn route_policies_can_be_written(at: Moment, found: Found)
    requires
        at.event_time_ms <= i64::MAX,
        found.scope is Some,
    ensures
        can_be_written(Table::RoutePolicies),
{
    let e: crate::projections::providers::RoutePolicyCreated = arbitrary();
    assert(is_written_by(Table::RoutePolicies, RuntimeEvent::RoutePolicyCreated(e), at, found, 0));
}

proof fn provider_bindings_can_be_written(at: Moment, found: Found)
    requires
        at.event_time_ms <= i64::MAX,
        found.scope is Some,
    ensures
        can_be_written(Table::ProviderBindings),
{
    let e = crate::projections::providers::ProviderBindingCreated { created_at: 0, ..arbitrary() };
    let event = RuntimeEvent::ProviderBindingCreated(e);
    assert(is_written_by(Table::ProviderBindings, event, at, found, 0));
}

proof fn provider_connections_can_be_written(at: Moment, found: Found)
    requires
        at.event_time_ms <= i64::MAX,
        found.scope is Some,
    ensures
        can_be_written(Table::ProviderConnections),
{
    let e = crate::projections::providers::ProviderConnectionRegistered {
        registered_at: 0,
        ..arbitrary()
    };
    let event = RuntimeEvent::ProviderConnectionRegistered(e);
    assert(is_written_by(Table::ProviderConnections, event, at, found, 0));
}

proof fn provider_budgets_can_be_written(at: Moment, found: Found)
    requires
        at.event_time_ms <= i64::MAX,
        found.scope is Some,
    ensures
        can_be_written(Table::ProviderBudgets),
{
    let e = crate::projections::providers::ProviderBudgetSet {
        limit_micros: 0,
        alert_threshold_percent: None,
        ..arbitrary()
    };
    let event = RuntimeEvent::ProviderBudgetSet(e);
    assert(is_written_by(Table::ProviderBudgets, event, at, found, 0));
}

proof fn eval_runs_can_be_written(at: Moment, found: Found)
    requires
        at.event_time_ms <= i64::MAX,
        found.scope is Some,
    ensures
        can_be_written(Table::EvalRuns),
{
    let e: crate::projections::evals::EvalRunStarted = arbitrary();
    assert(is_written_by(Table::EvalRuns, RuntimeEvent::EvalRunStarted(e), at, found, 0));
}

proof fn eval_baselines_can_be_written(at: Moment, found: Found)
    requires
        at.event_time_ms <= i64::MAX,
        found.scope is Some,
    ensures
        can_be_written(Table::EvalBaselines),
{
    let e = crate::projections::evals::EvalBaselineSet { set_at_ms: 0, ..arbitrary() };
    assert(is_written_by(Table::EvalBaselines, RuntimeEvent::EvalBaselineSet(e), at, found, 0));
}

proof fn eval_rubrics_can_be_written(at: Moment, found: Found)
    requires
        at.event_time_ms <= i64::MAX,
        found.scope is Some,
    ensures
        can_be_written(Table::EvalRubrics),
{
    let e = crate::projections::evals::EvalRubricCreated { created_at_ms: 0, ..arbitrary() };
    assert(is_written_by(Table::EvalRubrics, RuntimeEvent::EvalRubricCreated(e), at, found, 0));
}

proof fn eval_dataset_entries_can_be_written(at: Moment, found: Found)
    requires
        at.event_time_ms <= i64::MAX,
        found.scope is Some,
    ensures
        can_be_written(Table::EvalDatasetEntries),
{
    let e = crate::projections::evals::EvalDatasetEntryAdded { added_at_ms: 0, ..arbitrary() };
    let event = RuntimeEvent::EvalDatasetEntryAdded(e);
    assert(is_written_by(Table::EvalDatasetEntries, event, at, found, 0));
}

proof fn eval_datasets_can_be_written(at: Moment, found: Found)
    requires
        at.event_time_ms <= i64::MAX,
        found.scope is Some,
    ensures
        can_be_written(Table::EvalDatasets),
{
    let e = crate::projections::evals::EvalDatasetCreated { created_at_ms: 0, ..arbitrary() };
    assert(is_written_by(Table::EvalDatasets, RuntimeEvent::EvalDatasetCreated(e), at, found, 0));
}

proof fn trigger_fires_can_be_written(at: Moment, found: Found)
    requires
        at.event_time_ms <= i64::MAX,
        found.scope is Some,
    ensures
        can_be_written(Table::TriggerFires),
{
    let e: crate::projections::triggers::TriggerFired = arbitrary();
    assert(is_written_by(Table::TriggerFires, RuntimeEvent::TriggerFired(e), at, found, 0));
}

proof fn triggers_can_be_written(at: Moment, found: Found)
    requires
        at.event_time_ms <= i64::MAX,
        found.scope is Some,
    ensures
        can_be_written(Table::Triggers),
{
    let e: crate::projections::triggers::TriggerCreated = arbitrary();
    assert(is_written_by(Table::Triggers, RuntimeEvent::TriggerCreated(e), at, found, 0));
}

proof fn run_templates_can_be_written(at: Moment, found: Found)
    requires
        at.event_time_ms <= i64::MAX,
        found.scope is Some,
    ensures
        can_be_written(Table::RunTemplates),
{
    let e: crate::projections::triggers::RunTemplateCreated = arbitrary();
    assert(is_written_by(Table::RunTemplates, RuntimeEvent::RunTemplateCreated(e), at, found, 0));
}

proof fn signal_ingestions_can_be_written(at: Moment, found: Found)
    requires
        at.event_time_ms <= i64::MAX,
        found.scope is Some,
    ensures
        can_be_written(Table::SignalIngestions),
{
    let e = crate::projections::messages::SignalIngested { timestamp_ms: 0, ..arbitrary() };
    assert(is_written_by(Table::SignalIngestions, RuntimeEvent::SignalIngested(e), at, found, 0));
}

proof fn channel_messages_can_be_written(at: Moment, found: Found)
    requires
        at.event_time_ms <= i64::MAX,
        found.scope is Some,
    ensures
        can_be_written(Table::ChannelMessages),
{
    let e = crate::projections::messages::ChannelMessageSent { sent_at_ms: 0, ..arbitrary() };
    let event = RuntimeEvent::ChannelMessageSent(e);
    assert(is_written_by(Table::ChannelMessages, event, at, found, 0));
}

proof fn channels_can_be_written(at: Moment, found: Found)
    requires
        at.event_time_ms <= i64::MAX,
        found.scope is Some,
    ensures
        can_be_written(Table::Channels),
{
    let e = crate::projections::messages::ChannelCreated {
        capacity: 0,
        created_at_ms: 0,
        ..arbitrary()
    };
    assert(is_written_by(Table::Channels, RuntimeEvent::ChannelCreated(e), at, found, 0));
}

proof fn scheduled_tasks_can_be_written(at: Moment, found: Found)
    requires
        at.event_time_ms <= i64::MAX,
        found.scope is Some,
    ensures
        can_be_written(Table::ScheduledTasks),
{
    let e = crate::projections::tasks::ScheduledTaskCreated {
        created_at: 0,
        next_run_at: None,
        ..arbitrary()
    };
    let event = RuntimeEvent::ScheduledTaskCreated(e);
    assert(is_written_by(Table::ScheduledTasks, event, at, found, 0));
}

proof fn external_workers_can_be_written(at: Moment, found: Found)
    requires
        at.event_time_ms <= i64::MAX,
        found.scope is Some,
    ensures
        can_be_written(Table::ExternalWorkers),
{
    let e = crate::projections::tasks::ExternalWorkerRegistered {
        registered_at: 0,
        ..arbitrary()
    };
    let event = RuntimeEvent::ExternalWorkerRegistered(e);
    assert(is_written_by(Table::ExternalWorkers, event, at, found, 0));
}

proof fn tool_invocations_can_be_written(at: Moment, found: Found)
    requires
        at.event_time_ms <= i64::MAX,
        found.scope is Some,
    ensures
        can_be_written(Table::ToolInvocations),
{
    let e: crate::projections::tools::ToolInvocationStarted = arbitrary();
    let event = RuntimeEvent::ToolInvocationStarted(e);
    assert(is_written_by(Table::ToolInvocations, event, at, found, 0));
}

proof fn mailbox_messages_can_be_written(at: Moment, found: Found)
    requires
        at.event_time_ms <= i64::MAX,
        found.scope is Some,
    ensures
        can_be_written(Table::MailboxMessages),
{
    let e: crate::projections::messages::MailboxMessageAppended = arbitrary();
    let event = RuntimeEvent::MailboxMessageAppended(e);
    assert(is_written_by(Table::MailboxMessages, event, at, found, 0));
}

proof fn checkpoints_can_be_written(at: Moment, found: Found)
    requires
        at.event_time_ms <= i64::MAX,
        found.scope is Some,
    ensures
        can_be_written(Table::Checkpoints),
{
    let e = crate::projections::checkpoints::CheckpointPersisted {
        iteration: 0,
        at_ms: 0,
        ..arbitrary()
    };
    assert(is_written_by(Table::Checkpoints, RuntimeEvent::CheckpointPersisted(e), at, found, 0));
}

proof fn approvals_can_be_written(at: Moment, found: Found)
    requires
        at.event_time_ms <= i64::MAX,
        found.scope is Some,
    ensures
        can_be_written(Table::Approvals),
{
    let e: crate::projections::approvals::ApprovalRequested = arbitrary();
    assert(is_written_by(Table::Approvals, RuntimeEvent::ApprovalRequested(e), at, found, 0));
}

proof fn tasks_can_be_written(at: Moment, found: Found)
    requires
        at.event_time_ms <= i64::MAX,
        found.scope is Some,
    ensures
        can_be_written(Table::Tasks),
{
    let e: crate::projections::tasks::TaskCreated = arbitrary();
    assert(is_written_by(Table::Tasks, RuntimeEvent::TaskCreated(e), at, found, 0));
}

proof fn runs_can_be_written(at: Moment, found: Found)
    requires
        at.event_time_ms <= i64::MAX,
        found.scope is Some,
    ensures
        can_be_written(Table::Runs),
{
    let e: crate::projections::runs::RunCreated = arbitrary();
    assert(is_written_by(Table::Runs, RuntimeEvent::RunCreated(e), at, found, 0));
}

proof fn sessions_can_be_written(at: Moment, found: Found)
    requires
        at.event_time_ms <= i64::MAX,
        found.scope is Some,
    ensures
        can_be_written(Table::Sessions),
{
    let e: crate::projections::sessions::SessionCreated = arbitrary();
    assert(is_written_by(Table::Sessions, RuntimeEvent::SessionCreated(e), at, found, 0));
}

proof fn prompt_releases_can_be_written(at: Moment, found: Found)
    requires
        at.event_time_ms <= i64::MAX,
        found.scope is Some,
    ensures
        can_be_written(Table::PromptReleases),
{
    let e: crate::projections::prompts::PromptReleaseCreated = arbitrary();
    let event = RuntimeEvent::PromptReleaseCreated(e);
    assert(is_written_by(Table::PromptReleases, event, at, found, 0));
}

proof fn prompt_versions_can_be_written(at: Moment, found: Found)
    requires
        at.event_time_ms <= i64::MAX,
        found.scope is Some,
    ensures
        can_be_written(Table::PromptVersions),
{
    let e: crate::projections::prompts::PromptVersionCreated = arbitrary();
    let event = RuntimeEvent::PromptVersionCreated(e);
    assert(is_written_by(Table::PromptVersions, event, at, found, 0));
}

proof fn prompt_assets_can_be_written(at: Moment, found: Found)
    requires
        at.event_time_ms <= i64::MAX,
        found.scope is Some,
    ensures
        can_be_written(Table::PromptAssets),
{
    let e: crate::projections::prompts::PromptAssetCreated = arbitrary();
    assert(is_written_by(Table::PromptAssets, RuntimeEvent::PromptAssetCreated(e), at, found, 0));
}

proof fn ingest_jobs_can_be_written(at: Moment, found: Found)
    requires
        at.event_time_ms <= i64::MAX,
        found.scope is Some,
    ensures
        can_be_written(Table::IngestJobs),
{
    let e = crate::projections::knowledge::IngestJobStarted {
        document_count: 0,
        started_at: 0,
        ..arbitrary()
    };
    assert(is_written_by(Table::IngestJobs, RuntimeEvent::IngestJobStarted(e), at, found, 0));
}

proof fn knowledge_ingest_jobs_can_be_written(at: Moment, found: Found)
    requires
        at.event_time_ms <= i64::MAX,
        found.scope is Some,
    ensures
        can_be_written(Table::KnowledgeIngestJobs),
{
    let e: crate::projections::knowledge::KnowledgeIngestRejected = arbitrary();
    let event = RuntimeEvent::KnowledgeIngestRejected(e);
    assert(is_written_by(Table::KnowledgeIngestJobs, event, at, found, 0));
}

proof fn project_knowledge_providers_can_be_written(at: Moment, found: Found)
    requires
        at.event_time_ms <= i64::MAX,
        found.scope is Some,
    ensures
        can_be_written(Table::ProjectKnowledgeProviders),
{
    let e: crate::projections::knowledge::KnowledgeProviderUnavailable = arbitrary();
    let event = RuntimeEvent::KnowledgeProviderUnavailable(e);
    assert(is_written_by(Table::ProjectKnowledgeProviders, event, at, found, 0));
}

proof fn soul_patches_can_be_written(at: Moment, found: Found)
    requires
        at.event_time_ms <= i64::MAX,
        found.scope is Some,
    ensures
        can_be_written(Table::SoulPatches),
{
    let e = crate::projections::knowledge::SoulPatchProposed { proposed_at: 0, ..arbitrary() };
    assert(is_written_by(Table::SoulPatches, RuntimeEvent::SoulPatchProposed(e), at, found, 0));
}

proof fn guardrail_evaluations_can_be_written(at: Moment, found: Found)
    requires
        at.event_time_ms <= i64::MAX,
        found.scope is Some,
    ensures
        can_be_written(Table::GuardrailEvaluations),
{
    let e = crate::projections::policies::GuardrailPolicyEvaluated {
        evaluated_at_ms: 0,
        ..arbitrary()
    };
    let event = RuntimeEvent::GuardrailPolicyEvaluated(e);
    assert(is_written_by(Table::GuardrailEvaluations, event, at, found, 0));
}

proof fn guardrail_policies_can_be_written(at: Moment, found: Found)
    requires
        at.event_time_ms <= i64::MAX,
        found.scope is Some,
    ensures
        can_be_written(Table::GuardrailPolicies),
{
    let e: crate::projections::policies::GuardrailPolicyCreated = arbitrary();
    let event = RuntimeEvent::GuardrailPolicyCreated(e);
    assert(is_written_by(Table::GuardrailPolicies, event, at, found, 0));
}

proof fn audit_log_entries_can_be_written(at: Moment, found: Found)
    requires
        at.event_time_ms <= i64::MAX,
        found.scope is Some,
    ensures
        can_be_written(Table::AuditLogEntries),
{
    let e = crate::projections::policies::AuditLogEntryRecorded {
        occurred_at_ms: 0,
        ..arbitrary()
    };
    let event = RuntimeEvent::AuditLogEntryRecorded(e);
    assert(is_written_by(Table::AuditLogEntries, event, at, found, 0));
}

proof fn credential_rotations_can_be_written(at: Moment, found: Found)
    requires
        at.event_time_ms <= i64::MAX,
        found.scope is Some,
    ensures
        can_be_written(Table::CredentialRotations),
{
    let e: crate::projections::policies::CredentialKeyRotated = arbitrary();
    let event = RuntimeEvent::CredentialKeyRotated(e);
    assert(is_written_by(Table::CredentialRotations, event, at, found, 0));
}

proof fn credentials_can_be_written(at: Moment, found: Found)
    requires
        at.event_time_ms <= i64::MAX,
        found.scope is Some,
    ensures
        can_be_written(Table::Credentials),
{
    let e = crate::projections::policies::CredentialStored { encrypted_at_ms: 0, ..arbitrary() };
    assert(is_written_by(Table::Credentials, RuntimeEvent::CredentialStored(e), at, found, 0));
}

proof fn notifications_can_be_written(at: Moment, found: Found)
    requires
        at.event_time_ms <= i64::MAX,
        found.scope is Some,
    ensures
        can_be_written(Table::Notifications),
{
    let e = crate::projections::messages::NotificationSent { sent_at_ms: 0, ..arbitrary() };
    assert(is_written_by(Table::Notifications, RuntimeEvent::NotificationSent(e), at, found, 0));
}

proof fn notification_preferences_can_be_written(at: Moment, found: Found)
    requires
        at.event_time_ms <= i64::MAX,
        found.scope is Some,
    ensures
        can_be_written(Table::NotificationPreferences),
{
    let e = crate::projections::messages::NotificationPreferenceSet {
        set_at_ms: 0,
        ..arbitrary()
    };
    let event = RuntimeEvent::NotificationPreferenceSet(e);
    assert(is_written_by(Table::NotificationPreferences, event, at, found, 0));
}

proof fn operator_tenant_roles_can_be_written(at: Moment, found: Found)
    requires
        at.event_time_ms <= i64::MAX,
        found.scope is Some,
    ensures
        can_be_written(Table::OperatorTenantRoles),
{
    let e = crate::projections::tenants::TenantRoleGranted { at_ms: 0, ..arbitrary() };
    let event = RuntimeEvent::TenantRoleGranted(e);
    assert(is_written_by(Table::OperatorTenantRoles, event, at, found, 0));
}

proof fn workspace_members_can_be_written(at: Moment, found: Found)
    requires
        at.event_time_ms <= i64::MAX,
        found.scope is Some,
    ensures
        can_be_written(Table::WorkspaceMembers),
{
    let e: crate::projections::tenants::WorkspaceMemberAdded = arbitrary();
    let event = RuntimeEvent::WorkspaceMemberAdded(e);
    assert(is_written_by(Table::WorkspaceMembers, event, at, found, 0));
}

proof fn operator_profiles_can_be_written(at: Moment, found: Found)
    requires
        at.event_time_ms <= i64::MAX,
        found.scope is Some,
    ensures
        can_be_written(Table::OperatorProfiles),
{
    let e: crate::projections::tenants::OperatorProfileCreated = arbitrary();
    let event = RuntimeEvent::OperatorProfileCreated(e);
    assert(is_written_by(Table::OperatorProfiles, event, at, found, 0));
}

proof fn resource_shares_can_be_written(at: Moment, found: Found)
    requires
        at.event_time_ms <= i64::MAX,
        found.scope is Some,
    ensures
        can_be_written(Table::ResourceShares),
{
    let e = crate::projections::tenants::ResourceShared { shared_at_ms: 0, ..arbitrary() };
    assert(is_written_by(Table::ResourceShares, RuntimeEvent::ResourceShared(e), at, found, 0));
}

proof fn retention_policies_can_be_written(at: Moment, found: Found)
    requires
        at.event_time_ms <= i64::MAX,
        found.scope is Some,
    ensures
        can_be_written(Table::RetentionPolicies),
{
    let e = crate::projections::tenants::RetentionPolicySet {
        full_history_days: 0,
        current_state_days: 0,
        max_events_per_entity: None,
        ..arbitrary()
    };
    let event = RuntimeEvent::RetentionPolicySet(e);
    assert(is_written_by(Table::RetentionPolicies, event, at, found, 0));
}

proof fn entitlement_overrides_can_be_written(at: Moment, found: Found)
    requires
        at.event_time_ms <= i64::MAX,
        found.scope is Some,
    ensures
        can_be_written(Table::EntitlementOverrides),
{
    let e = crate::projections::tenants::EntitlementOverrideSet { set_at_ms: 0, ..arbitrary() };
    let event = RuntimeEvent::EntitlementOverrideSet(e);
    assert(is_written_by(Table::EntitlementOverrides, event, at, found, 0));
}

proof fn licenses_can_be_written(at: Moment, found: Found)
    requires
        at.event_time_ms <= i64::MAX,
        found.scope is Some,
    ensures
        can_be_written(Table::Licenses),
{
    let e = crate::projections::tenants::LicenseActivated {
        valid_from_ms: 0,
        valid_until_ms: None,
        ..arbitrary()
    };
    assert(is_written_by(Table::Licenses, RuntimeEvent::LicenseActivated(e), at, found, 0));
}

proof fn tenant_quota_violations_can_be_written(at: Moment, found: Found)
    requires
        at.event_time_ms <= i64::MAX,
        found.scope is Some,
    ensures
        can_be_written(Table::TenantQuotaViolations),
{
    let e = crate::projections::tenants::TenantQuotaViolated {
        occurred_at_ms: 0,
        current: 0,
        limit: 0,
        ..arbitrary()
    };
    let event = RuntimeEvent::TenantQuotaViolated(e);
    assert(is_written_by(Table::TenantQuotaViolations, event, at, found, 0));
}

proof fn tenant_quotas_can_be_written(at: Moment, found: Found)
    requires
        at.event_time_ms <= i64::MAX,
        found.scope is Some,
    ensures
        can_be_written(Table::TenantQuotas),
{
    let e = crate::projections::tenants::TenantQuotaSet {
        max_concurrent_runs: 0,
        max_sessions_per_hour: 0,
        max_tasks_per_run: 0,
        ..arbitrary()
    };
    assert(is_written_by(Table::TenantQuotas, RuntimeEvent::TenantQuotaSet(e), at, found, 0));
}

proof fn default_settings_can_be_written(at: Moment, found: Found)
    requires
        at.event_time_ms <= i64::MAX,
        found.scope is Some,
    ensures
        can_be_written(Table::DefaultSettings),
{
    let e: crate::projections::tenants::DefaultSettingSet = arbitrary();
    let event = RuntimeEvent::DefaultSettingSet(e);
    assert(is_written_by(Table::DefaultSettings, event, at, found, 0));
}

proof fn projects_can_be_written(at: Moment, found: Found)
    requires
        at.event_time_ms <= i64::MAX,
        found.scope is Some,
    ensures
        can_be_written(Table::Projects),
{
    let e: crate::projections::tenants::ProjectCreated = arbitrary();
    assert(is_written_by(Table::Projects, RuntimeEvent::ProjectCreated(e), at, found, 0));
}

proof fn workspaces_can_be_written(at: Moment, found: Found)
    requires
        at.event_time_ms <= i64::MAX,
        found.scope is Some,
    ensures
        can_be_written(Table::Workspaces),
{
    let e: crate::projections::tenants::WorkspaceCreated = arbitrary();
    assert(is_written_by(Table::Workspaces, RuntimeEvent::WorkspaceCreated(e), at, found, 0));
}

proof fn tenants_can_be_written(at: Moment, found: Found)
    requires
        at.event_time_ms <= i64::MAX,
        found.scope is Some,
    ensures
        can_be_written(Table::Tenants),
{
    let e: crate::projections::tenants::TenantCreated = arbitrary();
    assert(is_written_by(Table::Tenants, RuntimeEvent::TenantCreated(e), at, found, 0));
}

/// A full rebuild empties no table that the events could not fill again: each
/// table that it empties is written by some event.
pub proof fn every_rebuilt_table_is_written(table: Table)
    requires
        crate::rebuild::rebuilt_tables().contains(table),
    ensures
        can_be_written(table),
{
    let at = Moment { event_time_ms: 0, ..arbitrary() };
    let found = Found { scope: Some(arbitrary()), ..arbitrary() };
    crate::laws::rebuilding::the_projected_tables_are_rebuilt(table);
    match table {
        Table::ApprovalDelegations => approval_delegations_can_be_written(at, found),
        Table::ToolCallApprovals => tool_call_approvals_can_be_written(at, found),
        Table::ToolInvocationCacheHits => tool_invocation_cache_hits_can_be_written(at, found),
        Table::ToolInvocationProgress => tool_invocation_progress_can_be_written(at, found),
        Table::ToolRecoveryPauses => tool_recovery_pauses_can_be_written(at, found),
        Table::CheckpointStrategies => checkpoint_strategies_can_be_written(at, found),
        Table::SessionOutcomes => session_outcomes_can_be_written(at, found),
        Table::WorkspaceSnapshots => workspace_snapshots_can_be_written(at, found),
        Table::SubagentSpawns => subagent_spawns_can_be_written(at, found),
        Table::PauseSchedules => pause_schedules_can_be_written(at, found),
        Table::PlanReviews => plan_reviews_can_be_written(at, found),
        Table::Outcomes => outcomes_can_be_written(at, found),
        Table::UserMessages => user_messages_can_be_written(at, found),
        Table::LlmCompletions => llm_completions_can_be_written(at, found),
        Table::RecoveryAttempts => recovery_attempts_can_be_written(at, found),
        Table::RecoveryCompletions => recovery_completions_can_be_written(at, found),
        Table::RecoverySummaries => recovery_summaries_can_be_written(at, found),
        Table::DecisionRecords => decision_records_can_be_written(at, found),
        Table::DecisionCacheWarmups => decision_cache_warmups_can_be_written(at, found),
        Table::RunCosts => run_costs_can_be_written(at, found),
        Table::RunCostAlerts => run_cost_alerts_can_be_written(at, found),
        Table::SessionCosts => session_costs_can_be_written(at, found),
        Table::ProjectCosts => project_costs_can_be_written(at, found),
        Table::WorkspaceCosts => workspace_costs_can_be_written(at, found),
        Table::ProviderCalls => provider_calls_can_be_written(at, found),
        Table::RouteDecisions => route_decisions_can_be_written(at, found),
        Table::RoutePolicies => route_policies_can_be_written(at, found),
        Table::ProviderBindings => provider_bindings_can_be_written(at, found),
        Table::ProviderConnections => provider_connections_can_be_written(at, found),
        Table::ProviderBudgets => provider_budgets_can_be_written(at, found),
        Table::EvalRuns => eval_runs_can_be_written(at, found),
        Table::EvalBaselines => eval_baselines_can_be_written(at, found),
        Table::EvalRubrics => eval_rubrics_can_be_written(at, found),
        Table::EvalDatasetEntries => eval_dataset_entries_can_be_written(at, found),
        Table::EvalDatasets => eval_datasets_can_be_written(at, found),
        Table::TriggerFires => trigger_fires_can_be_written(at, found),
        Table::Triggers => triggers_can_be_written(at, found),
        Table::RunTemplates => run_templates_can_be_written(at, found),
        Table::SignalIngestions => signal_ingestions_can_be_written(at, found),
        Table::ChannelMessages => channel_messages_can_be_written(at, found),
        Table::Channels => channels_can_be_written(at, found),
        Table::ScheduledTasks => scheduled_tasks_can_be_written(at, found),
        Table::ExternalWorkers => external_workers_can_be_written(at, found),
        Table::ToolInvocations => tool_invocations_can_be_written(at, found),
        Table::MailboxMessages => mailbox_messages_can_be_written(at, found),
        Table::Checkpoints => checkpoints_can_be_written(at, found),
        Table::Approvals => approvals_can_be_written(at, found),
        Table::Tasks => tasks_can_be_written(at, found),
        Table::Runs => runs_can_be_written(at, found),
        Table::Sessions => sessions_can_be_written(at, found),
        Table::PromptReleases => prompt_releases_can_be_written(at, found),
        Table::PromptVersions => prompt_versions_can_be_written(at, found),
        Table::PromptAssets => prompt_assets_can_be_written(at, found),
        Table::IngestJobs => ingest_jobs_can_be_written(at, found),
        Table::KnowledgeIngestJobs => knowledge_ingest_jobs_can_be_written(at, found),
        Table::ProjectKnowledgeProviders => project_knowledge_providers_can_be_written(at, found),
        Table::SoulPatches => soul_patches_can_be_written(at, found),
        Table::GuardrailEvaluations => guardrail_evaluations_can_be_written(at, found),
        Table::GuardrailPolicies => guardrail_policies_can_be_written(at, found),
        Table::AuditLogEntries => audit_log_entries_can_be_written(at, found),
        Table::CredentialRotations => credential_rotations_can_be_written(at, found),
        Table::Credentials => credentials_can_be_written(at, found),
        Table::Notifications => notifications_can_be_written(at, found),
        Table::NotificationPreferences => notification_preferences_can_be_written(at, found),
        Table::OperatorTenantRoles => operator_tenant_roles_can_be_written(at, found),
        Table::WorkspaceMembers => workspace_members_can_be_written(at, found),
        Table::OperatorProfiles => operator_profiles_can_be_written(at, found),
        Table::ResourceShares => resource_shares_can_be_written(at, found),
        Table::RetentionPolicies => retention_policies_can_be_written(at, found),
        Table::EntitlementOverrides => entitlement_overrides_can_be_written(at, found),
        Table::Licenses => licenses_can_be_written(at, found),
        Table::TenantQuotaViolations => tenant_quota_violations_can_be_written(at, found),
        Table::TenantQuotas => tenant_quotas_can_be_written(at, found),
        Table::DefaultSettings => default_settings_can_be_written(at, found),
        Table::Projects => projects_can_be_written(at, found),
        Table::Workspaces => workspaces_can_be_written(at, found),
        Table::Tenants => tenants_can_be_written(at, found),
        _ => {},
    }
}

} // verus!
