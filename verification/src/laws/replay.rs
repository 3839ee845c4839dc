//! Projecting an event again.

use crate::events::RuntimeEvent;
use crate::laws::rows::group_rows;
use crate::model::{Database, Datum, Row};
use crate::plan::{Found, Moment, Planned};
use crate::schema::Column;
use crate::statement::{
    ChangesView, ConflictView, FilterView, GuardView, OperandView, RowView, SourceView,
    StatementView,
};
use vstd::prelude::*;

verus! {

/// A row that holds a given value, which is not missing, in each of some
/// columns.
pub open spec fn is_keyed(row: RowView, key: Seq<Column>) -> bool {
    forall|i: int| 0 <= i < key.len() ==> has_value(#[trigger] row.held(key[i]))
}

/// Whether a column is filled with a given value that is not missing.
pub open spec fn has_value(held: Option<OperandView>) -> bool {
    match held {
        Some(OperandView::Value(v)) => crate::model::datum(v) != Datum::Null,
        _ => false,
    }
}

/// Whether two rows hold the same in each of some columns.
pub open spec fn agree(a: RowView, b: RowView, key: Seq<Column>) -> bool {
    forall|i: int| 0 <= i < key.len() ==> #[trigger] a.held(key[i]) == b.held(key[i])
}

/// Whether a statement inserts a row only where its key is not stored, and the
/// key is given.
pub open spec fn stores_once(s: StatementView) -> bool {
    match s {
        StatementView::Insert { cells, conflict: ConflictView::Ignore(key), .. } => is_keyed(
            RowView { cells },
            key,
        ),
        _ => false,
    }
}

/// Whether two statements insert a row under the same key.
pub open spec fn same_insert(a: StatementView, b: StatementView) -> bool {
    match (a, b) {
        (
            StatementView::Insert { table: t, cells: c, conflict: ConflictView::Ignore(k) },
            StatementView::Insert { table: u, cells: d, conflict: ConflictView::Ignore(l) },
        ) => t == u && k == l && agree(RowView { cells: c }, RowView { cells: d }, k),
        _ => false,
    }
}

/// The effect of one statement.
pub proof fn one_statement(db: Database, s: StatementView)
    ensures
        crate::model::after_all(db, seq![s]) == crate::model::after(db, s),
{
    let all = seq![s];
    assert(all.drop_last() =~= Seq::empty());
    assert(crate::model::after_all(db, all.drop_last()) == db);
}

/// Where a row was inserted once, a second insert under the same key changes
/// nothing, whatever else it holds.
pub proof fn a_row_is_stored_once(db: Database, first: StatementView, second: StatementView)
    requires
        stores_once(first),
        same_insert(first, second),
    ensures
        crate::model::after(crate::model::after(db, first), second) == crate::model::after(
            db,
            first,
        ),
{
    broadcast use group_rows;

    match (first, second) {
        (
            StatementView::Insert { table, cells, conflict: ConflictView::Ignore(key) },
            StatementView::Insert { cells: again, .. },
        ) => {
            let a = RowView { cells };
            let b = RowView { cells: again };
            let new = crate::model::offered(db, table, a.cells);
            let mid = crate::model::after(db, first);
            let other = crate::model::offered(mid, table, b.cells);
            assert forall|i: int| 0 <= i < key.len() implies crate::model::value(
                new,
                #[trigger] key[i],
            ) == crate::model::value(other, key[i]) && crate::model::value(new, key[i])
                != Datum::Null by {
                assert(has_value(a.held(key[i])));
                assert(a.held(key[i]) == b.held(key[i]));
            }
            assert(crate::model::same_key(new, other, key));
            assert(crate::model::same_key(new, new, key));
            let rows = db.rows(table);
            if crate::model::stored(rows, new, key) {
                let i = choose|i: int|
                    0 <= i < rows.len() && crate::model::same_key(#[trigger] rows[i], new, key);
                same_key_is_shared(rows[i], new, other, key);
                assert(mid.rows(table)[i] == rows[i]);
            } else {
                assert(mid.rows(table)[rows.len() as int] == new);
            }
            assert(crate::model::stored(mid.rows(table), other, key));
        },
        _ => {},
    }
}

proof fn same_key_is_shared(a: Row, b: Row, c: Row, key: Seq<Column>)
    requires
        crate::model::same_key(a, b, key),
        crate::model::same_key(b, c, key),
    ensures
        crate::model::same_key(a, c, key),
{
    assert forall|i: int| 0 <= i < key.len() implies crate::model::value(a, #[trigger] key[i])
        == crate::model::value(c, key[i]) && crate::model::value(a, key[i]) != Datum::Null by {
        assert(crate::model::value(b, key[i]) == crate::model::value(c, key[i]));
    }
}

/// Whether the event stores a row that is kept as it was first stored.
pub open spec fn is_stored_once(event: RuntimeEvent) -> bool {
    match event {
        RuntimeEvent::SoulPatchProposed(_)
        | RuntimeEvent::RecoveryAttempted(_)
        | RuntimeEvent::RecoveryCompleted(_)
        | RuntimeEvent::SignalIngested(_)
        | RuntimeEvent::UserMessageAppended(_)
        | RuntimeEvent::IngestJobStarted(_)
        | RuntimeEvent::EvalRunStarted(_)
        | RuntimeEvent::OutcomeRecorded(_)
        | RuntimeEvent::ScheduledTaskCreated(_)
        | RuntimeEvent::PlanProposed(_)
        | RuntimeEvent::ChannelCreated(_)
        | RuntimeEvent::ChannelMessageSent(_)
        | RuntimeEvent::NotificationSent(_)
        | RuntimeEvent::TenantQuotaViolated(_)
        | RuntimeEvent::ApprovalDelegated(_)
        | RuntimeEvent::AuditLogEntryRecorded(_)
        | RuntimeEvent::CredentialKeyRotated(_)
        | RuntimeEvent::EvalDatasetCreated(_)
        | RuntimeEvent::EvalDatasetEntryAdded(_)
        | RuntimeEvent::EvalRubricCreated(_)
        | RuntimeEvent::GuardrailPolicyEvaluated(_)
        | RuntimeEvent::ResourceShared(_)
        | RuntimeEvent::ToolInvocationCacheHit(_)
        | RuntimeEvent::ToolRecoveryPaused(_)
        | RuntimeEvent::RecoverySummaryEmitted(_)
        | RuntimeEvent::ToolCallProposed(_)
        | RuntimeEvent::TenantCreated(_)
        | RuntimeEvent::WorkspaceCreated(_)
        | RuntimeEvent::ProjectCreated(_)
        | RuntimeEvent::PromptAssetCreated(_)
        | RuntimeEvent::PromptVersionCreated(_)
        | RuntimeEvent::PromptReleaseCreated(_)
        | RuntimeEvent::RouteDecisionMade(_)
        | RuntimeEvent::TriggerCreated(_)
        | RuntimeEvent::RunTemplateCreated(_)
        | RuntimeEvent::WorkspaceSnapshotCreated(_)
        | RuntimeEvent::DecisionRecorded(_)
        | RuntimeEvent::DecisionCacheWarmup(_)
        | RuntimeEvent::LlmCompletionRecorded(_)
        | RuntimeEvent::KnowledgeProviderUnavailable(_)
        | RuntimeEvent::KnowledgeProviderCapabilityChanged(_) => true,
        _ => false,
    }
}

/// Whether two plans are both empty, or insert one row under the same key.
spec fn are_one_insert(first: Planned, second: Planned) -> bool {
    let a = first.statements();
    let b = second.statements();
    &&& a.len() == b.len()
    &&& a.len() == 0 || a == seq![a[0]] && b == seq![b[0]] && stores_once(a[0]) && same_insert(
        a[0],
        b[0],
    )
}

proof fn soul_patch_proposed_is_stored_once(
    e: crate::projections::knowledge::SoulPatchProposed,
    at: Moment,
    later: Moment,
)
    requires
        at.event_id@ == later.event_id@,
    ensures
        are_one_insert(e.writes(at), e.writes(later)),
{
    broadcast use group_rows;
}

proof fn recovery_attempted_is_stored_once(
    e: crate::projections::recovery::RecoveryAttempted,
    at: Moment,
    later: Moment,
)
    requires
        at.event_id@ == later.event_id@,
    ensures
        are_one_insert(e.writes(at), e.writes(later)),
{
    broadcast use group_rows;
}

proof fn recovery_completed_is_stored_once(
    e: crate::projections::recovery::RecoveryCompleted,
    at: Moment,
    later: Moment,
)
    requires
        at.event_id@ == later.event_id@,
    ensures
        are_one_insert(e.writes(at), e.writes(later)),
{
    broadcast use group_rows;
}

proof fn signal_ingested_is_stored_once(
    e: crate::projections::messages::SignalIngested,
    at: Moment,
    later: Moment,
)
    requires
        at.event_id@ == later.event_id@,
    ensures
        are_one_insert(e.writes(at), e.writes(later)),
{
    broadcast use group_rows;
}

proof fn user_message_appended_is_stored_once(
    e: crate::projections::sessions::UserMessageAppended,
    at: Moment,
    later: Moment,
)
    requires
        at.event_id@ == later.event_id@,
    ensures
        are_one_insert(e.writes(at), e.writes(later)),
{
    broadcast use group_rows;
}

proof fn ingest_job_started_is_stored_once(
    e: crate::projections::knowledge::IngestJobStarted,
    at: Moment,
    later: Moment,
)
    requires
        at.event_id@ == later.event_id@,
    ensures
        are_one_insert(e.writes(at), e.writes(later)),
{
    broadcast use group_rows;
}

proof fn eval_run_started_is_stored_once(
    e: crate::projections::evals::EvalRunStarted,
    at: Moment,
    later: Moment,
)
    requires
        at.event_id@ == later.event_id@,
    ensures
        are_one_insert(e.writes(at), e.writes(later)),
{
    broadcast use group_rows;
}

proof fn outcome_recorded_is_stored_once(
    e: crate::projections::evals::OutcomeRecorded,
    at: Moment,
    later: Moment,
)
    requires
        at.event_id@ == later.event_id@,
    ensures
        are_one_insert(e.writes(at), e.writes(later)),
{
    broadcast use group_rows;
}

proof fn scheduled_task_created_is_stored_once(
    e: crate::projections::tasks::ScheduledTaskCreated,
    at: Moment,
    later: Moment,
)
    requires
        at.event_id@ == later.event_id@,
    ensures
        are_one_insert(e.writes(at), e.writes(later)),
{
    broadcast use group_rows;
}

proof fn plan_proposed_is_stored_once(
    e: crate::projections::approvals::PlanProposed,
    at: Moment,
    later: Moment,
)
    requires
        at.event_id@ == later.event_id@,
    ensures
        are_one_insert(e.writes(at), e.writes(later)),
{
    broadcast use group_rows;
}

proof fn channel_created_is_stored_once(
    e: crate::projections::messages::ChannelCreated,
    at: Moment,
    later: Moment,
)
    requires
        at.event_id@ == later.event_id@,
    ensures
        are_one_insert(e.writes(at), e.writes(later)),
{
    broadcast use group_rows;
}

proof fn channel_message_sent_is_stored_once(
    e: crate::projections::messages::ChannelMessageSent,
    at: Moment,
    later: Moment,
)
    requires
        at.event_id@ == later.event_id@,
    ensures
        are_one_insert(e.writes(at), e.writes(later)),
{
    broadcast use group_rows;
}

proof fn notification_sent_is_stored_once(
    e: crate::projections::messages::NotificationSent,
    at: Moment,
    later: Moment,
)
    requires
        at.event_id@ == later.event_id@,
    ensures
        are_one_insert(e.writes(at), e.writes(later)),
{
    broadcast use group_rows;
}

proof fn tenant_quota_violated_is_stored_once(
    e: crate::projections::tenants::TenantQuotaViolated,
    at: Moment,
    later: Moment,
)
    requires
        at.event_id@ == later.event_id@,
    ensures
        are_one_insert(e.writes(at), e.writes(later)),
{
    broadcast use group_rows;
}

proof fn approval_delegated_is_stored_once(
    e: crate::projections::approvals::ApprovalDelegated,
    at: Moment,
    later: Moment,
)
    requires
        at.event_id@ == later.event_id@,
    ensures
        are_one_insert(e.writes(at), e.writes(later)),
{
    broadcast use group_rows;
}

proof fn audit_log_entry_recorded_is_stored_once(
    e: crate::projections::policies::AuditLogEntryRecorded,
    at: Moment,
    later: Moment,
)
    requires
        at.event_id@ == later.event_id@,
    ensures
        are_one_insert(e.writes(at), e.writes(later)),
{
    broadcast use group_rows;
}

proof fn credential_key_rotated_is_stored_once(
    e: crate::projections::policies::CredentialKeyRotated,
    at: Moment,
    later: Moment,
)
    requires
        at.event_id@ == later.event_id@,
    ensures
        are_one_insert(e.writes(at), e.writes(later)),
{
    broadcast use group_rows;
}

proof fn eval_dataset_created_is_stored_once(
    e: crate::projections::evals::EvalDatasetCreated,
    at: Moment,
    later: Moment,
)
    requires
        at.event_id@ == later.event_id@,
    ensures
        are_one_insert(e.writes(at), e.writes(later)),
{
    broadcast use group_rows;
}

proof fn eval_dataset_entry_added_is_stored_once(
    e: crate::projections::evals::EvalDatasetEntryAdded,
    at: Moment,
    later: Moment,
)
    requires
        at.event_id@ == later.event_id@,
    ensures
        are_one_insert(e.writes(at), e.writes(later)),
{
    broadcast use group_rows;
}

proof fn eval_rubric_created_is_stored_once(
    e: crate::projections::evals::EvalRubricCreated,
    at: Moment,
    later: Moment,
)
    requires
        at.event_id@ == later.event_id@,
    ensures
        are_one_insert(e.writes(at), e.writes(later)),
{
    broadcast use group_rows;
}

proof fn guardrail_policy_evaluated_is_stored_once(
    e: crate::projections::policies::GuardrailPolicyEvaluated,
    at: Moment,
    later: Moment,
)
    requires
        at.event_id@ == later.event_id@,
    ensures
        are_one_insert(e.writes(at), e.writes(later)),
{
    broadcast use group_rows;
}

proof fn resource_shared_is_stored_once(
    e: crate::projections::tenants::ResourceShared,
    at: Moment,
    later: Moment,
)
    requires
        at.event_id@ == later.event_id@,
    ensures
        are_one_insert(e.writes(at), e.writes(later)),
{
    broadcast use group_rows;
}

proof fn tool_invocation_cache_hit_is_stored_once(
    e: crate::projections::tools::ToolInvocationCacheHit,
    at: Moment,
    later: Moment,
)
    requires
        at.event_id@ == later.event_id@,
    ensures
        are_one_insert(e.writes(at), e.writes(later)),
{
    broadcast use group_rows;
}

proof fn tool_recovery_paused_is_stored_once(
    e: crate::projections::tools::ToolRecoveryPaused,
    at: Moment,
    later: Moment,
)
    requires
        at.event_id@ == later.event_id@,
    ensures
        are_one_insert(e.writes(at), e.writes(later)),
{
    broadcast use group_rows;
}

proof fn recovery_summary_emitted_is_stored_once(
    e: crate::projections::recovery::RecoverySummaryEmitted,
    at: Moment,
    later: Moment,
)
    requires
        at.event_id@ == later.event_id@,
    ensures
        are_one_insert(e.writes(at), e.writes(later)),
{
    broadcast use group_rows;
}

proof fn tool_call_proposed_is_stored_once(
    e: crate::projections::approvals::ToolCallProposed,
    at: Moment,
    later: Moment,
)
    requires
        at.event_id@ == later.event_id@,
    ensures
        are_one_insert(e.writes(at), e.writes(later)),
{
    broadcast use group_rows;
}

proof fn tenant_created_is_stored_once(
    e: crate::projections::tenants::TenantCreated,
    at: Moment,
    later: Moment,
)
    requires
        at.event_id@ == later.event_id@,
    ensures
        are_one_insert(e.writes(at), e.writes(later)),
{
    broadcast use group_rows;
}

proof fn workspace_created_is_stored_once(
    e: crate::projections::tenants::WorkspaceCreated,
    at: Moment,
    later: Moment,
)
    requires
        at.event_id@ == later.event_id@,
    ensures
        are_one_insert(e.writes(at), e.writes(later)),
{
    broadcast use group_rows;
}

proof fn project_created_is_stored_once(
    e: crate::projections::tenants::ProjectCreated,
    at: Moment,
    later: Moment,
)
    requires
        at.event_id@ == later.event_id@,
    ensures
        are_one_insert(e.writes(at), e.writes(later)),
{
    broadcast use group_rows;
}

proof fn prompt_asset_created_is_stored_once(
    e: crate::projections::prompts::PromptAssetCreated,
    at: Moment,
    later: Moment,
)
    requires
        at.event_id@ == later.event_id@,
    ensures
        are_one_insert(e.writes(at), e.writes(later)),
{
    broadcast use group_rows;
}

proof fn prompt_version_created_is_stored_once(
    e: crate::projections::prompts::PromptVersionCreated,
    at: Moment,
    found: Found,
    later: Moment,
    again: Found,
)
    requires
        at.event_id@ == later.event_id@,
    ensures
        are_one_insert(e.writes(at, found), e.writes(later, again)),
{
    broadcast use group_rows;
}

proof fn prompt_release_created_is_stored_once(
    e: crate::projections::prompts::PromptReleaseCreated,
    at: Moment,
    later: Moment,
)
    requires
        at.event_id@ == later.event_id@,
    ensures
        are_one_insert(e.writes(at), e.writes(later)),
{
    broadcast use group_rows;
}

proof fn route_decision_made_is_stored_once(
    e: crate::projections::providers::RouteDecisionMade,
    at: Moment,
    later: Moment,
)
    requires
        at.event_id@ == later.event_id@,
    ensures
        are_one_insert(e.writes(at), e.writes(later)),
{
    broadcast use group_rows;
}

proof fn trigger_created_is_stored_once(
    e: crate::projections::triggers::TriggerCreated,
    at: Moment,
    later: Moment,
)
    requires
        at.event_id@ == later.event_id@,
    ensures
        are_one_insert(e.writes(at), e.writes(later)),
{
    broadcast use group_rows;
}

proof fn run_template_created_is_stored_once(
    e: crate::projections::triggers::RunTemplateCreated,
    at: Moment,
    later: Moment,
)
    requires
        at.event_id@ == later.event_id@,
    ensures
        are_one_insert(e.writes(at), e.writes(later)),
{
    broadcast use group_rows;
}

proof fn workspace_snapshot_created_is_stored_once(
    e: crate::projections::checkpoints::WorkspaceSnapshotCreated,
    at: Moment,
    later: Moment,
)
    requires
        at.event_id@ == later.event_id@,
    ensures
        are_one_insert(e.writes(at), e.writes(later)),
{
    broadcast use group_rows;
}

proof fn decision_recorded_is_stored_once(
    e: crate::projections::recovery::DecisionRecorded,
    at: Moment,
    later: Moment,
)
    requires
        at.event_id@ == later.event_id@,
    ensures
        are_one_insert(e.writes(at), e.writes(later)),
{
    broadcast use group_rows;
}

proof fn decision_cache_warmup_is_stored_once(
    e: crate::projections::recovery::DecisionCacheWarmup,
    at: Moment,
    later: Moment,
)
    requires
        at.event_id@ == later.event_id@,
    ensures
        are_one_insert(e.writes(at), e.writes(later)),
{
    broadcast use group_rows;
}

proof fn llm_completion_recorded_is_stored_once(
    e: crate::projections::sessions::LlmCompletionRecorded,
    at: Moment,
    later: Moment,
)
    requires
        at.event_id@ == later.event_id@,
    ensures
        are_one_insert(e.writes(at), e.writes(later)),
{
    broadcast use group_rows;
}

proof fn knowledge_provider_unavailable_is_stored_once(
    e: crate::projections::knowledge::KnowledgeProviderUnavailable,
    at: Moment,
    later: Moment,
)
    requires
        at.event_id@ == later.event_id@,
    ensures
        are_one_insert(e.writes(at), e.writes(later)),
{
    broadcast use group_rows;
}

proof fn knowledge_provider_capability_changed_is_stored_once(
    e: crate::projections::knowledge::KnowledgeProviderCapabilityChanged,
    at: Moment,
    later: Moment,
)
    requires
        at.event_id@ == later.event_id@,
    ensures
        are_one_insert(e.writes(at), e.writes(later)),
{
    broadcast use group_rows;
}

/// An event that stores a row once can be projected again at any later time:
/// nothing changes.
pub proof fn projecting_again_keeps_what_was_stored_once(
    event: RuntimeEvent,
    at: Moment,
    found: Found,
    later: Moment,
    again: Found,
    db: Database,
)
    requires
        is_stored_once(event),
        at.event_id@ == later.event_id@,
    ensures
        ({
            let once = crate::model::after_all(db, event.writes(at, found).statements());
            crate::model::after_all(once, event.writes(later, again).statements()) == once
        }),
{
    match event {
        RuntimeEvent::SoulPatchProposed(e) => soul_patch_proposed_is_stored_once(e, at, later),
        RuntimeEvent::RecoveryAttempted(e) => recovery_attempted_is_stored_once(e, at, later),
        RuntimeEvent::RecoveryCompleted(e) => recovery_completed_is_stored_once(e, at, later),
        RuntimeEvent::SignalIngested(e) => signal_ingested_is_stored_once(e, at, later),
        RuntimeEvent::UserMessageAppended(e) => user_message_appended_is_stored_once(e, at, later),
        RuntimeEvent::IngestJobStarted(e) => ingest_job_started_is_stored_once(e, at, later),
        RuntimeEvent::EvalRunStarted(e) => eval_run_started_is_stored_once(e, at, later),
        RuntimeEvent::OutcomeRecorded(e) => outcome_recorded_is_stored_once(e, at, later),
        RuntimeEvent::ScheduledTaskCreated(e) => scheduled_task_created_is_stored_once(
            e,
            at,
            later,
        ),
        RuntimeEvent::PlanProposed(e) => plan_proposed_is_stored_once(e, at, later),
        RuntimeEvent::ChannelCreated(e) => channel_created_is_stored_once(e, at, later),
        RuntimeEvent::ChannelMessageSent(e) => channel_message_sent_is_stored_once(e, at, later),
        RuntimeEvent::NotificationSent(e) => notification_sent_is_stored_once(e, at, later),
        RuntimeEvent::TenantQuotaViolated(e) => tenant_quota_violated_is_stored_once(e, at, later),
        RuntimeEvent::ApprovalDelegated(e) => approval_delegated_is_stored_once(e, at, later),
        RuntimeEvent::AuditLogEntryRecorded(e) => audit_log_entry_recorded_is_stored_once(
            e,
            at,
            later,
        ),
        RuntimeEvent::CredentialKeyRotated(e) => credential_key_rotated_is_stored_once(
            e,
            at,
            later,
        ),
        RuntimeEvent::EvalDatasetCreated(e) => eval_dataset_created_is_stored_once(e, at, later),
        RuntimeEvent::EvalDatasetEntryAdded(e) => eval_dataset_entry_added_is_stored_once(
            e,
            at,
            later,
        ),
        RuntimeEvent::EvalRubricCreated(e) => eval_rubric_created_is_stored_once(e, at, later),
        RuntimeEvent::GuardrailPolicyEvaluated(e) => guardrail_policy_evaluated_is_stored_once(
            e,
            at,
            later,
        ),
        RuntimeEvent::ResourceShared(e) => resource_shared_is_stored_once(e, at, later),
        RuntimeEvent::ToolInvocationCacheHit(e) => tool_invocation_cache_hit_is_stored_once(
            e,
            at,
            later,
        ),
        RuntimeEvent::ToolRecoveryPaused(e) => tool_recovery_paused_is_stored_once(e, at, later),
        RuntimeEvent::RecoverySummaryEmitted(e) => recovery_summary_emitted_is_stored_once(
            e,
            at,
            later,
        ),
        RuntimeEvent::ToolCallProposed(e) => tool_call_proposed_is_stored_once(e, at, later),
        RuntimeEvent::TenantCreated(e) => tenant_created_is_stored_once(e, at, later),
        RuntimeEvent::WorkspaceCreated(e) => workspace_created_is_stored_once(e, at, later),
        RuntimeEvent::ProjectCreated(e) => project_created_is_stored_once(e, at, later),
        RuntimeEvent::PromptAssetCreated(e) => prompt_asset_created_is_stored_once(e, at, later),
        RuntimeEvent::PromptVersionCreated(e) => prompt_version_created_is_stored_once(
            e,
            at,
            found,
            later,
            again,
        ),
        RuntimeEvent::PromptReleaseCreated(e) => prompt_release_created_is_stored_once(
            e,
            at,
            later,
        ),
        RuntimeEvent::RouteDecisionMade(e) => route_decision_made_is_stored_once(e, at, later),
        RuntimeEvent::TriggerCreated(e) => trigger_created_is_stored_once(e, at, later),
        RuntimeEvent::RunTemplateCreated(e) => run_template_created_is_stored_once(e, at, later),
        RuntimeEvent::WorkspaceSnapshotCreated(e) => workspace_snapshot_created_is_stored_once(
            e,
            at,
            later,
        ),
        RuntimeEvent::DecisionRecorded(e) => decision_recorded_is_stored_once(e, at, later),
        RuntimeEvent::DecisionCacheWarmup(e) => decision_cache_warmup_is_stored_once(e, at, later),
        RuntimeEvent::LlmCompletionRecorded(e) => llm_completion_recorded_is_stored_once(
            e,
            at,
            later,
        ),
        RuntimeEvent::KnowledgeProviderUnavailable(e) => {
            knowledge_provider_unavailable_is_stored_once(e, at, later)
        },
        RuntimeEvent::KnowledgeProviderCapabilityChanged(e) => {
            knowledge_provider_capability_changed_is_stored_once(e, at, later)
        },
        _ => {},
    }
    let first = event.writes(at, found).statements();
    let second = event.writes(later, again).statements();
    if first.len() > 0 {
        one_statement(db, first[0]);
        one_statement(crate::model::after(db, first[0]), second[0]);
        a_row_is_stored_once(db, first[0], second[0]);
    }
}

/// Whether the assignments of a merge put there what the offered row holds.
pub open spec fn fits(row: RowView, changes: ChangesView) -> bool
    decreases changes.set.len(),
{
    changes.set.len() == 0 || (fits_one(
        row.held(changes.set.last().0),
        changes.set.last().1,
    ) && fits(row, ChangesView { set: changes.set.drop_last() }))
}

/// Whether one assignment puts there what the offered row holds.
pub open spec fn fits_one(held: Option<OperandView>, source: SourceView) -> bool {
    match source {
        SourceView::Excluded => held is Some,
        SourceView::Value(v) => held == Some(OperandView::Value(v)),
        _ => false,
    }
}

pub broadcast proof fn no_changes_fit(row: RowView)
    ensures
        #[trigger] fits(row, ChangesView::new()),
{
}

pub broadcast proof fn changes_fit_one_by_one(
    row: RowView,
    changes: ChangesView,
    column: Column,
    source: SourceView,
)
    ensures
        #[trigger] fits(row, changes.source(column, source)) == (fits_one(row.held(column), source)
            && fits(row, changes)),
{
    assert(changes.source(column, source).set.drop_last() =~= changes.set);
}

/// Whether a statement leaves the same rows when it is run twice.
pub open spec fn settles(s: StatementView) -> bool {
    match s {
        StatementView::Insert { cells, conflict: ConflictView::Fail, .. } => false,
        StatementView::Insert { cells, conflict: ConflictView::Ignore(key), .. } => is_keyed(
            RowView { cells },
            key,
        ),
        StatementView::Insert { cells, conflict: ConflictView::Merge { key, set, .. }, .. } => {
            &&& (RowView { cells }).is_plain()
            &&& is_keyed(RowView { cells }, key)
            &&& fits(RowView { cells }, ChangesView { set })
        },
        StatementView::Update { set, filter, .. } => (ChangesView { set }).is_constant() && (
        FilterView { tests: filter }).is_plain(),
        StatementView::Delete { filter, .. } => (FilterView { tests: filter }).is_plain(),
    }
}

proof fn fitting_changes_are_constant(row: RowView, changes: ChangesView)
    requires
        fits(row, changes),
    ensures
        changes.is_constant(),
    decreases changes.set.len(),
{
    if changes.set.len() > 0 {
        fitting_changes_are_constant(row, ChangesView { set: changes.set.drop_last() });
    }
}

proof fn an_assigned_column_fits(row: RowView, changes: ChangesView, column: Column)
    requires
        fits(row, changes),
        changes.assigned(column) is Some,
    ensures
        fits_one(row.held(column), changes.assigned(column)->Some_0),
    decreases changes.set.len(),
{
    if changes.set.last().0 != column {
        an_assigned_column_fits(row, ChangesView { set: changes.set.drop_last() }, column);
    }
}

proof fn a_constant_source(changes: ChangesView, column: Column)
    requires
        changes.is_constant(),
        changes.assigned(column) is Some,
    ensures
        changes.assigned(column)->Some_0 is Value || changes.assigned(column)->Some_0 is Excluded,
    decreases changes.set.len(),
{
    if changes.set.last().0 != column {
        a_constant_source(ChangesView { set: changes.set.drop_last() }, column);
    }
}

/// What a changed row holds, column by column.
proof fn a_changed_column(was: Row, excluded: Row, changes: ChangesView, column: Column)
    ensures
        ({
            let now = crate::model::changed(was, excluded, changes.set);
            match changes.assigned(column) {
                Some(source) => now.contains_key(column) && now[column]
                    == crate::model::source_value(was, excluded, column, source),
                None => now.contains_key(column) == was.contains_key(column) && (was.contains_key(
                    column,
                ) ==> now[column] == was[column]),
            }
        }),
    decreases changes.set.len(),
{
    if changes.set.len() > 0 {
        a_changed_column(was, excluded, ChangesView { set: changes.set.drop_last() }, column);
    }
}

/// A row offered by a plain insert does not depend on the database.
proof fn a_plain_row_is_offered_alike(a: Database, b: Database, s: StatementView, row: RowView)
    requires
        row.is_plain(),
        a.defaults == b.defaults,
    ensures
        crate::model::offered(a, s.table(), row.cells) == crate::model::offered(
            b,
            s.table(),
            row.cells,
        ),
    decreases row.cells.len(),
{
    if row.cells.len() > 0 {
        a_plain_row_is_offered_alike(a, b, s, RowView { cells: row.cells.drop_last() });
    }
}

/// What an offered row holds, column by column.
proof fn an_offered_column(db: Database, s: StatementView, row: RowView, column: Column)
    ensures
        row.held(column) is Some ==> crate::model::offered(
            db,
            s.table(),
            row.cells,
        ).contains_key(column),
    decreases row.cells.len(),
{
    if row.cells.len() > 0 {
        an_offered_column(db, s, RowView { cells: row.cells.drop_last() }, column);
    }
}

/// Making constant changes a second time changes nothing.
proof fn constant_changes_settle(was: Row, excluded: Row, changes: ChangesView)
    requires
        changes.is_constant(),
    ensures
        ({
            let now = crate::model::changed(was, excluded, changes.set);
            crate::model::changed(now, excluded, changes.set) == now
        }),
{
    let now = crate::model::changed(was, excluded, changes.set);
    let twice = crate::model::changed(now, excluded, changes.set);
    assert forall|c: Column| #[trigger]
        twice.contains_key(c) == now.contains_key(c) && (
            now.contains_key(c) ==> twice[c] == now[c]
        ) by {
        a_changed_column(was, excluded, changes, c);
        a_changed_column(now, excluded, changes, c);
        if changes.assigned(c) is Some {
            a_constant_source(changes, c);
        }
    }
    assert(twice =~= now);
}

/// The same, where the row itself stands for the offered one.
proof fn constant_updates_settle(was: Row, changes: ChangesView)
    requires
        changes.is_constant(),
    ensures
        ({
            let now = crate::model::changed(was, was, changes.set);
            crate::model::changed(now, now, changes.set) == now
        }),
{
    let now = crate::model::changed(was, was, changes.set);
    let twice = crate::model::changed(now, now, changes.set);
    assert forall|c: Column| #[trigger]
        twice.contains_key(c) == now.contains_key(c) && (
            now.contains_key(c) ==> twice[c] == now[c]
        ) by {
        a_changed_column(was, was, changes, c);
        a_changed_column(now, now, changes, c);
        if changes.assigned(c) is Some {
            a_constant_source(changes, c);
        }
    }
    assert(twice =~= now);
}

/// A merge into the row that it offered changes nothing.
proof fn an_offered_row_fits(db: Database, s: StatementView, row: RowView, changes: ChangesView)
    requires
        fits(row, changes),
    ensures
        ({
            let new = crate::model::offered(db, s.table(), row.cells);
            crate::model::changed(new, new, changes.set) == new
        }),
{
    broadcast use group_rows;

    let new = crate::model::offered(db, s.table(), row.cells);
    let now = crate::model::changed(new, new, changes.set);
    assert forall|c: Column| #[trigger]
        now.contains_key(c) == new.contains_key(c) && (
            new.contains_key(c) ==> now[c] == new[c]
        ) by {
        a_changed_column(new, new, changes, c);
        if changes.assigned(c) is Some {
            an_assigned_column_fits(row, changes, c);
            an_offered_column(db, s, row, c);
            assert(crate::model::value(new, c) == new[c]);
        }
    }
    assert(now =~= new);
}

proof fn plain_tests_ignore_the_database(a: Database, b: Database, row: Row, filter: FilterView)
    requires
        filter.is_plain(),
    ensures
        crate::model::passes_all(a, row, filter.tests) == crate::model::passes_all(
            b,
            row,
            filter.tests,
        ),
{
    assert forall|i: int| 0 <= i < filter.tests.len() implies crate::model::passes(
        a,
        row,
        #[trigger] filter.tests[i],
    ) == crate::model::passes(b, row, filter.tests[i]) by {
        a_plain_test(filter, i);
    }
}

proof fn a_plain_test(filter: FilterView, i: int)
    requires
        filter.is_plain(),
        0 <= i < filter.tests.len(),
    ensures
        !(filter.tests[i] is IsRootOf),
        !(filter.tests[i] is RunOfSession),
    decreases filter.tests.len(),
{
    if i < filter.tests.len() - 1 {
        let front = FilterView { tests: filter.tests.drop_last() };
        a_plain_test(front, i);
        assert(front.tests[i] == filter.tests[i]);
    }
}

proof fn what_was_kept_is_kept(rows: Seq<Row>, a: spec_fn(Row) -> bool, b: spec_fn(Row) -> bool)
    requires
        forall|row: Row| #[trigger] a(row) == b(row),
    ensures
        rows.filter(a).filter(b) == rows.filter(a),
    decreases rows.len(),
{
    reveal(Seq::filter);
    if rows.len() > 0 {
        what_was_kept_is_kept(rows.drop_last(), a, b);
        let front = rows.drop_last().filter(a);
        if a(rows.last()) {
            assert(front.push(rows.last()).drop_last() =~= front);
        }
    }
}

proof fn a_merge_settles(
    db: Database,
    s: StatementView,
    row: RowView,
    key: Seq<Column>,
    changes: ChangesView,
    guard: GuardView,
)
    requires
        s == row.guarded_upsert(s.table(), key, changes, guard),
        row.is_plain(),
        is_keyed(row, key),
        fits(row, changes),
    ensures
        crate::model::after(crate::model::after(db, s), s) == crate::model::after(db, s),
{
    broadcast use group_rows;

    let table = s.table();
    let mid = crate::model::after(db, s);
    let new = crate::model::offered(db, table, row.cells);
    a_plain_row_is_offered_alike(db, mid, s, row);
    fitting_changes_are_constant(row, changes);
    let rows = db.rows(table);
    let now = mid.rows(table);
    assert forall|i: int| 0 <= i < key.len() implies crate::model::value(new, #[trigger] key[i])
        != Datum::Null by {
        assert(has_value(row.held(key[i])));
    }
    assert(crate::model::same_key(new, new, key));
    let end = crate::model::after(mid, s);
    if crate::model::stored(rows, new, key) {
        assert forall|i: int| 0 <= i < rows.len() implies #[trigger] now[i] == (
        if crate::model::same_key(now[i], new, key) && crate::model::allowed(now[i], new, guard) {
            crate::model::changed(now[i], new, changes.set)
        } else {
            now[i]
        }) by {
            if crate::model::same_key(rows[i], new, key) && crate::model::allowed(
                rows[i],
                new,
                guard,
            ) {
                constant_changes_settle(rows[i], new, changes);
            }
        }
        let i = choose|i: int|
            0 <= i < rows.len() && crate::model::same_key(#[trigger] rows[i], new, key);
        merged_key(rows[i], new, row, key, changes, db, s);
        assert(crate::model::same_key(now[i], new, key));
        assert(crate::model::stored(now, new, key));
        assert(end.rows(table) =~= now);
    } else {
        assert(now[rows.len() as int] == new);
        assert(crate::model::stored(now, new, key));
        an_offered_row_fits(db, s, row, changes);
        assert forall|i: int| 0 <= i < now.len() implies #[trigger] end.rows(
            table,
        )[i] == now[i] by {
            if i < rows.len() {
                assert(now[i] == rows[i]);
                assert(!crate::model::same_key(rows[i], new, key));
            }
        }
        assert(end.rows(table) =~= now);
    }
    assert(end.tables =~= mid.tables);
}

proof fn merged_key(
    was: Row,
    new: Row,
    row: RowView,
    key: Seq<Column>,
    changes: ChangesView,
    db: Database,
    s: StatementView,
)
    requires
        crate::model::same_key(was, new, key),
        fits(row, changes),
        new == crate::model::offered(db, s.table(), row.cells),
    ensures
        crate::model::same_key(crate::model::changed(was, new, changes.set), new, key),
{
    broadcast use group_rows;

    let now = crate::model::changed(was, new, changes.set);
    assert forall|i: int| 0 <= i < key.len() implies crate::model::value(now, #[trigger] key[i])
        == crate::model::value(new, key[i]) && crate::model::value(now, key[i]) != Datum::Null by {
        assert(crate::model::value(was, key[i]) == crate::model::value(new, key[i]));
        if changes.assigned(key[i]) is Some {
            an_assigned_column_fits(row, changes, key[i]);
        }
    }
}

/// A statement that settles leaves the same rows when it is run twice.
pub proof fn running_twice_is_running_once(db: Database, s: StatementView)
    requires
        settles(s),
    ensures
        crate::model::after(crate::model::after(db, s), s) == crate::model::after(db, s),
{
    let mid = crate::model::after(db, s);
    match s {
        StatementView::Insert { table, cells, conflict } => match conflict {
            ConflictView::Fail => {},
            ConflictView::Ignore(key) => {
                a_row_is_stored_once(db, s, s);
            },
            ConflictView::Merge { key, set, guard } => {
                a_merge_settles(db, s, RowView { cells }, key, ChangesView { set }, guard);
            },
        },
        StatementView::Update { table, set, filter } => {
            let rows = db.rows(table);
            let now = mid.rows(table);
            let end = crate::model::after(mid, s);
            assert forall|i: int| 0 <= i < rows.len() implies #[trigger] end.rows(table)[i]
                == now[i] by {
                plain_tests_ignore_the_database(db, mid, rows[i], FilterView { tests: filter });
                constant_updates_settle(rows[i], ChangesView { set });
            }
            assert(end.rows(table) =~= now);
            assert(end.tables =~= mid.tables);
        },
        StatementView::Delete { table, filter } => {
            let rows = db.rows(table);
            let keep = |row: Row| !crate::model::passes_all(db, row, filter);
            let keep_now = |row: Row| !crate::model::passes_all(mid, row, filter);
            assert forall|row: Row| #[trigger] keep(row) == keep_now(row) by {
                plain_tests_ignore_the_database(db, mid, row, FilterView { tests: filter });
            }
            what_was_kept_is_kept(rows, keep, keep_now);
            let end = crate::model::after(mid, s);
            assert(end.rows(table) =~= mid.rows(table));
            assert(end.tables =~= mid.tables);
        },
    }
}

/// Whether projecting the event twice at one moment is projecting it once.
pub open spec fn is_repeatable(event: RuntimeEvent) -> bool {
    match event {
        RuntimeEvent::ExternalWorkerRegistered(_)
        | RuntimeEvent::ExternalWorkerSuspended(_)
        | RuntimeEvent::ExternalWorkerReactivated(_)
        | RuntimeEvent::ExternalWorkerReported(_)
        | RuntimeEvent::SoulPatchProposed(_)
        | RuntimeEvent::SoulPatchApplied(_)
        | RuntimeEvent::RecoveryAttempted(_)
        | RuntimeEvent::RecoveryCompleted(_)
        | RuntimeEvent::SignalIngested(_)
        | RuntimeEvent::UserMessageAppended(_)
        | RuntimeEvent::IngestJobStarted(_)
        | RuntimeEvent::IngestJobCompleted(_)
        | RuntimeEvent::EvalRunStarted(_)
        | RuntimeEvent::EvalRunCompleted(_)
        | RuntimeEvent::EvalRunArchived(_)
        | RuntimeEvent::EvalRunScored(_)
        | RuntimeEvent::EvalRubricScored(_)
        | RuntimeEvent::OutcomeRecorded(_)
        | RuntimeEvent::ScheduledTaskCreated(_)
        | RuntimeEvent::PlanProposed(_)
        | RuntimeEvent::PlanApproved(_)
        | RuntimeEvent::PlanRejected(_)
        | RuntimeEvent::PlanRevisionRequested(_)
        | RuntimeEvent::ProviderBudgetSet(_)
        | RuntimeEvent::ChannelCreated(_)
        | RuntimeEvent::ChannelMessageSent(_)
        | RuntimeEvent::ChannelMessageConsumed(_)
        | RuntimeEvent::DefaultSettingSet(_)
        | RuntimeEvent::DefaultSettingCleared(_)
        | RuntimeEvent::LicenseActivated(_)
        | RuntimeEvent::EntitlementOverrideSet(_)
        | RuntimeEvent::NotificationPreferenceSet(_)
        | RuntimeEvent::NotificationSent(_)
        | RuntimeEvent::TenantQuotaSet(_)
        | RuntimeEvent::TenantQuotaViolated(_)
        | RuntimeEvent::RetentionPolicySet(_)
        | RuntimeEvent::RunCostAlertSet(_)
        | RuntimeEvent::RunCostAlertTriggered(_)
        | RuntimeEvent::ApprovalDelegated(_)
        | RuntimeEvent::AuditLogEntryRecorded(_)
        | RuntimeEvent::CheckpointStrategySet(_)
        | RuntimeEvent::CredentialStored(_)
        | RuntimeEvent::CredentialRevoked(_)
        | RuntimeEvent::CredentialKeyRotated(_)
        | RuntimeEvent::EvalDatasetCreated(_)
        | RuntimeEvent::EvalDatasetEntryAdded(_)
        | RuntimeEvent::EvalRubricCreated(_)
        | RuntimeEvent::EvalBaselineSet(_)
        | RuntimeEvent::EvalBaselineLocked(_)
        | RuntimeEvent::GuardrailPolicyCreated(_)
        | RuntimeEvent::GuardrailPolicyEvaluated(_)
        | RuntimeEvent::OperatorProfileCreated(_)
        | RuntimeEvent::TenantRoleGranted(_)
        | RuntimeEvent::TenantRoleRevoked(_)
        | RuntimeEvent::ProviderBindingCreated(_)
        | RuntimeEvent::ProviderBindingStateChanged(_)
        | RuntimeEvent::ProviderBudgetAlertTriggered(_)
        | RuntimeEvent::ProviderConnectionRegistered(_)
        | RuntimeEvent::ProviderConnectionDeleted(_)
        | RuntimeEvent::ResourceShared(_)
        | RuntimeEvent::ResourceShareRevoked(_)
        | RuntimeEvent::RoutePolicyUpdated(_)
        | RuntimeEvent::ToolInvocationCacheHit(_)
        | RuntimeEvent::ToolRecoveryPaused(_)
        | RuntimeEvent::ToolInvocationProgressUpdated(_)
        | RuntimeEvent::RecoverySummaryEmitted(_)
        | RuntimeEvent::ToolCallProposed(_)
        | RuntimeEvent::TenantCreated(_)
        | RuntimeEvent::WorkspaceCreated(_)
        | RuntimeEvent::WorkspaceArchived(_)
        | RuntimeEvent::ProjectCreated(_)
        | RuntimeEvent::RoutePolicyCreated(_)
        | RuntimeEvent::WorkspaceMemberAdded(_)
        | RuntimeEvent::WorkspaceMemberRemoved(_)
        | RuntimeEvent::PromptAssetCreated(_)
        | RuntimeEvent::PromptVersionCreated(_)
        | RuntimeEvent::PromptReleaseCreated(_)
        | RuntimeEvent::PromptReleaseTransitioned(_)
        | RuntimeEvent::RouteDecisionMade(_)
        | RuntimeEvent::TriggerCreated(_)
        | RuntimeEvent::TriggerEnabled(_)
        | RuntimeEvent::TriggerDisabled(_)
        | RuntimeEvent::TriggerSuspended(_)
        | RuntimeEvent::TriggerResumed(_)
        | RuntimeEvent::TriggerDeleted(_)
        | RuntimeEvent::RunTemplateCreated(_)
        | RuntimeEvent::RunTemplateDeleted(_)
        | RuntimeEvent::CheckpointPersisted(_)
        | RuntimeEvent::WorkspaceSnapshotCreated(_)
        | RuntimeEvent::WorkspaceSnapshotReaped(_)
        | RuntimeEvent::SessionOutcomeEmitted(_)
        | RuntimeEvent::DecisionRecorded(_)
        | RuntimeEvent::DecisionCacheWarmup(_)
        | RuntimeEvent::LlmCompletionRecorded(_)
        | RuntimeEvent::KnowledgeProviderConfigured(_)
        | RuntimeEvent::KnowledgeProviderUnavailable(_)
        | RuntimeEvent::KnowledgeProviderCapabilityChanged(_)
        | RuntimeEvent::KnowledgeIngestRejected(_)
        | RuntimeEvent::KnowledgeIngestStatusUpdated(_) => true,
        _ => false,
    }
}

/// Whether a plan is empty, or one statement that settles.
spec fn settles_alone(plan: Planned) -> bool {
    let writes = plan.statements();
    writes.len() == 0 || writes == seq![writes[0]] && settles(writes[0])
}

proof fn external_worker_registered_settles(
    e: crate::projections::tasks::ExternalWorkerRegistered,
    at: Moment,
)
    ensures
        settles_alone(e.writes(at)),
{
    broadcast use group_rows, no_changes_fit, changes_fit_one_by_one;
}

proof fn external_worker_suspended_settles(
    e: crate::projections::tasks::ExternalWorkerSuspended,
    at: Moment,
)
    ensures
        settles_alone(e.writes(at)),
{
    broadcast use group_rows, no_changes_fit, changes_fit_one_by_one;
}

proof fn external_worker_reactivated_settles(
    e: crate::projections::tasks::ExternalWorkerReactivated,
    at: Moment,
)
    ensures
        settles_alone(e.writes(at)),
{
    broadcast use group_rows, no_changes_fit, changes_fit_one_by_one;
}

proof fn external_worker_reported_settles(
    e: crate::projections::tasks::ExternalWorkerReported,
    at: Moment,
)
    ensures
        settles_alone(e.writes(at)),
{
    broadcast use group_rows, no_changes_fit, changes_fit_one_by_one;
}

proof fn soul_patch_proposed_settles(
    e: crate::projections::knowledge::SoulPatchProposed,
    at: Moment,
)
    ensures
        settles_alone(e.writes(at)),
{
    broadcast use group_rows, no_changes_fit, changes_fit_one_by_one;
}

proof fn soul_patch_applied_settles(e: crate::projections::knowledge::SoulPatchApplied, at: Moment)
    ensures
        settles_alone(e.writes(at)),
{
    broadcast use group_rows, no_changes_fit, changes_fit_one_by_one;
}

proof fn recovery_attempted_settles(e: crate::projections::recovery::RecoveryAttempted, at: Moment)
    ensures
        settles_alone(e.writes(at)),
{
    broadcast use group_rows, no_changes_fit, changes_fit_one_by_one;
}

proof fn recovery_completed_settles(e: crate::projections::recovery::RecoveryCompleted, at: Moment)
    ensures
        settles_alone(e.writes(at)),
{
    broadcast use group_rows, no_changes_fit, changes_fit_one_by_one;
}

proof fn signal_ingested_settles(e: crate::projections::messages::SignalIngested, at: Moment)
    ensures
        settles_alone(e.writes(at)),
{
    broadcast use group_rows, no_changes_fit, changes_fit_one_by_one;
}

proof fn user_message_appended_settles(
    e: crate::projections::sessions::UserMessageAppended,
    at: Moment,
)
    ensures
        settles_alone(e.writes(at)),
{
    broadcast use group_rows, no_changes_fit, changes_fit_one_by_one;
}

proof fn ingest_job_started_settles(e: crate::projections::knowledge::IngestJobStarted, at: Moment)
    ensures
        settles_alone(e.writes(at)),
{
    broadcast use group_rows, no_changes_fit, changes_fit_one_by_one;
}

proof fn ingest_job_completed_settles(
    e: crate::projections::knowledge::IngestJobCompleted,
    at: Moment,
)
    ensures
        settles_alone(e.writes(at)),
{
    broadcast use group_rows, no_changes_fit, changes_fit_one_by_one;
}

proof fn eval_run_started_settles(e: crate::projections::evals::EvalRunStarted, at: Moment)
    ensures
        settles_alone(e.writes(at)),
{
    broadcast use group_rows, no_changes_fit, changes_fit_one_by_one;
}

proof fn eval_run_completed_settles(e: crate::projections::evals::EvalRunCompleted, at: Moment)
    ensures
        settles_alone(e.writes(at)),
{
    broadcast use group_rows, no_changes_fit, changes_fit_one_by_one;
}

proof fn eval_run_archived_settles(e: crate::projections::evals::EvalRunArchived, at: Moment)
    ensures
        settles_alone(e.writes(at)),
{
    broadcast use group_rows, no_changes_fit, changes_fit_one_by_one;
}

proof fn eval_run_scored_settles(e: crate::projections::evals::EvalRunScored, at: Moment)
    ensures
        settles_alone(e.writes(at)),
{
    broadcast use group_rows, no_changes_fit, changes_fit_one_by_one;
}

proof fn eval_rubric_scored_settles(e: crate::projections::evals::EvalRubricScored, at: Moment)
    ensures
        settles_alone(e.writes(at)),
{
    broadcast use group_rows, no_changes_fit, changes_fit_one_by_one;
}

proof fn outcome_recorded_settles(e: crate::projections::evals::OutcomeRecorded, at: Moment)
    ensures
        settles_alone(e.writes(at)),
{
    broadcast use group_rows, no_changes_fit, changes_fit_one_by_one;
}

proof fn scheduled_task_created_settles(
    e: crate::projections::tasks::ScheduledTaskCreated,
    at: Moment,
)
    ensures
        settles_alone(e.writes(at)),
{
    broadcast use group_rows, no_changes_fit, changes_fit_one_by_one;
}

proof fn plan_proposed_settles(e: crate::projections::approvals::PlanProposed, at: Moment)
    ensures
        settles_alone(e.writes(at)),
{
    broadcast use group_rows, no_changes_fit, changes_fit_one_by_one;
}

proof fn plan_approved_settles(e: crate::projections::approvals::PlanApproved, at: Moment)
    ensures
        settles_alone(e.writes(at)),
{
    broadcast use group_rows, no_changes_fit, changes_fit_one_by_one;
}

proof fn plan_rejected_settles(e: crate::projections::approvals::PlanRejected, at: Moment)
    ensures
        settles_alone(e.writes(at)),
{
    broadcast use group_rows, no_changes_fit, changes_fit_one_by_one;
}

proof fn plan_revision_requested_settles(
    e: crate::projections::approvals::PlanRevisionRequested,
    at: Moment,
)
    ensures
        settles_alone(e.writes(at)),
{
    broadcast use group_rows, no_changes_fit, changes_fit_one_by_one;
}

proof fn provider_budget_set_settles(
    e: crate::projections::providers::ProviderBudgetSet,
    at: Moment,
)
    ensures
        settles_alone(e.writes(at)),
{
    broadcast use group_rows, no_changes_fit, changes_fit_one_by_one;
}

proof fn channel_created_settles(e: crate::projections::messages::ChannelCreated, at: Moment)
    ensures
        settles_alone(e.writes(at)),
{
    broadcast use group_rows, no_changes_fit, changes_fit_one_by_one;
}

proof fn channel_message_sent_settles(
    e: crate::projections::messages::ChannelMessageSent,
    at: Moment,
)
    ensures
        settles_alone(e.writes(at)),
{
    broadcast use group_rows, no_changes_fit, changes_fit_one_by_one;
}

proof fn channel_message_consumed_settles(
    e: crate::projections::messages::ChannelMessageConsumed,
    at: Moment,
)
    ensures
        settles_alone(e.writes(at)),
{
    broadcast use group_rows, no_changes_fit, changes_fit_one_by_one;
}

proof fn default_setting_set_settles(e: crate::projections::tenants::DefaultSettingSet, at: Moment)
    ensures
        settles_alone(e.writes(at)),
{
    broadcast use group_rows, no_changes_fit, changes_fit_one_by_one;
}

proof fn default_setting_cleared_settles(
    e: crate::projections::tenants::DefaultSettingCleared,
    at: Moment,
)
    ensures
        settles_alone(e.writes(at)),
{
    broadcast use group_rows, no_changes_fit, changes_fit_one_by_one;
}

proof fn license_activated_settles(e: crate::projections::tenants::LicenseActivated, at: Moment)
    ensures
        settles_alone(e.writes(at)),
{
    broadcast use group_rows, no_changes_fit, changes_fit_one_by_one;
}

proof fn entitlement_override_set_settles(
    e: crate::projections::tenants::EntitlementOverrideSet,
    at: Moment,
)
    ensures
        settles_alone(e.writes(at)),
{
    broadcast use group_rows, no_changes_fit, changes_fit_one_by_one;
}

proof fn notification_preference_set_settles(
    e: crate::projections::messages::NotificationPreferenceSet,
    at: Moment,
)
    ensures
        settles_alone(e.writes(at)),
{
    broadcast use group_rows, no_changes_fit, changes_fit_one_by_one;
}

proof fn notification_sent_settles(e: crate::projections::messages::NotificationSent, at: Moment)
    ensures
        settles_alone(e.writes(at)),
{
    broadcast use group_rows, no_changes_fit, changes_fit_one_by_one;
}

proof fn tenant_quota_set_settles(e: crate::projections::tenants::TenantQuotaSet, at: Moment)
    ensures
        settles_alone(e.writes(at)),
{
    broadcast use group_rows, no_changes_fit, changes_fit_one_by_one;
}

proof fn tenant_quota_violated_settles(
    e: crate::projections::tenants::TenantQuotaViolated,
    at: Moment,
)
    ensures
        settles_alone(e.writes(at)),
{
    broadcast use group_rows, no_changes_fit, changes_fit_one_by_one;
}

proof fn retention_policy_set_settles(
    e: crate::projections::tenants::RetentionPolicySet,
    at: Moment,
)
    ensures
        settles_alone(e.writes(at)),
{
    broadcast use group_rows, no_changes_fit, changes_fit_one_by_one;
}

proof fn run_cost_alert_set_settles(e: crate::projections::costs::RunCostAlertSet, at: Moment)
    ensures
        settles_alone(e.writes(at)),
{
    broadcast use group_rows, no_changes_fit, changes_fit_one_by_one;
}

proof fn run_cost_alert_triggered_settles(
    e: crate::projections::costs::RunCostAlertTriggered,
    at: Moment,
)
    ensures
        settles_alone(e.writes(at)),
{
    broadcast use group_rows, no_changes_fit, changes_fit_one_by_one;
}

proof fn approval_delegated_settles(e: crate::projections::approvals::ApprovalDelegated, at: Moment)
    ensures
        settles_alone(e.writes(at)),
{
    broadcast use group_rows, no_changes_fit, changes_fit_one_by_one;
}

proof fn audit_log_entry_recorded_settles(
    e: crate::projections::policies::AuditLogEntryRecorded,
    at: Moment,
)
    ensures
        settles_alone(e.writes(at)),
{
    broadcast use group_rows, no_changes_fit, changes_fit_one_by_one;
}

proof fn checkpoint_strategy_set_settles(
    e: crate::projections::checkpoints::CheckpointStrategySet,
    at: Moment,
)
    ensures
        settles_alone(e.writes(at)),
{
    broadcast use group_rows, no_changes_fit, changes_fit_one_by_one;
}

proof fn credential_stored_settles(e: crate::projections::policies::CredentialStored, at: Moment)
    ensures
        settles_alone(e.writes(at)),
{
    broadcast use group_rows, no_changes_fit, changes_fit_one_by_one;
}

proof fn credential_revoked_settles(e: crate::projections::policies::CredentialRevoked, at: Moment)
    ensures
        settles_alone(e.writes(at)),
{
    broadcast use group_rows, no_changes_fit, changes_fit_one_by_one;
}

proof fn credential_key_rotated_settles(
    e: crate::projections::policies::CredentialKeyRotated,
    at: Moment,
)
    ensures
        settles_alone(e.writes(at)),
{
    broadcast use group_rows, no_changes_fit, changes_fit_one_by_one;
}

proof fn eval_dataset_created_settles(e: crate::projections::evals::EvalDatasetCreated, at: Moment)
    ensures
        settles_alone(e.writes(at)),
{
    broadcast use group_rows, no_changes_fit, changes_fit_one_by_one;
}

proof fn eval_dataset_entry_added_settles(
    e: crate::projections::evals::EvalDatasetEntryAdded,
    at: Moment,
)
    ensures
        settles_alone(e.writes(at)),
{
    broadcast use group_rows, no_changes_fit, changes_fit_one_by_one;
}

proof fn eval_rubric_created_settles(e: crate::projections::evals::EvalRubricCreated, at: Moment)
    ensures
        settles_alone(e.writes(at)),
{
    broadcast use group_rows, no_changes_fit, changes_fit_one_by_one;
}

proof fn eval_baseline_set_settles(e: crate::projections::evals::EvalBaselineSet, at: Moment)
    ensures
        settles_alone(e.writes(at)),
{
    broadcast use group_rows, no_changes_fit, changes_fit_one_by_one;
}

proof fn eval_baseline_locked_settles(e: crate::projections::evals::EvalBaselineLocked, at: Moment)
    ensures
        settles_alone(e.writes(at)),
{
    broadcast use group_rows, no_changes_fit, changes_fit_one_by_one;
}

proof fn guardrail_policy_created_settles(
    e: crate::projections::policies::GuardrailPolicyCreated,
    at: Moment,
)
    ensures
        settles_alone(e.writes(at)),
{
    broadcast use group_rows, no_changes_fit, changes_fit_one_by_one;
}

proof fn guardrail_policy_evaluated_settles(
    e: crate::projections::policies::GuardrailPolicyEvaluated,
    at: Moment,
)
    ensures
        settles_alone(e.writes(at)),
{
    broadcast use group_rows, no_changes_fit, changes_fit_one_by_one;
}

proof fn operator_profile_created_settles(
    e: crate::projections::tenants::OperatorProfileCreated,
    at: Moment,
)
    ensures
        settles_alone(e.writes(at)),
{
    broadcast use group_rows, no_changes_fit, changes_fit_one_by_one;
}

proof fn tenant_role_granted_settles(e: crate::projections::tenants::TenantRoleGranted, at: Moment)
    ensures
        settles_alone(e.writes(at)),
{
    broadcast use group_rows, no_changes_fit, changes_fit_one_by_one;
}

proof fn tenant_role_revoked_settles(e: crate::projections::tenants::TenantRoleRevoked, at: Moment)
    ensures
        settles_alone(e.writes(at)),
{
    broadcast use group_rows, no_changes_fit, changes_fit_one_by_one;
}

proof fn provider_binding_created_settles(
    e: crate::projections::providers::ProviderBindingCreated,
    at: Moment,
)
    ensures
        settles_alone(e.writes(at)),
{
    broadcast use group_rows, no_changes_fit, changes_fit_one_by_one;
}

proof fn provider_binding_state_changed_settles(
    e: crate::projections::providers::ProviderBindingStateChanged,
    at: Moment,
)
    ensures
        settles_alone(e.writes(at)),
{
    broadcast use group_rows, no_changes_fit, changes_fit_one_by_one;
}

proof fn provider_budget_alert_triggered_settles(
    e: crate::projections::providers::ProviderBudgetAlertTriggered,
    at: Moment,
)
    ensures
        settles_alone(e.writes(at)),
{
    broadcast use group_rows, no_changes_fit, changes_fit_one_by_one;
}

proof fn provider_connection_registered_settles(
    e: crate::projections::providers::ProviderConnectionRegistered,
    at: Moment,
)
    ensures
        settles_alone(e.writes(at)),
{
    broadcast use group_rows, no_changes_fit, changes_fit_one_by_one;
}

proof fn provider_connection_deleted_settles(
    e: crate::projections::providers::ProviderConnectionDeleted,
    at: Moment,
)
    ensures
        settles_alone(e.writes(at)),
{
    broadcast use group_rows, no_changes_fit, changes_fit_one_by_one;
}

proof fn resource_shared_settles(e: crate::projections::tenants::ResourceShared, at: Moment)
    ensures
        settles_alone(e.writes(at)),
{
    broadcast use group_rows, no_changes_fit, changes_fit_one_by_one;
}

proof fn resource_share_revoked_settles(
    e: crate::projections::tenants::ResourceShareRevoked,
    at: Moment,
)
    ensures
        settles_alone(e.writes(at)),
{
    broadcast use group_rows, no_changes_fit, changes_fit_one_by_one;
}

proof fn route_policy_updated_settles(
    e: crate::projections::providers::RoutePolicyUpdated,
    at: Moment,
)
    ensures
        settles_alone(e.writes(at)),
{
    broadcast use group_rows, no_changes_fit, changes_fit_one_by_one;
}

proof fn tool_invocation_cache_hit_settles(
    e: crate::projections::tools::ToolInvocationCacheHit,
    at: Moment,
)
    ensures
        settles_alone(e.writes(at)),
{
    broadcast use group_rows, no_changes_fit, changes_fit_one_by_one;
}

proof fn tool_recovery_paused_settles(e: crate::projections::tools::ToolRecoveryPaused, at: Moment)
    ensures
        settles_alone(e.writes(at)),
{
    broadcast use group_rows, no_changes_fit, changes_fit_one_by_one;
}

proof fn tool_invocation_progress_updated_settles(
    e: crate::projections::tools::ToolInvocationProgressUpdated,
    at: Moment,
    found: Found,
)
    ensures
        settles_alone(e.writes(at, found)),
{
    broadcast use group_rows, no_changes_fit, changes_fit_one_by_one;
}

proof fn recovery_summary_emitted_settles(
    e: crate::projections::recovery::RecoverySummaryEmitted,
    at: Moment,
)
    ensures
        settles_alone(e.writes(at)),
{
    broadcast use group_rows, no_changes_fit, changes_fit_one_by_one;
}

proof fn tool_call_proposed_settles(e: crate::projections::approvals::ToolCallProposed, at: Moment)
    ensures
        settles_alone(e.writes(at)),
{
    broadcast use group_rows, no_changes_fit, changes_fit_one_by_one;
}

proof fn tenant_created_settles(e: crate::projections::tenants::TenantCreated, at: Moment)
    ensures
        settles_alone(e.writes(at)),
{
    broadcast use group_rows, no_changes_fit, changes_fit_one_by_one;
}

proof fn workspace_created_settles(e: crate::projections::tenants::WorkspaceCreated, at: Moment)
    ensures
        settles_alone(e.writes(at)),
{
    broadcast use group_rows, no_changes_fit, changes_fit_one_by_one;
}

proof fn workspace_archived_settles(e: crate::projections::tenants::WorkspaceArchived, at: Moment)
    ensures
        settles_alone(e.writes(at)),
{
    broadcast use group_rows, no_changes_fit, changes_fit_one_by_one;
}

proof fn project_created_settles(e: crate::projections::tenants::ProjectCreated, at: Moment)
    ensures
        settles_alone(e.writes(at)),
{
    broadcast use group_rows, no_changes_fit, changes_fit_one_by_one;
}

proof fn route_policy_created_settles(
    e: crate::projections::providers::RoutePolicyCreated,
    at: Moment,
)
    ensures
        settles_alone(e.writes(at)),
{
    broadcast use group_rows, no_changes_fit, changes_fit_one_by_one;
}

proof fn workspace_member_added_settles(
    e: crate::projections::tenants::WorkspaceMemberAdded,
    at: Moment,
)
    ensures
        settles_alone(e.writes(at)),
{
    broadcast use group_rows, no_changes_fit, changes_fit_one_by_one;
}

proof fn workspace_member_removed_settles(
    e: crate::projections::tenants::WorkspaceMemberRemoved,
    at: Moment,
)
    ensures
        settles_alone(e.writes(at)),
{
    broadcast use group_rows, no_changes_fit, changes_fit_one_by_one;
}

proof fn prompt_asset_created_settles(
    e: crate::projections::prompts::PromptAssetCreated,
    at: Moment,
)
    ensures
        settles_alone(e.writes(at)),
{
    broadcast use group_rows, no_changes_fit, changes_fit_one_by_one;
}

proof fn prompt_version_created_settles(
    e: crate::projections::prompts::PromptVersionCreated,
    at: Moment,
    found: Found,
)
    ensures
        settles_alone(e.writes(at, found)),
{
    broadcast use group_rows, no_changes_fit, changes_fit_one_by_one;
}

proof fn prompt_release_created_settles(
    e: crate::projections::prompts::PromptReleaseCreated,
    at: Moment,
)
    ensures
        settles_alone(e.writes(at)),
{
    broadcast use group_rows, no_changes_fit, changes_fit_one_by_one;
}

proof fn prompt_release_transitioned_settles(
    e: crate::projections::prompts::PromptReleaseTransitioned,
    at: Moment,
)
    ensures
        settles_alone(e.writes(at)),
{
    broadcast use group_rows, no_changes_fit, changes_fit_one_by_one;
}

proof fn route_decision_made_settles(
    e: crate::projections::providers::RouteDecisionMade,
    at: Moment,
)
    ensures
        settles_alone(e.writes(at)),
{
    broadcast use group_rows, no_changes_fit, changes_fit_one_by_one;
}

proof fn trigger_created_settles(e: crate::projections::triggers::TriggerCreated, at: Moment)
    ensures
        settles_alone(e.writes(at)),
{
    broadcast use group_rows, no_changes_fit, changes_fit_one_by_one;
}

proof fn trigger_enabled_settles(e: crate::projections::triggers::TriggerEnabled, at: Moment)
    ensures
        settles_alone(e.writes(at)),
{
    broadcast use group_rows, no_changes_fit, changes_fit_one_by_one;
}

proof fn trigger_disabled_settles(e: crate::projections::triggers::TriggerDisabled, at: Moment)
    ensures
        settles_alone(e.writes(at)),
{
    broadcast use group_rows, no_changes_fit, changes_fit_one_by_one;
}

proof fn trigger_suspended_settles(e: crate::projections::triggers::TriggerSuspended, at: Moment)
    ensures
        settles_alone(e.writes(at)),
{
    broadcast use group_rows, no_changes_fit, changes_fit_one_by_one;
}

proof fn trigger_resumed_settles(e: crate::projections::triggers::TriggerResumed, at: Moment)
    ensures
        settles_alone(e.writes(at)),
{
    broadcast use group_rows, no_changes_fit, changes_fit_one_by_one;
}

proof fn trigger_deleted_settles(e: crate::projections::triggers::TriggerDeleted, at: Moment)
    ensures
        settles_alone(e.writes(at)),
{
    broadcast use group_rows, no_changes_fit, changes_fit_one_by_one;
}

proof fn run_template_created_settles(
    e: crate::projections::triggers::RunTemplateCreated,
    at: Moment,
)
    ensures
        settles_alone(e.writes(at)),
{
    broadcast use group_rows, no_changes_fit, changes_fit_one_by_one;
}

proof fn run_template_deleted_settles(
    e: crate::projections::triggers::RunTemplateDeleted,
    at: Moment,
)
    ensures
        settles_alone(e.writes(at)),
{
    broadcast use group_rows, no_changes_fit, changes_fit_one_by_one;
}

proof fn checkpoint_persisted_settles(
    e: crate::projections::checkpoints::CheckpointPersisted,
    at: Moment,
)
    ensures
        settles_alone(e.writes(at)),
{
    broadcast use group_rows, no_changes_fit, changes_fit_one_by_one;
}

proof fn workspace_snapshot_created_settles(
    e: crate::projections::checkpoints::WorkspaceSnapshotCreated,
    at: Moment,
)
    ensures
        settles_alone(e.writes(at)),
{
    broadcast use group_rows, no_changes_fit, changes_fit_one_by_one;
}

proof fn workspace_snapshot_reaped_settles(
    e: crate::projections::checkpoints::WorkspaceSnapshotReaped,
    at: Moment,
)
    ensures
        settles_alone(e.writes(at)),
{
    broadcast use group_rows, no_changes_fit, changes_fit_one_by_one;
}

proof fn session_outcome_emitted_settles(
    e: crate::projections::sessions::SessionOutcomeEmitted,
    at: Moment,
)
    ensures
        settles_alone(e.writes(at)),
{
    broadcast use group_rows, no_changes_fit, changes_fit_one_by_one;
}

proof fn decision_recorded_settles(e: crate::projections::recovery::DecisionRecorded, at: Moment)
    ensures
        settles_alone(e.writes(at)),
{
    broadcast use group_rows, no_changes_fit, changes_fit_one_by_one;
}

proof fn decision_cache_warmup_settles(
    e: crate::projections::recovery::DecisionCacheWarmup,
    at: Moment,
)
    ensures
        settles_alone(e.writes(at)),
{
    broadcast use group_rows, no_changes_fit, changes_fit_one_by_one;
}

proof fn llm_completion_recorded_settles(
    e: crate::projections::sessions::LlmCompletionRecorded,
    at: Moment,
)
    ensures
        settles_alone(e.writes(at)),
{
    broadcast use group_rows, no_changes_fit, changes_fit_one_by_one;
}

proof fn knowledge_provider_configured_settles(
    e: crate::projections::knowledge::KnowledgeProviderConfigured,
    at: Moment,
)
    ensures
        settles_alone(e.writes(at)),
{
    broadcast use group_rows, no_changes_fit, changes_fit_one_by_one;
}

proof fn knowledge_provider_unavailable_settles(
    e: crate::projections::knowledge::KnowledgeProviderUnavailable,
    at: Moment,
)
    ensures
        settles_alone(e.writes(at)),
{
    broadcast use group_rows, no_changes_fit, changes_fit_one_by_one;
}

proof fn knowledge_provider_capability_changed_settles(
    e: crate::projections::knowledge::KnowledgeProviderCapabilityChanged,
    at: Moment,
)
    ensures
        settles_alone(e.writes(at)),
{
    broadcast use group_rows, no_changes_fit, changes_fit_one_by_one;
}

proof fn knowledge_ingest_rejected_settles(
    e: crate::projections::knowledge::KnowledgeIngestRejected,
    at: Moment,
)
    ensures
        settles_alone(e.writes(at)),
{
    broadcast use group_rows, no_changes_fit, changes_fit_one_by_one;
}

proof fn knowledge_ingest_status_updated_settles(
    e: crate::projections::knowledge::KnowledgeIngestStatusUpdated,
    at: Moment,
)
    ensures
        settles_alone(e.writes(at)),
{
    broadcast use group_rows, no_changes_fit, changes_fit_one_by_one;
}

/// Projecting a repeatable event twice at one moment is projecting it once.
pub proof fn projecting_twice_is_projecting_once(
    event: RuntimeEvent,
    at: Moment,
    found: Found,
    db: Database,
)
    requires
        is_repeatable(event),
    ensures
        ({
            let writes = event.writes(at, found).statements();
            let once = crate::model::after_all(db, writes);
            crate::model::after_all(once, writes) == once
        }),
{
    match event {
        RuntimeEvent::ExternalWorkerRegistered(e) => external_worker_registered_settles(e, at),
        RuntimeEvent::ExternalWorkerSuspended(e) => external_worker_suspended_settles(e, at),
        RuntimeEvent::ExternalWorkerReactivated(e) => external_worker_reactivated_settles(e, at),
        RuntimeEvent::ExternalWorkerReported(e) => external_worker_reported_settles(e, at),
        RuntimeEvent::SoulPatchProposed(e) => soul_patch_proposed_settles(e, at),
        RuntimeEvent::SoulPatchApplied(e) => soul_patch_applied_settles(e, at),
        RuntimeEvent::RecoveryAttempted(e) => recovery_attempted_settles(e, at),
        RuntimeEvent::RecoveryCompleted(e) => recovery_completed_settles(e, at),
        RuntimeEvent::SignalIngested(e) => signal_ingested_settles(e, at),
        RuntimeEvent::UserMessageAppended(e) => user_message_appended_settles(e, at),
        RuntimeEvent::IngestJobStarted(e) => ingest_job_started_settles(e, at),
        RuntimeEvent::IngestJobCompleted(e) => ingest_job_completed_settles(e, at),
        RuntimeEvent::EvalRunStarted(e) => eval_run_started_settles(e, at),
        RuntimeEvent::EvalRunCompleted(e) => eval_run_completed_settles(e, at),
        RuntimeEvent::EvalRunArchived(e) => eval_run_archived_settles(e, at),
        RuntimeEvent::EvalRunScored(e) => eval_run_scored_settles(e, at),
        RuntimeEvent::EvalRubricScored(e) => eval_rubric_scored_settles(e, at),
        RuntimeEvent::OutcomeRecorded(e) => outcome_recorded_settles(e, at),
        RuntimeEvent::ScheduledTaskCreated(e) => scheduled_task_created_settles(e, at),
        RuntimeEvent::PlanProposed(e) => plan_proposed_settles(e, at),
        RuntimeEvent::PlanApproved(e) => plan_approved_settles(e, at),
        RuntimeEvent::PlanRejected(e) => plan_rejected_settles(e, at),
        RuntimeEvent::PlanRevisionRequested(e) => plan_revision_requested_settles(e, at),
        RuntimeEvent::ProviderBudgetSet(e) => provider_budget_set_settles(e, at),
        RuntimeEvent::ChannelCreated(e) => channel_created_settles(e, at),
        RuntimeEvent::ChannelMessageSent(e) => channel_message_sent_settles(e, at),
        RuntimeEvent::ChannelMessageConsumed(e) => channel_message_consumed_settles(e, at),
        RuntimeEvent::DefaultSettingSet(e) => default_setting_set_settles(e, at),
        RuntimeEvent::DefaultSettingCleared(e) => default_setting_cleared_settles(e, at),
        RuntimeEvent::LicenseActivated(e) => license_activated_settles(e, at),
        RuntimeEvent::EntitlementOverrideSet(e) => entitlement_override_set_settles(e, at),
        RuntimeEvent::NotificationPreferenceSet(e) => notification_preference_set_settles(e, at),
        RuntimeEvent::NotificationSent(e) => notification_sent_settles(e, at),
        RuntimeEvent::TenantQuotaSet(e) => tenant_quota_set_settles(e, at),
        RuntimeEvent::TenantQuotaViolated(e) => tenant_quota_violated_settles(e, at),
        RuntimeEvent::RetentionPolicySet(e) => retention_policy_set_settles(e, at),
        RuntimeEvent::RunCostAlertSet(e) => run_cost_alert_set_settles(e, at),
        RuntimeEvent::RunCostAlertTriggered(e) => run_cost_alert_triggered_settles(e, at),
        RuntimeEvent::ApprovalDelegated(e) => approval_delegated_settles(e, at),
        RuntimeEvent::AuditLogEntryRecorded(e) => audit_log_entry_recorded_settles(e, at),
        RuntimeEvent::CheckpointStrategySet(e) => checkpoint_strategy_set_settles(e, at),
        RuntimeEvent::CredentialStored(e) => credential_stored_settles(e, at),
        RuntimeEvent::CredentialRevoked(e) => credential_revoked_settles(e, at),
        RuntimeEvent::CredentialKeyRotated(e) => credential_key_rotated_settles(e, at),
        RuntimeEvent::EvalDatasetCreated(e) => eval_dataset_created_settles(e, at),
        RuntimeEvent::EvalDatasetEntryAdded(e) => eval_dataset_entry_added_settles(e, at),
        RuntimeEvent::EvalRubricCreated(e) => eval_rubric_created_settles(e, at),
        RuntimeEvent::EvalBaselineSet(e) => eval_baseline_set_settles(e, at),
        RuntimeEvent::EvalBaselineLocked(e) => eval_baseline_locked_settles(e, at),
        RuntimeEvent::GuardrailPolicyCreated(e) => guardrail_policy_created_settles(e, at),
        RuntimeEvent::GuardrailPolicyEvaluated(e) => guardrail_policy_evaluated_settles(e, at),
        RuntimeEvent::OperatorProfileCreated(e) => operator_profile_created_settles(e, at),
        RuntimeEvent::TenantRoleGranted(e) => tenant_role_granted_settles(e, at),
        RuntimeEvent::TenantRoleRevoked(e) => tenant_role_revoked_settles(e, at),
        RuntimeEvent::ProviderBindingCreated(e) => provider_binding_created_settles(e, at),
        RuntimeEvent::ProviderBindingStateChanged(e) => provider_binding_state_changed_settles(
            e,
            at,
        ),
        RuntimeEvent::ProviderBudgetAlertTriggered(e) => provider_budget_alert_triggered_settles(
            e,
            at,
        ),
        RuntimeEvent::ProviderConnectionRegistered(e) => provider_connection_registered_settles(
            e,
            at,
        ),
        RuntimeEvent::ProviderConnectionDeleted(e) => provider_connection_deleted_settles(e, at),
        RuntimeEvent::ResourceShared(e) => resource_shared_settles(e, at),
        RuntimeEvent::ResourceShareRevoked(e) => resource_share_revoked_settles(e, at),
        RuntimeEvent::RoutePolicyUpdated(e) => route_policy_updated_settles(e, at),
        RuntimeEvent::ToolInvocationCacheHit(e) => tool_invocation_cache_hit_settles(e, at),
        RuntimeEvent::ToolRecoveryPaused(e) => tool_recovery_paused_settles(e, at),
        RuntimeEvent::ToolInvocationProgressUpdated(e) => tool_invocation_progress_updated_settles(
            e,
            at,
            found,
        ),
        RuntimeEvent::RecoverySummaryEmitted(e) => recovery_summary_emitted_settles(e, at),
        RuntimeEvent::ToolCallProposed(e) => tool_call_proposed_settles(e, at),
        RuntimeEvent::TenantCreated(e) => tenant_created_settles(e, at),
        RuntimeEvent::WorkspaceCreated(e) => workspace_created_settles(e, at),
        RuntimeEvent::WorkspaceArchived(e) => workspace_archived_settles(e, at),
        RuntimeEvent::ProjectCreated(e) => project_created_settles(e, at),
        RuntimeEvent::RoutePolicyCreated(e) => route_policy_created_settles(e, at),
        RuntimeEvent::WorkspaceMemberAdded(e) => workspace_member_added_settles(e, at),
        RuntimeEvent::WorkspaceMemberRemoved(e) => workspace_member_removed_settles(e, at),
        RuntimeEvent::PromptAssetCreated(e) => prompt_asset_created_settles(e, at),
        RuntimeEvent::PromptVersionCreated(e) => prompt_version_created_settles(e, at, found),
        RuntimeEvent::PromptReleaseCreated(e) => prompt_release_created_settles(e, at),
        RuntimeEvent::PromptReleaseTransitioned(e) => prompt_release_transitioned_settles(e, at),
        RuntimeEvent::RouteDecisionMade(e) => route_decision_made_settles(e, at),
        RuntimeEvent::TriggerCreated(e) => trigger_created_settles(e, at),
        RuntimeEvent::TriggerEnabled(e) => trigger_enabled_settles(e, at),
        RuntimeEvent::TriggerDisabled(e) => trigger_disabled_settles(e, at),
        RuntimeEvent::TriggerSuspended(e) => trigger_suspended_settles(e, at),
        RuntimeEvent::TriggerResumed(e) => trigger_resumed_settles(e, at),
        RuntimeEvent::TriggerDeleted(e) => trigger_deleted_settles(e, at),
        RuntimeEvent::RunTemplateCreated(e) => run_template_created_settles(e, at),
        RuntimeEvent::RunTemplateDeleted(e) => run_template_deleted_settles(e, at),
        RuntimeEvent::CheckpointPersisted(e) => checkpoint_persisted_settles(e, at),
        RuntimeEvent::WorkspaceSnapshotCreated(e) => workspace_snapshot_created_settles(e, at),
        RuntimeEvent::WorkspaceSnapshotReaped(e) => workspace_snapshot_reaped_settles(e, at),
        RuntimeEvent::SessionOutcomeEmitted(e) => session_outcome_emitted_settles(e, at),
        RuntimeEvent::DecisionRecorded(e) => decision_recorded_settles(e, at),
        RuntimeEvent::DecisionCacheWarmup(e) => decision_cache_warmup_settles(e, at),
        RuntimeEvent::LlmCompletionRecorded(e) => llm_completion_recorded_settles(e, at),
        RuntimeEvent::KnowledgeProviderConfigured(e) => knowledge_provider_configured_settles(
            e,
            at,
        ),
        RuntimeEvent::KnowledgeProviderUnavailable(e) => knowledge_provider_unavailable_settles(
            e,
            at,
        ),
        RuntimeEvent::KnowledgeProviderCapabilityChanged(e) => {
            knowledge_provider_capability_changed_settles(e, at)
        },
        RuntimeEvent::KnowledgeIngestRejected(e) => knowledge_ingest_rejected_settles(e, at),
        RuntimeEvent::KnowledgeIngestStatusUpdated(e) => knowledge_ingest_status_updated_settles(
            e,
            at,
        ),
        _ => {},
    }
    let writes = event.writes(at, found).statements();
    if writes.len() > 0 {
        one_statement(db, writes[0]);
        one_statement(crate::model::after(db, writes[0]), writes[0]);
        running_twice_is_running_once(db, writes[0]);
    }
}

} // verus!
