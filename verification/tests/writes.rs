use cairn_store::domain::ProjectKey;
use cairn_store::error::StoreError;
use cairn_store::events::{Lookup, RuntimeEvent};
use cairn_store::plan::{Found, Moment};
use cairn_store::projections::approvals::PlanApproved;
use cairn_store::projections::checkpoints::CheckpointRecorded;
use cairn_store::projections::costs::{RunCostUpdated, SessionCostUpdated};
use cairn_store::projections::evals::{EvalBaselineSet, EvalRunArchived};
use cairn_store::projections::messages::NotificationPreferenceSet;
use cairn_store::projections::prompts::PromptVersionCreated;
use cairn_store::projections::providers::{ProviderBudgetExceeded, ProviderConnectionRegistered};
use cairn_store::projections::runs::{RunCreated, RunStateChanged};
use cairn_store::projections::sessions::{SessionAttemptStarted, SessionCreated};
use cairn_store::projections::tasks::{ExternalWorkerRegistered, TaskCreated};
use cairn_store::projections::tenants::{ResourceShared, TenantRoleGranted};
use cairn_store::projections::tools::ToolInvocationProgressUpdated;
use cairn_store::projections::triggers::{RunTemplateCreated, TriggerFired};
use cairn_store::projections::PgSyncProjection;
use cairn_store::sql::Sql;
use cairn_store::value::{SqlType, SqlValue};
use cairn_store::vocabulary::{CheckpointDisposition, ProviderConnectionStatus};

fn project() -> ProjectKey {
    ProjectKey::new("t", "w", "p")
}

fn at() -> Moment {
    Moment { now: 50, event_time_ms: 40, event_id: "ev".to_owned() }
}

fn text(s: &str) -> SqlValue {
    SqlValue::Text(s.to_owned())
}

fn no_text() -> SqlValue {
    SqlValue::Null(SqlType::Text)
}

fn sqls(event: RuntimeEvent, found: &Found) -> Result<Vec<Sql>, StoreError> {
    event.plan(&at(), found).map(|plan| plan.iter().map(|s| s.sql()).collect())
}

fn only_sql(event: RuntimeEvent) -> Sql {
    let mut all = sqls(event, &Found::nothing()).unwrap();
    assert_eq!(all.len(), 1);
    all.remove(0)
}

fn exceeds(message: &str) -> Result<Vec<Sql>, StoreError> {
    Err(StoreError::Internal(message.to_owned()))
}

#[test]
fn a_created_session_is_open() {
    let sql = only_sql(RuntimeEvent::SessionCreated(SessionCreated {
        session_id: "s".to_owned(),
        project: project(),
    }));
    assert_eq!(
        sql.text,
        "INSERT INTO sessions (session_id, tenant_id, workspace_id, project_id, state, version, \
         created_at, updated_at) VALUES ($1, $2, $3, $4, $5, $6, $7, $8)"
    );
    assert_eq!(
        sql.params,
        vec![
            text("s"),
            text("t"),
            text("w"),
            text("p"),
            text("open"),
            SqlValue::Int8(1),
            SqlValue::Int8(50),
            SqlValue::Int8(50),
        ]
    );
}

#[test]
fn a_child_run_takes_the_root_of_its_parent() {
    let sql = only_sql(RuntimeEvent::RunCreated(RunCreated {
        run_id: "r".to_owned(),
        session_id: "s".to_owned(),
        parent_run_id: Some("parent".to_owned()),
        project: project(),
    }));
    assert_eq!(
        sql.text,
        "INSERT INTO runs (run_id, session_id, parent_run_id, tenant_id, workspace_id, \
         project_id, state, version, created_at, updated_at, root_run_id) VALUES ($1, $2, $3, \
         $4, $5, $6, $7, $8, $9, $10, CASE WHEN $11::TEXT IS NULL THEN $12 ELSE (SELECT \
         root_run_id FROM runs WHERE run_id = $13) END)"
    );
    assert_eq!(sql.params[6], text("pending"));
    assert_eq!(sql.params[10], text("parent"));
    assert_eq!(sql.params[11], text("r"));
    assert_eq!(sql.params[12], text("parent"));
}

#[test]
fn a_task_takes_the_session_of_its_run() {
    let sql = only_sql(RuntimeEvent::TaskCreated(TaskCreated {
        task_id: "k".to_owned(),
        project: project(),
        parent_run_id: Some("r".to_owned()),
        parent_task_id: None,
        session_id: None,
    }));
    assert!(sql.text.contains("COALESCE($"));
    assert!(sql.text.contains("(SELECT session_id FROM runs WHERE run_id = $"));
    assert!(sql.params.contains(&text("r")));
}

fn run_state_changed(to: &str, resume_after_ms: Option<u64>) -> RuntimeEvent {
    RuntimeEvent::RunStateChanged(RunStateChanged {
        run_id: "r".to_owned(),
        project: project(),
        to: to.to_owned(),
        failure_class: None,
        resume_after_ms,
    })
}

fn scoped(p: ProjectKey) -> Found {
    Found { scope: Some(p), session_id: None, next_version: 0 }
}

#[test]
fn a_run_is_looked_up_before_it_changes() {
    let lookup = run_state_changed("running", None).lookup().unwrap();
    assert_eq!(lookup, Lookup::RunScope { run_id: "r".to_owned() });
    let queries = PgSyncProjection::queries(&lookup);
    assert_eq!(queries.len(), 1);
    let sql = queries[0].sql();
    assert_eq!(
        sql.text,
        "SELECT tenant_id, workspace_id, project_id FROM runs WHERE run_id = $1"
    );
    assert_eq!(sql.params, vec![text("r")]);
}

#[test]
fn a_change_by_another_project_writes_nothing() {
    let other = scoped(ProjectKey::new("t", "w", "other"));
    assert_eq!(sqls(run_state_changed("running", None), &other), Ok(vec![]));
}

#[test]
fn a_change_of_an_unknown_run_still_removes_its_pause() {
    let all = sqls(run_state_changed("running", None), &Found::nothing()).unwrap();
    assert_eq!(all.len(), 2);
    assert_eq!(
        all[0].text,
        "UPDATE runs SET state = $1, failure_class = $2, version = runs.version + $3, \
         updated_at = $4 WHERE run_id = $5 AND tenant_id = $6 AND workspace_id = $7 \
         AND project_id = $8"
    );
    assert_eq!(
        all[0].params,
        vec![
            text("running"),
            no_text(),
            SqlValue::Int8(1),
            SqlValue::Int8(50),
            text("r"),
            text("t"),
            text("w"),
            text("p"),
        ]
    );
    assert_eq!(all[1].text, "DELETE FROM pause_schedules WHERE run_id = $1");
    assert_eq!(all[1].params, vec![text("r")]);
}

#[test]
fn a_pause_is_scheduled_from_the_time_of_its_event() {
    let all = sqls(run_state_changed("paused", Some(5)), &scoped(project())).unwrap();
    assert_eq!(all.len(), 2);
    assert_eq!(
        all[1].text,
        "INSERT INTO pause_schedules (run_id, tenant_id, workspace_id, project_id, \
         resume_at_ms, created_at_ms) VALUES ($1, $2, $3, $4, $5, $6) ON CONFLICT (run_id) \
         DO UPDATE SET resume_at_ms = EXCLUDED.resume_at_ms, \
         created_at_ms = EXCLUDED.created_at_ms"
    );
    assert_eq!(all[1].params[4], SqlValue::Int8(45));
    assert_eq!(all[1].params[5], SqlValue::Int8(40));
}

#[test]
fn a_pause_beyond_the_range_is_scheduled_at_its_end() {
    let all = sqls(run_state_changed("paused", Some(u64::MAX)), &scoped(project())).unwrap();
    assert_eq!(all[1].params[4], SqlValue::Int8(i64::MAX));
}

#[test]
fn a_pause_without_a_time_keeps_the_schedule() {
    let all = sqls(run_state_changed("paused", None), &scoped(project())).unwrap();
    assert_eq!(all.len(), 1);
}

#[test]
fn an_ended_run_is_counted_off_at_its_root() {
    for state in ["completed", "failed", "canceled"] {
        let all = sqls(run_state_changed(state, None), &scoped(project())).unwrap();
        assert_eq!(all.len(), 3);
        assert_eq!(
            all[1].text,
            "UPDATE runs SET in_flight_descendants = runs.in_flight_descendants + $1, \
             version = runs.version + $2, updated_at = $3 WHERE run_id = (SELECT r.root_run_id \
             FROM runs r WHERE r.run_id = $4 AND r.parent_run_id IS NOT NULL AND r.root_run_id \
             IS NOT NULL)"
        );
        assert_eq!(all[1].params[0], SqlValue::Int8(-1));
    }
}

#[test]
fn a_latest_checkpoint_supersedes_the_one_before() {
    let event = |disposition| {
        RuntimeEvent::CheckpointRecorded(CheckpointRecorded {
            disposition,
            run_id: "r".to_owned(),
            checkpoint_id: "c".to_owned(),
            project: project(),
        })
    };
    let all = sqls(event(CheckpointDisposition::Latest), &Found::nothing()).unwrap();
    assert_eq!(all.len(), 2);
    assert_eq!(
        all[0].text,
        "UPDATE checkpoints SET disposition = $1, version = checkpoints.version + $2 \
         WHERE run_id = $3 AND disposition = $4"
    );
    assert_eq!(
        all[0].params,
        vec![text("superseded"), SqlValue::Int8(1), text("r"), text("latest")]
    );
    let all = sqls(event(CheckpointDisposition::Superseded), &Found::nothing()).unwrap();
    assert_eq!(all.len(), 1);
}

#[test]
fn the_cost_of_a_session_is_added_to_three_totals() {
    let event = SessionCostUpdated {
        session_id: "s".to_owned(),
        tenant_id: "t".to_owned(),
        project: project(),
        delta_cost_micros: 7,
        delta_tokens_in: 8,
        delta_tokens_out: 9,
        updated_at_ms: 10,
    };
    let all = sqls(RuntimeEvent::SessionCostUpdated(event), &Found::nothing()).unwrap();
    assert_eq!(all.len(), 3);
    assert_eq!(
        all[0].text,
        "INSERT INTO session_costs (session_id, tenant_id, workspace_id, project_id, \
         total_cost_micros, total_tokens_in, total_tokens_out, provider_calls, updated_at_ms) \
         VALUES ($1, $2, $3, $4, $5, $6, $7, $8, $9) ON CONFLICT (session_id) DO UPDATE SET \
         total_cost_micros = session_costs.total_cost_micros + EXCLUDED.total_cost_micros, \
         total_tokens_in = session_costs.total_tokens_in + EXCLUDED.total_tokens_in, \
         total_tokens_out = session_costs.total_tokens_out + EXCLUDED.total_tokens_out, \
         provider_calls = session_costs.provider_calls + $10, \
         updated_at_ms = GREATEST(session_costs.updated_at_ms, EXCLUDED.updated_at_ms)"
    );
    assert!(all[1].text.starts_with("INSERT INTO project_costs "));
    assert!(all[2].text.starts_with("INSERT INTO workspace_costs "));
    assert_eq!(all[2].params[2], SqlValue::Int8(7));
}

#[test]
fn the_cost_of_a_run_is_added_to_its_totals() {
    let sql = only_sql(RuntimeEvent::RunCostUpdated(RunCostUpdated {
        delta_cost_micros: 7,
        delta_tokens_in: 8,
        delta_tokens_out: 9,
        updated_at_ms: 10,
        run_id: "r".to_owned(),
    }));
    assert!(sql.text.contains(
        "total_cost_micros = run_costs.total_cost_micros + EXCLUDED.total_cost_micros"
    ));
    assert_eq!(
        sql.params,
        vec![
            text("r"),
            SqlValue::Int8(7),
            SqlValue::Int8(8),
            SqlValue::Int8(9),
            SqlValue::Int8(1),
            SqlValue::Int8(10),
            SqlValue::Int8(1),
        ]
    );
}

#[test]
fn a_cost_beyond_the_range_is_refused() {
    let event = SessionCostUpdated {
        session_id: "s".to_owned(),
        tenant_id: "t".to_owned(),
        project: project(),
        delta_cost_micros: 1,
        delta_tokens_in: u64::MAX,
        delta_tokens_out: u64::MAX,
        updated_at_ms: 10,
    };
    assert_eq!(
        sqls(RuntimeEvent::SessionCostUpdated(event), &Found::nothing()),
        exceeds("session cost delta_tokens_in value 18446744073709551615 exceeds i64::MAX")
    );
}

#[test]
fn a_plan_is_approved_only_while_it_is_proposed() {
    let approved = |approved_at| {
        RuntimeEvent::PlanApproved(PlanApproved {
            approved_at,
            plan_run_id: "pl".to_owned(),
            approved_by: "op".to_owned(),
            reviewer_comments: None,
        })
    };
    let sql = only_sql(approved(12));
    assert_eq!(
        sql.text,
        "UPDATE plan_reviews SET state = $1, resolved_by = $2, resolved_at = $3, \
         reviewer_comments = $4 WHERE plan_run_id = $5 AND state = $6"
    );
    assert_eq!(
        sql.params,
        vec![
            text("approved"),
            text("op"),
            SqlValue::Int8(12),
            no_text(),
            text("pl"),
            text("proposed"),
        ]
    );
    assert_eq!(
        sqls(approved(1 << 63), &Found::nothing()),
        exceeds("PlanApproved.approved_at 9223372036854775808 exceeds i64::MAX")
    );
}

#[test]
fn a_locked_baseline_is_not_overwritten() {
    let sql = only_sql(RuntimeEvent::EvalBaselineSet(EvalBaselineSet {
        set_at_ms: 3,
        baseline_id: "b".to_owned(),
        metric: "acc".to_owned(),
        value: "0.5".to_owned(),
    }));
    assert!(sql.text.ends_with(
        "ON CONFLICT (baseline_id) DO UPDATE SET name = EXCLUDED.name \
         WHERE eval_baselines.locked = $8"
    ));
    assert_eq!(sql.params[2], text("b[acc=0.5]"));
    assert_eq!(sql.params[7], SqlValue::Int4(0));
}

#[test]
fn an_eval_run_is_archived_once() {
    let sql = only_sql(RuntimeEvent::EvalRunArchived(EvalRunArchived {
        eval_run_id: "e".to_owned(),
        archived_at: 4,
    }));
    assert_eq!(
        sql.text,
        "UPDATE eval_runs SET archived_at = $1 WHERE eval_run_id = $2 AND archived_at IS NULL"
    );
}

#[test]
fn the_first_excess_of_a_budget_is_kept() {
    let sql = only_sql(RuntimeEvent::ProviderBudgetExceeded(ProviderBudgetExceeded {
        exceeded_at_ms: 9,
        exceeded_by_micros: 100,
        budget_id: "b".to_owned(),
    }));
    assert_eq!(
        sql.text,
        "UPDATE provider_budgets SET current_spend_micros = provider_budgets.limit_micros + $1, \
         exceeded_at_ms = COALESCE(provider_budgets.exceeded_at_ms, $2), updated_at = $3 \
         WHERE budget_id = $4"
    );
}

#[test]
fn a_worker_is_updated_only_for_its_tenant() {
    let sql = only_sql(RuntimeEvent::ExternalWorkerRegistered(ExternalWorkerRegistered {
        registered_at: 1,
        worker_id: "w".to_owned(),
        tenant_id: "t".to_owned(),
        display_name: "Worker".to_owned(),
    }));
    assert!(sql.text.ends_with(" WHERE external_workers.tenant_id = EXCLUDED.tenant_id"));
}

#[test]
fn attempts_only_grow() {
    let started = |attempt_number, max_attempts| {
        RuntimeEvent::SessionAttemptStarted(SessionAttemptStarted {
            attempt_number,
            max_attempts,
            session_id: "s".to_owned(),
        })
    };
    let sql = only_sql(started(2, 3));
    assert!(sql.text.contains("attempts_used = GREATEST(sessions.attempts_used, $1)"));
    assert_eq!(sql.params[0], SqlValue::Int4(2));
    assert_eq!(
        sqls(started(1 << 31, 1), &Found::nothing()),
        exceeds("SessionAttemptStarted.attempt_number 2147483648 exceeds i32::MAX")
    );
}

#[test]
fn a_granted_role_is_no_longer_revoked() {
    let sql = only_sql(RuntimeEvent::TenantRoleGranted(TenantRoleGranted {
        role: "admin".to_owned(),
        at_ms: 5,
        tenant_id: "t".to_owned(),
        operator_id: "o".to_owned(),
        granted_by: "root".to_owned(),
    }));
    assert!(sql.text.contains("ON CONFLICT (tenant_id, operator_id) DO UPDATE SET"));
    assert!(sql.text.contains("revoked_at_ms = $8, revoked_by = $9"));
    assert_eq!(sql.params[7], SqlValue::Null(SqlType::Int8));
    assert_eq!(sql.params[8], no_text());
}

fn progress() -> RuntimeEvent {
    RuntimeEvent::ToolInvocationProgressUpdated(ToolInvocationProgressUpdated {
        updated_at_ms: 6,
        invocation_id: "i".to_owned(),
        progress_pct: 80,
        message: Some("almost".to_owned()),
    })
}

#[test]
fn progress_of_an_unknown_invocation_is_dropped() {
    assert_eq!(
        progress().lookup(),
        Some(Lookup::InvocationScope { invocation_id: "i".to_owned() })
    );
    assert_eq!(sqls(progress(), &Found::nothing()), Ok(vec![]));
}

#[test]
fn older_progress_is_not_written_over_newer() {
    let all = sqls(progress(), &scoped(project())).unwrap();
    assert_eq!(all.len(), 1);
    assert!(all[0].text.ends_with(
        " WHERE EXCLUDED.updated_at_ms >= tool_invocation_progress.updated_at_ms"
    ));
    assert_eq!(all[0].params[4], SqlValue::Int2(80));
}

#[test]
fn a_prompt_version_takes_the_next_number() {
    let event = RuntimeEvent::PromptVersionCreated(PromptVersionCreated {
        prompt_version_id: "v".to_owned(),
        prompt_asset_id: "a".to_owned(),
        project: project(),
        content_hash: "h".to_owned(),
        created_at: 1,
    });
    let queries = PgSyncProjection::queries(&event.lookup().unwrap());
    assert_eq!(queries.len(), 2);
    assert_eq!(
        queries[0].sql().text,
        "SELECT prompt_asset_id FROM prompt_assets WHERE prompt_asset_id = $1 FOR UPDATE"
    );
    assert_eq!(
        queries[1].sql().text,
        "SELECT COALESCE(MAX(version_number), 0) + 1 FROM prompt_versions \
         WHERE prompt_asset_id = $1"
    );
    let found = Found { scope: None, session_id: None, next_version: 4 };
    let all = sqls(event, &found).unwrap();
    assert!(all[0].params.contains(&SqlValue::Int4(4)) || all[0].params.contains(&SqlValue::Int8(4)));
}

#[test]
fn lists_of_texts_are_stored_as_json() {
    let sql = only_sql(RuntimeEvent::ProviderConnectionRegistered(
        ProviderConnectionRegistered {
            registered_at: 1,
            status: ProviderConnectionStatus::Active,
            supported_models: vec!["a".to_owned(), "b\"c".to_owned()],
            provider_connection_id: "pc".to_owned(),
            tenant_id: "t".to_owned(),
            provider_family: "f".to_owned(),
            adapter_type: "x".to_owned(),
        },
    ));
    assert!(sql.params.contains(&text("[\"a\",\"b\\\"c\"]")));
    let sql = only_sql(RuntimeEvent::NotificationPreferenceSet(NotificationPreferenceSet {
        event_types: vec![],
        channels_json: "[]".to_owned(),
        set_at_ms: 1,
        tenant_id: "t".to_owned(),
        operator_id: "o".to_owned(),
    }));
    assert!(sql.params.contains(&text("t:o")));
    assert!(sql.params.contains(&text("[]")));
    let sql = only_sql(RuntimeEvent::ResourceShared(ResourceShared {
        shared_at_ms: 1,
        permissions: vec!["read".to_owned()],
        share_id: "sh".to_owned(),
        tenant_id: "t".to_owned(),
        source_workspace_id: "w1".to_owned(),
        target_workspace_id: "w2".to_owned(),
        resource_type: "r".to_owned(),
        resource_id: "x".to_owned(),
    }));
    assert!(sql.params.contains(&text("[\"read\"]")));
}

#[test]
fn a_fire_is_stored_with_its_details() {
    let sql = only_sql(RuntimeEvent::TriggerFired(TriggerFired {
        trigger_id: "tr".to_owned(),
        project: project(),
        signal_id: "sg".to_owned(),
        signal_type: "push".to_owned(),
        run_id: "r".to_owned(),
        chain_depth: 3,
        fired_at: 11,
    }));
    assert!(sql.text.starts_with("INSERT INTO trigger_fires "));
    assert!(sql.params.contains(&text("fired")));
    assert!(sql.params.contains(&text("{\"chain_depth\":3,\"run_id\":\"r\"}")));
}

#[test]
fn a_template_keeps_its_limits() {
    let sql = only_sql(RuntimeEvent::RunTemplateCreated(RunTemplateCreated {
        plugin_allowlist: Some(vec!["p".to_owned()]),
        tool_allowlist: None,
        required_fields: vec!["f".to_owned()],
        default_mode: "{}".to_owned(),
        template_id: "tp".to_owned(),
        project: project(),
        name: "n".to_owned(),
        description: None,
        system_prompt: "sp".to_owned(),
        initial_user_message: None,
        budget_max_tokens: Some(5),
        budget_max_wall_clock_ms: None,
        budget_max_iterations: Some(6),
        budget_exploration_budget_share: Some((0.25f64).to_bits()),
        sandbox_hint: None,
        created_by: "op".to_owned(),
        created_at: 2,
    }));
    assert!(sql.params.contains(&text("[\"p\"]")));
    assert!(sql.params.contains(&text("[\"f\"]")));
    assert!(sql.params.contains(&SqlValue::Float8((0.25f64).to_bits())));
    assert!(sql.text.ends_with(" ON CONFLICT (template_id) DO NOTHING"));
}
