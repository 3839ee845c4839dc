use cairn_store::domain::{DomainNames, ProjectKey};
use cairn_store::error::StoreError;
use cairn_store::read::approvals::any_pending;
use cairn_store::read::checkpoints::{
    checkpoint_strategy_sentinel_project, CheckpointRow, CheckpointStrategyRow, F65CheckpointRow,
};
use cairn_store::read::evals::{
    EvalDatasetEntryRow, EvalDatasetRow, EvalRubricScoreSummary,
};
use cairn_store::read::knowledge::{ingest_job_state_str, rehydrate_ingest_job_state};
use cairn_store::read::messages::message_count;
use cairn_store::read::policies::{window_bounds_ms, AuditLogEntryRow};
use cairn_store::read::providers::ProviderConnectionRow;
use cairn_store::read::runs::{
    decrement_descendants, decremented, descendants, incremented,
    list_nonzero_descendant_counters, try_increment_descendants, DescendantsCapOutcome,
    PauseScheduleRow, RunRow,
};
use cairn_store::read::sessions::{
    stamp_metadata, IssueBudget, Lineage, SessionOutcomeRow, SessionRow, WorkspaceSnapshotRecord,
    WorkspaceSnapshotRow, MAX_DEPTH,
};
use cairn_store::read::tasks::{FfLeaseHistoryCursor, ScheduledTaskRow, TaskRow};
use cairn_store::read::tenants::{
    defaults_scope_str, rehydrate_defaults_scope, DefaultSettingRow, OperatorTenantRoleRow,
    TenantQuotaRow,
};
use cairn_store::read::tools::ToolInvocationProgressRow;
use cairn_store::read::triggers::{
    count_project_fires_since, fire_count, has_fired, triggers_referencing_template, TriggerRow,
};
use cairn_store::read::{into_records, Decoded, StoredRow};
use cairn_store::schema::Column;
use cairn_store::value::{SqlType, SqlValue};
use cairn_store::vocabulary::{AuditOutcome, IngestJobState, ProviderConnectionStatus, Scope};

fn project() -> ProjectKey {
    ProjectKey::new("t", "w", "p")
}

fn text(s: &str) -> SqlValue {
    SqlValue::Text(s.to_owned())
}

fn list(names: &[&str]) -> Vec<String> {
    names.iter().map(|n| n.to_string()).collect()
}

fn names() -> DomainNames {
    DomainNames {
        session_states: list(&["open", "completed", "failed"]),
        run_states: list(&["pending", "running", "paused", "completed", "failed", "canceled"]),
        task_states: list(&["queued", "running"]),
        failure_classes: list(&["timed_out"]),
        approval_requirements: list(&["required", "advisory"]),
        approval_decisions: list(&["approved", "rejected"]),
        checkpoint_dispositions: list(&["latest", "superseded"]),
        execution_classes: list(&["supervised_process"]),
        invocation_states: list(&["requested", "started"]),
        invocation_outcomes: list(&["success"]),
        tenant_roles: list(&["admin", "member", "read_only"]),
        workspace_statuses: list(&["active", "reaped"]),
    }
}

fn run_row() -> RunRow {
    RunRow {
        run_id: "r".to_owned(),
        session_id: "s".to_owned(),
        parent_run_id: None,
        tenant_id: "t".to_owned(),
        workspace_id: "w".to_owned(),
        project_id: "p".to_owned(),
        state: "running".to_owned(),
        failure_class: None,
        version: 2,
        created_at: 10,
        updated_at: 11,
        completion_summary: None,
        completion_verification: None,
        completion_annotated_at_ms: None,
        terminal_write_recovery: None,
        in_flight_descendants: 3,
        root_run_id: Some("r".to_owned()),
        iteration: 4,
    }
}

#[test]
fn a_run_is_read_from_its_row() {
    let record = run_row().into_record(&names()).unwrap();
    assert_eq!(record.run_id, "r");
    assert_eq!(record.project, project());
    assert_eq!(record.state, "running");
    assert_eq!(record.version, 2);
    assert_eq!(record.in_flight_descendants, 3);
    assert_eq!(record.iteration, 4);
    assert_eq!(record.pause_reason, None);
}

#[test]
fn a_state_that_is_not_known_is_refused() {
    let mut row = run_row();
    row.state = "odd".to_owned();
    assert_eq!(
        row.into_record(&names()),
        Err(StoreError::Serialization(
            "unknown variant `odd`, expected one of `pending`, `running`, `paused`, \
             `completed`, `failed`, `canceled`"
                .to_owned()
        ))
    );
}

#[test]
fn a_refused_name_lists_what_was_expected() {
    let refuse = |expected: Vec<String>| {
        let mut known = names();
        known.failure_classes = expected;
        let mut row = run_row();
        row.failure_class = Some("odd".to_owned());
        row.into_record(&known).unwrap_err()
    };
    assert_eq!(
        refuse(vec![]),
        StoreError::Serialization("unknown variant `odd`, there are no variants".to_owned())
    );
    assert_eq!(
        refuse(list(&["a"])),
        StoreError::Serialization("unknown variant `odd`, expected `a`".to_owned())
    );
    assert_eq!(
        refuse(list(&["a", "b"])),
        StoreError::Serialization("unknown variant `odd`, expected `a` or `b`".to_owned())
    );
}

#[test]
fn a_negative_annotation_time_is_refused_before_the_state() {
    let mut row = run_row();
    row.state = "odd".to_owned();
    row.completion_annotated_at_ms = Some(-7);
    assert_eq!(
        row.into_record(&names()),
        Err(StoreError::Serialization(
            "runs.completion_annotated_at_ms -7 is negative or out of u64 range".to_owned()
        ))
    );
}

#[test]
fn a_column_that_did_not_decode_is_refused() {
    let mut row = run_row();
    row.terminal_write_recovery =
        Some(Decoded { text: "{".to_owned(), fault: Some("cut off".to_owned()) });
    assert_eq!(
        row.into_record(&names()),
        Err(StoreError::Serialization("cut off".to_owned()))
    );
}

#[test]
fn the_first_row_without_a_record_is_reported() {
    let mut second = run_row();
    second.completion_annotated_at_ms = Some(-1);
    let mut third = run_row();
    third.state = "odd".to_owned();
    assert_eq!(
        into_records(vec![run_row(), second, third], &names()),
        Err(StoreError::Serialization(
            "runs.completion_annotated_at_ms -1 is negative or out of u64 range".to_owned()
        ))
    );
    assert_eq!(into_records(vec![run_row(), run_row()], &names()).unwrap().len(), 2);
}

const RUN_COLUMNS: &str = "run_id, session_id, parent_run_id, tenant_id, workspace_id, \
    project_id, state, failure_class, version, created_at, updated_at, completion_summary, \
    completion_verification_json, completion_annotated_at_ms, terminal_write_recovery_json, \
    in_flight_descendants, root_run_id, iteration";

#[test]
fn stalled_runs_are_listed_by_tenant() {
    let sql = RunRow::list_stalled("t", 100, 30, 5, 2).unwrap().sql();
    assert_eq!(
        sql.text,
        format!(
            "SELECT {} FROM runs WHERE tenant_id = $1 AND state IN ($2, $3) AND updated_at < $4 \
             ORDER BY updated_at ASC, run_id ASC LIMIT $5 OFFSET $6",
            RUN_COLUMNS
        )
    );
    assert_eq!(sql.params[0], text("t"));
    assert_eq!(sql.params[3], SqlValue::Int8(70));
    assert_eq!(sql.params[4], SqlValue::Int8(5));
    assert_eq!(sql.params[5], SqlValue::Int8(2));
}

#[test]
fn a_stall_longer_than_the_clock_has_no_past() {
    let sql = RunRow::list_stalled("t", 10, 30, 5, 0).unwrap().sql();
    assert_eq!(sql.params[3], SqlValue::Int8(0));
}

#[test]
fn a_stall_bound_beyond_the_range_is_refused() {
    assert_eq!(
        RunRow::list_stalled("t", u64::MAX, 0, 5, 0),
        Err(StoreError::Internal(
            "list_stalled: stale_cutoff_ms=18446744073709551615 exceeds i64::MAX".to_owned()
        ))
    );
    assert_eq!(
        RunRow::list_stalled("t", 1, 0, usize::MAX, 0),
        Err(StoreError::Internal(
            "list_stalled: limit=18446744073709551615 exceeds i64::MAX".to_owned()
        ))
    );
    assert_eq!(
        RunRow::list_stalled("t", 1, 0, 1, usize::MAX),
        Err(StoreError::Internal(
            "list_stalled: offset=18446744073709551615 exceeds i64::MAX".to_owned()
        ))
    );
}

#[test]
fn a_session_has_a_budget_where_a_cap_is_set() {
    let row = |wall, tokens, cost| SessionRow {
        session_id: "s".to_owned(),
        tenant_id: "t".to_owned(),
        workspace_id: "w".to_owned(),
        project_id: "p".to_owned(),
        state: "open".to_owned(),
        version: 1,
        created_at: 1,
        updated_at: 2,
        goal_title: None,
        max_attempts: -1,
        attempts_used: 2,
        wall_clock_ms_cap: wall,
        wall_clock_ms_used: 0,
        token_cap: tokens,
        tokens_used: 0,
        cost_cap_micros: cost,
        cost_usd_used: 0,
    };
    let record = row(None, None, None).into_record(&names()).unwrap();
    assert_eq!(record.issue_budget, None);
    assert_eq!((record.max_attempts, record.attempts_used), (0, 2));
    let record = row(Some(2_500), Some(-3), Some(9)).into_record(&names()).unwrap();
    assert_eq!(
        record.issue_budget,
        Some(IssueBudget {
            max_tokens: Some(0),
            max_cost_micros: Some(9),
            max_wall_seconds: Some(2),
        })
    );
}

#[test]
fn sessions_of_a_project_are_paged() {
    let sql = SessionRow::list_by_project(&project(), 10, 20).sql();
    assert!(sql.text.contains(
        " FROM sessions WHERE tenant_id = $1 AND workspace_id = $2 AND project_id = $3 "
    ));
    assert!(sql.text.ends_with(" LIMIT $4 OFFSET $5"));
    assert_eq!(
        sql.params,
        vec![text("t"), text("w"), text("p"), SqlValue::Int8(10), SqlValue::Int8(20)]
    );
}

#[test]
fn the_latest_checkpoint_is_one() {
    let sql = CheckpointRow::latest_for_run("r").sql();
    assert_eq!(
        sql.text,
        "SELECT checkpoint_id, tenant_id, workspace_id, project_id, run_id, disposition, \
         version, created_at FROM checkpoints WHERE run_id = $1 AND disposition = $2 \
         ORDER BY created_at DESC, checkpoint_id DESC LIMIT $3"
    );
    assert_eq!(sql.params, vec![text("r"), text("latest"), SqlValue::Int8(1)]);
}

#[test]
fn a_checkpoint_of_a_session_fills_what_is_missing() {
    let row = F65CheckpointRow {
        checkpoint_id: "c".to_owned(),
        tenant_id: "t".to_owned(),
        workspace_id: "w".to_owned(),
        project_id: "p".to_owned(),
        run_id: "r".to_owned(),
        session_id: "s".to_owned(),
        body: None,
        body_size_bytes: Some(-1),
        schema_version: None,
        iteration: None,
        created_at: 5,
    };
    let record = row.into_record(&names()).unwrap();
    assert_eq!(record.schema_version, 1);
    assert_eq!(record.body, "");
    assert_eq!(record.body_size_bytes, 0);
    assert_eq!(record.iteration, 0);
    assert_eq!(record.root_run_id, "r");
}

#[test]
fn a_checkpoint_of_another_project_is_not_found() {
    let sql = F65CheckpointRow::get_f65(&project(), "c").sql();
    assert!(sql.text.ends_with(
        "WHERE checkpoint_id = $1 AND session_id IS NOT NULL AND tenant_id = $2 \
         AND workspace_id = $3 AND project_id = $4"
    ));
    assert_eq!(sql.params, vec![text("c"), text("t"), text("w"), text("p")]);
}

#[test]
fn the_project_of_a_checkpoint_strategy_is_a_sentinel() {
    let sentinel = checkpoint_strategy_sentinel_project();
    assert_eq!(sentinel, ProjectKey::new("_strategy", "_strategy", "_strategy"));
}

#[test]
fn how_a_session_ended_is_found_in_its_project() {
    let sql = SessionOutcomeRow::get_by_root_run(&project(), "r").sql();
    assert!(sql.text.ends_with(
        " FROM session_outcomes WHERE root_run_id = $1 AND tenant_id = $2 \
         AND workspace_scope = $3 AND project_id = $4"
    ));
}

fn snapshot(id: &str, parent: Option<&str>) -> WorkspaceSnapshotRecord {
    WorkspaceSnapshotRecord {
        snapshot_id: id.to_owned(),
        project: project(),
        session_id: "s".to_owned(),
        workspace_id: "ws".to_owned(),
        parent_snapshot_id: parent.map(|p| p.to_owned()),
        snapshot_path: "/x".to_owned(),
        bytes: 1,
        reflink_used: true,
        created_at: 2,
        reaped_at: None,
    }
}

#[test]
fn a_lineage_follows_the_parents() {
    let mut lineage = Lineage::start("c");
    let sql = lineage.next(&project()).unwrap().sql();
    assert_eq!(sql.params, vec![text("c"), text("t"), text("w"), text("p")]);
    lineage.absorb(Some(snapshot("c", Some("b"))));
    assert_eq!(lineage.next(&project()).unwrap().sql().params[0], text("b"));
    lineage.absorb(Some(snapshot("b", None)));
    assert_eq!(lineage.next(&project()), None);
    let ids: Vec<&str> = lineage.chain.iter().map(|s| s.snapshot_id.as_str()).collect();
    assert_eq!(ids, vec!["c", "b"]);
}

#[test]
fn a_lineage_ends_where_a_parent_is_missing() {
    let mut lineage = Lineage::start("c");
    lineage.absorb(None);
    assert_eq!(lineage.next(&project()), None);
    assert_eq!(lineage.chain.len(), 0);
}

#[test]
fn a_lineage_with_a_cycle_ends() {
    let mut lineage = Lineage::start("c");
    let mut steps = 0;
    while lineage.next(&project()).is_some() {
        lineage.absorb(Some(snapshot("c", Some("c"))));
        steps += 1;
    }
    assert_eq!(steps, MAX_DEPTH);
}

#[test]
fn a_snapshot_is_stamped_once_it_was_taken() {
    let sql = stamp_metadata("c", "/p", 9, true, &None).unwrap().sql();
    assert_eq!(
        sql.text,
        "UPDATE workspace_snapshots SET snapshot_path = $1, bytes = $2, reflink_used = $3, \
         parent_snapshot_id = $4 WHERE snapshot_id = $5"
    );
    assert_eq!(
        sql.params,
        vec![
            text("/p"),
            SqlValue::Int8(9),
            SqlValue::Bool(true),
            SqlValue::Null(SqlType::Text),
            text("c"),
        ]
    );
    assert_eq!(
        stamp_metadata("c", "/p", 1 << 63, true, &None),
        Err(StoreError::Internal(
            "WorkspaceSnapshotWriter.stamp_metadata.bytes 9223372036854775808 exceeds i64::MAX"
                .to_owned()
        ))
    );
}

#[test]
fn snapshots_of_a_session_are_listed_in_order() {
    let sql = WorkspaceSnapshotRow::list_by_session(&project(), "s").sql();
    assert!(sql.text.ends_with(" ORDER BY created_at ASC, snapshot_id ASC"));
}

#[test]
fn a_counter_is_incremented_below_its_cap() {
    let sql = try_increment_descendants("r", 8, 77).sql_returning(Column::InFlightDescendants);
    assert_eq!(
        sql.text,
        "UPDATE runs SET in_flight_descendants = runs.in_flight_descendants + $1, \
         version = runs.version + $2, updated_at = $3 WHERE run_id = $4 \
         AND in_flight_descendants < $5 RETURNING in_flight_descendants"
    );
    assert_eq!(sql.params[4], SqlValue::Int8(8));
    let sql = decrement_descendants("r", 77).sql();
    assert_eq!(sql.params[0], SqlValue::Int8(-1));
    assert_eq!(
        descendants("r").sql().text,
        "SELECT in_flight_descendants FROM runs WHERE run_id = $1"
    );
    assert_eq!(
        list_nonzero_descendant_counters().sql().text,
        "SELECT run_id, in_flight_descendants FROM runs WHERE in_flight_descendants <> $1 \
         ORDER BY run_id ASC LIMIT $2"
    );
}

#[test]
fn an_increment_is_admitted_or_says_why_not() {
    assert_eq!(
        incremented(Some(4), None),
        DescendantsCapOutcome::Admitted { new_count: 4 }
    );
    assert_eq!(incremented(None, Some(8)), DescendantsCapOutcome::CapReached);
    assert_eq!(incremented(None, None), DescendantsCapOutcome::RootNotFound);
    assert_eq!(decremented(Some(3)), DescendantsCapOutcome::Admitted { new_count: 3 });
    assert_eq!(decremented(None), DescendantsCapOutcome::RootNotFound);
}

#[test]
fn a_due_pause_is_listed_at_its_time() {
    let sql = PauseScheduleRow::list_due("t", u64::MAX, 3).sql();
    assert!(sql.text.contains("WHERE tenant_id = $1 AND resume_at_ms <= $2"));
    assert_eq!(sql.params[1], SqlValue::Int8(i64::MAX));
    assert_eq!(sql.params[2], SqlValue::Int8(3));
}

#[test]
fn a_due_time_beyond_the_range_is_refused() {
    assert_eq!(
        ScheduledTaskRow::list_due(1 << 63, 1),
        Err(StoreError::Internal("now_ms exceeds i64::MAX".to_owned()))
    );
}

#[test]
fn expired_leases_are_listed() {
    let sql = TaskRow::list_expired_leases(50, 2).sql();
    assert!(sql.text.ends_with(
        " FROM tasks WHERE state = $1 AND lease_expires_at IS NOT NULL AND lease_expires_at < $2 \
         ORDER BY lease_expires_at ASC, task_id ASC LIMIT $3"
    ));
    assert_eq!(sql.params, vec![text("leased"), SqlValue::Int8(50), SqlValue::Int8(2)]);
}

#[test]
fn a_lease_cursor_is_kept_and_forgotten() {
    let cursor = FfLeaseHistoryCursor {
        partition_id: "pa".to_owned(),
        execution_id: "ex".to_owned(),
        last_stream_id: "9-0".to_owned(),
        updated_at_ms: 3,
    };
    assert_eq!(
        cursor.upsert().sql().text,
        "INSERT INTO ff_lease_history_cursors (partition_id, execution_id, last_stream_id, \
         updated_at_ms) VALUES ($1, $2, $3, $4) ON CONFLICT (partition_id, execution_id) \
         DO UPDATE SET last_stream_id = EXCLUDED.last_stream_id, \
         updated_at_ms = EXCLUDED.updated_at_ms"
    );
    assert_eq!(
        FfLeaseHistoryCursor::delete("pa", "ex").sql().text,
        "DELETE FROM ff_lease_history_cursors WHERE partition_id = $1 AND execution_id = $2"
    );
}

fn connection(status: &str, models: &str) -> ProviderConnectionRow {
    ProviderConnectionRow {
        provider_connection_id: "pc".to_owned(),
        tenant_id: "t".to_owned(),
        provider_family: "f".to_owned(),
        adapter_type: "x".to_owned(),
        supported_models_json: models.to_owned(),
        status: status.to_owned(),
        created_at: 1,
    }
}

#[test]
fn a_list_of_models_is_read_from_json() {
    let record = connection("active", "[\"a\",\"b\\\"c\"]").into_record(&names()).unwrap();
    assert_eq!(record.supported_models, vec!["a".to_owned(), "b\"c".to_owned()]);
    assert_eq!(record.status, ProviderConnectionStatus::Active);
}

#[test]
fn a_list_that_is_no_json_is_refused() {
    assert_eq!(
        connection("active", "[1]").into_record(&names()),
        Err(StoreError::Internal(
            "provider_connections.supported_models_json parse error: invalid type: integer `1`, \
             expected a string at line 1 column 2"
                .to_owned()
        ))
    );
}

#[test]
fn a_status_that_is_not_known_is_quoted() {
    assert_eq!(
        connection("o\"dd", "[]").into_record(&names()),
        Err(StoreError::Internal(
            "provider_connections.status: unknown value \"o\\\"dd\"".to_owned()
        ))
    );
}

fn audit(outcome: &str, metadata: &str) -> AuditLogEntryRow {
    AuditLogEntryRow {
        entry_id: "e".to_owned(),
        tenant_id: "t".to_owned(),
        actor_id: "a".to_owned(),
        action: "act".to_owned(),
        resource_type: "rt".to_owned(),
        resource_id: "ri".to_owned(),
        outcome: outcome.to_owned(),
        metadata_json: metadata.to_owned(),
        occurred_at_ms: -4,
    }
}

#[test]
fn an_audit_entry_is_read_with_its_details() {
    let entry = audit("success", "{\"k\":1}").into_record(&names()).unwrap().into_entry();
    assert_eq!(entry.outcome, AuditOutcome::Success);
    assert_eq!(entry.metadata, "{\"k\":1}");
    assert_eq!(entry.occurred_at_ms, 0);
    assert_eq!(entry.request_id, None);
}

#[test]
fn audit_details_that_are_no_json_are_refused() {
    assert_eq!(
        audit("success", "{").into_record(&names()),
        Err(StoreError::Internal(
            "audit_log_entries.metadata_json parse error: EOF while parsing an object at line 1 \
             column 1"
                .to_owned()
        ))
    );
    assert_eq!(
        audit("odd", "{").into_record(&names()),
        Err(StoreError::Internal(
            "audit_log_entries.outcome: unknown value \"odd\"".to_owned()
        ))
    );
}

#[test]
fn a_window_without_bounds_is_open() {
    assert_eq!(window_bounds_ms(None, None), Ok((i64::MIN, i64::MAX)));
    assert_eq!(window_bounds_ms(Some(3), Some(9)), Ok((3, 9)));
    assert_eq!(
        window_bounds_ms(Some(u64::MAX), Some(u64::MAX)),
        Err(StoreError::Internal("since_ms exceeds i64::MAX".to_owned()))
    );
    assert_eq!(
        window_bounds_ms(None, Some(1 << 63)),
        Err(StoreError::Internal("before_ms exceeds i64::MAX".to_owned()))
    );
}

#[test]
fn audit_entries_of_a_tenant_are_listed_within_a_window() {
    let sql = AuditLogEntryRow::list_by_tenant("t", Some(3), Some(9), 5).unwrap().sql();
    assert!(sql.text.ends_with(
        " FROM audit_log_entries WHERE tenant_id = $1 AND occurred_at_ms >= $2 \
         AND occurred_at_ms < $3 ORDER BY occurred_at_ms DESC, entry_id DESC LIMIT $4"
    ));
    assert_eq!(
        sql.params,
        vec![text("t"), SqlValue::Int8(3), SqlValue::Int8(9), SqlValue::Int8(5)]
    );
}

fn role(name: &str) -> OperatorTenantRoleRow {
    OperatorTenantRoleRow {
        tenant_id: "t".to_owned(),
        operator_id: "o".to_owned(),
        role: name.to_owned(),
        granted_at_ms: 1,
        granted_by: "g".to_owned(),
        revoked_at_ms: None,
        revoked_by: None,
    }
}

#[test]
fn a_role_that_is_not_known_has_the_fewest_rights() {
    assert_eq!(role("admin").into_record(&names()).unwrap().role, "admin");
    assert_eq!(role("\\u0061dmin").into_record(&names()).unwrap().role, "admin");
    assert_eq!(role("root").into_record(&names()).unwrap().role, "read_only");
    assert_eq!(role("a\"b").into_record(&names()).unwrap().role, "read_only");
}

#[test]
fn a_role_is_in_force_until_it_is_revoked() {
    assert!(role("admin").into_record(&names()).unwrap().is_active());
    let mut row = role("admin");
    row.revoked_at_ms = Some(5);
    assert!(!row.into_record(&names()).unwrap().is_active());
}

#[test]
fn the_names_of_scopes_are_read_back() {
    for scope in [Scope::System, Scope::Tenant, Scope::Workspace, Scope::Project] {
        assert_eq!(rehydrate_defaults_scope(defaults_scope_str(scope)), Ok(scope));
    }
    assert_eq!(
        rehydrate_defaults_scope("odd"),
        Err(StoreError::Internal(
            "default_settings.scope = \"odd\" is not a known Scope".to_owned()
        ))
    );
}

#[test]
fn the_names_of_ingest_states_are_read_back() {
    for state in [
        IngestJobState::Pending,
        IngestJobState::Processing,
        IngestJobState::Completed,
        IngestJobState::Failed,
    ] {
        assert_eq!(rehydrate_ingest_job_state(ingest_job_state_str(state)), Ok(state));
    }
    assert_eq!(
        rehydrate_ingest_job_state("odd"),
        Err(StoreError::Internal(
            "ingest_jobs.state = \"odd\" is not a known IngestJobState".to_owned()
        ))
    );
}

#[test]
fn a_setting_that_is_no_json_is_refused() {
    let row = |value: &str| DefaultSettingRow {
        scope: "tenant".to_owned(),
        key: "k".to_owned(),
        value_json: value.to_owned(),
    };
    assert_eq!(row("true").into_record(&names()).unwrap().value, "true");
    assert_eq!(
        row("tru").into_record(&names()),
        Err(StoreError::Serialization("EOF while parsing a value at line 1 column 3".to_owned()))
    );
}

fn dataset(id: &str) -> EvalDatasetRow {
    EvalDatasetRow {
        dataset_id: id.to_owned(),
        tenant_id: "t".to_owned(),
        name: "n".to_owned(),
        subject_kind: "prompt_release".to_owned(),
        created_at_ms: 1,
    }
}

fn entry(dataset_id: &str, entry_id: &str) -> EvalDatasetEntryRow {
    EvalDatasetEntryRow { dataset_id: dataset_id.to_owned(), entry_id: entry_id.to_owned() }
}

#[test]
fn each_dataset_gets_its_entries() {
    let entries = vec![entry("a", "1"), entry("b", "2"), entry("a", "3")];
    let datasets = EvalDatasetRow::into_datasets(vec![dataset("b"), dataset("a")], &entries)
        .unwrap();
    assert_eq!(datasets[0].entries.len(), 1);
    assert_eq!(datasets[0].entries[0].input, "{\"entry_id\":\"2\"}");
    assert_eq!(datasets[1].entries.len(), 2);
    assert_eq!(datasets[1].entries[1].tags, vec!["3".to_owned()]);
}

#[test]
fn the_entries_of_many_datasets_are_read_in_chunks() {
    let rows: Vec<EvalDatasetRow> = (0..901).map(|i| dataset(&format!("d{}", i))).collect();
    let (sql, done) = EvalDatasetRow::next_entries(&rows, 0).unwrap();
    assert_eq!((sql.params.len(), done), (900, 900));
    let (sql, done) = EvalDatasetRow::next_entries(&rows, done).unwrap();
    assert_eq!(
        sql.text,
        "SELECT dataset_id, entry_id FROM eval_dataset_entries WHERE dataset_id IN ($1) \
         ORDER BY dataset_id ASC, added_at_ms ASC, entry_id ASC"
    );
    assert_eq!((sql.params, done), (vec![text("d900")], 901));
    assert_eq!(EvalDatasetRow::next_entries(&rows, 901), None);
}

#[test]
fn matching_triggers_are_enabled_ones() {
    let sql = TriggerRow::list_matching_enabled(&project(), "push", "pl").sql();
    assert!(sql.text.ends_with(
        "AND state = $4 AND signal_type = $5 AND (plugin_id IS NULL OR plugin_id = $6) \
         ORDER BY trigger_id ASC"
    ));
    assert_eq!(sql.params[3], text("enabled"));
}

#[test]
fn fires_are_found_and_counted() {
    assert!(has_fired("tr", "sg").sql().text.starts_with("SELECT EXISTS"));
    let sql = count_project_fires_since(&project(), 9).sql();
    assert_eq!(
        sql.text,
        "SELECT COUNT(*) FROM trigger_fires WHERE tenant_id = $1 AND workspace_id = $2 \
         AND project_id = $3 AND outcome = $4 AND at_ms > $5"
    );
    assert_eq!(fire_count(-1), 0);
    assert_eq!(fire_count(7), 7);
    assert!(triggers_referencing_template("tp").sql().params.contains(&text("tp")));
}

#[test]
fn counts_are_read_from_numbers() {
    assert!(any_pending(2));
    assert!(!any_pending(0));
    assert_eq!(message_count(-2), 0);
    assert_eq!(message_count(3), 3);
}

fn score(overall: f64, dimension: f64) -> EvalRubricScoreSummary {
    EvalRubricScoreSummary {
        rubric_id: "ru".to_owned(),
        dimension_scores: vec![("d".to_owned(), dimension.to_bits())],
        overall: overall.to_bits(),
        recorded_at_ms: 3,
    }
}

#[test]
fn scores_are_equal_by_their_bits() {
    assert_eq!(score(f64::NAN, 0.5), score(f64::NAN, 0.5));
    assert_ne!(score(0.0, 0.5), score(-0.0, 0.5));
    assert_ne!(score(1.0, 0.5), score(1.0, 0.25));
    let mut longer = score(1.0, 0.5);
    longer.dimension_scores.push(("e".to_owned(), 0));
    assert_ne!(score(1.0, 0.5), longer);
}

#[test]
fn a_row_takes_up_what_it_was_found_by() {
    let strategy = CheckpointStrategyRow {
        strategy_id: "s".to_owned(),
        interval_ms: 5,
        max_checkpoints: 3,
        trigger_on_task_complete: 1,
        run_id: String::new(),
    };
    let record = strategy.of_run("r").into_record(&names()).unwrap();
    assert_eq!((record.run_id.as_str(), record.strategy_id.as_str()), ("r", "s"));
    assert_eq!((record.interval_ms, record.max_checkpoints), (5, 3));
    assert!(record.trigger_on_task_complete);
    let progress = ToolInvocationProgressRow {
        tenant_id: "t".to_owned(),
        workspace_id: "w".to_owned(),
        project_id: "p".to_owned(),
        progress_pct: 300,
        message: None,
        updated_at_ms: 1,
        invocation_id: String::new(),
    };
    assert_eq!(
        progress.of_invocation("i").into_record(&names()),
        Err(StoreError::Internal(
            "tool_invocation_progress.progress_pct out of u8 range for i: 300".to_owned()
        ))
    );
    let quota = TenantQuotaRow {
        max_concurrent_runs: 4,
        max_sessions_per_hour: 5,
        max_tasks_per_run: 6,
        tenant_id: String::new(),
        active_runs: 0,
        sessions: 0,
    };
    let record = quota.of_tenant("t", 2, 3).into_record(&names()).unwrap();
    assert_eq!(record.tenant_id, "t");
    assert_eq!((record.current_active_runs, record.sessions_this_hour), (2, 3));
    assert_eq!((record.max_concurrent_runs, record.max_sessions_per_hour), (4, 5));
}
