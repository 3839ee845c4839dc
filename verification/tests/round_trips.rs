use cairn_store::domain::{DomainNames, ProjectKey};
use cairn_store::events::RuntimeEvent;
use cairn_store::migration::{pending, AppliedMigration};
use cairn_store::plan::{Found, Moment};
use cairn_store::projections::messages::NotificationPreferenceSet;
use cairn_store::projections::providers::{
    ProviderConnectionDeleted, ProviderConnectionRegistered,
};
use cairn_store::projections::runs::RunStateChanged;
use cairn_store::projections::sessions::SessionCreated;
use cairn_store::projections::tenants::TenantRoleGranted;
use cairn_store::read::messages::NotificationPrefRow;
use cairn_store::read::providers::ProviderConnectionRow;
use cairn_store::read::sessions::SessionRow;
use cairn_store::read::tenants::OperatorTenantRoleRow;
use cairn_store::read::{Decoded, StoredRow};
use cairn_store::sql::Sql;
use cairn_store::value::SqlValue;
use cairn_store::vocabulary::ProviderConnectionStatus;

fn names() -> DomainNames {
    let list = |names: &[&str]| names.iter().map(|n| n.to_string()).collect::<Vec<String>>();
    DomainNames {
        session_states: list(&["open"]),
        run_states: vec![],
        task_states: vec![],
        failure_classes: vec![],
        approval_requirements: vec![],
        approval_decisions: vec![],
        checkpoint_dispositions: vec![],
        execution_classes: vec![],
        invocation_states: vec![],
        invocation_outcomes: vec![],
        tenant_roles: list(&["admin", "read_only"]),
        workspace_statuses: vec![],
    }
}

fn planned(event: &RuntimeEvent, now: i64) -> Vec<Sql> {
    let at = Moment { now, event_time_ms: 40, event_id: "ev".to_owned() };
    let plan = event.plan(&at, &Found::nothing()).unwrap();
    plan.iter().map(|s| s.sql()).collect()
}

/// What the insert puts into a column.
fn cell<'a>(sql: &'a Sql, column: &str) -> &'a SqlValue {
    let from = sql.text.find('(').unwrap() + 1;
    let to = sql.text.find(')').unwrap();
    let at = sql.text[from..to].split(", ").position(|c| c == column).unwrap();
    &sql.params[at]
}

fn text(sql: &Sql, column: &str) -> String {
    match cell(sql, column) {
        SqlValue::Text(s) => s.clone(),
        other => panic!("{} holds {:?}", column, other),
    }
}

fn number(sql: &Sql, column: &str) -> i64 {
    match cell(sql, column) {
        SqlValue::Int8(n) => *n,
        other => panic!("{} holds {:?}", column, other),
    }
}

#[test]
fn a_created_session_is_read_back() {
    let event = RuntimeEvent::SessionCreated(SessionCreated {
        session_id: "s".to_owned(),
        project: ProjectKey::new("t", "w", "p"),
    });
    let sql = planned(&event, 50).remove(0);
    let row = SessionRow {
        session_id: text(&sql, "session_id"),
        tenant_id: text(&sql, "tenant_id"),
        workspace_id: text(&sql, "workspace_id"),
        project_id: text(&sql, "project_id"),
        state: text(&sql, "state"),
        version: number(&sql, "version"),
        created_at: number(&sql, "created_at"),
        updated_at: number(&sql, "updated_at"),
        goal_title: None,
        max_attempts: 1,
        attempts_used: 0,
        wall_clock_ms_cap: None,
        wall_clock_ms_used: 0,
        token_cap: None,
        tokens_used: 0,
        cost_cap_micros: None,
        cost_usd_used: 0,
    };
    let record = row.into_record(&names()).unwrap();
    assert_eq!(record.session_id, "s");
    assert_eq!(record.project, ProjectKey::new("t", "w", "p"));
    assert_eq!(record.state, "open");
    assert_eq!((record.version, record.created_at, record.updated_at), (1, 50, 50));
}

#[test]
fn a_registered_connection_is_read_back() {
    let models = vec!["a".to_owned(), "b\"\\\u{7}ü".to_owned(), String::new()];
    let event = RuntimeEvent::ProviderConnectionRegistered(ProviderConnectionRegistered {
        registered_at: 9,
        status: ProviderConnectionStatus::Disabled,
        supported_models: models.clone(),
        provider_connection_id: "pc".to_owned(),
        tenant_id: "t".to_owned(),
        provider_family: "f".to_owned(),
        adapter_type: "x".to_owned(),
    });
    let sql = planned(&event, 50).remove(0);
    let row = ProviderConnectionRow {
        provider_connection_id: text(&sql, "provider_connection_id"),
        tenant_id: text(&sql, "tenant_id"),
        provider_family: text(&sql, "provider_family"),
        adapter_type: text(&sql, "adapter_type"),
        supported_models_json: text(&sql, "supported_models_json"),
        status: text(&sql, "status"),
        created_at: number(&sql, "created_at"),
    };
    let record = row.into_record(&names()).unwrap();
    assert_eq!(record.supported_models, models);
    assert_eq!(record.status, ProviderConnectionStatus::Disabled);
    assert_eq!(record.created_at, 9);
}

#[test]
fn preferences_that_were_set_are_read_back() {
    let event = RuntimeEvent::NotificationPreferenceSet(NotificationPreferenceSet {
        event_types: vec!["run_failed".to_owned()],
        channels_json: "[{\"kind\":\"email\"}]".to_owned(),
        set_at_ms: 7,
        tenant_id: "t".to_owned(),
        operator_id: "o".to_owned(),
    });
    let sql = planned(&event, 50).remove(0);
    let row = NotificationPrefRow {
        pref_id: text(&sql, "pref_id"),
        tenant_id: text(&sql, "tenant_id"),
        operator_id: text(&sql, "operator_id"),
        event_types_json: text(&sql, "event_types_json"),
        channels: Decoded { text: text(&sql, "channels_json"), fault: None },
    };
    let record = row.into_record(&names()).unwrap();
    assert_eq!(record.event_types, vec!["run_failed".to_owned()]);
    assert_eq!(record.channels, "[{\"kind\":\"email\"}]");
}

#[test]
fn a_granted_role_is_read_back() {
    let event = RuntimeEvent::TenantRoleGranted(TenantRoleGranted {
        role: "admin".to_owned(),
        at_ms: 5,
        tenant_id: "t".to_owned(),
        operator_id: "o".to_owned(),
        granted_by: "root".to_owned(),
    });
    let sql = planned(&event, 50).remove(0);
    let row = OperatorTenantRoleRow {
        tenant_id: text(&sql, "tenant_id"),
        operator_id: text(&sql, "operator_id"),
        role: text(&sql, "role"),
        granted_at_ms: number(&sql, "granted_at_ms"),
        granted_by: text(&sql, "granted_by"),
        revoked_at_ms: None,
        revoked_by: None,
    };
    let record = row.into_record(&names()).unwrap();
    assert_eq!((record.role.as_str(), record.granted_at_ms), ("admin", 5));
    assert!(record.is_active());
}

#[test]
fn a_replayed_pause_lands_at_the_same_time() {
    let event = RuntimeEvent::RunStateChanged(RunStateChanged {
        run_id: "r".to_owned(),
        project: ProjectKey::new("t", "w", "p"),
        to: "paused".to_owned(),
        failure_class: None,
        resume_after_ms: Some(1_000),
    });
    let first = planned(&event, 50);
    let again = planned(&event, 90_000);
    assert_eq!(first[1], again[1]);
    assert_eq!(number(&first[1], "resume_at_ms"), 1_040);
    assert_ne!(first[0], again[0]);
}

#[test]
fn nothing_is_left_after_the_pending_migrations_ran() {
    let mut applied: Vec<AppliedMigration> = Vec::new();
    let first = pending(&applied).remove(0);
    applied.push(first.run("", 1).applied);
    let ran: Vec<AppliedMigration> =
        pending(&applied).iter().map(|m| m.run("", 2).applied).collect();
    assert_eq!(ran.len(), 48);
    applied.extend(ran);
    assert_eq!(pending(&applied), vec![]);
}

#[test]
fn a_created_session_is_found_by_its_id() {
    let event = RuntimeEvent::SessionCreated(SessionCreated {
        session_id: "s".to_owned(),
        project: ProjectKey::new("t", "w", "p"),
    });
    let sql = planned(&event, 50).remove(0);
    let query = SessionRow::get(&text(&sql, "session_id")).sql();
    assert!(query.text.ends_with("FROM sessions WHERE session_id = $1"));
    assert_eq!(query.params, vec![SqlValue::Text("s".to_owned())]);
}

#[test]
fn a_removed_connection_is_sought_as_it_was_deleted() {
    let event = RuntimeEvent::ProviderConnectionDeleted(ProviderConnectionDeleted {
        provider_connection_id: "c".to_owned(),
    });
    let sql = planned(&event, 50).remove(0);
    let query = ProviderConnectionRow::get("c").sql();
    assert_eq!(sql.text, "DELETE FROM provider_connections WHERE provider_connection_id = $1");
    assert!(query.text.ends_with("WHERE provider_connection_id = $1"));
    assert_eq!(query.params, sql.params);
}
