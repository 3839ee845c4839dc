use cairn_store::domain::ProjectKey;
use cairn_store::error::StoreError;
use cairn_store::event_log::{
    append_moment, entity_ref_filter, find_by_causation_id, found_position, head_position,
    read_by_entity, read_stream, replay_moment, source_type_str, Append, EntityRef, EventEnvelope,
    EventPosition, EventRow, EventSource, Returned, StoredEvent, EVENT_VALUES, HEAD_POSITION_SQL,
};
use cairn_store::events::RuntimeEvent;
use cairn_store::projections::sessions::SessionCreated;
use cairn_store::rebuild::{
    empty_table, projection_tables, truncation_failure, RebuildReport, Replay,
};
use cairn_store::schema::Table;
use cairn_store::value::{SqlType, SqlValue};

fn payload(session_id: &str) -> RuntimeEvent {
    RuntimeEvent::SessionCreated(SessionCreated {
        session_id: session_id.to_owned(),
        project: ProjectKey::new("t", "w", "p"),
    })
}

fn envelope(event_id: &str) -> EventEnvelope {
    EventEnvelope {
        event_id: event_id.to_owned(),
        source: EventSource::Runtime,
        source_json: "\"runtime\"".to_owned(),
        ownership_json: "{\"scope\":\"system\"}".to_owned(),
        causation_id: None,
        correlation_id: Some("corr".to_owned()),
        payload: payload("s"),
        payload_json: "{\"event\":\"session_created\"}".to_owned(),
    }
}

fn stored(position: u64) -> StoredEvent {
    StoredEvent {
        position: EventPosition(position),
        envelope: envelope(&format!("e{}", position)),
        stored_at: 1_000 + position,
    }
}

fn returned(position: i64, event_id: &str) -> Returned {
    Returned { position, event_id: event_id.to_owned() }
}

#[test]
fn a_source_has_the_name_of_its_kind() {
    let operator = EventSource::Operator { operator_id: "o".to_owned() };
    let worker = EventSource::ExternalWorker { worker: "w".to_owned() };
    assert_eq!(source_type_str(&operator), "operator");
    assert_eq!(source_type_str(&EventSource::Runtime), "runtime");
    assert_eq!(source_type_str(&EventSource::Scheduler), "scheduler");
    assert_eq!(source_type_str(&worker), "external_worker");
    assert_eq!(source_type_str(&EventSource::System), "system");
}

#[test]
fn an_entity_is_found_by_its_payload_field() {
    assert_eq!(
        entity_ref_filter(&EntityRef::Mailbox("m".to_owned())),
        ("message_id", "m".to_owned())
    );
    assert_eq!(
        entity_ref_filter(&EntityRef::IngestJob("j".to_owned())),
        ("job_id", "j".to_owned())
    );
}

#[test]
fn a_repeated_id_is_refused() {
    let batch = vec![envelope("a"), envelope("b"), envelope("b"), envelope("a")];
    assert_eq!(
        Append::begin(&batch),
        Err(StoreError::Internal("duplicate event_id b in single append batch".to_owned()))
    );
}

#[test]
fn an_empty_batch_needs_no_insert() {
    let batch = vec![];
    let append = Append::begin(&batch).unwrap();
    assert_eq!(append.next_chunk(&batch, 7), None);
    assert_eq!(append.positions(&batch), Ok(vec![]));
}

#[test]
fn a_chunk_inserts_its_events_in_order() {
    let batch = vec![envelope("a"), envelope("b")];
    let append = Append::begin(&batch).unwrap();
    let sql = append.next_chunk(&batch, 7).unwrap();
    assert_eq!(
        sql.text,
        "INSERT INTO event_log (event_id, source_type, source_meta, ownership, causation_id, \
         correlation_id, payload, stored_at) VALUES ($1, $2, $3, $4, $5, $6, $7, $8), \
         ($9, $10, $11, $12, $13, $14, $15, $16) RETURNING position, event_id"
    );
    assert_eq!(sql.params.len(), 16);
    assert_eq!(sql.params[0], SqlValue::Text("a".to_owned()));
    assert_eq!(sql.params[1], SqlValue::Text("runtime".to_owned()));
    assert_eq!(sql.params[2], SqlValue::Json("\"runtime\"".to_owned()));
    assert_eq!(sql.params[4], SqlValue::Null(SqlType::Text));
    assert_eq!(sql.params[5], SqlValue::Text("corr".to_owned()));
    assert_eq!(sql.params[7], SqlValue::Int8(7));
    assert_eq!(sql.params[8], SqlValue::Text("b".to_owned()));
}

#[test]
fn a_long_batch_is_inserted_in_chunks() {
    let batch: Vec<EventEnvelope> = (0..250).map(|i| envelope(&format!("e{}", i))).collect();
    let mut append = Append::begin(&batch).unwrap();
    let mut sizes = vec![];
    let mut next = 0;
    while let Some(sql) = append.next_chunk(&batch, 1) {
        let n = sql.params.len() / 8;
        assert_eq!(sql.params[0], SqlValue::Text(format!("e{}", next)));
        let answer = (next..next + n)
            .map(|i| returned(1_000 + i as i64, &format!("e{}", i)))
            .collect();
        append.accept(&batch, answer).unwrap();
        sizes.push(n);
        next += n;
    }
    assert_eq!(sizes, vec![100, 100, 50]);
    let positions = append.positions(&batch).unwrap();
    assert_eq!(positions.len(), 250);
    assert_eq!(positions[249], EventPosition(1_249));
}

#[test]
fn positions_follow_the_batch_and_not_the_answer() {
    let batch = vec![envelope("a"), envelope("b"), envelope("c")];
    let mut append = Append::begin(&batch).unwrap();
    let answer = vec![returned(12, "c"), returned(10, "a"), returned(11, "b")];
    append.accept(&batch, answer).unwrap();
    assert_eq!(
        append.positions(&batch),
        Ok(vec![EventPosition(10), EventPosition(11), EventPosition(12)])
    );
}

#[test]
fn a_short_answer_is_refused() {
    let batch = vec![envelope("a"), envelope("b")];
    let mut append = Append::begin(&batch).unwrap();
    assert_eq!(
        append.accept(&batch, vec![returned(1, "a")]),
        Err(StoreError::Internal(
            "event_log batch INSERT returned 1 rows for 2 events in chunk".to_owned()
        ))
    );
    assert_eq!(
        append.positions(&batch),
        Err(StoreError::Internal(
            "event_log batch INSERT returned 0 rows for 2 events".to_owned()
        ))
    );
}

#[test]
fn an_event_without_an_answer_is_named() {
    let batch = vec![envelope("a"), envelope("b")];
    let mut append = Append::begin(&batch).unwrap();
    append.accept(&batch, vec![returned(1, "a"), returned(2, "x")]).unwrap();
    assert_eq!(
        append.positions(&batch),
        Err(StoreError::Internal("event_log batch INSERT did not return event_id b".to_owned()))
    );
}

#[test]
fn an_appended_event_is_projected_at_its_time() {
    let at = append_moment(&envelope("a"), -5);
    assert_eq!((at.now, at.event_time_ms, at.event_id), (-5, 0, "a".to_owned()));
    let at = append_moment(&envelope("a"), 5);
    assert_eq!((at.now, at.event_time_ms), (5, 5));
}

#[test]
fn a_replayed_event_keeps_the_time_it_was_stored_at() {
    let at = replay_moment(&stored(3), 99);
    assert_eq!((at.now, at.event_time_ms, at.event_id), (99, 1_003, "e3".to_owned()));
}

#[test]
fn the_stream_is_read_after_a_position() {
    let sql = read_stream(Some(EventPosition(41)), 10);
    assert_eq!(
        sql.text,
        "SELECT position, event_id, source_type, source_meta, ownership, causation_id, \
         correlation_id, payload, stored_at FROM event_log WHERE position > $1 \
         ORDER BY position ASC LIMIT $2"
    );
    assert_eq!(sql.params, vec![SqlValue::Int8(41), SqlValue::Int8(10)]);
    assert_eq!(read_stream(None, 1).params[0], SqlValue::Int8(0));
}

#[test]
fn the_events_of_an_entity_are_read_by_its_field() {
    let sql = read_by_entity(&EntityRef::Run("r".to_owned()), None, 5);
    assert_eq!(
        sql.text,
        "SELECT position, event_id, source_type, source_meta, ownership, causation_id, \
         correlation_id, payload, stored_at FROM event_log WHERE position > $1 \
         AND payload->>'run_id' = $2 ORDER BY position ASC LIMIT $3"
    );
    assert_eq!(
        sql.params,
        vec![SqlValue::Int8(0), SqlValue::Text("r".to_owned()), SqlValue::Int8(5)]
    );
}

#[test]
fn the_head_is_the_greatest_positive_position() {
    assert_eq!(HEAD_POSITION_SQL, "SELECT MAX(position) FROM event_log");
    assert_eq!(head_position(None), None);
    assert_eq!(head_position(Some(0)), None);
    assert_eq!(head_position(Some(-1)), None);
    assert_eq!(head_position(Some(9)), Some(EventPosition(9)));
}

#[test]
fn a_caused_event_is_found_by_its_cause() {
    let sql = find_by_causation_id("cmd");
    assert_eq!(sql.text, "SELECT position FROM event_log WHERE causation_id = $1 LIMIT 1");
    assert_eq!(sql.params, vec![SqlValue::Text("cmd".to_owned())]);
    assert_eq!(found_position(Some(4)), Some(EventPosition(4)));
    assert_eq!(found_position(None), None);
}

fn event_row() -> EventRow {
    EventRow {
        position: 8,
        event_id: "e8".to_owned(),
        source: Ok(EventSource::System),
        source_json: "\"system\"".to_owned(),
        ownership: Ok(()),
        ownership_json: "{}".to_owned(),
        causation_id: Some("cmd".to_owned()),
        correlation_id: None,
        payload: Ok(payload("s")),
        payload_json: "{}".to_owned(),
        stored_at: 77,
    }
}

#[test]
fn a_row_of_the_log_holds_an_event() {
    let event = event_row().into_stored_event().unwrap();
    assert_eq!(event.position, EventPosition(8));
    assert_eq!(event.stored_at, 77);
    assert_eq!(event.envelope.event_id, "e8");
    assert_eq!(event.envelope.source, EventSource::System);
    assert_eq!(event.envelope.causation_id, Some("cmd".to_owned()));
    assert_eq!(event.envelope.payload, payload("s"));
}

#[test]
fn the_first_column_that_does_not_decode_is_reported() {
    let mut row = event_row();
    row.payload = Err("bad payload".to_owned());
    assert_eq!(
        row.into_stored_event(),
        Err(StoreError::Serialization("bad payload".to_owned()))
    );
    let mut row = event_row();
    row.payload = Err("bad payload".to_owned());
    row.ownership = Err("bad owner".to_owned());
    assert_eq!(
        row.into_stored_event(),
        Err(StoreError::Serialization("bad owner".to_owned()))
    );
    let mut row = event_row();
    row.ownership = Err("bad owner".to_owned());
    row.source = Err("bad source".to_owned());
    assert_eq!(
        row.into_stored_event(),
        Err(StoreError::Serialization("bad source".to_owned()))
    );
}

#[test]
fn a_replay_goes_on_until_a_short_batch() {
    let mut replay = Replay::from_start();
    assert_eq!(replay.next_batch().unwrap().params, vec![SqlValue::Int8(0), SqlValue::Int8(500)]);
    let full: Vec<StoredEvent> = (1..=500).map(stored).collect();
    let mut failed = vec![false; 500];
    failed[3] = true;
    replay.absorb(&full, &failed);
    assert_eq!(
        replay.next_batch().unwrap().params,
        vec![SqlValue::Int8(500), SqlValue::Int8(500)]
    );
    let rest: Vec<StoredEvent> = (501..=502).map(stored).collect();
    replay.absorb(&rest, &vec![false, true]);
    assert_eq!(replay.next_batch(), None);
    assert_eq!(
        replay.report(),
        RebuildReport {
            events_replayed: 502,
            errors: 2,
            last_position: Some(EventPosition(502)),
        }
    );
    assert!(!replay.report().is_clean());
}

#[test]
fn a_replay_of_an_empty_log_is_clean() {
    let mut replay = Replay::from_start();
    replay.absorb(&vec![], &vec![]);
    assert_eq!(replay.next_batch(), None);
    assert_eq!(
        replay.report(),
        RebuildReport { events_replayed: 0, errors: 0, last_position: None }
    );
    assert!(replay.report().is_clean());
}

#[test]
fn a_partial_replay_starts_after_its_position() {
    let replay = Replay::after(EventPosition(17));
    assert_eq!(replay.next_batch().unwrap().params[0], SqlValue::Int8(17));
    assert_eq!(replay.report().last_position, Some(EventPosition(17)));
}

#[test]
fn a_rebuild_empties_the_projection_tables() {
    assert_eq!(
        projection_tables(),
        vec![
            Table::ApprovalDelegations,
            Table::ToolCallApprovals,
            Table::ToolInvocationCacheHits,
            Table::ToolInvocationProgress,
            Table::ToolRecoveryPauses,
            Table::CheckpointStrategies,
            Table::SessionOutcomes,
            Table::WorkspaceSnapshots,
            Table::SubagentSpawns,
            Table::PauseSchedules,
            Table::PlanReviews,
            Table::Outcomes,
            Table::UserMessages,
            Table::LlmCompletions,
            Table::RecoveryAttempts,
            Table::RecoveryCompletions,
            Table::RecoverySummaries,
            Table::DecisionRecords,
            Table::DecisionCacheWarmups,
            Table::RunCosts,
            Table::RunCostAlerts,
            Table::SessionCosts,
            Table::ProjectCosts,
            Table::WorkspaceCosts,
            Table::ProviderCalls,
            Table::RouteDecisions,
            Table::RoutePolicies,
            Table::ProviderBindings,
            Table::ProviderConnections,
            Table::ProviderBudgets,
            Table::EvalRuns,
            Table::EvalBaselines,
            Table::EvalRubrics,
            Table::EvalDatasetEntries,
            Table::EvalDatasets,
            Table::TriggerFires,
            Table::Triggers,
            Table::RunTemplates,
            Table::SignalIngestions,
            Table::ChannelMessages,
            Table::Channels,
            Table::ScheduledTasks,
            Table::ExternalWorkers,
            Table::ToolInvocations,
            Table::MailboxMessages,
            Table::Checkpoints,
            Table::Approvals,
            Table::Tasks,
            Table::Runs,
            Table::Sessions,
            Table::PromptReleases,
            Table::PromptVersions,
            Table::PromptAssets,
            Table::IngestJobs,
            Table::KnowledgeIngestJobs,
            Table::ProjectKnowledgeProviders,
            Table::SoulPatches,
            Table::GuardrailEvaluations,
            Table::GuardrailPolicies,
            Table::AuditLogEntries,
            Table::CredentialRotations,
            Table::Credentials,
            Table::Notifications,
            Table::NotificationPreferences,
            Table::OperatorTenantRoles,
            Table::WorkspaceMembers,
            Table::OperatorProfiles,
            Table::ResourceShares,
            Table::RetentionPolicies,
            Table::EntitlementOverrides,
            Table::Licenses,
            Table::TenantQuotaViolations,
            Table::TenantQuotas,
            Table::DefaultSettings,
            Table::Projects,
            Table::Workspaces,
            Table::Tenants,
        ]
    );
    let sql = empty_table(Table::Runs).sql();
    assert_eq!(sql.text, "DELETE FROM runs");
    assert_eq!(sql.params, vec![]);
}

#[test]
fn a_rebuild_leaves_what_no_event_writes() {
    let tables = projection_tables();
    assert!(!tables.contains(&Table::FfLeaseHistoryCursors));
    assert!(!tables.contains(&Table::ProjectAgentRoles));
    assert!(!tables.contains(&Table::WorkspaceRegistry));
}

#[test]
fn a_stale_plan_review_does_not_survive_a_rebuild() {
    let tables = Replay::from_start().tables_to_empty();
    assert!(tables.contains(&Table::PlanReviews));
    assert!(tables.contains(&Table::SessionCosts));
    assert!(tables.contains(&Table::TriggerFires));
    assert_eq!(empty_table(Table::PlanReviews).sql().text, "DELETE FROM plan_reviews");
}

#[test]
fn a_table_is_emptied_before_those_it_names() {
    let tables = projection_tables();
    let place = |table: Table| tables.iter().position(|t| *t == table).unwrap();
    assert!(place(Table::EvalDatasetEntries) < place(Table::EvalDatasets));
    assert!(place(Table::TriggerFires) < place(Table::Triggers));
    assert!(place(Table::Triggers) < place(Table::RunTemplates));
    assert!(place(Table::ProviderCalls) < place(Table::RouteDecisions));
    assert!(place(Table::SubagentSpawns) < place(Table::Tasks));
    assert!(place(Table::Tasks) < place(Table::Runs));
    assert!(place(Table::Runs) < place(Table::Sessions));
    assert!(place(Table::Sessions) < place(Table::Projects));
    assert!(place(Table::Projects) < place(Table::Workspaces));
    assert!(place(Table::Workspaces) < place(Table::Tenants));
}

#[test]
fn a_replay_from_a_position_empties_nothing() {
    assert_eq!(Replay::after(EventPosition(0)).tables_to_empty(), vec![]);
    assert_eq!(Replay::after(EventPosition(17)).tables_to_empty(), vec![]);
    assert_eq!(Replay::from_start().tables_to_empty(), projection_tables());
}

#[test]
fn a_replay_from_the_last_position_reads_nothing() {
    let log: Vec<StoredEvent> = (1..=1203).map(stored).collect();
    let mut replay = Replay::after(EventPosition(3));
    let mut batches = 0;
    while replay.next_batch().is_some() {
        let from = replay.cursor.unwrap().0 as usize;
        let to = log.len().min(from + 500);
        let batch: Vec<StoredEvent> = (from as u64 + 1..=to as u64).map(stored).collect();
        let failed: Vec<bool> = batch.iter().map(|e| e.position.0 % 100 == 0).collect();
        replay.absorb(&batch, &failed);
        batches += 1;
    }
    assert_eq!(batches, 3);
    let report = replay.report();
    assert_eq!(
        report,
        RebuildReport {
            events_replayed: 1200,
            errors: 12,
            last_position: Some(EventPosition(1203)),
        }
    );
    let mut again = Replay::after(report.last_position.unwrap());
    assert_eq!(again.next_batch().unwrap().params[0], SqlValue::Int8(1203));
    again.absorb(&vec![], &vec![]);
    assert_eq!(again.next_batch(), None);
    assert_eq!(
        again.report(),
        RebuildReport {
            events_replayed: 0,
            errors: 0,
            last_position: Some(EventPosition(1203)),
        }
    );
}

#[test]
fn a_failed_truncation_names_the_table() {
    assert_eq!(
        truncation_failure(Table::Runs, "locked"),
        StoreError::Internal("truncate runs: locked".to_owned())
    );
}

#[test]
fn a_logged_event_is_read_back() {
    let batch = vec![envelope("a"), envelope("b")];
    let append = Append::begin(&batch).unwrap();
    let params = append.next_chunk(&batch, 7).unwrap().params;
    assert_eq!(params.len(), 2 * EVENT_VALUES);
    let text = |i: usize| match &params[EVENT_VALUES + i] {
        SqlValue::Text(s) | SqlValue::Json(s) => s.clone(),
        other => panic!("{:?}", other),
    };
    assert_eq!(params[EVENT_VALUES + 4], SqlValue::Null(SqlType::Text));
    let row = EventRow {
        position: 31,
        event_id: text(0),
        source: Ok(EventSource::Runtime),
        source_json: text(2),
        ownership: Ok(()),
        ownership_json: text(3),
        causation_id: None,
        correlation_id: Some(text(5)),
        payload: Ok(payload("s")),
        payload_json: text(6),
        stored_at: 7,
    };
    let stored = row.into_stored_event().unwrap();
    assert_eq!(stored.envelope, envelope("b"));
    assert_eq!((stored.position, stored.stored_at), (EventPosition(31), 7));
}
