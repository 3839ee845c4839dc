use cairn_store::projection_registry::{
    assert_no_stubs_for_in_memory, assert_no_stubs_for_persistent_backend, lookup, registry, Backend,
    RegistryError,
};

#[test]
fn registry_has_no_duplicate_variants() {
    let mut seen: std::collections::HashSet<&'static str> = std::collections::HashSet::new();
    for entry in registry() {
        assert!(
            seen.insert(entry.variant),
            "duplicate registry entry for variant {}",
            entry.variant
        );
    }
}

#[test]
fn lookup_returns_registered_status() {
    let status = lookup("SessionCreated").expect("SessionCreated is Projected");
    assert!(status.is_projected());
    let status = lookup("EvalRunStarted").expect("EvalRunStarted is Projected (Phase 1)");
    assert!(status.is_projected());
    let status =
        lookup("CredentialStored").expect("CredentialStored is Projected (Phase 2a.1)");
    assert!(status.is_projected());
    let status = lookup("CircuitBreakerTripped").expect("CircuitBreakerTripped is Ephemeral");
    assert!(status.is_ephemeral());
    assert!(lookup("NotAVariant").is_none());
}

#[test]
fn assert_no_stubs_in_memory_always_ok() {
    assert!(assert_no_stubs_for_in_memory().is_ok());
}

#[test]
fn assert_no_stubs_for_postgres_lists_every_stub() {
    let err = assert_no_stubs_for_persistent_backend(Backend::Postgres)
        .expect_err("Phase 1: registry still carries Stubbed variants pending Phase 2a/2b");
    let RegistryError::StubbedVariantsPresent { backend, stubbed } = err;
    assert_eq!(backend, Backend::Postgres);
    assert!(
        !stubbed.is_empty(),
        "Phase 1 should surface at least one stubbed variant (Phase 2a/2b backlog)"
    );
    assert!(
        stubbed.contains(&"PermissionDecisionRecorded"),
        "PermissionDecisionRecorded should still be Stubbed post-Phase-2b.4 m4"
    );
    for migrated in [
        "EvalBaselineLocked",
        "EvalBaselineSet",
        "EvalDatasetCreated",
        "EvalDatasetEntryAdded",
        "EvalRubricCreated",
        "OperatorProfileCreated",
        "OperatorProfileUpdated",
        "OperatorIntervention",
        "PauseScheduled",
        "RoutePolicyUpdated",
        "RunCostAlertSet",
        "RunCostAlertTriggered",
        "RunCostUpdated",
        "SpendAlertTriggered",
    ] {
        assert!(
            !stubbed.contains(&migrated),
            "{migrated} should be Projected/Ephemeral after Phase 2b.4"
        );
    }
    for migrated in [
        "ProviderHealthChecked",
        "ProviderHealthScheduleSet",
        "ProviderHealthScheduleTriggered",
        "ProviderMarkedDegraded",
        "ProviderModelRegistered",
        "ProviderPoolCreated",
        "ProviderPoolConnectionAdded",
        "ProviderPoolConnectionRemoved",
        "ProviderRecovered",
        "ProviderRetryPolicySet",
    ] {
        assert!(
            !stubbed.contains(&migrated),
            "{migrated} should be Ephemeral after Phase 2b.4 milestone 1"
        );
    }
    for migrated in [
        "EvalRunStarted",
        "EvalRunCompleted",
        "EvalRunArchived",
        "EvalRunScored",
        "EvalRubricScored",
    ] {
        assert!(
            !stubbed.contains(&migrated),
            "{migrated} should be Projected after Phase 1 milestone 7"
        );
    }
    for migrated in [
        "CredentialStored",
        "CredentialRevoked",
        "CredentialKeyRotated",
    ] {
        assert!(
            !stubbed.contains(&migrated),
            "{migrated} should be Projected after Phase 2a.1 milestone 1"
        );
    }
}

#[test]
fn assert_no_stubs_for_sqlite_lists_every_stub() {
    let err = assert_no_stubs_for_persistent_backend(Backend::Sqlite)
        .expect_err("Phase 0: registry still carries Stubbed variants");
    let RegistryError::StubbedVariantsPresent { backend, .. } = err;
    assert_eq!(backend, Backend::Sqlite);
}

#[test]
fn registry_counts_match_rfc025_phase_0_classification() {
    let projected = registry().iter().filter(|e| e.status.is_projected()).count();
    let ephemeral = registry().iter().filter(|e| e.status.is_ephemeral()).count();
    let stubbed = registry().iter().filter(|e| e.status.is_stubbed()).count();
    assert_eq!(
        projected, 125,
        "Projected count drifted; update registry + RFC"
    );
    assert_eq!(
        ephemeral, 32,
        "Ephemeral count drifted; update registry + RFC"
    );
    assert_eq!(stubbed, 1, "Stubbed count drifted; update registry + RFC");
    assert_eq!(projected + ephemeral + stubbed, 158);
}

#[test]
fn error_display_includes_variant_list() {
    let err = assert_no_stubs_for_persistent_backend(Backend::Postgres).unwrap_err();
    let msg = err.to_string();
    assert!(msg.contains("PermissionDecisionRecorded"));
    assert!(msg.contains("Postgres") || msg.contains("postgres"));
}
