//! Schema migrations: which are known, which are pending, and how one is run.

use crate::error::{ErrorView, StoreError};
use crate::script::split_sql_statements;
use crate::sql::{Sql, SqlView};
use crate::text::push_decimal;
use crate::value::{text, SqlValue, ValueView};
use vstd::prelude::*;
use vstd::string::*;

verus! {

/// The table that records which migrations were applied.
pub const HISTORY_TABLE_SQL: &'static str = "CREATE TABLE IF NOT EXISTS _cairn_migrations (\
    version INTEGER PRIMARY KEY, name TEXT NOT NULL, applied_at BIGINT NOT NULL)";

/// The applied migrations, in the order of their versions.
pub const HISTORY_SQL: &'static str =
    "SELECT version, name, applied_at FROM _cairn_migrations ORDER BY version";

/// A known migration. Its script is a file of the application.
#[derive(Clone, Copy, Debug, PartialEq, Eq)]
pub struct Migration {
    pub version: u32,
    pub name: &'static str,
}

impl View for Migration {
    type V = (u32, Seq<char>);

    open spec fn view(&self) -> (u32, Seq<char>) {
        (self.version, self.name@)
    }
}

/// A migration that was applied.
#[derive(Debug, PartialEq, Eq)]
pub struct AppliedMigration {
    pub version: u32,
    pub name: String,
    pub applied_at: u64,
}

/// The mathematical value of an [`AppliedMigration`].
pub struct AppliedView {
    pub version: u32,
    pub name: Seq<char>,
    pub applied_at: u64,
}

impl View for AppliedMigration {
    type V = AppliedView;

    open spec fn view(&self) -> AppliedView {
        AppliedView { version: self.version, name: self.name@, applied_at: self.applied_at }
    }
}

/// The known migrations, by version and name.
pub open spec fn registry() -> Seq<(u32, Seq<char>)> {
    seq![
        (1u32, "create_event_log"@),
        (2u32, "create_sessions"@),
        (3u32, "create_runs"@),
        (4u32, "create_tasks"@),
        (5u32, "create_approvals"@),
        (6u32, "create_checkpoints"@),
        (7u32, "create_mailbox"@),
        (8u32, "create_tool_invocations"@),
        (9u32, "create_migration_history"@),
        (10u32, "create_documents"@),
        (11u32, "create_chunks"@),
        (12u32, "create_graph_nodes"@),
        (13u32, "create_graph_edges"@),
        (14u32, "add_chunks_fts"@),
        (15u32, "add_task_approval_titles"@),
        (16u32, "create_prompt_and_routing_state"@),
        (17u32, "create_org_hierarchy"@),
        (18u32, "create_route_policies"@),
        (19u32, "create_workspace_members"@),
        (20u32, "add_checkpoint_data_json"@),
        (21u32, "add_task_session_id"@),
        (22u32, "create_ff_lease_history_cursors"@),
        (23u32, "harden_prompt_schema"@),
        (24u32, "create_tool_call_approvals"@),
        (25u32, "create_cost_projections"@),
        (26u32, "create_recovery_and_decision_projections"@),
        (27u32, "add_run_completion_annotation"@),
        (28u32, "create_tool_invocation_cache_hits"@),
        (29u32, "tool_invocation_args_output"@),
        (30u32, "add_terminal_write_recovery"@),
        (31u32, "f65_session_extensions"@),
        (32u32, "f65_orchestrator_projections"@),
        (33u32, "create_tool_invocation_progress"@),
        (34u32, "create_eval_runs"@),
        (35u32, "create_credentials"@),
        (36u32, "create_tenant_quotas"@),
        (37u32, "create_provider_budgets"@),
        (38u32, "create_licenses"@),
        (39u32, "create_trigger_projections"@),
        (40u32, "create_provider_bindings_and_connections"@),
        (41u32, "create_audit_log_entries"@),
        (42u32, "create_scheduled_tasks"@),
        (43u32, "create_outcomes"@),
        (44u32, "create_plan_reviews"@),
        (45u32, "create_approval_delegations"@),
        (46u32, "create_guardrails"@),
        (47u32, "create_retention_policies"@),
        (48u32, "create_entitlement_overrides"@),
        (49u32, "create_external_workers"@),
    ]
}

/// The views of migrations.
pub open spec fn migration_views(s: Seq<Migration>) -> Seq<(u32, Seq<char>)> {
    s.map_values(|m: Migration| m@)
}

/// The views of applied migrations.
pub open spec fn applied_views(s: Seq<AppliedMigration>) -> Seq<AppliedView> {
    s.map_values(|m: AppliedMigration| m@)
}

/// The known migrations, in the order in which they are applied.
pub fn registered_migrations() -> (r: Vec<Migration>)
    ensures
        migration_views(r@) == registry(),
        r.len() == 49,
        r[0]@ == (1u32, "create_event_log"@),
        r[1]@ == (2u32, "create_sessions"@),
        r[2]@ == (3u32, "create_runs"@),
        r[3]@ == (4u32, "create_tasks"@),
        r[4]@ == (5u32, "create_approvals"@),
        r[5]@ == (6u32, "create_checkpoints"@),
        r[6]@ == (7u32, "create_mailbox"@),
        r[7]@ == (8u32, "create_tool_invocations"@),
        r[8]@ == (9u32, "create_migration_history"@),
        r[9]@ == (10u32, "create_documents"@),
        r[10]@ == (11u32, "create_chunks"@),
        r[11]@ == (12u32, "create_graph_nodes"@),
        r[12]@ == (13u32, "create_graph_edges"@),
        r[13]@ == (14u32, "add_chunks_fts"@),
        r[14]@ == (15u32, "add_task_approval_titles"@),
        r[15]@ == (16u32, "create_prompt_and_routing_state"@),
        r[16]@ == (17u32, "create_org_hierarchy"@),
        r[17]@ == (18u32, "create_route_policies"@),
        r[18]@ == (19u32, "create_workspace_members"@),
        r[19]@ == (20u32, "add_checkpoint_data_json"@),
        r[20]@ == (21u32, "add_task_session_id"@),
        r[21]@ == (22u32, "create_ff_lease_history_cursors"@),
        r[22]@ == (23u32, "harden_prompt_schema"@),
        r[23]@ == (24u32, "create_tool_call_approvals"@),
        r[24]@ == (25u32, "create_cost_projections"@),
        r[25]@ == (26u32, "create_recovery_and_decision_projections"@),
        r[26]@ == (27u32, "add_run_completion_annotation"@),
        r[27]@ == (28u32, "create_tool_invocation_cache_hits"@),
        r[28]@ == (29u32, "tool_invocation_args_output"@),
        r[29]@ == (30u32, "add_terminal_write_recovery"@),
        r[30]@ == (31u32, "f65_session_extensions"@),
        r[31]@ == (32u32, "f65_orchestrator_projections"@),
        r[32]@ == (33u32, "create_tool_invocation_progress"@),
        r[33]@ == (34u32, "create_eval_runs"@),
        r[34]@ == (35u32, "create_credentials"@),
        r[35]@ == (36u32, "create_tenant_quotas"@),
        r[36]@ == (37u32, "create_provider_budgets"@),
        r[37]@ == (38u32, "create_licenses"@),
        r[38]@ == (39u32, "create_trigger_projections"@),
        r[39]@ == (40u32, "create_provider_bindings_and_connections"@),
        r[40]@ == (41u32, "create_audit_log_entries"@),
        r[41]@ == (42u32, "create_scheduled_tasks"@),
        r[42]@ == (43u32, "create_outcomes"@),
        r[43]@ == (44u32, "create_plan_reviews"@),
        r[44]@ == (45u32, "create_approval_delegations"@),
        r[45]@ == (46u32, "create_guardrails"@),
        r[46]@ == (47u32, "create_retention_policies"@),
        r[47]@ == (48u32, "create_entitlement_overrides"@),
        r[48]@ == (49u32, "create_external_workers"@),
{
    let r = vec![
        Migration { version: 1, name: "create_event_log" },
        Migration { version: 2, name: "create_sessions" },
        Migration { version: 3, name: "create_runs" },
        Migration { version: 4, name: "create_tasks" },
        Migration { version: 5, name: "create_approvals" },
        Migration { version: 6, name: "create_checkpoints" },
        Migration { version: 7, name: "create_mailbox" },
        Migration { version: 8, name: "create_tool_invocations" },
        Migration { version: 9, name: "create_migration_history" },
        Migration { version: 10, name: "create_documents" },
        Migration { version: 11, name: "create_chunks" },
        Migration { version: 12, name: "create_graph_nodes" },
        Migration { version: 13, name: "create_graph_edges" },
        Migration { version: 14, name: "add_chunks_fts" },
        Migration { version: 15, name: "add_task_approval_titles" },
        Migration { version: 16, name: "create_prompt_and_routing_state" },
        Migration { version: 17, name: "create_org_hierarchy" },
        Migration { version: 18, name: "create_route_policies" },
        Migration { version: 19, name: "create_workspace_members" },
        Migration { version: 20, name: "add_checkpoint_data_json" },
        Migration { version: 21, name: "add_task_session_id" },
        Migration { version: 22, name: "create_ff_lease_history_cursors" },
        Migration { version: 23, name: "harden_prompt_schema" },
        Migration { version: 24, name: "create_tool_call_approvals" },
        Migration { version: 25, name: "create_cost_projections" },
        Migration { version: 26, name: "create_recovery_and_decision_projections" },
        Migration { version: 27, name: "add_run_completion_annotation" },
        Migration { version: 28, name: "create_tool_invocation_cache_hits" },
        Migration { version: 29, name: "tool_invocation_args_output" },
        Migration { version: 30, name: "add_terminal_write_recovery" },
        Migration { version: 31, name: "f65_session_extensions" },
        Migration { version: 32, name: "f65_orchestrator_projections" },
        Migration { version: 33, name: "create_tool_invocation_progress" },
        Migration { version: 34, name: "create_eval_runs" },
        Migration { version: 35, name: "create_credentials" },
        Migration { version: 36, name: "create_tenant_quotas" },
        Migration { version: 37, name: "create_provider_budgets" },
        Migration { version: 38, name: "create_licenses" },
        Migration { version: 39, name: "create_trigger_projections" },
        Migration { version: 40, name: "create_provider_bindings_and_connections" },
        Migration { version: 41, name: "create_audit_log_entries" },
        Migration { version: 42, name: "create_scheduled_tasks" },
        Migration { version: 43, name: "create_outcomes" },
        Migration { version: 44, name: "create_plan_reviews" },
        Migration { version: 45, name: "create_approval_delegations" },
        Migration { version: 46, name: "create_guardrails" },
        Migration { version: 47, name: "create_retention_policies" },
        Migration { version: 48, name: "create_entitlement_overrides" },
        Migration { version: 49, name: "create_external_workers" },
    ];
    assert(migration_views(r@) =~= registry());
    r
}

/// The versions count up from one, without a gap.
pub proof fn versions_are_consecutive(i: int)
    requires
        0 <= i < registry().len(),
    ensures
        registry()[i].0 == i + 1,
{
}

/// Each version is the migration of its name, and there are no others.
pub proof fn each_version_has_its_name()
    ensures
        registry().len() == 49,
        registry()[0] == (1u32, "create_event_log"@),
        registry()[1] == (2u32, "create_sessions"@),
        registry()[2] == (3u32, "create_runs"@),
        registry()[3] == (4u32, "create_tasks"@),
        registry()[4] == (5u32, "create_approvals"@),
        registry()[5] == (6u32, "create_checkpoints"@),
        registry()[6] == (7u32, "create_mailbox"@),
        registry()[7] == (8u32, "create_tool_invocations"@),
        registry()[8] == (9u32, "create_migration_history"@),
        registry()[9] == (10u32, "create_documents"@),
        registry()[10] == (11u32, "create_chunks"@),
        registry()[11] == (12u32, "create_graph_nodes"@),
        registry()[12] == (13u32, "create_graph_edges"@),
        registry()[13] == (14u32, "add_chunks_fts"@),
        registry()[14] == (15u32, "add_task_approval_titles"@),
        registry()[15] == (16u32, "create_prompt_and_routing_state"@),
        registry()[16] == (17u32, "create_org_hierarchy"@),
        registry()[17] == (18u32, "create_route_policies"@),
        registry()[18] == (19u32, "create_workspace_members"@),
        registry()[19] == (20u32, "add_checkpoint_data_json"@),
        registry()[20] == (21u32, "add_task_session_id"@),
        registry()[21] == (22u32, "create_ff_lease_history_cursors"@),
        registry()[22] == (23u32, "harden_prompt_schema"@),
        registry()[23] == (24u32, "create_tool_call_approvals"@),
        registry()[24] == (25u32, "create_cost_projections"@),
        registry()[25] == (26u32, "create_recovery_and_decision_projections"@),
        registry()[26] == (27u32, "add_run_completion_annotation"@),
        registry()[27] == (28u32, "create_tool_invocation_cache_hits"@),
        registry()[28] == (29u32, "tool_invocation_args_output"@),
        registry()[29] == (30u32, "add_terminal_write_recovery"@),
        registry()[30] == (31u32, "f65_session_extensions"@),
        registry()[31] == (32u32, "f65_orchestrator_projections"@),
        registry()[32] == (33u32, "create_tool_invocation_progress"@),
        registry()[33] == (34u32, "create_eval_runs"@),
        registry()[34] == (35u32, "create_credentials"@),
        registry()[35] == (36u32, "create_tenant_quotas"@),
        registry()[36] == (37u32, "create_provider_budgets"@),
        registry()[37] == (38u32, "create_licenses"@),
        registry()[38] == (39u32, "create_trigger_projections"@),
        registry()[39] == (40u32, "create_provider_bindings_and_connections"@),
        registry()[40] == (41u32, "create_audit_log_entries"@),
        registry()[41] == (42u32, "create_scheduled_tasks"@),
        registry()[42] == (43u32, "create_outcomes"@),
        registry()[43] == (44u32, "create_plan_reviews"@),
        registry()[44] == (45u32, "create_approval_delegations"@),
        registry()[45] == (46u32, "create_guardrails"@),
        registry()[46] == (47u32, "create_retention_policies"@),
        registry()[47] == (48u32, "create_entitlement_overrides"@),
        registry()[48] == (49u32, "create_external_workers"@),
{
}

/// A migration with a version of up to three digits is reported, and its script
/// is kept, under a `V`, the three digits of the version, two underscores and
/// the name.
pub proof fn a_label_tells_version_and_name(
    migration: (u32, Seq<char>),
    hundreds: nat,
    tens: nat,
    ones: nat,
)
    requires
        hundreds < 10,
        tens < 10,
        ones < 10,
        migration.0 == 100 * hundreds + 10 * tens + ones,
    ensures
        label_of(migration) == seq![
            'V',
            (48 + hundreds) as char,
            (48 + tens) as char,
            (48 + ones) as char,
            '_',
            '_',
        ] + migration.1,
{
    reveal_strlit("V");
    reveal_strlit("00");
    reveal_strlit("0");
    reveal_strlit("__");
    reveal_with_fuel(crate::text::decimal, 3);
    let n = migration.0 as nat;
    assert(n / 10 == 10 * hundreds + tens && n % 10 == ones);
    assert((n / 10) / 10 == hundreds && (n / 10) % 10 == tens);
    assert(three_digits(n) =~= seq![
        (48 + hundreds) as char,
        (48 + tens) as char,
        (48 + ones) as char,
    ]);
}

/// The greatest version of some applied migrations; zero for none.
pub open spec fn greatest_version(applied: Seq<AppliedView>) -> u32
    decreases applied.len(),
{
    if applied.len() == 0 {
        0
    } else {
        let before = greatest_version(applied.drop_last());
        if applied.last().version > before {
            applied.last().version
        } else {
            before
        }
    }
}

/// The greatest version is that of an applied migration, and none is above it.
pub proof fn the_greatest_version_is_applied(applied: Seq<AppliedView>)
    ensures
        forall|i: int|
            0 <= i < applied.len() ==> (#[trigger] applied[i]).version <= greatest_version(applied),
        applied.len() == 0 ==> greatest_version(applied) == 0,
        applied.len() > 0 ==> exists|i: int|
            0 <= i < applied.len() && (#[trigger] applied[i]).version == greatest_version(applied),
    decreases applied.len(),
{
    if applied.len() > 0 {
        let front = applied.drop_last();
        let last = applied.last();
        the_greatest_version_is_applied(front);
        assert(applied[applied.len() - 1] == last);
        assert forall|i: int| 0 <= i < applied.len() implies (#[trigger] applied[i]).version
            <= greatest_version(applied) by {
            if i < front.len() {
                assert(front[i] == applied[i]);
            }
        }
        if last.version <= greatest_version(front) && front.len() > 0 {
            let i = choose|i: int|
                0 <= i < front.len() && (#[trigger] front[i]).version == greatest_version(front);
            assert(applied[i].version == greatest_version(applied));
        }
    }
}

/// A migration is pending where its version is above that of every applied one.
pub proof fn what_is_pending(applied: Seq<AppliedView>, i: int)
    requires
        0 <= i < registry().len(),
    ensures
        above(greatest_version(applied)).contains(registry()[i]) <==> forall|k: int|
            0 <= k < applied.len() ==> (#[trigger] applied[k]).version < registry()[i].0,
{
    let version = greatest_version(applied);
    let wanted = |m: (u32, Seq<char>)| m.0 > version;
    the_greatest_version_is_applied(applied);
    versions_are_consecutive(i);
    if registry()[i].0 > version {
        registry().lemma_filter_contains(wanted, i);
    }
    if above(version).contains(registry()[i]) {
        let j = choose|j: int| 0 <= j < above(version).len() && above(version)[j] == registry()[i];
        registry().lemma_filter_pred(wanted, j);
    }
    if forall|k: int|
        0 <= k < applied.len() ==> (#[trigger] applied[k]).version < registry()[i].0 {
        if applied.len() > 0 {
            let k = choose|k: int| 0 <= k < applied.len() && (#[trigger] applied[k]).version
                == version;
            assert(applied[k].version < registry()[i].0);
        }
    }
}

/// The known migrations above a version, in order.
pub open spec fn above(version: u32) -> Seq<(u32, Seq<char>)> {
    registry().filter(|m: (u32, Seq<char>)| m.0 > version)
}

/// What a row of the history table says.
pub fn applied_migration(version: i32, name: String, applied_at: i64) -> (r: AppliedMigration)
    ensures
        r@ == (AppliedView {
            version: version as u32,
            name: name@,
            applied_at: applied_at as u64,
        }),
{
    AppliedMigration { version: version as u32, name, applied_at: applied_at as u64 }
}

/// The migrations that are still to be applied: those above the greatest
/// version that was applied.
pub fn pending(applied: &Vec<AppliedMigration>) -> (r: Vec<Migration>)
    ensures
        migration_views(r@) == above(greatest_version(applied_views(applied@))),
{
    let mut greatest: u32 = 0;
    let mut i: usize = 0;
    let ghost views = applied_views(applied@);
    assert(views.take(0) =~= Seq::empty());
    while i < applied.len()
        invariant
            i <= applied.len(),
            views == applied_views(applied@),
            greatest == greatest_version(views.take(i as int)),
        decreases applied.len() - i,
    {
        assert(views.take(i + 1).drop_last() =~= views.take(i as int));
        if applied[i].version > greatest {
            greatest = applied[i].version;
        }
        i = i + 1;
    }
    assert(views.take(views.len() as int) =~= views);
    let all = registered_migrations();
    let mut out: Vec<Migration> = Vec::new();
    let ghost wanted = |m: (u32, Seq<char>)| m.0 > greatest;
    let mut k: usize = 0;
    assert(migration_views(out@) =~= registry().take(0).filter(wanted)) by {
        reveal(Seq::filter);
    }
    while k < all.len()
        invariant
            k <= all.len(),
            migration_views(all@) == registry(),
            wanted == (|m: (u32, Seq<char>)| m.0 > greatest),
            migration_views(out@) == registry().take(k as int).filter(wanted),
        decreases all.len() - k,
    {
        let ghost seen = registry().take(k as int);
        assert(registry().take(k + 1) =~= seen.push(registry()[k as int]));
        assert(migration_views(all@)[k as int] == all@[k as int]@);
        proof {
            reveal(Seq::filter);
            assert(seen.push(registry()[k as int]).drop_last() =~= seen);
        }
        let ghost before = migration_views(out@);
        if all[k].version > greatest {
            out.push(all[k]);
            assert(migration_views(out@) =~= before.push(registry()[k as int]));
        }
        k = k + 1;
    }
    assert(registry().take(registry().len() as int) =~= registry());
    out
}

/// A migration that is about to be run.
#[derive(Debug, PartialEq, Eq)]
pub struct MigrationRun {
    /// The statements of its script.
    pub statements: Vec<String>,
    /// The row that records it in the history table.
    pub record: Sql,
    /// What is reported once the transaction is committed.
    pub applied: AppliedMigration,
}

/// A number with at least three digits.
pub open spec fn three_digits(n: nat) -> Seq<char> {
    if n < 10 {
        "00"@ + crate::text::decimal(n)
    } else if n < 100 {
        "0"@ + crate::text::decimal(n)
    } else {
        crate::text::decimal(n)
    }
}

/// The name under which a migration is reported and its script is kept.
pub open spec fn label_of(migration: (u32, Seq<char>)) -> Seq<char> {
    "V"@ + three_digits(migration.0 as nat) + "__"@ + migration.1
}

impl Migration {
    /// The name under which the migration is reported and its script is kept.
    pub fn label(&self) -> (r: String)
        ensures
            r@ == label_of(self@),
    {
        let mut out: String = "V".to_owned();
        if self.version < 10 {
            out.append("00");
        } else if self.version < 100 {
            out.append("0");
        }
        push_decimal(&mut out, self.version as u64);
        out.append("__");
        out.append(self.name);
        assert(out@ =~= label_of(self@));
        out
    }

    /// The error of a statement of the script that failed with `message`.
    pub fn failure(&self, message: &str) -> (r: StoreError)
        ensures
            r@ == ErrorView::Migration(label_of(self@) + ": "@ + message@),
    {
        let mut out = self.label();
        out.append(": ");
        out.append(message);
        StoreError::Migration(out)
    }

    /// What running the migration with its `script` at the time `now` takes.
    pub fn run(&self, script: &str, now: u64) -> (r: MigrationRun)
        ensures
            r.statements.deep_view() == crate::script::statements(script@),
            r.record@ == (SqlView {
                text:
                    "INSERT INTO _cairn_migrations (version, name, applied_at) VALUES ($1, $2, $3)"@,
                params: seq![
                    ValueView::Int4(self.version as i32),
                    ValueView::Text(self.name@),
                    ValueView::Int8(now as i64),
                ],
            }),
            r.applied@ == (AppliedView {
                version: self.version,
                name: self.name@,
                applied_at: now,
            }),
    {
        let record = Sql {
            text:
                "INSERT INTO _cairn_migrations (version, name, applied_at) VALUES ($1, $2, $3)".to_owned(),
            params: vec![
                SqlValue::Int4(self.version as i32),
                text(self.name),
                SqlValue::Int8(now as i64),
            ],
        };
        assert(record@.params =~= seq![
            ValueView::Int4(self.version as i32),
            ValueView::Text(self.name@),
            ValueView::Int8(now as i64),
        ]);
        MigrationRun {
            statements: split_sql_statements(script),
            record,
            applied: AppliedMigration {
                version: self.version,
                name: self.name.to_owned(),
                applied_at: now,
            },
        }
    }
}

/// Where the applied migrations go up to version `k`, the pending ones are the
/// known ones after the first `k`.
pub proof fn pending_follow_the_applied(k: u32)
    requires
        k <= registry().len(),
    ensures
        above(k) == registry().skip(k as int),
{
    let wanted = |m: (u32, Seq<char>)| m.0 > k;
    let n = registry().len();
    filter_of_suffix(k, n);
    assert(registry().take(n as int) =~= registry());
}

proof fn filter_of_suffix(k: u32, n: nat)
    requires
        k <= registry().len(),
        n <= registry().len(),
    ensures
        registry().take(n as int).filter(|m: (u32, Seq<char>)| m.0 > k) == registry().take(
            n as int,
        ).skip(
            if k < n {
                k as int
            } else {
                n as int
            },
        ),
    decreases n,
{
    reveal(Seq::filter);
    let seen = registry().take(n as int);
    if n > 0 {
        filter_of_suffix(k, (n - 1) as nat);
        assert(seen.drop_last() =~= registry().take(n - 1));
        assert(registry()[n - 1].0 == n);
    }
    assert(seen.filter(|m: (u32, Seq<char>)| m.0 > k) =~= seen.skip(
        if k < n {
            k as int
        } else {
            n as int
        },
    ));
}

/// Once every known migration was applied, none is pending.
pub proof fn nothing_is_pending_at_the_last_version(k: u32)
    requires
        registry().len() <= k,
    ensures
        above(k) == Seq::<(u32, Seq<char>)>::empty(),
{
    let wanted = |m: (u32, Seq<char>)| m.0 > k;
    assert forall|i: int| 0 <= i < registry().len() implies !wanted(registry()[i]) by {
        versions_are_consecutive(i);
    }
    nothing_passes(registry(), wanted);
}

proof fn nothing_passes(s: Seq<(u32, Seq<char>)>, wanted: spec_fn((u32, Seq<char>)) -> bool)
    requires
        forall|i: int| 0 <= i < s.len() ==> !wanted(#[trigger] s[i]),
    ensures
        s.filter(wanted) == Seq::<(u32, Seq<char>)>::empty(),
    decreases s.len(),
{
    reveal(Seq::filter);
    if s.len() > 0 {
        nothing_passes(s.drop_last(), wanted);
    }
}

proof fn no_version_is_above_the_greatest(applied: Seq<AppliedView>, i: int)
    requires
        0 <= i < applied.len(),
    ensures
        applied[i].version <= greatest_version(applied),
    decreases applied.len(),
{
    if i < applied.len() - 1 {
        no_version_is_above_the_greatest(applied.drop_last(), i);
    }
}

/// What a migration is recorded as, by version and name.
pub open spec fn recorded(applied: Seq<AppliedView>) -> Seq<(u32, Seq<char>)> {
    applied.map_values(|m: AppliedView| (m.version, m.name))
}

/// After the pending migrations were run, none is pending: a second run applies
/// nothing.
pub proof fn nothing_is_pending_after_a_run(applied: Seq<AppliedView>, ran: Seq<AppliedView>)
    requires
        recorded(ran) == above(greatest_version(applied)),
    ensures
        above(greatest_version(applied + ran)) == Seq::<(u32, Seq<char>)>::empty(),
{
    let before = greatest_version(applied);
    if before < registry().len() {
        pending_follow_the_applied(before);
        let last = ran.len() - 1;
        assert(recorded(ran).len() == registry().len() - before);
        assert(recorded(ran)[last] == registry()[registry().len() - 1]);
        versions_are_consecutive(registry().len() - 1);
        assert((applied + ran)[applied.len() + last] == ran[last]);
        no_version_is_above_the_greatest(applied + ran, applied.len() + last);
    } else {
        nothing_is_pending_at_the_last_version(before);
        assert(recorded(ran).len() == ran.len());
        assert(applied + ran =~= applied);
    }
    nothing_is_pending_at_the_last_version(greatest_version(applied + ran));
}

} // verus!
