//! What each event writes to the projection tables.

pub mod approvals;
pub mod checkpoints;
pub mod costs;
pub mod evals;
pub mod knowledge;
pub mod messages;
pub mod policies;
pub mod prompts;
pub mod providers;
pub mod recovery;
pub mod runs;
pub mod sessions;
pub mod tasks;
pub mod tenants;
pub mod tools;
pub mod triggers;

use crate::error::StoreError;
use crate::event_log::{EventEnvelope, StoredEvent};
use crate::events::{Lookup, LookupView};
use crate::model::{Database, Datum};
use crate::plan::{Found, Moment, Planned};
use crate::query::{Output, OutputView, Query, QueryView};
use crate::schema::{Column, Table};
use crate::statement::{only, Statement};
use crate::value::{text, ValueView};
use vstd::prelude::*;

verus! {

/// A projection that is kept up to date within the transaction that stores an
/// event.
pub trait SyncProjection: Send + Sync {
    /// Projects a stored event.
    fn apply(&self, event: &StoredEvent) -> Result<(), StoreError>;
}

/// The projection into the tables of a Postgres database. An event is projected
/// in two steps: its lookup is answered, and the planned statements are run.
pub struct PgSyncProjection;

impl LookupView {
    /// The queries that answer the lookup, in order.
    pub open spec fn queries(self) -> Seq<QueryView> {
        match self {
            LookupView::RunScope { run_id } => seq![
                QueryView::on(
                    Table::Runs,
                    OutputView::Rows(
                        seq![Column::TenantId, Column::WorkspaceId, Column::ProjectId],
                    ),
                ).equals(Column::RunId, ValueView::Text(run_id)),
            ],
            LookupView::InvocationScope { invocation_id } => seq![
                QueryView::on(
                    Table::ToolInvocations,
                    OutputView::Rows(
                        seq![Column::TenantId, Column::WorkspaceId, Column::ProjectId],
                    ),
                ).equals(Column::InvocationId, ValueView::Text(invocation_id)),
            ],
            LookupView::NextPromptVersion { prompt_asset_id } => seq![
                QueryView::on(
                    Table::PromptAssets,
                    OutputView::Locked(Column::PromptAssetId),
                ).equals(Column::PromptAssetId, ValueView::Text(prompt_asset_id)),
                QueryView::on(
                    Table::PromptVersions,
                    OutputView::NextAfterGreatest(Column::VersionNumber),
                ).equals(Column::PromptAssetId, ValueView::Text(prompt_asset_id)),
            ],
            LookupView::RunSession { run_id } => seq![
                QueryView::on(
                    Table::Runs,
                    OutputView::Rows(seq![Column::SessionId]),
                ).equals(Column::RunId, ValueView::Text(run_id)),
            ],
        }
    }

    /// Whether `found` is what a database answers the lookup with.
    pub open spec fn answered(self, db: Database, found: Found) -> bool {
        match self {
            LookupView::RunScope { run_id } => scope_of(
                crate::model::first_with(db.rows(Table::Runs), Column::RunId, Datum::Text(run_id)),
                found,
            ),
            LookupView::InvocationScope { invocation_id } => scope_of(
                crate::model::first_with(
                    db.rows(Table::ToolInvocations),
                    Column::InvocationId,
                    Datum::Text(invocation_id),
                ),
                found,
            ),
            LookupView::NextPromptVersion { prompt_asset_id } => found.next_version
                == greatest_version(db.rows(Table::PromptVersions), prompt_asset_id) + 1,
            LookupView::RunSession { run_id } => crate::model::of_run(db, run_id, Column::SessionId)
                == match found.session_id {
                Some(s) => Datum::Text(s@),
                None => Datum::Null,
            },
        }
    }
}

/// Whether `found` holds the project of a row, if there is one.
pub open spec fn scope_of(row: Option<crate::model::Row>, found: Found) -> bool {
    match (row, found.scope) {
        (Some(r), Some(p)) => {
            &&& crate::model::value(r, Column::TenantId) == Datum::Text(p.tenant_id@)
            &&& crate::model::value(r, Column::WorkspaceId) == Datum::Text(p.workspace_id@)
            &&& crate::model::value(r, Column::ProjectId) == Datum::Text(p.project_id@)
        },
        (None, None) => true,
        _ => false,
    }
}

/// The greatest version of a prompt asset; zero where it has none.
pub open spec fn greatest_version(rows: Seq<crate::model::Row>, prompt_asset_id: Seq<char>) -> int
    decreases rows.len(),
{
    if rows.len() == 0 {
        0
    } else {
        let before = greatest_version(rows.drop_last(), prompt_asset_id);
        match crate::model::value(rows.last(), Column::VersionNumber) {
            Datum::Int(n) => if crate::model::value(rows.last(), Column::PromptAssetId)
                == Datum::Text(prompt_asset_id) && n > before {
                n
            } else {
                before
            },
            _ => before,
        }
    }
}

/// The views of queries.
pub open spec fn query_views(s: Seq<Query>) -> Seq<QueryView> {
    s.map_values(|q: Query| q@)
}

fn scope_columns() -> (r: Vec<Column>)
    ensures
        r@ == seq![Column::TenantId, Column::WorkspaceId, Column::ProjectId],
{
    vec![Column::TenantId, Column::WorkspaceId, Column::ProjectId]
}

impl PgSyncProjection {
    /// The queries that answer a lookup, in order.
    pub fn queries(lookup: &Lookup) -> (r: Vec<Query>)
        ensures
            query_views(r@) == lookup@.queries(),
    {
        let mut queries: Vec<Query> = Vec::new();
        match lookup {
            Lookup::RunScope { run_id } => {
                queries.push(
                    Query::on(Table::Runs, Output::Rows(scope_columns())).equals(
                        Column::RunId,
                        text(run_id),
                    ),
                );
            },
            Lookup::InvocationScope { invocation_id } => {
                queries.push(
                    Query::on(Table::ToolInvocations, Output::Rows(scope_columns())).equals(
                        Column::InvocationId,
                        text(invocation_id),
                    ),
                );
            },
            Lookup::NextPromptVersion { prompt_asset_id } => {
                queries.push(
                    Query::on(Table::PromptAssets, Output::Locked(Column::PromptAssetId)).equals(
                        Column::PromptAssetId,
                        text(prompt_asset_id),
                    ),
                );
                queries.push(
                    Query::on(
                        Table::PromptVersions,
                        Output::NextAfterGreatest(Column::VersionNumber),
                    ).equals(Column::PromptAssetId, text(prompt_asset_id)),
                );
            },
            Lookup::RunSession { run_id } => {
                queries.push(
                    Query::on(Table::Runs, Output::Rows(only(Column::SessionId))).equals(
                        Column::RunId,
                        text(run_id),
                    ),
                );
            },
        }
        assert(query_views(queries@) =~= lookup@.queries());
        queries
    }

    /// What has to be looked up before an event can be projected.
    pub fn lookup(envelope: &EventEnvelope) -> (r: Option<Lookup>)
        ensures
            match r {
                Some(l) => envelope.payload.reads_first() == Some(l@),
                None => envelope.payload.reads_first() is None,
            },
    {
        envelope.payload.lookup()
    }

    /// The statements that project an event.
    pub fn plan(envelope: &EventEnvelope, at: &Moment, found: &Found) -> (r: Result<
        Vec<Statement>,
        StoreError,
    >)
        ensures
            Planned::of(r) == envelope.payload.writes(*at, *found),
    {
        envelope.payload.plan(at, found)
    }
}

} // verus!
