//! What cost events write.

use crate::domain::ProjectKey;
use crate::error::{ErrorView, StoreError};
use crate::plan::{one, Moment, Planned};
use crate::schema::{Column, Table};
use crate::statement::{
    only, Cells, Changes, ChangesView, Filter, FilterView, RowView, Source, SourceView,
    Statement, StatementView,
};
use crate::text::{fits_i64, push_decimal};
use crate::value::{text, SqlValue, ValueView};
use vstd::prelude::*;
use vstd::string::*;

verus! {

/// A run spent more.
#[derive(Debug, PartialEq, Eq)]
pub struct RunCostUpdated {
    pub delta_cost_micros: u64,
    pub delta_tokens_in: u64,
    pub delta_tokens_out: u64,
    pub updated_at_ms: u64,
    pub run_id: String,
}

impl RunCostUpdated {
    /// What the event writes.
    pub open spec fn writes(self, at: Moment) -> Planned {
        if self.delta_cost_micros > i64::MAX {
            Planned::Refused(
                ErrorView::exceeds(
                    "RunCostUpdated.delta_cost_micros"@,
                    self.delta_cost_micros as nat,
                    "i64::MAX"@,
                ),
            )
        } else if self.delta_tokens_in > i64::MAX {
            Planned::Refused(
                ErrorView::exceeds(
                    "RunCostUpdated.delta_tokens_in"@,
                    self.delta_tokens_in as nat,
                    "i64::MAX"@,
                ),
            )
        } else if self.delta_tokens_out > i64::MAX {
            Planned::Refused(
                ErrorView::exceeds(
                    "RunCostUpdated.delta_tokens_out"@,
                    self.delta_tokens_out as nat,
                    "i64::MAX"@,
                ),
            )
        } else if self.updated_at_ms > i64::MAX {
            Planned::Refused(
                ErrorView::exceeds(
                    "RunCostUpdated.updated_at_ms"@,
                    self.updated_at_ms as nat,
                    "i64::MAX"@,
                ),
            )
        } else {
            Planned::Writes(
                seq![
                    RowView::new()
                        .put(Column::RunId, ValueView::Text(self.run_id@))
                        .put(
                            Column::TotalCostMicros,
                            ValueView::Int8(self.delta_cost_micros as i64),
                        )
                        .put(Column::TotalTokensIn, ValueView::Int8(self.delta_tokens_in as i64))
                        .put(Column::TotalTokensOut, ValueView::Int8(self.delta_tokens_out as i64))
                        .put(Column::ProviderCalls, ValueView::Int8(1))
                        .put(Column::UpdatedAtMs, ValueView::Int8(self.updated_at_ms as i64))
                        .upsert(
                            Table::RunCosts,
                            seq![Column::RunId],
                            ChangesView::new()
                                .source(Column::TotalCostMicros, SourceView::PlusExcluded)
                                .source(Column::TotalTokensIn, SourceView::PlusExcluded)
                                .source(Column::TotalTokensOut, SourceView::PlusExcluded)
                                .source(Column::ProviderCalls, SourceView::Plus(ValueView::Int8(1)))
                                .excluded(Column::UpdatedAtMs),
                        ),
                ],
            )
        }
    }

    /// Plans what the event writes.
    pub fn plan(&self, at: &Moment) -> (r: Result<Vec<Statement>, StoreError>)
        ensures
            Planned::of(r) == self.writes(*at),
    {
        let delta_cost: i64 = match fits_i64(
            "RunCostUpdated.delta_cost_micros",
            self.delta_cost_micros,
        ) {
            Ok(v) => v,
            Err(e) => return Err(e),
        };
        let delta_in: i64 = match fits_i64("RunCostUpdated.delta_tokens_in", self.delta_tokens_in) {
            Ok(v) => v,
            Err(e) => return Err(e),
        };
        let delta_out: i64 = match fits_i64(
            "RunCostUpdated.delta_tokens_out",
            self.delta_tokens_out,
        ) {
            Ok(v) => v,
            Err(e) => return Err(e),
        };
        let updated_at: i64 = match fits_i64("RunCostUpdated.updated_at_ms", self.updated_at_ms) {
            Ok(v) => v,
            Err(e) => return Err(e),
        };
        let mut row = Cells::new();
        row.put(Column::RunId, text(&self.run_id));
        row.put(Column::TotalCostMicros, SqlValue::Int8(delta_cost));
        row.put(Column::TotalTokensIn, SqlValue::Int8(delta_in));
        row.put(Column::TotalTokensOut, SqlValue::Int8(delta_out));
        row.put(Column::ProviderCalls, SqlValue::Int8(1));
        row.put(Column::UpdatedAtMs, SqlValue::Int8(updated_at));
        let mut changes = Changes::new();
        changes.source(Column::TotalCostMicros, Source::PlusExcluded);
        changes.source(Column::TotalTokensIn, Source::PlusExcluded);
        changes.source(Column::TotalTokensOut, Source::PlusExcluded);
        changes.source(Column::ProviderCalls, Source::Plus(SqlValue::Int8(1)));
        changes.excluded(Column::UpdatedAtMs);
        one(row.upsert(Table::RunCosts, only(Column::RunId), changes))
    }
}

/// A cost alert was set on a run. It counts as not triggered.
#[derive(Debug, PartialEq, Eq)]
pub struct RunCostAlertSet {
    pub threshold_micros: u64,
    pub set_at_ms: u64,
    pub run_id: String,
    pub tenant_id: String,
}

impl RunCostAlertSet {
    /// What the event writes.
    pub open spec fn writes(self, at: Moment) -> Planned {
        if self.threshold_micros > i64::MAX {
            Planned::Refused(
                ErrorView::exceeds(
                    "RunCostAlertSet.threshold_micros"@,
                    self.threshold_micros as nat,
                    "i64::MAX"@,
                ),
            )
        } else if self.set_at_ms > i64::MAX {
            Planned::Refused(
                ErrorView::exceeds(
                    "RunCostAlertSet.set_at_ms"@,
                    self.set_at_ms as nat,
                    "i64::MAX"@,
                ),
            )
        } else {
            Planned::Writes(
                seq![
                    RowView::new()
                        .put(Column::RunId, ValueView::Text(self.run_id@))
                        .put(Column::TenantId, ValueView::Text(self.tenant_id@))
                        .put(Column::ThresholdMicros, ValueView::Int8(self.threshold_micros as i64))
                        .put(Column::TriggeredAtMs, ValueView::Int8(0))
                        .put(Column::ActualCostMicros, ValueView::Int8(0))
                        .put(Column::SetAtMs, ValueView::Int8(self.set_at_ms as i64))
                        .upsert(
                            Table::RunCostAlerts,
                            seq![Column::RunId],
                            ChangesView::new()
                                .excluded(Column::TenantId)
                                .excluded(Column::ThresholdMicros)
                                .put(Column::TriggeredAtMs, ValueView::Int8(0))
                                .put(Column::ActualCostMicros, ValueView::Int8(0))
                                .excluded(Column::SetAtMs),
                        ),
                ],
            )
        }
    }

    /// Plans what the event writes.
    pub fn plan(&self, at: &Moment) -> (r: Result<Vec<Statement>, StoreError>)
        ensures
            Planned::of(r) == self.writes(*at),
    {
        let threshold: i64 = match fits_i64(
            "RunCostAlertSet.threshold_micros",
            self.threshold_micros,
        ) {
            Ok(v) => v,
            Err(e) => return Err(e),
        };
        let set_at: i64 = match fits_i64("RunCostAlertSet.set_at_ms", self.set_at_ms) {
            Ok(v) => v,
            Err(e) => return Err(e),
        };
        let mut row = Cells::new();
        row.put(Column::RunId, text(&self.run_id));
        row.put(Column::TenantId, text(&self.tenant_id));
        row.put(Column::ThresholdMicros, SqlValue::Int8(threshold));
        row.put(Column::TriggeredAtMs, SqlValue::Int8(0));
        row.put(Column::ActualCostMicros, SqlValue::Int8(0));
        row.put(Column::SetAtMs, SqlValue::Int8(set_at));
        let mut changes = Changes::new();
        changes.excluded(Column::TenantId);
        changes.excluded(Column::ThresholdMicros);
        changes.put(Column::TriggeredAtMs, SqlValue::Int8(0));
        changes.put(Column::ActualCostMicros, SqlValue::Int8(0));
        changes.excluded(Column::SetAtMs);
        one(row.upsert(Table::RunCostAlerts, only(Column::RunId), changes))
    }
}

/// The cost alert of a run was triggered.
#[derive(Debug, PartialEq, Eq)]
pub struct RunCostAlertTriggered {
    pub actual_cost_micros: u64,
    pub triggered_at_ms: u64,
    pub run_id: String,
}

impl RunCostAlertTriggered {
    /// What the event writes.
    pub open spec fn writes(self, at: Moment) -> Planned {
        if self.actual_cost_micros > i64::MAX {
            Planned::Refused(
                ErrorView::exceeds(
                    "RunCostAlertTriggered.actual_cost_micros"@,
                    self.actual_cost_micros as nat,
                    "i64::MAX"@,
                ),
            )
        } else if self.triggered_at_ms > i64::MAX {
            Planned::Refused(
                ErrorView::exceeds(
                    "RunCostAlertTriggered.triggered_at_ms"@,
                    self.triggered_at_ms as nat,
                    "i64::MAX"@,
                ),
            )
        } else {
            Planned::Writes(
                seq![
                    ChangesView::new()
                        .put(Column::TriggeredAtMs, ValueView::Int8(self.triggered_at_ms as i64))
                        .put(
                            Column::ActualCostMicros,
                            ValueView::Int8(self.actual_cost_micros as i64),
                        )
                        .update(
                            Table::RunCostAlerts,
                            FilterView::new().equals(Column::RunId, ValueView::Text(self.run_id@)),
                        ),
                ],
            )
        }
    }

    /// Plans what the event writes.
    pub fn plan(&self, at: &Moment) -> (r: Result<Vec<Statement>, StoreError>)
        ensures
            Planned::of(r) == self.writes(*at),
    {
        let actual: i64 = match fits_i64(
            "RunCostAlertTriggered.actual_cost_micros",
            self.actual_cost_micros,
        ) {
            Ok(v) => v,
            Err(e) => return Err(e),
        };
        let triggered_at: i64 = match fits_i64(
            "RunCostAlertTriggered.triggered_at_ms",
            self.triggered_at_ms,
        ) {
            Ok(v) => v,
            Err(e) => return Err(e),
        };
        let mut changes = Changes::new();
        changes.put(Column::TriggeredAtMs, SqlValue::Int8(triggered_at));
        changes.put(Column::ActualCostMicros, SqlValue::Int8(actual));
        let mut filter = Filter::new();
        filter.equals(Column::RunId, text(&self.run_id));
        one(changes.update(Table::RunCostAlerts, filter))
    }
}

/// What was spent in a session of a project since the last report.
#[derive(Debug, PartialEq, Eq)]
pub struct SessionCostUpdated {
    pub session_id: String,
    pub tenant_id: String,
    pub project: ProjectKey,
    pub delta_cost_micros: u64,
    pub delta_tokens_in: u64,
    pub delta_tokens_out: u64,
    pub updated_at_ms: u64,
}

/// The message of an amount that its column cannot hold.
pub open spec fn cost_exceeds(field: Seq<char>, value: nat) -> ErrorView {
    ErrorView::Internal(
        "session cost "@ + field + " value "@ + crate::text::decimal(value)
            + " exceeds i64::MAX"@,
    )
}

fn cost_fits(field: &str, value: u64) -> (r: Result<i64, StoreError>)
    ensures
        match r {
            Ok(v) => v == value,
            Err(e) => value > i64::MAX && e@ == cost_exceeds(field@, value as nat),
        },
{
    if value <= i64::MAX as u64 {
        Ok(value as i64)
    } else {
        let mut message: String = "session cost ".to_owned();
        message.append(field);
        message.append(" value ");
        push_decimal(&mut message, value);
        message.append(" exceeds i64::MAX");
        Err(StoreError::Internal(message))
    }
}

/// How a stored total takes up what was spent: the amounts are added, a call is
/// counted and the time never goes back.
pub open spec fn accumulation() -> ChangesView {
    ChangesView::new()
        .source(Column::TotalCostMicros, SourceView::PlusExcluded)
        .source(Column::TotalTokensIn, SourceView::PlusExcluded)
        .source(Column::TotalTokensOut, SourceView::PlusExcluded)
        .source(Column::ProviderCalls, SourceView::Plus(ValueView::Int8(1)))
        .source(Column::UpdatedAtMs, SourceView::GreatestExcluded)
}

fn accumulate() -> (r: Changes)
    ensures
        r@ == accumulation(),
{
    let mut changes = Changes::new();
    changes.source(Column::TotalCostMicros, Source::PlusExcluded);
    changes.source(Column::TotalTokensIn, Source::PlusExcluded);
    changes.source(Column::TotalTokensOut, Source::PlusExcluded);
    changes.source(Column::ProviderCalls, Source::Plus(SqlValue::Int8(1)));
    changes.source(Column::UpdatedAtMs, Source::GreatestExcluded);
    changes
}

impl SessionCostUpdated {
    /// `row` with what was spent, as one call.
    pub open spec fn with_amounts(self, row: RowView) -> RowView {
        row
            .put(Column::TotalCostMicros, ValueView::Int8(self.delta_cost_micros as i64))
            .put(Column::TotalTokensIn, ValueView::Int8(self.delta_tokens_in as i64))
            .put(Column::TotalTokensOut, ValueView::Int8(self.delta_tokens_out as i64))
            .put(Column::ProviderCalls, ValueView::Int8(1))
            .put(Column::UpdatedAtMs, ValueView::Int8(self.updated_at_ms as i64))
    }

    /// The totals of the session, the project and the workspace.
    pub open spec fn rollups(self) -> Seq<StatementView> {
        seq![
            self.with_amounts(
                RowView::new()
                    .put(Column::SessionId, ValueView::Text(self.session_id@))
                    .put(Column::TenantId, ValueView::Text(self.tenant_id@))
                    .put(Column::WorkspaceId, ValueView::Text(self.project.workspace_id@))
                    .put(Column::ProjectId, ValueView::Text(self.project.project_id@)),
            ).upsert(Table::SessionCosts, seq![Column::SessionId], accumulation()),
            self.with_amounts(
                RowView::new()
                    .put(Column::TenantId, ValueView::Text(self.tenant_id@))
                    .put(Column::WorkspaceId, ValueView::Text(self.project.workspace_id@))
                    .put(Column::ProjectId, ValueView::Text(self.project.project_id@)),
            ).upsert(
                Table::ProjectCosts,
                seq![Column::TenantId, Column::WorkspaceId, Column::ProjectId],
                accumulation(),
            ),
            self.with_amounts(
                RowView::new()
                    .put(Column::TenantId, ValueView::Text(self.tenant_id@))
                    .put(Column::WorkspaceId, ValueView::Text(self.project.workspace_id@)),
            ).upsert(
                Table::WorkspaceCosts,
                seq![Column::TenantId, Column::WorkspaceId],
                accumulation(),
            ),
        ]
    }

    /// What the event writes.
    pub open spec fn writes(self) -> Planned {
        if self.delta_cost_micros > i64::MAX {
            Planned::Refused(cost_exceeds("delta_cost_micros"@, self.delta_cost_micros as nat))
        } else if self.delta_tokens_in > i64::MAX {
            Planned::Refused(cost_exceeds("delta_tokens_in"@, self.delta_tokens_in as nat))
        } else if self.delta_tokens_out > i64::MAX {
            Planned::Refused(cost_exceeds("delta_tokens_out"@, self.delta_tokens_out as nat))
        } else if self.updated_at_ms > i64::MAX {
            Planned::Refused(cost_exceeds("updated_at_ms"@, self.updated_at_ms as nat))
        } else {
            Planned::Writes(self.rollups())
        }
    }

    fn put_amounts(&self, row: &mut Cells)
        ensures
            final(row)@ == self.with_amounts(old(row)@),
    {
        row.put(Column::TotalCostMicros, SqlValue::Int8(self.delta_cost_micros as i64));
        row.put(Column::TotalTokensIn, SqlValue::Int8(self.delta_tokens_in as i64));
        row.put(Column::TotalTokensOut, SqlValue::Int8(self.delta_tokens_out as i64));
        row.put(Column::ProviderCalls, SqlValue::Int8(1));
        row.put(Column::UpdatedAtMs, SqlValue::Int8(self.updated_at_ms as i64));
    }

    /// Plans what the event writes.
    pub fn plan(&self) -> (r: Result<Vec<Statement>, StoreError>)
        ensures
            Planned::of(r) == self.writes(),
    {
        if let Err(e) = cost_fits("delta_cost_micros", self.delta_cost_micros) {
            return Err(e);
        }
        if let Err(e) = cost_fits("delta_tokens_in", self.delta_tokens_in) {
            return Err(e);
        }
        if let Err(e) = cost_fits("delta_tokens_out", self.delta_tokens_out) {
            return Err(e);
        }
        if let Err(e) = cost_fits("updated_at_ms", self.updated_at_ms) {
            return Err(e);
        }
        let mut session = Cells::new();
        session.put(Column::SessionId, text(&self.session_id));
        session.put(Column::TenantId, text(&self.tenant_id));
        session.put(Column::WorkspaceId, text(&self.project.workspace_id));
        session.put(Column::ProjectId, text(&self.project.project_id));
        self.put_amounts(&mut session);
        let mut project = Cells::new();
        project.put(Column::TenantId, text(&self.tenant_id));
        project.put(Column::WorkspaceId, text(&self.project.workspace_id));
        project.put(Column::ProjectId, text(&self.project.project_id));
        self.put_amounts(&mut project);
        let mut workspace = Cells::new();
        workspace.put(Column::TenantId, text(&self.tenant_id));
        workspace.put(Column::WorkspaceId, text(&self.project.workspace_id));
        self.put_amounts(&mut workspace);
        let mut out: Vec<Statement> = Vec::new();
        out.push(session.upsert(Table::SessionCosts, only(Column::SessionId), accumulate()));
        out.push(
            project.upsert(
                Table::ProjectCosts,
                vec![Column::TenantId, Column::WorkspaceId, Column::ProjectId],
                accumulate(),
            ),
        );
        out.push(
            workspace.upsert(
                Table::WorkspaceCosts,
                vec![Column::TenantId, Column::WorkspaceId],
                accumulate(),
            ),
        );
        assert(StatementView::all(out@) =~= self.rollups());
        Ok(out)
    }
}

} // verus!
