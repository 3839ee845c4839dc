//! What the events store: costs.

use crate::error::ErrorView;
use crate::laws::rows::{group_filters, group_rows};
use crate::model::{Database, Datum, Row};
use crate::plan::{Moment, Planned};
use crate::projections::costs::{
    RunCostAlertSet, RunCostAlertTriggered, RunCostUpdated, SessionCostUpdated,
};
use crate::schema::{Column, Table};
use crate::statement::GuardView;
use vstd::prelude::*;

verus! {

/// What a [`RunCostUpdated`] event stores.
pub proof fn run_cost_updated_is_stored(
    e: RunCostUpdated,
    at: Moment,
    db: Database,
    was: Row,
    other: Column,
)
    ensures
        e.delta_cost_micros > i64::MAX
            ==> e.writes(at)
                == Planned::Refused(
                    crate::laws::storing::too_great(
                        "RunCostUpdated.delta_cost_micros"@,
                        e.delta_cost_micros as nat,
                        "i64::MAX"@,
                    ),
                ),
        e.delta_cost_micros <= i64::MAX && e.delta_tokens_in > i64::MAX
            ==> e.writes(at)
                == Planned::Refused(
                    crate::laws::storing::too_great(
                        "RunCostUpdated.delta_tokens_in"@,
                        e.delta_tokens_in as nat,
                        "i64::MAX"@,
                    ),
                ),
        e.delta_cost_micros <= i64::MAX && e.delta_tokens_in <= i64::MAX
            && e.delta_tokens_out > i64::MAX
            ==> e.writes(at)
                == Planned::Refused(
                    crate::laws::storing::too_great(
                        "RunCostUpdated.delta_tokens_out"@,
                        e.delta_tokens_out as nat,
                        "i64::MAX"@,
                    ),
                ),
        e.delta_cost_micros <= i64::MAX && e.delta_tokens_in <= i64::MAX
            && e.delta_tokens_out <= i64::MAX && e.updated_at_ms > i64::MAX
            ==> e.writes(at)
                == Planned::Refused(
                    crate::laws::storing::too_great(
                        "RunCostUpdated.updated_at_ms"@,
                        e.updated_at_ms as nat,
                        "i64::MAX"@,
                    ),
                ),
        e.delta_cost_micros <= i64::MAX && e.delta_tokens_in <= i64::MAX
            && e.delta_tokens_out <= i64::MAX && e.updated_at_ms <= i64::MAX
            ==> ({
            let s = e.writes(at).statements()[0];
            let merged = crate::laws::rows::left_by(db, s, Some(was));
            let new = crate::laws::rows::left_by(db, s, None);
            &&& e.writes(at) is Writes
            &&& e.writes(at).statements().len() == 1
            &&& s is Insert && s.table() == Table::RunCosts
            &&& crate::model::value(new, Column::RunId) == Datum::Text(e.run_id@)
            &&& crate::model::value(new, Column::TotalCostMicros)
                == Datum::Int(e.delta_cost_micros as i64 as int)
            &&& crate::model::value(new, Column::TotalTokensIn)
                == Datum::Int(e.delta_tokens_in as i64 as int)
            &&& crate::model::value(new, Column::TotalTokensOut)
                == Datum::Int(e.delta_tokens_out as i64 as int)
            &&& crate::model::value(new, Column::ProviderCalls) == Datum::Int(1)
            &&& crate::model::value(new, Column::UpdatedAtMs)
                == Datum::Int(e.updated_at_ms as i64 as int)
            &&& other is RunId || other is TotalCostMicros || other is TotalTokensIn
                || other is TotalTokensOut || other is ProviderCalls || other is UpdatedAtMs
                || crate::model::value(new, other) == db.default_of(Table::RunCosts, other)
            &&& s->Insert_conflict is Merge
            &&& s->Insert_conflict->Merge_key == seq![Column::RunId]
            &&& s->Insert_conflict->Merge_guard == GuardView::Always
            &&& crate::model::value(merged, Column::TotalCostMicros)
                == crate::model::plus(
                    crate::model::value(was, Column::TotalCostMicros),
                    Datum::Int(e.delta_cost_micros as i64 as int),
                )
            &&& crate::model::value(merged, Column::TotalTokensIn)
                == crate::model::plus(
                    crate::model::value(was, Column::TotalTokensIn),
                    Datum::Int(e.delta_tokens_in as i64 as int),
                )
            &&& crate::model::value(merged, Column::TotalTokensOut)
                == crate::model::plus(
                    crate::model::value(was, Column::TotalTokensOut),
                    Datum::Int(e.delta_tokens_out as i64 as int),
                )
            &&& crate::model::value(merged, Column::ProviderCalls)
                == crate::model::plus(
                    crate::model::value(was, Column::ProviderCalls),
                    Datum::Int(1),
                )
            &&& crate::model::value(merged, Column::UpdatedAtMs)
                == Datum::Int(e.updated_at_ms as i64 as int)
            &&& other is TotalCostMicros || other is TotalTokensIn || other is TotalTokensOut
                || other is ProviderCalls || other is UpdatedAtMs
                || crate::model::value(merged, other) == crate::model::value(was, other)
        }),
{
    broadcast use {group_rows, group_filters};
}

/// What a [`RunCostAlertSet`] event stores.
pub proof fn run_cost_alert_set_is_stored(
    e: RunCostAlertSet,
    at: Moment,
    db: Database,
    was: Row,
    other: Column,
)
    ensures
        e.threshold_micros > i64::MAX
            ==> e.writes(at)
                == Planned::Refused(
                    crate::laws::storing::too_great(
                        "RunCostAlertSet.threshold_micros"@,
                        e.threshold_micros as nat,
                        "i64::MAX"@,
                    ),
                ),
        e.threshold_micros <= i64::MAX && e.set_at_ms > i64::MAX
            ==> e.writes(at)
                == Planned::Refused(
                    crate::laws::storing::too_great(
                        "RunCostAlertSet.set_at_ms"@,
                        e.set_at_ms as nat,
                        "i64::MAX"@,
                    ),
                ),
        e.threshold_micros <= i64::MAX && e.set_at_ms <= i64::MAX ==> ({
            let s = e.writes(at).statements()[0];
            let merged = crate::laws::rows::left_by(db, s, Some(was));
            let new = crate::laws::rows::left_by(db, s, None);
            &&& e.writes(at) is Writes
            &&& e.writes(at).statements().len() == 1
            &&& s is Insert && s.table() == Table::RunCostAlerts
            &&& crate::model::value(new, Column::RunId) == Datum::Text(e.run_id@)
            &&& crate::model::value(new, Column::TenantId) == Datum::Text(e.tenant_id@)
            &&& crate::model::value(new, Column::ThresholdMicros)
                == Datum::Int(e.threshold_micros as i64 as int)
            &&& crate::model::value(new, Column::TriggeredAtMs) == Datum::Int(0)
            &&& crate::model::value(new, Column::ActualCostMicros) == Datum::Int(0)
            &&& crate::model::value(new, Column::SetAtMs) == Datum::Int(e.set_at_ms as i64 as int)
            &&& other is RunId || other is TenantId || other is ThresholdMicros
                || other is TriggeredAtMs || other is ActualCostMicros || other is SetAtMs
                || crate::model::value(new, other) == db.default_of(Table::RunCostAlerts, other)
            &&& s->Insert_conflict is Merge
            &&& s->Insert_conflict->Merge_key == seq![Column::RunId]
            &&& s->Insert_conflict->Merge_guard == GuardView::Always
            &&& crate::model::value(merged, Column::TenantId) == Datum::Text(e.tenant_id@)
            &&& crate::model::value(merged, Column::ThresholdMicros)
                == Datum::Int(e.threshold_micros as i64 as int)
            &&& crate::model::value(merged, Column::TriggeredAtMs) == Datum::Int(0)
            &&& crate::model::value(merged, Column::ActualCostMicros) == Datum::Int(0)
            &&& crate::model::value(merged, Column::SetAtMs)
                == Datum::Int(e.set_at_ms as i64 as int)
            &&& other is TenantId || other is ThresholdMicros || other is TriggeredAtMs
                || other is ActualCostMicros || other is SetAtMs
                || crate::model::value(merged, other) == crate::model::value(was, other)
        }),
{
    broadcast use {group_rows, group_filters};
}

/// What a [`RunCostAlertTriggered`] event stores.
pub proof fn run_cost_alert_triggered_is_stored(
    e: RunCostAlertTriggered,
    at: Moment,
    db: Database,
    was: Row,
    other: Column,
)
    ensures
        e.actual_cost_micros > i64::MAX
            ==> e.writes(at)
                == Planned::Refused(
                    crate::laws::storing::too_great(
                        "RunCostAlertTriggered.actual_cost_micros"@,
                        e.actual_cost_micros as nat,
                        "i64::MAX"@,
                    ),
                ),
        e.actual_cost_micros <= i64::MAX && e.triggered_at_ms > i64::MAX
            ==> e.writes(at)
                == Planned::Refused(
                    crate::laws::storing::too_great(
                        "RunCostAlertTriggered.triggered_at_ms"@,
                        e.triggered_at_ms as nat,
                        "i64::MAX"@,
                    ),
                ),
        e.actual_cost_micros <= i64::MAX && e.triggered_at_ms <= i64::MAX ==> ({
            let s = e.writes(at).statements()[0];
            let updated = crate::laws::rows::updated_by(db, s, was);
            let selected = crate::model::value(was, Column::RunId) == Datum::Text(e.run_id@);
            &&& e.writes(at) is Writes
            &&& e.writes(at).statements().len() == 1
            &&& s is Update && s.table() == Table::RunCostAlerts
            &&& selected ==> {
                &&& crate::model::value(updated, Column::TriggeredAtMs)
                    == Datum::Int(e.triggered_at_ms as i64 as int)
                &&& crate::model::value(updated, Column::ActualCostMicros)
                    == Datum::Int(e.actual_cost_micros as i64 as int)
                &&& other is TriggeredAtMs || other is ActualCostMicros
                    || crate::model::value(updated, other) == crate::model::value(was, other)
            }
            &&& !selected ==> updated == was
        }),
{
    broadcast use {group_rows, group_filters};
}

/// What a [`SessionCostUpdated`] event stores.
pub proof fn session_cost_updated_is_stored(
    e: SessionCostUpdated,
    db: Database,
    was: Row,
    other: Column,
)
    ensures
        e.delta_cost_micros > i64::MAX
            ==> e.writes()
                == Planned::Refused(
                    ErrorView::Internal(
                        "session cost "@ + "delta_cost_micros"@ + " value "@ + crate::text::decimal(
                            e.delta_cost_micros as nat,
                        ) + " exceeds i64::MAX"@,
                    ),
                ),
        e.delta_cost_micros <= i64::MAX && e.delta_tokens_in > i64::MAX
            ==> e.writes()
                == Planned::Refused(
                    ErrorView::Internal(
                        "session cost "@ + "delta_tokens_in"@ + " value "@ + crate::text::decimal(
                            e.delta_tokens_in as nat,
                        ) + " exceeds i64::MAX"@,
                    ),
                ),
        e.delta_cost_micros <= i64::MAX && e.delta_tokens_in <= i64::MAX
            && e.delta_tokens_out > i64::MAX
            ==> e.writes()
                == Planned::Refused(
                    ErrorView::Internal(
                        "session cost "@ + "delta_tokens_out"@ + " value "@ + crate::text::decimal(
                            e.delta_tokens_out as nat,
                        ) + " exceeds i64::MAX"@,
                    ),
                ),
        e.delta_cost_micros <= i64::MAX && e.delta_tokens_in <= i64::MAX
            && e.delta_tokens_out <= i64::MAX && e.updated_at_ms > i64::MAX
            ==> e.writes()
                == Planned::Refused(
                    ErrorView::Internal(
                        "session cost "@ + "updated_at_ms"@ + " value "@ + crate::text::decimal(
                            e.updated_at_ms as nat,
                        ) + " exceeds i64::MAX"@,
                    ),
                ),
        e.delta_cost_micros <= i64::MAX && e.delta_tokens_in <= i64::MAX
            && e.delta_tokens_out <= i64::MAX && e.updated_at_ms <= i64::MAX
            ==> e.writes() is Writes && e.writes().statements().len() == 3,
        e.delta_cost_micros <= i64::MAX && e.delta_tokens_in <= i64::MAX
            && e.delta_tokens_out <= i64::MAX && e.updated_at_ms <= i64::MAX
            ==> ({
            let s = e.writes().statements()[0];
            let new = crate::laws::rows::left_by(db, s, None);
            let merged = crate::laws::rows::left_by(db, s, Some(was));
            &&& s is Insert && s.table() == Table::SessionCosts
            &&& crate::model::value(new, Column::SessionId) == Datum::Text(e.session_id@)
            &&& crate::model::value(new, Column::TenantId) == Datum::Text(e.tenant_id@)
            &&& crate::model::value(new, Column::WorkspaceId)
                == Datum::Text(e.project.workspace_id@)
            &&& crate::model::value(new, Column::ProjectId) == Datum::Text(e.project.project_id@)
            &&& crate::model::value(new, Column::TotalCostMicros)
                == Datum::Int(e.delta_cost_micros as i64 as int)
            &&& crate::model::value(new, Column::TotalTokensIn)
                == Datum::Int(e.delta_tokens_in as i64 as int)
            &&& crate::model::value(new, Column::TotalTokensOut)
                == Datum::Int(e.delta_tokens_out as i64 as int)
            &&& crate::model::value(new, Column::ProviderCalls) == Datum::Int(1)
            &&& crate::model::value(new, Column::UpdatedAtMs)
                == Datum::Int(e.updated_at_ms as i64 as int)
            &&& other is SessionId || other is TenantId || other is WorkspaceId
                || other is ProjectId || other is TotalCostMicros || other is TotalTokensIn
                || other is TotalTokensOut || other is ProviderCalls || other is UpdatedAtMs
                || crate::model::value(new, other) == db.default_of(Table::SessionCosts, other)
            &&& s->Insert_conflict is Merge
            &&& s->Insert_conflict->Merge_key == seq![Column::SessionId]
            &&& s->Insert_conflict->Merge_guard == GuardView::Always
            &&& crate::model::value(merged, Column::TotalCostMicros)
                == crate::model::plus(
                    crate::model::value(was, Column::TotalCostMicros),
                    Datum::Int(e.delta_cost_micros as i64 as int),
                )
            &&& crate::model::value(merged, Column::TotalTokensIn)
                == crate::model::plus(
                    crate::model::value(was, Column::TotalTokensIn),
                    Datum::Int(e.delta_tokens_in as i64 as int),
                )
            &&& crate::model::value(merged, Column::TotalTokensOut)
                == crate::model::plus(
                    crate::model::value(was, Column::TotalTokensOut),
                    Datum::Int(e.delta_tokens_out as i64 as int),
                )
            &&& crate::model::value(merged, Column::ProviderCalls)
                == crate::model::plus(
                    crate::model::value(was, Column::ProviderCalls),
                    Datum::Int(1),
                )
            &&& crate::model::value(merged, Column::UpdatedAtMs)
                == crate::model::greatest(
                    crate::model::value(was, Column::UpdatedAtMs),
                    Datum::Int(e.updated_at_ms as i64 as int),
                )
            &&& other is TotalCostMicros || other is TotalTokensIn || other is TotalTokensOut
                || other is ProviderCalls || other is UpdatedAtMs
                || crate::model::value(merged, other) == crate::model::value(was, other)
        }),
        e.delta_cost_micros <= i64::MAX && e.delta_tokens_in <= i64::MAX
            && e.delta_tokens_out <= i64::MAX && e.updated_at_ms <= i64::MAX
            ==> ({
            let s = e.writes().statements()[1];
            let new = crate::laws::rows::left_by(db, s, None);
            let merged = crate::laws::rows::left_by(db, s, Some(was));
            &&& s is Insert && s.table() == Table::ProjectCosts
            &&& crate::model::value(new, Column::TenantId) == Datum::Text(e.tenant_id@)
            &&& crate::model::value(new, Column::WorkspaceId)
                == Datum::Text(e.project.workspace_id@)
            &&& crate::model::value(new, Column::ProjectId) == Datum::Text(e.project.project_id@)
            &&& crate::model::value(new, Column::TotalCostMicros)
                == Datum::Int(e.delta_cost_micros as i64 as int)
            &&& crate::model::value(new, Column::TotalTokensIn)
                == Datum::Int(e.delta_tokens_in as i64 as int)
            &&& crate::model::value(new, Column::TotalTokensOut)
                == Datum::Int(e.delta_tokens_out as i64 as int)
            &&& crate::model::value(new, Column::ProviderCalls) == Datum::Int(1)
            &&& crate::model::value(new, Column::UpdatedAtMs)
                == Datum::Int(e.updated_at_ms as i64 as int)
            &&& other is TenantId || other is WorkspaceId || other is ProjectId
                || other is TotalCostMicros || other is TotalTokensIn || other is TotalTokensOut
                || other is ProviderCalls || other is UpdatedAtMs
                || crate::model::value(new, other) == db.default_of(Table::ProjectCosts, other)
            &&& s->Insert_conflict is Merge
            &&& s->Insert_conflict->Merge_key
                == seq![Column::TenantId, Column::WorkspaceId, Column::ProjectId]
            &&& s->Insert_conflict->Merge_guard == GuardView::Always
            &&& crate::model::value(merged, Column::TotalCostMicros)
                == crate::model::plus(
                    crate::model::value(was, Column::TotalCostMicros),
                    Datum::Int(e.delta_cost_micros as i64 as int),
                )
            &&& crate::model::value(merged, Column::TotalTokensIn)
                == crate::model::plus(
                    crate::model::value(was, Column::TotalTokensIn),
                    Datum::Int(e.delta_tokens_in as i64 as int),
                )
            &&& crate::model::value(merged, Column::TotalTokensOut)
                == crate::model::plus(
                    crate::model::value(was, Column::TotalTokensOut),
                    Datum::Int(e.delta_tokens_out as i64 as int),
                )
            &&& crate::model::value(merged, Column::ProviderCalls)
                == crate::model::plus(
                    crate::model::value(was, Column::ProviderCalls),
                    Datum::Int(1),
                )
            &&& crate::model::value(merged, Column::UpdatedAtMs)
                == crate::model::greatest(
                    crate::model::value(was, Column::UpdatedAtMs),
                    Datum::Int(e.updated_at_ms as i64 as int),
                )
            &&& other is TotalCostMicros || other is TotalTokensIn || other is TotalTokensOut
                || other is ProviderCalls || other is UpdatedAtMs
                || crate::model::value(merged, other) == crate::model::value(was, other)
        }),
        e.delta_cost_micros <= i64::MAX && e.delta_tokens_in <= i64::MAX
            && e.delta_tokens_out <= i64::MAX && e.updated_at_ms <= i64::MAX
            ==> ({
            let s = e.writes().statements()[2];
            let new = crate::laws::rows::left_by(db, s, None);
            let merged = crate::laws::rows::left_by(db, s, Some(was));
            &&& s is Insert && s.table() == Table::WorkspaceCosts
            &&& crate::model::value(new, Column::TenantId) == Datum::Text(e.tenant_id@)
            &&& crate::model::value(new, Column::WorkspaceId)
                == Datum::Text(e.project.workspace_id@)
            &&& crate::model::value(new, Column::TotalCostMicros)
                == Datum::Int(e.delta_cost_micros as i64 as int)
            &&& crate::model::value(new, Column::TotalTokensIn)
                == Datum::Int(e.delta_tokens_in as i64 as int)
            &&& crate::model::value(new, Column::TotalTokensOut)
                == Datum::Int(e.delta_tokens_out as i64 as int)
            &&& crate::model::value(new, Column::ProviderCalls) == Datum::Int(1)
            &&& crate::model::value(new, Column::UpdatedAtMs)
                == Datum::Int(e.updated_at_ms as i64 as int)
            &&& other is TenantId || other is WorkspaceId || other is TotalCostMicros
                || other is TotalTokensIn || other is TotalTokensOut || other is ProviderCalls
                || other is UpdatedAtMs
                || crate::model::value(new, other) == db.default_of(Table::WorkspaceCosts, other)
            &&& s->Insert_conflict is Merge
            &&& s->Insert_conflict->Merge_key == seq![Column::TenantId, Column::WorkspaceId]
            &&& s->Insert_conflict->Merge_guard == GuardView::Always
            &&& crate::model::value(merged, Column::TotalCostMicros)
                == crate::model::plus(
                    crate::model::value(was, Column::TotalCostMicros),
                    Datum::Int(e.delta_cost_micros as i64 as int),
                )
            &&& crate::model::value(merged, Column::TotalTokensIn)
                == crate::model::plus(
                    crate::model::value(was, Column::TotalTokensIn),
                    Datum::Int(e.delta_tokens_in as i64 as int),
                )
            &&& crate::model::value(merged, Column::TotalTokensOut)
                == crate::model::plus(
                    crate::model::value(was, Column::TotalTokensOut),
                    Datum::Int(e.delta_tokens_out as i64 as int),
                )
            &&& crate::model::value(merged, Column::ProviderCalls)
                == crate::model::plus(
                    crate::model::value(was, Column::ProviderCalls),
                    Datum::Int(1),
                )
            &&& crate::model::value(merged, Column::UpdatedAtMs)
                == crate::model::greatest(
                    crate::model::value(was, Column::UpdatedAtMs),
                    Datum::Int(e.updated_at_ms as i64 as int),
                )
            &&& other is TotalCostMicros || other is TotalTokensIn || other is TotalTokensOut
                || other is ProviderCalls || other is UpdatedAtMs
                || crate::model::value(merged, other) == crate::model::value(was, other)
        }),
{
    broadcast use {group_rows, group_filters};
}

} // verus!
