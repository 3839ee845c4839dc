//! What the queries select: triggers.

use crate::domain::ProjectView;
use crate::laws::finding::group_queries;
use crate::model::{Database, Datum, Row};
use crate::query::{Order, OutputView};
use crate::read::triggers::{RunTemplateRow, TriggerRow};
use crate::schema::{Column, Table};
use vstd::prelude::*;

verus! {

/// The rows that [`TriggerRow::get_trigger`] selects, and in which order.
pub proof fn trigger_row_get_trigger_selects(db: Database, row: Row, trigger_id: Seq<char>)
    ensures
        ({
            let query = TriggerRow::spec_get_trigger(trigger_id);
            &&& query.table == Table::Triggers
            &&& query.output == OutputView::Rows(TriggerRow::spec_columns())
            &&& query.selects(db, row)
                <==> crate::model::value(row, Column::TriggerId) == Datum::Text(trigger_id)
            &&& query.order.len() == 0
            &&& query.limit == None::<i64>
            &&& query.offset == None::<i64>
        }),
{
    broadcast use group_queries;
}

/// The rows that [`TriggerRow::list_triggers_by_project`] selects, and in which order.
pub proof fn trigger_row_list_triggers_by_project_selects(
    db: Database,
    row: Row,
    project: ProjectView,
)
    ensures
        ({
            let query = TriggerRow::spec_list_triggers_by_project(project);
            &&& query.table == Table::Triggers
            &&& query.output == OutputView::Rows(TriggerRow::spec_columns())
            &&& query.selects(db, row)
                <==> crate::model::value(row, Column::TenantId) == Datum::Text(project.tenant_id)
                && crate::model::value(row, Column::WorkspaceId)
                    == Datum::Text(project.workspace_id)
                && crate::model::value(row, Column::ProjectId) == Datum::Text(project.project_id)
            &&& query.order.len() == 1
            &&& query.order[0] == Order::Ascending(Column::TriggerId)
            &&& query.limit == None::<i64>
            &&& query.offset == None::<i64>
        }),
{
    broadcast use group_queries;
}

/// The rows that [`TriggerRow::list_matching_enabled`] selects, and in which order.
pub proof fn trigger_row_list_matching_enabled_selects(
    db: Database,
    row: Row,
    project: ProjectView,
    signal_type: Seq<char>,
    plugin_id: Seq<char>,
)
    ensures
        ({
            let query = TriggerRow::spec_list_matching_enabled(project, signal_type, plugin_id);
            &&& query.table == Table::Triggers
            &&& query.output == OutputView::Rows(TriggerRow::spec_columns())
            &&& query.selects(db, row)
                <==> crate::model::value(row, Column::TenantId) == Datum::Text(project.tenant_id)
                && crate::model::value(row, Column::WorkspaceId)
                    == Datum::Text(project.workspace_id)
                && crate::model::value(row, Column::ProjectId) == Datum::Text(project.project_id)
                && crate::model::value(row, Column::State) == Datum::Text("enabled"@)
                && crate::model::value(row, Column::SignalType) == Datum::Text(signal_type)
                && (crate::model::value(row, Column::PluginId) == Datum::Null
                    || crate::model::value(row, Column::PluginId) == Datum::Text(plugin_id))
            &&& query.order.len() == 1
            &&& query.order[0] == Order::Ascending(Column::TriggerId)
            &&& query.limit == None::<i64>
            &&& query.offset == None::<i64>
        }),
{
    broadcast use group_queries;
}

/// The rows that [`RunTemplateRow::get_template`] selects, and in which order.
pub proof fn run_template_row_get_template_selects(db: Database, row: Row, template_id: Seq<char>)
    ensures
        ({
            let query = RunTemplateRow::spec_get_template(template_id);
            &&& query.table == Table::RunTemplates
            &&& query.output == OutputView::Rows(RunTemplateRow::spec_columns())
            &&& query.selects(db, row)
                <==> crate::model::value(row, Column::TemplateId) == Datum::Text(template_id)
            &&& query.order.len() == 0
            &&& query.limit == None::<i64>
            &&& query.offset == None::<i64>
        }),
{
    broadcast use group_queries;
}

/// The rows that [`RunTemplateRow::list_templates_by_project`] selects, and in which order.
pub proof fn run_template_row_list_templates_by_project_selects(
    db: Database,
    row: Row,
    project: ProjectView,
)
    ensures
        ({
            let query = RunTemplateRow::spec_list_templates_by_project(project);
            &&& query.table == Table::RunTemplates
            &&& query.output == OutputView::Rows(RunTemplateRow::spec_columns())
            &&& query.selects(db, row)
                <==> crate::model::value(row, Column::TenantId) == Datum::Text(project.tenant_id)
                && crate::model::value(row, Column::WorkspaceId)
                    == Datum::Text(project.workspace_id)
                && crate::model::value(row, Column::ProjectId) == Datum::Text(project.project_id)
            &&& query.order.len() == 1
            &&& query.order[0] == Order::Ascending(Column::TemplateId)
            &&& query.limit == None::<i64>
            &&& query.offset == None::<i64>
        }),
{
    broadcast use group_queries;
}

/// The rows that [`crate::read::triggers::triggers_referencing_template`] selects, and in which order.
pub proof fn triggers_referencing_template_selects(db: Database, row: Row, template_id: Seq<char>)
    ensures
        ({
            let query = crate::read::triggers::referring_query(template_id);
            &&& query.table == Table::Triggers
            &&& query.output == OutputView::Rows(seq![Column::TriggerId])
            &&& query.selects(db, row)
                <==> crate::model::value(row, Column::RunTemplateId) == Datum::Text(template_id)
            &&& query.order.len() == 0
            &&& query.limit == None::<i64>
            &&& query.offset == None::<i64>
        }),
{
    broadcast use group_queries;
}

/// The rows that [`crate::read::triggers::has_fired`] selects, and in which order.
pub proof fn has_fired_selects(db: Database, row: Row, trigger_id: Seq<char>, signal_id: Seq<char>)
    ensures
        ({
            let query = crate::read::triggers::fired_query(trigger_id, signal_id);
            &&& query.table == Table::TriggerFires
            &&& query.output == OutputView::Exists
            &&& query.selects(db, row)
                <==> crate::model::value(row, Column::TriggerId) == Datum::Text(trigger_id)
                    && crate::model::value(row, Column::SignalId) == Datum::Text(signal_id)
                    && crate::model::value(row, Column::Outcome) == Datum::Text("fired"@)
            &&& query.order.len() == 0
            &&& query.limit == None::<i64>
            &&& query.offset == None::<i64>
        }),
{
    broadcast use group_queries;
}

/// The rows that [`crate::read::triggers::count_fires_since`] selects, and in which order.
pub proof fn count_fires_since_selects(db: Database, row: Row, trigger_id: Seq<char>, since_ms: u64)
    ensures
        ({
            let query = crate::read::triggers::fires_query(trigger_id, since_ms);
            &&& query.table == Table::TriggerFires
            &&& query.output == OutputView::Count
            &&& query.selects(db, row)
                <==> crate::model::value(row, Column::TriggerId) == Datum::Text(trigger_id)
                    && crate::model::value(row, Column::Outcome) == Datum::Text("fired"@)
                    && crate::laws::selecting::is_above(
                        crate::model::value(row, Column::AtMs),
                        since_ms as i64 as int,
                    )
            &&& query.order.len() == 0
            &&& query.limit == None::<i64>
            &&& query.offset == None::<i64>
        }),
{
    broadcast use group_queries;
}

/// The rows that [`crate::read::triggers::count_project_fires_since`] selects, and in which order.
pub proof fn count_project_fires_since_selects(
    db: Database,
    row: Row,
    project: ProjectView,
    since_ms: u64,
)
    ensures
        ({
            let query = crate::read::triggers::project_fires_query(project, since_ms);
            &&& query.table == Table::TriggerFires
            &&& query.output == OutputView::Count
            &&& query.selects(db, row)
                <==> crate::model::value(row, Column::TenantId) == Datum::Text(project.tenant_id)
                    && crate::model::value(row, Column::WorkspaceId)
                        == Datum::Text(project.workspace_id)
                    && crate::model::value(row, Column::ProjectId)
                        == Datum::Text(project.project_id)
                    && crate::model::value(row, Column::Outcome) == Datum::Text("fired"@)
                    && crate::laws::selecting::is_above(
                        crate::model::value(row, Column::AtMs),
                        since_ms as i64 as int,
                    )
            &&& query.order.len() == 0
            &&& query.limit == None::<i64>
            &&& query.offset == None::<i64>
        }),
{
    broadcast use group_queries;
}

} // verus!
