//! What the queries select: messages.

use crate::domain::ProjectView;
use crate::laws::finding::group_queries;
use crate::model::{Database, Datum, Row};
use crate::query::{Order, OutputView};
use crate::read::messages::{
    ChannelMessageRow, ChannelRow, LlmCompletionBodyRow, MailboxRow, NotificationPrefRow,
    NotificationRecordRow, SignalIngestionRow, UserMessageRow,
};
use crate::schema::{Column, Table};
use vstd::prelude::*;

verus! {

/// The rows that [`MailboxRow::get`] selects, and in which order.
pub proof fn mailbox_row_get_selects(db: Database, row: Row, message_id: Seq<char>)
    ensures
        ({
            let query = MailboxRow::spec_get(message_id);
            &&& query.table == Table::MailboxMessages
            &&& query.output == OutputView::Rows(MailboxRow::spec_columns())
            &&& query.selects(db, row)
                <==> crate::model::value(row, Column::MessageId) == Datum::Text(message_id)
            &&& query.order.len() == 0
            &&& query.limit == None::<i64>
            &&& query.offset == None::<i64>
        }),
{
    broadcast use group_queries;
}

/// The rows that [`MailboxRow::list_by_run`] selects, and in which order.
pub proof fn mailbox_row_list_by_run_selects(
    db: Database,
    row: Row,
    run_id: Seq<char>,
    limit: usize,
    offset: usize,
)
    ensures
        ({
            let query = MailboxRow::spec_list_by_run(run_id, limit, offset);
            &&& query.table == Table::MailboxMessages
            &&& query.output == OutputView::Rows(MailboxRow::spec_columns())
            &&& query.selects(db, row)
                <==> crate::model::value(row, Column::RunId) == Datum::Text(run_id)
            &&& query.order.len() == 2
            &&& query.order[0] == Order::Ascending(Column::CreatedAt)
            &&& query.order[1] == Order::Ascending(Column::MessageId)
            &&& query.limit == Some(limit as i64)
            &&& query.offset == Some(offset as i64)
        }),
{
    broadcast use group_queries;
}

/// The rows that [`MailboxRow::list_by_task`] selects, and in which order.
pub proof fn mailbox_row_list_by_task_selects(
    db: Database,
    row: Row,
    task_id: Seq<char>,
    limit: usize,
    offset: usize,
)
    ensures
        ({
            let query = MailboxRow::spec_list_by_task(task_id, limit, offset);
            &&& query.table == Table::MailboxMessages
            &&& query.output == OutputView::Rows(MailboxRow::spec_columns())
            &&& query.selects(db, row)
                <==> crate::model::value(row, Column::TaskId) == Datum::Text(task_id)
            &&& query.order.len() == 2
            &&& query.order[0] == Order::Ascending(Column::CreatedAt)
            &&& query.order[1] == Order::Ascending(Column::MessageId)
            &&& query.limit == Some(limit as i64)
            &&& query.offset == Some(offset as i64)
        }),
{
    broadcast use group_queries;
}

/// The rows that [`ChannelRow::get_channel`] selects, and in which order.
pub proof fn channel_row_get_channel_selects(db: Database, row: Row, channel_id: Seq<char>)
    ensures
        ({
            let query = ChannelRow::spec_get_channel(channel_id);
            &&& query.table == Table::Channels
            &&& query.output == OutputView::Rows(ChannelRow::spec_columns())
            &&& query.selects(db, row)
                <==> crate::model::value(row, Column::ChannelId) == Datum::Text(channel_id)
            &&& query.order.len() == 0
            &&& query.limit == None::<i64>
            &&& query.offset == None::<i64>
        }),
{
    broadcast use group_queries;
}

/// The rows that [`ChannelRow::list_channels`] selects, and in which order.
pub proof fn channel_row_list_channels_selects(
    db: Database,
    row: Row,
    project: ProjectView,
    limit: usize,
    offset: usize,
)
    ensures
        ({
            let query = ChannelRow::spec_list_channels(project, limit, offset);
            &&& query.table == Table::Channels
            &&& query.output == OutputView::Rows(ChannelRow::spec_columns())
            &&& query.selects(db, row)
                <==> crate::model::value(row, Column::TenantId) == Datum::Text(project.tenant_id)
                && crate::model::value(row, Column::WorkspaceId)
                    == Datum::Text(project.workspace_id)
                && crate::model::value(row, Column::ProjectId) == Datum::Text(project.project_id)
            &&& query.order.len() == 2
            &&& query.order[0] == Order::Ascending(Column::CreatedAtMs)
            &&& query.order[1] == Order::Ascending(Column::ChannelId)
            &&& query.limit == Some(limit as i64)
            &&& query.offset == Some(offset as i64)
        }),
{
    broadcast use group_queries;
}

/// The rows that [`ChannelMessageRow::list_messages`] selects, and in which order.
pub proof fn channel_message_row_list_messages_selects(
    db: Database,
    row: Row,
    channel_id: Seq<char>,
    limit: usize,
)
    ensures
        ({
            let query = ChannelMessageRow::spec_list_messages(channel_id, limit);
            &&& query.table == Table::ChannelMessages
            &&& query.output == OutputView::Rows(ChannelMessageRow::spec_columns())
            &&& query.selects(db, row)
                <==> crate::model::value(row, Column::ChannelId) == Datum::Text(channel_id)
            &&& query.order.len() == 2
            &&& query.order[0] == Order::Ascending(Column::SentAtMs)
            &&& query.order[1] == Order::Ascending(Column::MessageId)
            &&& query.limit == Some(limit as i64)
            &&& query.offset == None::<i64>
        }),
{
    broadcast use group_queries;
}

/// The rows that [`NotificationPrefRow::get_preferences`] selects, and in which order.
pub proof fn notification_pref_row_get_preferences_selects(
    db: Database,
    row: Row,
    tenant_id: Seq<char>,
    operator_id: Seq<char>,
)
    ensures
        ({
            let query = NotificationPrefRow::spec_get_preferences(tenant_id, operator_id);
            &&& query.table == Table::NotificationPreferences
            &&& query.output == OutputView::Rows(NotificationPrefRow::spec_columns())
            &&& query.selects(db, row)
                <==> crate::model::value(row, Column::TenantId) == Datum::Text(tenant_id)
                && crate::model::value(row, Column::OperatorId) == Datum::Text(operator_id)
            &&& query.order.len() == 0
            &&& query.limit == None::<i64>
            &&& query.offset == None::<i64>
        }),
{
    broadcast use group_queries;
}

/// The rows that [`NotificationPrefRow::list_preferences_by_tenant`] selects, and in which order.
pub proof fn notification_pref_row_list_preferences_by_tenant_selects(
    db: Database,
    row: Row,
    tenant_id: Seq<char>,
)
    ensures
        ({
            let query = NotificationPrefRow::spec_list_preferences_by_tenant(tenant_id);
            &&& query.table == Table::NotificationPreferences
            &&& query.output == OutputView::Rows(NotificationPrefRow::spec_columns())
            &&& query.selects(db, row)
                <==> crate::model::value(row, Column::TenantId) == Datum::Text(tenant_id)
            &&& query.order.len() == 1
            &&& query.order[0] == Order::Ascending(Column::OperatorId)
            &&& query.limit == None::<i64>
            &&& query.offset == None::<i64>
        }),
{
    broadcast use group_queries;
}

/// The rows that [`NotificationRecordRow::list_failed_notifications`] selects, and in which order.
pub proof fn notification_record_row_list_failed_notifications_selects(
    db: Database,
    row: Row,
    tenant_id: Seq<char>,
)
    ensures
        ({
            let query = NotificationRecordRow::spec_list_failed_notifications(tenant_id);
            &&& query.table == Table::Notifications
            &&& query.output == OutputView::Rows(NotificationRecordRow::spec_columns())
            &&& query.selects(db, row)
                <==> crate::model::value(row, Column::TenantId) == Datum::Text(tenant_id)
                && crate::model::value(row, Column::Delivered) == Datum::Int(0 as int)
            &&& query.order.len() == 2
            &&& query.order[0] == Order::Ascending(Column::SentAtMs)
            &&& query.order[1] == Order::Ascending(Column::RecordId)
            &&& query.limit == None::<i64>
            &&& query.offset == None::<i64>
        }),
{
    broadcast use group_queries;
}

/// The rows that [`UserMessageRow::list_by_run`] selects, and in which order.
pub proof fn user_message_row_list_by_run_selects(
    db: Database,
    row: Row,
    run_id: Seq<char>,
    limit: usize,
    offset: usize,
)
    ensures
        ({
            let query = UserMessageRow::spec_list_by_run(run_id, limit, offset);
            &&& query.table == Table::UserMessages
            &&& query.output == OutputView::Rows(UserMessageRow::spec_columns())
            &&& query.selects(db, row)
                <==> crate::model::value(row, Column::RunId) == Datum::Text(run_id)
            &&& query.order.len() == 2
            &&& query.order[0] == Order::Ascending(Column::Sequence)
            &&& query.order[1] == Order::Ascending(Column::AppendedAtMs)
            &&& query.limit == Some(limit as i64)
            &&& query.offset == Some(offset as i64)
        }),
{
    broadcast use group_queries;
}

/// The rows that [`UserMessageRow::count_by_run`] selects, and in which order.
pub proof fn user_message_row_count_by_run_selects(db: Database, row: Row, run_id: Seq<char>)
    ensures
        ({
            let query = UserMessageRow::spec_count_by_run(run_id);
            &&& query.table == Table::UserMessages
            &&& query.output == OutputView::Count
            &&& query.selects(db, row)
                <==> crate::model::value(row, Column::RunId) == Datum::Text(run_id)
            &&& query.order.len() == 0
            &&& query.limit == None::<i64>
            &&& query.offset == None::<i64>
        }),
{
    broadcast use group_queries;
}

/// The rows that [`SignalIngestionRow::get`] selects, and in which order.
pub proof fn signal_ingestion_row_get_selects(db: Database, row: Row, signal_id: Seq<char>)
    ensures
        ({
            let query = SignalIngestionRow::spec_get(signal_id);
            &&& query.table == Table::SignalIngestions
            &&& query.output == OutputView::Rows(SignalIngestionRow::spec_columns())
            &&& query.selects(db, row)
                <==> crate::model::value(row, Column::SignalId) == Datum::Text(signal_id)
            &&& query.order.len() == 0
            &&& query.limit == None::<i64>
            &&& query.offset == None::<i64>
        }),
{
    broadcast use group_queries;
}

/// The rows that [`SignalIngestionRow::list_by_project`] selects, and in which order.
pub proof fn signal_ingestion_row_list_by_project_selects(
    db: Database,
    row: Row,
    project: ProjectView,
    limit: usize,
    offset: usize,
)
    ensures
        ({
            let query = SignalIngestionRow::spec_list_by_project(project, limit, offset);
            &&& query.table == Table::SignalIngestions
            &&& query.output == OutputView::Rows(SignalIngestionRow::spec_columns())
            &&& query.selects(db, row)
                <==> crate::model::value(row, Column::TenantId) == Datum::Text(project.tenant_id)
                && crate::model::value(row, Column::WorkspaceId)
                    == Datum::Text(project.workspace_id)
                && crate::model::value(row, Column::ProjectId) == Datum::Text(project.project_id)
            &&& query.order.len() == 2
            &&& query.order[0] == Order::Ascending(Column::TimestampMs)
            &&& query.order[1] == Order::Ascending(Column::SignalId)
            &&& query.limit == Some(limit as i64)
            &&& query.offset == Some(offset as i64)
        }),
{
    broadcast use group_queries;
}

/// The rows that [`LlmCompletionBodyRow::get_by_trace_id`] selects, and in which order.
pub proof fn llm_completion_body_row_get_by_trace_id_selects(
    db: Database,
    row: Row,
    trace_id: Seq<char>,
)
    ensures
        ({
            let query = LlmCompletionBodyRow::spec_get_by_trace_id(trace_id);
            &&& query.table == Table::LlmCompletions
            &&& query.output == OutputView::Rows(LlmCompletionBodyRow::spec_columns())
            &&& query.selects(db, row)
                <==> crate::model::value(row, Column::TraceId) == Datum::Text(trace_id)
            &&& query.order.len() == 0
            &&& query.limit == None::<i64>
            &&& query.offset == None::<i64>
        }),
{
    broadcast use group_queries;
}

/// The rows that [`LlmCompletionBodyRow::list_by_session`] selects, and in which order.
pub proof fn llm_completion_body_row_list_by_session_selects(
    db: Database,
    row: Row,
    session_id: Seq<char>,
)
    ensures
        ({
            let query = LlmCompletionBodyRow::spec_list_by_session(session_id);
            &&& query.table == Table::LlmCompletions
            &&& query.output == OutputView::Rows(LlmCompletionBodyRow::spec_columns())
            &&& query.selects(db, row)
                <==> crate::model::value(row, Column::SessionId) == Datum::Text(session_id)
            &&& query.order.len() == 2
            &&& query.order[0] == Order::Ascending(Column::RecordedAtMs)
            &&& query.order[1] == Order::Ascending(Column::TraceId)
            &&& query.limit == None::<i64>
            &&& query.offset == None::<i64>
        }),
{
    broadcast use group_queries;
}

/// The rows that [`NotificationRecordRow::list_sent_notifications`] selects, and in which order.
pub proof fn notification_record_row_list_sent_notifications_selects(
    db: Database,
    row: Row,
    tenant_id: Seq<char>,
    since_ms: u64,
)
    ensures
        ({
            let query = NotificationRecordRow::spec_list_sent_notifications(tenant_id, since_ms);
            &&& query.table == Table::Notifications
            &&& query.output == OutputView::Rows(NotificationRecordRow::spec_columns())
            &&& query.selects(db, row)
                <==> crate::model::value(row, Column::TenantId) == Datum::Text(tenant_id)
                    && crate::laws::selecting::is_at_least(
                        crate::model::value(row, Column::SentAtMs),
                        since_ms as i64 as int,
                    )
            &&& query.order.len() == 2
            &&& query.order[0] == Order::Ascending(Column::SentAtMs)
            &&& query.order[1] == Order::Ascending(Column::RecordId)
            &&& query.limit == None::<i64>
            &&& query.offset == None::<i64>
        }),
{
    broadcast use group_queries;
}

} // verus!
