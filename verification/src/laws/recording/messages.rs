//! What the records say of the stored rows: messages.

use crate::domain::DomainNames;
use crate::error::ErrorView;
use crate::model::{Datum, Row};
use crate::read::StoredRow;
use crate::read::messages::{
    ChannelMessage, ChannelMessageRow, ChannelRecord, ChannelRow, LlmCompletionBodyRecord,
    LlmCompletionBodyRow, MailboxRecord, MailboxRow, NotificationPrefRow, NotificationPreference,
    NotificationRecord, NotificationRecordRow, SignalIngestionRow, SignalRecord,
    UserMessageRecord, UserMessageRow,
};
use crate::schema::Column;
use vstd::prelude::*;

verus! {

/// What the fields of a [`MailboxRecord`] say of the stored row.
pub proof fn the_record_of_a_mailbox_row(
    row: MailboxRow,
    stored: Row,
    names: DomainNames,
    record: MailboxRecord,
)
    requires
        row.is_of(stored),
        row.holds(&names, &record),
    ensures
        crate::model::value(stored, Column::MessageId) == Datum::Text(record.message_id@),
        crate::model::value(stored, Column::TenantId) == Datum::Text(record.project.tenant_id@),
        crate::model::value(stored, Column::WorkspaceId)
            == Datum::Text(record.project.workspace_id@),
        crate::model::value(stored, Column::ProjectId) == Datum::Text(record.project.project_id@),
        crate::model::value(stored, Column::RunId)
            == crate::laws::storing::optional_text(record.run_id),
        crate::model::value(stored, Column::TaskId)
            == crate::laws::storing::optional_text(record.task_id),
        record.from_task_id is None,
        record.content@ == Seq::<char>::empty(),
        record.from_run_id is None,
        record.deliver_at_ms == 0,
        record.sender is None,
        record.recipient is None,
        record.body is None,
        record.sent_at is None,
        record.delivery_status is None,
        crate::model::value(stored, Column::Version) is Int
            && (
                crate::model::value(stored, Column::Version)->Int_0 >= 0
                    ==> record.version == crate::model::value(stored, Column::Version)->Int_0
            ),
        crate::model::value(stored, Column::CreatedAt) is Int
            && (
                crate::model::value(stored, Column::CreatedAt)->Int_0 >= 0
                    ==> record.created_at == crate::model::value(stored, Column::CreatedAt)->Int_0
            ),
{
}

/// A [`MailboxRow`] says nothing of a stored row but what the columns that it asks for
/// hold.
pub proof fn the_columns_of_a_mailbox_row(row: MailboxRow, stored: Row, other: Row)
    requires
        forall|i: int|
            0 <= i < MailboxRow::spec_columns().len()
                ==> crate::model::value(stored, #[trigger] MailboxRow::spec_columns()[i])
                    == crate::model::value(other, MailboxRow::spec_columns()[i]),
    ensures
        row.is_of(stored) == row.is_of(other),
{
    let columns = MailboxRow::spec_columns();
    assert(columns[0] == Column::MessageId);
    assert(columns[1] == Column::TenantId);
    assert(columns[2] == Column::WorkspaceId);
    assert(columns[3] == Column::ProjectId);
    assert(columns[4] == Column::RunId);
    assert(columns[5] == Column::TaskId);
    assert(columns[6] == Column::Version);
    assert(columns[7] == Column::CreatedAt);
}

/// Every [`MailboxRow`] holds a record.
pub proof fn the_faults_of_a_mailbox_row(row: MailboxRow, names: DomainNames)
    ensures
        row.fault(&names) is None,
{
}

/// What the fields of a [`ChannelRecord`] say of the stored row.
pub proof fn the_record_of_a_channel_row(
    row: ChannelRow,
    stored: Row,
    names: DomainNames,
    record: ChannelRecord,
)
    requires
        row.is_of(stored),
        row.holds(&names, &record),
    ensures
        crate::model::value(stored, Column::ChannelId) == Datum::Text(record.channel_id@),
        crate::model::value(stored, Column::TenantId) == Datum::Text(record.project.tenant_id@),
        crate::model::value(stored, Column::WorkspaceId)
            == Datum::Text(record.project.workspace_id@),
        crate::model::value(stored, Column::ProjectId) == Datum::Text(record.project.project_id@),
        crate::model::value(stored, Column::Name) == Datum::Text(record.name@),
        crate::laws::recording::is_at_least_zero(
            crate::model::value(stored, Column::Capacity),
            record.capacity as int,
        ),
        crate::laws::recording::is_at_least_zero(
            crate::model::value(stored, Column::CreatedAtMs),
            record.created_at as int,
        ),
        crate::laws::recording::is_at_least_zero(
            crate::model::value(stored, Column::UpdatedAtMs),
            record.updated_at as int,
        ),
{
}

/// A [`ChannelRow`] says nothing of a stored row but what the columns that it asks for
/// hold.
pub proof fn the_columns_of_a_channel_row(row: ChannelRow, stored: Row, other: Row)
    requires
        forall|i: int|
            0 <= i < ChannelRow::spec_columns().len()
                ==> crate::model::value(stored, #[trigger] ChannelRow::spec_columns()[i])
                    == crate::model::value(other, ChannelRow::spec_columns()[i]),
    ensures
        row.is_of(stored) == row.is_of(other),
{
    let columns = ChannelRow::spec_columns();
    assert(columns[0] == Column::ChannelId);
    assert(columns[1] == Column::TenantId);
    assert(columns[2] == Column::WorkspaceId);
    assert(columns[3] == Column::ProjectId);
    assert(columns[4] == Column::Name);
    assert(columns[5] == Column::Capacity);
    assert(columns[6] == Column::CreatedAtMs);
    assert(columns[7] == Column::UpdatedAtMs);
}

/// Every [`ChannelRow`] holds a record.
pub proof fn the_faults_of_a_channel_row(row: ChannelRow, names: DomainNames)
    ensures
        row.fault(&names) is None,
{
}

/// What the fields of a [`ChannelMessage`] say of the stored row.
pub proof fn the_record_of_a_channel_message_row(
    row: ChannelMessageRow,
    stored: Row,
    names: DomainNames,
    record: ChannelMessage,
)
    requires
        row.is_of(stored),
        row.holds(&names, &record),
    ensures
        crate::model::value(stored, Column::ChannelId) == Datum::Text(record.channel_id@),
        crate::model::value(stored, Column::MessageId) == Datum::Text(record.message_id@),
        crate::model::value(stored, Column::SenderId) == Datum::Text(record.sender_id@),
        crate::model::value(stored, Column::Body) == Datum::Text(record.body@),
        crate::laws::recording::is_at_least_zero(
            crate::model::value(stored, Column::SentAtMs),
            record.sent_at_ms as int,
        ),
        crate::model::value(stored, Column::ConsumedBy)
            == crate::laws::storing::optional_text(record.consumed_by),
        match record.consumed_at_ms {
            Some(n) => crate::laws::recording::is_at_least_zero(
                crate::model::value(stored, Column::ConsumedAtMs),
                n as int,
            ),
            None => crate::model::value(stored, Column::ConsumedAtMs) == Datum::Null,
        },
{
}

/// A [`ChannelMessageRow`] says nothing of a stored row but what the columns that it asks for
/// hold.
pub proof fn the_columns_of_a_channel_message_row(row: ChannelMessageRow, stored: Row, other: Row)
    requires
        forall|i: int|
            0 <= i < ChannelMessageRow::spec_columns().len()
                ==> crate::model::value(stored, #[trigger] ChannelMessageRow::spec_columns()[i])
                    == crate::model::value(other, ChannelMessageRow::spec_columns()[i]),
    ensures
        row.is_of(stored) == row.is_of(other),
{
    let columns = ChannelMessageRow::spec_columns();
    assert(columns[0] == Column::ChannelId);
    assert(columns[1] == Column::MessageId);
    assert(columns[2] == Column::SenderId);
    assert(columns[3] == Column::Body);
    assert(columns[4] == Column::SentAtMs);
    assert(columns[5] == Column::ConsumedBy);
    assert(columns[6] == Column::ConsumedAtMs);
}

/// Every [`ChannelMessageRow`] holds a record.
pub proof fn the_faults_of_a_channel_message_row(row: ChannelMessageRow, names: DomainNames)
    ensures
        row.fault(&names) is None,
{
}

/// What the fields of a [`NotificationPreference`] say of the stored row.
pub proof fn the_record_of_a_notification_pref_row(
    row: NotificationPrefRow,
    stored: Row,
    names: DomainNames,
    record: NotificationPreference,
)
    requires
        row.is_of(stored),
        row.holds(&names, &record),
    ensures
        crate::model::value(stored, Column::PrefId) == Datum::Text(record.pref_id@),
        crate::model::value(stored, Column::TenantId) == Datum::Text(record.tenant_id@),
        crate::model::value(stored, Column::OperatorId) == Datum::Text(record.operator_id@),
        crate::model::value(stored, Column::EventTypesJson) is Text
            && crate::json::json_as_strings(
                crate::model::value(stored, Column::EventTypesJson)->Text_0,
            )
                == Ok::<Seq<Seq<char>>, Seq<char>>(record.event_types.deep_view()),
        crate::model::value(stored, Column::ChannelsJson) == Datum::Text(record.channels@),
{
}

/// A [`NotificationPrefRow`] says nothing of a stored row but what the columns that it asks for
/// hold.
pub proof fn the_columns_of_a_notification_pref_row(
    row: NotificationPrefRow,
    stored: Row,
    other: Row,
)
    requires
        forall|i: int|
            0 <= i < NotificationPrefRow::spec_columns().len()
                ==> crate::model::value(stored, #[trigger] NotificationPrefRow::spec_columns()[i])
                    == crate::model::value(other, NotificationPrefRow::spec_columns()[i]),
    ensures
        row.is_of(stored) == row.is_of(other),
{
    let columns = NotificationPrefRow::spec_columns();
    assert(columns[0] == Column::TenantId);
    assert(columns[1] == Column::OperatorId);
    assert(columns[2] == Column::PrefId);
    assert(columns[3] == Column::EventTypesJson);
    assert(columns[4] == Column::ChannelsJson);
}

/// When a [`NotificationPrefRow`] holds no record, and how it is refused.
pub proof fn the_faults_of_a_notification_pref_row(row: NotificationPrefRow, names: DomainNames)
    ensures
        crate::json::json_as_strings(row.event_types_json@) is Err
            ==> row.fault(&names)
                == Some(
                    ErrorView::Serialization(
                        crate::json::json_as_strings(row.event_types_json@)->Err_0,
                    ),
                ),
        !(crate::json::json_as_strings(row.event_types_json@) is Err) && row.channels.fault is Some
            ==> row.fault(&names) == Some(ErrorView::Serialization(row.channels.fault->Some_0@)),
        !(crate::json::json_as_strings(row.event_types_json@) is Err)
            && !(row.channels.fault is Some)
            ==> row.fault(&names) is None,
{
}

/// What the fields of a [`NotificationRecord`] say of the stored row.
pub proof fn the_record_of_a_notification_record_row(
    row: NotificationRecordRow,
    stored: Row,
    names: DomainNames,
    record: NotificationRecord,
)
    requires
        row.is_of(stored),
        row.holds(&names, &record),
    ensures
        crate::model::value(stored, Column::RecordId) == Datum::Text(record.record_id@),
        crate::model::value(stored, Column::TenantId) == Datum::Text(record.tenant_id@),
        crate::model::value(stored, Column::OperatorId) == Datum::Text(record.operator_id@),
        crate::model::value(stored, Column::EventType) == Datum::Text(record.event_type@),
        crate::model::value(stored, Column::ChannelKind) == Datum::Text(record.channel_kind@),
        crate::model::value(stored, Column::ChannelTarget) == Datum::Text(record.channel_target@),
        crate::model::value(stored, Column::PayloadJson) == Datum::Text(record.payload@),
        crate::laws::recording::is_at_least_zero(
            crate::model::value(stored, Column::SentAtMs),
            record.sent_at_ms as int,
        ),
        record.delivered <==> crate::model::value(stored, Column::Delivered) != Datum::Int(0),
        crate::model::value(stored, Column::DeliveryError)
            == crate::laws::storing::optional_text(record.delivery_error),
{
}

/// A [`NotificationRecordRow`] says nothing of a stored row but what the columns that it asks for
/// hold.
pub proof fn the_columns_of_a_notification_record_row(
    row: NotificationRecordRow,
    stored: Row,
    other: Row,
)
    requires
        forall|i: int|
            0 <= i < NotificationRecordRow::spec_columns().len()
                ==> crate::model::value(stored, #[trigger] NotificationRecordRow::spec_columns()[i])
                    == crate::model::value(other, NotificationRecordRow::spec_columns()[i]),
    ensures
        row.is_of(stored) == row.is_of(other),
{
    let columns = NotificationRecordRow::spec_columns();
    assert(columns[0] == Column::RecordId);
    assert(columns[1] == Column::TenantId);
    assert(columns[2] == Column::OperatorId);
    assert(columns[3] == Column::EventType);
    assert(columns[4] == Column::ChannelKind);
    assert(columns[5] == Column::ChannelTarget);
    assert(columns[6] == Column::PayloadJson);
    assert(columns[7] == Column::SentAtMs);
    assert(columns[8] == Column::Delivered);
    assert(columns[9] == Column::DeliveryError);
}

/// When a [`NotificationRecordRow`] holds no record, and how it is refused.
pub proof fn the_faults_of_a_notification_record_row(row: NotificationRecordRow, names: DomainNames)
    ensures
        crate::json::json_refusal(row.payload_json@) is Some
            ==> row.fault(&names)
                == Some(
                    ErrorView::Serialization(crate::json::json_refusal(row.payload_json@)->Some_0),
                ),
        !(crate::json::json_refusal(row.payload_json@) is Some) ==> row.fault(&names) is None,
{
}

/// What the fields of a [`UserMessageRecord`] say of the stored row.
pub proof fn the_record_of_a_user_message_row(
    row: UserMessageRow,
    stored: Row,
    names: DomainNames,
    record: UserMessageRecord,
)
    requires
        row.is_of(stored),
        row.holds(&names, &record),
    ensures
        crate::model::value(stored, Column::RunId) == Datum::Text(record.run_id@),
        crate::laws::recording::is_at_least_zero(
            crate::model::value(stored, Column::Sequence),
            record.sequence as int,
        ),
        crate::model::value(stored, Column::TenantId) == Datum::Text(record.project.tenant_id@),
        crate::model::value(stored, Column::WorkspaceId)
            == Datum::Text(record.project.workspace_id@),
        crate::model::value(stored, Column::ProjectId) == Datum::Text(record.project.project_id@),
        crate::model::value(stored, Column::SessionId) == Datum::Text(record.session_id@),
        crate::model::value(stored, Column::EventId) == Datum::Text(record.event_id@),
        crate::model::value(stored, Column::Content) == Datum::Text(record.content@),
        crate::laws::recording::is_at_least_zero(
            crate::model::value(stored, Column::AppendedAtMs),
            record.appended_at_ms as int,
        ),
{
}

/// A [`UserMessageRow`] says nothing of a stored row but what the columns that it asks for
/// hold.
pub proof fn the_columns_of_a_user_message_row(row: UserMessageRow, stored: Row, other: Row)
    requires
        forall|i: int|
            0 <= i < UserMessageRow::spec_columns().len()
                ==> crate::model::value(stored, #[trigger] UserMessageRow::spec_columns()[i])
                    == crate::model::value(other, UserMessageRow::spec_columns()[i]),
    ensures
        row.is_of(stored) == row.is_of(other),
{
    let columns = UserMessageRow::spec_columns();
    assert(columns[0] == Column::RunId);
    assert(columns[1] == Column::Sequence);
    assert(columns[2] == Column::TenantId);
    assert(columns[3] == Column::WorkspaceId);
    assert(columns[4] == Column::ProjectId);
    assert(columns[5] == Column::SessionId);
    assert(columns[6] == Column::EventId);
    assert(columns[7] == Column::Content);
    assert(columns[8] == Column::AppendedAtMs);
}

/// Every [`UserMessageRow`] holds a record.
pub proof fn the_faults_of_a_user_message_row(row: UserMessageRow, names: DomainNames)
    ensures
        row.fault(&names) is None,
{
}

/// What the fields of a [`SignalRecord`] say of the stored row.
pub proof fn the_record_of_a_signal_ingestion_row(
    row: SignalIngestionRow,
    stored: Row,
    names: DomainNames,
    record: SignalRecord,
)
    requires
        row.is_of(stored),
        row.holds(&names, &record),
    ensures
        crate::model::value(stored, Column::SignalId) == Datum::Text(record.id@),
        crate::model::value(stored, Column::TenantId) == Datum::Text(record.project.tenant_id@),
        crate::model::value(stored, Column::WorkspaceId)
            == Datum::Text(record.project.workspace_id@),
        crate::model::value(stored, Column::ProjectId) == Datum::Text(record.project.project_id@),
        crate::model::value(stored, Column::Source) == Datum::Text(record.source@),
        crate::model::value(stored, Column::PayloadJson) == Datum::Text(record.payload@),
        crate::laws::recording::is_at_least_zero(
            crate::model::value(stored, Column::TimestampMs),
            record.timestamp_ms as int,
        ),
{
}

/// A [`SignalIngestionRow`] says nothing of a stored row but what the columns that it asks for
/// hold.
pub proof fn the_columns_of_a_signal_ingestion_row(row: SignalIngestionRow, stored: Row, other: Row)
    requires
        forall|i: int|
            0 <= i < SignalIngestionRow::spec_columns().len()
                ==> crate::model::value(stored, #[trigger] SignalIngestionRow::spec_columns()[i])
                    == crate::model::value(other, SignalIngestionRow::spec_columns()[i]),
    ensures
        row.is_of(stored) == row.is_of(other),
{
    let columns = SignalIngestionRow::spec_columns();
    assert(columns[0] == Column::SignalId);
    assert(columns[1] == Column::TenantId);
    assert(columns[2] == Column::WorkspaceId);
    assert(columns[3] == Column::ProjectId);
    assert(columns[4] == Column::Source);
    assert(columns[5] == Column::PayloadJson);
    assert(columns[6] == Column::TimestampMs);
}

/// When a [`SignalIngestionRow`] holds no record, and how it is refused.
pub proof fn the_faults_of_a_signal_ingestion_row(row: SignalIngestionRow, names: DomainNames)
    ensures
        crate::json::json_refusal(row.payload_json@) is Some
            ==> row.fault(&names)
                == Some(
                    ErrorView::Serialization(
                        "signal_ingestions.payload_json decode for signal_id="@ + row.signal_id@
                            + ": "@ + crate::json::json_refusal(row.payload_json@)->Some_0,
                    ),
                ),
        !(crate::json::json_refusal(row.payload_json@) is Some) ==> row.fault(&names) is None,
{
}

/// What the fields of a [`LlmCompletionBodyRecord`] say of the stored row.
pub proof fn the_record_of_a_llm_completion_body_row(
    row: LlmCompletionBodyRow,
    stored: Row,
    names: DomainNames,
    record: LlmCompletionBodyRecord,
)
    requires
        row.is_of(stored),
        row.holds(&names, &record),
    ensures
        crate::model::value(stored, Column::TraceId) == Datum::Text(record.trace_id@),
        crate::model::value(stored, Column::TenantId) == Datum::Text(record.project.tenant_id@),
        crate::model::value(stored, Column::WorkspaceId)
            == Datum::Text(record.project.workspace_id@),
        crate::model::value(stored, Column::ProjectId) == Datum::Text(record.project.project_id@),
        crate::model::value(stored, Column::SessionId) == Datum::Text(record.session_id@),
        crate::model::value(stored, Column::RunId)
            == crate::laws::storing::optional_text(record.run_id),
        crate::model::value(stored, Column::ModelId) == Datum::Text(record.model_id@),
        crate::model::value(stored, Column::SystemPrompt) == Datum::Text(record.system_prompt@),
        crate::model::value(stored, Column::MessagesJson) == Datum::Text(record.messages_json@),
        crate::model::value(stored, Column::ResponseText) == Datum::Text(record.response_text@),
        crate::model::value(stored, Column::ToolCallsJson) == Datum::Text(record.tool_calls_json@),
        crate::model::value(stored, Column::ToolDefsJson) == Datum::Text(record.tool_defs_json@),
        crate::laws::recording::is_at_least_zero(
            crate::model::value(stored, Column::RecordedAtMs),
            record.recorded_at_ms as int,
        ),
{
}

/// A [`LlmCompletionBodyRow`] says nothing of a stored row but what the columns that it asks for
/// hold.
pub proof fn the_columns_of_a_llm_completion_body_row(
    row: LlmCompletionBodyRow,
    stored: Row,
    other: Row,
)
    requires
        forall|i: int|
            0 <= i < LlmCompletionBodyRow::spec_columns().len()
                ==> crate::model::value(stored, #[trigger] LlmCompletionBodyRow::spec_columns()[i])
                    == crate::model::value(other, LlmCompletionBodyRow::spec_columns()[i]),
    ensures
        row.is_of(stored) == row.is_of(other),
{
    let columns = LlmCompletionBodyRow::spec_columns();
    assert(columns[0] == Column::TraceId);
    assert(columns[1] == Column::TenantId);
    assert(columns[2] == Column::WorkspaceId);
    assert(columns[3] == Column::ProjectId);
    assert(columns[4] == Column::SessionId);
    assert(columns[5] == Column::RunId);
    assert(columns[6] == Column::ModelId);
    assert(columns[7] == Column::SystemPrompt);
    assert(columns[8] == Column::MessagesJson);
    assert(columns[9] == Column::ResponseText);
    assert(columns[10] == Column::ToolCallsJson);
    assert(columns[11] == Column::ToolDefsJson);
    assert(columns[12] == Column::RecordedAtMs);
}

/// Every [`LlmCompletionBodyRow`] holds a record.
pub proof fn the_faults_of_a_llm_completion_body_row(row: LlmCompletionBodyRow, names: DomainNames)
    ensures
        row.fault(&names) is None,
{
}

} // verus!
