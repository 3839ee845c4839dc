//! What is read back of what was written: messages.

use crate::domain::DomainNames;
use crate::laws::rows::group_rows;
use crate::model::{Database, Row};
use crate::plan::Moment;
use crate::projections::messages::{
    ChannelCreated, ChannelMessageConsumed, ChannelMessageSent, MailboxMessageAppended,
    NotificationPreferenceSet, NotificationSent, SignalIngested,
};
use crate::projections::sessions::{LlmCompletionRecorded, UserMessageAppended};
use crate::read::StoredRow;
use crate::read::messages::{
    ChannelMessage, ChannelMessageRow, ChannelRecord, ChannelRow, LlmCompletionBodyRecord,
    LlmCompletionBodyRow, MailboxRecord, MailboxRow, NotificationPrefRow, NotificationPreference,
    NotificationRecord, NotificationRecordRow, SignalIngestionRow, SignalRecord,
    UserMessageRecord, UserMessageRow,
};
use crate::schema::Column;
use vstd::prelude::*;

verus! {

/// The record that is read back after a `MailboxMessageAppended` event holds what the event
/// says.
pub proof fn mailbox_message_appended_is_read_back(
    e: MailboxMessageAppended,
    at: Moment,
    db: Database,
    row: MailboxRow,
    names: DomainNames,
    record: MailboxRecord,
)
    requires
        e.writes(at) is Writes,
        e.writes(at).statements().len() > 0,
        row.is_of(crate::laws::rows::left_by(db, e.writes(at).statements()[0], None)),
        row.holds(&names, &record),
    ensures
        record.message_id@ == e.message_id@,
        record.project@ == e.project@,
        record.run_id.deep_view() == e.run_id.deep_view(),
        record.task_id.deep_view() == e.task_id.deep_view(),
        record.version == 1,
        record.created_at == at.now as u64,
        record.from_task_id is None,
        record.from_run_id is None,
        record.sender is None,
        record.recipient is None,
        record.body is None,
        record.sent_at is None,
        record.delivery_status is None,
        record.content@.len() == 0,
        record.deliver_at_ms == 0,
{
    broadcast use group_rows;
}

/// The record that is read back after a `SignalIngested` event holds what the event says.
pub proof fn signal_ingested_is_read_back(
    e: SignalIngested,
    at: Moment,
    db: Database,
    row: SignalIngestionRow,
    names: DomainNames,
    record: SignalRecord,
)
    requires
        e.writes(at) is Writes,
        e.writes(at).statements().len() > 0,
        row.is_of(crate::laws::rows::left_by(db, e.writes(at).statements()[0], None)),
        row.holds(&names, &record),
    ensures
        record.id@ == e.signal_id@,
        record.project@ == e.project@,
        record.source@ == e.source@,
        record.payload@ == e.payload_json@,
        e.timestamp_ms <= i64::MAX ==> record.timestamp_ms == e.timestamp_ms,
        crate::json::json_refusal(e.payload_json@) is None ==> row.fault(&names) is None,
{
    broadcast use group_rows;
}

/// The record that is read back after a `UserMessageAppended` event holds what the event says.
pub proof fn user_message_appended_is_read_back(
    e: UserMessageAppended,
    at: Moment,
    db: Database,
    row: UserMessageRow,
    names: DomainNames,
    record: UserMessageRecord,
)
    requires
        e.writes(at) is Writes,
        e.writes(at).statements().len() > 0,
        row.is_of(crate::laws::rows::left_by(db, e.writes(at).statements()[0], None)),
        row.holds(&names, &record),
    ensures
        record.run_id@ == e.run_id@,
        e.sequence <= i64::MAX ==> record.sequence == e.sequence,
        record.project@ == e.project@,
        record.session_id@ == e.session_id@,
        record.event_id@ == at.event_id@,
        record.content@ == e.content@,
        e.appended_at_ms <= i64::MAX ==> record.appended_at_ms == e.appended_at_ms,
{
    broadcast use group_rows;
}

/// The record that is read back after a `ChannelCreated` event holds what the event says.
pub proof fn channel_created_is_read_back(
    e: ChannelCreated,
    at: Moment,
    db: Database,
    row: ChannelRow,
    names: DomainNames,
    record: ChannelRecord,
)
    requires
        e.writes(at) is Writes,
        e.writes(at).statements().len() > 0,
        row.is_of(crate::laws::rows::left_by(db, e.writes(at).statements()[0], None)),
        row.holds(&names, &record),
    ensures
        record.channel_id@ == e.channel_id@,
        record.project@ == e.project@,
        record.name@ == e.name@,
        e.capacity <= i32::MAX ==> record.capacity == e.capacity,
        e.created_at_ms <= i64::MAX ==> record.created_at == e.created_at_ms,
        e.created_at_ms <= i64::MAX ==> record.updated_at == e.created_at_ms,
{
    broadcast use group_rows;
}

/// The record that is read back after a `ChannelMessageSent` event holds what the event says.
pub proof fn channel_message_sent_is_read_back(
    e: ChannelMessageSent,
    at: Moment,
    db: Database,
    row: ChannelMessageRow,
    names: DomainNames,
    record: ChannelMessage,
)
    requires
        e.writes(at) is Writes,
        e.writes(at).statements().len() > 0,
        row.is_of(crate::laws::rows::left_by(db, e.writes(at).statements()[0], None)),
        row.holds(&names, &record),
    ensures
        record.channel_id@ == e.channel_id@,
        record.message_id@ == e.message_id@,
        record.sender_id@ == e.sender_id@,
        record.body@ == e.body@,
        e.sent_at_ms <= i64::MAX ==> record.sent_at_ms == e.sent_at_ms,
        record.consumed_by is None,
        record.consumed_at_ms is None,
{
    broadcast use group_rows;
}

/// The record that is read back after a `NotificationPreferenceSet` event holds what the event
/// says.
pub proof fn notification_preference_set_is_read_back(
    e: NotificationPreferenceSet,
    at: Moment,
    db: Database,
    was: Option<Row>,
    row: NotificationPrefRow,
    names: DomainNames,
    record: NotificationPreference,
)
    requires
        e.writes(at) is Writes,
        e.writes(at).statements().len() > 0,
        was is Some ==> crate::laws::rows::replaces(
            db,
            e.writes(at).statements()[0],
            was->Some_0,
        ),
        row.is_of(crate::laws::rows::left_by(db, e.writes(at).statements()[0], was)),
        row.holds(&names, &record),
    ensures
        record.pref_id@ == e.tenant_id@ + ":"@ + e.operator_id@,
        record.tenant_id@ == e.tenant_id@,
        record.operator_id@ == e.operator_id@,
        crate::json::keeps(e.event_types.deep_view())
            ==> record.event_types.deep_view() == e.event_types.deep_view(),
        record.channels@ == e.channels_json@,
        crate::json::keeps(e.event_types.deep_view()) && row.channels.fault is None
            ==> row.fault(&names) is None,
{
    broadcast use group_rows;

    let key = e.writes(at).statements()[0]->Insert_conflict->Merge_key;
    assert(key[0] == Column::TenantId);
    assert(key[1] == Column::OperatorId);
}

/// The record that is read back after a `NotificationSent` event holds what the event says.
pub proof fn notification_sent_is_read_back(
    e: NotificationSent,
    at: Moment,
    db: Database,
    row: NotificationRecordRow,
    names: DomainNames,
    record: NotificationRecord,
)
    requires
        e.writes(at) is Writes,
        e.writes(at).statements().len() > 0,
        row.is_of(crate::laws::rows::left_by(db, e.writes(at).statements()[0], None)),
        row.holds(&names, &record),
    ensures
        record.record_id@ == e.record_id@,
        record.tenant_id@ == e.tenant_id@,
        record.operator_id@ == e.operator_id@,
        record.event_type@ == e.event_type@,
        record.channel_kind@ == e.channel_kind@,
        record.channel_target@ == e.channel_target@,
        record.payload@ == e.payload_json@,
        e.sent_at_ms <= i64::MAX ==> record.sent_at_ms == e.sent_at_ms,
        record.delivered == e.delivered,
        record.delivery_error.deep_view() == e.delivery_error.deep_view(),
        crate::json::json_refusal(e.payload_json@) is None ==> row.fault(&names) is None,
{
    broadcast use group_rows;
}

/// The record that is read back after a `LlmCompletionRecorded` event holds what the event
/// says.
pub proof fn llm_completion_recorded_is_read_back(
    e: LlmCompletionRecorded,
    at: Moment,
    db: Database,
    row: LlmCompletionBodyRow,
    names: DomainNames,
    record: LlmCompletionBodyRecord,
)
    requires
        e.writes(at) is Writes,
        e.writes(at).statements().len() > 0,
        row.is_of(crate::laws::rows::left_by(db, e.writes(at).statements()[0], None)),
        row.holds(&names, &record),
    ensures
        record.trace_id@ == e.trace_id@,
        record.project@ == e.project@,
        record.session_id@ == e.session_id@,
        record.run_id.deep_view() == e.run_id.deep_view(),
        record.model_id@ == e.model_id@,
        record.system_prompt@ == e.system_prompt@,
        record.messages_json@ == e.messages_json@,
        record.response_text@ == e.response_text@,
        record.tool_calls_json@ == e.tool_calls_json@,
        record.tool_defs_json@ == e.tool_defs_json@,
        e.recorded_at_ms <= i64::MAX ==> record.recorded_at_ms == e.recorded_at_ms,
{
    broadcast use group_rows;
}

/// The record that is read back of a row that a `ChannelMessageConsumed` event changes holds
/// what the event says.
pub proof fn channel_message_consumed_is_read_back(
    e: ChannelMessageConsumed,
    at: Moment,
    db: Database,
    was: Row,
    before: ChannelMessageRow,
    row: ChannelMessageRow,
    names: DomainNames,
    old: ChannelMessage,
    record: ChannelMessage,
)
    requires
        e.writes(at) is Writes,
        e.writes(at).statements().len() > 0,
        crate::model::passes_all(db, was, e.writes(at).statements()[0]->Update_filter),
        before.is_of(was),
        row.is_of(crate::laws::rows::updated_by(db, e.writes(at).statements()[0], was)),
        before.holds(&names, &old),
        row.holds(&names, &record),
    ensures
        record.consumed_by.deep_view() == Some(e.consumed_by@),
        e.consumed_at_ms <= i64::MAX ==> record.consumed_at_ms == Some(e.consumed_at_ms),
        record.channel_id@ == old.channel_id@,
        record.message_id@ == old.message_id@,
        record.sender_id@ == old.sender_id@,
        record.body@ == old.body@,
        record.sent_at_ms == old.sent_at_ms,
{
    broadcast use group_rows;
}

} // verus!
