//! What the events store: messages.

use crate::laws::rows::{group_filters, group_rows};
use crate::model::{Database, Datum, Row};
use crate::plan::{Moment, Planned};
use crate::projections::messages::{
    ChannelCreated, ChannelMessageConsumed, ChannelMessageSent, MailboxMessageAppended,
    NotificationPreferenceSet, NotificationSent, SignalIngested,
};
use crate::schema::{Column, Table};
use crate::statement::{ConflictView, GuardView};
use vstd::prelude::*;

verus! {

/// What a [`MailboxMessageAppended`] event stores.
pub proof fn mailbox_message_appended_is_stored(
    e: MailboxMessageAppended,
    at: Moment,
    db: Database,
    was: Row,
    other: Column,
)
    ensures
        ({
            let s = e.writes(at).statements()[0];
            let new = crate::laws::rows::left_by(db, s, None);
            &&& e.writes(at) is Writes
            &&& e.writes(at).statements().len() == 1
            &&& s is Insert && s.table() == Table::MailboxMessages
            &&& crate::model::value(new, Column::MessageId) == Datum::Text(e.message_id@)
            &&& crate::model::value(new, Column::TenantId) == Datum::Text(e.project.tenant_id@)
            &&& crate::model::value(new, Column::WorkspaceId)
                == Datum::Text(e.project.workspace_id@)
            &&& crate::model::value(new, Column::ProjectId) == Datum::Text(e.project.project_id@)
            &&& crate::model::value(new, Column::RunId)
                == crate::laws::storing::optional_text(e.run_id)
            &&& crate::model::value(new, Column::TaskId)
                == crate::laws::storing::optional_text(e.task_id)
            &&& crate::model::value(new, Column::Version) == Datum::Int(1)
            &&& crate::model::value(new, Column::CreatedAt) == Datum::Int(at.now as int)
            &&& other is MessageId || other is TenantId || other is WorkspaceId
                || other is ProjectId || other is RunId || other is TaskId || other is Version
                || other is CreatedAt
                || crate::model::value(new, other) == db.default_of(Table::MailboxMessages, other)
            &&& s->Insert_conflict is Fail
        }),
{
    broadcast use {group_rows, group_filters};
}

/// What a [`SignalIngested`] event stores.
pub proof fn signal_ingested_is_stored(
    e: SignalIngested,
    at: Moment,
    db: Database,
    was: Row,
    other: Column,
)
    ensures
        e.timestamp_ms > i64::MAX
            ==> e.writes(at)
                == Planned::Refused(
                    crate::laws::storing::too_great(
                        "SignalIngested.timestamp_ms"@,
                        e.timestamp_ms as nat,
                        "i64::MAX"@,
                    ),
                ),
        e.timestamp_ms <= i64::MAX ==> ({
            let s = e.writes(at).statements()[0];
            let new = crate::laws::rows::left_by(db, s, None);
            &&& e.writes(at) is Writes
            &&& e.writes(at).statements().len() == 1
            &&& s is Insert && s.table() == Table::SignalIngestions
            &&& crate::model::value(new, Column::SignalId) == Datum::Text(e.signal_id@)
            &&& crate::model::value(new, Column::TenantId) == Datum::Text(e.project.tenant_id@)
            &&& crate::model::value(new, Column::WorkspaceId)
                == Datum::Text(e.project.workspace_id@)
            &&& crate::model::value(new, Column::ProjectId) == Datum::Text(e.project.project_id@)
            &&& crate::model::value(new, Column::Source) == Datum::Text(e.source@)
            &&& crate::model::value(new, Column::PayloadJson) == Datum::Text(e.payload_json@)
            &&& crate::model::value(new, Column::TimestampMs)
                == Datum::Int(e.timestamp_ms as i64 as int)
            &&& other is SignalId || other is TenantId || other is WorkspaceId || other is ProjectId
                || other is Source || other is PayloadJson || other is TimestampMs
                || crate::model::value(new, other) == db.default_of(Table::SignalIngestions, other)
            &&& s->Insert_conflict == ConflictView::Ignore(seq![Column::SignalId])
        }),
{
    broadcast use {group_rows, group_filters};
}

/// What a [`ChannelCreated`] event stores.
pub proof fn channel_created_is_stored(
    e: ChannelCreated,
    at: Moment,
    db: Database,
    was: Row,
    other: Column,
)
    ensures
        e.capacity > i32::MAX
            ==> e.writes(at)
                == Planned::Refused(
                    crate::laws::storing::too_great_for_an_integer(
                        "ChannelCreated.capacity"@,
                        e.capacity as nat,
                    ),
                ),
        e.capacity <= i32::MAX && e.created_at_ms > i64::MAX
            ==> e.writes(at)
                == Planned::Refused(
                    crate::laws::storing::too_great(
                        "ChannelCreated.created_at_ms"@,
                        e.created_at_ms as nat,
                        "i64::MAX"@,
                    ),
                ),
        e.capacity <= i32::MAX && e.created_at_ms <= i64::MAX ==> ({
            let s = e.writes(at).statements()[0];
            let new = crate::laws::rows::left_by(db, s, None);
            &&& e.writes(at) is Writes
            &&& e.writes(at).statements().len() == 1
            &&& s is Insert && s.table() == Table::Channels
            &&& crate::model::value(new, Column::ChannelId) == Datum::Text(e.channel_id@)
            &&& crate::model::value(new, Column::TenantId) == Datum::Text(e.project.tenant_id@)
            &&& crate::model::value(new, Column::WorkspaceId)
                == Datum::Text(e.project.workspace_id@)
            &&& crate::model::value(new, Column::ProjectId) == Datum::Text(e.project.project_id@)
            &&& crate::model::value(new, Column::Name) == Datum::Text(e.name@)
            &&& crate::model::value(new, Column::Capacity) == Datum::Int((e.capacity as i32) as int)
            &&& crate::model::value(new, Column::CreatedAtMs)
                == Datum::Int(e.created_at_ms as i64 as int)
            &&& crate::model::value(new, Column::UpdatedAtMs)
                == Datum::Int(e.created_at_ms as i64 as int)
            &&& other is ChannelId || other is TenantId || other is WorkspaceId
                || other is ProjectId || other is Name || other is Capacity || other is CreatedAtMs
                || other is UpdatedAtMs
                || crate::model::value(new, other) == db.default_of(Table::Channels, other)
            &&& s->Insert_conflict == ConflictView::Ignore(seq![Column::ChannelId])
        }),
{
    broadcast use {group_rows, group_filters};
}

/// What a [`ChannelMessageSent`] event stores.
pub proof fn channel_message_sent_is_stored(
    e: ChannelMessageSent,
    at: Moment,
    db: Database,
    was: Row,
    other: Column,
)
    ensures
        e.sent_at_ms > i64::MAX
            ==> e.writes(at)
                == Planned::Refused(
                    crate::laws::storing::too_great(
                        "ChannelMessageSent.sent_at_ms"@,
                        e.sent_at_ms as nat,
                        "i64::MAX"@,
                    ),
                ),
        e.sent_at_ms <= i64::MAX ==> ({
            let s = e.writes(at).statements()[0];
            let new = crate::laws::rows::left_by(db, s, None);
            &&& e.writes(at) is Writes
            &&& e.writes(at).statements().len() == 1
            &&& s is Insert && s.table() == Table::ChannelMessages
            &&& crate::model::value(new, Column::ChannelId) == Datum::Text(e.channel_id@)
            &&& crate::model::value(new, Column::MessageId) == Datum::Text(e.message_id@)
            &&& crate::model::value(new, Column::SenderId) == Datum::Text(e.sender_id@)
            &&& crate::model::value(new, Column::Body) == Datum::Text(e.body@)
            &&& crate::model::value(new, Column::SentAtMs) == Datum::Int(e.sent_at_ms as i64 as int)
            &&& crate::model::value(new, Column::ConsumedBy) == Datum::Null
            &&& crate::model::value(new, Column::ConsumedAtMs) == Datum::Null
            &&& other is ChannelId || other is MessageId || other is SenderId || other is Body
                || other is SentAtMs || other is ConsumedBy || other is ConsumedAtMs
                || crate::model::value(new, other) == db.default_of(Table::ChannelMessages, other)
            &&& s->Insert_conflict
                == ConflictView::Ignore(seq![Column::ChannelId, Column::MessageId])
        }),
{
    broadcast use {group_rows, group_filters};
}

/// What a [`ChannelMessageConsumed`] event stores.
pub proof fn channel_message_consumed_is_stored(
    e: ChannelMessageConsumed,
    at: Moment,
    db: Database,
    was: Row,
    other: Column,
)
    ensures
        e.consumed_at_ms > i64::MAX
            ==> e.writes(at)
                == Planned::Refused(
                    crate::laws::storing::too_great(
                        "ChannelMessageConsumed.consumed_at_ms"@,
                        e.consumed_at_ms as nat,
                        "i64::MAX"@,
                    ),
                ),
        e.consumed_at_ms <= i64::MAX ==> ({
            let s = e.writes(at).statements()[0];
            let updated = crate::laws::rows::updated_by(db, s, was);
            let selected = crate::model::value(was, Column::ChannelId) == Datum::Text(e.channel_id@)
                && crate::model::value(was, Column::MessageId) == Datum::Text(e.message_id@);
            &&& e.writes(at) is Writes
            &&& e.writes(at).statements().len() == 1
            &&& s is Update && s.table() == Table::ChannelMessages
            &&& selected ==> {
                &&& crate::model::value(updated, Column::ConsumedBy) == Datum::Text(e.consumed_by@)
                &&& crate::model::value(updated, Column::ConsumedAtMs)
                    == Datum::Int(e.consumed_at_ms as i64 as int)
                &&& other is ConsumedBy || other is ConsumedAtMs
                    || crate::model::value(updated, other) == crate::model::value(was, other)
            }
            &&& !selected ==> updated == was
        }),
{
    broadcast use {group_rows, group_filters};
}

/// What a [`NotificationPreferenceSet`] event stores.
pub proof fn notification_preference_set_is_stored(
    e: NotificationPreferenceSet,
    at: Moment,
    db: Database,
    was: Row,
    other: Column,
)
    ensures
        e.set_at_ms > i64::MAX
            ==> e.writes(at)
                == Planned::Refused(
                    crate::laws::storing::too_great(
                        "NotificationPreferenceSet.set_at_ms"@,
                        e.set_at_ms as nat,
                        "i64::MAX"@,
                    ),
                ),
        e.set_at_ms <= i64::MAX ==> ({
            let s = e.writes(at).statements()[0];
            let merged = crate::laws::rows::left_by(db, s, Some(was));
            let new = crate::laws::rows::left_by(db, s, None);
            &&& e.writes(at) is Writes
            &&& e.writes(at).statements().len() == 1
            &&& s is Insert && s.table() == Table::NotificationPreferences
            &&& crate::model::value(new, Column::TenantId) == Datum::Text(e.tenant_id@)
            &&& crate::model::value(new, Column::OperatorId) == Datum::Text(e.operator_id@)
            &&& crate::model::value(new, Column::PrefId)
                == Datum::Text(e.tenant_id@ + ":"@ + e.operator_id@)
            &&& crate::model::value(new, Column::EventTypesJson)
                == Datum::Text(crate::json::strings_as_json(e.event_types.deep_view()))
            &&& crate::model::value(new, Column::ChannelsJson) == Datum::Text(e.channels_json@)
            &&& crate::model::value(new, Column::SetAtMs) == Datum::Int(e.set_at_ms as i64 as int)
            &&& other is TenantId || other is OperatorId || other is PrefId
                || other is EventTypesJson || other is ChannelsJson || other is SetAtMs
                || crate::model::value(new, other)
                    == db.default_of(Table::NotificationPreferences, other)
            &&& s->Insert_conflict is Merge
            &&& s->Insert_conflict->Merge_key == seq![Column::TenantId, Column::OperatorId]
            &&& s->Insert_conflict->Merge_guard == GuardView::Always
            &&& crate::model::value(merged, Column::PrefId)
                == Datum::Text(e.tenant_id@ + ":"@ + e.operator_id@)
            &&& crate::model::value(merged, Column::EventTypesJson)
                == Datum::Text(crate::json::strings_as_json(e.event_types.deep_view()))
            &&& crate::model::value(merged, Column::ChannelsJson) == Datum::Text(e.channels_json@)
            &&& crate::model::value(merged, Column::SetAtMs)
                == Datum::Int(e.set_at_ms as i64 as int)
            &&& other is PrefId || other is EventTypesJson || other is ChannelsJson
                || other is SetAtMs
                || crate::model::value(merged, other) == crate::model::value(was, other)
        }),
{
    broadcast use {group_rows, group_filters};
}

/// What a [`NotificationSent`] event stores.
pub proof fn notification_sent_is_stored(
    e: NotificationSent,
    at: Moment,
    db: Database,
    was: Row,
    other: Column,
)
    ensures
        e.sent_at_ms > i64::MAX
            ==> e.writes(at)
                == Planned::Refused(
                    crate::laws::storing::too_great(
                        "NotificationSent.sent_at_ms"@,
                        e.sent_at_ms as nat,
                        "i64::MAX"@,
                    ),
                ),
        e.sent_at_ms <= i64::MAX ==> ({
            let s = e.writes(at).statements()[0];
            let new = crate::laws::rows::left_by(db, s, None);
            &&& e.writes(at) is Writes
            &&& e.writes(at).statements().len() == 1
            &&& s is Insert && s.table() == Table::Notifications
            &&& crate::model::value(new, Column::RecordId) == Datum::Text(e.record_id@)
            &&& crate::model::value(new, Column::TenantId) == Datum::Text(e.tenant_id@)
            &&& crate::model::value(new, Column::OperatorId) == Datum::Text(e.operator_id@)
            &&& crate::model::value(new, Column::EventType) == Datum::Text(e.event_type@)
            &&& crate::model::value(new, Column::ChannelKind) == Datum::Text(e.channel_kind@)
            &&& crate::model::value(new, Column::ChannelTarget) == Datum::Text(e.channel_target@)
            &&& crate::model::value(new, Column::PayloadJson) == Datum::Text(e.payload_json@)
            &&& crate::model::value(new, Column::SentAtMs) == Datum::Int(e.sent_at_ms as i64 as int)
            &&& crate::model::value(new, Column::Delivered)
                == crate::laws::storing::bit(e.delivered)
            &&& crate::model::value(new, Column::DeliveryError)
                == crate::laws::storing::optional_text(e.delivery_error)
            &&& other is RecordId || other is TenantId || other is OperatorId || other is EventType
                || other is ChannelKind || other is ChannelTarget || other is PayloadJson
                || other is SentAtMs || other is Delivered || other is DeliveryError
                || crate::model::value(new, other) == db.default_of(Table::Notifications, other)
            &&& s->Insert_conflict == ConflictView::Ignore(seq![Column::RecordId])
        }),
{
    broadcast use {group_rows, group_filters};
}

} // verus!
