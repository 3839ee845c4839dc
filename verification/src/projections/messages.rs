//! What mailbox, channel, notification and signal events write.

use crate::domain::ProjectKey;
use crate::error::{ErrorView, StoreError};
use crate::json::encode_strings;
use crate::plan::{one, Moment, Planned};
use crate::schema::{Column, Table};
use crate::statement::{only, Cells, Changes, ChangesView, Filter, FilterView, RowView, Statement};
use crate::text::{fits_i64, i32_from_u32};
use crate::value::{flag, opt_text, text, SqlType, SqlValue, ValueView};
use vstd::prelude::*;
use vstd::string::*;

verus! {

/// A message was put into a mailbox.
#[derive(Debug, PartialEq, Eq)]
pub struct MailboxMessageAppended {
    pub message_id: String,
    pub project: ProjectKey,
    pub run_id: Option<String>,
    pub task_id: Option<String>,
}

impl MailboxMessageAppended {
    /// What the event writes.
    pub open spec fn writes(self, at: Moment) -> Planned {
        Planned::Writes(
            seq![
                RowView::new()
                    .put(Column::MessageId, ValueView::Text(self.message_id@))
                    .put(Column::TenantId, ValueView::Text(self.project.tenant_id@))
                    .put(Column::WorkspaceId, ValueView::Text(self.project.workspace_id@))
                    .put(Column::ProjectId, ValueView::Text(self.project.project_id@))
                    .put(Column::RunId, ValueView::opt_text(self.run_id))
                    .put(Column::TaskId, ValueView::opt_text(self.task_id))
                    .put(Column::Version, ValueView::Int8(1))
                    .put(Column::CreatedAt, ValueView::Int8(at.now))
                    .insert(Table::MailboxMessages),
            ],
        )
    }

    /// Plans what the event writes.
    pub fn plan(&self, at: &Moment) -> (r: Result<Vec<Statement>, StoreError>)
        ensures
            Planned::of(r) == self.writes(*at),
    {
        let mut row = Cells::new();
        row.put(Column::MessageId, text(&self.message_id));
        row.put(Column::TenantId, text(&self.project.tenant_id));
        row.put(Column::WorkspaceId, text(&self.project.workspace_id));
        row.put(Column::ProjectId, text(&self.project.project_id));
        row.put(Column::RunId, opt_text(&self.run_id));
        row.put(Column::TaskId, opt_text(&self.task_id));
        row.put(Column::Version, SqlValue::Int8(1));
        row.put(Column::CreatedAt, SqlValue::Int8(at.now));
        one(row.insert(Table::MailboxMessages))
    }
}

/// A channel was created.
#[derive(Debug, PartialEq, Eq)]
pub struct ChannelCreated {
    pub capacity: u32,
    pub created_at_ms: u64,
    pub channel_id: String,
    pub project: ProjectKey,
    pub name: String,
}

impl ChannelCreated {
    /// What the event writes.
    pub open spec fn writes(self, at: Moment) -> Planned {
        if self.capacity > i32::MAX {
            Planned::Refused(
                ErrorView::exceeds_integer_column("ChannelCreated.capacity"@, self.capacity as nat),
            )
        } else if self.created_at_ms > i64::MAX {
            Planned::Refused(
                ErrorView::exceeds(
                    "ChannelCreated.created_at_ms"@,
                    self.created_at_ms as nat,
                    "i64::MAX"@,
                ),
            )
        } else {
            Planned::Writes(
                seq![
                    RowView::new()
                        .put(Column::ChannelId, ValueView::Text(self.channel_id@))
                        .put(Column::TenantId, ValueView::Text(self.project.tenant_id@))
                        .put(Column::WorkspaceId, ValueView::Text(self.project.workspace_id@))
                        .put(Column::ProjectId, ValueView::Text(self.project.project_id@))
                        .put(Column::Name, ValueView::Text(self.name@))
                        .put(Column::Capacity, ValueView::Int4(self.capacity as i32))
                        .put(Column::CreatedAtMs, ValueView::Int8(self.created_at_ms as i64))
                        .put(Column::UpdatedAtMs, ValueView::Int8(self.created_at_ms as i64))
                        .insert_new(Table::Channels, seq![Column::ChannelId]),
                ],
            )
        }
    }

    /// Plans what the event writes.
    pub fn plan(&self, at: &Moment) -> (r: Result<Vec<Statement>, StoreError>)
        ensures
            Planned::of(r) == self.writes(*at),
    {
        let capacity: i32 = match i32_from_u32("ChannelCreated.capacity", self.capacity) {
            Ok(v) => v,
            Err(e) => return Err(e),
        };
        let created_at: i64 = match fits_i64("ChannelCreated.created_at_ms", self.created_at_ms) {
            Ok(v) => v,
            Err(e) => return Err(e),
        };
        let mut row = Cells::new();
        row.put(Column::ChannelId, text(&self.channel_id));
        row.put(Column::TenantId, text(&self.project.tenant_id));
        row.put(Column::WorkspaceId, text(&self.project.workspace_id));
        row.put(Column::ProjectId, text(&self.project.project_id));
        row.put(Column::Name, text(&self.name));
        row.put(Column::Capacity, SqlValue::Int4(capacity));
        row.put(Column::CreatedAtMs, SqlValue::Int8(created_at));
        row.put(Column::UpdatedAtMs, SqlValue::Int8(created_at));
        one(row.insert_new(Table::Channels, only(Column::ChannelId)))
    }
}

/// A message was sent to a channel.
#[derive(Debug, PartialEq, Eq)]
pub struct ChannelMessageSent {
    pub sent_at_ms: u64,
    pub channel_id: String,
    pub message_id: String,
    pub sender_id: String,
    pub body: String,
}

impl ChannelMessageSent {
    /// What the event writes.
    pub open spec fn writes(self, at: Moment) -> Planned {
        if self.sent_at_ms > i64::MAX {
            Planned::Refused(
                ErrorView::exceeds(
                    "ChannelMessageSent.sent_at_ms"@,
                    self.sent_at_ms as nat,
                    "i64::MAX"@,
                ),
            )
        } else {
            Planned::Writes(
                seq![
                    RowView::new()
                        .put(Column::ChannelId, ValueView::Text(self.channel_id@))
                        .put(Column::MessageId, ValueView::Text(self.message_id@))
                        .put(Column::SenderId, ValueView::Text(self.sender_id@))
                        .put(Column::Body, ValueView::Text(self.body@))
                        .put(Column::SentAtMs, ValueView::Int8(self.sent_at_ms as i64))
                        .put(Column::ConsumedBy, ValueView::Null(SqlType::Text))
                        .put(Column::ConsumedAtMs, ValueView::Null(SqlType::Int8))
                        .insert_new(
                            Table::ChannelMessages,
                            seq![Column::ChannelId, Column::MessageId],
                        ),
                ],
            )
        }
    }

    /// Plans what the event writes.
    pub fn plan(&self, at: &Moment) -> (r: Result<Vec<Statement>, StoreError>)
        ensures
            Planned::of(r) == self.writes(*at),
    {
        let sent_at: i64 = match fits_i64("ChannelMessageSent.sent_at_ms", self.sent_at_ms) {
            Ok(v) => v,
            Err(e) => return Err(e),
        };
        let mut row = Cells::new();
        row.put(Column::ChannelId, text(&self.channel_id));
        row.put(Column::MessageId, text(&self.message_id));
        row.put(Column::SenderId, text(&self.sender_id));
        row.put(Column::Body, text(&self.body));
        row.put(Column::SentAtMs, SqlValue::Int8(sent_at));
        row.put(Column::ConsumedBy, SqlValue::Null(SqlType::Text));
        row.put(Column::ConsumedAtMs, SqlValue::Null(SqlType::Int8));
        one(row.insert_new(Table::ChannelMessages, vec![Column::ChannelId, Column::MessageId]))
    }
}

/// A message of a channel was consumed.
#[derive(Debug, PartialEq, Eq)]
pub struct ChannelMessageConsumed {
    pub consumed_at_ms: u64,
    pub channel_id: String,
    pub message_id: String,
    pub consumed_by: String,
}

impl ChannelMessageConsumed {
    /// What the event writes.
    pub open spec fn writes(self, at: Moment) -> Planned {
        if self.consumed_at_ms > i64::MAX {
            Planned::Refused(
                ErrorView::exceeds(
                    "ChannelMessageConsumed.consumed_at_ms"@,
                    self.consumed_at_ms as nat,
                    "i64::MAX"@,
                ),
            )
        } else {
            Planned::Writes(
                seq![
                    ChangesView::new()
                        .put(Column::ConsumedBy, ValueView::Text(self.consumed_by@))
                        .put(Column::ConsumedAtMs, ValueView::Int8(self.consumed_at_ms as i64))
                        .update(
                            Table::ChannelMessages,
                            FilterView::new()
                                .equals(Column::ChannelId, ValueView::Text(self.channel_id@))
                                .equals(Column::MessageId, ValueView::Text(self.message_id@)),
                        ),
                ],
            )
        }
    }

    /// Plans what the event writes.
    pub fn plan(&self, at: &Moment) -> (r: Result<Vec<Statement>, StoreError>)
        ensures
            Planned::of(r) == self.writes(*at),
    {
        let consumed_at: i64 = match fits_i64(
            "ChannelMessageConsumed.consumed_at_ms",
            self.consumed_at_ms,
        ) {
            Ok(v) => v,
            Err(e) => return Err(e),
        };
        let mut changes = Changes::new();
        changes.put(Column::ConsumedBy, text(&self.consumed_by));
        changes.put(Column::ConsumedAtMs, SqlValue::Int8(consumed_at));
        let mut filter = Filter::new();
        filter.equals(Column::ChannelId, text(&self.channel_id));
        filter.equals(Column::MessageId, text(&self.message_id));
        one(changes.update(Table::ChannelMessages, filter))
    }
}

/// An operator chose which notifications to get.
#[derive(Debug, PartialEq, Eq)]
pub struct NotificationPreferenceSet {
    pub event_types: Vec<String>,
    pub channels_json: String,
    pub set_at_ms: u64,
    pub tenant_id: String,
    pub operator_id: String,
}

impl NotificationPreferenceSet {
    /// What the event writes.
    pub open spec fn writes(self, at: Moment) -> Planned {
        if self.set_at_ms > i64::MAX {
            Planned::Refused(
                ErrorView::exceeds(
                    "NotificationPreferenceSet.set_at_ms"@,
                    self.set_at_ms as nat,
                    "i64::MAX"@,
                ),
            )
        } else {
            Planned::Writes(
                seq![
                    RowView::new()
                        .put(Column::TenantId, ValueView::Text(self.tenant_id@))
                        .put(Column::OperatorId, ValueView::Text(self.operator_id@))
                        .put(
                            Column::PrefId,
                            ValueView::Text(self.tenant_id@ + ":"@ + self.operator_id@),
                        )
                        .put(
                            Column::EventTypesJson,
                            ValueView::Text(
                                crate::json::strings_as_json(self.event_types.deep_view()),
                            ),
                        )
                        .put(Column::ChannelsJson, ValueView::Text(self.channels_json@))
                        .put(Column::SetAtMs, ValueView::Int8(self.set_at_ms as i64))
                        .upsert(
                            Table::NotificationPreferences,
                            seq![Column::TenantId, Column::OperatorId],
                            ChangesView::new()
                                .excluded(Column::PrefId)
                                .excluded(Column::EventTypesJson)
                                .excluded(Column::ChannelsJson)
                                .excluded(Column::SetAtMs),
                        ),
                ],
            )
        }
    }

    /// Plans what the event writes.
    pub fn plan(&self, at: &Moment) -> (r: Result<Vec<Statement>, StoreError>)
        ensures
            Planned::of(r) == self.writes(*at),
            r is Ok ==> crate::json::keeps(self.event_types.deep_view()),
    {
        let event_types_json: String = match encode_strings(&self.event_types) {
            Ok(t) => t,
            Err(m) => return Err(StoreError::Serialization(m)),
        };
        let set_at: i64 = match fits_i64("NotificationPreferenceSet.set_at_ms", self.set_at_ms) {
            Ok(v) => v,
            Err(e) => return Err(e),
        };
        let mut pref_id: String = self.tenant_id.clone();
        pref_id.append(":");
        pref_id.append(&self.operator_id);
        let mut row = Cells::new();
        row.put(Column::TenantId, text(&self.tenant_id));
        row.put(Column::OperatorId, text(&self.operator_id));
        row.put(Column::PrefId, SqlValue::Text(pref_id));
        row.put(Column::EventTypesJson, SqlValue::Text(event_types_json));
        row.put(Column::ChannelsJson, text(&self.channels_json));
        row.put(Column::SetAtMs, SqlValue::Int8(set_at));
        let mut changes = Changes::new();
        changes.excluded(Column::PrefId);
        changes.excluded(Column::EventTypesJson);
        changes.excluded(Column::ChannelsJson);
        changes.excluded(Column::SetAtMs);
        one(
            row.upsert(
                Table::NotificationPreferences,
                vec![Column::TenantId, Column::OperatorId],
                changes,
            ),
        )
    }
}

/// A notification was sent.
#[derive(Debug, PartialEq, Eq)]
pub struct NotificationSent {
    pub payload_json: String,
    pub sent_at_ms: u64,
    pub record_id: String,
    pub tenant_id: String,
    pub operator_id: String,
    pub event_type: String,
    pub channel_kind: String,
    pub channel_target: String,
    pub delivered: bool,
    pub delivery_error: Option<String>,
}

impl NotificationSent {
    /// What the event writes.
    pub open spec fn writes(self, at: Moment) -> Planned {
        if self.sent_at_ms > i64::MAX {
            Planned::Refused(
                ErrorView::exceeds(
                    "NotificationSent.sent_at_ms"@,
                    self.sent_at_ms as nat,
                    "i64::MAX"@,
                ),
            )
        } else {
            Planned::Writes(
                seq![
                    RowView::new()
                        .put(Column::RecordId, ValueView::Text(self.record_id@))
                        .put(Column::TenantId, ValueView::Text(self.tenant_id@))
                        .put(Column::OperatorId, ValueView::Text(self.operator_id@))
                        .put(Column::EventType, ValueView::Text(self.event_type@))
                        .put(Column::ChannelKind, ValueView::Text(self.channel_kind@))
                        .put(Column::ChannelTarget, ValueView::Text(self.channel_target@))
                        .put(Column::PayloadJson, ValueView::Text(self.payload_json@))
                        .put(Column::SentAtMs, ValueView::Int8(self.sent_at_ms as i64))
                        .put(Column::Delivered, ValueView::flag(self.delivered))
                        .put(Column::DeliveryError, ValueView::opt_text(self.delivery_error))
                        .insert_new(Table::Notifications, seq![Column::RecordId]),
                ],
            )
        }
    }

    /// Plans what the event writes.
    pub fn plan(&self, at: &Moment) -> (r: Result<Vec<Statement>, StoreError>)
        ensures
            Planned::of(r) == self.writes(*at),
    {
        let sent_at: i64 = match fits_i64("NotificationSent.sent_at_ms", self.sent_at_ms) {
            Ok(v) => v,
            Err(e) => return Err(e),
        };
        let mut row = Cells::new();
        row.put(Column::RecordId, text(&self.record_id));
        row.put(Column::TenantId, text(&self.tenant_id));
        row.put(Column::OperatorId, text(&self.operator_id));
        row.put(Column::EventType, text(&self.event_type));
        row.put(Column::ChannelKind, text(&self.channel_kind));
        row.put(Column::ChannelTarget, text(&self.channel_target));
        row.put(Column::PayloadJson, text(&self.payload_json));
        row.put(Column::SentAtMs, SqlValue::Int8(sent_at));
        row.put(Column::Delivered, flag(self.delivered));
        row.put(Column::DeliveryError, opt_text(&self.delivery_error));
        one(row.insert_new(Table::Notifications, only(Column::RecordId)))
    }
}

/// A signal came in.
#[derive(Debug, PartialEq, Eq)]
pub struct SignalIngested {
    pub timestamp_ms: u64,
    pub payload_json: String,
    pub signal_id: String,
    pub project: ProjectKey,
    pub source: String,
}

impl SignalIngested {
    /// What the event writes.
    pub open spec fn writes(self, at: Moment) -> Planned {
        if self.timestamp_ms > i64::MAX {
            Planned::Refused(
                ErrorView::exceeds(
                    "SignalIngested.timestamp_ms"@,
                    self.timestamp_ms as nat,
                    "i64::MAX"@,
                ),
            )
        } else {
            Planned::Writes(
                seq![
                    RowView::new()
                        .put(Column::SignalId, ValueView::Text(self.signal_id@))
                        .put(Column::TenantId, ValueView::Text(self.project.tenant_id@))
                        .put(Column::WorkspaceId, ValueView::Text(self.project.workspace_id@))
                        .put(Column::ProjectId, ValueView::Text(self.project.project_id@))
                        .put(Column::Source, ValueView::Text(self.source@))
                        .put(Column::PayloadJson, ValueView::Text(self.payload_json@))
                        .put(Column::TimestampMs, ValueView::Int8(self.timestamp_ms as i64))
                        .insert_new(Table::SignalIngestions, seq![Column::SignalId]),
                ],
            )
        }
    }

    /// Plans what the event writes.
    pub fn plan(&self, at: &Moment) -> (r: Result<Vec<Statement>, StoreError>)
        ensures
            Planned::of(r) == self.writes(*at),
    {
        let timestamp_ms: i64 = match fits_i64("SignalIngested.timestamp_ms", self.timestamp_ms) {
            Ok(v) => v,
            Err(e) => return Err(e),
        };
        let mut row = Cells::new();
        row.put(Column::SignalId, text(&self.signal_id));
        row.put(Column::TenantId, text(&self.project.tenant_id));
        row.put(Column::WorkspaceId, text(&self.project.workspace_id));
        row.put(Column::ProjectId, text(&self.project.project_id));
        row.put(Column::Source, text(&self.source));
        row.put(Column::PayloadJson, text(&self.payload_json));
        row.put(Column::TimestampMs, SqlValue::Int8(timestamp_ms));
        one(row.insert_new(Table::SignalIngestions, only(Column::SignalId)))
    }
}

} // verus!
