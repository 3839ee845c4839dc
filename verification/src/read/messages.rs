//! Messages, channels, notifications, signals and completions.

use crate::domain::{DomainNames, ProjectKey, ProjectView};
use crate::error::{ErrorView, StoreError};
use crate::json::{decode_strings, refusal};
use crate::model::Datum;
use crate::query::{Output, OutputView, Query, QueryView};
use crate::read::{Decoded, StoredRow, decoded_fault, to_floor4, to_floor8, to_opt_floor8};
use crate::schema::{Column, Table};
use crate::statement::{Test, TestView};
use crate::text::fits_i64;
use crate::value::{SqlValue, ValueView, text};
use vstd::prelude::*;
use vstd::string::*;

verus! {

/// A row of `mailbox_messages`.
#[derive(Debug, PartialEq, Eq)]
pub struct MailboxRow {
    pub message_id: String,
    pub tenant_id: String,
    pub workspace_id: String,
    pub project_id: String,
    pub run_id: Option<String>,
    pub task_id: Option<String>,
    pub version: i64,
    pub created_at: i64,
}

/// A message to a run or a task. Only what the row holds is filled in.
#[derive(Debug, PartialEq, Eq)]
pub struct MailboxRecord {
    pub message_id: String,
    pub project: ProjectKey,
    pub run_id: Option<String>,
    pub task_id: Option<String>,
    pub from_task_id: Option<String>,
    pub content: String,
    pub from_run_id: Option<String>,
    pub deliver_at_ms: u64,
    pub sender: Option<String>,
    pub recipient: Option<String>,
    pub body: Option<String>,
    pub sent_at: Option<u64>,
    pub delivery_status: Option<String>,
    pub version: u64,
    pub created_at: u64,
}

impl MailboxRow {
    /// The columns that the row is read from.
    pub open spec fn spec_columns() -> Seq<Column> {
        seq![
            Column::MessageId,
            Column::TenantId,
            Column::WorkspaceId,
            Column::ProjectId,
            Column::RunId,
            Column::TaskId,
            Column::Version,
            Column::CreatedAt,
        ]
    }

    fn columns() -> (r: Vec<Column>)
        ensures
            r@ == Self::spec_columns(),
    {
        vec![
            Column::MessageId,
            Column::TenantId,
            Column::WorkspaceId,
            Column::ProjectId,
            Column::RunId,
            Column::TaskId,
            Column::Version,
            Column::CreatedAt,
        ]
    }

    /// Whether this is what a stored row holds in those columns.
    pub open spec fn is_of(self, row: crate::model::Row) -> bool {
        &&& crate::model::value(row, Column::MessageId) == Datum::Text(self.message_id@)
        &&& crate::model::value(row, Column::TenantId) == Datum::Text(self.tenant_id@)
        &&& crate::model::value(row, Column::WorkspaceId) == Datum::Text(self.workspace_id@)
        &&& crate::model::value(row, Column::ProjectId) == Datum::Text(self.project_id@)
        &&& crate::model::value(row, Column::RunId) == Datum::opt_text(self.run_id)
        &&& crate::model::value(row, Column::TaskId) == Datum::opt_text(self.task_id)
        &&& crate::model::value(row, Column::Version) == Datum::Int(self.version as int)
        &&& crate::model::value(row, Column::CreatedAt) == Datum::Int(self.created_at as int)
    }

    /// The query of [`MailboxRow::get`].
    pub open spec fn spec_get(message_id: Seq<char>) -> QueryView {
        QueryView::on(Table::MailboxMessages, OutputView::Rows(Self::spec_columns()))
            .equals(Column::MessageId, ValueView::Text(message_id))
    }

    /// Finds a message.
    pub fn get(message_id: &str) -> (r: Query)
        ensures
            r@ == Self::spec_get(message_id@),
    {
        Query::on(Table::MailboxMessages, Output::Rows(Self::columns()))
            .equals(Column::MessageId, text(message_id))
    }

    /// The query of [`MailboxRow::list_by_run`].
    pub open spec fn spec_list_by_run(run_id: Seq<char>, limit: usize, offset: usize) -> QueryView {
        QueryView::on(Table::MailboxMessages, OutputView::Rows(Self::spec_columns()))
            .equals(Column::RunId, ValueView::Text(run_id))
            .ascending(Column::CreatedAt)
            .ascending(Column::MessageId)
            .limit(limit as i64)
            .offset(offset as i64)
    }

    /// The messages to a run, the oldest first.
    pub fn list_by_run(run_id: &str, limit: usize, offset: usize) -> (r: Query)
        ensures
            r@ == Self::spec_list_by_run(run_id@, limit, offset),
    {
        Query::on(Table::MailboxMessages, Output::Rows(Self::columns()))
            .equals(Column::RunId, text(run_id))
            .ascending(Column::CreatedAt)
            .ascending(Column::MessageId)
            .limit(limit as i64)
            .offset(offset as i64)
    }

    /// The query of [`MailboxRow::list_by_task`].
    pub open spec fn spec_list_by_task(
        task_id: Seq<char>,
        limit: usize,
        offset: usize,
    ) -> QueryView {
        QueryView::on(Table::MailboxMessages, OutputView::Rows(Self::spec_columns()))
            .equals(Column::TaskId, ValueView::Text(task_id))
            .ascending(Column::CreatedAt)
            .ascending(Column::MessageId)
            .limit(limit as i64)
            .offset(offset as i64)
    }

    /// The messages to a task, the oldest first.
    pub fn list_by_task(task_id: &str, limit: usize, offset: usize) -> (r: Query)
        ensures
            r@ == Self::spec_list_by_task(task_id@, limit, offset),
    {
        Query::on(Table::MailboxMessages, Output::Rows(Self::columns()))
            .equals(Column::TaskId, text(task_id))
            .ascending(Column::CreatedAt)
            .ascending(Column::MessageId)
            .limit(limit as i64)
            .offset(offset as i64)
    }
}

impl MailboxRow {
    /// The messages that are due. No message is stored with a time, so there
    /// are none.
    pub fn list_pending(_now_ms: u64, _limit: usize) -> (r: Vec<MailboxRecord>)
        ensures
            r@.len() == 0,
    {
        Vec::new()
    }
}

impl StoredRow for MailboxRow {
    type Record = MailboxRecord;

    open spec fn fault(&self, names: &DomainNames) -> Option<ErrorView> {
        None
    }

    open spec fn holds(&self, names: &DomainNames, record: &MailboxRecord) -> bool {
        &&& record.message_id == self.message_id
        &&& record.project == (ProjectKey {
            tenant_id: self.tenant_id,
            workspace_id: self.workspace_id,
            project_id: self.project_id,
        })
        &&& record.run_id == self.run_id
        &&& record.task_id == self.task_id
        &&& record.from_task_id is None
        &&& record.content@ == Seq::<char>::empty()
        &&& record.from_run_id is None
        &&& record.deliver_at_ms == 0
        &&& record.sender is None
        &&& record.recipient is None
        &&& record.body is None
        &&& record.sent_at is None
        &&& record.delivery_status is None
        &&& record.version == self.version as u64
        &&& record.created_at == self.created_at as u64
    }

    fn into_record(self, names: &DomainNames) -> (r: Result<MailboxRecord, StoreError>) {
        Ok(
            MailboxRecord {
                message_id: self.message_id,
                project: ProjectKey {
                    tenant_id: self.tenant_id,
                    workspace_id: self.workspace_id,
                    project_id: self.project_id,
                },
                run_id: self.run_id,
                task_id: self.task_id,
                from_task_id: None,
                content: String::new(),
                from_run_id: None,
                deliver_at_ms: 0,
                sender: None,
                recipient: None,
                body: None,
                sent_at: None,
                delivery_status: None,
                version: self.version as u64,
                created_at: self.created_at as u64,
            },
        )
    }
}

/// A row of `channels`.
#[derive(Debug, PartialEq, Eq)]
pub struct ChannelRow {
    pub channel_id: String,
    pub tenant_id: String,
    pub workspace_id: String,
    pub project_id: String,
    pub name: String,
    pub capacity: i32,
    pub created_at_ms: i64,
    pub updated_at_ms: i64,
}

/// A channel.
#[derive(Debug, PartialEq, Eq)]
pub struct ChannelRecord {
    pub channel_id: String,
    pub project: ProjectKey,
    pub name: String,
    pub capacity: u32,
    pub created_at: u64,
    pub updated_at: u64,
}

impl ChannelRow {
    /// The columns that the row is read from.
    pub open spec fn spec_columns() -> Seq<Column> {
        seq![
            Column::ChannelId,
            Column::TenantId,
            Column::WorkspaceId,
            Column::ProjectId,
            Column::Name,
            Column::Capacity,
            Column::CreatedAtMs,
            Column::UpdatedAtMs,
        ]
    }

    fn columns() -> (r: Vec<Column>)
        ensures
            r@ == Self::spec_columns(),
    {
        vec![
            Column::ChannelId,
            Column::TenantId,
            Column::WorkspaceId,
            Column::ProjectId,
            Column::Name,
            Column::Capacity,
            Column::CreatedAtMs,
            Column::UpdatedAtMs,
        ]
    }

    /// Whether this is what a stored row holds in those columns.
    pub open spec fn is_of(self, row: crate::model::Row) -> bool {
        &&& crate::model::value(row, Column::ChannelId) == Datum::Text(self.channel_id@)
        &&& crate::model::value(row, Column::TenantId) == Datum::Text(self.tenant_id@)
        &&& crate::model::value(row, Column::WorkspaceId) == Datum::Text(self.workspace_id@)
        &&& crate::model::value(row, Column::ProjectId) == Datum::Text(self.project_id@)
        &&& crate::model::value(row, Column::Name) == Datum::Text(self.name@)
        &&& crate::model::value(row, Column::Capacity) == Datum::Int(self.capacity as int)
        &&& crate::model::value(row, Column::CreatedAtMs) == Datum::Int(self.created_at_ms as int)
        &&& crate::model::value(row, Column::UpdatedAtMs) == Datum::Int(self.updated_at_ms as int)
    }

    /// The query of [`ChannelRow::get_channel`].
    pub open spec fn spec_get_channel(channel_id: Seq<char>) -> QueryView {
        QueryView::on(Table::Channels, OutputView::Rows(Self::spec_columns()))
            .equals(Column::ChannelId, ValueView::Text(channel_id))
    }

    /// Finds a channel.
    pub fn get_channel(channel_id: &str) -> (r: Query)
        ensures
            r@ == Self::spec_get_channel(channel_id@),
    {
        Query::on(Table::Channels, Output::Rows(Self::columns()))
            .equals(Column::ChannelId, text(channel_id))
    }

    /// The query of [`ChannelRow::list_channels`].
    pub open spec fn spec_list_channels(
        project: ProjectView,
        limit: usize,
        offset: usize,
    ) -> QueryView {
        QueryView::on(Table::Channels, OutputView::Rows(Self::spec_columns()))
            .equals(Column::TenantId, ValueView::Text(project.tenant_id))
            .equals(Column::WorkspaceId, ValueView::Text(project.workspace_id))
            .equals(Column::ProjectId, ValueView::Text(project.project_id))
            .ascending(Column::CreatedAtMs)
            .ascending(Column::ChannelId)
            .limit(limit as i64)
            .offset(offset as i64)
    }

    /// The channels of a project, the oldest first.
    pub fn list_channels(project: &ProjectKey, limit: usize, offset: usize) -> (r: Query)
        ensures
            r@ == Self::spec_list_channels(project@, limit, offset),
            r@.stays_in(Column::WorkspaceId, project@),
    {
        let query = Query::on(Table::Channels, Output::Rows(Self::columns()))
            .equals(Column::TenantId, text(&project.tenant_id))
            .equals(Column::WorkspaceId, text(&project.workspace_id))
            .equals(Column::ProjectId, text(&project.project_id))
            .ascending(Column::CreatedAtMs)
            .ascending(Column::ChannelId)
            .limit(limit as i64)
            .offset(offset as i64);
        proof {
            query@.tests_keep_to_a_project(0, Column::WorkspaceId, project@);
        }
        query
    }
}

impl StoredRow for ChannelRow {
    type Record = ChannelRecord;

    open spec fn fault(&self, names: &DomainNames) -> Option<ErrorView> {
        None
    }

    open spec fn holds(&self, names: &DomainNames, record: &ChannelRecord) -> bool {
        &&& record.channel_id == self.channel_id
        &&& record.project == (ProjectKey {
            tenant_id: self.tenant_id,
            workspace_id: self.workspace_id,
            project_id: self.project_id,
        })
        &&& record.name == self.name
        &&& record.capacity == crate::read::floor4(self.capacity)
        &&& record.created_at == crate::read::floor8(self.created_at_ms)
        &&& record.updated_at == crate::read::floor8(self.updated_at_ms)
    }

    fn into_record(self, names: &DomainNames) -> (r: Result<ChannelRecord, StoreError>) {
        Ok(
            ChannelRecord {
                channel_id: self.channel_id,
                project: ProjectKey {
                    tenant_id: self.tenant_id,
                    workspace_id: self.workspace_id,
                    project_id: self.project_id,
                },
                name: self.name,
                capacity: to_floor4(self.capacity),
                created_at: to_floor8(self.created_at_ms),
                updated_at: to_floor8(self.updated_at_ms),
            },
        )
    }
}

/// A row of `channel_messages`.
#[derive(Debug, PartialEq, Eq)]
pub struct ChannelMessageRow {
    pub channel_id: String,
    pub message_id: String,
    pub sender_id: String,
    pub body: String,
    pub sent_at_ms: i64,
    pub consumed_by: Option<String>,
    pub consumed_at_ms: Option<i64>,
}

/// A message in a channel.
#[derive(Debug, PartialEq, Eq)]
pub struct ChannelMessage {
    pub channel_id: String,
    pub message_id: String,
    pub sender_id: String,
    pub body: String,
    pub sent_at_ms: u64,
    pub consumed_by: Option<String>,
    pub consumed_at_ms: Option<u64>,
}

impl ChannelMessageRow {
    /// The columns that the row is read from.
    pub open spec fn spec_columns() -> Seq<Column> {
        seq![
            Column::ChannelId,
            Column::MessageId,
            Column::SenderId,
            Column::Body,
            Column::SentAtMs,
            Column::ConsumedBy,
            Column::ConsumedAtMs,
        ]
    }

    fn columns() -> (r: Vec<Column>)
        ensures
            r@ == Self::spec_columns(),
    {
        vec![
            Column::ChannelId,
            Column::MessageId,
            Column::SenderId,
            Column::Body,
            Column::SentAtMs,
            Column::ConsumedBy,
            Column::ConsumedAtMs,
        ]
    }

    /// Whether this is what a stored row holds in those columns.
    pub open spec fn is_of(self, row: crate::model::Row) -> bool {
        &&& crate::model::value(row, Column::ChannelId) == Datum::Text(self.channel_id@)
        &&& crate::model::value(row, Column::MessageId) == Datum::Text(self.message_id@)
        &&& crate::model::value(row, Column::SenderId) == Datum::Text(self.sender_id@)
        &&& crate::model::value(row, Column::Body) == Datum::Text(self.body@)
        &&& crate::model::value(row, Column::SentAtMs) == Datum::Int(self.sent_at_ms as int)
        &&& crate::model::value(row, Column::ConsumedBy) == Datum::opt_text(self.consumed_by)
        &&& crate::model::value(row, Column::ConsumedAtMs) == Datum::opt_int8(self.consumed_at_ms)
    }

    /// The query of [`ChannelMessageRow::list_messages`].
    pub open spec fn spec_list_messages(channel_id: Seq<char>, limit: usize) -> QueryView {
        QueryView::on(Table::ChannelMessages, OutputView::Rows(Self::spec_columns()))
            .equals(Column::ChannelId, ValueView::Text(channel_id))
            .ascending(Column::SentAtMs)
            .ascending(Column::MessageId)
            .limit(limit as i64)
    }

    /// The messages in a channel, the oldest first.
    pub fn list_messages(channel_id: &str, limit: usize) -> (r: Query)
        ensures
            r@ == Self::spec_list_messages(channel_id@, limit),
    {
        Query::on(Table::ChannelMessages, Output::Rows(Self::columns()))
            .equals(Column::ChannelId, text(channel_id))
            .ascending(Column::SentAtMs)
            .ascending(Column::MessageId)
            .limit(limit as i64)
    }
}

impl StoredRow for ChannelMessageRow {
    type Record = ChannelMessage;

    open spec fn fault(&self, names: &DomainNames) -> Option<ErrorView> {
        None
    }

    open spec fn holds(&self, names: &DomainNames, record: &ChannelMessage) -> bool {
        &&& record.channel_id == self.channel_id
        &&& record.message_id == self.message_id
        &&& record.sender_id == self.sender_id
        &&& record.body == self.body
        &&& record.sent_at_ms == crate::read::floor8(self.sent_at_ms)
        &&& record.consumed_by == self.consumed_by
        &&& record.consumed_at_ms == crate::read::opt_floor8(self.consumed_at_ms)
    }

    fn into_record(self, names: &DomainNames) -> (r: Result<ChannelMessage, StoreError>) {
        Ok(
            ChannelMessage {
                channel_id: self.channel_id,
                message_id: self.message_id,
                sender_id: self.sender_id,
                body: self.body,
                sent_at_ms: to_floor8(self.sent_at_ms),
                consumed_by: self.consumed_by,
                consumed_at_ms: to_opt_floor8(self.consumed_at_ms),
            },
        )
    }
}

/// A row of `notification_preferences`.
#[derive(Debug, PartialEq, Eq)]
pub struct NotificationPrefRow {
    pub tenant_id: String,
    pub operator_id: String,
    pub pref_id: String,
    pub event_types_json: String,
    pub channels: Decoded,
}

/// What an operator wants to hear of, and where.
#[derive(Debug, PartialEq, Eq)]
pub struct NotificationPreference {
    pub pref_id: String,
    pub tenant_id: String,
    pub operator_id: String,
    pub event_types: Vec<String>,
    pub channels: String,
}

impl NotificationPrefRow {
    /// The columns that the row is read from.
    pub open spec fn spec_columns() -> Seq<Column> {
        seq![
            Column::TenantId,
            Column::OperatorId,
            Column::PrefId,
            Column::EventTypesJson,
            Column::ChannelsJson,
        ]
    }

    fn columns() -> (r: Vec<Column>)
        ensures
            r@ == Self::spec_columns(),
    {
        vec![
            Column::TenantId,
            Column::OperatorId,
            Column::PrefId,
            Column::EventTypesJson,
            Column::ChannelsJson,
        ]
    }

    /// Whether this is what a stored row holds in those columns.
    pub open spec fn is_of(self, row: crate::model::Row) -> bool {
        &&& crate::model::value(row, Column::TenantId) == Datum::Text(self.tenant_id@)
        &&& crate::model::value(row, Column::OperatorId) == Datum::Text(self.operator_id@)
        &&& crate::model::value(row, Column::PrefId) == Datum::Text(self.pref_id@)
        &&& crate::model::value(row, Column::EventTypesJson) == Datum::Text(self.event_types_json@)
        &&& crate::model::value(row, Column::ChannelsJson) == Datum::Text(self.channels.text@)
    }

    /// The query of [`NotificationPrefRow::get_preferences`].
    pub open spec fn spec_get_preferences(
        tenant_id: Seq<char>,
        operator_id: Seq<char>,
    ) -> QueryView {
        QueryView::on(
            Table::NotificationPreferences,
            OutputView::Rows(Self::spec_columns()),
        )
            .equals(Column::TenantId, ValueView::Text(tenant_id))
            .equals(Column::OperatorId, ValueView::Text(operator_id))
    }

    /// Finds the preferences of an operator.
    pub fn get_preferences(tenant_id: &str, operator_id: &str) -> (r: Query)
        ensures
            r@ == Self::spec_get_preferences(tenant_id@, operator_id@),
    {
        Query::on(Table::NotificationPreferences, Output::Rows(Self::columns()))
            .equals(Column::TenantId, text(tenant_id))
            .equals(Column::OperatorId, text(operator_id))
    }

    /// The query of [`NotificationPrefRow::list_preferences_by_tenant`].
    pub open spec fn spec_list_preferences_by_tenant(tenant_id: Seq<char>) -> QueryView {
        QueryView::on(
            Table::NotificationPreferences,
            OutputView::Rows(Self::spec_columns()),
        )
            .equals(Column::TenantId, ValueView::Text(tenant_id))
            .ascending(Column::OperatorId)
    }

    /// The preferences of a tenant's operators, by operator.
    pub fn list_preferences_by_tenant(tenant_id: &str) -> (r: Query)
        ensures
            r@ == Self::spec_list_preferences_by_tenant(tenant_id@),
    {
        Query::on(Table::NotificationPreferences, Output::Rows(Self::columns()))
            .equals(Column::TenantId, text(tenant_id))
            .ascending(Column::OperatorId)
    }
}

impl StoredRow for NotificationPrefRow {
    type Record = NotificationPreference;

    open spec fn fault(&self, names: &DomainNames) -> Option<ErrorView> {
        if crate::json::json_as_strings(self.event_types_json@) is Err {
            Some(
                ErrorView::Serialization(
                    crate::json::json_as_strings(self.event_types_json@)->Err_0,
                ),
            )
        } else if self.channels.fault is Some {
            Some(ErrorView::Serialization(self.channels.fault->Some_0@))
        } else {
            None
        }
    }

    open spec fn holds(&self, names: &DomainNames, record: &NotificationPreference) -> bool {
        &&& record.pref_id == self.pref_id
        &&& record.tenant_id == self.tenant_id
        &&& record.operator_id == self.operator_id
        &&& crate::json::json_as_strings(self.event_types_json@) == Ok::<Seq<Seq<char>>, Seq<char>>(
            record.event_types.deep_view(),
        )
        &&& record.channels == self.channels.text
    }

    fn into_record(self, names: &DomainNames) -> (r: Result<NotificationPreference, StoreError>) {
        let event_types = match decode_strings(&self.event_types_json) {
            Ok(v) => v,
            Err(m) => return Err(StoreError::Serialization(m)),
        };
        if let Some(e) = decoded_fault(&self.channels) {
            return Err(e);
        }
        Ok(
            NotificationPreference {
                pref_id: self.pref_id,
                tenant_id: self.tenant_id,
                operator_id: self.operator_id,
                event_types,
                channels: self.channels.text,
            },
        )
    }
}

/// A row of `notifications`.
#[derive(Debug, PartialEq, Eq)]
pub struct NotificationRecordRow {
    pub record_id: String,
    pub tenant_id: String,
    pub operator_id: String,
    pub event_type: String,
    pub channel_kind: String,
    pub channel_target: String,
    pub payload_json: String,
    pub sent_at_ms: i64,
    pub delivered: i32,
    pub delivery_error: Option<String>,
}

/// A notification that was sent. The payload is a JSON text.
#[derive(Debug, PartialEq, Eq)]
pub struct NotificationRecord {
    pub record_id: String,
    pub tenant_id: String,
    pub operator_id: String,
    pub event_type: String,
    pub channel_kind: String,
    pub channel_target: String,
    pub payload: String,
    pub sent_at_ms: u64,
    pub delivered: bool,
    pub delivery_error: Option<String>,
}

impl NotificationRecordRow {
    /// The columns that the row is read from.
    pub open spec fn spec_columns() -> Seq<Column> {
        seq![
            Column::RecordId,
            Column::TenantId,
            Column::OperatorId,
            Column::EventType,
            Column::ChannelKind,
            Column::ChannelTarget,
            Column::PayloadJson,
            Column::SentAtMs,
            Column::Delivered,
            Column::DeliveryError,
        ]
    }

    fn columns() -> (r: Vec<Column>)
        ensures
            r@ == Self::spec_columns(),
    {
        vec![
            Column::RecordId,
            Column::TenantId,
            Column::OperatorId,
            Column::EventType,
            Column::ChannelKind,
            Column::ChannelTarget,
            Column::PayloadJson,
            Column::SentAtMs,
            Column::Delivered,
            Column::DeliveryError,
        ]
    }

    /// Whether this is what a stored row holds in those columns.
    pub open spec fn is_of(self, row: crate::model::Row) -> bool {
        &&& crate::model::value(row, Column::RecordId) == Datum::Text(self.record_id@)
        &&& crate::model::value(row, Column::TenantId) == Datum::Text(self.tenant_id@)
        &&& crate::model::value(row, Column::OperatorId) == Datum::Text(self.operator_id@)
        &&& crate::model::value(row, Column::EventType) == Datum::Text(self.event_type@)
        &&& crate::model::value(row, Column::ChannelKind) == Datum::Text(self.channel_kind@)
        &&& crate::model::value(row, Column::ChannelTarget) == Datum::Text(self.channel_target@)
        &&& crate::model::value(row, Column::PayloadJson) == Datum::Text(self.payload_json@)
        &&& crate::model::value(row, Column::SentAtMs) == Datum::Int(self.sent_at_ms as int)
        &&& crate::model::value(row, Column::Delivered) == Datum::Int(self.delivered as int)
        &&& crate::model::value(row, Column::DeliveryError) == Datum::opt_text(self.delivery_error)
    }

    /// The query of [`NotificationRecordRow::list_sent_notifications`].
    pub open spec fn spec_list_sent_notifications(
        tenant_id: Seq<char>,
        since_ms: u64,
    ) -> QueryView {
        QueryView::on(Table::Notifications, OutputView::Rows(Self::spec_columns()))
            .equals(Column::TenantId, ValueView::Text(tenant_id))
            .test(TestView::AtLeast(Column::SentAtMs, ValueView::Int8(since_ms as i64)))
            .ascending(Column::SentAtMs)
            .ascending(Column::RecordId)
    }

    /// The notifications of a tenant from a time on, the oldest first. A time that is above the
    /// range of its column is refused.
    pub fn list_sent_notifications(tenant_id: &str, since_ms: u64) -> (r: Result<Query, StoreError>)
        ensures
            match r {
                Err(e) => {
                    ||| since_ms > i64::MAX
                        && e@ == ErrorView::exceeds("since_ms"@, since_ms as nat, "i64::MAX"@)
                },
                Ok(q) => {
                    &&& !(since_ms > i64::MAX)
                    &&& q@ == Self::spec_list_sent_notifications(tenant_id@, since_ms)
                },
            },
    {
        let since: i64 = match fits_i64("since_ms", since_ms) {
            Ok(v) => v,
            Err(e) => return Err(e),
        };
        Ok(
            Query::on(Table::Notifications, Output::Rows(Self::columns()))
                .equals(Column::TenantId, text(tenant_id))
                .test(Test::AtLeast(Column::SentAtMs, SqlValue::Int8(since)))
                .ascending(Column::SentAtMs)
                .ascending(Column::RecordId),
        )
    }

    /// The query of [`NotificationRecordRow::list_failed_notifications`].
    pub open spec fn spec_list_failed_notifications(tenant_id: Seq<char>) -> QueryView {
        QueryView::on(Table::Notifications, OutputView::Rows(Self::spec_columns()))
            .equals(Column::TenantId, ValueView::Text(tenant_id))
            .equals(Column::Delivered, ValueView::Int4(0))
            .ascending(Column::SentAtMs)
            .ascending(Column::RecordId)
    }

    /// The notifications of a tenant that were not delivered, the oldest first.
    pub fn list_failed_notifications(tenant_id: &str) -> (r: Query)
        ensures
            r@ == Self::spec_list_failed_notifications(tenant_id@),
    {
        Query::on(Table::Notifications, Output::Rows(Self::columns()))
            .equals(Column::TenantId, text(tenant_id))
            .equals(Column::Delivered, SqlValue::Int4(0))
            .ascending(Column::SentAtMs)
            .ascending(Column::RecordId)
    }
}

impl StoredRow for NotificationRecordRow {
    type Record = NotificationRecord;

    open spec fn fault(&self, names: &DomainNames) -> Option<ErrorView> {
        if crate::json::json_refusal(self.payload_json@) is Some {
            Some(ErrorView::Serialization(crate::json::json_refusal(self.payload_json@)->Some_0))
        } else {
            None
        }
    }

    open spec fn holds(&self, names: &DomainNames, record: &NotificationRecord) -> bool {
        &&& record.record_id == self.record_id
        &&& record.tenant_id == self.tenant_id
        &&& record.operator_id == self.operator_id
        &&& record.event_type == self.event_type
        &&& record.channel_kind == self.channel_kind
        &&& record.channel_target == self.channel_target
        &&& record.payload == self.payload_json
        &&& record.sent_at_ms == crate::read::floor8(self.sent_at_ms)
        &&& record.delivered == (self.delivered != 0)
        &&& record.delivery_error == self.delivery_error
    }

    fn into_record(self, names: &DomainNames) -> (r: Result<NotificationRecord, StoreError>) {
        if let Some(m) = refusal(&self.payload_json) {
            return Err(StoreError::Serialization(m));
        }
        Ok(
            NotificationRecord {
                record_id: self.record_id,
                tenant_id: self.tenant_id,
                operator_id: self.operator_id,
                event_type: self.event_type,
                channel_kind: self.channel_kind,
                channel_target: self.channel_target,
                payload: self.payload_json,
                sent_at_ms: to_floor8(self.sent_at_ms),
                delivered: self.delivered != 0,
                delivery_error: self.delivery_error,
            },
        )
    }
}

/// A row of `user_messages`.
#[derive(Debug, PartialEq, Eq)]
pub struct UserMessageRow {
    pub run_id: String,
    pub sequence: i64,
    pub tenant_id: String,
    pub workspace_id: String,
    pub project_id: String,
    pub session_id: String,
    pub event_id: String,
    pub content: String,
    pub appended_at_ms: i64,
}

/// What a user said to a run.
#[derive(Debug, PartialEq, Eq)]
pub struct UserMessageRecord {
    pub run_id: String,
    pub sequence: u64,
    pub project: ProjectKey,
    pub session_id: String,
    pub event_id: String,
    pub content: String,
    pub appended_at_ms: u64,
}

impl UserMessageRow {
    /// The columns that the row is read from.
    pub open spec fn spec_columns() -> Seq<Column> {
        seq![
            Column::RunId,
            Column::Sequence,
            Column::TenantId,
            Column::WorkspaceId,
            Column::ProjectId,
            Column::SessionId,
            Column::EventId,
            Column::Content,
            Column::AppendedAtMs,
        ]
    }

    fn columns() -> (r: Vec<Column>)
        ensures
            r@ == Self::spec_columns(),
    {
        vec![
            Column::RunId,
            Column::Sequence,
            Column::TenantId,
            Column::WorkspaceId,
            Column::ProjectId,
            Column::SessionId,
            Column::EventId,
            Column::Content,
            Column::AppendedAtMs,
        ]
    }

    /// Whether this is what a stored row holds in those columns.
    pub open spec fn is_of(self, row: crate::model::Row) -> bool {
        &&& crate::model::value(row, Column::RunId) == Datum::Text(self.run_id@)
        &&& crate::model::value(row, Column::Sequence) == Datum::Int(self.sequence as int)
        &&& crate::model::value(row, Column::TenantId) == Datum::Text(self.tenant_id@)
        &&& crate::model::value(row, Column::WorkspaceId) == Datum::Text(self.workspace_id@)
        &&& crate::model::value(row, Column::ProjectId) == Datum::Text(self.project_id@)
        &&& crate::model::value(row, Column::SessionId) == Datum::Text(self.session_id@)
        &&& crate::model::value(row, Column::EventId) == Datum::Text(self.event_id@)
        &&& crate::model::value(row, Column::Content) == Datum::Text(self.content@)
        &&& crate::model::value(row, Column::AppendedAtMs) == Datum::Int(self.appended_at_ms as int)
    }

    /// The query of [`UserMessageRow::list_by_run`].
    pub open spec fn spec_list_by_run(run_id: Seq<char>, limit: usize, offset: usize) -> QueryView {
        QueryView::on(Table::UserMessages, OutputView::Rows(Self::spec_columns()))
            .equals(Column::RunId, ValueView::Text(run_id))
            .ascending(Column::Sequence)
            .ascending(Column::AppendedAtMs)
            .limit(limit as i64)
            .offset(offset as i64)
    }

    /// What users said to a run, in order.
    pub fn list_by_run(run_id: &str, limit: usize, offset: usize) -> (r: Query)
        ensures
            r@ == Self::spec_list_by_run(run_id@, limit, offset),
    {
        Query::on(Table::UserMessages, Output::Rows(Self::columns()))
            .equals(Column::RunId, text(run_id))
            .ascending(Column::Sequence)
            .ascending(Column::AppendedAtMs)
            .limit(limit as i64)
            .offset(offset as i64)
    }

    /// The query of [`UserMessageRow::count_by_run`].
    pub open spec fn spec_count_by_run(run_id: Seq<char>) -> QueryView {
        QueryView::on(Table::UserMessages, OutputView::Count)
            .equals(Column::RunId, ValueView::Text(run_id))
    }

    /// How often users spoke to a run.
    pub fn count_by_run(run_id: &str) -> (r: Query)
        ensures
            r@ == Self::spec_count_by_run(run_id@),
    {
        Query::on(Table::UserMessages, Output::Count)
            .equals(Column::RunId, text(run_id))
    }
}

/// A count of messages, from what a query counted.
pub fn message_count(count: i64) -> (r: u64)
    ensures
        r == crate::read::floor8(count),
{
    to_floor8(count)
}

impl StoredRow for UserMessageRow {
    type Record = UserMessageRecord;

    open spec fn fault(&self, names: &DomainNames) -> Option<ErrorView> {
        None
    }

    open spec fn holds(&self, names: &DomainNames, record: &UserMessageRecord) -> bool {
        &&& record.run_id == self.run_id
        &&& record.sequence == crate::read::floor8(self.sequence)
        &&& record.project == (ProjectKey {
            tenant_id: self.tenant_id,
            workspace_id: self.workspace_id,
            project_id: self.project_id,
        })
        &&& record.session_id == self.session_id
        &&& record.event_id == self.event_id
        &&& record.content == self.content
        &&& record.appended_at_ms == crate::read::floor8(self.appended_at_ms)
    }

    fn into_record(self, names: &DomainNames) -> (r: Result<UserMessageRecord, StoreError>) {
        Ok(
            UserMessageRecord {
                run_id: self.run_id,
                sequence: to_floor8(self.sequence),
                project: ProjectKey {
                    tenant_id: self.tenant_id,
                    workspace_id: self.workspace_id,
                    project_id: self.project_id,
                },
                session_id: self.session_id,
                event_id: self.event_id,
                content: self.content,
                appended_at_ms: to_floor8(self.appended_at_ms),
            },
        )
    }
}

/// A row of `signal_ingestions`.
#[derive(Debug, PartialEq, Eq)]
pub struct SignalIngestionRow {
    pub signal_id: String,
    pub tenant_id: String,
    pub workspace_id: String,
    pub project_id: String,
    pub source: String,
    pub payload_json: String,
    pub timestamp_ms: i64,
}

/// A signal that came in. The payload is a JSON text.
#[derive(Debug, PartialEq, Eq)]
pub struct SignalRecord {
    pub id: String,
    pub project: ProjectKey,
    pub source: String,
    pub payload: String,
    pub timestamp_ms: u64,
}

impl SignalIngestionRow {
    /// The columns that the row is read from.
    pub open spec fn spec_columns() -> Seq<Column> {
        seq![
            Column::SignalId,
            Column::TenantId,
            Column::WorkspaceId,
            Column::ProjectId,
            Column::Source,
            Column::PayloadJson,
            Column::TimestampMs,
        ]
    }

    fn columns() -> (r: Vec<Column>)
        ensures
            r@ == Self::spec_columns(),
    {
        vec![
            Column::SignalId,
            Column::TenantId,
            Column::WorkspaceId,
            Column::ProjectId,
            Column::Source,
            Column::PayloadJson,
            Column::TimestampMs,
        ]
    }

    /// Whether this is what a stored row holds in those columns.
    pub open spec fn is_of(self, row: crate::model::Row) -> bool {
        &&& crate::model::value(row, Column::SignalId) == Datum::Text(self.signal_id@)
        &&& crate::model::value(row, Column::TenantId) == Datum::Text(self.tenant_id@)
        &&& crate::model::value(row, Column::WorkspaceId) == Datum::Text(self.workspace_id@)
        &&& crate::model::value(row, Column::ProjectId) == Datum::Text(self.project_id@)
        &&& crate::model::value(row, Column::Source) == Datum::Text(self.source@)
        &&& crate::model::value(row, Column::PayloadJson) == Datum::Text(self.payload_json@)
        &&& crate::model::value(row, Column::TimestampMs) == Datum::Int(self.timestamp_ms as int)
    }

    /// The query of [`SignalIngestionRow::get`].
    pub open spec fn spec_get(signal_id: Seq<char>) -> QueryView {
        QueryView::on(Table::SignalIngestions, OutputView::Rows(Self::spec_columns()))
            .equals(Column::SignalId, ValueView::Text(signal_id))
    }

    /// Finds a signal.
    pub fn get(signal_id: &str) -> (r: Query)
        ensures
            r@ == Self::spec_get(signal_id@),
    {
        Query::on(Table::SignalIngestions, Output::Rows(Self::columns()))
            .equals(Column::SignalId, text(signal_id))
    }

    /// The query of [`SignalIngestionRow::list_by_project`].
    pub open spec fn spec_list_by_project(
        project: ProjectView,
        limit: usize,
        offset: usize,
    ) -> QueryView {
        QueryView::on(Table::SignalIngestions, OutputView::Rows(Self::spec_columns()))
            .equals(Column::TenantId, ValueView::Text(project.tenant_id))
            .equals(Column::WorkspaceId, ValueView::Text(project.workspace_id))
            .equals(Column::ProjectId, ValueView::Text(project.project_id))
            .ascending(Column::TimestampMs)
            .ascending(Column::SignalId)
            .limit(limit as i64)
            .offset(offset as i64)
    }

    /// The signals of a project, the oldest first.
    pub fn list_by_project(project: &ProjectKey, limit: usize, offset: usize) -> (r: Query)
        ensures
            r@ == Self::spec_list_by_project(project@, limit, offset),
            r@.stays_in(Column::WorkspaceId, project@),
    {
        let query = Query::on(Table::SignalIngestions, Output::Rows(Self::columns()))
            .equals(Column::TenantId, text(&project.tenant_id))
            .equals(Column::WorkspaceId, text(&project.workspace_id))
            .equals(Column::ProjectId, text(&project.project_id))
            .ascending(Column::TimestampMs)
            .ascending(Column::SignalId)
            .limit(limit as i64)
            .offset(offset as i64);
        proof {
            query@.tests_keep_to_a_project(0, Column::WorkspaceId, project@);
        }
        query
    }
}

impl StoredRow for SignalIngestionRow {
    type Record = SignalRecord;

    open spec fn fault(&self, names: &DomainNames) -> Option<ErrorView> {
        if crate::json::json_refusal(self.payload_json@) is Some {
            Some(
                ErrorView::Serialization(
                    "signal_ingestions.payload_json decode for signal_id="@ + self.signal_id@
                        + ": "@ + crate::json::json_refusal(self.payload_json@)->Some_0,
                ),
            )
        } else {
            None
        }
    }

    open spec fn holds(&self, names: &DomainNames, record: &SignalRecord) -> bool {
        &&& record.id == self.signal_id
        &&& record.project == (ProjectKey {
            tenant_id: self.tenant_id,
            workspace_id: self.workspace_id,
            project_id: self.project_id,
        })
        &&& record.source == self.source
        &&& record.payload == self.payload_json
        &&& record.timestamp_ms == crate::read::floor8(self.timestamp_ms)
    }

    fn into_record(self, names: &DomainNames) -> (r: Result<SignalRecord, StoreError>) {
        if let Some(m) = refusal(&self.payload_json) {
            let mut message: String =
                "signal_ingestions.payload_json decode for signal_id=".to_owned();
            message.append(&self.signal_id);
            message.append(": ");
            message.append(&m);
            return Err(StoreError::Serialization(message));
        }
        Ok(
            SignalRecord {
                id: self.signal_id,
                project: ProjectKey {
                    tenant_id: self.tenant_id,
                    workspace_id: self.workspace_id,
                    project_id: self.project_id,
                },
                source: self.source,
                payload: self.payload_json,
                timestamp_ms: to_floor8(self.timestamp_ms),
            },
        )
    }
}

/// A row of `llm_completions`.
#[derive(Debug, PartialEq, Eq)]
pub struct LlmCompletionBodyRow {
    pub trace_id: String,
    pub tenant_id: String,
    pub workspace_id: String,
    pub project_id: String,
    pub session_id: String,
    pub run_id: Option<String>,
    pub model_id: String,
    pub system_prompt: String,
    pub messages_json: String,
    pub response_text: String,
    pub tool_calls_json: String,
    pub tool_defs_json: String,
    pub recorded_at_ms: i64,
}

/// The body of a call of a language model.
#[derive(Debug, PartialEq, Eq)]
pub struct LlmCompletionBodyRecord {
    pub trace_id: String,
    pub project: ProjectKey,
    pub session_id: String,
    pub run_id: Option<String>,
    pub model_id: String,
    pub system_prompt: String,
    pub messages_json: String,
    pub response_text: String,
    pub tool_calls_json: String,
    pub tool_defs_json: String,
    pub recorded_at_ms: u64,
}

impl LlmCompletionBodyRow {
    /// The columns that the row is read from.
    pub open spec fn spec_columns() -> Seq<Column> {
        seq![
            Column::TraceId,
            Column::TenantId,
            Column::WorkspaceId,
            Column::ProjectId,
            Column::SessionId,
            Column::RunId,
            Column::ModelId,
            Column::SystemPrompt,
            Column::MessagesJson,
            Column::ResponseText,
            Column::ToolCallsJson,
            Column::ToolDefsJson,
            Column::RecordedAtMs,
        ]
    }

    fn columns() -> (r: Vec<Column>)
        ensures
            r@ == Self::spec_columns(),
    {
        vec![
            Column::TraceId,
            Column::TenantId,
            Column::WorkspaceId,
            Column::ProjectId,
            Column::SessionId,
            Column::RunId,
            Column::ModelId,
            Column::SystemPrompt,
            Column::MessagesJson,
            Column::ResponseText,
            Column::ToolCallsJson,
            Column::ToolDefsJson,
            Column::RecordedAtMs,
        ]
    }

    /// Whether this is what a stored row holds in those columns.
    pub open spec fn is_of(self, row: crate::model::Row) -> bool {
        &&& crate::model::value(row, Column::TraceId) == Datum::Text(self.trace_id@)
        &&& crate::model::value(row, Column::TenantId) == Datum::Text(self.tenant_id@)
        &&& crate::model::value(row, Column::WorkspaceId) == Datum::Text(self.workspace_id@)
        &&& crate::model::value(row, Column::ProjectId) == Datum::Text(self.project_id@)
        &&& crate::model::value(row, Column::SessionId) == Datum::Text(self.session_id@)
        &&& crate::model::value(row, Column::RunId) == Datum::opt_text(self.run_id)
        &&& crate::model::value(row, Column::ModelId) == Datum::Text(self.model_id@)
        &&& crate::model::value(row, Column::SystemPrompt) == Datum::Text(self.system_prompt@)
        &&& crate::model::value(row, Column::MessagesJson) == Datum::Text(self.messages_json@)
        &&& crate::model::value(row, Column::ResponseText) == Datum::Text(self.response_text@)
        &&& crate::model::value(row, Column::ToolCallsJson) == Datum::Text(self.tool_calls_json@)
        &&& crate::model::value(row, Column::ToolDefsJson) == Datum::Text(self.tool_defs_json@)
        &&& crate::model::value(row, Column::RecordedAtMs) == Datum::Int(self.recorded_at_ms as int)
    }

    /// The query of [`LlmCompletionBodyRow::get_by_trace_id`].
    pub open spec fn spec_get_by_trace_id(trace_id: Seq<char>) -> QueryView {
        QueryView::on(Table::LlmCompletions, OutputView::Rows(Self::spec_columns()))
            .equals(Column::TraceId, ValueView::Text(trace_id))
    }

    /// Finds the body of a call.
    pub fn get_by_trace_id(trace_id: &str) -> (r: Query)
        ensures
            r@ == Self::spec_get_by_trace_id(trace_id@),
    {
        Query::on(Table::LlmCompletions, Output::Rows(Self::columns()))
            .equals(Column::TraceId, text(trace_id))
    }

    /// The query of [`LlmCompletionBodyRow::list_by_session`].
    pub open spec fn spec_list_by_session(session_id: Seq<char>) -> QueryView {
        QueryView::on(Table::LlmCompletions, OutputView::Rows(Self::spec_columns()))
            .equals(Column::SessionId, ValueView::Text(session_id))
            .ascending(Column::RecordedAtMs)
            .ascending(Column::TraceId)
    }

    /// The bodies of a session's calls, the oldest first.
    pub fn list_by_session(session_id: &str) -> (r: Query)
        ensures
            r@ == Self::spec_list_by_session(session_id@),
    {
        Query::on(Table::LlmCompletions, Output::Rows(Self::columns()))
            .equals(Column::SessionId, text(session_id))
            .ascending(Column::RecordedAtMs)
            .ascending(Column::TraceId)
    }
}

impl StoredRow for LlmCompletionBodyRow {
    type Record = LlmCompletionBodyRecord;

    open spec fn fault(&self, names: &DomainNames) -> Option<ErrorView> {
        None
    }

    open spec fn holds(&self, names: &DomainNames, record: &LlmCompletionBodyRecord) -> bool {
        &&& record.trace_id == self.trace_id
        &&& record.project == (ProjectKey {
            tenant_id: self.tenant_id,
            workspace_id: self.workspace_id,
            project_id: self.project_id,
        })
        &&& record.session_id == self.session_id
        &&& record.run_id == self.run_id
        &&& record.model_id == self.model_id
        &&& record.system_prompt == self.system_prompt
        &&& record.messages_json == self.messages_json
        &&& record.response_text == self.response_text
        &&& record.tool_calls_json == self.tool_calls_json
        &&& record.tool_defs_json == self.tool_defs_json
        &&& record.recorded_at_ms == crate::read::floor8(self.recorded_at_ms)
    }

    fn into_record(self, names: &DomainNames) -> (r: Result<LlmCompletionBodyRecord, StoreError>) {
        Ok(
            LlmCompletionBodyRecord {
                trace_id: self.trace_id,
                project: ProjectKey {
                    tenant_id: self.tenant_id,
                    workspace_id: self.workspace_id,
                    project_id: self.project_id,
                },
                session_id: self.session_id,
                run_id: self.run_id,
                model_id: self.model_id,
                system_prompt: self.system_prompt,
                messages_json: self.messages_json,
                response_text: self.response_text,
                tool_calls_json: self.tool_calls_json,
                tool_defs_json: self.tool_defs_json,
                recorded_at_ms: to_floor8(self.recorded_at_ms),
            },
        )
    }
}

} // verus!
