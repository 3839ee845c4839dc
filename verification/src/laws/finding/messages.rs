//! What is found of what was written: messages.

use crate::laws::finding::group_queries;
use crate::laws::rows::group_rows;
use crate::model::{Database, Row};
use crate::plan::Moment;
use crate::projections::messages::{
    ChannelCreated, ChannelMessageSent, MailboxMessageAppended, NotificationPreferenceSet,
    SignalIngested,
};
use crate::projections::sessions::{LlmCompletionRecorded, UserMessageAppended};
use crate::read::messages::{
    ChannelMessageRow, ChannelRow, LlmCompletionBodyRow, MailboxRow, NotificationPrefRow,
    SignalIngestionRow, UserMessageRow,
};
use crate::schema::Column;
use vstd::prelude::*;

verus! {

/// The row that a `MailboxMessageAppended` event leaves is found by the queries for what it names.
pub proof fn mailbox_message_appended_is_found(
    e: MailboxMessageAppended,
    at: Moment,
    db: Database,
    later: Database,
    limit: usize,
    offset: usize,
)
    requires
        e.writes(at) is Writes,
        e.writes(at).statements().len() > 0,
    ensures
        ({
            let s = e.writes(at).statements()[0];
            let row = crate::laws::rows::left_by(db, s, None);
            &&& MailboxRow::spec_get(e.message_id@).finds(later, s.table(), row)
            &&& e.run_id is Some ==> MailboxRow::spec_list_by_run(
                e.run_id->Some_0@,
                limit,
                offset,
            ).finds(later, s.table(), row)
            &&& e.task_id is Some ==> MailboxRow::spec_list_by_task(
                e.task_id->Some_0@,
                limit,
                offset,
            ).finds(later, s.table(), row)
        }),
{
    broadcast use {group_queries, group_rows};
}

/// The row that a `SignalIngested` event leaves is found by the queries for what it names.
pub proof fn signal_ingested_is_found(
    e: SignalIngested,
    at: Moment,
    db: Database,
    later: Database,
    limit: usize,
    offset: usize,
)
    requires
        e.writes(at) is Writes,
        e.writes(at).statements().len() > 0,
    ensures
        ({
            let s = e.writes(at).statements()[0];
            let row = crate::laws::rows::left_by(db, s, None);
            &&& SignalIngestionRow::spec_get(e.signal_id@).finds(later, s.table(), row)
            &&& SignalIngestionRow::spec_list_by_project(
                e.project@,
                limit,
                offset,
            ).finds(later, s.table(), row)
        }),
{
    broadcast use {group_queries, group_rows};
}

/// The row that a `UserMessageAppended` event leaves is found by the query for what it names.
pub proof fn user_message_appended_is_found(
    e: UserMessageAppended,
    at: Moment,
    db: Database,
    later: Database,
    limit: usize,
    offset: usize,
)
    requires
        e.writes(at) is Writes,
        e.writes(at).statements().len() > 0,
    ensures
        ({
            let s = e.writes(at).statements()[0];
            let row = crate::laws::rows::left_by(db, s, None);
            &&& UserMessageRow::spec_list_by_run(
                e.run_id@,
                limit,
                offset,
            ).finds(later, s.table(), row)
        }),
{
    broadcast use {group_queries, group_rows};
}

/// The row that a `ChannelCreated` event leaves is found by the queries for what it names.
pub proof fn channel_created_is_found(
    e: ChannelCreated,
    at: Moment,
    db: Database,
    later: Database,
    limit: usize,
    offset: usize,
)
    requires
        e.writes(at) is Writes,
        e.writes(at).statements().len() > 0,
    ensures
        ({
            let s = e.writes(at).statements()[0];
            let row = crate::laws::rows::left_by(db, s, None);
            &&& ChannelRow::spec_get_channel(e.channel_id@).finds(later, s.table(), row)
            &&& ChannelRow::spec_list_channels(
                e.project@,
                limit,
                offset,
            ).finds(later, s.table(), row)
        }),
{
    broadcast use {group_queries, group_rows};
}

/// The row that a `ChannelMessageSent` event leaves is found by the query for what it names.
pub proof fn channel_message_sent_is_found(
    e: ChannelMessageSent,
    at: Moment,
    db: Database,
    later: Database,
    limit: usize,
)
    requires
        e.writes(at) is Writes,
        e.writes(at).statements().len() > 0,
    ensures
        ({
            let s = e.writes(at).statements()[0];
            let row = crate::laws::rows::left_by(db, s, None);
            &&& ChannelMessageRow::spec_list_messages(
                e.channel_id@,
                limit,
            ).finds(later, s.table(), row)
        }),
{
    broadcast use {group_queries, group_rows};
}

/// The row that a `NotificationPreferenceSet` event leaves is found by
/// the queries for what it names.
pub proof fn notification_preference_set_is_found(
    e: NotificationPreferenceSet,
    at: Moment,
    db: Database,
    was: Option<Row>,
    later: Database,
)
    requires
        e.writes(at) is Writes,
        e.writes(at).statements().len() > 0,
        was is Some ==> crate::laws::rows::replaces(
            db,
            e.writes(at).statements()[0],
            was->Some_0,
        ),
    ensures
        ({
            let s = e.writes(at).statements()[0];
            let row = crate::laws::rows::left_by(db, s, was);
            &&& NotificationPrefRow::spec_get_preferences(
                e.tenant_id@,
                e.operator_id@,
            ).finds(later, s.table(), row)
            &&& NotificationPrefRow::spec_list_preferences_by_tenant(
                e.tenant_id@,
            ).finds(later, s.table(), row)
        }),
{
    broadcast use {group_queries, group_rows};

    let key = e.writes(at).statements()[0]->Insert_conflict->Merge_key;
    assert(key[0] == Column::TenantId);
    assert(key[1] == Column::OperatorId);
}

/// The row that a `LlmCompletionRecorded` event leaves is found by the queries for what it names.
pub proof fn llm_completion_recorded_is_found(
    e: LlmCompletionRecorded,
    at: Moment,
    db: Database,
    later: Database,
)
    requires
        e.writes(at) is Writes,
        e.writes(at).statements().len() > 0,
    ensures
        ({
            let s = e.writes(at).statements()[0];
            let row = crate::laws::rows::left_by(db, s, None);
            &&& LlmCompletionBodyRow::spec_get_by_trace_id(e.trace_id@).finds(later, s.table(), row)
            &&& LlmCompletionBodyRow::spec_list_by_session(
                e.session_id@,
            ).finds(later, s.table(), row)
        }),
{
    broadcast use {group_queries, group_rows};
}

} // verus!
