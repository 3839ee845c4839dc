//! What checkpoint and snapshot events write.

use crate::domain::ProjectKey;
use crate::error::{ErrorView, StoreError};
use crate::plan::{none, one, two, Moment, Planned};
use crate::schema::{Column, Table};
use crate::statement::{
    only, Cells, Changes, ChangesView, Filter, FilterView, RowView, Source, SourceView,
    Statement,
};
use crate::text::{fits_i32, fits_i64, i32_from_u32};
use crate::value::{flag, opt_text, text, SqlValue, ValueView};
use crate::vocabulary::CheckpointDisposition;
use vstd::prelude::*;

verus! {

/// A checkpoint was recorded. A latest one supersedes the latest of its run.
#[derive(Debug, PartialEq, Eq)]
pub struct CheckpointRecorded {
    pub disposition: CheckpointDisposition,
    pub run_id: String,
    pub checkpoint_id: String,
    pub project: ProjectKey,
}

impl CheckpointRecorded {
    /// What the event writes.
    pub open spec fn writes(self, at: Moment) -> Planned {
        if self.disposition == CheckpointDisposition::Latest {
            Planned::Writes(
                seq![
                    ChangesView::new()
                        .put(Column::Disposition, ValueView::Text("superseded"@))
                        .source(Column::Version, SourceView::Plus(ValueView::Int8(1)))
                        .update(
                            Table::Checkpoints,
                            FilterView::new()
                                .equals(Column::RunId, ValueView::Text(self.run_id@))
                                .equals(Column::Disposition, ValueView::Text("latest"@)),
                        ),
                    RowView::new()
                        .put(Column::CheckpointId, ValueView::Text(self.checkpoint_id@))
                        .put(Column::TenantId, ValueView::Text(self.project.tenant_id@))
                        .put(Column::WorkspaceId, ValueView::Text(self.project.workspace_id@))
                        .put(Column::ProjectId, ValueView::Text(self.project.project_id@))
                        .put(Column::RunId, ValueView::Text(self.run_id@))
                        .put(Column::Disposition, ValueView::Text(self.disposition.spec_name()))
                        .put(Column::Version, ValueView::Int8(1))
                        .put(Column::CreatedAt, ValueView::Int8(at.now))
                        .insert(Table::Checkpoints),
                ],
            )
        } else {
            Planned::Writes(
                seq![
                    RowView::new()
                        .put(Column::CheckpointId, ValueView::Text(self.checkpoint_id@))
                        .put(Column::TenantId, ValueView::Text(self.project.tenant_id@))
                        .put(Column::WorkspaceId, ValueView::Text(self.project.workspace_id@))
                        .put(Column::ProjectId, ValueView::Text(self.project.project_id@))
                        .put(Column::RunId, ValueView::Text(self.run_id@))
                        .put(Column::Disposition, ValueView::Text(self.disposition.spec_name()))
                        .put(Column::Version, ValueView::Int8(1))
                        .put(Column::CreatedAt, ValueView::Int8(at.now))
                        .insert(Table::Checkpoints),
                ],
            )
        }
    }

    /// Plans what the event writes.
    pub fn plan(&self, at: &Moment) -> (r: Result<Vec<Statement>, StoreError>)
        ensures
            Planned::of(r) == self.writes(*at),
    {
        let mut row2 = Cells::new();
        row2.put(Column::CheckpointId, text(&self.checkpoint_id));
        row2.put(Column::TenantId, text(&self.project.tenant_id));
        row2.put(Column::WorkspaceId, text(&self.project.workspace_id));
        row2.put(Column::ProjectId, text(&self.project.project_id));
        row2.put(Column::RunId, text(&self.run_id));
        row2.put(Column::Disposition, text(self.disposition.name()));
        row2.put(Column::Version, SqlValue::Int8(1));
        row2.put(Column::CreatedAt, SqlValue::Int8(at.now));
        let recorded = row2.insert(Table::Checkpoints);
        if self.disposition == CheckpointDisposition::Latest {
            let mut changes = Changes::new();
            changes.put(Column::Disposition, text("superseded"));
            changes.source(Column::Version, Source::Plus(SqlValue::Int8(1)));
            let mut filter = Filter::new();
            filter.equals(Column::RunId, text(&self.run_id));
            filter.equals(Column::Disposition, text("latest"));
            two(changes.update(Table::Checkpoints, filter), recorded)
        } else {
            one(recorded)
        }
    }
}

/// A checkpoint of a session was persisted.
#[derive(Debug, PartialEq, Eq)]
pub struct CheckpointPersisted {
    pub iteration: u32,
    pub at_ms: u64,
    pub checkpoint_id: String,
    pub project: ProjectKey,
    pub root_run_id: String,
    pub session_id: String,
}

impl CheckpointPersisted {
    /// What the event writes.
    pub open spec fn writes(self, at: Moment) -> Planned {
        if self.iteration > i32::MAX {
            Planned::Refused(
                ErrorView::exceeds(
                    "CheckpointPersisted.iteration"@,
                    self.iteration as nat,
                    "i32::MAX"@,
                ),
            )
        } else if self.at_ms > i64::MAX {
            Planned::Refused(
                ErrorView::exceeds("CheckpointPersisted.at_ms"@, self.at_ms as nat, "i64::MAX"@),
            )
        } else {
            Planned::Writes(
                seq![
                    RowView::new()
                        .put(Column::CheckpointId, ValueView::Text(self.checkpoint_id@))
                        .put(Column::TenantId, ValueView::Text(self.project.tenant_id@))
                        .put(Column::WorkspaceId, ValueView::Text(self.project.workspace_id@))
                        .put(Column::ProjectId, ValueView::Text(self.project.project_id@))
                        .put(Column::RunId, ValueView::Text(self.root_run_id@))
                        .put(Column::Disposition, ValueView::Text("latest"@))
                        .put(Column::Version, ValueView::Int8(1))
                        .put(Column::CreatedAt, ValueView::Int8(self.at_ms as i64))
                        .put(Column::SessionId, ValueView::Text(self.session_id@))
                        .put(Column::SchemaVersion, ValueView::Int4(1))
                        .put(Column::Body, ValueView::Text(""@))
                        .put(Column::BodySizeBytes, ValueView::Int8(0))
                        .put(Column::Iteration, ValueView::Int4(self.iteration as i32))
                        .upsert(
                            Table::Checkpoints,
                            seq![Column::CheckpointId],
                            ChangesView::new()
                                .excluded(Column::SessionId)
                                .excluded(Column::SchemaVersion)
                                .excluded(Column::Iteration),
                        ),
                ],
            )
        }
    }

    /// Plans what the event writes.
    pub fn plan(&self, at: &Moment) -> (r: Result<Vec<Statement>, StoreError>)
        ensures
            Planned::of(r) == self.writes(*at),
    {
        let iteration: i32 = match fits_i32("CheckpointPersisted.iteration", self.iteration) {
            Ok(v) => v,
            Err(e) => return Err(e),
        };
        let at_ms: i64 = match fits_i64("CheckpointPersisted.at_ms", self.at_ms) {
            Ok(v) => v,
            Err(e) => return Err(e),
        };
        let mut row = Cells::new();
        row.put(Column::CheckpointId, text(&self.checkpoint_id));
        row.put(Column::TenantId, text(&self.project.tenant_id));
        row.put(Column::WorkspaceId, text(&self.project.workspace_id));
        row.put(Column::ProjectId, text(&self.project.project_id));
        row.put(Column::RunId, text(&self.root_run_id));
        row.put(Column::Disposition, text("latest"));
        row.put(Column::Version, SqlValue::Int8(1));
        row.put(Column::CreatedAt, SqlValue::Int8(at_ms));
        row.put(Column::SessionId, text(&self.session_id));
        row.put(Column::SchemaVersion, SqlValue::Int4(1));
        row.put(Column::Body, text(""));
        row.put(Column::BodySizeBytes, SqlValue::Int8(0));
        row.put(Column::Iteration, SqlValue::Int4(iteration));
        let mut changes = Changes::new();
        changes.excluded(Column::SessionId);
        changes.excluded(Column::SchemaVersion);
        changes.excluded(Column::Iteration);
        one(row.upsert(Table::Checkpoints, only(Column::CheckpointId), changes))
    }
}

/// The number of checkpoints that a strategy keeps where it names none.
pub const CHECKPOINT_STRATEGY_DEFAULT_MAX_CHECKPOINTS: u32 = 10;

/// The checkpoint strategy of a run was set. One without a run is stored nowhere.
#[derive(Debug, PartialEq, Eq)]
pub struct CheckpointStrategySet {
    pub strategy_id: String,
    pub run_id: Option<String>,
    pub interval_ms: u64,
    pub max_checkpoints: u32,
    pub trigger_on_task_complete: bool,
    pub set_at_ms: u64,
}

impl CheckpointStrategySet {
    /// How many checkpoints are kept: zero stands for the usual number.
    pub open spec fn kept(self) -> u32 {
        if self.max_checkpoints > 0 {
            self.max_checkpoints
        } else {
            CHECKPOINT_STRATEGY_DEFAULT_MAX_CHECKPOINTS
        }
    }

    /// What the event writes.
    pub open spec fn writes(self, at: Moment) -> Planned {
        match self.run_id {
            None => Planned::Writes(Seq::empty()),
            Some(run_id) => if self.kept() > i32::MAX {
                Planned::Refused(
                    ErrorView::exceeds_integer_column(
                        "CheckpointStrategySet.max_checkpoints"@,
                        self.kept() as nat,
                    ),
                )
            } else if self.interval_ms > i64::MAX {
                Planned::Refused(
                    ErrorView::exceeds(
                        "CheckpointStrategySet.interval_ms"@,
                        self.interval_ms as nat,
                        "i64::MAX"@,
                    ),
                )
            } else if self.set_at_ms > i64::MAX {
                Planned::Refused(
                    ErrorView::exceeds(
                        "CheckpointStrategySet.set_at_ms"@,
                        self.set_at_ms as nat,
                        "i64::MAX"@,
                    ),
                )
            } else {
                Planned::Writes(
                    seq![
                        RowView::new()
                            .put(Column::RunId, ValueView::Text(run_id@))
                            .put(Column::StrategyId, ValueView::Text(self.strategy_id@))
                            .put(Column::IntervalMs, ValueView::Int8(self.interval_ms as i64))
                            .put(Column::MaxCheckpoints, ValueView::Int4(self.kept() as i32))
                            .put(
                                Column::TriggerOnTaskComplete,
                                ValueView::flag(self.trigger_on_task_complete),
                            )
                            .put(Column::SetAtMs, ValueView::Int8(self.set_at_ms as i64))
                            .upsert(
                                Table::CheckpointStrategies,
                                seq![Column::RunId],
                                ChangesView::new()
                                    .excluded(Column::StrategyId)
                                    .excluded(Column::IntervalMs)
                                    .excluded(Column::MaxCheckpoints)
                                    .excluded(Column::TriggerOnTaskComplete)
                                    .excluded(Column::SetAtMs),
                            ),
                    ],
                )
            },
        }
    }

    /// Plans what the event writes.
    pub fn plan(&self, at: &Moment) -> (r: Result<Vec<Statement>, StoreError>)
        ensures
            Planned::of(r) == self.writes(*at),
    {
        let run_id = match &self.run_id {
            Some(run_id) => run_id,
            None => return none(),
        };
        let kept: u32 = if self.max_checkpoints > 0 {
            self.max_checkpoints
        } else {
            CHECKPOINT_STRATEGY_DEFAULT_MAX_CHECKPOINTS
        };
        let max_checkpoints: i32 = match i32_from_u32(
            "CheckpointStrategySet.max_checkpoints",
            kept,
        ) {
            Ok(v) => v,
            Err(e) => return Err(e),
        };
        let interval_ms: i64 = match fits_i64(
            "CheckpointStrategySet.interval_ms",
            self.interval_ms,
        ) {
            Ok(v) => v,
            Err(e) => return Err(e),
        };
        let set_at: i64 = match fits_i64("CheckpointStrategySet.set_at_ms", self.set_at_ms) {
            Ok(v) => v,
            Err(e) => return Err(e),
        };
        let mut row = Cells::new();
        row.put(Column::RunId, text(run_id));
        row.put(Column::StrategyId, text(&self.strategy_id));
        row.put(Column::IntervalMs, SqlValue::Int8(interval_ms));
        row.put(Column::MaxCheckpoints, SqlValue::Int4(max_checkpoints));
        row.put(Column::TriggerOnTaskComplete, flag(self.trigger_on_task_complete));
        row.put(Column::SetAtMs, SqlValue::Int8(set_at));
        let mut changes = Changes::new();
        changes.excluded(Column::StrategyId);
        changes.excluded(Column::IntervalMs);
        changes.excluded(Column::MaxCheckpoints);
        changes.excluded(Column::TriggerOnTaskComplete);
        changes.excluded(Column::SetAtMs);
        one(row.upsert(Table::CheckpointStrategies, only(Column::RunId), changes))
    }
}

/// A snapshot of a workspace was taken.
#[derive(Debug, PartialEq, Eq)]
pub struct WorkspaceSnapshotCreated {
    pub at_ms: u64,
    pub bytes: u64,
    pub snapshot_id: String,
    pub project: ProjectKey,
    pub session_id: String,
    pub workspace_id: String,
    pub parent_snapshot_id: Option<String>,
    pub reflink_used: bool,
}

impl WorkspaceSnapshotCreated {
    /// What the event writes.
    pub open spec fn writes(self, at: Moment) -> Planned {
        if self.at_ms > i64::MAX {
            Planned::Refused(
                ErrorView::exceeds(
                    "WorkspaceSnapshotCreated.at_ms"@,
                    self.at_ms as nat,
                    "i64::MAX"@,
                ),
            )
        } else if self.bytes > i64::MAX {
            Planned::Refused(
                ErrorView::exceeds(
                    "WorkspaceSnapshotCreated.bytes"@,
                    self.bytes as nat,
                    "i64::MAX"@,
                ),
            )
        } else {
            Planned::Writes(
                seq![
                    RowView::new()
                        .put(Column::SnapshotId, ValueView::Text(self.snapshot_id@))
                        .put(Column::TenantId, ValueView::Text(self.project.tenant_id@))
                        .put(Column::WorkspaceScope, ValueView::Text(self.project.workspace_id@))
                        .put(Column::ProjectId, ValueView::Text(self.project.project_id@))
                        .put(Column::SessionId, ValueView::Text(self.session_id@))
                        .put(Column::WorkspaceId, ValueView::Text(self.workspace_id@))
                        .put(Column::ParentSnapshotId, ValueView::opt_text(self.parent_snapshot_id))
                        .put(Column::SnapshotPath, ValueView::Text(""@))
                        .put(Column::Bytes, ValueView::Int8(self.bytes as i64))
                        .put(Column::ReflinkUsed, ValueView::Bool(self.reflink_used))
                        .put(Column::CreatedAt, ValueView::Int8(self.at_ms as i64))
                        .insert_new(Table::WorkspaceSnapshots, seq![Column::SnapshotId]),
                ],
            )
        }
    }

    /// Plans what the event writes.
    pub fn plan(&self, at: &Moment) -> (r: Result<Vec<Statement>, StoreError>)
        ensures
            Planned::of(r) == self.writes(*at),
    {
        let at_ms: i64 = match fits_i64("WorkspaceSnapshotCreated.at_ms", self.at_ms) {
            Ok(v) => v,
            Err(e) => return Err(e),
        };
        let bytes_i64: i64 = match fits_i64("WorkspaceSnapshotCreated.bytes", self.bytes) {
            Ok(v) => v,
            Err(e) => return Err(e),
        };
        let mut row = Cells::new();
        row.put(Column::SnapshotId, text(&self.snapshot_id));
        row.put(Column::TenantId, text(&self.project.tenant_id));
        row.put(Column::WorkspaceScope, text(&self.project.workspace_id));
        row.put(Column::ProjectId, text(&self.project.project_id));
        row.put(Column::SessionId, text(&self.session_id));
        row.put(Column::WorkspaceId, text(&self.workspace_id));
        row.put(Column::ParentSnapshotId, opt_text(&self.parent_snapshot_id));
        row.put(Column::SnapshotPath, text(""));
        row.put(Column::Bytes, SqlValue::Int8(bytes_i64));
        row.put(Column::ReflinkUsed, SqlValue::Bool(self.reflink_used));
        row.put(Column::CreatedAt, SqlValue::Int8(at_ms));
        one(row.insert_new(Table::WorkspaceSnapshots, only(Column::SnapshotId)))
    }
}

/// A snapshot of a workspace was reaped.
#[derive(Debug, PartialEq, Eq)]
pub struct WorkspaceSnapshotReaped {
    pub at_ms: u64,
    pub snapshot_id: String,
}

impl WorkspaceSnapshotReaped {
    /// What the event writes.
    pub open spec fn writes(self, at: Moment) -> Planned {
        if self.at_ms > i64::MAX {
            Planned::Refused(
                ErrorView::exceeds(
                    "WorkspaceSnapshotReaped.at_ms"@,
                    self.at_ms as nat,
                    "i64::MAX"@,
                ),
            )
        } else {
            Planned::Writes(
                seq![
                    ChangesView::new()
                        .put(Column::ReapedAt, ValueView::Int8(self.at_ms as i64))
                        .update(
                            Table::WorkspaceSnapshots,
                            FilterView::new()
                                .equals(Column::SnapshotId, ValueView::Text(self.snapshot_id@)),
                        ),
                ],
            )
        }
    }

    /// Plans what the event writes.
    pub fn plan(&self, at: &Moment) -> (r: Result<Vec<Statement>, StoreError>)
        ensures
            Planned::of(r) == self.writes(*at),
    {
        let at_ms: i64 = match fits_i64("WorkspaceSnapshotReaped.at_ms", self.at_ms) {
            Ok(v) => v,
            Err(e) => return Err(e),
        };
        let mut changes = Changes::new();
        changes.put(Column::ReapedAt, SqlValue::Int8(at_ms));
        let mut filter = Filter::new();
        filter.equals(Column::SnapshotId, text(&self.snapshot_id));
        one(changes.update(Table::WorkspaceSnapshots, filter))
    }
}

} // verus!
