//! What run events write.

use crate::domain::ProjectKey;
use crate::error::{ErrorView, StoreError};
use crate::plan::{none, one, two, Found, Moment, Planned};
use crate::schema::{Column, Table};
use crate::statement::{
    only, Cells, Changes, ChangesView, Filter, FilterView, Operand, OperandView, RowView, Source,
    SourceView, Statement, StatementView, Test, TestView,
};
use crate::text::{fits_i64, same_text};
use crate::value::{opt_text, text, SqlValue, ValueView};
use vstd::prelude::*;

verus! {

/// A run was created. Its root is itself, or the root stored for its parent.
#[derive(Debug, PartialEq, Eq)]
pub struct RunCreated {
    pub run_id: String,
    pub session_id: String,
    pub parent_run_id: Option<String>,
    pub project: ProjectKey,
}

impl RunCreated {
    /// What the event writes.
    pub open spec fn writes(self, at: Moment) -> Planned {
        Planned::Writes(
            seq![
                RowView::new()
                    .put(Column::RunId, ValueView::Text(self.run_id@))
                    .put(Column::SessionId, ValueView::Text(self.session_id@))
                    .put(Column::ParentRunId, ValueView::opt_text(self.parent_run_id))
                    .put(Column::TenantId, ValueView::Text(self.project.tenant_id@))
                    .put(Column::WorkspaceId, ValueView::Text(self.project.workspace_id@))
                    .put(Column::ProjectId, ValueView::Text(self.project.project_id@))
                    .put(Column::State, ValueView::Text("pending"@))
                    .put(Column::Version, ValueView::Int8(1))
                    .put(Column::CreatedAt, ValueView::Int8(at.now))
                    .put(Column::UpdatedAt, ValueView::Int8(at.now))
                    .operand(
                        Column::RootRunId,
                        OperandView::RootRun {
                            run_id: self.run_id@,
                            parent_run_id: self.parent_run_id.deep_view(),
                        },
                    )
                    .insert(Table::Runs),
            ],
        )
    }

    /// Plans what the event writes.
    pub fn plan(&self, at: &Moment) -> (r: Result<Vec<Statement>, StoreError>)
        ensures
            Planned::of(r) == self.writes(*at),
    {
        let mut row = Cells::new();
        row.put(Column::RunId, text(&self.run_id));
        row.put(Column::SessionId, text(&self.session_id));
        row.put(Column::ParentRunId, opt_text(&self.parent_run_id));
        row.put(Column::TenantId, text(&self.project.tenant_id));
        row.put(Column::WorkspaceId, text(&self.project.workspace_id));
        row.put(Column::ProjectId, text(&self.project.project_id));
        row.put(Column::State, text("pending"));
        row.put(Column::Version, SqlValue::Int8(1));
        row.put(Column::CreatedAt, SqlValue::Int8(at.now));
        row.put(Column::UpdatedAt, SqlValue::Int8(at.now));
        row.operand(
            Column::RootRunId,
            Operand::RootRun {
                run_id: self.run_id.clone(),
                parent_run_id: self.parent_run_id.clone(),
            },
        );
        one(row.insert(Table::Runs))
    }
}

/// A completed run got a summary. Only the run of that project and session is changed.
#[derive(Debug, PartialEq, Eq)]
pub struct RunCompletionAnnotated {
    pub verification_json: String,
    pub occurred_at_ms: u64,
    pub run_id: String,
    pub project: ProjectKey,
    pub session_id: String,
    pub summary: String,
}

impl RunCompletionAnnotated {
    /// What the event writes.
    pub open spec fn writes(self, at: Moment) -> Planned {
        if self.occurred_at_ms > i64::MAX {
            Planned::Refused(
                ErrorView::exceeds(
                    "RunCompletionAnnotated.occurred_at_ms"@,
                    self.occurred_at_ms as nat,
                    "i64::MAX"@,
                ),
            )
        } else {
            Planned::Writes(
                seq![
                    ChangesView::new()
                        .put(Column::CompletionSummary, ValueView::Text(self.summary@))
                        .put(
                            Column::CompletionVerificationJson,
                            ValueView::Text(self.verification_json@),
                        )
                        .put(
                            Column::CompletionAnnotatedAtMs,
                            ValueView::Int8(self.occurred_at_ms as i64),
                        )
                        .source(Column::Version, SourceView::Plus(ValueView::Int8(1)))
                        .put(Column::UpdatedAt, ValueView::Int8(at.now))
                        .update(
                            Table::Runs,
                            FilterView::new()
                                .equals(Column::RunId, ValueView::Text(self.run_id@))
                                .equals(Column::TenantId, ValueView::Text(self.project.tenant_id@))
                                .equals(
                                    Column::WorkspaceId,
                                    ValueView::Text(self.project.workspace_id@),
                                )
                                .equals(
                                    Column::ProjectId,
                                    ValueView::Text(self.project.project_id@),
                                )
                                .equals(Column::SessionId, ValueView::Text(self.session_id@)),
                        ),
                ],
            )
        }
    }

    /// Plans what the event writes.
    pub fn plan(&self, at: &Moment) -> (r: Result<Vec<Statement>, StoreError>)
        ensures
            Planned::of(r) == self.writes(*at),
    {
        let annotated_at: i64 = match fits_i64(
            "RunCompletionAnnotated.occurred_at_ms",
            self.occurred_at_ms,
        ) {
            Ok(v) => v,
            Err(e) => return Err(e),
        };
        let mut changes = Changes::new();
        changes.put(Column::CompletionSummary, text(&self.summary));
        changes.put(Column::CompletionVerificationJson, text(&self.verification_json));
        changes.put(Column::CompletionAnnotatedAtMs, SqlValue::Int8(annotated_at));
        changes.source(Column::Version, Source::Plus(SqlValue::Int8(1)));
        changes.put(Column::UpdatedAt, SqlValue::Int8(at.now));
        let mut filter = Filter::new();
        filter.equals(Column::RunId, text(&self.run_id));
        filter.equals(Column::TenantId, text(&self.project.tenant_id));
        filter.equals(Column::WorkspaceId, text(&self.project.workspace_id));
        filter.equals(Column::ProjectId, text(&self.project.project_id));
        filter.equals(Column::SessionId, text(&self.session_id));
        one(changes.update(Table::Runs, filter))
    }
}

/// The terminal write of a run was recovered. Only the run of that project is changed.
#[derive(Debug, PartialEq, Eq)]
pub struct TerminalRecoveryAttempted {
    pub recovery_json: String,
    pub run_id: String,
    pub project: ProjectKey,
}

impl TerminalRecoveryAttempted {
    /// What the event writes.
    pub open spec fn writes(self, at: Moment) -> Planned {
        Planned::Writes(
            seq![
                ChangesView::new()
                    .put(Column::TerminalWriteRecoveryJson, ValueView::Text(self.recovery_json@))
                    .source(Column::Version, SourceView::Plus(ValueView::Int8(1)))
                    .put(Column::UpdatedAt, ValueView::Int8(at.now))
                    .update(
                        Table::Runs,
                        FilterView::new()
                            .equals(Column::RunId, ValueView::Text(self.run_id@))
                            .equals(Column::TenantId, ValueView::Text(self.project.tenant_id@))
                            .equals(
                                Column::WorkspaceId,
                                ValueView::Text(self.project.workspace_id@),
                            )
                            .equals(Column::ProjectId, ValueView::Text(self.project.project_id@)),
                    ),
            ],
        )
    }

    /// Plans what the event writes.
    pub fn plan(&self, at: &Moment) -> (r: Result<Vec<Statement>, StoreError>)
        ensures
            Planned::of(r) == self.writes(*at),
    {
        let mut changes = Changes::new();
        changes.put(Column::TerminalWriteRecoveryJson, text(&self.recovery_json));
        changes.source(Column::Version, Source::Plus(SqlValue::Int8(1)));
        changes.put(Column::UpdatedAt, SqlValue::Int8(at.now));
        let mut filter = Filter::new();
        filter.equals(Column::RunId, text(&self.run_id));
        filter.equals(Column::TenantId, text(&self.project.tenant_id));
        filter.equals(Column::WorkspaceId, text(&self.project.workspace_id));
        filter.equals(Column::ProjectId, text(&self.project.project_id));
        one(changes.update(Table::Runs, filter))
    }
}

/// A run spawned a subagent task.
#[derive(Debug, PartialEq, Eq)]
pub struct SubagentSpawned {
    pub child_task_id: String,
    pub project: ProjectKey,
    pub parent_run_id: String,
    pub parent_task_id: Option<String>,
    pub child_session_id: String,
    pub child_run_id: Option<String>,
    pub goal: String,
    pub role: String,
}

impl SubagentSpawned {
    /// What the event writes.
    pub open spec fn writes(self, at: Moment) -> Planned {
        Planned::Writes(
            seq![
                RowView::new()
                    .put(Column::ChildTaskId, ValueView::Text(self.child_task_id@))
                    .put(Column::TenantId, ValueView::Text(self.project.tenant_id@))
                    .put(Column::WorkspaceId, ValueView::Text(self.project.workspace_id@))
                    .put(Column::ProjectId, ValueView::Text(self.project.project_id@))
                    .put(Column::ParentRunId, ValueView::Text(self.parent_run_id@))
                    .put(Column::ParentTaskId, ValueView::opt_text(self.parent_task_id))
                    .put(Column::ChildSessionId, ValueView::Text(self.child_session_id@))
                    .put(Column::ChildRunId, ValueView::opt_text(self.child_run_id))
                    .put(Column::SpawnedAtMs, ValueView::Int8(at.now))
                    .put(Column::Goal, ValueView::Text(self.goal@))
                    .put(Column::Role, ValueView::Text(self.role@))
                    .insert_new(Table::SubagentSpawns, seq![Column::ChildTaskId]),
                ChangesView::new()
                    .put(Column::ParentRunId, ValueView::Text(self.parent_run_id@))
                    .put(Column::ParentTaskId, ValueView::opt_text(self.parent_task_id))
                    .source(Column::Version, SourceView::Plus(ValueView::Int8(1)))
                    .put(Column::UpdatedAt, ValueView::Int8(at.now))
                    .update(
                        Table::Tasks,
                        FilterView::new()
                            .equals(Column::TaskId, ValueView::Text(self.child_task_id@)),
                    ),
            ],
        )
    }

    /// Plans what the event writes.
    pub fn plan(&self, at: &Moment) -> (r: Result<Vec<Statement>, StoreError>)
        ensures
            Planned::of(r) == self.writes(*at),
    {
        let mut row = Cells::new();
        row.put(Column::ChildTaskId, text(&self.child_task_id));
        row.put(Column::TenantId, text(&self.project.tenant_id));
        row.put(Column::WorkspaceId, text(&self.project.workspace_id));
        row.put(Column::ProjectId, text(&self.project.project_id));
        row.put(Column::ParentRunId, text(&self.parent_run_id));
        row.put(Column::ParentTaskId, opt_text(&self.parent_task_id));
        row.put(Column::ChildSessionId, text(&self.child_session_id));
        row.put(Column::ChildRunId, opt_text(&self.child_run_id));
        row.put(Column::SpawnedAtMs, SqlValue::Int8(at.now));
        row.put(Column::Goal, text(&self.goal));
        row.put(Column::Role, text(&self.role));
        let mut changes2 = Changes::new();
        changes2.put(Column::ParentRunId, text(&self.parent_run_id));
        changes2.put(Column::ParentTaskId, opt_text(&self.parent_task_id));
        changes2.source(Column::Version, Source::Plus(SqlValue::Int8(1)));
        changes2.put(Column::UpdatedAt, SqlValue::Int8(at.now));
        let mut filter2 = Filter::new();
        filter2.equals(Column::TaskId, text(&self.child_task_id));
        two(
            row.insert_new(Table::SubagentSpawns, only(Column::ChildTaskId)),
            changes2.update(Table::Tasks, filter2),
        )
    }
}

/// Whether a run in the named state has ended.
pub open spec fn is_terminal_run_state(state: Seq<char>) -> bool {
    state == "completed"@ || state == "failed"@ || state == "canceled"@
}

/// `n`, or the greatest 64-bit number where it is above that.
pub open spec fn clamped(n: int) -> int {
    if n > i64::MAX {
        i64::MAX as int
    } else {
        n
    }
}

/// A run moved to another state. An event of another project than the run's
/// own changes nothing.
#[derive(Debug, PartialEq, Eq)]
pub struct RunStateChanged {
    pub run_id: String,
    pub project: ProjectKey,
    /// The name of the new state.
    pub to: String,
    pub failure_class: Option<String>,
    /// After how many milliseconds a paused run resumes by itself, if it does.
    pub resume_after_ms: Option<u64>,
}

impl RunStateChanged {
    /// Whether the stored run belongs to another project than the event.
    pub open spec fn is_foreign(self, found: Found) -> bool {
        match found.scope {
            Some(scope) => scope@ != self.project@,
            None => false,
        }
    }

    /// The change of the run itself.
    pub open spec fn run_update(self, at: Moment) -> StatementView {
        ChangesView::new()
            .put(Column::State, ValueView::Text(self.to@))
            .put(Column::FailureClass, ValueView::opt_text(self.failure_class))
            .source(Column::Version, SourceView::Plus(ValueView::Int8(1)))
            .put(Column::UpdatedAt, ValueView::Int8(at.now))
            .update(
                Table::Runs,
                FilterView::new()
                    .equals(Column::RunId, ValueView::Text(self.run_id@))
                    .equals(Column::TenantId, ValueView::Text(self.project.tenant_id@))
                    .equals(Column::WorkspaceId, ValueView::Text(self.project.workspace_id@))
                    .equals(Column::ProjectId, ValueView::Text(self.project.project_id@)),
            )
    }

    /// One descendant less at the root, where a descendant ended.
    pub open spec fn root_update(self, at: Moment) -> Seq<StatementView> {
        if is_terminal_run_state(self.to@) {
            seq![
                ChangesView::new()
                    .source(
                        Column::InFlightDescendants,
                        SourceView::Plus(ValueView::Int8((-1) as i64)),
                    )
                    .source(Column::Version, SourceView::Plus(ValueView::Int8(1)))
                    .put(Column::UpdatedAt, ValueView::Int8(at.now))
                    .update(
                        Table::Runs,
                        FilterView::new().test(TestView::IsRootOf(self.run_id@)),
                    ),
            ]
        } else {
            Seq::empty()
        }
    }

    /// What becomes of the run's entry in the pause schedule: a pause with a
    /// time is entered, any other state than paused removes the entry. The time
    /// counts from when the event was stored, so that a replay enters the same.
    pub open spec fn schedule_update(self, at: Moment) -> Seq<StatementView> {
        if self.to@ == "paused"@ {
            match self.resume_after_ms {
                None => Seq::empty(),
                Some(delay) => seq![
                    RowView::new()
                        .put(Column::RunId, ValueView::Text(self.run_id@))
                        .put(Column::TenantId, ValueView::Text(self.project.tenant_id@))
                        .put(Column::WorkspaceId, ValueView::Text(self.project.workspace_id@))
                        .put(Column::ProjectId, ValueView::Text(self.project.project_id@))
                        .put(
                            Column::ResumeAtMs,
                            ValueView::Int8(clamped(at.event_time_ms + delay) as i64),
                        )
                        .put(
                            Column::CreatedAtMs,
                            ValueView::Int8(clamped(at.event_time_ms as int) as i64),
                        )
                        .upsert(
                            Table::PauseSchedules,
                            seq![Column::RunId],
                            ChangesView::new()
                                .excluded(Column::ResumeAtMs)
                                .excluded(Column::CreatedAtMs),
                        ),
                ],
            }
        } else {
            seq![
                FilterView::new()
                    .equals(Column::RunId, ValueView::Text(self.run_id@))
                    .delete(Table::PauseSchedules),
            ]
        }
    }

    /// What the event writes.
    pub open spec fn writes(self, at: Moment, found: Found) -> Planned {
        if self.is_foreign(found) {
            Planned::Writes(Seq::empty())
        } else {
            Planned::Writes(
                seq![self.run_update(at)] + self.root_update(at) + self.schedule_update(at),
            )
        }
    }

    fn plan_run_update(&self, at: &Moment) -> (r: Statement)
        ensures
            r@ == self.run_update(*at),
    {
        let mut changes = Changes::new();
        changes.put(Column::State, text(&self.to));
        changes.put(Column::FailureClass, opt_text(&self.failure_class));
        changes.source(Column::Version, Source::Plus(SqlValue::Int8(1)));
        changes.put(Column::UpdatedAt, SqlValue::Int8(at.now));
        let mut filter = Filter::new();
        filter.equals(Column::RunId, text(&self.run_id));
        filter.equals(Column::TenantId, text(&self.project.tenant_id));
        filter.equals(Column::WorkspaceId, text(&self.project.workspace_id));
        filter.equals(Column::ProjectId, text(&self.project.project_id));
        changes.update(Table::Runs, filter)
    }

    fn plan_root_update(&self, at: &Moment) -> (r: Option<Statement>)
        ensures
            self.root_update(*at) == match r {
                Some(s) => seq![s@],
                None => Seq::empty(),
            },
    {
        if same_text(&self.to, "completed") || same_text(&self.to, "failed") || same_text(
            &self.to,
            "canceled",
        ) {
            let mut changes = Changes::new();
            changes.source(Column::InFlightDescendants, Source::Plus(SqlValue::Int8(-1)));
            changes.source(Column::Version, Source::Plus(SqlValue::Int8(1)));
            changes.put(Column::UpdatedAt, SqlValue::Int8(at.now));
            let mut filter = Filter::new();
            filter.test(Test::IsRootOf(self.run_id.clone()));
            Some(changes.update(Table::Runs, filter))
        } else {
            None
        }
    }

    fn plan_schedule_update(&self, at: &Moment) -> (r: Option<Statement>)
        ensures
            self.schedule_update(*at) == match r {
                Some(s) => seq![s@],
                None => Seq::empty(),
            },
    {
        if same_text(&self.to, "paused") {
            match self.resume_after_ms {
                None => None,
                Some(delay) => {
                    let resume_at: u64 = at.event_time_ms.saturating_add(delay);
                    let resume_at_ms: i64 = if resume_at <= i64::MAX as u64 {
                        resume_at as i64
                    } else {
                        i64::MAX
                    };
                    let created_at_ms: i64 = if at.event_time_ms <= i64::MAX as u64 {
                        at.event_time_ms as i64
                    } else {
                        i64::MAX
                    };
                    let mut row = Cells::new();
                    row.put(Column::RunId, text(&self.run_id));
                    row.put(Column::TenantId, text(&self.project.tenant_id));
                    row.put(Column::WorkspaceId, text(&self.project.workspace_id));
                    row.put(Column::ProjectId, text(&self.project.project_id));
                    row.put(Column::ResumeAtMs, SqlValue::Int8(resume_at_ms));
                    row.put(Column::CreatedAtMs, SqlValue::Int8(created_at_ms));
                    let mut changes = Changes::new();
                    changes.excluded(Column::ResumeAtMs);
                    changes.excluded(Column::CreatedAtMs);
                    Some(row.upsert(Table::PauseSchedules, only(Column::RunId), changes))
                },
            }
        } else {
            let mut filter = Filter::new();
            filter.equals(Column::RunId, text(&self.run_id));
            Some(filter.delete(Table::PauseSchedules))
        }
    }

    /// Plans what the event writes.
    pub fn plan(&self, at: &Moment, found: &Found) -> (r: Result<Vec<Statement>, StoreError>)
        ensures
            Planned::of(r) == self.writes(*at, *found),
    {
        if let Some(scope) = &found.scope {
            if !scope.same(&self.project) {
                return none();
            }
        }
        let mut out: Vec<Statement> = Vec::new();
        out.push(self.plan_run_update(at));
        if let Some(s) = self.plan_root_update(at) {
            out.push(s);
        }
        if let Some(s) = self.plan_schedule_update(at) {
            out.push(s);
        }
        assert(StatementView::all(out@) =~= seq![self.run_update(*at)] + self.root_update(*at)
            + self.schedule_update(*at));
        Ok(out)
    }
}

} // verus!
