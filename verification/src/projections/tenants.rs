//! What tenant, workspace and operator events write.

use crate::domain::ProjectKey;
use crate::error::{ErrorView, StoreError};
use crate::json::encode_strings;
use crate::plan::{one, Moment, Planned};
use crate::schema::{Column, Table};
use crate::statement::{
    only, Cells, Changes, ChangesView, Filter, FilterView, RowView, Source, SourceView,
    Statement,
};
use crate::text::{fits_i32, fits_i64, i32_from_u32, opt_fits_i64};
use crate::value::{opt_int8, opt_text, text, SqlType, SqlValue, ValueView};
use crate::vocabulary::{ProductTier, Scope};
use vstd::prelude::*;

verus! {

/// A tenant was created.
#[derive(Debug, PartialEq, Eq)]
pub struct TenantCreated {
    pub tenant_id: String,
    pub name: String,
    pub created_at: u64,
}

impl TenantCreated {
    /// What the event writes.
    pub open spec fn writes(self, at: Moment) -> Planned {
        Planned::Writes(
            seq![
                RowView::new()
                    .put(Column::TenantId, ValueView::Text(self.tenant_id@))
                    .put(Column::Name, ValueView::Text(self.name@))
                    .put(Column::CreatedAt, ValueView::Int8(self.created_at as i64))
                    .put(Column::UpdatedAt, ValueView::Int8(self.created_at as i64))
                    .insert_new(Table::Tenants, seq![Column::TenantId]),
            ],
        )
    }

    /// Plans what the event writes.
    pub fn plan(&self, at: &Moment) -> (r: Result<Vec<Statement>, StoreError>)
        ensures
            Planned::of(r) == self.writes(*at),
    {
        let mut row = Cells::new();
        row.put(Column::TenantId, text(&self.tenant_id));
        row.put(Column::Name, text(&self.name));
        row.put(Column::CreatedAt, SqlValue::Int8(self.created_at as i64));
        row.put(Column::UpdatedAt, SqlValue::Int8(self.created_at as i64));
        one(row.insert_new(Table::Tenants, only(Column::TenantId)))
    }
}

/// A tenant changed. A name that is not given stays.
#[derive(Debug, PartialEq, Eq)]
pub struct TenantUpdated {
    pub updated_at_ms: u64,
    pub tenant_id: String,
    pub name: Option<String>,
}

impl TenantUpdated {
    /// What the event writes.
    pub open spec fn writes(self, at: Moment) -> Planned {
        if self.updated_at_ms > i64::MAX {
            Planned::Refused(
                ErrorView::exceeds(
                    "TenantUpdated.updated_at_ms"@,
                    self.updated_at_ms as nat,
                    "i64::MAX"@,
                ),
            )
        } else {
            Planned::Writes(
                seq![
                    ChangesView::new()
                        .source(
                            Column::Name,
                            SourceView::ValueOrStored(ValueView::opt_text(self.name)),
                        )
                        .put(Column::UpdatedAt, ValueView::Int8(self.updated_at_ms as i64))
                        .update(
                            Table::Tenants,
                            FilterView::new()
                                .equals(Column::TenantId, ValueView::Text(self.tenant_id@)),
                        ),
                ],
            )
        }
    }

    /// Plans what the event writes.
    pub fn plan(&self, at: &Moment) -> (r: Result<Vec<Statement>, StoreError>)
        ensures
            Planned::of(r) == self.writes(*at),
    {
        let updated_at: i64 = match fits_i64("TenantUpdated.updated_at_ms", self.updated_at_ms) {
            Ok(v) => v,
            Err(e) => return Err(e),
        };
        let mut changes = Changes::new();
        changes.source(Column::Name, Source::ValueOrStored(opt_text(&self.name)));
        changes.put(Column::UpdatedAt, SqlValue::Int8(updated_at));
        let mut filter = Filter::new();
        filter.equals(Column::TenantId, text(&self.tenant_id));
        one(changes.update(Table::Tenants, filter))
    }
}

/// A workspace was created.
#[derive(Debug, PartialEq, Eq)]
pub struct WorkspaceCreated {
    pub workspace_id: String,
    pub tenant_id: String,
    pub name: String,
    pub created_at: u64,
}

impl WorkspaceCreated {
    /// What the event writes.
    pub open spec fn writes(self, at: Moment) -> Planned {
        Planned::Writes(
            seq![
                RowView::new()
                    .put(Column::WorkspaceId, ValueView::Text(self.workspace_id@))
                    .put(Column::TenantId, ValueView::Text(self.tenant_id@))
                    .put(Column::Name, ValueView::Text(self.name@))
                    .put(Column::CreatedAt, ValueView::Int8(self.created_at as i64))
                    .put(Column::UpdatedAt, ValueView::Int8(self.created_at as i64))
                    .insert_new(Table::Workspaces, seq![Column::WorkspaceId]),
            ],
        )
    }

    /// Plans what the event writes.
    pub fn plan(&self, at: &Moment) -> (r: Result<Vec<Statement>, StoreError>)
        ensures
            Planned::of(r) == self.writes(*at),
    {
        let mut row = Cells::new();
        row.put(Column::WorkspaceId, text(&self.workspace_id));
        row.put(Column::TenantId, text(&self.tenant_id));
        row.put(Column::Name, text(&self.name));
        row.put(Column::CreatedAt, SqlValue::Int8(self.created_at as i64));
        row.put(Column::UpdatedAt, SqlValue::Int8(self.created_at as i64));
        one(row.insert_new(Table::Workspaces, only(Column::WorkspaceId)))
    }
}

/// A workspace of a tenant was archived.
#[derive(Debug, PartialEq, Eq)]
pub struct WorkspaceArchived {
    pub workspace_id: String,
    pub tenant_id: String,
    pub archived_at: u64,
}

impl WorkspaceArchived {
    /// What the event writes.
    pub open spec fn writes(self, at: Moment) -> Planned {
        Planned::Writes(
            seq![
                ChangesView::new()
                    .put(Column::ArchivedAt, ValueView::Int8(self.archived_at as i64))
                    .put(Column::UpdatedAt, ValueView::Int8(self.archived_at as i64))
                    .update(
                        Table::Workspaces,
                        FilterView::new()
                            .equals(Column::WorkspaceId, ValueView::Text(self.workspace_id@))
                            .equals(Column::TenantId, ValueView::Text(self.tenant_id@)),
                    ),
            ],
        )
    }

    /// Plans what the event writes.
    pub fn plan(&self, at: &Moment) -> (r: Result<Vec<Statement>, StoreError>)
        ensures
            Planned::of(r) == self.writes(*at),
    {
        let mut changes = Changes::new();
        changes.put(Column::ArchivedAt, SqlValue::Int8(self.archived_at as i64));
        changes.put(Column::UpdatedAt, SqlValue::Int8(self.archived_at as i64));
        let mut filter = Filter::new();
        filter.equals(Column::WorkspaceId, text(&self.workspace_id));
        filter.equals(Column::TenantId, text(&self.tenant_id));
        one(changes.update(Table::Workspaces, filter))
    }
}

/// A project was created.
#[derive(Debug, PartialEq, Eq)]
pub struct ProjectCreated {
    pub project: ProjectKey,
    pub name: String,
    pub created_at: u64,
}

impl ProjectCreated {
    /// What the event writes.
    pub open spec fn writes(self, at: Moment) -> Planned {
        Planned::Writes(
            seq![
                RowView::new()
                    .put(Column::ProjectId, ValueView::Text(self.project.project_id@))
                    .put(Column::WorkspaceId, ValueView::Text(self.project.workspace_id@))
                    .put(Column::TenantId, ValueView::Text(self.project.tenant_id@))
                    .put(Column::Name, ValueView::Text(self.name@))
                    .put(Column::CreatedAt, ValueView::Int8(self.created_at as i64))
                    .put(Column::UpdatedAt, ValueView::Int8(self.created_at as i64))
                    .insert_new(Table::Projects, seq![Column::ProjectId]),
            ],
        )
    }

    /// Plans what the event writes.
    pub fn plan(&self, at: &Moment) -> (r: Result<Vec<Statement>, StoreError>)
        ensures
            Planned::of(r) == self.writes(*at),
    {
        let mut row = Cells::new();
        row.put(Column::ProjectId, text(&self.project.project_id));
        row.put(Column::WorkspaceId, text(&self.project.workspace_id));
        row.put(Column::TenantId, text(&self.project.tenant_id));
        row.put(Column::Name, text(&self.name));
        row.put(Column::CreatedAt, SqlValue::Int8(self.created_at as i64));
        row.put(Column::UpdatedAt, SqlValue::Int8(self.created_at as i64));
        one(row.insert_new(Table::Projects, only(Column::ProjectId)))
    }
}

/// A member was added to a workspace, or got another role.
#[derive(Debug, PartialEq, Eq)]
pub struct WorkspaceMemberAdded {
    pub role: String,
    pub workspace_id: String,
    pub member_id: String,
    pub added_at_ms: u64,
}

impl WorkspaceMemberAdded {
    /// What the event writes.
    pub open spec fn writes(self, at: Moment) -> Planned {
        Planned::Writes(
            seq![
                RowView::new()
                    .put(Column::WorkspaceId, ValueView::Text(self.workspace_id@))
                    .put(Column::OperatorId, ValueView::Text(self.member_id@))
                    .put(Column::Role, ValueView::Text(self.role@))
                    .put(Column::AddedAtMs, ValueView::Int8(self.added_at_ms as i64))
                    .upsert(
                        Table::WorkspaceMembers,
                        seq![Column::WorkspaceId, Column::OperatorId],
                        ChangesView::new().excluded(Column::Role),
                    ),
            ],
        )
    }

    /// Plans what the event writes.
    pub fn plan(&self, at: &Moment) -> (r: Result<Vec<Statement>, StoreError>)
        ensures
            Planned::of(r) == self.writes(*at),
    {
        let mut row = Cells::new();
        row.put(Column::WorkspaceId, text(&self.workspace_id));
        row.put(Column::OperatorId, text(&self.member_id));
        row.put(Column::Role, text(&self.role));
        row.put(Column::AddedAtMs, SqlValue::Int8(self.added_at_ms as i64));
        let mut changes = Changes::new();
        changes.excluded(Column::Role);
        one(
            row.upsert(
                Table::WorkspaceMembers,
                vec![Column::WorkspaceId, Column::OperatorId],
                changes,
            ),
        )
    }
}

/// A member was removed from a workspace.
#[derive(Debug, PartialEq, Eq)]
pub struct WorkspaceMemberRemoved {
    pub workspace_id: String,
    pub member_id: String,
}

impl WorkspaceMemberRemoved {
    /// What the event writes.
    pub open spec fn writes(self, at: Moment) -> Planned {
        Planned::Writes(
            seq![
                FilterView::new()
                    .equals(Column::WorkspaceId, ValueView::Text(self.workspace_id@))
                    .equals(Column::OperatorId, ValueView::Text(self.member_id@))
                    .delete(Table::WorkspaceMembers),
            ],
        )
    }

    /// Plans what the event writes.
    pub fn plan(&self, at: &Moment) -> (r: Result<Vec<Statement>, StoreError>)
        ensures
            Planned::of(r) == self.writes(*at),
    {
        let mut filter = Filter::new();
        filter.equals(Column::WorkspaceId, text(&self.workspace_id));
        filter.equals(Column::OperatorId, text(&self.member_id));
        one(filter.delete(Table::WorkspaceMembers))
    }
}

/// An operator profile was created or replaced.
#[derive(Debug, PartialEq, Eq)]
pub struct OperatorProfileCreated {
    pub role: String,
    pub profile_id: String,
    pub tenant_id: String,
    pub display_name: String,
    pub email: String,
}

impl OperatorProfileCreated {
    /// What the event writes.
    pub open spec fn writes(self, at: Moment) -> Planned {
        Planned::Writes(
            seq![
                RowView::new()
                    .put(Column::OperatorId, ValueView::Text(self.profile_id@))
                    .put(Column::TenantId, ValueView::Text(self.tenant_id@))
                    .put(Column::DisplayName, ValueView::Text(self.display_name@))
                    .put(Column::Email, ValueView::Text(self.email@))
                    .put(Column::Role, ValueView::Text(self.role@))
                    .put(Column::CreatedAtMs, ValueView::Int8(at.now))
                    .upsert(
                        Table::OperatorProfiles,
                        seq![Column::OperatorId],
                        ChangesView::new()
                            .excluded(Column::TenantId)
                            .excluded(Column::DisplayName)
                            .excluded(Column::Email)
                            .excluded(Column::Role)
                            .excluded(Column::CreatedAtMs),
                    ),
            ],
        )
    }

    /// Plans what the event writes.
    pub fn plan(&self, at: &Moment) -> (r: Result<Vec<Statement>, StoreError>)
        ensures
            Planned::of(r) == self.writes(*at),
    {
        let mut row = Cells::new();
        row.put(Column::OperatorId, text(&self.profile_id));
        row.put(Column::TenantId, text(&self.tenant_id));
        row.put(Column::DisplayName, text(&self.display_name));
        row.put(Column::Email, text(&self.email));
        row.put(Column::Role, text(&self.role));
        row.put(Column::CreatedAtMs, SqlValue::Int8(at.now));
        let mut changes = Changes::new();
        changes.excluded(Column::TenantId);
        changes.excluded(Column::DisplayName);
        changes.excluded(Column::Email);
        changes.excluded(Column::Role);
        changes.excluded(Column::CreatedAtMs);
        one(row.upsert(Table::OperatorProfiles, only(Column::OperatorId), changes))
    }
}

/// An operator profile changed. What is not given stays.
#[derive(Debug, PartialEq, Eq)]
pub struct OperatorProfileUpdated {
    pub role: Option<String>,
    pub profile_id: String,
    pub display_name: Option<String>,
    pub email: Option<String>,
}

impl OperatorProfileUpdated {
    /// What the event writes.
    pub open spec fn writes(self, at: Moment) -> Planned {
        Planned::Writes(
            seq![
                ChangesView::new()
                    .source(
                        Column::DisplayName,
                        SourceView::ValueOrStored(ValueView::opt_text(self.display_name)),
                    )
                    .source(
                        Column::Email,
                        SourceView::ValueOrStored(ValueView::opt_text(self.email)),
                    )
                    .source(Column::Role, SourceView::ValueOrStored(ValueView::opt_text(self.role)))
                    .update(
                        Table::OperatorProfiles,
                        FilterView::new()
                            .equals(Column::OperatorId, ValueView::Text(self.profile_id@)),
                    ),
            ],
        )
    }

    /// Plans what the event writes.
    pub fn plan(&self, at: &Moment) -> (r: Result<Vec<Statement>, StoreError>)
        ensures
            Planned::of(r) == self.writes(*at),
    {
        let mut changes = Changes::new();
        changes.source(Column::DisplayName, Source::ValueOrStored(opt_text(&self.display_name)));
        changes.source(Column::Email, Source::ValueOrStored(opt_text(&self.email)));
        changes.source(Column::Role, Source::ValueOrStored(opt_text(&self.role)));
        let mut filter = Filter::new();
        filter.equals(Column::OperatorId, text(&self.profile_id));
        one(changes.update(Table::OperatorProfiles, filter))
    }
}

/// An operator was granted a role in a tenant. A revocation is undone.
#[derive(Debug, PartialEq, Eq)]
pub struct TenantRoleGranted {
    pub role: String,
    pub at_ms: u64,
    pub tenant_id: String,
    pub operator_id: String,
    pub granted_by: String,
}

impl TenantRoleGranted {
    /// What the event writes.
    pub open spec fn writes(self, at: Moment) -> Planned {
        if self.at_ms > i64::MAX {
            Planned::Refused(
                ErrorView::exceeds("TenantRoleGranted.at_ms"@, self.at_ms as nat, "i64::MAX"@),
            )
        } else {
            Planned::Writes(
                seq![
                    RowView::new()
                        .put(Column::TenantId, ValueView::Text(self.tenant_id@))
                        .put(Column::OperatorId, ValueView::Text(self.operator_id@))
                        .put(Column::Role, ValueView::Text(self.role@))
                        .put(Column::GrantedAtMs, ValueView::Int8(self.at_ms as i64))
                        .put(Column::GrantedBy, ValueView::Text(self.granted_by@))
                        .put(Column::RevokedAtMs, ValueView::Null(SqlType::Int8))
                        .put(Column::RevokedBy, ValueView::Null(SqlType::Text))
                        .upsert(
                            Table::OperatorTenantRoles,
                            seq![Column::TenantId, Column::OperatorId],
                            ChangesView::new()
                                .excluded(Column::Role)
                                .excluded(Column::GrantedAtMs)
                                .excluded(Column::GrantedBy)
                                .put(Column::RevokedAtMs, ValueView::Null(SqlType::Int8))
                                .put(Column::RevokedBy, ValueView::Null(SqlType::Text)),
                        ),
                ],
            )
        }
    }

    /// Plans what the event writes.
    pub fn plan(&self, at: &Moment) -> (r: Result<Vec<Statement>, StoreError>)
        ensures
            Planned::of(r) == self.writes(*at),
    {
        let granted_at: i64 = match fits_i64("TenantRoleGranted.at_ms", self.at_ms) {
            Ok(v) => v,
            Err(e) => return Err(e),
        };
        let mut row = Cells::new();
        row.put(Column::TenantId, text(&self.tenant_id));
        row.put(Column::OperatorId, text(&self.operator_id));
        row.put(Column::Role, text(&self.role));
        row.put(Column::GrantedAtMs, SqlValue::Int8(granted_at));
        row.put(Column::GrantedBy, text(&self.granted_by));
        row.put(Column::RevokedAtMs, SqlValue::Null(SqlType::Int8));
        row.put(Column::RevokedBy, SqlValue::Null(SqlType::Text));
        let mut changes = Changes::new();
        changes.excluded(Column::Role);
        changes.excluded(Column::GrantedAtMs);
        changes.excluded(Column::GrantedBy);
        changes.put(Column::RevokedAtMs, SqlValue::Null(SqlType::Int8));
        changes.put(Column::RevokedBy, SqlValue::Null(SqlType::Text));
        one(
            row.upsert(
                Table::OperatorTenantRoles,
                vec![Column::TenantId, Column::OperatorId],
                changes,
            ),
        )
    }
}

/// The role of an operator in a tenant was revoked.
#[derive(Debug, PartialEq, Eq)]
pub struct TenantRoleRevoked {
    pub at_ms: u64,
    pub tenant_id: String,
    pub operator_id: String,
    pub revoked_by: String,
}

impl TenantRoleRevoked {
    /// What the event writes.
    pub open spec fn writes(self, at: Moment) -> Planned {
        if self.at_ms > i64::MAX {
            Planned::Refused(
                ErrorView::exceeds("TenantRoleRevoked.at_ms"@, self.at_ms as nat, "i64::MAX"@),
            )
        } else {
            Planned::Writes(
                seq![
                    ChangesView::new()
                        .put(Column::RevokedAtMs, ValueView::Int8(self.at_ms as i64))
                        .put(Column::RevokedBy, ValueView::Text(self.revoked_by@))
                        .update(
                            Table::OperatorTenantRoles,
                            FilterView::new()
                                .equals(Column::TenantId, ValueView::Text(self.tenant_id@))
                                .equals(Column::OperatorId, ValueView::Text(self.operator_id@)),
                        ),
                ],
            )
        }
    }

    /// Plans what the event writes.
    pub fn plan(&self, at: &Moment) -> (r: Result<Vec<Statement>, StoreError>)
        ensures
            Planned::of(r) == self.writes(*at),
    {
        let revoked_at: i64 = match fits_i64("TenantRoleRevoked.at_ms", self.at_ms) {
            Ok(v) => v,
            Err(e) => return Err(e),
        };
        let mut changes = Changes::new();
        changes.put(Column::RevokedAtMs, SqlValue::Int8(revoked_at));
        changes.put(Column::RevokedBy, text(&self.revoked_by));
        let mut filter = Filter::new();
        filter.equals(Column::TenantId, text(&self.tenant_id));
        filter.equals(Column::OperatorId, text(&self.operator_id));
        one(changes.update(Table::OperatorTenantRoles, filter))
    }
}

/// The quotas of a tenant were set.
#[derive(Debug, PartialEq, Eq)]
pub struct TenantQuotaSet {
    pub max_concurrent_runs: u32,
    pub max_sessions_per_hour: u32,
    pub max_tasks_per_run: u32,
    pub tenant_id: String,
}

impl TenantQuotaSet {
    /// What the event writes.
    pub open spec fn writes(self, at: Moment) -> Planned {
        if self.max_concurrent_runs > i32::MAX {
            Planned::Refused(
                ErrorView::exceeds_integer_column(
                    "TenantQuotaSet.max_concurrent_runs"@,
                    self.max_concurrent_runs as nat,
                ),
            )
        } else if self.max_sessions_per_hour > i32::MAX {
            Planned::Refused(
                ErrorView::exceeds_integer_column(
                    "TenantQuotaSet.max_sessions_per_hour"@,
                    self.max_sessions_per_hour as nat,
                ),
            )
        } else if self.max_tasks_per_run > i32::MAX {
            Planned::Refused(
                ErrorView::exceeds_integer_column(
                    "TenantQuotaSet.max_tasks_per_run"@,
                    self.max_tasks_per_run as nat,
                ),
            )
        } else {
            Planned::Writes(
                seq![
                    RowView::new()
                        .put(Column::TenantId, ValueView::Text(self.tenant_id@))
                        .put(
                            Column::MaxConcurrentRuns,
                            ValueView::Int4(self.max_concurrent_runs as i32),
                        )
                        .put(
                            Column::MaxSessionsPerHour,
                            ValueView::Int4(self.max_sessions_per_hour as i32),
                        )
                        .put(Column::MaxTasksPerRun, ValueView::Int4(self.max_tasks_per_run as i32))
                        .put(Column::CreatedAt, ValueView::Int8(at.now))
                        .put(Column::UpdatedAt, ValueView::Int8(at.now))
                        .upsert(
                            Table::TenantQuotas,
                            seq![Column::TenantId],
                            ChangesView::new()
                                .excluded(Column::MaxConcurrentRuns)
                                .excluded(Column::MaxSessionsPerHour)
                                .excluded(Column::MaxTasksPerRun)
                                .excluded(Column::UpdatedAt),
                        ),
                ],
            )
        }
    }

    /// Plans what the event writes.
    pub fn plan(&self, at: &Moment) -> (r: Result<Vec<Statement>, StoreError>)
        ensures
            Planned::of(r) == self.writes(*at),
    {
        let max_concurrent_runs: i32 = match i32_from_u32(
            "TenantQuotaSet.max_concurrent_runs",
            self.max_concurrent_runs,
        ) {
            Ok(v) => v,
            Err(e) => return Err(e),
        };
        let max_sessions_per_hour: i32 = match i32_from_u32(
            "TenantQuotaSet.max_sessions_per_hour",
            self.max_sessions_per_hour,
        ) {
            Ok(v) => v,
            Err(e) => return Err(e),
        };
        let max_tasks_per_run: i32 = match i32_from_u32(
            "TenantQuotaSet.max_tasks_per_run",
            self.max_tasks_per_run,
        ) {
            Ok(v) => v,
            Err(e) => return Err(e),
        };
        let mut row = Cells::new();
        row.put(Column::TenantId, text(&self.tenant_id));
        row.put(Column::MaxConcurrentRuns, SqlValue::Int4(max_concurrent_runs));
        row.put(Column::MaxSessionsPerHour, SqlValue::Int4(max_sessions_per_hour));
        row.put(Column::MaxTasksPerRun, SqlValue::Int4(max_tasks_per_run));
        row.put(Column::CreatedAt, SqlValue::Int8(at.now));
        row.put(Column::UpdatedAt, SqlValue::Int8(at.now));
        let mut changes = Changes::new();
        changes.excluded(Column::MaxConcurrentRuns);
        changes.excluded(Column::MaxSessionsPerHour);
        changes.excluded(Column::MaxTasksPerRun);
        changes.excluded(Column::UpdatedAt);
        one(row.upsert(Table::TenantQuotas, only(Column::TenantId), changes))
    }
}

/// A tenant went over a quota.
#[derive(Debug, PartialEq, Eq)]
pub struct TenantQuotaViolated {
    pub occurred_at_ms: u64,
    pub current: u32,
    pub limit: u32,
    pub tenant_id: String,
    pub quota_type: String,
}

impl TenantQuotaViolated {
    /// What the event writes.
    pub open spec fn writes(self, at: Moment) -> Planned {
        if self.occurred_at_ms > i64::MAX {
            Planned::Refused(
                ErrorView::exceeds(
                    "TenantQuotaViolated.occurred_at_ms"@,
                    self.occurred_at_ms as nat,
                    "i64::MAX"@,
                ),
            )
        } else if self.current > i32::MAX {
            Planned::Refused(
                ErrorView::exceeds_integer_column(
                    "TenantQuotaViolated.current"@,
                    self.current as nat,
                ),
            )
        } else if self.limit > i32::MAX {
            Planned::Refused(
                ErrorView::exceeds_integer_column("TenantQuotaViolated.limit"@, self.limit as nat),
            )
        } else {
            Planned::Writes(
                seq![
                    RowView::new()
                        .put(Column::TenantId, ValueView::Text(self.tenant_id@))
                        .put(Column::QuotaType, ValueView::Text(self.quota_type@))
                        .put(Column::OccurredAtMs, ValueView::Int8(self.occurred_at_ms as i64))
                        .put(Column::CurrentValue, ValueView::Int4(self.current as i32))
                        .put(Column::LimitValue, ValueView::Int4(self.limit as i32))
                        .insert_new(
                            Table::TenantQuotaViolations,
                            seq![Column::TenantId, Column::QuotaType, Column::OccurredAtMs],
                        ),
                ],
            )
        }
    }

    /// Plans what the event writes.
    pub fn plan(&self, at: &Moment) -> (r: Result<Vec<Statement>, StoreError>)
        ensures
            Planned::of(r) == self.writes(*at),
    {
        let occurred_at: i64 = match fits_i64(
            "TenantQuotaViolated.occurred_at_ms",
            self.occurred_at_ms,
        ) {
            Ok(v) => v,
            Err(e) => return Err(e),
        };
        let current: i32 = match i32_from_u32("TenantQuotaViolated.current", self.current) {
            Ok(v) => v,
            Err(e) => return Err(e),
        };
        let limit: i32 = match i32_from_u32("TenantQuotaViolated.limit", self.limit) {
            Ok(v) => v,
            Err(e) => return Err(e),
        };
        let mut row = Cells::new();
        row.put(Column::TenantId, text(&self.tenant_id));
        row.put(Column::QuotaType, text(&self.quota_type));
        row.put(Column::OccurredAtMs, SqlValue::Int8(occurred_at));
        row.put(Column::CurrentValue, SqlValue::Int4(current));
        row.put(Column::LimitValue, SqlValue::Int4(limit));
        one(
            row.insert_new(
                Table::TenantQuotaViolations,
                vec![Column::TenantId, Column::QuotaType, Column::OccurredAtMs],
            ),
        )
    }
}

/// A license was activated.
#[derive(Debug, PartialEq, Eq)]
pub struct LicenseActivated {
    pub valid_from_ms: u64,
    pub valid_until_ms: Option<u64>,
    pub tier: ProductTier,
    pub tenant_id: String,
    pub license_id: String,
}

impl LicenseActivated {
    /// What the event writes.
    pub open spec fn writes(self, at: Moment) -> Planned {
        if self.valid_from_ms > i64::MAX {
            Planned::Refused(
                ErrorView::exceeds(
                    "LicenseActivated.valid_from_ms"@,
                    self.valid_from_ms as nat,
                    "i64::MAX"@,
                ),
            )
        } else if self.valid_until_ms matches Some(v) && v > i64::MAX {
            Planned::Refused(
                ErrorView::exceeds(
                    "LicenseActivated.valid_until_ms"@,
                    self.valid_until_ms->0 as nat,
                    "i64::MAX"@,
                ),
            )
        } else {
            Planned::Writes(
                seq![
                    RowView::new()
                        .put(Column::TenantId, ValueView::Text(self.tenant_id@))
                        .put(Column::LicenseKey, ValueView::Text(self.license_id@))
                        .put(Column::Tier, ValueView::Text(self.tier.spec_name()))
                        .put(Column::EntitlementsJson, ValueView::Text("[]"@))
                        .put(Column::IssuedAt, ValueView::Int8(self.valid_from_ms as i64))
                        .put(Column::ExpiresAt, ValueView::opt_bits8(self.valid_until_ms))
                        .put(Column::CreatedAt, ValueView::Int8(at.now))
                        .put(Column::UpdatedAt, ValueView::Int8(at.now))
                        .upsert(
                            Table::Licenses,
                            seq![Column::TenantId],
                            ChangesView::new()
                                .excluded(Column::LicenseKey)
                                .excluded(Column::Tier)
                                .excluded(Column::EntitlementsJson)
                                .excluded(Column::IssuedAt)
                                .excluded(Column::ExpiresAt)
                                .excluded(Column::UpdatedAt),
                        ),
                ],
            )
        }
    }

    /// Plans what the event writes.
    pub fn plan(&self, at: &Moment) -> (r: Result<Vec<Statement>, StoreError>)
        ensures
            Planned::of(r) == self.writes(*at),
    {
        let issued_at: i64 = match fits_i64("LicenseActivated.valid_from_ms", self.valid_from_ms) {
            Ok(v) => v,
            Err(e) => return Err(e),
        };
        let expires_at: Option<i64> = match opt_fits_i64(
            "LicenseActivated.valid_until_ms",
            self.valid_until_ms,
        ) {
            Ok(v) => v,
            Err(e) => return Err(e),
        };
        let mut row = Cells::new();
        row.put(Column::TenantId, text(&self.tenant_id));
        row.put(Column::LicenseKey, text(&self.license_id));
        row.put(Column::Tier, text(self.tier.name()));
        row.put(Column::EntitlementsJson, text("[]"));
        row.put(Column::IssuedAt, SqlValue::Int8(issued_at));
        row.put(Column::ExpiresAt, opt_int8(expires_at));
        row.put(Column::CreatedAt, SqlValue::Int8(at.now));
        row.put(Column::UpdatedAt, SqlValue::Int8(at.now));
        let mut changes = Changes::new();
        changes.excluded(Column::LicenseKey);
        changes.excluded(Column::Tier);
        changes.excluded(Column::EntitlementsJson);
        changes.excluded(Column::IssuedAt);
        changes.excluded(Column::ExpiresAt);
        changes.excluded(Column::UpdatedAt);
        one(row.upsert(Table::Licenses, only(Column::TenantId), changes))
    }
}

/// A feature was allowed or refused to a tenant.
#[derive(Debug, PartialEq, Eq)]
pub struct EntitlementOverrideSet {
    pub set_at_ms: u64,
    pub tenant_id: String,
    pub feature: String,
    pub allowed: bool,
    pub reason: Option<String>,
}

impl EntitlementOverrideSet {
    /// What the event writes.
    pub open spec fn writes(self, at: Moment) -> Planned {
        if self.set_at_ms > i64::MAX {
            Planned::Refused(
                ErrorView::exceeds(
                    "EntitlementOverrideSet.set_at_ms"@,
                    self.set_at_ms as nat,
                    "i64::MAX"@,
                ),
            )
        } else {
            Planned::Writes(
                seq![
                    RowView::new()
                        .put(Column::TenantId, ValueView::Text(self.tenant_id@))
                        .put(Column::Feature, ValueView::Text(self.feature@))
                        .put(Column::Allowed, ValueView::Bool(self.allowed))
                        .put(Column::Reason, ValueView::opt_text(self.reason))
                        .put(Column::SetAtMs, ValueView::Int8(self.set_at_ms as i64))
                        .put(Column::CreatedAt, ValueView::Int8(at.now))
                        .put(Column::UpdatedAt, ValueView::Int8(at.now))
                        .upsert(
                            Table::EntitlementOverrides,
                            seq![Column::TenantId, Column::Feature],
                            ChangesView::new()
                                .excluded(Column::Allowed)
                                .excluded(Column::Reason)
                                .excluded(Column::SetAtMs)
                                .excluded(Column::UpdatedAt),
                        ),
                ],
            )
        }
    }

    /// Plans what the event writes.
    pub fn plan(&self, at: &Moment) -> (r: Result<Vec<Statement>, StoreError>)
        ensures
            Planned::of(r) == self.writes(*at),
    {
        let set_at_ms: i64 = match fits_i64("EntitlementOverrideSet.set_at_ms", self.set_at_ms) {
            Ok(v) => v,
            Err(e) => return Err(e),
        };
        let mut row = Cells::new();
        row.put(Column::TenantId, text(&self.tenant_id));
        row.put(Column::Feature, text(&self.feature));
        row.put(Column::Allowed, SqlValue::Bool(self.allowed));
        row.put(Column::Reason, opt_text(&self.reason));
        row.put(Column::SetAtMs, SqlValue::Int8(set_at_ms));
        row.put(Column::CreatedAt, SqlValue::Int8(at.now));
        row.put(Column::UpdatedAt, SqlValue::Int8(at.now));
        let mut changes = Changes::new();
        changes.excluded(Column::Allowed);
        changes.excluded(Column::Reason);
        changes.excluded(Column::SetAtMs);
        changes.excluded(Column::UpdatedAt);
        one(
            row.upsert(
                Table::EntitlementOverrides,
                vec![Column::TenantId, Column::Feature],
                changes,
            ),
        )
    }
}

/// The retention policy of a tenant was set.
#[derive(Debug, PartialEq, Eq)]
pub struct RetentionPolicySet {
    pub full_history_days: u32,
    pub current_state_days: u32,
    pub max_events_per_entity: Option<u64>,
    pub tenant_id: String,
    pub policy_id: String,
}

impl RetentionPolicySet {
    /// What the event writes.
    pub open spec fn writes(self, at: Moment) -> Planned {
        if self.full_history_days > i32::MAX {
            Planned::Refused(
                ErrorView::exceeds(
                    "RetentionPolicySet.full_history_days"@,
                    self.full_history_days as nat,
                    "i32::MAX"@,
                ),
            )
        } else if self.current_state_days > i32::MAX {
            Planned::Refused(
                ErrorView::exceeds(
                    "RetentionPolicySet.current_state_days"@,
                    self.current_state_days as nat,
                    "i32::MAX"@,
                ),
            )
        } else if self.max_events_per_entity matches Some(v) && v > i64::MAX {
            Planned::Refused(
                ErrorView::exceeds(
                    "RetentionPolicySet.max_events_per_entity"@,
                    self.max_events_per_entity->0 as nat,
                    "i64::MAX"@,
                ),
            )
        } else {
            Planned::Writes(
                seq![
                    RowView::new()
                        .put(Column::TenantId, ValueView::Text(self.tenant_id@))
                        .put(Column::PolicyId, ValueView::Text(self.policy_id@))
                        .put(
                            Column::FullHistoryDays,
                            ValueView::Int4(self.full_history_days as i32),
                        )
                        .put(
                            Column::CurrentStateDays,
                            ValueView::Int4(self.current_state_days as i32),
                        )
                        .put(
                            Column::MaxEventsPerEntity,
                            ValueView::opt_bits8(self.max_events_per_entity),
                        )
                        .put(Column::CreatedAt, ValueView::Int8(at.now))
                        .put(Column::UpdatedAt, ValueView::Int8(at.now))
                        .upsert(
                            Table::RetentionPolicies,
                            seq![Column::TenantId],
                            ChangesView::new()
                                .excluded(Column::PolicyId)
                                .excluded(Column::FullHistoryDays)
                                .excluded(Column::CurrentStateDays)
                                .excluded(Column::MaxEventsPerEntity)
                                .excluded(Column::UpdatedAt),
                        ),
                ],
            )
        }
    }

    /// Plans what the event writes.
    pub fn plan(&self, at: &Moment) -> (r: Result<Vec<Statement>, StoreError>)
        ensures
            Planned::of(r) == self.writes(*at),
    {
        let full_history_days: i32 = match fits_i32(
            "RetentionPolicySet.full_history_days",
            self.full_history_days,
        ) {
            Ok(v) => v,
            Err(e) => return Err(e),
        };
        let current_state_days: i32 = match fits_i32(
            "RetentionPolicySet.current_state_days",
            self.current_state_days,
        ) {
            Ok(v) => v,
            Err(e) => return Err(e),
        };
        let max_events: Option<i64> = match opt_fits_i64(
            "RetentionPolicySet.max_events_per_entity",
            self.max_events_per_entity,
        ) {
            Ok(v) => v,
            Err(e) => return Err(e),
        };
        let mut row = Cells::new();
        row.put(Column::TenantId, text(&self.tenant_id));
        row.put(Column::PolicyId, text(&self.policy_id));
        row.put(Column::FullHistoryDays, SqlValue::Int4(full_history_days));
        row.put(Column::CurrentStateDays, SqlValue::Int4(current_state_days));
        row.put(Column::MaxEventsPerEntity, opt_int8(max_events));
        row.put(Column::CreatedAt, SqlValue::Int8(at.now));
        row.put(Column::UpdatedAt, SqlValue::Int8(at.now));
        let mut changes = Changes::new();
        changes.excluded(Column::PolicyId);
        changes.excluded(Column::FullHistoryDays);
        changes.excluded(Column::CurrentStateDays);
        changes.excluded(Column::MaxEventsPerEntity);
        changes.excluded(Column::UpdatedAt);
        one(row.upsert(Table::RetentionPolicies, only(Column::TenantId), changes))
    }
}

/// A default setting was set.
#[derive(Debug, PartialEq, Eq)]
pub struct DefaultSettingSet {
    pub value_json: String,
    pub scope: Scope,
    pub scope_id: String,
    pub key: String,
}

impl DefaultSettingSet {
    /// What the event writes.
    pub open spec fn writes(self, at: Moment) -> Planned {
        Planned::Writes(
            seq![
                RowView::new()
                    .put(Column::Scope, ValueView::Text(self.scope.spec_name()))
                    .put(Column::ScopeId, ValueView::Text(self.scope_id@))
                    .put(Column::Key, ValueView::Text(self.key@))
                    .put(Column::ValueJson, ValueView::Text(self.value_json@))
                    .upsert(
                        Table::DefaultSettings,
                        seq![Column::Scope, Column::ScopeId, Column::Key],
                        ChangesView::new().excluded(Column::ValueJson),
                    ),
            ],
        )
    }

    /// Plans what the event writes.
    pub fn plan(&self, at: &Moment) -> (r: Result<Vec<Statement>, StoreError>)
        ensures
            Planned::of(r) == self.writes(*at),
    {
        let mut row = Cells::new();
        row.put(Column::Scope, text(self.scope.name()));
        row.put(Column::ScopeId, text(&self.scope_id));
        row.put(Column::Key, text(&self.key));
        row.put(Column::ValueJson, text(&self.value_json));
        let mut changes = Changes::new();
        changes.excluded(Column::ValueJson);
        one(
            row.upsert(
                Table::DefaultSettings,
                vec![Column::Scope, Column::ScopeId, Column::Key],
                changes,
            ),
        )
    }
}

/// A default setting was cleared.
#[derive(Debug, PartialEq, Eq)]
pub struct DefaultSettingCleared {
    pub scope: Scope,
    pub scope_id: String,
    pub key: String,
}

impl DefaultSettingCleared {
    /// What the event writes.
    pub open spec fn writes(self, at: Moment) -> Planned {
        Planned::Writes(
            seq![
                FilterView::new()
                    .equals(Column::Scope, ValueView::Text(self.scope.spec_name()))
                    .equals(Column::ScopeId, ValueView::Text(self.scope_id@))
                    .equals(Column::Key, ValueView::Text(self.key@))
                    .delete(Table::DefaultSettings),
            ],
        )
    }

    /// Plans what the event writes.
    pub fn plan(&self, at: &Moment) -> (r: Result<Vec<Statement>, StoreError>)
        ensures
            Planned::of(r) == self.writes(*at),
    {
        let mut filter = Filter::new();
        filter.equals(Column::Scope, text(self.scope.name()));
        filter.equals(Column::ScopeId, text(&self.scope_id));
        filter.equals(Column::Key, text(&self.key));
        one(filter.delete(Table::DefaultSettings))
    }
}

/// A resource was shared with a workspace.
#[derive(Debug, PartialEq, Eq)]
pub struct ResourceShared {
    pub shared_at_ms: u64,
    pub permissions: Vec<String>,
    pub share_id: String,
    pub tenant_id: String,
    pub source_workspace_id: String,
    pub target_workspace_id: String,
    pub resource_type: String,
    pub resource_id: String,
}

impl ResourceShared {
    /// What the event writes.
    pub open spec fn writes(self, at: Moment) -> Planned {
        if self.shared_at_ms > i64::MAX {
            Planned::Refused(
                ErrorView::exceeds(
                    "ResourceShared.shared_at_ms"@,
                    self.shared_at_ms as nat,
                    "i64::MAX"@,
                ),
            )
        } else {
            Planned::Writes(
                seq![
                    RowView::new()
                        .put(Column::ShareId, ValueView::Text(self.share_id@))
                        .put(Column::TenantId, ValueView::Text(self.tenant_id@))
                        .put(Column::SourceWorkspaceId, ValueView::Text(self.source_workspace_id@))
                        .put(Column::TargetWorkspaceId, ValueView::Text(self.target_workspace_id@))
                        .put(Column::ResourceType, ValueView::Text(self.resource_type@))
                        .put(Column::ResourceId, ValueView::Text(self.resource_id@))
                        .put(
                            Column::PermissionsJson,
                            ValueView::Text(
                                crate::json::strings_as_json(self.permissions.deep_view()),
                            ),
                        )
                        .put(Column::SharedAtMs, ValueView::Int8(self.shared_at_ms as i64))
                        .insert_new(Table::ResourceShares, seq![Column::ShareId]),
                ],
            )
        }
    }

    /// Plans what the event writes.
    pub fn plan(&self, at: &Moment) -> (r: Result<Vec<Statement>, StoreError>)
        ensures
            Planned::of(r) == self.writes(*at),
            r is Ok ==> crate::json::keeps(self.permissions.deep_view()),
    {
        let shared_at: i64 = match fits_i64("ResourceShared.shared_at_ms", self.shared_at_ms) {
            Ok(v) => v,
            Err(e) => return Err(e),
        };
        let permissions_json: String = match encode_strings(&self.permissions) {
            Ok(t) => t,
            Err(m) => {
                let mut message: String = "ResourceShared.permissions JSON encode: ".to_owned();
                message.append(&m);
                return Err(StoreError::Internal(message));
            },
        };
        let mut row = Cells::new();
        row.put(Column::ShareId, text(&self.share_id));
        row.put(Column::TenantId, text(&self.tenant_id));
        row.put(Column::SourceWorkspaceId, text(&self.source_workspace_id));
        row.put(Column::TargetWorkspaceId, text(&self.target_workspace_id));
        row.put(Column::ResourceType, text(&self.resource_type));
        row.put(Column::ResourceId, text(&self.resource_id));
        row.put(Column::PermissionsJson, SqlValue::Text(permissions_json));
        row.put(Column::SharedAtMs, SqlValue::Int8(shared_at));
        one(row.insert_new(Table::ResourceShares, only(Column::ShareId)))
    }
}

/// A share of a resource was revoked.
#[derive(Debug, PartialEq, Eq)]
pub struct ResourceShareRevoked {
    pub share_id: String,
}

impl ResourceShareRevoked {
    /// What the event writes.
    pub open spec fn writes(self, at: Moment) -> Planned {
        Planned::Writes(
            seq![
                FilterView::new()
                    .equals(Column::ShareId, ValueView::Text(self.share_id@))
                    .delete(Table::ResourceShares),
            ],
        )
    }

    /// Plans what the event writes.
    pub fn plan(&self, at: &Moment) -> (r: Result<Vec<Statement>, StoreError>)
        ensures
            Planned::of(r) == self.writes(*at),
    {
        let mut filter = Filter::new();
        filter.equals(Column::ShareId, text(&self.share_id));
        one(filter.delete(Table::ResourceShares))
    }
}

} // verus!
