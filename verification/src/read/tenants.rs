//! Credentials, quotas, licenses, settings, operators and shares.

use crate::domain::DomainNames;
use crate::error::{ErrorView, StoreError};
use crate::json::{decode_strings, decode_text, quote, refusal};
use crate::model::Datum;
use crate::query::{Output, OutputView, Query, QueryView};
use crate::read::{
    Decoded, StoredRow, closed_states_list, knows, to_clamp4, to_floor4, to_floor8, to_low4,
    to_opt_floor8,
};
use crate::schema::{Column, Table};
use crate::statement::{Test, TestView};
use crate::value::{SqlValue, ValueView, text};
use crate::vocabulary::{ProductTier, Scope};
use vstd::prelude::*;
use vstd::string::*;

verus! {

/// A row of `credentials`.
#[derive(Debug, PartialEq, Eq)]
pub struct CredentialRow {
    pub credential_id: String,
    pub tenant_id: String,
    pub name: String,
    pub provider_id: String,
    pub credential_type: String,
    pub encrypted_value: Vec<u8>,
    pub key_id: Option<String>,
    pub key_version: Option<String>,
    pub active: bool,
    pub encrypted_at_ms: Option<i64>,
    pub revoked_at_ms: Option<i64>,
    pub created_at: i64,
    pub updated_at: i64,
}

/// A stored credential, encrypted.
#[derive(Debug, PartialEq, Eq)]
pub struct CredentialRecord {
    pub id: String,
    pub tenant_id: String,
    pub name: String,
    pub credential_type: String,
    pub encrypted_value: Vec<u8>,
    pub created_at: u64,
    pub updated_at: u64,
    pub active: bool,
    pub provider_id: String,
    pub encrypted_at_ms: Option<u64>,
    pub key_id: Option<String>,
    pub key_version: Option<String>,
    pub revoked_at_ms: Option<u64>,
}

impl CredentialRow {
    /// The columns that the row is read from.
    pub open spec fn spec_columns() -> Seq<Column> {
        seq![
            Column::CredentialId,
            Column::TenantId,
            Column::Name,
            Column::ProviderId,
            Column::CredentialType,
            Column::EncryptedValue,
            Column::KeyId,
            Column::KeyVersion,
            Column::Active,
            Column::EncryptedAtMs,
            Column::RevokedAtMs,
            Column::CreatedAt,
            Column::UpdatedAt,
        ]
    }

    fn columns() -> (r: Vec<Column>)
        ensures
            r@ == Self::spec_columns(),
    {
        vec![
            Column::CredentialId,
            Column::TenantId,
            Column::Name,
            Column::ProviderId,
            Column::CredentialType,
            Column::EncryptedValue,
            Column::KeyId,
            Column::KeyVersion,
            Column::Active,
            Column::EncryptedAtMs,
            Column::RevokedAtMs,
            Column::CreatedAt,
            Column::UpdatedAt,
        ]
    }

    /// Whether this is what a stored row holds in those columns.
    pub open spec fn is_of(self, row: crate::model::Row) -> bool {
        &&& crate::model::value(row, Column::CredentialId) == Datum::Text(self.credential_id@)
        &&& crate::model::value(row, Column::TenantId) == Datum::Text(self.tenant_id@)
        &&& crate::model::value(row, Column::Name) == Datum::Text(self.name@)
        &&& crate::model::value(row, Column::ProviderId) == Datum::Text(self.provider_id@)
        &&& crate::model::value(row, Column::CredentialType) == Datum::Text(self.credential_type@)
        &&& crate::model::value(row, Column::EncryptedValue) == Datum::Bytes(self.encrypted_value@)
        &&& crate::model::value(row, Column::KeyId) == Datum::opt_text(self.key_id)
        &&& crate::model::value(row, Column::KeyVersion) == Datum::opt_text(self.key_version)
        &&& crate::model::value(row, Column::Active) == Datum::Bool(self.active)
        &&& crate::model::value(row, Column::EncryptedAtMs) == Datum::opt_int8(self.encrypted_at_ms)
        &&& crate::model::value(row, Column::RevokedAtMs) == Datum::opt_int8(self.revoked_at_ms)
        &&& crate::model::value(row, Column::CreatedAt) == Datum::Int(self.created_at as int)
        &&& crate::model::value(row, Column::UpdatedAt) == Datum::Int(self.updated_at as int)
    }

    /// The query of [`CredentialRow::get`].
    pub open spec fn spec_get(credential_id: Seq<char>) -> QueryView {
        QueryView::on(Table::Credentials, OutputView::Rows(Self::spec_columns()))
            .equals(Column::CredentialId, ValueView::Text(credential_id))
    }

    /// Finds a credential.
    pub fn get(credential_id: &str) -> (r: Query)
        ensures
            r@ == Self::spec_get(credential_id@),
    {
        Query::on(Table::Credentials, Output::Rows(Self::columns()))
            .equals(Column::CredentialId, text(credential_id))
    }

    /// The query of [`CredentialRow::list_by_tenant`].
    pub open spec fn spec_list_by_tenant(
        tenant_id: Seq<char>,
        limit: usize,
        offset: usize,
    ) -> QueryView {
        QueryView::on(Table::Credentials, OutputView::Rows(Self::spec_columns()))
            .equals(Column::TenantId, ValueView::Text(tenant_id))
            .ascending(Column::CreatedAt)
            .ascending(Column::CredentialId)
            .limit(limit as i64)
            .offset(offset as i64)
    }

    /// The credentials of a tenant, the oldest first.
    pub fn list_by_tenant(tenant_id: &str, limit: usize, offset: usize) -> (r: Query)
        ensures
            r@ == Self::spec_list_by_tenant(tenant_id@, limit, offset),
    {
        Query::on(Table::Credentials, Output::Rows(Self::columns()))
            .equals(Column::TenantId, text(tenant_id))
            .ascending(Column::CreatedAt)
            .ascending(Column::CredentialId)
            .limit(limit as i64)
            .offset(offset as i64)
    }

    /// The query of [`CredentialRow::list_all_active`].
    pub open spec fn spec_list_all_active(limit: usize) -> QueryView {
        QueryView::on(Table::Credentials, OutputView::Rows(Self::spec_columns()))
            .equals(Column::Active, ValueView::Bool(true))
            .ascending(Column::CreatedAt)
            .ascending(Column::CredentialId)
            .limit(limit as i64)
    }

    /// The active credentials of all tenants, the oldest first.
    pub fn list_all_active(limit: usize) -> (r: Query)
        ensures
            r@ == Self::spec_list_all_active(limit),
    {
        Query::on(Table::Credentials, Output::Rows(Self::columns()))
            .equals(Column::Active, SqlValue::Bool(true))
            .ascending(Column::CreatedAt)
            .ascending(Column::CredentialId)
            .limit(limit as i64)
    }
}

impl StoredRow for CredentialRow {
    type Record = CredentialRecord;

    open spec fn fault(&self, names: &DomainNames) -> Option<ErrorView> {
        None
    }

    open spec fn holds(&self, names: &DomainNames, record: &CredentialRecord) -> bool {
        &&& record.id == self.credential_id
        &&& record.tenant_id == self.tenant_id
        &&& record.name == self.name
        &&& record.credential_type == self.credential_type
        &&& record.encrypted_value == self.encrypted_value
        &&& record.created_at == crate::read::floor8(self.created_at)
        &&& record.updated_at == crate::read::floor8(self.updated_at)
        &&& record.active == self.active
        &&& record.provider_id == self.provider_id
        &&& record.encrypted_at_ms == crate::read::opt_floor8(self.encrypted_at_ms)
        &&& record.key_id == self.key_id
        &&& record.key_version == self.key_version
        &&& record.revoked_at_ms == crate::read::opt_floor8(self.revoked_at_ms)
    }

    fn into_record(self, names: &DomainNames) -> (r: Result<CredentialRecord, StoreError>) {
        Ok(
            CredentialRecord {
                id: self.credential_id,
                tenant_id: self.tenant_id,
                name: self.name,
                credential_type: self.credential_type,
                encrypted_value: self.encrypted_value,
                created_at: to_floor8(self.created_at),
                updated_at: to_floor8(self.updated_at),
                active: self.active,
                provider_id: self.provider_id,
                encrypted_at_ms: to_opt_floor8(self.encrypted_at_ms),
                key_id: self.key_id,
                key_version: self.key_version,
                revoked_at_ms: to_opt_floor8(self.revoked_at_ms),
            },
        )
    }
}

/// A row of `credential_rotations`.
#[derive(Debug, PartialEq, Eq)]
pub struct CredentialRotationRow {
    pub rotation_id: String,
    pub tenant_id: String,
    pub credential_id: String,
    pub old_key_id: String,
    pub new_key_id: String,
    pub rotated_credentials: i32,
    pub started_at_ms: i64,
    pub completed_at_ms: Option<i64>,
    pub rotated_at: i64,
    pub rotated_by: Option<String>,
}

/// A change of the key of credentials.
#[derive(Debug, PartialEq, Eq)]
pub struct CredentialRotationRecord {
    pub rotation_id: String,
    pub tenant_id: String,
    pub credential_id: String,
    pub rotated_at: u64,
    pub rotated_by: Option<String>,
    pub old_key_id: String,
    pub new_key_id: String,
    pub rotated_credentials: u32,
    pub started_at_ms: u64,
    pub completed_at_ms: Option<u64>,
}

impl CredentialRotationRow {
    /// The columns that the row is read from.
    pub open spec fn spec_columns() -> Seq<Column> {
        seq![
            Column::RotationId,
            Column::TenantId,
            Column::CredentialId,
            Column::OldKeyId,
            Column::NewKeyId,
            Column::RotatedCredentials,
            Column::StartedAtMs,
            Column::CompletedAtMs,
            Column::RotatedAt,
            Column::RotatedBy,
        ]
    }

    fn columns() -> (r: Vec<Column>)
        ensures
            r@ == Self::spec_columns(),
    {
        vec![
            Column::RotationId,
            Column::TenantId,
            Column::CredentialId,
            Column::OldKeyId,
            Column::NewKeyId,
            Column::RotatedCredentials,
            Column::StartedAtMs,
            Column::CompletedAtMs,
            Column::RotatedAt,
            Column::RotatedBy,
        ]
    }

    /// Whether this is what a stored row holds in those columns.
    pub open spec fn is_of(self, row: crate::model::Row) -> bool {
        &&& crate::model::value(row, Column::RotationId) == Datum::Text(self.rotation_id@)
        &&& crate::model::value(row, Column::TenantId) == Datum::Text(self.tenant_id@)
        &&& crate::model::value(row, Column::CredentialId) == Datum::Text(self.credential_id@)
        &&& crate::model::value(row, Column::OldKeyId) == Datum::Text(self.old_key_id@)
        &&& crate::model::value(row, Column::NewKeyId) == Datum::Text(self.new_key_id@)
        &&& crate::model::value(row, Column::RotatedCredentials) == Datum::Int(
            self.rotated_credentials as int,
        )
        &&& crate::model::value(row, Column::StartedAtMs) == Datum::Int(self.started_at_ms as int)
        &&& crate::model::value(row, Column::CompletedAtMs) == Datum::opt_int8(self.completed_at_ms)
        &&& crate::model::value(row, Column::RotatedAt) == Datum::Int(self.rotated_at as int)
        &&& crate::model::value(row, Column::RotatedBy) == Datum::opt_text(self.rotated_by)
    }

    /// The query of [`CredentialRotationRow::list_rotations`].
    pub open spec fn spec_list_rotations(tenant_id: Seq<char>) -> QueryView {
        QueryView::on(Table::CredentialRotations, OutputView::Rows(Self::spec_columns()))
            .equals(Column::TenantId, ValueView::Text(tenant_id))
            .ascending(Column::RotatedAt)
            .ascending(Column::RotationId)
    }

    /// The rotations of a tenant, the oldest first.
    pub fn list_rotations(tenant_id: &str) -> (r: Query)
        ensures
            r@ == Self::spec_list_rotations(tenant_id@),
    {
        Query::on(Table::CredentialRotations, Output::Rows(Self::columns()))
            .equals(Column::TenantId, text(tenant_id))
            .ascending(Column::RotatedAt)
            .ascending(Column::RotationId)
    }
}

impl StoredRow for CredentialRotationRow {
    type Record = CredentialRotationRecord;

    open spec fn fault(&self, names: &DomainNames) -> Option<ErrorView> {
        None
    }

    open spec fn holds(&self, names: &DomainNames, record: &CredentialRotationRecord) -> bool {
        &&& record.rotation_id == self.rotation_id
        &&& record.tenant_id == self.tenant_id
        &&& record.credential_id == self.credential_id
        &&& record.rotated_at == crate::read::floor8(self.rotated_at)
        &&& record.rotated_by == self.rotated_by
        &&& record.old_key_id == self.old_key_id
        &&& record.new_key_id == self.new_key_id
        &&& record.rotated_credentials == crate::read::floor4(self.rotated_credentials)
        &&& record.started_at_ms == crate::read::floor8(self.started_at_ms)
        &&& record.completed_at_ms == crate::read::opt_floor8(self.completed_at_ms)
    }

    fn into_record(self, names: &DomainNames) -> (r: Result<CredentialRotationRecord, StoreError>) {
        Ok(
            CredentialRotationRecord {
                rotation_id: self.rotation_id,
                tenant_id: self.tenant_id,
                credential_id: self.credential_id,
                rotated_at: to_floor8(self.rotated_at),
                rotated_by: self.rotated_by,
                old_key_id: self.old_key_id,
                new_key_id: self.new_key_id,
                rotated_credentials: to_floor4(self.rotated_credentials),
                started_at_ms: to_floor8(self.started_at_ms),
                completed_at_ms: to_opt_floor8(self.completed_at_ms),
            },
        )
    }
}

/// A row of `tenant_quotas`, with the tenant that it was found by and the tenant's counts of
/// open runs and of sessions.
#[derive(Debug, PartialEq, Eq)]
pub struct TenantQuotaRow {
    pub max_concurrent_runs: i32,
    pub max_sessions_per_hour: i32,
    pub max_tasks_per_run: i32,
    pub tenant_id: String,
    pub active_runs: i64,
    pub sessions: i64,
}

/// What a tenant may use, and what it uses.
#[derive(Debug, PartialEq, Eq)]
pub struct TenantQuota {
    pub tenant_id: String,
    pub max_concurrent_runs: u32,
    pub max_sessions_per_hour: u32,
    pub max_tasks_per_run: u32,
    pub current_active_runs: u32,
    pub sessions_this_hour: u32,
}

impl TenantQuotaRow {
    /// The row as it was found, with the tenant that it was found by and the
    /// tenant's counts.
    pub fn of_tenant(self, tenant_id: &str, active_runs: i64, sessions: i64) -> (r: TenantQuotaRow)
        ensures
            r == (TenantQuotaRow { tenant_id: r.tenant_id, active_runs, sessions, ..self }),
            r.tenant_id@ == tenant_id@,
    {
        TenantQuotaRow { tenant_id: tenant_id.to_owned(), active_runs, sessions, ..self }
    }

    /// The columns that the row is read from.
    pub open spec fn spec_columns() -> Seq<Column> {
        seq![
            Column::MaxConcurrentRuns,
            Column::MaxSessionsPerHour,
            Column::MaxTasksPerRun,
        ]
    }

    fn columns() -> (r: Vec<Column>)
        ensures
            r@ == Self::spec_columns(),
    {
        vec![
            Column::MaxConcurrentRuns,
            Column::MaxSessionsPerHour,
            Column::MaxTasksPerRun,
        ]
    }

    /// Whether this is what a stored row holds in those columns.
    pub open spec fn is_of(self, row: crate::model::Row) -> bool {
        &&& crate::model::value(row, Column::MaxConcurrentRuns) == Datum::Int(
            self.max_concurrent_runs as int,
        )
        &&& crate::model::value(row, Column::MaxSessionsPerHour) == Datum::Int(
            self.max_sessions_per_hour as int,
        )
        &&& crate::model::value(row, Column::MaxTasksPerRun) == Datum::Int(
            self.max_tasks_per_run as int,
        )
    }

    /// The query of [`TenantQuotaRow::get_quota`].
    pub open spec fn spec_get_quota(tenant_id: Seq<char>) -> QueryView {
        QueryView::on(Table::TenantQuotas, OutputView::Rows(Self::spec_columns()))
            .equals(Column::TenantId, ValueView::Text(tenant_id))
    }

    /// Finds the quota of a tenant.
    pub fn get_quota(tenant_id: &str) -> (r: Query)
        ensures
            r@ == Self::spec_get_quota(tenant_id@),
    {
        Query::on(Table::TenantQuotas, Output::Rows(Self::columns()))
            .equals(Column::TenantId, text(tenant_id))
    }

    /// The query of [`TenantQuotaRow::active_runs`].
    pub open spec fn spec_active_runs(tenant_id: Seq<char>) -> QueryView {
        QueryView::on(Table::Runs, OutputView::Count)
            .equals(Column::TenantId, ValueView::Text(tenant_id))
            .test(TestView::NoneOf(Column::State, crate::read::closed_states()))
    }

    /// How many runs of a tenant did not end.
    pub fn active_runs(tenant_id: &str) -> (r: Query)
        ensures
            r@ == Self::spec_active_runs(tenant_id@),
    {
        Query::on(Table::Runs, Output::Count)
            .equals(Column::TenantId, text(tenant_id))
            .test(Test::NoneOf(Column::State, closed_states_list()))
    }

    /// The query of [`TenantQuotaRow::sessions`].
    pub open spec fn spec_sessions(tenant_id: Seq<char>) -> QueryView {
        QueryView::on(Table::Sessions, OutputView::Count)
            .equals(Column::TenantId, ValueView::Text(tenant_id))
    }

    /// How many sessions a tenant has.
    pub fn sessions(tenant_id: &str) -> (r: Query)
        ensures
            r@ == Self::spec_sessions(tenant_id@),
    {
        Query::on(Table::Sessions, Output::Count)
            .equals(Column::TenantId, text(tenant_id))
    }
}

impl StoredRow for TenantQuotaRow {
    type Record = TenantQuota;

    open spec fn fault(&self, names: &DomainNames) -> Option<ErrorView> {
        None
    }

    open spec fn holds(&self, names: &DomainNames, record: &TenantQuota) -> bool {
        &&& record.tenant_id == self.tenant_id
        &&& record.max_concurrent_runs == crate::read::floor4(self.max_concurrent_runs)
        &&& record.max_sessions_per_hour == crate::read::floor4(self.max_sessions_per_hour)
        &&& record.max_tasks_per_run == crate::read::floor4(self.max_tasks_per_run)
        &&& record.current_active_runs == crate::read::low4(self.active_runs)
        &&& record.sessions_this_hour == crate::read::low4(self.sessions)
    }

    fn into_record(self, names: &DomainNames) -> (r: Result<TenantQuota, StoreError>) {
        Ok(
            TenantQuota {
                tenant_id: self.tenant_id,
                max_concurrent_runs: to_floor4(self.max_concurrent_runs),
                max_sessions_per_hour: to_floor4(self.max_sessions_per_hour),
                max_tasks_per_run: to_floor4(self.max_tasks_per_run),
                current_active_runs: to_low4(self.active_runs),
                sessions_this_hour: to_low4(self.sessions),
            },
        )
    }
}

/// A row of `tenant_quota_violations`.
#[derive(Debug, PartialEq, Eq)]
pub struct QuotaViolationRow {
    pub tenant_id: String,
    pub quota_type: String,
    pub occurred_at_ms: i64,
    pub current_value: i32,
    pub limit_value: i32,
}

/// A quota that was exceeded.
#[derive(Debug, PartialEq, Eq)]
pub struct QuotaViolationRecord {
    pub tenant_id: String,
    pub quota_type: String,
    pub current: u32,
    pub limit: u32,
    pub occurred_at_ms: u64,
}

impl QuotaViolationRow {
    /// The columns that the row is read from.
    pub open spec fn spec_columns() -> Seq<Column> {
        seq![
            Column::TenantId,
            Column::QuotaType,
            Column::OccurredAtMs,
            Column::CurrentValue,
            Column::LimitValue,
        ]
    }

    fn columns() -> (r: Vec<Column>)
        ensures
            r@ == Self::spec_columns(),
    {
        vec![
            Column::TenantId,
            Column::QuotaType,
            Column::OccurredAtMs,
            Column::CurrentValue,
            Column::LimitValue,
        ]
    }

    /// Whether this is what a stored row holds in those columns.
    pub open spec fn is_of(self, row: crate::model::Row) -> bool {
        &&& crate::model::value(row, Column::TenantId) == Datum::Text(self.tenant_id@)
        &&& crate::model::value(row, Column::QuotaType) == Datum::Text(self.quota_type@)
        &&& crate::model::value(row, Column::OccurredAtMs) == Datum::Int(self.occurred_at_ms as int)
        &&& crate::model::value(row, Column::CurrentValue) == Datum::Int(self.current_value as int)
        &&& crate::model::value(row, Column::LimitValue) == Datum::Int(self.limit_value as int)
    }

    /// The query of [`QuotaViolationRow::list_violations`].
    pub open spec fn spec_list_violations(tenant_id: Seq<char>, limit: usize) -> QueryView {
        QueryView::on(
            Table::TenantQuotaViolations,
            OutputView::Rows(Self::spec_columns()),
        )
            .equals(Column::TenantId, ValueView::Text(tenant_id))
            .descending(Column::OccurredAtMs)
            .ascending(Column::QuotaType)
            .limit(limit as i64)
    }

    /// The exceeded quotas of a tenant, the newest first.
    pub fn list_violations(tenant_id: &str, limit: usize) -> (r: Query)
        ensures
            r@ == Self::spec_list_violations(tenant_id@, limit),
    {
        Query::on(Table::TenantQuotaViolations, Output::Rows(Self::columns()))
            .equals(Column::TenantId, text(tenant_id))
            .descending(Column::OccurredAtMs)
            .ascending(Column::QuotaType)
            .limit(limit as i64)
    }
}

impl StoredRow for QuotaViolationRow {
    type Record = QuotaViolationRecord;

    open spec fn fault(&self, names: &DomainNames) -> Option<ErrorView> {
        None
    }

    open spec fn holds(&self, names: &DomainNames, record: &QuotaViolationRecord) -> bool {
        &&& record.tenant_id == self.tenant_id
        &&& record.quota_type == self.quota_type
        &&& record.current == crate::read::floor4(self.current_value)
        &&& record.limit == crate::read::floor4(self.limit_value)
        &&& record.occurred_at_ms == crate::read::floor8(self.occurred_at_ms)
    }

    fn into_record(self, names: &DomainNames) -> (r: Result<QuotaViolationRecord, StoreError>) {
        Ok(
            QuotaViolationRecord {
                tenant_id: self.tenant_id,
                quota_type: self.quota_type,
                current: to_floor4(self.current_value),
                limit: to_floor4(self.limit_value),
                occurred_at_ms: to_floor8(self.occurred_at_ms),
            },
        )
    }
}

/// A row of `licenses`.
#[derive(Debug, PartialEq, Eq)]
pub struct LicenseRow {
    pub tenant_id: String,
    pub license_key: Option<String>,
    pub tier: String,
    pub entitlements: Decoded,
    pub issued_at: i64,
    pub expires_at: Option<i64>,
}

/// The license of a tenant. The entitlements are a JSON text.
#[derive(Debug, PartialEq, Eq)]
pub struct LicenseRecord {
    pub tenant_id: String,
    pub tier: ProductTier,
    pub entitlements: String,
    pub issued_at: u64,
    pub expires_at: Option<u64>,
    pub license_key: Option<String>,
}

impl LicenseRow {
    /// The columns that the row is read from.
    pub open spec fn spec_columns() -> Seq<Column> {
        seq![
            Column::TenantId,
            Column::LicenseKey,
            Column::Tier,
            Column::EntitlementsJson,
            Column::IssuedAt,
            Column::ExpiresAt,
        ]
    }

    fn columns() -> (r: Vec<Column>)
        ensures
            r@ == Self::spec_columns(),
    {
        vec![
            Column::TenantId,
            Column::LicenseKey,
            Column::Tier,
            Column::EntitlementsJson,
            Column::IssuedAt,
            Column::ExpiresAt,
        ]
    }

    /// Whether this is what a stored row holds in those columns.
    pub open spec fn is_of(self, row: crate::model::Row) -> bool {
        &&& crate::model::value(row, Column::TenantId) == Datum::Text(self.tenant_id@)
        &&& crate::model::value(row, Column::LicenseKey) == Datum::opt_text(self.license_key)
        &&& crate::model::value(row, Column::Tier) == Datum::Text(self.tier@)
        &&& crate::model::value(row, Column::EntitlementsJson) == Datum::Text(
            self.entitlements.text@,
        )
        &&& crate::model::value(row, Column::IssuedAt) == Datum::Int(self.issued_at as int)
        &&& crate::model::value(row, Column::ExpiresAt) == Datum::opt_int8(self.expires_at)
    }

    /// The query of [`LicenseRow::get_active`].
    pub open spec fn spec_get_active(tenant_id: Seq<char>) -> QueryView {
        QueryView::on(Table::Licenses, OutputView::Rows(Self::spec_columns()))
            .equals(Column::TenantId, ValueView::Text(tenant_id))
    }

    /// Finds the license of a tenant.
    pub fn get_active(tenant_id: &str) -> (r: Query)
        ensures
            r@ == Self::spec_get_active(tenant_id@),
    {
        Query::on(Table::Licenses, Output::Rows(Self::columns()))
            .equals(Column::TenantId, text(tenant_id))
    }
}

impl StoredRow for LicenseRow {
    type Record = LicenseRecord;

    open spec fn fault(&self, names: &DomainNames) -> Option<ErrorView> {
        if ProductTier::spec_parse(self.tier@) is None {
            Some(
                ErrorView::Internal(
                    "licenses.tier: unknown value "@ + crate::json::quoted(self.tier@),
                ),
            )
        } else if self.entitlements.fault is Some {
            Some(
                ErrorView::Internal(
                    "licenses.entitlements_json parse error: "@ + self.entitlements.fault->Some_0@,
                ),
            )
        } else {
            None
        }
    }

    open spec fn holds(&self, names: &DomainNames, record: &LicenseRecord) -> bool {
        &&& record.tenant_id == self.tenant_id
        &&& ProductTier::spec_parse(self.tier@) == Some(record.tier)
        &&& record.entitlements == self.entitlements.text
        &&& record.issued_at == crate::read::floor8(self.issued_at)
        &&& record.expires_at == crate::read::opt_floor8(self.expires_at)
        &&& record.license_key == self.license_key
    }

    fn into_record(self, names: &DomainNames) -> (r: Result<LicenseRecord, StoreError>) {
        let tier = match ProductTier::parse(&self.tier) {
            Some(v) => v,
            None => {
                let mut message: String = "licenses.tier: unknown value ".to_owned();
                message.append(&quote(&self.tier));
                return Err(StoreError::Internal(message));
            },
        };
        if let Some(m) = &self.entitlements.fault {
            let mut message: String = "licenses.entitlements_json parse error: ".to_owned();
            message.append(m);
            return Err(StoreError::Internal(message));
        }
        Ok(
            LicenseRecord {
                tenant_id: self.tenant_id,
                tier,
                entitlements: self.entitlements.text,
                issued_at: to_floor8(self.issued_at),
                expires_at: to_opt_floor8(self.expires_at),
                license_key: self.license_key,
            },
        )
    }
}

/// What an override speaks of. The stored overrides name a feature instead.
#[derive(Clone, Copy, Debug, PartialEq, Eq, Structural)]
pub enum Entitlement {
    AdvancedAdmin,
}

/// A row of `entitlement_overrides`.
#[derive(Debug, PartialEq, Eq)]
pub struct EntitlementOverrideRow {
    pub tenant_id: String,
    pub feature: String,
    pub allowed: bool,
    pub reason: Option<String>,
    pub set_at_ms: i64,
}

/// A feature that is allowed or denied to a tenant, whatever its license says.
#[derive(Debug, PartialEq, Eq)]
pub struct EntitlementOverrideRecord {
    pub override_id: String,
    pub tenant_id: String,
    pub entitlement: Entitlement,
    pub granted: bool,
    pub reason: Option<String>,
    pub applied_at: u64,
    pub feature: String,
    pub allowed: bool,
    pub set_at_ms: u64,
}

impl EntitlementOverrideRow {
    /// The columns that the row is read from.
    pub open spec fn spec_columns() -> Seq<Column> {
        seq![
            Column::TenantId,
            Column::Feature,
            Column::Allowed,
            Column::Reason,
            Column::SetAtMs,
        ]
    }

    fn columns() -> (r: Vec<Column>)
        ensures
            r@ == Self::spec_columns(),
    {
        vec![
            Column::TenantId,
            Column::Feature,
            Column::Allowed,
            Column::Reason,
            Column::SetAtMs,
        ]
    }

    /// Whether this is what a stored row holds in those columns.
    pub open spec fn is_of(self, row: crate::model::Row) -> bool {
        &&& crate::model::value(row, Column::TenantId) == Datum::Text(self.tenant_id@)
        &&& crate::model::value(row, Column::Feature) == Datum::Text(self.feature@)
        &&& crate::model::value(row, Column::Allowed) == Datum::Bool(self.allowed)
        &&& crate::model::value(row, Column::Reason) == Datum::opt_text(self.reason)
        &&& crate::model::value(row, Column::SetAtMs) == Datum::Int(self.set_at_ms as int)
    }

    /// The query of [`EntitlementOverrideRow::list_overrides`].
    pub open spec fn spec_list_overrides(tenant_id: Seq<char>) -> QueryView {
        QueryView::on(Table::EntitlementOverrides, OutputView::Rows(Self::spec_columns()))
            .equals(Column::TenantId, ValueView::Text(tenant_id))
            .ascending(Column::Feature)
    }

    /// The overrides of a tenant, by feature.
    pub fn list_overrides(tenant_id: &str) -> (r: Query)
        ensures
            r@ == Self::spec_list_overrides(tenant_id@),
    {
        Query::on(Table::EntitlementOverrides, Output::Rows(Self::columns()))
            .equals(Column::TenantId, text(tenant_id))
            .ascending(Column::Feature)
    }
}

impl StoredRow for EntitlementOverrideRow {
    type Record = EntitlementOverrideRecord;

    open spec fn fault(&self, names: &DomainNames) -> Option<ErrorView> {
        None
    }

    open spec fn holds(&self, names: &DomainNames, record: &EntitlementOverrideRecord) -> bool {
        &&& record.override_id@ == "override_"@ + self.tenant_id@ + "_"@ + self.feature@
        &&& record.tenant_id == self.tenant_id
        &&& record.entitlement == Entitlement::AdvancedAdmin
        &&& record.granted == self.allowed
        &&& record.reason == self.reason
        &&& record.applied_at == crate::read::floor8(self.set_at_ms)
        &&& record.feature == self.feature
        &&& record.allowed == self.allowed
        &&& record.set_at_ms == crate::read::floor8(self.set_at_ms)
    }

    fn into_record(self, names: &DomainNames) -> (r: Result<
        EntitlementOverrideRecord,
        StoreError,
    >) {
        let mut override_id: String = "override_".to_owned();
        override_id.append(&self.tenant_id);
        override_id.append("_");
        override_id.append(&self.feature);
        Ok(
            EntitlementOverrideRecord {
                override_id,
                tenant_id: self.tenant_id,
                entitlement: Entitlement::AdvancedAdmin,
                granted: self.allowed,
                reason: self.reason,
                applied_at: to_floor8(self.set_at_ms),
                feature: self.feature,
                allowed: self.allowed,
                set_at_ms: to_floor8(self.set_at_ms),
            },
        )
    }
}

/// A row of `retention_policies`.
#[derive(Debug, PartialEq, Eq)]
pub struct RetentionPolicyRow {
    pub tenant_id: String,
    pub policy_id: String,
    pub full_history_days: i32,
    pub current_state_days: i32,
    pub max_events_per_entity: Option<i64>,
}

/// How long a tenant's data are kept. No cap on the events of an entity is zero.
#[derive(Debug, PartialEq, Eq)]
pub struct RetentionPolicy {
    pub policy_id: String,
    pub tenant_id: String,
    pub full_history_days: u32,
    pub current_state_days: u32,
    pub max_events_per_entity: u32,
}

impl RetentionPolicyRow {
    /// The columns that the row is read from.
    pub open spec fn spec_columns() -> Seq<Column> {
        seq![
            Column::TenantId,
            Column::PolicyId,
            Column::FullHistoryDays,
            Column::CurrentStateDays,
            Column::MaxEventsPerEntity,
        ]
    }

    fn columns() -> (r: Vec<Column>)
        ensures
            r@ == Self::spec_columns(),
    {
        vec![
            Column::TenantId,
            Column::PolicyId,
            Column::FullHistoryDays,
            Column::CurrentStateDays,
            Column::MaxEventsPerEntity,
        ]
    }

    /// Whether this is what a stored row holds in those columns.
    pub open spec fn is_of(self, row: crate::model::Row) -> bool {
        &&& crate::model::value(row, Column::TenantId) == Datum::Text(self.tenant_id@)
        &&& crate::model::value(row, Column::PolicyId) == Datum::Text(self.policy_id@)
        &&& crate::model::value(row, Column::FullHistoryDays) == Datum::Int(
            self.full_history_days as int,
        )
        &&& crate::model::value(row, Column::CurrentStateDays) == Datum::Int(
            self.current_state_days as int,
        )
        &&& crate::model::value(row, Column::MaxEventsPerEntity) == Datum::opt_int8(
            self.max_events_per_entity,
        )
    }

    /// The query of [`RetentionPolicyRow::get_by_tenant`].
    pub open spec fn spec_get_by_tenant(tenant_id: Seq<char>) -> QueryView {
        QueryView::on(Table::RetentionPolicies, OutputView::Rows(Self::spec_columns()))
            .equals(Column::TenantId, ValueView::Text(tenant_id))
    }

    /// Finds the policy of a tenant.
    pub fn get_by_tenant(tenant_id: &str) -> (r: Query)
        ensures
            r@ == Self::spec_get_by_tenant(tenant_id@),
    {
        Query::on(Table::RetentionPolicies, Output::Rows(Self::columns()))
            .equals(Column::TenantId, text(tenant_id))
    }
}

impl StoredRow for RetentionPolicyRow {
    type Record = RetentionPolicy;

    open spec fn fault(&self, names: &DomainNames) -> Option<ErrorView> {
        None
    }

    open spec fn holds(&self, names: &DomainNames, record: &RetentionPolicy) -> bool {
        &&& record.policy_id == self.policy_id
        &&& record.tenant_id == self.tenant_id
        &&& record.full_history_days == crate::read::floor4(self.full_history_days)
        &&& record.current_state_days == crate::read::floor4(self.current_state_days)
        &&& record.max_events_per_entity == match self.max_events_per_entity {
            Some(v) => crate::read::clamp4(v),
            None => 0,
        }
    }

    fn into_record(self, names: &DomainNames) -> (r: Result<RetentionPolicy, StoreError>) {
        let max_events_per_entity: u32 = match self.max_events_per_entity {
            Some(v) => to_clamp4(v),
            None => 0,
        };
        Ok(
            RetentionPolicy {
                policy_id: self.policy_id,
                tenant_id: self.tenant_id,
                full_history_days: to_floor4(self.full_history_days),
                current_state_days: to_floor4(self.current_state_days),
                max_events_per_entity,
            },
        )
    }
}

/// The name that a scope is stored under.
pub fn defaults_scope_str(scope: Scope) -> (r: &'static str)
    ensures
        r@ == scope.spec_name(),
{
    scope.name()
}

/// The error for a stored scope that is not known.
pub open spec fn unknown_scope(raw: Seq<char>) -> ErrorView {
    ErrorView::Internal(
        "default_settings.scope = "@ + crate::json::quoted(raw) + " is not a known Scope"@,
    )
}

/// The scope that is stored under a name.
pub fn rehydrate_defaults_scope(raw: &str) -> (r: Result<Scope, StoreError>)
    ensures
        match r {
            Ok(scope) => Scope::spec_parse(raw@) == Some(scope),
            Err(e) => Scope::spec_parse(raw@) is None && e@ == unknown_scope(raw@),
        },
{
    match Scope::parse(raw) {
        Some(scope) => Ok(scope),
        None => {
            let mut message: String = "default_settings.scope = ".to_owned();
            message.append(&quote(raw));
            message.append(" is not a known Scope");
            Err(StoreError::Internal(message))
        },
    }
}

/// A row of `default_settings`.
#[derive(Debug, PartialEq, Eq)]
pub struct DefaultSettingRow {
    pub scope: String,
    pub key: String,
    pub value_json: String,
}

/// A setting. The value is a JSON text.
#[derive(Debug, PartialEq, Eq)]
pub struct DefaultSetting {
    pub key: String,
    pub value: String,
    pub scope: Scope,
}

impl DefaultSettingRow {
    /// The columns that the row is read from.
    pub open spec fn spec_columns() -> Seq<Column> {
        seq![
            Column::Scope,
            Column::Key,
            Column::ValueJson,
        ]
    }

    fn columns() -> (r: Vec<Column>)
        ensures
            r@ == Self::spec_columns(),
    {
        vec![
            Column::Scope,
            Column::Key,
            Column::ValueJson,
        ]
    }

    /// Whether this is what a stored row holds in those columns.
    pub open spec fn is_of(self, row: crate::model::Row) -> bool {
        &&& crate::model::value(row, Column::Scope) == Datum::Text(self.scope@)
        &&& crate::model::value(row, Column::Key) == Datum::Text(self.key@)
        &&& crate::model::value(row, Column::ValueJson) == Datum::Text(self.value_json@)
    }

    /// The query of [`DefaultSettingRow::get`].
    pub open spec fn spec_get(scope: Scope, scope_id: Seq<char>, key: Seq<char>) -> QueryView {
        QueryView::on(Table::DefaultSettings, OutputView::Rows(Self::spec_columns()))
            .equals(Column::Scope, ValueView::Text(scope.spec_name()))
            .equals(Column::ScopeId, ValueView::Text(scope_id))
            .equals(Column::Key, ValueView::Text(key))
    }

    /// Finds a setting.
    pub fn get(scope: Scope, scope_id: &str, key: &str) -> (r: Query)
        ensures
            r@ == Self::spec_get(scope, scope_id@, key@),
    {
        Query::on(Table::DefaultSettings, Output::Rows(Self::columns()))
            .equals(Column::Scope, text(scope.name()))
            .equals(Column::ScopeId, text(scope_id))
            .equals(Column::Key, text(key))
    }

    /// The query of [`DefaultSettingRow::list_by_scope`].
    pub open spec fn spec_list_by_scope(scope: Scope, scope_id: Seq<char>) -> QueryView {
        QueryView::on(Table::DefaultSettings, OutputView::Rows(Self::spec_columns()))
            .equals(Column::Scope, ValueView::Text(scope.spec_name()))
            .equals(Column::ScopeId, ValueView::Text(scope_id))
            .ascending(Column::Key)
    }

    /// The settings of a scope, by key.
    pub fn list_by_scope(scope: Scope, scope_id: &str) -> (r: Query)
        ensures
            r@ == Self::spec_list_by_scope(scope, scope_id@),
    {
        Query::on(Table::DefaultSettings, Output::Rows(Self::columns()))
            .equals(Column::Scope, text(scope.name()))
            .equals(Column::ScopeId, text(scope_id))
            .ascending(Column::Key)
    }
}

impl StoredRow for DefaultSettingRow {
    type Record = DefaultSetting;

    open spec fn fault(&self, names: &DomainNames) -> Option<ErrorView> {
        if crate::json::json_refusal(self.value_json@) is Some {
            Some(ErrorView::Serialization(crate::json::json_refusal(self.value_json@)->Some_0))
        } else if Scope::spec_parse(self.scope@) is None {
            Some(unknown_scope(self.scope@))
        } else {
            None
        }
    }

    open spec fn holds(&self, names: &DomainNames, record: &DefaultSetting) -> bool {
        &&& record.key == self.key
        &&& record.value == self.value_json
        &&& Scope::spec_parse(self.scope@) == Some(record.scope)
    }

    fn into_record(self, names: &DomainNames) -> (r: Result<DefaultSetting, StoreError>) {
        if let Some(m) = refusal(&self.value_json) {
            return Err(StoreError::Serialization(m));
        }
        let scope = match rehydrate_defaults_scope(&self.scope) {
            Ok(v) => v,
            Err(e) => return Err(e),
        };
        Ok(
            DefaultSetting {
                key: self.key,
                value: self.value_json,
                scope,
            },
        )
    }
}

/// A row of `operator_profiles`.
#[derive(Debug, PartialEq, Eq)]
pub struct OperatorProfileRow {
    pub operator_id: String,
    pub tenant_id: String,
    pub display_name: String,
    pub email: String,
    pub role: String,
    pub created_at_ms: i64,
}

/// An operator.
#[derive(Debug, PartialEq, Eq)]
pub struct OperatorProfileRecord {
    pub operator_id: String,
    pub tenant_id: String,
    pub display_name: String,
    pub email: Option<String>,
    pub role: String,
    pub created_at: u64,
}

impl OperatorProfileRow {
    /// The columns that the row is read from.
    pub open spec fn spec_columns() -> Seq<Column> {
        seq![
            Column::OperatorId,
            Column::TenantId,
            Column::DisplayName,
            Column::Email,
            Column::Role,
            Column::CreatedAtMs,
        ]
    }

    fn columns() -> (r: Vec<Column>)
        ensures
            r@ == Self::spec_columns(),
    {
        vec![
            Column::OperatorId,
            Column::TenantId,
            Column::DisplayName,
            Column::Email,
            Column::Role,
            Column::CreatedAtMs,
        ]
    }

    /// Whether this is what a stored row holds in those columns.
    pub open spec fn is_of(self, row: crate::model::Row) -> bool {
        &&& crate::model::value(row, Column::OperatorId) == Datum::Text(self.operator_id@)
        &&& crate::model::value(row, Column::TenantId) == Datum::Text(self.tenant_id@)
        &&& crate::model::value(row, Column::DisplayName) == Datum::Text(self.display_name@)
        &&& crate::model::value(row, Column::Email) == Datum::Text(self.email@)
        &&& crate::model::value(row, Column::Role) == Datum::Text(self.role@)
        &&& crate::model::value(row, Column::CreatedAtMs) == Datum::Int(self.created_at_ms as int)
    }

    /// The query of [`OperatorProfileRow::get`].
    pub open spec fn spec_get(operator_id: Seq<char>) -> QueryView {
        QueryView::on(Table::OperatorProfiles, OutputView::Rows(Self::spec_columns()))
            .equals(Column::OperatorId, ValueView::Text(operator_id))
    }

    /// Finds an operator.
    pub fn get(operator_id: &str) -> (r: Query)
        ensures
            r@ == Self::spec_get(operator_id@),
    {
        Query::on(Table::OperatorProfiles, Output::Rows(Self::columns()))
            .equals(Column::OperatorId, text(operator_id))
    }

    /// The query of [`OperatorProfileRow::list_by_tenant`].
    pub open spec fn spec_list_by_tenant(
        tenant_id: Seq<char>,
        limit: usize,
        offset: usize,
    ) -> QueryView {
        QueryView::on(Table::OperatorProfiles, OutputView::Rows(Self::spec_columns()))
            .equals(Column::TenantId, ValueView::Text(tenant_id))
            .ascending(Column::OperatorId)
            .limit(limit as i64)
            .offset(offset as i64)
    }

    /// The operators of a tenant, by id.
    pub fn list_by_tenant(tenant_id: &str, limit: usize, offset: usize) -> (r: Query)
        ensures
            r@ == Self::spec_list_by_tenant(tenant_id@, limit, offset),
    {
        Query::on(Table::OperatorProfiles, Output::Rows(Self::columns()))
            .equals(Column::TenantId, text(tenant_id))
            .ascending(Column::OperatorId)
            .limit(limit as i64)
            .offset(offset as i64)
    }
}

impl StoredRow for OperatorProfileRow {
    type Record = OperatorProfileRecord;

    open spec fn fault(&self, names: &DomainNames) -> Option<ErrorView> {
        None
    }

    open spec fn holds(&self, names: &DomainNames, record: &OperatorProfileRecord) -> bool {
        &&& record.operator_id == self.operator_id
        &&& record.tenant_id == self.tenant_id
        &&& record.display_name == self.display_name
        &&& record.email == Some(self.email)
        &&& record.role == self.role
        &&& record.created_at == crate::read::floor8(self.created_at_ms)
    }

    fn into_record(self, names: &DomainNames) -> (r: Result<OperatorProfileRecord, StoreError>) {
        Ok(
            OperatorProfileRecord {
                operator_id: self.operator_id,
                tenant_id: self.tenant_id,
                display_name: self.display_name,
                email: Some(self.email),
                role: self.role,
                created_at: to_floor8(self.created_at_ms),
            },
        )
    }
}

/// A row of `operator_tenant_roles`.
#[derive(Debug, PartialEq, Eq)]
pub struct OperatorTenantRoleRow {
    pub tenant_id: String,
    pub operator_id: String,
    pub role: String,
    pub granted_at_ms: i64,
    pub granted_by: String,
    pub revoked_at_ms: Option<i64>,
    pub revoked_by: Option<String>,
}

/// The role of an operator in a tenant.
#[derive(Debug, PartialEq, Eq)]
pub struct OperatorTenantRoleRecord {
    pub tenant_id: String,
    pub operator_id: String,
    pub role: String,
    pub granted_at_ms: u64,
    pub granted_by: String,
    pub revoked_at_ms: Option<u64>,
    pub revoked_by: Option<String>,
}

impl OperatorTenantRoleRow {
    /// The columns that the row is read from.
    pub open spec fn spec_columns() -> Seq<Column> {
        seq![
            Column::TenantId,
            Column::OperatorId,
            Column::Role,
            Column::GrantedAtMs,
            Column::GrantedBy,
            Column::RevokedAtMs,
            Column::RevokedBy,
        ]
    }

    fn columns() -> (r: Vec<Column>)
        ensures
            r@ == Self::spec_columns(),
    {
        vec![
            Column::TenantId,
            Column::OperatorId,
            Column::Role,
            Column::GrantedAtMs,
            Column::GrantedBy,
            Column::RevokedAtMs,
            Column::RevokedBy,
        ]
    }

    /// Whether this is what a stored row holds in those columns.
    pub open spec fn is_of(self, row: crate::model::Row) -> bool {
        &&& crate::model::value(row, Column::TenantId) == Datum::Text(self.tenant_id@)
        &&& crate::model::value(row, Column::OperatorId) == Datum::Text(self.operator_id@)
        &&& crate::model::value(row, Column::Role) == Datum::Text(self.role@)
        &&& crate::model::value(row, Column::GrantedAtMs) == Datum::Int(self.granted_at_ms as int)
        &&& crate::model::value(row, Column::GrantedBy) == Datum::Text(self.granted_by@)
        &&& crate::model::value(row, Column::RevokedAtMs) == Datum::opt_int8(self.revoked_at_ms)
        &&& crate::model::value(row, Column::RevokedBy) == Datum::opt_text(self.revoked_by)
    }

    /// The query of [`OperatorTenantRoleRow::get`].
    pub open spec fn spec_get(tenant_id: Seq<char>, operator_id: Seq<char>) -> QueryView {
        QueryView::on(Table::OperatorTenantRoles, OutputView::Rows(Self::spec_columns()))
            .equals(Column::TenantId, ValueView::Text(tenant_id))
            .equals(Column::OperatorId, ValueView::Text(operator_id))
    }

    /// Finds the role of an operator in a tenant.
    pub fn get(tenant_id: &str, operator_id: &str) -> (r: Query)
        ensures
            r@ == Self::spec_get(tenant_id@, operator_id@),
    {
        Query::on(Table::OperatorTenantRoles, Output::Rows(Self::columns()))
            .equals(Column::TenantId, text(tenant_id))
            .equals(Column::OperatorId, text(operator_id))
    }

    /// The query of [`OperatorTenantRoleRow::list_by_operator`].
    pub open spec fn spec_list_by_operator(operator_id: Seq<char>) -> QueryView {
        QueryView::on(Table::OperatorTenantRoles, OutputView::Rows(Self::spec_columns()))
            .equals(Column::OperatorId, ValueView::Text(operator_id))
            .ascending(Column::TenantId)
    }

    /// The roles of an operator, by tenant.
    pub fn list_by_operator(operator_id: &str) -> (r: Query)
        ensures
            r@ == Self::spec_list_by_operator(operator_id@),
    {
        Query::on(Table::OperatorTenantRoles, Output::Rows(Self::columns()))
            .equals(Column::OperatorId, text(operator_id))
            .ascending(Column::TenantId)
    }

    /// The query of [`OperatorTenantRoleRow::list_by_tenant`].
    pub open spec fn spec_list_by_tenant(
        tenant_id: Seq<char>,
        limit: usize,
        offset: usize,
    ) -> QueryView {
        QueryView::on(Table::OperatorTenantRoles, OutputView::Rows(Self::spec_columns()))
            .equals(Column::TenantId, ValueView::Text(tenant_id))
            .ascending(Column::OperatorId)
            .limit(limit as i64)
            .offset(offset as i64)
    }

    /// The roles in a tenant, by operator.
    pub fn list_by_tenant(tenant_id: &str, limit: usize, offset: usize) -> (r: Query)
        ensures
            r@ == Self::spec_list_by_tenant(tenant_id@, limit, offset),
    {
        Query::on(Table::OperatorTenantRoles, Output::Rows(Self::columns()))
            .equals(Column::TenantId, text(tenant_id))
            .ascending(Column::OperatorId)
            .limit(limit as i64)
            .offset(offset as i64)
    }
}

/// The role with the fewest rights.
pub const LEAST_ROLE: &'static str = "read_only";

/// The role that a stored name stands for; a name that is not known stands for
/// the role with the fewest rights.
pub open spec fn role_of(raw: Seq<char>, roles: Seq<Seq<char>>) -> Seq<char> {
    match crate::json::json_as_text("\""@ + raw + "\""@) {
        Some(name) => if roles.contains(name) {
            name
        } else {
            LEAST_ROLE@
        },
        None => LEAST_ROLE@,
    }
}

fn stored_role(raw: &str, roles: &Vec<String>) -> (r: String)
    ensures
        r@ == role_of(raw@, roles.deep_view()),
{
    let mut quoted: String = "\"".to_owned();
    quoted.append(raw);
    quoted.append("\"");
    match decode_text(&quoted) {
        Some(name) => if knows(roles, &name) {
            name
        } else {
            LEAST_ROLE.to_owned()
        },
        None => LEAST_ROLE.to_owned(),
    }
}

impl OperatorTenantRoleRecord {
    /// Whether the role was not revoked.
    pub fn is_active(&self) -> (r: bool)
        ensures
            r == (self.revoked_at_ms is None),
    {
        self.revoked_at_ms.is_none()
    }
}

impl StoredRow for OperatorTenantRoleRow {
    type Record = OperatorTenantRoleRecord;

    open spec fn fault(&self, names: &DomainNames) -> Option<ErrorView> {
        None
    }

    open spec fn holds(&self, names: &DomainNames, record: &OperatorTenantRoleRecord) -> bool {
        &&& record.tenant_id == self.tenant_id
        &&& record.operator_id == self.operator_id
        &&& record.role@ == role_of(self.role@, names.tenant_roles.deep_view())
        &&& record.granted_at_ms == crate::read::floor8(self.granted_at_ms)
        &&& record.granted_by == self.granted_by
        &&& record.revoked_at_ms == crate::read::opt_floor8(self.revoked_at_ms)
        &&& record.revoked_by == self.revoked_by
    }

    fn into_record(self, names: &DomainNames) -> (r: Result<OperatorTenantRoleRecord, StoreError>) {
        let role = stored_role(&self.role, &names.tenant_roles);
        Ok(
            OperatorTenantRoleRecord {
                tenant_id: self.tenant_id,
                operator_id: self.operator_id,
                role,
                granted_at_ms: to_floor8(self.granted_at_ms),
                granted_by: self.granted_by,
                revoked_at_ms: to_opt_floor8(self.revoked_at_ms),
                revoked_by: self.revoked_by,
            },
        )
    }
}

/// A row of `resource_shares`.
#[derive(Debug, PartialEq, Eq)]
pub struct ResourceShareRow {
    pub share_id: String,
    pub tenant_id: String,
    pub source_workspace_id: String,
    pub target_workspace_id: String,
    pub resource_type: String,
    pub resource_id: String,
    pub permissions_json: String,
    pub shared_at_ms: i64,
}

/// A resource that one workspace shares with another.
#[derive(Debug, PartialEq, Eq)]
pub struct SharedResource {
    pub share_id: String,
    pub tenant_id: String,
    pub source_workspace_id: String,
    pub target_workspace_id: String,
    pub resource_type: String,
    pub resource_id: String,
    pub permissions: Vec<String>,
    pub shared_at_ms: u64,
}

impl ResourceShareRow {
    /// The columns that the row is read from.
    pub open spec fn spec_columns() -> Seq<Column> {
        seq![
            Column::ShareId,
            Column::TenantId,
            Column::SourceWorkspaceId,
            Column::TargetWorkspaceId,
            Column::ResourceType,
            Column::ResourceId,
            Column::PermissionsJson,
            Column::SharedAtMs,
        ]
    }

    fn columns() -> (r: Vec<Column>)
        ensures
            r@ == Self::spec_columns(),
    {
        vec![
            Column::ShareId,
            Column::TenantId,
            Column::SourceWorkspaceId,
            Column::TargetWorkspaceId,
            Column::ResourceType,
            Column::ResourceId,
            Column::PermissionsJson,
            Column::SharedAtMs,
        ]
    }

    /// Whether this is what a stored row holds in those columns.
    pub open spec fn is_of(self, row: crate::model::Row) -> bool {
        &&& crate::model::value(row, Column::ShareId) == Datum::Text(self.share_id@)
        &&& crate::model::value(row, Column::TenantId) == Datum::Text(self.tenant_id@)
        &&& crate::model::value(row, Column::SourceWorkspaceId) == Datum::Text(
            self.source_workspace_id@,
        )
        &&& crate::model::value(row, Column::TargetWorkspaceId) == Datum::Text(
            self.target_workspace_id@,
        )
        &&& crate::model::value(row, Column::ResourceType) == Datum::Text(self.resource_type@)
        &&& crate::model::value(row, Column::ResourceId) == Datum::Text(self.resource_id@)
        &&& crate::model::value(row, Column::PermissionsJson) == Datum::Text(self.permissions_json@)
        &&& crate::model::value(row, Column::SharedAtMs) == Datum::Int(self.shared_at_ms as int)
    }

    /// The query of [`ResourceShareRow::get_share`].
    pub open spec fn spec_get_share(share_id: Seq<char>) -> QueryView {
        QueryView::on(Table::ResourceShares, OutputView::Rows(Self::spec_columns()))
            .equals(Column::ShareId, ValueView::Text(share_id))
    }

    /// Finds a share.
    pub fn get_share(share_id: &str) -> (r: Query)
        ensures
            r@ == Self::spec_get_share(share_id@),
    {
        Query::on(Table::ResourceShares, Output::Rows(Self::columns()))
            .equals(Column::ShareId, text(share_id))
    }

    /// The query of [`ResourceShareRow::list_shares_for_workspace`].
    pub open spec fn spec_list_shares_for_workspace(
        tenant_id: Seq<char>,
        target_workspace_id: Seq<char>,
    ) -> QueryView {
        QueryView::on(Table::ResourceShares, OutputView::Rows(Self::spec_columns()))
            .equals(Column::TenantId, ValueView::Text(tenant_id))
            .equals(Column::TargetWorkspaceId, ValueView::Text(target_workspace_id))
            .ascending(Column::SharedAtMs)
            .ascending(Column::ShareId)
    }

    /// What is shared with a workspace, the oldest first.
    pub fn list_shares_for_workspace(tenant_id: &str, target_workspace_id: &str) -> (r: Query)
        ensures
            r@ == Self::spec_list_shares_for_workspace(tenant_id@, target_workspace_id@),
    {
        Query::on(Table::ResourceShares, Output::Rows(Self::columns()))
            .equals(Column::TenantId, text(tenant_id))
            .equals(Column::TargetWorkspaceId, text(target_workspace_id))
            .ascending(Column::SharedAtMs)
            .ascending(Column::ShareId)
    }

    /// The query of [`ResourceShareRow::get_share_for_resource`].
    pub open spec fn spec_get_share_for_resource(
        tenant_id: Seq<char>,
        target_workspace_id: Seq<char>,
        resource_type: Seq<char>,
        resource_id: Seq<char>,
    ) -> QueryView {
        QueryView::on(Table::ResourceShares, OutputView::Rows(Self::spec_columns()))
            .equals(Column::TenantId, ValueView::Text(tenant_id))
            .equals(Column::TargetWorkspaceId, ValueView::Text(target_workspace_id))
            .equals(Column::ResourceType, ValueView::Text(resource_type))
            .equals(Column::ResourceId, ValueView::Text(resource_id))
            .ascending(Column::SharedAtMs)
            .ascending(Column::ShareId)
            .limit(1)
    }

    /// Finds the first share of a resource with a workspace.
    pub fn get_share_for_resource(
        tenant_id: &str,
        target_workspace_id: &str,
        resource_type: &str,
        resource_id: &str,
    ) -> (r: Query)
        ensures
            r@ == Self::spec_get_share_for_resource(
                tenant_id@,
                target_workspace_id@,
                resource_type@,
                resource_id@,
            ),
    {
        Query::on(Table::ResourceShares, Output::Rows(Self::columns()))
            .equals(Column::TenantId, text(tenant_id))
            .equals(Column::TargetWorkspaceId, text(target_workspace_id))
            .equals(Column::ResourceType, text(resource_type))
            .equals(Column::ResourceId, text(resource_id))
            .ascending(Column::SharedAtMs)
            .ascending(Column::ShareId)
            .limit(1)
    }
}

impl StoredRow for ResourceShareRow {
    type Record = SharedResource;

    open spec fn fault(&self, names: &DomainNames) -> Option<ErrorView> {
        if crate::json::json_as_strings(self.permissions_json@) is Err {
            Some(
                ErrorView::Serialization(
                    "resource_shares.permissions_json decode for share_id="@ + self.share_id@
                        + ": "@ + crate::json::json_as_strings(self.permissions_json@)->Err_0,
                ),
            )
        } else {
            None
        }
    }

    open spec fn holds(&self, names: &DomainNames, record: &SharedResource) -> bool {
        &&& record.share_id == self.share_id
        &&& record.tenant_id == self.tenant_id
        &&& record.source_workspace_id == self.source_workspace_id
        &&& record.target_workspace_id == self.target_workspace_id
        &&& record.resource_type == self.resource_type
        &&& record.resource_id == self.resource_id
        &&& crate::json::json_as_strings(self.permissions_json@) == Ok::<Seq<Seq<char>>, Seq<char>>(
            record.permissions.deep_view(),
        )
        &&& record.shared_at_ms == crate::read::floor8(self.shared_at_ms)
    }

    fn into_record(self, names: &DomainNames) -> (r: Result<SharedResource, StoreError>) {
        let permissions = match decode_strings(&self.permissions_json) {
            Ok(v) => v,
            Err(m) => {
                let mut message: String =
                    "resource_shares.permissions_json decode for share_id=".to_owned();
                message.append(&self.share_id);
                message.append(": ");
                message.append(&m);
                return Err(StoreError::Serialization(message));
            },
        };
        Ok(
            SharedResource {
                share_id: self.share_id,
                tenant_id: self.tenant_id,
                source_workspace_id: self.source_workspace_id,
                target_workspace_id: self.target_workspace_id,
                resource_type: self.resource_type,
                resource_id: self.resource_id,
                permissions,
                shared_at_ms: to_floor8(self.shared_at_ms),
            },
        )
    }
}

} // verus!
