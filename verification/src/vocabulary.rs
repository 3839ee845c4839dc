//! The closed vocabularies of the projection tables: each name that a column
//! may hold, as an enumeration.

use crate::text::same_text;
use vstd::prelude::*;

verus! {

/// The state of an ingest job.
#[derive(Clone, Copy, Debug, PartialEq, Eq, Structural)]
pub enum IngestJobState {
    Pending,
    Processing,
    Completed,
    Failed,
}

impl IngestJobState {
    /// The name that is stored.
    pub open spec fn spec_name(self) -> Seq<char> {
        match self {
            IngestJobState::Pending => "pending"@,
            IngestJobState::Processing => "processing"@,
            IngestJobState::Completed => "completed"@,
            IngestJobState::Failed => "failed"@,
        }
    }

    /// The name that is stored.
    pub fn name(self) -> (r: &'static str)
        ensures
            r@ == self.spec_name(),
    {
        match self {
            IngestJobState::Pending => "pending",
            IngestJobState::Processing => "processing",
            IngestJobState::Completed => "completed",
            IngestJobState::Failed => "failed",
        }
    }

    /// The value with a stored name, if there is one.
    pub open spec fn spec_parse(raw: Seq<char>) -> Option<IngestJobState> {
        if raw == "pending"@ {
            Some(IngestJobState::Pending)
        } else if raw == "processing"@ {
            Some(IngestJobState::Processing)
        } else if raw == "completed"@ {
            Some(IngestJobState::Completed)
        } else if raw == "failed"@ {
            Some(IngestJobState::Failed)
        } else {
            None
        }
    }

    /// The value with a stored name, if there is one.
    pub fn parse(raw: &str) -> (r: Option<IngestJobState>)
        ensures
            r == IngestJobState::spec_parse(raw@),
    {
        if same_text(raw, "pending") {
            Some(IngestJobState::Pending)
        } else if same_text(raw, "processing") {
            Some(IngestJobState::Processing)
        } else if same_text(raw, "completed") {
            Some(IngestJobState::Completed)
        } else if same_text(raw, "failed") {
            Some(IngestJobState::Failed)
        } else {
            None
        }
    }
}

/// A name is read back as the value it was written for, and no other name is.
pub proof fn ingest_job_state_names_are_inverse(value: IngestJobState, raw: Seq<char>)
    ensures
        IngestJobState::spec_parse(value.spec_name()) == Some(value),
        IngestJobState::spec_parse(raw) == Some(value) <==> raw == value.spec_name(),
{
    reveal_strlit("pending");
    reveal_strlit("processing");
    reveal_strlit("completed");
    reveal_strlit("failed");
    assert("pending"@.len() == 7);
    assert("processing"@.len() == 10);
    assert("completed"@.len() == 9);
    assert("failed"@.len() == 6);
}

/// What a default setting applies to.
#[derive(Clone, Copy, Debug, PartialEq, Eq, Structural)]
pub enum Scope {
    System,
    Tenant,
    Workspace,
    Project,
}

impl Scope {
    /// The name that is stored.
    pub open spec fn spec_name(self) -> Seq<char> {
        match self {
            Scope::System => "system"@,
            Scope::Tenant => "tenant"@,
            Scope::Workspace => "workspace"@,
            Scope::Project => "project"@,
        }
    }

    /// The name that is stored.
    pub fn name(self) -> (r: &'static str)
        ensures
            r@ == self.spec_name(),
    {
        match self {
            Scope::System => "system",
            Scope::Tenant => "tenant",
            Scope::Workspace => "workspace",
            Scope::Project => "project",
        }
    }

    /// The value with a stored name, if there is one.
    pub open spec fn spec_parse(raw: Seq<char>) -> Option<Scope> {
        if raw == "system"@ {
            Some(Scope::System)
        } else if raw == "tenant"@ {
            Some(Scope::Tenant)
        } else if raw == "workspace"@ {
            Some(Scope::Workspace)
        } else if raw == "project"@ {
            Some(Scope::Project)
        } else {
            None
        }
    }

    /// The value with a stored name, if there is one.
    pub fn parse(raw: &str) -> (r: Option<Scope>)
        ensures
            r == Scope::spec_parse(raw@),
    {
        if same_text(raw, "system") {
            Some(Scope::System)
        } else if same_text(raw, "tenant") {
            Some(Scope::Tenant)
        } else if same_text(raw, "workspace") {
            Some(Scope::Workspace)
        } else if same_text(raw, "project") {
            Some(Scope::Project)
        } else {
            None
        }
    }
}

/// A name is read back as the value it was written for, and no other name is.
pub proof fn scope_names_are_inverse(value: Scope, raw: Seq<char>)
    ensures
        Scope::spec_parse(value.spec_name()) == Some(value),
        Scope::spec_parse(raw) == Some(value) <==> raw == value.spec_name(),
{
    reveal_strlit("system");
    reveal_strlit("tenant");
    reveal_strlit("workspace");
    reveal_strlit("project");
    assert("system"@.len() == 6);
    assert("tenant"@.len() == 6);
    assert("workspace"@.len() == 9);
    assert("project"@.len() == 7);
    assert("system"@[0] != "tenant"@[0]);
}

/// The period that a provider budget covers.
#[derive(Clone, Copy, Debug, PartialEq, Eq, Structural)]
pub enum ProviderBudgetPeriod {
    Daily,
    Monthly,
}

impl ProviderBudgetPeriod {
    /// The name that is stored.
    pub open spec fn spec_name(self) -> Seq<char> {
        match self {
            ProviderBudgetPeriod::Daily => "daily"@,
            ProviderBudgetPeriod::Monthly => "monthly"@,
        }
    }

    /// The name that is stored.
    pub fn name(self) -> (r: &'static str)
        ensures
            r@ == self.spec_name(),
    {
        match self {
            ProviderBudgetPeriod::Daily => "daily",
            ProviderBudgetPeriod::Monthly => "monthly",
        }
    }

    /// The value with a stored name, if there is one.
    pub open spec fn spec_parse(raw: Seq<char>) -> Option<ProviderBudgetPeriod> {
        if raw == "daily"@ {
            Some(ProviderBudgetPeriod::Daily)
        } else if raw == "monthly"@ {
            Some(ProviderBudgetPeriod::Monthly)
        } else {
            None
        }
    }

    /// The value with a stored name, if there is one.
    pub fn parse(raw: &str) -> (r: Option<ProviderBudgetPeriod>)
        ensures
            r == ProviderBudgetPeriod::spec_parse(raw@),
    {
        if same_text(raw, "daily") {
            Some(ProviderBudgetPeriod::Daily)
        } else if same_text(raw, "monthly") {
            Some(ProviderBudgetPeriod::Monthly)
        } else {
            None
        }
    }
}

/// A name is read back as the value it was written for, and no other name is.
pub proof fn provider_budget_period_names_are_inverse(value: ProviderBudgetPeriod, raw: Seq<char>)
    ensures
        ProviderBudgetPeriod::spec_parse(value.spec_name()) == Some(value),
        ProviderBudgetPeriod::spec_parse(raw) == Some(value) <==> raw == value.spec_name(),
{
    reveal_strlit("daily");
    reveal_strlit("monthly");
    assert("daily"@.len() == 5);
    assert("monthly"@.len() == 7);
}

/// The tier that a license grants.
#[derive(Clone, Copy, Debug, PartialEq, Eq, Structural)]
pub enum ProductTier {
    LocalEval,
    TeamSelfHosted,
    EnterpriseSelfHosted,
}

impl ProductTier {
    /// The name that is stored.
    pub open spec fn spec_name(self) -> Seq<char> {
        match self {
            ProductTier::LocalEval => "local_eval"@,
            ProductTier::TeamSelfHosted => "team_self_hosted"@,
            ProductTier::EnterpriseSelfHosted => "enterprise_self_hosted"@,
        }
    }

    /// The name that is stored.
    pub fn name(self) -> (r: &'static str)
        ensures
            r@ == self.spec_name(),
    {
        match self {
            ProductTier::LocalEval => "local_eval",
            ProductTier::TeamSelfHosted => "team_self_hosted",
            ProductTier::EnterpriseSelfHosted => "enterprise_self_hosted",
        }
    }

    /// The value with a stored name, if there is one.
    pub open spec fn spec_parse(raw: Seq<char>) -> Option<ProductTier> {
        if raw == "local_eval"@ {
            Some(ProductTier::LocalEval)
        } else if raw == "team_self_hosted"@ {
            Some(ProductTier::TeamSelfHosted)
        } else if raw == "enterprise_self_hosted"@ {
            Some(ProductTier::EnterpriseSelfHosted)
        } else {
            None
        }
    }

    /// The value with a stored name, if there is one.
    pub fn parse(raw: &str) -> (r: Option<ProductTier>)
        ensures
            r == ProductTier::spec_parse(raw@),
    {
        if same_text(raw, "local_eval") {
            Some(ProductTier::LocalEval)
        } else if same_text(raw, "team_self_hosted") {
            Some(ProductTier::TeamSelfHosted)
        } else if same_text(raw, "enterprise_self_hosted") {
            Some(ProductTier::EnterpriseSelfHosted)
        } else {
            None
        }
    }
}

/// A name is read back as the value it was written for, and no other name is.
pub proof fn product_tier_names_are_inverse(value: ProductTier, raw: Seq<char>)
    ensures
        ProductTier::spec_parse(value.spec_name()) == Some(value),
        ProductTier::spec_parse(raw) == Some(value) <==> raw == value.spec_name(),
{
    reveal_strlit("local_eval");
    reveal_strlit("team_self_hosted");
    reveal_strlit("enterprise_self_hosted");
    assert("local_eval"@.len() == 10);
    assert("team_self_hosted"@.len() == 16);
    assert("enterprise_self_hosted"@.len() == 22);
}

/// What a guardrail evaluation was about.
#[derive(Clone, Copy, Debug, PartialEq, Eq, Structural)]
pub enum GuardrailSubjectType {
    Run,
    Task,
    Session,
    Tool,
    Provider,
}

impl GuardrailSubjectType {
    /// The name that is stored.
    pub open spec fn spec_name(self) -> Seq<char> {
        match self {
            GuardrailSubjectType::Run => "run"@,
            GuardrailSubjectType::Task => "task"@,
            GuardrailSubjectType::Session => "session"@,
            GuardrailSubjectType::Tool => "tool"@,
            GuardrailSubjectType::Provider => "provider"@,
        }
    }

    /// The name that is stored.
    pub fn name(self) -> (r: &'static str)
        ensures
            r@ == self.spec_name(),
    {
        match self {
            GuardrailSubjectType::Run => "run",
            GuardrailSubjectType::Task => "task",
            GuardrailSubjectType::Session => "session",
            GuardrailSubjectType::Tool => "tool",
            GuardrailSubjectType::Provider => "provider",
        }
    }

    /// The value with a stored name, if there is one.
    pub open spec fn spec_parse(raw: Seq<char>) -> Option<GuardrailSubjectType> {
        if raw == "run"@ {
            Some(GuardrailSubjectType::Run)
        } else if raw == "task"@ {
            Some(GuardrailSubjectType::Task)
        } else if raw == "session"@ {
            Some(GuardrailSubjectType::Session)
        } else if raw == "tool"@ {
            Some(GuardrailSubjectType::Tool)
        } else if raw == "provider"@ {
            Some(GuardrailSubjectType::Provider)
        } else {
            None
        }
    }

    /// The value with a stored name, if there is one.
    pub fn parse(raw: &str) -> (r: Option<GuardrailSubjectType>)
        ensures
            r == GuardrailSubjectType::spec_parse(raw@),
    {
        if same_text(raw, "run") {
            Some(GuardrailSubjectType::Run)
        } else if same_text(raw, "task") {
            Some(GuardrailSubjectType::Task)
        } else if same_text(raw, "session") {
            Some(GuardrailSubjectType::Session)
        } else if same_text(raw, "tool") {
            Some(GuardrailSubjectType::Tool)
        } else if same_text(raw, "provider") {
            Some(GuardrailSubjectType::Provider)
        } else {
            None
        }
    }
}

/// A name is read back as the value it was written for, and no other name is.
pub proof fn guardrail_subject_type_names_are_inverse(value: GuardrailSubjectType, raw: Seq<char>)
    ensures
        GuardrailSubjectType::spec_parse(value.spec_name()) == Some(value),
        GuardrailSubjectType::spec_parse(raw) == Some(value) <==> raw == value.spec_name(),
{
    reveal_strlit("run");
    reveal_strlit("task");
    reveal_strlit("session");
    reveal_strlit("tool");
    reveal_strlit("provider");
    assert("run"@.len() == 3);
    assert("task"@.len() == 4);
    assert("session"@.len() == 7);
    assert("tool"@.len() == 4);
    assert("provider"@.len() == 8);
    assert("task"@[1] != "tool"@[1]);
}

/// What a guardrail evaluation decided.
#[derive(Clone, Copy, Debug, PartialEq, Eq, Structural)]
pub enum GuardrailDecisionKind {
    Allowed,
    Denied,
    Warned,
}

impl GuardrailDecisionKind {
    /// The name that is stored.
    pub open spec fn spec_name(self) -> Seq<char> {
        match self {
            GuardrailDecisionKind::Allowed => "allowed"@,
            GuardrailDecisionKind::Denied => "denied"@,
            GuardrailDecisionKind::Warned => "warned"@,
        }
    }

    /// The name that is stored.
    pub fn name(self) -> (r: &'static str)
        ensures
            r@ == self.spec_name(),
    {
        match self {
            GuardrailDecisionKind::Allowed => "allowed",
            GuardrailDecisionKind::Denied => "denied",
            GuardrailDecisionKind::Warned => "warned",
        }
    }

    /// The value with a stored name, if there is one.
    pub open spec fn spec_parse(raw: Seq<char>) -> Option<GuardrailDecisionKind> {
        if raw == "allowed"@ {
            Some(GuardrailDecisionKind::Allowed)
        } else if raw == "denied"@ {
            Some(GuardrailDecisionKind::Denied)
        } else if raw == "warned"@ {
            Some(GuardrailDecisionKind::Warned)
        } else {
            None
        }
    }

    /// The value with a stored name, if there is one.
    pub fn parse(raw: &str) -> (r: Option<GuardrailDecisionKind>)
        ensures
            r == GuardrailDecisionKind::spec_parse(raw@),
    {
        if same_text(raw, "allowed") {
            Some(GuardrailDecisionKind::Allowed)
        } else if same_text(raw, "denied") {
            Some(GuardrailDecisionKind::Denied)
        } else if same_text(raw, "warned") {
            Some(GuardrailDecisionKind::Warned)
        } else {
            None
        }
    }
}

/// A name is read back as the value it was written for, and no other name is.
pub proof fn guardrail_decision_kind_names_are_inverse(value: GuardrailDecisionKind, raw: Seq<char>)
    ensures
        GuardrailDecisionKind::spec_parse(value.spec_name()) == Some(value),
        GuardrailDecisionKind::spec_parse(raw) == Some(value) <==> raw == value.spec_name(),
{
    reveal_strlit("allowed");
    reveal_strlit("denied");
    reveal_strlit("warned");
    assert("allowed"@.len() == 7);
    assert("denied"@.len() == 6);
    assert("warned"@.len() == 6);
    assert("denied"@[0] != "warned"@[0]);
}

/// Whether a provider connection is in use.
#[derive(Clone, Copy, Debug, PartialEq, Eq, Structural)]
pub enum ProviderConnectionStatus {
    Active,
    Disabled,
}

impl ProviderConnectionStatus {
    /// The name that is stored.
    pub open spec fn spec_name(self) -> Seq<char> {
        match self {
            ProviderConnectionStatus::Active => "active"@,
            ProviderConnectionStatus::Disabled => "disabled"@,
        }
    }

    /// The name that is stored.
    pub fn name(self) -> (r: &'static str)
        ensures
            r@ == self.spec_name(),
    {
        match self {
            ProviderConnectionStatus::Active => "active",
            ProviderConnectionStatus::Disabled => "disabled",
        }
    }

    /// The value with a stored name, if there is one.
    pub open spec fn spec_parse(raw: Seq<char>) -> Option<ProviderConnectionStatus> {
        if raw == "active"@ {
            Some(ProviderConnectionStatus::Active)
        } else if raw == "disabled"@ {
            Some(ProviderConnectionStatus::Disabled)
        } else {
            None
        }
    }

    /// The value with a stored name, if there is one.
    pub fn parse(raw: &str) -> (r: Option<ProviderConnectionStatus>)
        ensures
            r == ProviderConnectionStatus::spec_parse(raw@),
    {
        if same_text(raw, "active") {
            Some(ProviderConnectionStatus::Active)
        } else if same_text(raw, "disabled") {
            Some(ProviderConnectionStatus::Disabled)
        } else {
            None
        }
    }
}

/// A name is read back as the value it was written for, and no other name is.
pub proof fn provider_connection_status_names_are_inverse(
    value: ProviderConnectionStatus,
    raw: Seq<char>,
)
    ensures
        ProviderConnectionStatus::spec_parse(value.spec_name()) == Some(value),
        ProviderConnectionStatus::spec_parse(raw) == Some(value) <==> raw == value.spec_name(),
{
    reveal_strlit("active");
    reveal_strlit("disabled");
    assert("active"@.len() == 6);
    assert("disabled"@.len() == 8);
}

/// What a provider binding is used for.
#[derive(Clone, Copy, Debug, PartialEq, Eq, Structural)]
pub enum OperationKind {
    Generate,
    Embed,
    Rerank,
}

impl OperationKind {
    /// The name that is stored.
    pub open spec fn spec_name(self) -> Seq<char> {
        match self {
            OperationKind::Generate => "generate"@,
            OperationKind::Embed => "embed"@,
            OperationKind::Rerank => "rerank"@,
        }
    }

    /// The name that is stored.
    pub fn name(self) -> (r: &'static str)
        ensures
            r@ == self.spec_name(),
    {
        match self {
            OperationKind::Generate => "generate",
            OperationKind::Embed => "embed",
            OperationKind::Rerank => "rerank",
        }
    }

    /// The value with a stored name, if there is one.
    pub open spec fn spec_parse(raw: Seq<char>) -> Option<OperationKind> {
        if raw == "generate"@ {
            Some(OperationKind::Generate)
        } else if raw == "embed"@ {
            Some(OperationKind::Embed)
        } else if raw == "rerank"@ {
            Some(OperationKind::Rerank)
        } else {
            None
        }
    }

    /// The value with a stored name, if there is one.
    pub fn parse(raw: &str) -> (r: Option<OperationKind>)
        ensures
            r == OperationKind::spec_parse(raw@),
    {
        if same_text(raw, "generate") {
            Some(OperationKind::Generate)
        } else if same_text(raw, "embed") {
            Some(OperationKind::Embed)
        } else if same_text(raw, "rerank") {
            Some(OperationKind::Rerank)
        } else {
            None
        }
    }
}

/// A name is read back as the value it was written for, and no other name is.
pub proof fn operation_kind_names_are_inverse(value: OperationKind, raw: Seq<char>)
    ensures
        OperationKind::spec_parse(value.spec_name()) == Some(value),
        OperationKind::spec_parse(raw) == Some(value) <==> raw == value.spec_name(),
{
    reveal_strlit("generate");
    reveal_strlit("embed");
    reveal_strlit("rerank");
    assert("generate"@.len() == 8);
    assert("embed"@.len() == 5);
    assert("rerank"@.len() == 6);
}

/// How an audited action ended.
#[derive(Clone, Copy, Debug, PartialEq, Eq, Structural)]
pub enum AuditOutcome {
    Success,
    Failure,
}

impl AuditOutcome {
    /// The name that is stored.
    pub open spec fn spec_name(self) -> Seq<char> {
        match self {
            AuditOutcome::Success => "success"@,
            AuditOutcome::Failure => "failure"@,
        }
    }

    /// The name that is stored.
    pub fn name(self) -> (r: &'static str)
        ensures
            r@ == self.spec_name(),
    {
        match self {
            AuditOutcome::Success => "success",
            AuditOutcome::Failure => "failure",
        }
    }

    /// The value with a stored name, if there is one.
    pub open spec fn spec_parse(raw: Seq<char>) -> Option<AuditOutcome> {
        if raw == "success"@ {
            Some(AuditOutcome::Success)
        } else if raw == "failure"@ {
            Some(AuditOutcome::Failure)
        } else {
            None
        }
    }

    /// The value with a stored name, if there is one.
    pub fn parse(raw: &str) -> (r: Option<AuditOutcome>)
        ensures
            r == AuditOutcome::spec_parse(raw@),
    {
        if same_text(raw, "success") {
            Some(AuditOutcome::Success)
        } else if same_text(raw, "failure") {
            Some(AuditOutcome::Failure)
        } else {
            None
        }
    }
}

/// A name is read back as the value it was written for, and no other name is.
pub proof fn audit_outcome_names_are_inverse(value: AuditOutcome, raw: Seq<char>)
    ensures
        AuditOutcome::spec_parse(value.spec_name()) == Some(value),
        AuditOutcome::spec_parse(raw) == Some(value) <==> raw == value.spec_name(),
{
    reveal_strlit("success");
    reveal_strlit("failure");
    assert("success"@.len() == 7);
    assert("failure"@.len() == 7);
    assert("success"@[0] != "failure"@[0]);
}

/// How a predicted outcome turned out.
#[derive(Clone, Copy, Debug, PartialEq, Eq, Structural)]
pub enum ActualOutcome {
    Success,
    Failure,
    Partial,
}

impl ActualOutcome {
    /// The name that is stored.
    pub open spec fn spec_name(self) -> Seq<char> {
        match self {
            ActualOutcome::Success => "success"@,
            ActualOutcome::Failure => "failure"@,
            ActualOutcome::Partial => "partial"@,
        }
    }

    /// The name that is stored.
    pub fn name(self) -> (r: &'static str)
        ensures
            r@ == self.spec_name(),
    {
        match self {
            ActualOutcome::Success => "success",
            ActualOutcome::Failure => "failure",
            ActualOutcome::Partial => "partial",
        }
    }

    /// The value with a stored name, if there is one.
    pub open spec fn spec_parse(raw: Seq<char>) -> Option<ActualOutcome> {
        if raw == "success"@ {
            Some(ActualOutcome::Success)
        } else if raw == "failure"@ {
            Some(ActualOutcome::Failure)
        } else if raw == "partial"@ {
            Some(ActualOutcome::Partial)
        } else {
            None
        }
    }

    /// The value with a stored name, if there is one.
    pub fn parse(raw: &str) -> (r: Option<ActualOutcome>)
        ensures
            r == ActualOutcome::spec_parse(raw@),
    {
        if same_text(raw, "success") {
            Some(ActualOutcome::Success)
        } else if same_text(raw, "failure") {
            Some(ActualOutcome::Failure)
        } else if same_text(raw, "partial") {
            Some(ActualOutcome::Partial)
        } else {
            None
        }
    }
}

/// A name is read back as the value it was written for, and no other name is.
pub proof fn actual_outcome_names_are_inverse(value: ActualOutcome, raw: Seq<char>)
    ensures
        ActualOutcome::spec_parse(value.spec_name()) == Some(value),
        ActualOutcome::spec_parse(raw) == Some(value) <==> raw == value.spec_name(),
{
    reveal_strlit("success");
    reveal_strlit("failure");
    reveal_strlit("partial");
    assert("success"@.len() == 7);
    assert("failure"@.len() == 7);
    assert("partial"@.len() == 7);
    assert("success"@[0] != "failure"@[0]);
    assert("success"@[0] != "partial"@[0]);
    assert("failure"@[0] != "partial"@[0]);
}

/// Where a plan review stands.
#[derive(Clone, Copy, Debug, PartialEq, Eq, Structural)]
pub enum PlanReviewState {
    Proposed,
    Approved,
    Rejected,
    RevisionRequested,
}

impl PlanReviewState {
    /// The name that is stored.
    pub open spec fn spec_name(self) -> Seq<char> {
        match self {
            PlanReviewState::Proposed => "proposed"@,
            PlanReviewState::Approved => "approved"@,
            PlanReviewState::Rejected => "rejected"@,
            PlanReviewState::RevisionRequested => "revision_requested"@,
        }
    }

    /// The name that is stored.
    pub fn name(self) -> (r: &'static str)
        ensures
            r@ == self.spec_name(),
    {
        match self {
            PlanReviewState::Proposed => "proposed",
            PlanReviewState::Approved => "approved",
            PlanReviewState::Rejected => "rejected",
            PlanReviewState::RevisionRequested => "revision_requested",
        }
    }

    /// The value with a stored name, if there is one.
    pub open spec fn spec_parse(raw: Seq<char>) -> Option<PlanReviewState> {
        if raw == "proposed"@ {
            Some(PlanReviewState::Proposed)
        } else if raw == "approved"@ {
            Some(PlanReviewState::Approved)
        } else if raw == "rejected"@ {
            Some(PlanReviewState::Rejected)
        } else if raw == "revision_requested"@ {
            Some(PlanReviewState::RevisionRequested)
        } else {
            None
        }
    }

    /// The value with a stored name, if there is one.
    pub fn parse(raw: &str) -> (r: Option<PlanReviewState>)
        ensures
            r == PlanReviewState::spec_parse(raw@),
    {
        if same_text(raw, "proposed") {
            Some(PlanReviewState::Proposed)
        } else if same_text(raw, "approved") {
            Some(PlanReviewState::Approved)
        } else if same_text(raw, "rejected") {
            Some(PlanReviewState::Rejected)
        } else if same_text(raw, "revision_requested") {
            Some(PlanReviewState::RevisionRequested)
        } else {
            None
        }
    }
}

/// A name is read back as the value it was written for, and no other name is.
pub proof fn plan_review_state_names_are_inverse(value: PlanReviewState, raw: Seq<char>)
    ensures
        PlanReviewState::spec_parse(value.spec_name()) == Some(value),
        PlanReviewState::spec_parse(raw) == Some(value) <==> raw == value.spec_name(),
{
    reveal_strlit("proposed");
    reveal_strlit("approved");
    reveal_strlit("rejected");
    reveal_strlit("revision_requested");
    assert("proposed"@.len() == 8);
    assert("approved"@.len() == 8);
    assert("rejected"@.len() == 8);
    assert("revision_requested"@.len() == 18);
    assert("proposed"@[0] != "approved"@[0]);
    assert("proposed"@[0] != "rejected"@[0]);
    assert("approved"@[0] != "rejected"@[0]);
}

/// Whether a checkpoint is the latest of its run.
#[derive(Clone, Copy, Debug, PartialEq, Eq, Structural)]
pub enum CheckpointDisposition {
    Latest,
    Superseded,
}

impl CheckpointDisposition {
    /// The name that is stored.
    pub open spec fn spec_name(self) -> Seq<char> {
        match self {
            CheckpointDisposition::Latest => "latest"@,
            CheckpointDisposition::Superseded => "superseded"@,
        }
    }

    /// The name that is stored.
    pub fn name(self) -> (r: &'static str)
        ensures
            r@ == self.spec_name(),
    {
        match self {
            CheckpointDisposition::Latest => "latest",
            CheckpointDisposition::Superseded => "superseded",
        }
    }

    /// The value with a stored name, if there is one.
    pub open spec fn spec_parse(raw: Seq<char>) -> Option<CheckpointDisposition> {
        if raw == "latest"@ {
            Some(CheckpointDisposition::Latest)
        } else if raw == "superseded"@ {
            Some(CheckpointDisposition::Superseded)
        } else {
            None
        }
    }

    /// The value with a stored name, if there is one.
    pub fn parse(raw: &str) -> (r: Option<CheckpointDisposition>)
        ensures
            r == CheckpointDisposition::spec_parse(raw@),
    {
        if same_text(raw, "latest") {
            Some(CheckpointDisposition::Latest)
        } else if same_text(raw, "superseded") {
            Some(CheckpointDisposition::Superseded)
        } else {
            None
        }
    }
}

/// A name is read back as the value it was written for, and no other name is.
pub proof fn checkpoint_disposition_names_are_inverse(value: CheckpointDisposition, raw: Seq<char>)
    ensures
        CheckpointDisposition::spec_parse(value.spec_name()) == Some(value),
        CheckpointDisposition::spec_parse(raw) == Some(value) <==> raw == value.spec_name(),
{
    reveal_strlit("latest");
    reveal_strlit("superseded");
    assert("latest"@.len() == 6);
    assert("superseded"@.len() == 10);
}

/// What a cached decision says.
#[derive(Clone, Copy, Debug, PartialEq, Eq, Structural)]
pub enum DecisionOutcome {
    Allowed,
    Denied,
}

impl DecisionOutcome {
    /// The name that is stored.
    pub open spec fn spec_name(self) -> Seq<char> {
        match self {
            DecisionOutcome::Allowed => "allowed"@,
            DecisionOutcome::Denied => "denied"@,
        }
    }

    /// The name that is stored.
    pub fn name(self) -> (r: &'static str)
        ensures
            r@ == self.spec_name(),
    {
        match self {
            DecisionOutcome::Allowed => "allowed",
            DecisionOutcome::Denied => "denied",
        }
    }

    /// The value with a stored name, if there is one.
    pub open spec fn spec_parse(raw: Seq<char>) -> Option<DecisionOutcome> {
        if raw == "allowed"@ {
            Some(DecisionOutcome::Allowed)
        } else if raw == "denied"@ {
            Some(DecisionOutcome::Denied)
        } else {
            None
        }
    }

    /// The value with a stored name, if there is one.
    pub fn parse(raw: &str) -> (r: Option<DecisionOutcome>)
        ensures
            r == DecisionOutcome::spec_parse(raw@),
    {
        if same_text(raw, "allowed") {
            Some(DecisionOutcome::Allowed)
        } else if same_text(raw, "denied") {
            Some(DecisionOutcome::Denied)
        } else {
            None
        }
    }
}

/// A name is read back as the value it was written for, and no other name is.
pub proof fn decision_outcome_names_are_inverse(value: DecisionOutcome, raw: Seq<char>)
    ensures
        DecisionOutcome::spec_parse(value.spec_name()) == Some(value),
        DecisionOutcome::spec_parse(raw) == Some(value) <==> raw == value.spec_name(),
{
    reveal_strlit("allowed");
    reveal_strlit("denied");
    assert("allowed"@.len() == 7);
    assert("denied"@.len() == 6);
}

/// Whether a trigger fires.
#[derive(Clone, Copy, Debug, PartialEq, Eq, Structural)]
pub enum TriggerStateKind {
    Enabled,
    Disabled,
    Suspended,
}

impl TriggerStateKind {
    /// The name that is stored.
    pub open spec fn spec_name(self) -> Seq<char> {
        match self {
            TriggerStateKind::Enabled => "enabled"@,
            TriggerStateKind::Disabled => "disabled"@,
            TriggerStateKind::Suspended => "suspended"@,
        }
    }

    /// The name that is stored.
    pub fn name(self) -> (r: &'static str)
        ensures
            r@ == self.spec_name(),
    {
        match self {
            TriggerStateKind::Enabled => "enabled",
            TriggerStateKind::Disabled => "disabled",
            TriggerStateKind::Suspended => "suspended",
        }
    }

    /// The value with a stored name, if there is one.
    pub open spec fn spec_parse(raw: Seq<char>) -> Option<TriggerStateKind> {
        if raw == "enabled"@ {
            Some(TriggerStateKind::Enabled)
        } else if raw == "disabled"@ {
            Some(TriggerStateKind::Disabled)
        } else if raw == "suspended"@ {
            Some(TriggerStateKind::Suspended)
        } else {
            None
        }
    }

    /// The value with a stored name, if there is one.
    pub fn parse(raw: &str) -> (r: Option<TriggerStateKind>)
        ensures
            r == TriggerStateKind::spec_parse(raw@),
    {
        if same_text(raw, "enabled") {
            Some(TriggerStateKind::Enabled)
        } else if same_text(raw, "disabled") {
            Some(TriggerStateKind::Disabled)
        } else if same_text(raw, "suspended") {
            Some(TriggerStateKind::Suspended)
        } else {
            None
        }
    }
}

/// A name is read back as the value it was written for, and no other name is.
pub proof fn trigger_state_kind_names_are_inverse(value: TriggerStateKind, raw: Seq<char>)
    ensures
        TriggerStateKind::spec_parse(value.spec_name()) == Some(value),
        TriggerStateKind::spec_parse(raw) == Some(value) <==> raw == value.spec_name(),
{
    reveal_strlit("enabled");
    reveal_strlit("disabled");
    reveal_strlit("suspended");
    assert("enabled"@.len() == 7);
    assert("disabled"@.len() == 8);
    assert("suspended"@.len() == 9);
}

/// Whether a soul patch has been applied.
#[derive(Clone, Copy, Debug, PartialEq, Eq, Structural)]
pub enum SoulPatchState {
    Proposed,
    Applied,
}

impl SoulPatchState {
    /// The name that is stored.
    pub open spec fn spec_name(self) -> Seq<char> {
        match self {
            SoulPatchState::Proposed => "proposed"@,
            SoulPatchState::Applied => "applied"@,
        }
    }

    /// The name that is stored.
    pub fn name(self) -> (r: &'static str)
        ensures
            r@ == self.spec_name(),
    {
        match self {
            SoulPatchState::Proposed => "proposed",
            SoulPatchState::Applied => "applied",
        }
    }

    /// The value with a stored name, if there is one.
    pub open spec fn spec_parse(raw: Seq<char>) -> Option<SoulPatchState> {
        if raw == "proposed"@ {
            Some(SoulPatchState::Proposed)
        } else if raw == "applied"@ {
            Some(SoulPatchState::Applied)
        } else {
            None
        }
    }

    /// The value with a stored name, if there is one.
    pub fn parse(raw: &str) -> (r: Option<SoulPatchState>)
        ensures
            r == SoulPatchState::spec_parse(raw@),
    {
        if same_text(raw, "proposed") {
            Some(SoulPatchState::Proposed)
        } else if same_text(raw, "applied") {
            Some(SoulPatchState::Applied)
        } else {
            None
        }
    }
}

/// A name is read back as the value it was written for, and no other name is.
pub proof fn soul_patch_state_names_are_inverse(value: SoulPatchState, raw: Seq<char>)
    ensures
        SoulPatchState::spec_parse(value.spec_name()) == Some(value),
        SoulPatchState::spec_parse(raw) == Some(value) <==> raw == value.spec_name(),
{
    reveal_strlit("proposed");
    reveal_strlit("applied");
    assert("proposed"@.len() == 8);
    assert("applied"@.len() == 7);
}

/// Where the approval of a tool call stands.
#[derive(Clone, Copy, Debug, PartialEq, Eq, Structural)]
pub enum ToolCallApprovalState {
    Pending,
    Approved,
    Rejected,
}

impl ToolCallApprovalState {
    /// The name that is stored.
    pub open spec fn spec_name(self) -> Seq<char> {
        match self {
            ToolCallApprovalState::Pending => "pending"@,
            ToolCallApprovalState::Approved => "approved"@,
            ToolCallApprovalState::Rejected => "rejected"@,
        }
    }

    /// The name that is stored.
    pub fn name(self) -> (r: &'static str)
        ensures
            r@ == self.spec_name(),
    {
        match self {
            ToolCallApprovalState::Pending => "pending",
            ToolCallApprovalState::Approved => "approved",
            ToolCallApprovalState::Rejected => "rejected",
        }
    }

    /// The value with a stored name, if there is one.
    pub open spec fn spec_parse(raw: Seq<char>) -> Option<ToolCallApprovalState> {
        if raw == "pending"@ {
            Some(ToolCallApprovalState::Pending)
        } else if raw == "approved"@ {
            Some(ToolCallApprovalState::Approved)
        } else if raw == "rejected"@ {
            Some(ToolCallApprovalState::Rejected)
        } else {
            None
        }
    }

    /// The value with a stored name, if there is one.
    pub fn parse(raw: &str) -> (r: Option<ToolCallApprovalState>)
        ensures
            r == ToolCallApprovalState::spec_parse(raw@),
    {
        if same_text(raw, "pending") {
            Some(ToolCallApprovalState::Pending)
        } else if same_text(raw, "approved") {
            Some(ToolCallApprovalState::Approved)
        } else if same_text(raw, "rejected") {
            Some(ToolCallApprovalState::Rejected)
        } else {
            None
        }
    }
}

/// A name is read back as the value it was written for, and no other name is.
pub proof fn tool_call_approval_state_names_are_inverse(
    value: ToolCallApprovalState,
    raw: Seq<char>,
)
    ensures
        ToolCallApprovalState::spec_parse(value.spec_name()) == Some(value),
        ToolCallApprovalState::spec_parse(raw) == Some(value) <==> raw == value.spec_name(),
{
    reveal_strlit("pending");
    reveal_strlit("approved");
    reveal_strlit("rejected");
    assert("pending"@.len() == 7);
    assert("approved"@.len() == 8);
    assert("rejected"@.len() == 8);
    assert("approved"@[0] != "rejected"@[0]);
}

/// The state of a tool invocation.
#[derive(Clone, Copy, Debug, PartialEq, Eq, Structural)]
pub enum ToolInvocationState {
    Requested,
    Started,
    Completed,
    Failed,
    Canceled,
}

impl ToolInvocationState {
    /// The name that is stored.
    pub open spec fn spec_name(self) -> Seq<char> {
        match self {
            ToolInvocationState::Requested => "requested"@,
            ToolInvocationState::Started => "started"@,
            ToolInvocationState::Completed => "completed"@,
            ToolInvocationState::Failed => "failed"@,
            ToolInvocationState::Canceled => "canceled"@,
        }
    }

    /// The name that is stored.
    pub fn name(self) -> (r: &'static str)
        ensures
            r@ == self.spec_name(),
    {
        match self {
            ToolInvocationState::Requested => "requested",
            ToolInvocationState::Started => "started",
            ToolInvocationState::Completed => "completed",
            ToolInvocationState::Failed => "failed",
            ToolInvocationState::Canceled => "canceled",
        }
    }

    /// The value with a stored name, if there is one.
    pub open spec fn spec_parse(raw: Seq<char>) -> Option<ToolInvocationState> {
        if raw == "requested"@ {
            Some(ToolInvocationState::Requested)
        } else if raw == "started"@ {
            Some(ToolInvocationState::Started)
        } else if raw == "completed"@ {
            Some(ToolInvocationState::Completed)
        } else if raw == "failed"@ {
            Some(ToolInvocationState::Failed)
        } else if raw == "canceled"@ {
            Some(ToolInvocationState::Canceled)
        } else {
            None
        }
    }

    /// The value with a stored name, if there is one.
    pub fn parse(raw: &str) -> (r: Option<ToolInvocationState>)
        ensures
            r == ToolInvocationState::spec_parse(raw@),
    {
        if same_text(raw, "requested") {
            Some(ToolInvocationState::Requested)
        } else if same_text(raw, "started") {
            Some(ToolInvocationState::Started)
        } else if same_text(raw, "completed") {
            Some(ToolInvocationState::Completed)
        } else if same_text(raw, "failed") {
            Some(ToolInvocationState::Failed)
        } else if same_text(raw, "canceled") {
            Some(ToolInvocationState::Canceled)
        } else {
            None
        }
    }
}

/// A name is read back as the value it was written for, and no other name is.
pub proof fn tool_invocation_state_names_are_inverse(value: ToolInvocationState, raw: Seq<char>)
    ensures
        ToolInvocationState::spec_parse(value.spec_name()) == Some(value),
        ToolInvocationState::spec_parse(raw) == Some(value) <==> raw == value.spec_name(),
{
    reveal_strlit("requested");
    reveal_strlit("started");
    reveal_strlit("completed");
    reveal_strlit("failed");
    reveal_strlit("canceled");
    assert("requested"@.len() == 9);
    assert("started"@.len() == 7);
    assert("completed"@.len() == 9);
    assert("failed"@.len() == 6);
    assert("canceled"@.len() == 8);
    assert("requested"@[0] != "completed"@[0]);
}

/// How a tool invocation ended.
#[derive(Clone, Copy, Debug, PartialEq, Eq, Structural)]
pub enum ToolInvocationOutcomeKind {
    Success,
    RetryableFailure,
    PermanentFailure,
    Timeout,
    Canceled,
    ProtocolViolation,
}

impl ToolInvocationOutcomeKind {
    /// The name that is stored.
    pub open spec fn spec_name(self) -> Seq<char> {
        match self {
            ToolInvocationOutcomeKind::Success => "success"@,
            ToolInvocationOutcomeKind::RetryableFailure => "retryable_failure"@,
            ToolInvocationOutcomeKind::PermanentFailure => "permanent_failure"@,
            ToolInvocationOutcomeKind::Timeout => "timeout"@,
            ToolInvocationOutcomeKind::Canceled => "canceled"@,
            ToolInvocationOutcomeKind::ProtocolViolation => "protocol_violation"@,
        }
    }

    /// The name that is stored.
    pub fn name(self) -> (r: &'static str)
        ensures
            r@ == self.spec_name(),
    {
        match self {
            ToolInvocationOutcomeKind::Success => "success",
            ToolInvocationOutcomeKind::RetryableFailure => "retryable_failure",
            ToolInvocationOutcomeKind::PermanentFailure => "permanent_failure",
            ToolInvocationOutcomeKind::Timeout => "timeout",
            ToolInvocationOutcomeKind::Canceled => "canceled",
            ToolInvocationOutcomeKind::ProtocolViolation => "protocol_violation",
        }
    }

    /// The value with a stored name, if there is one.
    pub open spec fn spec_parse(raw: Seq<char>) -> Option<ToolInvocationOutcomeKind> {
        if raw == "success"@ {
            Some(ToolInvocationOutcomeKind::Success)
        } else if raw == "retryable_failure"@ {
            Some(ToolInvocationOutcomeKind::RetryableFailure)
        } else if raw == "permanent_failure"@ {
            Some(ToolInvocationOutcomeKind::PermanentFailure)
        } else if raw == "timeout"@ {
            Some(ToolInvocationOutcomeKind::Timeout)
        } else if raw == "canceled"@ {
            Some(ToolInvocationOutcomeKind::Canceled)
        } else if raw == "protocol_violation"@ {
            Some(ToolInvocationOutcomeKind::ProtocolViolation)
        } else {
            None
        }
    }

    /// The value with a stored name, if there is one.
    pub fn parse(raw: &str) -> (r: Option<ToolInvocationOutcomeKind>)
        ensures
            r == ToolInvocationOutcomeKind::spec_parse(raw@),
    {
        if same_text(raw, "success") {
            Some(ToolInvocationOutcomeKind::Success)
        } else if same_text(raw, "retryable_failure") {
            Some(ToolInvocationOutcomeKind::RetryableFailure)
        } else if same_text(raw, "permanent_failure") {
            Some(ToolInvocationOutcomeKind::PermanentFailure)
        } else if same_text(raw, "timeout") {
            Some(ToolInvocationOutcomeKind::Timeout)
        } else if same_text(raw, "canceled") {
            Some(ToolInvocationOutcomeKind::Canceled)
        } else if same_text(raw, "protocol_violation") {
            Some(ToolInvocationOutcomeKind::ProtocolViolation)
        } else {
            None
        }
    }
}

/// A name is read back as the value it was written for, and no other name is.
pub proof fn tool_invocation_outcome_kind_names_are_inverse(
    value: ToolInvocationOutcomeKind,
    raw: Seq<char>,
)
    ensures
        ToolInvocationOutcomeKind::spec_parse(value.spec_name()) == Some(value),
        ToolInvocationOutcomeKind::spec_parse(raw) == Some(value) <==> raw == value.spec_name(),
{
    reveal_strlit("success");
    reveal_strlit("retryable_failure");
    reveal_strlit("permanent_failure");
    reveal_strlit("timeout");
    reveal_strlit("canceled");
    reveal_strlit("protocol_violation");
    assert("success"@.len() == 7);
    assert("retryable_failure"@.len() == 17);
    assert("permanent_failure"@.len() == 17);
    assert("timeout"@.len() == 7);
    assert("canceled"@.len() == 8);
    assert("protocol_violation"@.len() == 18);
    assert("success"@[0] != "timeout"@[0]);
    assert("retryable_failure"@[0] != "permanent_failure"@[0]);
}

impl ToolInvocationOutcomeKind {
    /// The state that an invocation with this outcome ends in.
    pub open spec fn spec_terminal_state(self) -> ToolInvocationState {
        match self {
            ToolInvocationOutcomeKind::Success => ToolInvocationState::Completed,
            ToolInvocationOutcomeKind::Canceled => ToolInvocationState::Canceled,
            _ => ToolInvocationState::Failed,
        }
    }

    /// The state that an invocation with this outcome ends in.
    pub fn terminal_state(self) -> (r: ToolInvocationState)
        ensures
            r == self.spec_terminal_state(),
    {
        match self {
            ToolInvocationOutcomeKind::Success => ToolInvocationState::Completed,
            ToolInvocationOutcomeKind::Canceled => ToolInvocationState::Canceled,
            _ => ToolInvocationState::Failed,
        }
    }
}

} // verus!
