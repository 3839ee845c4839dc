//! Identifiers and keys.

use vstd::prelude::*;

verus! {

/// A project within a workspace of a tenant.
#[derive(Debug, PartialEq, Eq)]
pub struct ProjectKey {
    pub tenant_id: String,
    pub workspace_id: String,
    pub project_id: String,
}

/// The mathematical value of a [`ProjectKey`].
pub struct ProjectView {
    pub tenant_id: Seq<char>,
    pub workspace_id: Seq<char>,
    pub project_id: Seq<char>,
}

impl View for ProjectKey {
    type V = ProjectView;

    open spec fn view(&self) -> ProjectView {
        ProjectView {
            tenant_id: self.tenant_id@,
            workspace_id: self.workspace_id@,
            project_id: self.project_id@,
        }
    }
}

impl ProjectKey {
    /// The key with the given parts.
    pub fn new(tenant_id: &str, workspace_id: &str, project_id: &str) -> (r: Self)
        ensures
            r@ == (ProjectView {
                tenant_id: tenant_id@,
                workspace_id: workspace_id@,
                project_id: project_id@,
            }),
    {
        ProjectKey {
            tenant_id: tenant_id.to_owned(),
            workspace_id: workspace_id.to_owned(),
            project_id: project_id.to_owned(),
        }
    }

    /// Whether the two keys name the same project.
    pub fn same(&self, other: &ProjectKey) -> (r: bool)
        ensures
            r == (self@ == other@),
    {
        self.tenant_id == other.tenant_id && self.workspace_id == other.workspace_id
            && self.project_id == other.project_id
    }
}

impl Clone for ProjectKey {
    fn clone(&self) -> (r: Self)
        ensures
            r@ == self@,
    {
        ProjectKey {
            tenant_id: self.tenant_id.clone(),
            workspace_id: self.workspace_id.clone(),
            project_id: self.project_id.clone(),
        }
    }
}

/// The names that the domain gives to states and kinds, in the order in which it
/// lists them.
#[derive(Debug, PartialEq, Eq)]
pub struct DomainNames {
    pub session_states: Vec<String>,
    pub run_states: Vec<String>,
    pub task_states: Vec<String>,
    pub failure_classes: Vec<String>,
    pub approval_requirements: Vec<String>,
    pub approval_decisions: Vec<String>,
    pub checkpoint_dispositions: Vec<String>,
    pub execution_classes: Vec<String>,
    pub invocation_states: Vec<String>,
    pub invocation_outcomes: Vec<String>,
    pub tenant_roles: Vec<String>,
    pub workspace_statuses: Vec<String>,
}

} // verus!
