//! Project shapes, as plain data.

use vstd::prelude::*;

verus! {

/// Parameters for querying project resources.
#[derive(Debug)]
pub struct ProjectQueryParams {
    /// Resource: `project`, `versions`, `components`, `roles` or
    /// `issueTypes`.
    pub resource: String,
    /// Project key or ID, required for the scoped resources.
    pub project_key: Option<String>,
    /// Starting index for pagination.
    pub start_at: Option<i64>,
    /// Maximum results per page.
    pub max_results: Option<i32>,
    /// Expand options.
    pub expand: Option<String>,
}

/// One project.
#[derive(Debug)]
pub struct Project {
    pub id: String,
    pub key: String,
    pub name: String,
    pub self_link: String,
    pub description: Option<String>,
    pub lead: Option<ProjectUser>,
    pub project_type_key: Option<String>,
    pub avatar_urls: Option<AvatarUrls>,
    pub style: Option<String>,
}

/// A user in a project context.
#[derive(Debug)]
pub struct ProjectUser {
    pub account_id: String,
    pub display_name: Option<String>,
    pub active: Option<bool>,
}

/// Avatar image links, by size.
#[derive(Debug)]
pub struct AvatarUrls {
    pub size_48: Option<String>,
    pub size_24: Option<String>,
    pub size_16: Option<String>,
    pub size_32: Option<String>,
}

/// One page of projects.
#[derive(Debug)]
pub struct ProjectsPage {
    pub start_at: i64,
    pub max_results: i32,
    pub total: i64,
    pub values: Vec<Project>,
}

/// One project version.
#[derive(Debug)]
pub struct Version {
    pub id: String,
    pub self_link: String,
    pub name: String,
    pub description: Option<String>,
    pub archived: Option<bool>,
    pub released: Option<bool>,
    pub start_date: Option<String>,
    pub release_date: Option<String>,
    pub overdue: Option<bool>,
    pub user_start_date: Option<String>,
    pub user_release_date: Option<String>,
    pub project_id: Option<i64>,
}

/// One project component.
#[derive(Debug)]
pub struct Component {
    pub id: String,
    pub self_link: String,
    pub name: String,
    pub description: Option<String>,
    pub lead: Option<ProjectUser>,
    pub assignee_type: Option<String>,
    pub assignee: Option<ProjectUser>,
    pub project: Option<String>,
    pub project_id: Option<i64>,
}

/// One project role.
#[derive(Debug)]
pub struct ProjectRole {
    pub id: i64,
    pub self_link: String,
    pub name: String,
    pub description: Option<String>,
    pub actors: Option<Vec<RoleActor>>,
}

/// One actor of a project role.
#[derive(Debug)]
pub struct RoleActor {
    pub id: i64,
    pub display_name: String,
    pub actor_type: String,
    pub actor_user: Option<ProjectUser>,
}

} // verus!
