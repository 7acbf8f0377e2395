//! Issue request and response shapes, as plain data.

use vstd::prelude::*;

verus! {

/// A reference by identifier or by name.
#[derive(Debug)]
pub struct IdOrName {
    pub id: Option<String>,
    pub name: Option<String>,
}

/// A reference to a user by account identifier.
#[derive(Debug)]
pub struct AccountId {
    pub account_id: String,
}

/// A reference by key.
#[derive(Debug)]
pub struct KeyObject {
    pub key: String,
}

/// Parameters for assigning an issue.
#[derive(Debug)]
pub struct IssueAssignParams {
    /// Issue ID or key.
    pub issue_id_or_key: String,
    /// Account identifier of the assignee.
    pub account_id: String,
}

/// Parameters for deleting an issue.
#[derive(Debug)]
pub struct IssueDeleteParams {
    /// Issue ID or key.
    pub issue_id_or_key: String,
    /// Whether to delete subtasks too.
    pub delete_subtasks: Option<bool>,
}

/// Parameters for listing the required fields of an issue type.
#[derive(Debug)]
pub struct IssueRequiredFieldsParams {
    /// Project key.
    pub project_key: String,
    /// Issue type name.
    pub issue_type_name: String,
}

/// Parameters for finding a field by its visible name.
#[derive(Debug)]
pub struct FieldSearchByNameParams {
    /// Visible name of the field.
    pub query: String,
}

/// Parameters for querying issues: one by key, or a JQL search.
#[derive(Debug)]
pub struct IssueQueryParams {
    /// Issue ID or key to fetch; omitted to search with JQL.
    pub issue_id_or_key: Option<String>,
    /// JQL query, used when the key is omitted.
    pub jql: Option<String>,
    /// Fields to return for each issue.
    pub fields: Option<Vec<String>>,
    /// Expand options, comma-separated.
    pub expand: Option<String>,
    /// Whether to include available transitions.
    pub include_transitions: Option<bool>,
    /// Maximum results for a search.
    pub max_results: Option<i32>,
    /// Starting index for pagination.
    pub start_at: Option<i64>,
    /// Properties to return.
    pub properties: Option<Vec<String>>,
}

/// Parameters for fetching creation metadata of a project.
#[derive(Debug)]
pub struct IssueMetadataParams {
    /// Project key or ID.
    pub project_key: String,
    /// Issue type name for type-specific metadata; omitted for all types.
    pub issue_type_name: Option<String>,
    /// Expand options.
    pub expand: Option<String>,
}

/// A freshly created issue.
#[derive(Debug)]
pub struct CreatedIssue {
    pub id: String,
    pub key: String,
    pub self_link: String,
}

} // verus!
