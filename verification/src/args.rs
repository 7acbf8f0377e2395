//! Tool-facing argument types: the portable request shapes callers fill in
//! before any tenant-specific resolution has happened.  Plain data only.

use vstd::prelude::*;
use crate::enums::IssueType;
use crate::enums::LinkType;
use crate::enums::Priority;
use crate::enums::SprintState;
use crate::enums::Status;

verus! {

/// Arguments for ranking issues relative to one another.
#[derive(Debug)]
pub struct AgileRankIssuesArgs {
    /// Issue keys to rank.
    pub issue_keys: Vec<String>,
    /// Rank after this issue.
    pub after_issue_key: Option<String>,
    /// Rank before this issue.
    pub before_issue_key: Option<String>,
}

/// Arguments for fetching a board's backlog.
#[derive(Debug)]
pub struct BoardGetBacklogArgs {
    /// Board name to filter by.
    pub board_name: Option<String>,
    /// Project key to filter by.
    pub project_key: Option<String>,
}

/// Arguments for moving an issue to a target status.
#[derive(Debug)]
pub struct IssueUpdateStatusArgs {
    /// Issue ID or key.
    pub issue_key: String,
    /// Target status.
    pub status: Status,
}

/// Arguments for assigning an issue.
#[derive(Debug)]
pub struct IssueAssignArgs {
    /// Issue ID or key.
    pub issue_key: String,
    /// Assignee token: `me`, `unassigned`, or an account identifier.
    pub assignee: String,
}

/// Arguments for editing an issue's details.
#[derive(Debug)]
pub struct IssueEditDetailsArgs {
    /// Issue ID or key.
    pub issue_key: String,
    pub summary: Option<String>,
    pub description: Option<String>,
    pub issue_type: Option<IssueType>,
    pub priority: Option<Priority>,
    pub labels: Option<Vec<String>>,
    pub components: Option<Vec<String>>,
}

/// Arguments for commenting on an issue.
#[derive(Debug)]
pub struct IssueAddCommentArgs {
    /// Issue ID or key.
    pub issue_key: String,
    /// Comment text.
    pub comment: String,
}

/// Arguments for linking two issues.
#[derive(Debug)]
pub struct IssueLinkArgs {
    /// Source issue key.
    pub source_issue_key: String,
    /// Target issue key.
    pub target_issue_key: String,
    /// Link type.
    pub link_type: LinkType,
}

/// Arguments for logging work on an issue.
#[derive(Debug)]
pub struct IssueLogWorkArgs {
    /// Issue ID or key.
    pub issue_key: String,
    /// Time spent, e.g. `1h 30m`.
    pub time_spent: String,
    /// Started date (ISO 8601).
    pub started: Option<String>,
    /// Optional comment.
    pub comment: Option<String>,
}

/// Arguments for deleting an issue.
#[derive(Debug)]
pub struct IssueDeleteArgs {
    /// Issue ID or key.
    pub issue_key: String,
    /// Whether to delete subtasks too.
    pub delete_subtasks: Option<bool>,
}

/// Arguments for archiving issues.
#[derive(Debug)]
pub struct IssueArchiveArgs {
    /// Issue keys or IDs to archive.
    pub issue_keys: Vec<String>,
}

/// Arguments for unarchiving issues.
#[derive(Debug)]
pub struct IssueUnarchiveArgs {
    /// Issue keys or IDs to unarchive.
    pub issue_keys: Vec<String>,
}

/// Arguments for deleting a comment.
#[derive(Debug)]
pub struct IssueDeleteCommentArgs {
    /// Issue ID or key.
    pub issue_key: String,
    /// Comment ID.
    pub comment_id: String,
}

/// Arguments for deleting an issue link.
#[derive(Debug)]
pub struct IssueDeleteLinkArgs {
    /// Link ID.
    pub link_id: String,
}

/// Arguments for setting an issue's parent.
#[derive(Debug)]
pub struct IssueSetParentArgs {
    /// Issue key to link.
    pub issue_key: String,
    /// Parent issue key; the empty string removes the parent.
    pub parent_key: String,
}

/// Arguments for fetching one issue.
#[derive(Debug)]
pub struct IssueGetArgs {
    /// Issue ID or key.
    pub issue_key: String,
    /// Optional field filter: a preset name, a space- or comma-separated
    /// field list, or anything already in API form.
    pub filter: Option<String>,
}

/// A freshly created issue.
#[derive(Debug)]
pub struct CreatedIssue {
    pub id: String,
    pub key: String,
    pub self_link: String,
}

/// Arguments for listing fields.
#[derive(Debug)]
pub struct FieldsListArgs {
    /// Optional field-type filter: `system` or `custom`.
    pub field_type: Option<String>,
}

/// Arguments for searching issues.
#[derive(Debug)]
pub struct SearchIssuesArgs {
    /// Fuzzy search text.
    pub text: Option<String>,
    /// Raw JQL query.
    pub jql: Option<String>,
    /// Filter by status name.
    pub status: Option<String>,
    /// Filter by assignee token.
    pub assignee: Option<String>,
    /// Maximum results.
    pub limit: Option<i32>,
}

/// Arguments for listing a board's sprints.
#[derive(Debug)]
pub struct BoardGetSprintsArgs {
    /// Board name to filter by.
    pub board_name: Option<String>,
    /// Project key to filter by.
    pub project_key: Option<String>,
    /// Sprint state filter.
    pub state: Option<SprintState>,
}

/// Arguments for creating a sprint.
#[derive(Debug)]
pub struct SprintCreateArgs {
    /// Board the sprint belongs to.
    pub board_id: i64,
    /// Sprint name.
    pub name: String,
    /// Sprint goal.
    pub goal: Option<String>,
    /// Start date (ISO 8601).
    pub start_date: Option<String>,
    /// End date (ISO 8601).
    pub end_date: Option<String>,
}

/// Arguments for updating a sprint.
#[derive(Debug)]
pub struct SprintUpdateArgs {
    /// Sprint ID.
    pub sprint_id: i64,
    /// New name.
    pub name: Option<String>,
    /// New goal.
    pub goal: Option<String>,
    /// New state.
    pub state: Option<SprintState>,
    /// Start date, required when starting a sprint.
    pub start_date: Option<String>,
    /// End date, required when starting a sprint.
    pub end_date: Option<String>,
}

/// Arguments for adding issues to a sprint.
#[derive(Debug)]
pub struct SprintAddIssuesArgs {
    /// Sprint ID.
    pub sprint_id: i64,
    /// Issue keys to add.
    pub issue_keys: Vec<String>,
}

/// Arguments for deleting a sprint.
#[derive(Debug)]
pub struct SprintDeleteArgs {
    /// Sprint ID to delete.
    pub sprint_id: i64,
}

} // verus!
