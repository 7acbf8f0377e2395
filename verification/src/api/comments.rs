//! Comment parameter shapes, as plain data.

use vstd::prelude::*;

verus! {

/// A visibility restriction on a comment.
#[derive(Debug)]
pub struct Visibility {
    /// The kind of restriction.
    pub restriction_type: String,
    /// The restricting group or role.
    pub value: String,
    /// The identifier of the group or role.
    pub identifier: Option<String>,
}

/// Parameters for deleting a comment.
#[derive(Debug)]
pub struct DeleteCommentParams {
    /// Issue ID or key.
    pub issue_id_or_key: String,
    /// Comment ID.
    pub comment_id: String,
}

/// Parameters for listing comments.
#[derive(Debug)]
pub struct GetCommentsParams {
    /// Issue ID or key.
    pub issue_id_or_key: String,
    /// Starting index for pagination.
    pub start_at: Option<i64>,
    /// Maximum results per page.
    pub max_results: Option<i32>,
    /// Ordering of the results.
    pub order_by: Option<String>,
    /// Expand options.
    pub expand: Option<String>,
}

} // verus!
