//! Content-management parameter shapes, as plain data.

use vstd::prelude::*;

verus! {

/// Parameters for social interactions with an issue.
#[derive(Debug)]
pub struct IssueSocialParams {
    /// Action: `watch`, `unwatch` or `vote`.
    pub action: String,
    /// Issue ID or key.
    pub issue_id_or_key: String,
    /// Account identifier, required for watching and unwatching.
    pub account_id: Option<String>,
}

/// A visibility restriction on a comment or worklog.
#[derive(Debug)]
pub struct Visibility {
    /// The kind of restriction.
    pub restriction_type: String,
    /// The restricting group or role.
    pub value: String,
}

} // verus!
