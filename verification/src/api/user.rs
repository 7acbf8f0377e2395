//! User shapes, as plain data.

use vstd::prelude::*;

verus! {

/// The groups a user belongs to.
#[derive(Debug)]
pub struct UserGroups {
    pub size: i32,
    pub items: Vec<UserGroup>,
}

/// One group of a user.
#[derive(Debug)]
pub struct UserGroup {
    pub name: String,
    pub self_link: Option<String>,
}

/// The application roles a user is assigned.
#[derive(Debug)]
pub struct UserApplicationRoles {
    pub size: i32,
    pub items: Vec<UserApplicationRole>,
}

/// One application role of a user.
#[derive(Debug)]
pub struct UserApplicationRole {
    pub key: String,
    pub name: String,
}

/// Parameters for searching users.
#[derive(Debug)]
pub struct SearchUsersParams {
    /// The search text.
    pub query: String,
    /// Starting index for pagination.
    pub start_at: Option<i32>,
    /// Maximum results per page.
    pub max_results: Option<i32>,
    /// Whether to include active users.
    pub include_active: Option<bool>,
    /// Whether to include inactive users.
    pub include_inactive: Option<bool>,
}

/// Parameters for fetching the current user.
#[derive(Debug)]
pub struct GetMyselfParams {
    /// Expand options: `groups` or `applicationRoles`.
    pub expand: Option<String>,
}

} // verus!
