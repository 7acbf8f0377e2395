//! Watcher and vote parameter shapes, as plain data.

use vstd::prelude::*;

verus! {

/// Parameters for adding a watcher.
#[derive(Debug)]
pub struct AddWatcherParams {
    /// Issue ID or key.
    pub issue_id_or_key: String,
    /// Account identifier of the watcher to add.
    pub account_id: String,
}

/// Parameters for removing a watcher.
#[derive(Debug)]
pub struct DeleteWatcherParams {
    /// Issue ID or key.
    pub issue_id_or_key: String,
    /// Account identifier of the watcher to remove.
    pub account_id: Option<String>,
}

/// Parameters for issue actions that need nothing but the issue.
#[derive(Debug)]
pub struct IssueSocialParams {
    /// Issue ID or key.
    pub issue_id_or_key: String,
}

} // verus!
