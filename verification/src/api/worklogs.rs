//! Worklog parameter shapes, as plain data.

use vstd::prelude::*;

verus! {

/// Parameters for listing an issue's worklogs.
#[derive(Debug)]
pub struct GetWorklogsParams {
    /// Issue ID or key.
    pub issue_id_or_key: String,
    /// Starting index for pagination.
    pub start_at: Option<i64>,
    /// Maximum results per page.
    pub max_results: Option<i32>,
    /// Lower bound on the start time, in milliseconds since the epoch.
    pub started_after: Option<i64>,
    /// Upper bound on the start time, in milliseconds since the epoch.
    pub started_before: Option<i64>,
    /// Expand options.
    pub expand: Option<String>,
}

} // verus!
