//! Issue metadata shapes — priorities, resolutions, labels — as plain data.

use vstd::prelude::*;

verus! {

/// One issue priority.
#[derive(Debug)]
pub struct Priority {
    pub id: String,
    pub name: String,
    pub description: Option<String>,
    pub icon_url: Option<String>,
    pub status_color: Option<String>,
    pub is_default: Option<bool>,
    pub self_link: Option<String>,
}

/// One issue resolution.
#[derive(Debug)]
pub struct Resolution {
    pub id: String,
    pub name: String,
    pub description: Option<String>,
    pub is_default: Option<bool>,
    pub self_link: Option<String>,
}

/// Parameters for listing labels.
#[derive(Debug)]
pub struct GetLabelsParams {
    /// Starting index for pagination.
    pub start_at: Option<i64>,
    /// Maximum results per page.
    pub max_results: Option<i32>,
}

/// One page of plain strings.
#[derive(Debug)]
pub struct PageBeanString {
    pub is_last: bool,
    pub max_results: i32,
    pub start_at: i64,
    pub total: i64,
    pub values: Vec<String>,
}

/// Parameters for searching priorities.
#[derive(Debug)]
pub struct SearchPrioritiesParams {
    pub start_at: Option<i64>,
    pub max_results: Option<i32>,
    pub id: Option<Vec<String>>,
    pub project_id: Option<Vec<String>>,
    pub priority_name: Option<String>,
    pub only_default: Option<bool>,
    pub expand: Option<String>,
}

/// One page of priorities.
#[derive(Debug)]
pub struct PageBeanPriority {
    pub is_last: bool,
    pub max_results: i32,
    pub start_at: i64,
    pub total: i64,
    pub values: Vec<Priority>,
}

/// Parameters for searching resolutions.
#[derive(Debug)]
pub struct SearchResolutionsParams {
    pub start_at: Option<i64>,
    pub max_results: Option<i32>,
    pub id: Option<Vec<String>>,
    pub only_default: Option<bool>,
}

/// One page of resolutions.
#[derive(Debug)]
pub struct PageBeanResolution {
    pub is_last: bool,
    pub max_results: i32,
    pub start_at: i64,
    pub total: i64,
    pub values: Vec<Resolution>,
}

} // verus!
