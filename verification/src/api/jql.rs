//! JQL parameter shapes, as plain data.

use vstd::prelude::*;

verus! {

/// Parameters for parsing and validating JQL queries.
#[derive(Debug)]
pub struct ParseJqlQueryParams {
    /// The queries to parse.
    pub queries: Vec<String>,
}

/// Parameters for a JQL search.
#[derive(Debug)]
pub struct SearchParams {
    /// JQL query.
    pub jql: String,
    /// Fields to return for each issue.
    pub fields: Option<Vec<String>>,
    /// Expand options, comma-separated.
    pub expand: Option<String>,
    /// Maximum results per page.
    pub max_results: Option<i32>,
    /// Starting index for pagination.
    pub start_at: Option<i64>,
    /// Whether to return fields by key instead of identifier.
    pub fields_by_keys: Option<bool>,
    /// Properties to return for each issue.
    pub properties: Option<Vec<String>>,
    /// Whether to validate the query before executing it.
    pub validate_query: Option<bool>,
}

} // verus!
