//! Agile request and response shapes, as plain data.

use vstd::prelude::*;

verus! {

/// Parameters for moving issues to a sprint or to the backlog.
#[derive(Debug)]
pub struct AgileMoveIssuesParams {
    /// Destination: `sprint` or `backlog`.
    pub destination: String,
    /// Destination sprint, required when the destination is a sprint.
    pub destination_id: Option<i64>,
    /// Issue keys or IDs to move.
    pub issues: Vec<String>,
}

/// Parameters for analysing a sprint.
#[derive(Debug)]
pub struct AgileSprintAnalyzeParams {
    /// Sprint to analyse; omitted to analyse the active sprint.
    pub sprint_id: Option<i64>,
    /// Board, required when the sprint is omitted.
    pub board_id: Option<i64>,
    /// Metrics to include.
    pub metrics: Option<Vec<String>>,
}

/// One agile board.
#[derive(Debug)]
pub struct Board {
    pub id: i64,
    pub self_link: String,
    pub name: String,
    pub board_type: String,
}

/// One page of boards.
#[derive(Debug)]
pub struct PageBeanBoard {
    pub max_results: i32,
    pub start_at: i64,
    pub total: Option<i64>,
    pub is_last: bool,
    pub values: Vec<Board>,
}

/// One sprint.
#[derive(Debug)]
pub struct Sprint {
    pub id: i64,
    pub self_link: String,
    pub state: String,
    pub name: String,
    pub start_date: Option<String>,
    pub end_date: Option<String>,
    pub complete_date: Option<String>,
    pub origin_board_id: Option<i64>,
    pub goal: Option<String>,
}

/// One page of sprints.
#[derive(Debug)]
pub struct PageBeanSprint {
    pub max_results: i32,
    pub start_at: i64,
    pub total: Option<i64>,
    pub is_last: bool,
    pub values: Vec<Sprint>,
}

} // verus!
