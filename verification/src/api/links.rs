//! Issue-link shapes, as plain data.

use vstd::prelude::*;

verus! {

/// An issue-link type by name and directions.
#[derive(Debug)]
pub struct IssueLinkType {
    pub name: Option<String>,
    pub inward: Option<String>,
    pub outward: Option<String>,
}

/// A reference to one end of an issue link.
#[derive(Debug)]
pub struct LinkIssueRef {
    pub key: Option<String>,
    pub id: Option<String>,
}

/// Parameters for creating an issue link.
#[derive(Debug)]
pub struct CreateIssueLinkParams {
    pub link_type: IssueLinkType,
    pub inward_issue: LinkIssueRef,
    pub outward_issue: LinkIssueRef,
}

/// Parameters for deleting an issue link.
#[derive(Debug)]
pub struct DeleteIssueLinkParams {
    pub link_id: String,
}

/// An issue-link type as the API reports it.
#[derive(Debug)]
pub struct IssueLinkTypeResponse {
    pub id: String,
    pub name: String,
    pub inward: String,
    pub outward: String,
    pub self_link: String,
}

} // verus!
