//! Data model of the resolution layer.
//!
//! Every entity here is ephemeral: fetched fresh from the metadata gateway
//! for one resolution call, never mutated, and carrying no resolver-owned
//! cache.  The descriptors hold exactly what the matching rules read, as
//! plain values.

use vstd::prelude::*;
use crate::text::str_eq;

verus! {

/// One entry of the tenant-wide field catalog (or of an issue's edit screen).
#[derive(Debug)]
pub struct FieldDescriptor {
    /// Tenant-specific field identifier, e.g. `customfield_10020`.
    pub id: String,
    /// Human-readable display name the matching runs against.
    pub display_name: String,
    /// Whether the field is a custom field rather than a system one.
    pub is_custom: bool,
}

impl Clone for FieldDescriptor {
    fn clone(&self) -> (r: Self)
        ensures
            r == *self,
    {
        FieldDescriptor {
            id: self.id.clone(),
            display_name: self.display_name.clone(),
            is_custom: self.is_custom,
        }
    }
}

/// One issue type of one project's createmeta catalog.
#[derive(Debug)]
pub struct IssueTypeDescriptor {
    /// Tenant-specific issue-type identifier.
    pub id: String,
    /// Display name, possibly localised by the tenant.
    pub name: String,
    /// Canonical (untranslated) name; lets callers use the English label
    /// against tenants with localised display names.
    pub untranslated_name: String,
    /// Whether issues of this type are subtasks (callers use this to decide
    /// whether a parent link is mandatory).
    pub is_subtask: bool,
}

impl Clone for IssueTypeDescriptor {
    fn clone(&self) -> (r: Self)
        ensures
            r == *self,
    {
        IssueTypeDescriptor {
            id: self.id.clone(),
            name: self.name.clone(),
            untranslated_name: self.untranslated_name.clone(),
            is_subtask: self.is_subtask,
        }
    }
}

/// The three coarse buckets every workflow status maps onto; the last-resort
/// equivalence class during transition resolution.
#[derive(Clone, Copy, Debug, PartialEq, Eq, Structural)]
pub enum StatusCategoryKey {
    New,
    Indeterminate,
    Done,
}

/// The wire name of a [`StatusCategoryKey`].
pub open spec fn spec_status_category_key_name(k: StatusCategoryKey) -> Seq<char> {
    match k {
        StatusCategoryKey::New => "new"@,
        StatusCategoryKey::Indeterminate => "indeterminate"@,
        StatusCategoryKey::Done => "done"@,
    }
}

/// The category bucket a wire name stands for: exactly `new`,
/// `indeterminate` or `done`, and nothing else.
pub open spec fn spec_parse_status_category_key(s: Seq<char>) -> Option<StatusCategoryKey> {
    if s == "new"@ {
        Some(StatusCategoryKey::New)
    } else if s == "indeterminate"@ {
        Some(StatusCategoryKey::Indeterminate)
    } else if s == "done"@ {
        Some(StatusCategoryKey::Done)
    } else {
        None
    }
}

impl StatusCategoryKey {
    /// Reads a category bucket off its exact wire name.
    pub fn parse(s: &str) -> (r: Option<StatusCategoryKey>)
        ensures
            r == spec_parse_status_category_key(s@),
    {
        if str_eq(s, "new") {
            Some(StatusCategoryKey::New)
        } else if str_eq(s, "indeterminate") {
            Some(StatusCategoryKey::Indeterminate)
        } else if str_eq(s, "done") {
            Some(StatusCategoryKey::Done)
        } else {
            None
        }
    }

    /// The exact wire name of this bucket.
    pub fn name(&self) -> (r: &'static str)
        ensures
            r@ == spec_status_category_key_name(*self),
    {
        match self {
            StatusCategoryKey::New => "new",
            StatusCategoryKey::Indeterminate => "indeterminate",
            StatusCategoryKey::Done => "done",
        }
    }
}

/// One workflow action currently available on an issue.
#[derive(Debug)]
pub struct TransitionDescriptor {
    /// Transition identifier to execute.
    pub id: String,
    /// Action name (a verb, e.g. "Start Progress").
    pub name: String,
    /// Name of the destination status (a noun, e.g. "In Progress").
    pub target_status_name: String,
    /// Category bucket of the destination status.
    pub target_status_category: StatusCategoryKey,
}

impl Clone for TransitionDescriptor {
    fn clone(&self) -> (r: Self)
        ensures
            r == *self,
    {
        TransitionDescriptor {
            id: self.id.clone(),
            name: self.name.clone(),
            target_status_name: self.target_status_name.clone(),
            target_status_category: self.target_status_category,
        }
    }
}

/// How a resolution succeeded.  Diagnostic, not behavioural, but preserved
/// for error messages and tests.
#[derive(Clone, Copy, Debug, PartialEq, Eq, Structural)]
pub enum MatchedVia {
    /// A candidate name (or the transition's own action name) matched.
    ExactCandidate,
    /// The transition's destination status name matched.
    TargetName,
    /// Only the destination status category matched.
    CategoryFallback,
}

/// A successful resolution: the tenant-specific identifier plus the pass
/// that produced it.
#[derive(Debug)]
pub struct ResolutionResult {
    pub identifier: String,
    pub matched_via: MatchedVia,
}

impl Clone for ResolutionResult {
    fn clone(&self) -> (r: Self)
        ensures
            r == *self,
    {
        ResolutionResult { identifier: self.identifier.clone(), matched_via: self.matched_via }
    }
}

/// The issue types one project offers, as one entry of a createmeta fetch.
#[derive(Debug)]
pub struct ProjectIssueTypes {
    /// Exact project key, e.g. `PROJ`.
    pub project_key: String,
    /// Issue types of the project, in catalog order.
    pub issue_types: Vec<IssueTypeDescriptor>,
}

/// A resolved issue type: the identifier plus the subtask flag callers use
/// to decide whether a parent link is mandatory.
#[derive(Debug)]
pub struct ResolvedIssueType {
    pub id: String,
    pub is_subtask: bool,
}

impl Clone for ResolvedIssueType {
    fn clone(&self) -> (r: Self)
        ensures
            r == *self,
    {
        ResolvedIssueType { id: self.id.clone(), is_subtask: self.is_subtask }
    }
}

/// What kind of entity a lookup failed to find.
#[derive(Clone, Copy, Debug, PartialEq, Eq, Structural)]
pub enum NotFoundKind {
    Field,
    IssueType,
    Transition,
    Project,
}

/// The word a [`NotFoundKind`] is reported under.
pub open spec fn spec_not_found_label(k: NotFoundKind) -> Seq<char> {
    match k {
        NotFoundKind::Field => "field"@,
        NotFoundKind::IssueType => "issue type"@,
        NotFoundKind::Transition => "transition"@,
        NotFoundKind::Project => "project"@,
    }
}

impl NotFoundKind {
    /// The word this kind is reported under in diagnostics.
    pub fn label(&self) -> (r: &'static str)
        ensures
            r@ == spec_not_found_label(*self),
    {
        match self {
            NotFoundKind::Field => "field",
            NotFoundKind::IssueType => "issue type",
            NotFoundKind::Transition => "transition",
            NotFoundKind::Project => "project",
        }
    }
}

/// Resolution failure taxonomy.  `UpstreamUnavailable` stands for a failed
/// metadata fetch, propagated verbatim without retry; ambiguity (two catalog
/// entries with the same name) is deliberately not modelled — the first
/// match in catalog order wins.
#[derive(Clone, Copy, Debug, PartialEq, Eq, Structural)]
pub enum ResolutionError {
    NotFound(NotFoundKind),
    UpstreamUnavailable,
}

/// The phrase a [`ResolutionError`] is reported under.
pub open spec fn spec_resolution_error_label(e: ResolutionError) -> Seq<char> {
    match e {
        ResolutionError::NotFound(k) => spec_not_found_label(k),
        ResolutionError::UpstreamUnavailable => "upstream unavailable"@,
    }
}

impl ResolutionError {
    /// The phrase this failure is reported under in diagnostics.
    pub fn label(&self) -> (r: &'static str)
        ensures
            r@ == spec_resolution_error_label(*self),
    {
        match self {
            ResolutionError::NotFound(k) => k.label(),
            ResolutionError::UpstreamUnavailable => "upstream unavailable",
        }
    }
}

} // verus!
