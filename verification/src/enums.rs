//! Closed domain enums: the portable vocabulary callers use in place of
//! tenant-specific identifiers, together with their canonical names.

use vstd::prelude::*;
use vstd::string::StringExecFns;
use crate::model::StatusCategoryKey;
use crate::text::ci_equal;
use crate::text::eq_ignore_case;

verus! {

/// Portable issue-type labels.
#[derive(Clone, Copy, Debug, PartialEq, Eq, Structural)]
pub enum IssueType {
    Epic,
    Story,
    Subtask,
    Task,
    Feature,
    Request,
    Bug,
}

/// Canonical label of an [`IssueType`].
pub open spec fn spec_issue_type_name(t: IssueType) -> Seq<char> {
    match t {
        IssueType::Story => "Story"@,
        IssueType::Bug => "Bug"@,
        IssueType::Epic => "Epic"@,
        IssueType::Task => "Task"@,
        IssueType::Subtask => "Subtask"@,
        IssueType::Feature => "Feature"@,
        IssueType::Request => "Request"@,
    }
}

impl IssueType {
    /// The canonical English label of this issue type.
    pub fn name(&self) -> (r: &'static str)
        ensures
            r@ == spec_issue_type_name(*self),
    {
        match self {
            IssueType::Story => "Story",
            IssueType::Bug => "Bug",
            IssueType::Epic => "Epic",
            IssueType::Task => "Task",
            IssueType::Subtask => "Subtask",
            IssueType::Feature => "Feature",
            IssueType::Request => "Request",
        }
    }
}

/// Portable priority labels.
#[derive(Clone, Copy, Debug, PartialEq, Eq, Structural)]
pub enum Priority {
    Highest,
    High,
    Medium,
    Low,
    Lowest,
}

/// Canonical label of a [`Priority`].
pub open spec fn spec_priority_name(p: Priority) -> Seq<char> {
    match p {
        Priority::Highest => "Highest"@,
        Priority::High => "High"@,
        Priority::Medium => "Medium"@,
        Priority::Low => "Low"@,
        Priority::Lowest => "Lowest"@,
    }
}

impl Priority {
    /// The canonical label of this priority.
    pub fn name(&self) -> (r: &'static str)
        ensures
            r@ == spec_priority_name(*self),
    {
        match self {
            Priority::Highest => "Highest",
            Priority::High => "High",
            Priority::Medium => "Medium",
            Priority::Low => "Low",
            Priority::Lowest => "Lowest",
        }
    }
}

/// The closed set of target statuses a caller may ask for.  Statuses are
/// nouns; the transitions that reach them are verbs, which is why resolving
/// one into a transition identifier needs a fallback chain.
#[derive(Clone, Copy, Debug, PartialEq, Eq, Structural)]
pub enum Status {
    ToDo,
    InProgress,
    Done,
    InReview,
    Blocked,
    Cancelled,
}

/// Canonical display name of a [`Status`].
pub open spec fn spec_status_name(s: Status) -> Seq<char> {
    match s {
        Status::ToDo => "To Do"@,
        Status::InProgress => "In Progress"@,
        Status::Done => "Done"@,
        Status::InReview => "In Review"@,
        Status::Blocked => "Blocked"@,
        Status::Cancelled => "Cancelled"@,
    }
}

/// The category bucket a [`Status`] collapses onto.  Deliberately coarse:
/// the status-category taxonomy itself only has three buckets, so several
/// logically distinct statuses share `Indeterminate`.
pub open spec fn spec_status_category(s: Status) -> StatusCategoryKey {
    match s {
        Status::ToDo => StatusCategoryKey::New,
        Status::InProgress => StatusCategoryKey::Indeterminate,
        Status::InReview => StatusCategoryKey::Indeterminate,
        Status::Blocked => StatusCategoryKey::Indeterminate,
        Status::Done => StatusCategoryKey::Done,
        Status::Cancelled => StatusCategoryKey::Done,
    }
}

/// The status a name denotes, compared case-insensitively against each
/// canonical name in turn.
pub open spec fn spec_parse_status(s: Seq<char>) -> Option<Status> {
    if ci_equal(s, "To Do"@) {
        Some(Status::ToDo)
    } else if ci_equal(s, "In Progress"@) {
        Some(Status::InProgress)
    } else if ci_equal(s, "Done"@) {
        Some(Status::Done)
    } else if ci_equal(s, "In Review"@) {
        Some(Status::InReview)
    } else if ci_equal(s, "Blocked"@) {
        Some(Status::Blocked)
    } else if ci_equal(s, "Cancelled"@) {
        Some(Status::Cancelled)
    } else {
        None
    }
}

impl Status {
    /// The canonical display name of this status.
    pub fn name(&self) -> (r: &'static str)
        ensures
            r@ == spec_status_name(*self),
    {
        match self {
            Status::ToDo => "To Do",
            Status::InProgress => "In Progress",
            Status::Done => "Done",
            Status::InReview => "In Review",
            Status::Blocked => "Blocked",
            Status::Cancelled => "Cancelled",
        }
    }

    /// Reads a status off its canonical name, in any case.
    pub fn parse(s: &str) -> (r: Option<Status>)
        ensures
            r == spec_parse_status(s@),
    {
        if eq_ignore_case(s, "To Do") {
            Some(Status::ToDo)
        } else if eq_ignore_case(s, "In Progress") {
            Some(Status::InProgress)
        } else if eq_ignore_case(s, "Done") {
            Some(Status::Done)
        } else if eq_ignore_case(s, "In Review") {
            Some(Status::InReview)
        } else if eq_ignore_case(s, "Blocked") {
            Some(Status::Blocked)
        } else if eq_ignore_case(s, "Cancelled") {
            Some(Status::Cancelled)
        } else {
            None
        }
    }

    /// The category bucket used by the last resolution pass.
    pub fn category(&self) -> (r: StatusCategoryKey)
        ensures
            r == spec_status_category(*self),
    {
        match self {
            Status::ToDo => StatusCategoryKey::New,
            Status::InProgress => StatusCategoryKey::Indeterminate,
            Status::InReview => StatusCategoryKey::Indeterminate,
            Status::Blocked => StatusCategoryKey::Indeterminate,
            Status::Done => StatusCategoryKey::Done,
            Status::Cancelled => StatusCategoryKey::Done,
        }
    }
}

/// Portable issue-link labels.
#[derive(Clone, Copy, Debug, PartialEq, Eq, Structural)]
pub enum LinkType {
    Blocks,
    IsBlockedBy,
    Clones,
    Relates,
    Duplicates,
}

/// Canonical label of a [`LinkType`].
pub open spec fn spec_link_type_name(l: LinkType) -> Seq<char> {
    match l {
        LinkType::Blocks => "Blocks"@,
        LinkType::IsBlockedBy => "Is blocked by"@,
        LinkType::Clones => "Clones"@,
        LinkType::Relates => "Relates"@,
        LinkType::Duplicates => "Duplicates"@,
    }
}

impl LinkType {
    /// The canonical label of this link type.
    pub fn name(&self) -> (r: &'static str)
        ensures
            r@ == spec_link_type_name(*self),
    {
        match self {
            LinkType::Blocks => "Blocks",
            LinkType::IsBlockedBy => "Is blocked by",
            LinkType::Clones => "Clones",
            LinkType::Relates => "Relates",
            LinkType::Duplicates => "Duplicates",
        }
    }
}

/// Lifecycle states of a sprint.
#[derive(Clone, Copy, Debug, PartialEq, Eq, Structural)]
pub enum SprintState {
    Active,
    Future,
    Closed,
}

/// Wire name of a [`SprintState`].
pub open spec fn spec_sprint_state_name(s: SprintState) -> Seq<char> {
    match s {
        SprintState::Active => "active"@,
        SprintState::Future => "future"@,
        SprintState::Closed => "closed"@,
    }
}

impl SprintState {
    /// The lower-case wire name of this sprint state.
    pub fn name(&self) -> (r: &'static str)
        ensures
            r@ == spec_sprint_state_name(*self),
    {
        match self {
            SprintState::Active => "active",
            SprintState::Future => "future",
            SprintState::Closed => "closed",
        }
    }
}

/// Field-filter presets that stand for common projections of an issue,
/// trading completeness for payload size.
#[derive(Clone, Copy, Debug, PartialEq, Eq, Structural)]
pub enum FieldPreset {
    /// Only identifiers: id, key.
    Minimal,
    /// Quick view: id, key, summary, status.
    Basic,
    /// The most common fields: basic plus assignee, priority and dates.
    Standard,
    /// Detailed view: standard plus description, labels, components, links.
    Detailed,
    /// No filtering.
    Full,
}

/// The comma-separated field list a [`FieldPreset`] expands to.
pub open spec fn spec_preset_field_list(p: FieldPreset) -> Seq<char> {
    match p {
        FieldPreset::Minimal => "id,key"@,
        FieldPreset::Basic => "id,key,summary,status"@,
        FieldPreset::Standard => "id,key,summary,status,assignee,priority,created,updated"@,
        FieldPreset::Detailed => (
        "id,key,summary,status,assignee,priority,created,updated,description,labels,components,issuelinks"@
        ),
        FieldPreset::Full => "*all"@,
    }
}

/// Lower-case name under which a [`FieldPreset`] is requested.
pub open spec fn spec_preset_name(p: FieldPreset) -> Seq<char> {
    match p {
        FieldPreset::Minimal => "minimal"@,
        FieldPreset::Basic => "basic"@,
        FieldPreset::Standard => "standard"@,
        FieldPreset::Detailed => "detailed"@,
        FieldPreset::Full => "full"@,
    }
}

impl FieldPreset {
    /// Expands the preset to the comma-separated field list of the API.
    pub fn to_field_list(&self) -> (r: String)
        ensures
            r@ == spec_preset_field_list(*self),
    {
        match self {
            FieldPreset::Minimal => String::from_str("id,key"),
            FieldPreset::Basic => String::from_str("id,key,summary,status"),
            FieldPreset::Standard => String::from_str(
                "id,key,summary,status,assignee,priority,created,updated",
            ),
            FieldPreset::Detailed => String::from_str(
                "id,key,summary,status,assignee,priority,created,updated,description,labels,components,issuelinks",
            ),
            FieldPreset::Full => String::from_str("*all"),
        }
    }

    /// The lower-case name under which this preset is requested.
    pub fn name(&self) -> (r: &'static str)
        ensures
            r@ == spec_preset_name(*self),
    {
        match self {
            FieldPreset::Minimal => "minimal",
            FieldPreset::Basic => "basic",
            FieldPreset::Standard => "standard",
            FieldPreset::Detailed => "detailed",
            FieldPreset::Full => "full",
        }
    }
}

} // verus!
