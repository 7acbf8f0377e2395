//! Metadata catalog shapes, as plain data.

use vstd::prelude::*;

verus! {

/// Parameters for fetching a metadata catalog.
#[derive(Debug)]
pub struct MetadataCatalogParams {
    /// Catalog type: `labels`, `priorities`, `resolutions`, `statuses` or
    /// `issueTypes`.
    pub catalog_type: String,
    /// Project key, for project-scoped catalogs.
    pub project_key: Option<String>,
    /// Starting index for pagination.
    pub start_at: Option<i64>,
    /// Maximum results per page.
    pub max_results: Option<i32>,
}

/// Parameters for discovering fields.
#[derive(Debug)]
pub struct FieldDiscoverParams {
    /// Scope: `global`, `project` or `issueType`.
    pub scope: String,
    /// Scope identifier: the project key or the issue type name.
    pub scope_id: Option<String>,
    /// Field-type filter: `custom` or `system`.
    pub field_type: Option<String>,
    /// Search term to filter field names.
    pub search_term: Option<String>,
    /// Whether to include field options.
    pub include_options: Option<bool>,
    /// Starting index for pagination.
    pub start_at: Option<i64>,
    /// Maximum results per page.
    pub max_results: Option<i32>,
}

/// One label.
#[derive(Debug)]
pub struct Label {
    pub label: String,
}

/// One page of labels.
#[derive(Debug)]
pub struct LabelsPage {
    pub start_at: i64,
    pub max_results: i32,
    pub total: i64,
    pub values: Vec<Label>,
}

/// One priority of the tenant-wide catalog.
#[derive(Debug)]
pub struct Priority {
    pub id: String,
    pub self_link: String,
    pub name: String,
    pub description: Option<String>,
    pub icon_url: Option<String>,
    pub status_color: Option<String>,
}

/// One resolution of the tenant-wide catalog.
#[derive(Debug)]
pub struct Resolution {
    pub id: String,
    pub self_link: String,
    pub name: String,
    pub description: Option<String>,
}

/// One workflow status of the tenant-wide catalog.
#[derive(Debug)]
pub struct Status {
    pub id: String,
    pub self_link: String,
    pub name: String,
    pub description: Option<String>,
    pub icon_url: Option<String>,
    pub status_category: Option<StatusCategory>,
}

/// The category a status belongs to, as the API reports it.
#[derive(Debug)]
pub struct StatusCategory {
    pub id: i64,
    pub key: String,
    pub name: String,
    pub color_name: Option<String>,
}

/// One issue type of the tenant-wide catalog.
#[derive(Debug)]
pub struct IssueType {
    pub id: String,
    pub self_link: String,
    pub name: String,
    pub description: Option<String>,
    pub icon_url: Option<String>,
    pub subtask: Option<bool>,
    pub avatar_id: Option<i64>,
}

/// One field of the tenant-wide catalog.
#[derive(Debug)]
pub struct Field {
    pub id: String,
    pub name: String,
    pub key: Option<String>,
    pub custom: Option<bool>,
    pub orderable: Option<bool>,
    pub navigable: Option<bool>,
    pub searchable: Option<bool>,
    pub clause_names: Option<Vec<String>>,
    pub schema: Option<FieldSchema>,
}

/// The schema of one catalog field.
#[derive(Debug)]
pub struct FieldSchema {
    pub schema_type: String,
    pub items: Option<String>,
    pub system: Option<String>,
    pub custom: Option<String>,
    pub custom_id: Option<i64>,
}

/// One page of fields.
#[derive(Debug)]
pub struct FieldsPage {
    pub start_at: i64,
    pub max_results: i32,
    pub total: i64,
    pub values: Vec<Field>,
}

} // verus!
