//! Field detail shapes, as plain data.

use vstd::prelude::*;

verus! {

/// Details of one field.
#[derive(Debug)]
pub struct Field {
    /// Field identifier.
    pub id: String,
    /// Field name.
    pub name: String,
    /// Field description.
    pub description: Option<String>,
    /// Whether the field is a custom field.
    pub custom: Option<bool>,
    /// Whether the field is searchable.
    pub searchable: Option<bool>,
    /// Whether the field is sortable.
    pub sortable: Option<bool>,
    /// Names usable for the field in JQL.
    pub clause_names: Option<Vec<String>>,
    /// The field's schema.
    pub schema: Option<FieldSchema>,
}

/// The schema of one field.
#[derive(Debug)]
pub struct FieldSchema {
    /// The data type of the field.
    pub data_type: String,
    /// The custom field type URI, for custom fields.
    pub custom: Option<String>,
    /// The custom field identifier, for custom fields.
    pub custom_id: Option<i64>,
    /// The item type, for list fields.
    pub items: Option<String>,
    /// The system field name, for system fields.
    pub system: Option<String>,
}

} // verus!
