//! Custom-field option shapes, as plain data.

use vstd::prelude::*;

verus! {

/// One selectable option of a custom field.
#[derive(Debug)]
pub struct CustomFieldOption {
    pub id: String,
    pub value: String,
    pub disabled: bool,
    pub option_id: Option<String>,
}

/// One page of custom-field options.
#[derive(Debug)]
pub struct PageBeanCustomFieldOption {
    pub is_last: bool,
    pub max_results: i32,
    pub start_at: i64,
    pub total: i64,
    pub values: Vec<CustomFieldOption>,
}

/// Parameters for listing a custom field's options.
#[derive(Debug)]
pub struct GetCustomFieldOptionsParams {
    pub field_id: String,
    pub context_id: i64,
    pub option_id: Option<i64>,
    pub only_options: Option<bool>,
    pub start_at: Option<i64>,
    pub max_results: Option<i32>,
}

} // verus!
