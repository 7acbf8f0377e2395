use jira_resolve::enums::FieldPreset;
use jira_resolve::filter::parse_field_filter;

#[test]
fn test_field_preset_minimal() {
    assert_eq!(FieldPreset::Minimal.to_field_list(), "id,key");
}

#[test]
fn test_field_preset_basic() {
    let fields = FieldPreset::Basic.to_field_list();
    assert!(fields.contains("summary"));
    assert!(fields.contains("status"));
}

#[test]
fn test_field_preset_standard() {
    let fields = FieldPreset::Standard.to_field_list();
    assert!(fields.contains("assignee"));
    assert!(fields.contains("priority"));
}

#[test]
fn preset_full_is_wildcard() {
    assert_eq!(FieldPreset::Full.to_field_list(), "*all");
    assert_eq!(FieldPreset::Detailed.to_field_list(),
        "id,key,summary,status,assignee,priority,created,updated,description,labels,components,issuelinks");
}

#[test]
fn filter_preset_names_expand_in_any_case() {
    assert_eq!(parse_field_filter("minimal"), "id,key");
    assert_eq!(parse_field_filter("MINIMAL"), "id,key");
    assert_eq!(parse_field_filter("  Basic  "), "id,key,summary,status");
    assert_eq!(
        parse_field_filter("standard"),
        "id,key,summary,status,assignee,priority,created,updated"
    );
    assert_eq!(parse_field_filter("full"), "*all");
}

#[test]
fn filter_space_list_becomes_comma_list() {
    assert_eq!(parse_field_filter("id key summary"), "id,key,summary");
}

#[test]
fn filter_comma_list_passes_through() {
    assert_eq!(parse_field_filter("id,key,summary"), "id,key,summary");
    assert_eq!(parse_field_filter("  id,key \n"), "id,key");
    assert_eq!(parse_field_filter("assignee.displayName"), "assignee.displayName");
}

#[test]
fn filter_empty_stays_empty() {
    assert_eq!(parse_field_filter(""), "");
    assert_eq!(parse_field_filter("   "), "");
}
