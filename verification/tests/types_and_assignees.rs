use jira_resolve::model::IssueTypeDescriptor;
use jira_resolve::model::NotFoundKind;
use jira_resolve::model::ResolutionError;
use jira_resolve::model::ProjectIssueTypes;
use jira_resolve::resolvers::AssigneeDirective;
use jira_resolve::resolvers::AssigneeResolver;
use jira_resolve::resolvers::IssueTypeResolver;

fn issue_type(id: &str, name: &str, untranslated: &str, subtask: bool) -> IssueTypeDescriptor {
    IssueTypeDescriptor {
        id: id.to_string(),
        name: name.to_string(),
        untranslated_name: untranslated.to_string(),
        is_subtask: subtask,
    }
}

fn catalog_with(project: &str, types: Vec<IssueTypeDescriptor>) -> Vec<ProjectIssueTypes> {
    vec![ProjectIssueTypes { project_key: project.to_string(), issue_types: types }]
}

#[test]
fn issue_type_matches_ignoring_case() {
    let catalog = catalog_with("PROJ", vec![issue_type("10001", "Bug", "Bug", false)]);
    let got = IssueTypeResolver::resolve(&catalog, "PROJ", "bug").unwrap();
    assert_eq!(got.id, "10001");
    assert!(!got.is_subtask);
}

#[test]
fn issue_type_matches_untranslated_name() {
    let catalog = catalog_with("PROJ", vec![issue_type("10002", "Fehler", "Bug", false)]);
    let got = IssueTypeResolver::resolve(&catalog, "PROJ", "Bug").unwrap();
    assert_eq!(got.id, "10002");
}

#[test]
fn issue_type_reports_subtask_flag() {
    let catalog = catalog_with("PROJ", vec![issue_type("10003", "Subtask", "Subtask", true)]);
    let got = IssueTypeResolver::resolve(&catalog, "PROJ", "subtask").unwrap();
    assert!(got.is_subtask);
}

#[test]
fn missing_project_and_missing_type_stay_distinguishable() {
    let catalog = catalog_with("PROJ", vec![issue_type("10001", "Bug", "Bug", false)]);
    let no_project = IssueTypeResolver::resolve(&catalog, "OTHER", "Bug");
    assert_eq!(no_project.unwrap_err(), NotFoundKind::Project);
    let no_type = IssueTypeResolver::resolve(&catalog, "PROJ", "Epic");
    assert_eq!(no_type.unwrap_err(), NotFoundKind::IssueType);
}

#[test]
fn project_key_lookup_is_exact() {
    let catalog = catalog_with("PROJ", vec![issue_type("10001", "Bug", "Bug", false)]);
    let got = IssueTypeResolver::resolve(&catalog, "proj", "Bug");
    assert_eq!(got.unwrap_err(), NotFoundKind::Project);
}

#[test]
fn failure_labels_name_what_was_missing() {
    assert_eq!(NotFoundKind::Project.label(), "project");
    assert_eq!(NotFoundKind::IssueType.label(), "issue type");
    assert_eq!(NotFoundKind::Field.label(), "field");
    assert_eq!(NotFoundKind::Transition.label(), "transition");
    assert_eq!(ResolutionError::NotFound(NotFoundKind::Field).label(), "field");
    assert_eq!(ResolutionError::UpstreamUnavailable.label(), "upstream unavailable");
}

#[test]
fn me_token_resolves_to_current_user() {
    let got = AssigneeResolver::resolve("me", Some("5b10a2844c20165700ede21g".to_string()));
    assert_eq!(got.unwrap(), "5b10a2844c20165700ede21g");
    assert_eq!(AssigneeResolver::classify("ME"), AssigneeDirective::LookupCurrentUser);
}

#[test]
fn me_token_fails_when_lookup_failed() {
    let got = AssigneeResolver::resolve("me", None);
    assert!(got.is_none());
}

#[test]
fn unassigned_token_is_empty_string_not_failure() {
    let got = AssigneeResolver::resolve("unassigned", None);
    assert_eq!(got, Some(String::new()));
    assert_ne!(got, None);
    assert_eq!(AssigneeResolver::classify("Unassigned"), AssigneeDirective::Unassign);
}

#[test]
fn other_tokens_pass_through_unvalidated() {
    let got = AssigneeResolver::resolve("712020:abcd", None);
    assert_eq!(got.unwrap(), "712020:abcd");
    assert_eq!(AssigneeResolver::classify("712020:abcd"), AssigneeDirective::Passthrough);
}
